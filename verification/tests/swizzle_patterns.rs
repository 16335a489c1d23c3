use algea::kernels::{permute, permute2};

// `a` holds [0, 1, 2, 3] and `b` holds [4, 5, 6, 7], so output lane `k` must equal `Ik`.
fn check(indices: [usize; 4]) {
    let a = [0f32, 1., 2., 3.];
    let b = [4f32, 5., 6., 7.];
    assert_eq!(
        permute2(a, b, indices),
        [indices[0] as f32, indices[1] as f32, indices[2] as f32, indices[3] as f32],
        "f32 {:?}",
        indices
    );

    let a = [0f64, 1., 2., 3.];
    let b = [4f64, 5., 6., 7.];
    assert_eq!(
        permute2(a, b, indices),
        [indices[0] as f64, indices[1] as f64, indices[2] as f64, indices[3] as f64],
        "f64 {:?}",
        indices
    );
}

// One input, four lanes out. `a` holds [0, 1, 2, 3] and the indices are its lane numbers.
fn check_one(indices: [usize; 4]) {
    let a = [0f32, 1., 2., 3.];
    assert_eq!(
        permute(a, indices),
        [indices[0] as f32, indices[1] as f32, indices[2] as f32, indices[3] as f32]
    );

    let a = [0f64, 1., 2., 3.];
    assert_eq!(
        permute(a, indices),
        [indices[0] as f64, indices[1] as f64, indices[2] as f64, indices[3] as f64]
    );
}

// Two lanes out of two inputs; only the first two lanes are compared.
fn check_two(i0: usize, i1: usize) {
    let a = [0f32, 1., 2., 3.];
    let b = [4f32, 5., 6., 7.];
    let produced = permute2(a, b, [i0, i1, i0, i1]);
    assert_eq!([produced[0], produced[1]], [i0 as f32, i1 as f32]);

    let a = [0f64, 1., 2., 3.];
    let b = [4f64, 5., 6., 7.];
    let produced = permute2(a, b, [i0, i1, i0, i1]);
    assert_eq!([produced[0], produced[1]], [i0 as f64, i1 as f64]);
}

// Two lanes out of one input; only the first two lanes are compared.
fn check_one_two(i0: usize, i1: usize) {
    let a = [0f32, 1., 2., 3.];
    let produced = permute(a, [i0, i1, i0, i1]);
    assert_eq!([produced[0], produced[1]], [i0 as f32, i1 as f32]);

    let a = [0f64, 1., 2., 3.];
    let produced = permute(a, [i0, i1, i0, i1]);
    assert_eq!([produced[0], produced[1]], [i0 as f64, i1 as f64]);
}

#[test]
fn one_instruction_patterns() {
    check([0, 1, 4, 5]); // aabb
    check([4, 5, 0, 1]); // aabb, operands swapped
    check([0, 4, 1, 5]); // unpack_lo(a, b)
    check([2, 6, 3, 7]); // unpack_hi(a, b)
    check([4, 0, 5, 1]); // unpack_lo(b, a)
    check([6, 2, 7, 3]); // unpack_hi(b, a)
}

#[test]
fn one_input_patterns() {
    check_one([3, 1, 0, 2]);
    check_one([3, 2, 1, 0]);
    check_one([0, 0, 0, 0]);
    check_one([3, 3, 2, 2]);
    check_one([1, 1, 3, 3]);
}

#[test]
fn two_lane_patterns() {
    check_one_two(0, 1);
    check_one_two(3, 1);
    check_one_two(2, 2);
    check_two(0, 4); // unpack_lo_2(a, b)
    check_two(2, 6); // unpack_hi_2(a, b)
    check_two(4, 0); // unpack_lo_2(b, a)
    check_two(6, 2); // unpack_hi_2(b, a)
    check_two(1, 6);
    check_two(5, 3);
    check_two(7, 0);
}

#[test]
fn two_instruction_patterns() {
    check([0, 1, 2, 4]); // aaab
    check([0, 1, 4, 2]); // aaba
    check([0, 4, 1, 2]); // abaa
    check([1, 4, 3, 6]); // abab
    check([0, 4, 5, 1]); // abba
    check([0, 4, 5, 6]); // abbb
    check([4, 0, 1, 2]); // abbb, operands swapped
    check([4, 0, 1, 5]); // abba, operands swapped
    check([5, 0, 7, 2]); // abab, operands swapped
    check([4, 0, 5, 6]); // abaa, operands swapped
    check([4, 5, 0, 6]); // aaba, operands swapped
    check([4, 5, 6, 0]); // aaab, operands swapped
}

#[test]
fn duplicated_lanes() {
    check([2, 2, 6, 6]);
    check([5, 5, 1, 1]);
}
