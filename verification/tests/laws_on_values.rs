use algea::row_major::Matrix;
use algea::{EachOrd, Mask, Select, Vector};

#[test]
fn adding_then_subtracting_restores_the_vector() {
    let a = Vector::from_array([i32::MAX, i32::MIN, 0, -5]);
    let b = Vector::from_array([i32::MAX, 1, -1, 12]);
    assert_eq!((a + b) - b, a);
    assert_eq!(a + b, b + a);
    assert_eq!(a + Vector::zero(), a);
    let u = Vector::from_array([u64::MAX, 3]);
    let v = Vector::from_array([2u64, u64::MAX]);
    assert_eq!((u + v) - v, u);
}

#[test]
fn negating_twice_restores_the_vector() {
    let a = Vector::from_array([i64::MIN, -1, 0, i64::MAX]);
    assert_eq!(-(-a), a);
}

#[test]
fn quotient_and_remainder_recompose_the_dividend() {
    let a = Vector::from_array([-7i32, 7, i32::MIN, 123]);
    let b = Vector::from_array([2i32, -2, -1, 10]);
    assert_eq!((a / b) * b + a % b, a);
    let c = Vector::from_array([u32::MAX, 9]);
    let d = Vector::from_array([7u32, 10]);
    assert_eq!((c / d) * d + c % d, c);
}

#[test]
fn sign_casts_round_trip() {
    let a = Vector::from_array([i32::MIN, -1, 0, i32::MAX]);
    assert_eq!(a.cast_unsigned().cast_signed(), a);
    let u = Vector::from_array([u64::MAX, 1 << 63, 0]);
    assert_eq!(u.cast_signed().cast_unsigned(), u);
    assert_eq!(a.cast::<i32>(), a);
}

#[test]
fn comparisons_complement_each_other() {
    let a = Vector::from_array([1u32, 5, 7]);
    let b = Vector::from_array([2u32, 5, 3]);
    assert_eq!((!a.each_lt(b)).to_array(), a.each_ge(b).to_array());
    assert_eq!((!a.each_gt(b)).to_array(), a.each_le(b).to_array());
    assert_eq!((!a.each_eq(b)).to_array(), a.each_ne(b).to_array());
}

#[test]
fn selecting_between_equal_values_ignores_the_mask() {
    let m: Mask<i32, 3> = Mask::from_array([true, false, true]);
    let v = Vector::from_array([4i32, 5, 6]);
    assert_eq!(m.select(v, v), v);
}

#[test]
fn clamping_stays_within_bounds_and_keeps_inner_lanes() {
    let lo = Vector::from_array([-2i64, 0, 5]);
    let hi = Vector::from_array([2i64, 0, 9]);
    let a = Vector::from_array([-9i64, 4, 6]);
    let c = a.each_clamp(lo, hi);
    assert_eq!(c.to_array(), [-2, 0, 6]);
    assert_eq!(c.each_max(lo).each_min(hi), c);
}

#[test]
fn transposing_twice_restores_the_matrix() {
    let m = Matrix::from_rows([[1u32, 2, 3, 4], [5, 6, 7, 8], [9, 10, 11, 12]]);
    assert_eq!(m.transpose().transpose(), m);
}
