use algea::{EachOrd, Vector};

#[test]
fn wrapping_lane_arithmetic() {
    let a = Vector::from_array([i32::MAX, i32::MIN, 7, -7]);
    let b = Vector::from_array([1, 1, 2, 2]);
    assert_eq!((a + b).to_array(), [i32::MIN, i32::MIN + 1, 9, -5]);
    assert_eq!((a - b).to_array(), [i32::MAX - 1, i32::MAX, 5, -9]);
    assert_eq!((a * b).to_array(), [i32::MAX, i32::MIN, 14, -14]);

    let u = Vector::from_array([u32::MAX, 0u32]);
    let one = Vector::from_array([1u32, 1]);
    assert_eq!((u + one).to_array(), [0, 1]);
    assert_eq!((Vector::from_array([0u32, 5]) - one).to_array(), [u32::MAX, 4]);
    assert_eq!((Vector::from_array([u64::MAX, 3u64]) * Vector::from_array([2u64, 3])).to_array(), [u64::MAX - 1, 9]);
}

#[test]
fn division_rounds_toward_zero_and_wraps() {
    let a = Vector::from_array([-7i32, 7, i32::MIN, 9]);
    let b = Vector::from_array([2i32, -2, -1, 3]);
    assert_eq!((a / b).to_array(), [-3, -3, i32::MIN, 3]);
    assert_eq!((a % b).to_array(), [-1, 1, 0, 0]);

    let c = Vector::from_array([i64::MIN, -9]);
    assert_eq!((c / -1i64).to_array(), [i64::MIN, 9]);
    assert_eq!((c % -1i64).to_array(), [0, 0]);

    assert_eq!((Vector::from_array([17u32, 4]) / Vector::from_array([5u32, 4])).to_array(), [3, 1]);
    assert_eq!((Vector::from_array([17u32, 4]) % 5u32).to_array(), [2, 4]);
    assert_eq!((100u32 / Vector::from_array([7u32, 10])).to_array(), [14, 10]);
    assert_eq!((100i32 % Vector::from_array([7i32, -30])).to_array(), [2, 10]);
}

#[test]
fn scalar_operands_act_on_every_lane() {
    let v = Vector::from_array([1i32, -2, 3]);
    assert_eq!((v + 10).to_array(), [11, 8, 13]);
    assert_eq!((v - 1).to_array(), [0, -3, 2]);
    assert_eq!((v * -3).to_array(), [-3, 6, -9]);
    assert_eq!((10 - v).to_array(), [9, 12, 7]);
    assert_eq!((2 * v).to_array(), [2, -4, 6]);
    assert_eq!((5u32 + Vector::from_array([1u32, u32::MAX])).to_array(), [6, 4]);

    let mut w = v;
    w += 1;
    assert_eq!(w.to_array(), [2, -1, 4]);
    w -= v;
    assert_eq!(w.to_array(), [1, 1, 1]);
    w *= 4;
    assert_eq!(w.to_array(), [4, 4, 4]);
    w += v;
    assert_eq!(w.to_array(), [5, 2, 7]);
    w *= v;
    assert_eq!(w.to_array(), [5, -4, 21]);
    w -= 5;
    assert_eq!(w.to_array(), [0, -9, 16]);
}

#[test]
fn negation_and_absolute_values() {
    let v = Vector::from_array([i32::MIN, -5, 0, 5]);
    assert_eq!((-v).to_array(), [i32::MIN, 5, 0, -5]);
    assert_eq!(v.abs().to_array(), [i32::MIN, 5, 0, 5]);
    assert_eq!(Vector::from_array([i64::MIN, -1]).abs().to_array(), [i64::MIN, 1]);
}

#[test]
fn abs_diff_is_exact_in_the_unsigned_type() {
    let a = Vector::from_array([i32::MIN, 3, -3, 10]);
    let b = Vector::from_array([i32::MAX, -3, 3, 10]);
    assert_eq!(a.abs_diff(b).to_array(), [u32::MAX, 6, 6, 0]);
    assert_eq!(b.abs_diff(a).to_array(), [u32::MAX, 6, 6, 0]);

    let c = Vector::from_array([0u64, u64::MAX, 5]);
    let d = Vector::from_array([u64::MAX, 0u64, 9]);
    assert_eq!(c.abs_diff(d).to_array(), [u64::MAX, u64::MAX, 4]);
    assert_eq!(Vector::from_array([i64::MIN]).abs_diff(Vector::from_array([i64::MAX])).to_array(), [u64::MAX]);
}

#[test]
fn bitwise_operations() {
    let a = Vector::from_array([0b1100u32, 0xffff_0000]);
    let b = Vector::from_array([0b1010u32, 0x00ff_ff00]);
    assert_eq!((a & b).to_array(), [0b1000, 0x00ff_0000]);
    assert_eq!((a | b).to_array(), [0b1110, 0xffff_ff00]);
    assert_eq!((a ^ b).to_array(), [0b0110, 0xff00_ff00]);
    assert_eq!((!a).to_array(), [!0b1100u32, 0x0000_ffff]);
    assert_eq!((a & 0xffu32).to_array(), [0b1100, 0]);
    assert_eq!((0xf0u32 | Vector::from_array([1u32, 2])).to_array(), [0xf1, 0xf2]);

    let mut m = a;
    m &= b;
    m |= 1u32;
    m ^= Vector::from_array([1u32, 1]);
    assert_eq!(m.to_array(), [0b1000, 0x00ff_0000]);
    assert_eq!((!Vector::from_array([0i64, -1])).to_array(), [-1, 0]);
}

#[test]
fn shifts_take_the_count_modulo_the_lane_width() {
    let a = Vector::from_array([1u32, 1, 0x8000_0000, 0xf0]);
    let s = Vector::from_array([3u32, 33, 31, 36]);
    assert_eq!((a << s).to_array(), [8, 2, 0, 0xf00]);
    assert_eq!((a >> s).to_array(), [0, 0, 1, 0xf]);

    let n = Vector::from_array([-16i32, -16, 16]);
    assert_eq!((n >> 2).to_array(), [-4, -4, 4]);
    assert_eq!((n << 1).to_array(), [-32, -32, 32]);
    assert_eq!((n >> 34).to_array(), [-4, -4, 4]);
    assert_eq!((Vector::from_array([1i64, 1]) << Vector::from_array([63i64, 64])).to_array(), [i64::MIN, 1]);

    let mut m = Vector::from_array([1u64, 2]);
    m <<= 4u64;
    assert_eq!(m.to_array(), [16, 32]);
    m >>= Vector::from_array([1u64, 65]);
    assert_eq!(m.to_array(), [8, 16]);
}

#[test]
fn casts_follow_as_conversions() {
    let v = Vector::from_array([-1i32, 5, i32::MIN]);
    assert_eq!(v.cast::<u32>().to_array(), [u32::MAX, 5, 0x8000_0000]);
    assert_eq!(v.cast::<i64>().to_array(), [-1, 5, i32::MIN as i64]);
    assert_eq!(v.cast::<u64>().to_array(), [u64::MAX, 5, 0xffff_ffff_8000_0000]);
    assert_eq!(Vector::from_array([0x1_2345_6789u64, u64::MAX]).cast::<i32>().to_array(), [0x2345_6789, -1]);
    assert_eq!(Vector::from_array([u32::MAX, 1]).cast::<i64>().to_array(), [u32::MAX as i64, 1]);
    assert_eq!(v.cast_unsigned().to_array(), [u32::MAX, 5, 0x8000_0000]);
    assert_eq!(Vector::from_array([u64::MAX, 7]).cast_signed().to_array(), [-1i64, 7]);
}

#[test]
fn lane_wise_ordering() {
    let a = Vector::from_array([1i32, 5, -3, 8]);
    let b = Vector::from_array([2i32, 4, -3, -8]);
    assert_eq!(a.each_max(b).to_array(), [2, 5, -3, 8]);
    assert_eq!(a.each_min(b).to_array(), [1, 4, -3, -8]);

    let lo = Vector::from_array([0i32, 0, 0, 0]);
    let hi = Vector::from_array([4i32, 4, 4, 4]);
    assert_eq!(a.each_clamp(lo, hi).to_array(), [1, 4, 0, 4]);
    assert_eq!(Vector::from_array([u32::MAX, 0]).each_clamp(Vector::from_array([1, 1]), Vector::from_array([9, 9])).to_array(), [9, 1]);
}

#[test]
fn constructors_and_element_access() {
    assert_eq!(Vector::<i32, 3>::zero().to_array(), [0, 0, 0]);
    assert_eq!(Vector::<u64, 2>::one().to_array(), [1, 1]);
    assert_eq!(Vector::<i64, 4>::splat(-2).to_array(), [-2; 4]);
    assert_eq!(Vector::<u32, 2>::default().to_array(), [0, 0]);

    let mut v: Vector<i32, 3> = [1, 2, 3].into();
    assert_eq!(*v.index(1), 2);
    *v.index_mut(1) = 20;
    v.as_mut_array()[2] = 30;
    assert_eq!(v.as_array(), &[1, 20, 30]);
    let back: [i32; 3] = v.into();
    assert_eq!(back, [1, 20, 30]);
    assert_eq!(Vector::from([4u32, 5]), Vector::from_array([4u32, 5]));
    assert!(Vector::from_array([1i32, 2]) != Vector::from_array([1i32, 3]));
}

#[test]
fn sums_and_products_of_slices() {
    let vs = [
        Vector::from_array([1i32, 2]),
        Vector::from_array([3i32, 4]),
        Vector::from_array([i32::MAX, -1]),
    ];
    assert_eq!(Vector::sum(&vs).to_array(), [i32::MIN + 3, 5]);
    assert_eq!(Vector::product(&vs).to_array(), [i32::MAX - 2, -8]);
    assert_eq!(Vector::<i32, 2>::sum(&[]).to_array(), [0, 0]);
    assert_eq!(Vector::<u32, 3>::product(&[]).to_array(), [1, 1, 1]);
    assert_eq!(Vector::sum(&vs[..1]).to_array(), [1, 2]);
}

#[test]
fn division_in_place() {
    let mut v = Vector::from_array([-7i32, 7, i32::MIN]);
    v.div_assign(Vector::from_array([2, -2, -1]));
    assert_eq!(v.to_array(), [-3, -3, i32::MIN]);
    let mut w = Vector::from_array([-7i64, 7, 9]);
    w.rem_assign(Vector::from_array([2, -2, 3]));
    assert_eq!(w.to_array(), [-1, 1, 0]);
}
