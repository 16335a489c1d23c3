use algea::kernels::select_u64;
use algea::swizzle::{XY, XYZ, XYZW};
use algea::{Mask, Select, Vector};

#[test]
fn comparisons_give_one_mask_lane_per_vector_lane() {
    let a = Vector::from_array([1i32, 5, -3, 8]);
    let b = Vector::from_array([2i32, 5, -4, 8]);
    assert_eq!(a.each_eq(b).to_array(), [false, true, false, true]);
    assert_eq!(a.each_ne(b).to_array(), [true, false, true, false]);
    assert_eq!(a.each_lt(b).to_array(), [true, false, false, false]);
    assert_eq!(a.each_le(b).to_array(), [true, true, false, true]);
    assert_eq!(a.each_gt(b).to_array(), [false, false, true, false]);
    assert_eq!(a.each_ge(b).to_array(), [false, true, true, true]);

    // Unsigned lanes compare as unsigned numbers.
    let u = Vector::from_array([u64::MAX, 0]);
    let w = Vector::from_array([1u64, 1]);
    assert_eq!(u.each_gt(w).to_array(), [true, false]);
    assert_eq!(u.each_lt(w).to_array(), [false, true]);
}

#[test]
fn mask_constructors_and_queries() {
    let m: Mask<i32, 4> = Mask::from_array([true, false, true, false]);
    assert_eq!(m.to_array(), [true, false, true, false]);
    assert!(m.any());
    assert!(!m.all());
    assert!(Mask::<i64, 3>::splat(true).all());
    assert!(!Mask::<i64, 3>::splat(false).any());
    assert_eq!(Mask::<i32, 2>::default().to_array(), [false, false]);
    let f: Mask<i64, 2> = [false, true].into();
    assert_eq!(f.to_array(), [false, true]);
    assert!(!Mask::<i32, 0>::splat(false).any());
    assert!(Mask::<i32, 0>::splat(false).all());
}

#[test]
fn mask_logic() {
    let a: Mask<i32, 4> = Mask::from_array([true, true, false, false]);
    let b: Mask<i32, 4> = Mask::from_array([true, false, true, false]);
    assert_eq!((!a).to_array(), [false, false, true, true]);
    assert_eq!((a & b).to_array(), [true, false, false, false]);
    assert_eq!((a | b).to_array(), [true, true, true, false]);
    assert_eq!((a ^ b).to_array(), [false, true, true, false]);

    let mut c = a;
    c &= b;
    c |= Mask::from_array([false, false, false, true]);
    c ^= Mask::splat(true);
    assert_eq!(c.to_array(), [false, true, true, false]);
}

#[test]
fn masks_as_integer_vectors() {
    let m: Mask<i32, 3> = Mask::from_array([true, false, true]);
    assert_eq!(m.to_vector().to_array(), [-1, 0, -1]);
    let n: Mask<i64, 2> = Mask::from_array([false, true]);
    assert_eq!(n.to_vector().to_array(), [0, -1]);
}

#[test]
fn select_picks_lanes_by_mask() {
    let m: Mask<i32, 4> = Mask::from_array([true, false, false, true]);
    let t = Vector::from_array([1u32, 2, 3, 4]);
    let f = Vector::from_array([10u32, 20, 30, 40]);
    assert_eq!(m.select(t, f).to_array(), [1, 20, 30, 4]);

    let tm: Mask<i64, 4> = Mask::splat(true);
    let fm: Mask<i64, 4> = Mask::splat(false);
    assert_eq!(m.select(tm, fm).to_array(), [true, false, false, true]);

    // Comparing and then selecting gives the lane-wise maximum.
    let a = Vector::from_array([3i64, -1, 7]);
    let b = Vector::from_array([2i64, 4, 7]);
    assert_eq!(a.each_gt(b).select(a, b).to_array(), [3, 4, 7]);
}

#[test]
fn select_u64_reads_one_bit_per_lane() {
    let t = [[1u8, 2, 3, 4, 5]];
    let f = [[10u8, 20, 30, 40, 50]];
    assert_eq!(select_u64(0b10101, t, f), [[1, 20, 3, 40, 5]]);
    assert_eq!(select_u64(0, t, f), f);
    assert_eq!(select_u64(u64::MAX, t, f), t);
}

#[test]
fn swizzles_and_named_components() {
    let v = Vector::from_array([1i32, 2, 3, 4]);
    assert_eq!(v.xx().to_array(), [1, 1]);
    assert_eq!(v.xxx().to_array(), [1, 1, 1]);
    assert_eq!(v.xxxx().to_array(), [1, 1, 1, 1]);
    assert_eq!(v.swizzle2(3, 0).to_array(), [4, 1]);
    assert_eq!(v.swizzle3(2, 2, 1).to_array(), [3, 3, 2]);
    assert_eq!(v.swizzle4(3, 2, 1, 0).to_array(), [4, 3, 2, 1]);

    let xyzw = v.to_xyzw();
    assert_eq!(xyzw, XYZW { x: 1, y: 2, z: 3, w: 4 });
    assert_eq!(Vector::from_xyzw(xyzw), v);
    let xy = Vector::from_array([5u64, 6]).to_xy();
    assert_eq!((xy.x, xy.y), (5, 6));
    assert_eq!(Vector::from_xy(XY { x: 7u32, y: 8 }).to_array(), [7, 8]);
    let xyz = Vector::from_xyz(XYZ { x: -1i64, y: 0, z: 1 });
    assert_eq!(xyz.to_xyz(), XYZ { x: -1, y: 0, z: 1 });
}

#[test]
fn unit_axes() {
    assert_eq!(Vector::<i32, 4>::pos_x().to_array(), [1, 0, 0, 0]);
    assert_eq!(Vector::<i32, 4>::pos_y().to_array(), [0, 1, 0, 0]);
    assert_eq!(Vector::<u32, 3>::pos_z().to_array(), [0, 0, 1]);
    assert_eq!(Vector::<u64, 4>::pos_w().to_array(), [0, 0, 0, 1]);
    assert_eq!(Vector::<i64, 2>::neg_x().to_array(), [-1, 0]);
    assert_eq!(Vector::<i64, 2>::neg_y().to_array(), [0, -1]);
    assert_eq!(Vector::<i32, 3>::neg_z().to_array(), [0, 0, -1]);
    assert_eq!(Vector::<i32, 4>::neg_w().to_array(), [0, 0, 0, -1]);
}

#[test]
fn building_vectors_from_parts() {
    let x = Vector::from_scalar(1i32);
    assert_eq!(x.to_array(), [1]);
    let ab = Vector::<i32, 3>::concat(x, Vector::from_array([2, 3]));
    assert_eq!(ab.to_array(), [1, 2, 3]);
    let abc = Vector::<i32, 4>::concat3(Vector::from_array([1, 2]), Vector::from_scalar(3), Vector::from_scalar(4));
    assert_eq!(abc.to_array(), [1, 2, 3, 4]);
    let abcd = Vector::<u32, 4>::concat4(
        Vector::from_scalar(9),
        Vector::from_scalar(8),
        Vector::from_scalar(7),
        Vector::from_scalar(6),
    );
    assert_eq!(abcd.to_array(), [9, 8, 7, 6]);
}

#[test]
fn boolean_arrays_convert_into_masks_and_back() {
    let mask: Mask<i32, 2> = [true, false].into();
    assert_eq!(mask.to_array(), [true, false]);
    let v: Vector<u64, 3> = [7, 8, 9].into();
    assert_eq!(v.to_array(), [7, 8, 9]);
}

#[test]
fn named_swizzles_pick_lanes_by_component() {
    let v = Vector::from_array([1i32, 2, 3, 4]);
    assert_eq!(v.xy().to_array(), [1, 2]);
    assert_eq!(v.wx().to_array(), [4, 1]);
    assert_eq!(v.zyx().to_array(), [3, 2, 1]);
    assert_eq!(v.wzyx().to_array(), [4, 3, 2, 1]);
    assert_eq!(v.yyww().to_array(), [2, 2, 4, 4]);
    let u = Vector::from_array([5u64, 6]);
    assert_eq!(u.yx().to_array(), [6, 5]);
    assert_eq!(u.xyxy().to_array(), [5, 6, 5, 6]);
    let t = Vector::from_array([7i64, 8, 9]);
    assert_eq!(t.zzx().to_array(), [9, 9, 7]);
}

#[test]
fn masks_built_with_into_have_canonical_integer_lanes() {
    let m: Mask<i32, 3> = [true, false, true].into();
    assert_eq!(m.to_vector().to_array(), [-1, 0, -1]);
    let n: Mask<i64, 4> = Mask::from([false, true, true, false]);
    assert_eq!(n.to_vector().to_array(), [0, -1, -1, 0]);
}
