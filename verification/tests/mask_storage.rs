use algea::marker::MaskPrimitive;
use algea::{Mask, MaskStorage, Vector};

const T: i32 = -1;
const F: i32 = 0;

fn canonical<const M: usize, const N: usize>(value: [[i32; M]; N]) -> MaskStorage<i32, M, N> {
    MaskStorage::new(value).expect("every lane is 0 or -1")
}

fn round_trip<const M: usize, const N: usize>(value: [[bool; M]; N]) {
    assert_eq!(MaskStorage::<i32, M, N>::from_bool_array(value).to_bool_array(), value);
    assert_eq!(MaskStorage::<i64, M, N>::from_bool_array(value).to_bool_array(), value);
}

#[test]
fn mask_array_conversion_covers_all_16_storage_shapes() {
    round_trip([[true]]);
    round_trip([[true, false]]);
    round_trip([[true, false, true]]);
    round_trip([[true, false, true, false]]);

    round_trip([[true], [false]]);
    round_trip([[true, false], [false, true]]);
    round_trip([[true, false, true], [false, true, false]]);
    round_trip([[true, false, true, false], [false, true, false, true]]);

    round_trip([[true], [false], [true]]);
    round_trip([[true, false], [false, true], [true, true]]);
    round_trip([[true, false, true], [false, true, false], [true, true, false]]);
    round_trip([
        [true, false, true, false],
        [false, true, false, true],
        [true, true, false, false],
    ]);

    round_trip([[true], [false], [true], [true]]);
    round_trip([[true, false], [false, true], [true, true], [false, false]]);
    round_trip([
        [true, false, true],
        [false, true, false],
        [true, true, false],
        [false, false, true],
    ]);
    round_trip([
        [true, false, true, false],
        [false, true, false, true],
        [true, true, false, false],
        [false, false, true, true],
    ]);
}

fn assert_mask_query<const M: usize, const N: usize>(
    all_true: [[i32; M]; N],
    all_false: [[i32; M]; N],
    mixed: [[i32; M]; N],
) {
    assert!(canonical(all_true).all());
    assert!(canonical(all_true).any());
    assert!(!canonical(all_false).all());
    assert!(!canonical(all_false).any());
    assert!(!canonical(mixed).all());
    assert!(canonical(mixed).any());
}

#[test]
fn all_and_any_cover_all_16_storage_shapes() {
    assert!(canonical([[T]]).all());
    assert!(canonical([[T]]).any());
    assert!(!canonical([[F]]).all());
    assert!(!canonical([[F]]).any());
    assert_mask_query([[T, T]], [[F, F]], [[T, F]]);
    assert_mask_query([[T, T, T]], [[F, F, F]], [[F, T, F]]);
    assert_mask_query([[T; 4]], [[F; 4]], [[F, F, T, F]]);

    assert_mask_query([[T], [T]], [[F], [F]], [[F], [T]]);
    assert_mask_query([[T, T], [T, T]], [[F, F], [F, F]], [[T, F], [F, F]]);
    assert_mask_query([[T, T, T]; 2], [[F, F, F]; 2], [[F, T, F], [F, F, F]]);
    assert_mask_query([[T; 4]; 2], [[F; 4]; 2], [[F; 4], [F, F, F, T]]);

    assert_mask_query([[T], [T], [T]], [[F], [F], [F]], [[T], [F], [F]]);
    assert_mask_query([[T; 2]; 3], [[F; 2]; 3], [[F, F], [F, F], [F, T]]);
    assert_mask_query([[T; 3]; 3], [[F; 3]; 3], [[F, F, T], [F, F, F], [F, F, F]]);
    assert_mask_query([[T; 4]; 3], [[F; 4]; 3], [[F; 4], [T, F, F, F], [F; 4]]);

    assert_mask_query([[T]; 4], [[F]; 4], [[F], [T], [F], [F]]);
    assert_mask_query([[T; 2]; 4], [[F; 2]; 4], [[F, F], [T, F], [F, F], [F, F]]);
    assert_mask_query([[T; 3]; 4], [[F; 3]; 4], [[F; 3], [F; 3], [F, T, F], [F; 3]]);
    assert_mask_query([[T; 4]; 4], [[F; 4]; 4], [[F; 4], [F; 4], [F; 4], [F, F, F, T]]);
}

#[test]
fn mask_storage_validation_not_and_pack_unpack_preserve_canonical_lanes() {
    assert!(F.is_valid());
    assert!(T.is_valid());
    assert!(!1_i32.is_valid());
    assert!(!(-2_i32).is_valid());

    assert!(MaskStorage::new([[T, F, T, F]]).is_some());
    assert!(MaskStorage::new([[T, F, 1, F]]).is_none());
    assert!(MaskStorage::new([[T, F, T, F], [F; 4]]).is_some());
    assert!(MaskStorage::new([[T, F, T, F], [F, -2, F, F]]).is_none());

    let first = canonical([[T, F, T, F]]);
    let second = canonical([[F, T, F, T]]);
    assert_eq!(first.not().into_inner(), [[F, T, F, T]]);

    let packed: MaskStorage<i32, 4, 2> = MaskStorage::pack([first, second]);
    assert!(MaskStorage::new(packed.into_inner()).is_some());
    let unpacked = packed.unpack();
    assert_eq!(unpacked[0].into_inner(), [[T, F, T, F]]);
    assert_eq!(unpacked[1].into_inner(), [[F, T, F, T]]);
}

fn assert_canonical_lanes(mask: Mask<i32, 4>, expected: [i32; 4]) {
    assert_eq!(mask.to_vector().to_array(), expected);
}

#[test]
fn i32x4_comparisons_produce_canonical_lanes() {
    let a = Vector::from_array([-2, 5, 7, i32::MAX]);
    let b = Vector::from_array([-1, 5, 3, i32::MIN]);

    assert_canonical_lanes(a.each_eq(b), [F, T, F, F]);
    assert_canonical_lanes(a.each_ne(b), [T, F, T, T]);
    assert_canonical_lanes(a.each_lt(b), [T, F, F, F]);
    assert_canonical_lanes(a.each_le(b), [T, T, F, F]);
    assert_canonical_lanes(a.each_gt(b), [F, F, T, T]);
    assert_canonical_lanes(a.each_ge(b), [F, T, T, T]);
}

#[test]
fn u32x4_comparisons_produce_canonical_lanes() {
    let a = Vector::from_array([0u32, 5, u32::MAX, 1]);
    let b = Vector::from_array([1u32, 5, 0, 2]);

    assert_canonical_lanes(a.each_eq(b), [F, T, F, F]);
    assert_canonical_lanes(a.each_ne(b), [T, F, T, T]);
    assert_canonical_lanes(a.each_lt(b), [T, F, F, T]);
    assert_canonical_lanes(a.each_le(b), [T, T, F, T]);
    assert_canonical_lanes(a.each_gt(b), [F, F, T, F]);
    assert_canonical_lanes(a.each_ge(b), [F, T, T, F]);
}
