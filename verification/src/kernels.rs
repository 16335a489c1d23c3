//! Lane-wise kernels on fixed-size arrays; vectors, matrices and masks are
//! built on them.
//!
//! A one-dimensional array holds the lanes of a vector; a two-dimensional
//! array `[[T; M]; N]` holds `N` vectors of `M` lanes each.
use vstd::prelude::*;

use crate::marker::{CastFrom, Int, Lane, MaskPrimitive, Signed, abs, tdiv, trem};

verus! {

// ---------------------------------------------------------------------------
// Lane-level meaning of each operation.
// ---------------------------------------------------------------------------
/// Wrapping addition of two lanes.
pub open spec fn add_lane<T: Lane>(x: T, y: T) -> T {
    T::from_int(x.val() + y.val())
}

/// Wrapping subtraction of two lanes.
pub open spec fn sub_lane<T: Lane>(x: T, y: T) -> T {
    T::from_int(x.val() - y.val())
}

/// Wrapping multiplication of two lanes.
pub open spec fn mul_lane<T: Lane>(x: T, y: T) -> T {
    T::from_int(x.val() * y.val())
}

/// Division rounding toward zero, wrapping on overflow.
pub open spec fn div_lane<T: Lane>(x: T, y: T) -> T {
    T::from_int(tdiv(x.val(), y.val()))
}

/// Remainder of the division rounding toward zero.
pub open spec fn rem_lane<T: Lane>(x: T, y: T) -> T {
    T::from_int(trem(x.val(), y.val()))
}

/// Wrapping negation.
pub open spec fn neg_lane<T: Lane>(x: T) -> T {
    T::from_int(-x.val())
}

/// Wrapping absolute value.
pub open spec fn abs_lane<T: Lane>(x: T) -> T {
    T::from_int(abs(x.val()))
}

/// The larger of two lanes.
pub open spec fn max_lane<T: Lane>(x: T, y: T) -> T {
    if x.val() < y.val() {
        y
    } else {
        x
    }
}

/// The smaller of two lanes.
pub open spec fn min_lane<T: Lane>(x: T, y: T) -> T {
    if y.val() < x.val() {
        y
    } else {
        x
    }
}

/// `x` restricted to the inclusive range `[lo, hi]`.
pub open spec fn clamp_lane<T: Lane>(x: T, lo: T, hi: T) -> T {
    min_lane(max_lane(x, lo), hi)
}

/// Rust's `as` conversion of a lane.
pub open spec fn cast_lane<T: Lane, U: Lane>(x: T) -> U {
    U::from_int(x.val())
}

/// `n` copies of `x`.
pub open spec fn splat_seq<T>(x: T, n: nat) -> Seq<T> {
    Seq::new(n, |i: int| x)
}

// ---------------------------------------------------------------------------
// Sequence-level meaning: the operation applied to every lane.
// ---------------------------------------------------------------------------
pub open spec fn add_lanes<T: Lane>(a: Seq<T>, b: Seq<T>) -> Seq<T> {
    Seq::new(a.len(), |i: int| add_lane(a[i], b[i]))
}

pub open spec fn sub_lanes<T: Lane>(a: Seq<T>, b: Seq<T>) -> Seq<T> {
    Seq::new(a.len(), |i: int| sub_lane(a[i], b[i]))
}

pub open spec fn mul_lanes<T: Lane>(a: Seq<T>, b: Seq<T>) -> Seq<T> {
    Seq::new(a.len(), |i: int| mul_lane(a[i], b[i]))
}

pub open spec fn div_lanes<T: Lane>(a: Seq<T>, b: Seq<T>) -> Seq<T> {
    Seq::new(a.len(), |i: int| div_lane(a[i], b[i]))
}

pub open spec fn rem_lanes<T: Lane>(a: Seq<T>, b: Seq<T>) -> Seq<T> {
    Seq::new(a.len(), |i: int| rem_lane(a[i], b[i]))
}

pub open spec fn neg_lanes<T: Lane>(a: Seq<T>) -> Seq<T> {
    Seq::new(a.len(), |i: int| neg_lane(a[i]))
}

pub open spec fn abs_lanes<T: Lane>(a: Seq<T>) -> Seq<T> {
    Seq::new(a.len(), |i: int| abs_lane(a[i]))
}

pub open spec fn max_lanes<T: Lane>(a: Seq<T>, b: Seq<T>) -> Seq<T> {
    Seq::new(a.len(), |i: int| max_lane(a[i], b[i]))
}

pub open spec fn min_lanes<T: Lane>(a: Seq<T>, b: Seq<T>) -> Seq<T> {
    Seq::new(a.len(), |i: int| min_lane(a[i], b[i]))
}

pub open spec fn clamp_lanes<T: Lane>(a: Seq<T>, lo: Seq<T>, hi: Seq<T>) -> Seq<T> {
    Seq::new(a.len(), |i: int| clamp_lane(a[i], lo[i], hi[i]))
}

pub open spec fn not_lanes<T: Int>(a: Seq<T>) -> Seq<T> {
    Seq::new(a.len(), |i: int| a[i].not_spec())
}

pub open spec fn and_lanes<T: Int>(a: Seq<T>, b: Seq<T>) -> Seq<T> {
    Seq::new(a.len(), |i: int| a[i].and_spec(b[i]))
}

pub open spec fn or_lanes<T: Int>(a: Seq<T>, b: Seq<T>) -> Seq<T> {
    Seq::new(a.len(), |i: int| a[i].or_spec(b[i]))
}

pub open spec fn xor_lanes<T: Int>(a: Seq<T>, b: Seq<T>) -> Seq<T> {
    Seq::new(a.len(), |i: int| a[i].xor_spec(b[i]))
}

pub open spec fn shl_lanes<T: Int>(a: Seq<T>, b: Seq<T>) -> Seq<T> {
    Seq::new(a.len(), |i: int| a[i].shl_spec(b[i]))
}

pub open spec fn shr_lanes<T: Int>(a: Seq<T>, b: Seq<T>) -> Seq<T> {
    Seq::new(a.len(), |i: int| a[i].shr_spec(b[i]))
}

pub open spec fn cast_lanes<T: Lane, U: Lane>(a: Seq<T>) -> Seq<U> {
    Seq::new(a.len(), |i: int| cast_lane::<T, U>(a[i]))
}

pub open spec fn eq_lanes<T: Lane>(a: Seq<T>, b: Seq<T>) -> Seq<bool> {
    Seq::new(a.len(), |i: int| a[i].val() == b[i].val())
}

pub open spec fn ne_lanes<T: Lane>(a: Seq<T>, b: Seq<T>) -> Seq<bool> {
    Seq::new(a.len(), |i: int| a[i].val() != b[i].val())
}

pub open spec fn lt_lanes<T: Lane>(a: Seq<T>, b: Seq<T>) -> Seq<bool> {
    Seq::new(a.len(), |i: int| a[i].val() < b[i].val())
}

pub open spec fn le_lanes<T: Lane>(a: Seq<T>, b: Seq<T>) -> Seq<bool> {
    Seq::new(a.len(), |i: int| a[i].val() <= b[i].val())
}

pub open spec fn gt_lanes<T: Lane>(a: Seq<T>, b: Seq<T>) -> Seq<bool> {
    Seq::new(a.len(), |i: int| a[i].val() > b[i].val())
}

pub open spec fn ge_lanes<T: Lane>(a: Seq<T>, b: Seq<T>) -> Seq<bool> {
    Seq::new(a.len(), |i: int| a[i].val() >= b[i].val())
}

/// Every lane of `a` is a canonical mask lane.
pub open spec fn all_valid<M: MaskPrimitive>(a: Seq<M>) -> bool {
    forall|i: int| 0 <= i < a.len() ==> #[trigger] a[i].valid()
}

/// The truth value of every mask lane.
pub open spec fn mask_bools<M: MaskPrimitive>(a: Seq<M>) -> Seq<bool> {
    Seq::new(a.len(), |i: int| a[i].is_set())
}

/// Lane `i` comes from `t` where mask lane `i` reads as true, else from `f`.
pub open spec fn select_lanes<M: MaskPrimitive, T>(m: Seq<M>, t: Seq<T>, f: Seq<T>) -> Seq<T> {
    Seq::new(t.len(), |i: int| if m[i].is_set() { t[i] } else { f[i] })
}

/// The `m` sequences of length `n` whose element `j` of sequence `i` is
/// element `i` of sequence `j` of `s`.
pub open spec fn transpose_rows<T>(s: Seq<Seq<T>>, m: nat, n: nat) -> Seq<Seq<T>> {
    Seq::new(m, |i: int| Seq::new(n, |j: int| s[j][i]))
}

/// The rows of a two-dimensional array as sequences.
pub open spec fn rows_view<T, const M: usize, const N: usize>(a: [[T; M]; N]) -> Seq<Seq<T>> {
    Seq::new(N as nat, |i: int| a@[i]@)
}

// ---------------------------------------------------------------------------
// Generic mapping kernels.
// ---------------------------------------------------------------------------
/// Applies `f` to every lane of `a`.
pub fn map1<T: Copy, const N: usize, F: Fn(T) -> T>(a: [T; N], f: F) -> (r: [T; N])
    requires
        forall|i: int| 0 <= i < N ==> call_requires(f, (a@[i],)),
    ensures
        forall|i: int| 0 <= i < N ==> call_ensures(f, (a@[i],), #[trigger] r@[i]),
{
    let mut out = a;
    for i in 0..N
        invariant
            forall|j: int| 0 <= j < N ==> call_requires(f, (a@[j],)),
            forall|j: int| 0 <= j < i ==> call_ensures(f, (a@[j],), #[trigger] out@[j]),
    {
        out[i] = f(a[i]);
    }
    out
}

/// Applies `f` to corresponding lanes of `a` and `b`.
pub fn map2<T: Copy, const N: usize, F: Fn(T, T) -> T>(a: [T; N], b: [T; N], f: F) -> (r: [T; N])
    requires
        forall|i: int| 0 <= i < N ==> call_requires(f, (a@[i], b@[i])),
    ensures
        forall|i: int| 0 <= i < N ==> call_ensures(f, (a@[i], b@[i]), #[trigger] r@[i]),
{
    let mut out = a;
    for i in 0..N
        invariant
            forall|j: int| 0 <= j < N ==> call_requires(f, (a@[j], b@[j])),
            forall|j: int| 0 <= j < i ==> call_ensures(f, (a@[j], b@[j]), #[trigger] out@[j]),
    {
        out[i] = f(a[i], b[i]);
    }
    out
}

/// Applies `f` to corresponding lanes of `a`, `b` and `c`.
pub fn map3<T: Copy, const N: usize, F: Fn(T, T, T) -> T>(a: [T; N], b: [T; N], c: [T; N], f: F) -> (r: [T; N])
    requires
        forall|i: int| 0 <= i < N ==> call_requires(f, (a@[i], b@[i], c@[i])),
    ensures
        forall|i: int| 0 <= i < N ==> call_ensures(f, (a@[i], b@[i], c@[i]), #[trigger] r@[i]),
{
    let mut out = a;
    for i in 0..N
        invariant
            forall|j: int| 0 <= j < N ==> call_requires(f, (a@[j], b@[j], c@[j])),
            forall|j: int| 0 <= j < i ==> call_ensures(f, (a@[j], b@[j], c@[j]), #[trigger] out@[j]),
    {
        out[i] = f(a[i], b[i], c[i]);
    }
    out
}

// ---------------------------------------------------------------------------
// Arithmetic kernels.
// ---------------------------------------------------------------------------
pub fn add_each<T: Lane, const N: usize>(a: [T; N], b: [T; N]) -> (r: [T; N])
    ensures
        r@ == add_lanes(a@, b@),
{
    let r = map2(a, b, |x: T, y: T| -> (z: T)
        ensures
            z == add_lane(x, y),
        { x.add_(y) });
    assert(r@ =~= add_lanes(a@, b@));
    r
}

pub fn sub_each<T: Lane, const N: usize>(a: [T; N], b: [T; N]) -> (r: [T; N])
    ensures
        r@ == sub_lanes(a@, b@),
{
    let r = map2(a, b, |x: T, y: T| -> (z: T)
        ensures
            z == sub_lane(x, y),
        { x.sub_(y) });
    assert(r@ =~= sub_lanes(a@, b@));
    r
}

pub fn mul_each<T: Lane, const N: usize>(a: [T; N], b: [T; N]) -> (r: [T; N])
    ensures
        r@ == mul_lanes(a@, b@),
{
    let r = map2(a, b, |x: T, y: T| -> (z: T)
        ensures
            z == mul_lane(x, y),
        { x.mul_(y) });
    assert(r@ =~= mul_lanes(a@, b@));
    r
}

/// Lane-wise division.
pub fn div_each<T: Lane, const N: usize>(a: [T; N], b: [T; N]) -> (r: [T; N])
    requires
        forall|i: int| 0 <= i < N ==> (#[trigger] b@[i]).val() != 0,
    ensures
        r@ == div_lanes(a@, b@),
{
    let r = map2(a, b, |x: T, y: T| -> (z: T)
        requires
            y.val() != 0,
        ensures
            z == div_lane(x, y),
        { x.div_(y) });
    assert(r@ =~= div_lanes(a@, b@));
    r
}

/// Lane-wise remainder.
pub fn rem_each<T: Lane, const N: usize>(a: [T; N], b: [T; N]) -> (r: [T; N])
    requires
        forall|i: int| 0 <= i < N ==> (#[trigger] b@[i]).val() != 0,
    ensures
        r@ == rem_lanes(a@, b@),
{
    let r = map2(a, b, |x: T, y: T| -> (z: T)
        requires
            y.val() != 0,
        ensures
            z == rem_lane(x, y),
        { x.rem_(y) });
    assert(r@ =~= rem_lanes(a@, b@));
    r
}

pub fn neg_each<T: Signed, const N: usize>(a: [T; N]) -> (r: [T; N])
    ensures
        r@ == neg_lanes(a@),
{
    let r = map1(a, |x: T| -> (z: T)
        ensures
            z == neg_lane(x),
        { x.neg_() });
    assert(r@ =~= neg_lanes(a@));
    r
}

pub fn abs_each<T: Signed, const N: usize>(a: [T; N]) -> (r: [T; N])
    ensures
        r@ == abs_lanes(a@),
{
    let r = map1(a, |x: T| -> (z: T)
        ensures
            z == abs_lane(x),
        { x.abs_() });
    assert(r@ =~= abs_lanes(a@));
    r
}

pub fn max_each<T: Lane, const N: usize>(a: [T; N], b: [T; N]) -> (r: [T; N])
    ensures
        r@ == max_lanes(a@, b@),
{
    let r = map2(a, b, |x: T, y: T| -> (z: T)
        ensures
            z == max_lane(x, y),
        {
            if x.lt_(y) {
                y
            } else {
                x
            }
        });
    assert(r@ =~= max_lanes(a@, b@));
    r
}

pub fn min_each<T: Lane, const N: usize>(a: [T; N], b: [T; N]) -> (r: [T; N])
    ensures
        r@ == min_lanes(a@, b@),
{
    let r = map2(a, b, |x: T, y: T| -> (z: T)
        ensures
            z == min_lane(x, y),
        {
            if y.lt_(x) {
                y
            } else {
                x
            }
        });
    assert(r@ =~= min_lanes(a@, b@));
    r
}

/// Restricts every lane to the corresponding range; any order of bounds is
/// accepted here, callers check it.
pub fn clamp_each<T: Lane, const N: usize>(a: [T; N], lo: [T; N], hi: [T; N]) -> (r: [T; N])
    ensures
        r@ == clamp_lanes(a@, lo@, hi@),
{
    let r = map3(a, lo, hi, |x: T, l: T, h: T| -> (z: T)
        ensures
            z == clamp_lane(x, l, h),
        {
            let m = if x.lt_(l) {
                l
            } else {
                x
            };
            if h.lt_(m) {
                h
            } else {
                m
            }
        });
    assert(r@ =~= clamp_lanes(a@, lo@, hi@));
    r
}

// ---------------------------------------------------------------------------
// Bitwise kernels.
// ---------------------------------------------------------------------------
pub fn not_each<T: Int, const N: usize>(a: [T; N]) -> (r: [T; N])
    ensures
        r@ == not_lanes(a@),
{
    let r = map1(a, |x: T| -> (z: T)
        ensures
            z == x.not_spec(),
        { x.not_() });
    assert(r@ =~= not_lanes(a@));
    r
}

pub fn bitand_each<T: Int, const N: usize>(a: [T; N], b: [T; N]) -> (r: [T; N])
    ensures
        r@ == and_lanes(a@, b@),
{
    let r = map2(a, b, |x: T, y: T| -> (z: T)
        ensures
            z == x.and_spec(y),
        { x.bitand_(y) });
    assert(r@ =~= and_lanes(a@, b@));
    r
}

pub fn bitor_each<T: Int, const N: usize>(a: [T; N], b: [T; N]) -> (r: [T; N])
    ensures
        r@ == or_lanes(a@, b@),
{
    let r = map2(a, b, |x: T, y: T| -> (z: T)
        ensures
            z == x.or_spec(y),
        { x.bitor_(y) });
    assert(r@ =~= or_lanes(a@, b@));
    r
}

pub fn bitxor_each<T: Int, const N: usize>(a: [T; N], b: [T; N]) -> (r: [T; N])
    ensures
        r@ == xor_lanes(a@, b@),
{
    let r = map2(a, b, |x: T, y: T| -> (z: T)
        ensures
            z == x.xor_spec(y),
        { x.bitxor_(y) });
    assert(r@ =~= xor_lanes(a@, b@));
    r
}

pub fn shl_each<T: Int, const N: usize>(a: [T; N], b: [T; N]) -> (r: [T; N])
    ensures
        r@ == shl_lanes(a@, b@),
{
    let r = map2(a, b, |x: T, y: T| -> (z: T)
        ensures
            z == x.shl_spec(y),
        { x.shl_(y) });
    assert(r@ =~= shl_lanes(a@, b@));
    r
}

pub fn shr_each<T: Int, const N: usize>(a: [T; N], b: [T; N]) -> (r: [T; N])
    ensures
        r@ == shr_lanes(a@, b@),
{
    let r = map2(a, b, |x: T, y: T| -> (z: T)
        ensures
            z == x.shr_spec(y),
        { x.shr_(y) });
    assert(r@ =~= shr_lanes(a@, b@));
    r
}

// ---------------------------------------------------------------------------
// Conversions.
// ---------------------------------------------------------------------------
/// Converts every lane with Rust's `as` conversion.
pub fn cast<T: Lane, U: CastFrom<T>, const N: usize>(a: [T; N]) -> (r: [U; N])
    ensures
        r@ == cast_lanes::<T, U>(a@),
{
    let mut out = [U::zero_(); N];
    for i in 0..N
        invariant
            forall|j: int| 0 <= j < i ==> #[trigger] out@[j] == cast_lane::<T, U>(a@[j]),
    {
        out[i] = U::cast_from(a[i]);
    }
    assert(out@ =~= cast_lanes::<T, U>(a@));
    out
}

/// Reinterprets every lane as the signed type of the same width.
pub fn cast_signed<T: Int, const N: usize>(a: [T; N]) -> (r: [T::Signed; N])
    ensures
        r@ == cast_lanes::<T, T::Signed>(a@),
{
    let mut out = [<T::Signed as Lane>::zero_(); N];
    for i in 0..N
        invariant
            forall|j: int| 0 <= j < i ==> #[trigger] out@[j] == cast_lane::<T, T::Signed>(a@[j]),
    {
        out[i] = a[i].cast_signed_();
    }
    assert(out@ =~= cast_lanes::<T, T::Signed>(a@));
    out
}

/// Reinterprets every lane as the unsigned type of the same width.
pub fn cast_unsigned<T: Int, const N: usize>(a: [T; N]) -> (r: [T::Unsigned; N])
    ensures
        r@ == cast_lanes::<T, T::Unsigned>(a@),
{
    let mut out = [<T::Unsigned as Lane>::zero_(); N];
    for i in 0..N
        invariant
            forall|j: int| 0 <= j < i ==> #[trigger] out@[j] == cast_lane::<T, T::Unsigned>(a@[j]),
    {
        out[i] = a[i].cast_unsigned_();
    }
    assert(out@ =~= cast_lanes::<T, T::Unsigned>(a@));
    out
}

// ---------------------------------------------------------------------------
// Comparisons and masks.
// ---------------------------------------------------------------------------
/// Compares corresponding lanes; the result lanes are canonical mask lanes.
pub fn each_eq<T: Lane, const N: usize>(a: [T; N], b: [T; N]) -> (r: [T::Mask; N])
    ensures
        all_valid(r@),
        mask_bools(r@) == eq_lanes(a@, b@),
{
    let mut out = [<T::Mask as MaskPrimitive>::from_bool(false); N];
    for i in 0..N
        invariant
            forall|j: int| 0 <= j < N ==> (#[trigger] out@[j]).valid(),
            forall|j: int| 0 <= j < i ==> (#[trigger] out@[j]).is_set() == (a@[j].val() == b@[j].val()),
    {
        out[i] = <T::Mask as MaskPrimitive>::from_bool(a[i].eq_(b[i]));
    }
    assert(mask_bools(out@) =~= eq_lanes(a@, b@));
    out
}

/// Compares corresponding lanes; the result lanes are canonical mask lanes.
pub fn each_ne<T: Lane, const N: usize>(a: [T; N], b: [T; N]) -> (r: [T::Mask; N])
    ensures
        all_valid(r@),
        mask_bools(r@) == ne_lanes(a@, b@),
{
    let mut out = [<T::Mask as MaskPrimitive>::from_bool(false); N];
    for i in 0..N
        invariant
            forall|j: int| 0 <= j < N ==> (#[trigger] out@[j]).valid(),
            forall|j: int| 0 <= j < i ==> (#[trigger] out@[j]).is_set() == (a@[j].val() != b@[j].val()),
    {
        out[i] = <T::Mask as MaskPrimitive>::from_bool(!a[i].eq_(b[i]));
    }
    assert(mask_bools(out@) =~= ne_lanes(a@, b@));
    out
}

/// Compares corresponding lanes; the result lanes are canonical mask lanes.
pub fn each_lt<T: Lane, const N: usize>(a: [T; N], b: [T; N]) -> (r: [T::Mask; N])
    ensures
        all_valid(r@),
        mask_bools(r@) == lt_lanes(a@, b@),
{
    let mut out = [<T::Mask as MaskPrimitive>::from_bool(false); N];
    for i in 0..N
        invariant
            forall|j: int| 0 <= j < N ==> (#[trigger] out@[j]).valid(),
            forall|j: int| 0 <= j < i ==> (#[trigger] out@[j]).is_set() == (a@[j].val() < b@[j].val()),
    {
        out[i] = <T::Mask as MaskPrimitive>::from_bool(a[i].lt_(b[i]));
    }
    assert(mask_bools(out@) =~= lt_lanes(a@, b@));
    out
}

/// Compares corresponding lanes; the result lanes are canonical mask lanes.
pub fn each_le<T: Lane, const N: usize>(a: [T; N], b: [T; N]) -> (r: [T::Mask; N])
    ensures
        all_valid(r@),
        mask_bools(r@) == le_lanes(a@, b@),
{
    let mut out = [<T::Mask as MaskPrimitive>::from_bool(false); N];
    for i in 0..N
        invariant
            forall|j: int| 0 <= j < N ==> (#[trigger] out@[j]).valid(),
            forall|j: int| 0 <= j < i ==> (#[trigger] out@[j]).is_set() == (a@[j].val() <= b@[j].val()),
    {
        out[i] = <T::Mask as MaskPrimitive>::from_bool(!b[i].lt_(a[i]));
    }
    assert(mask_bools(out@) =~= le_lanes(a@, b@));
    out
}

/// Compares corresponding lanes; the result lanes are canonical mask lanes.
pub fn each_gt<T: Lane, const N: usize>(a: [T; N], b: [T; N]) -> (r: [T::Mask; N])
    ensures
        all_valid(r@),
        mask_bools(r@) == gt_lanes(a@, b@),
{
    let mut out = [<T::Mask as MaskPrimitive>::from_bool(false); N];
    for i in 0..N
        invariant
            forall|j: int| 0 <= j < N ==> (#[trigger] out@[j]).valid(),
            forall|j: int| 0 <= j < i ==> (#[trigger] out@[j]).is_set() == (a@[j].val() > b@[j].val()),
    {
        out[i] = <T::Mask as MaskPrimitive>::from_bool(b[i].lt_(a[i]));
    }
    assert(mask_bools(out@) =~= gt_lanes(a@, b@));
    out
}

/// Compares corresponding lanes; the result lanes are canonical mask lanes.
pub fn each_ge<T: Lane, const N: usize>(a: [T; N], b: [T; N]) -> (r: [T::Mask; N])
    ensures
        all_valid(r@),
        mask_bools(r@) == ge_lanes(a@, b@),
{
    let mut out = [<T::Mask as MaskPrimitive>::from_bool(false); N];
    for i in 0..N
        invariant
            forall|j: int| 0 <= j < N ==> (#[trigger] out@[j]).valid(),
            forall|j: int| 0 <= j < i ==> (#[trigger] out@[j]).is_set() == (a@[j].val() >= b@[j].val()),
    {
        out[i] = <T::Mask as MaskPrimitive>::from_bool(!a[i].lt_(b[i]));
    }
    assert(mask_bools(out@) =~= ge_lanes(a@, b@));
    out
}

/// Whether every lane of `a` equals the corresponding lane of `b`.
pub fn all_eq<T: Lane, const N: usize>(a: [T; N], b: [T; N]) -> (r: bool)
    ensures
        r == (a@ == b@),
{
    for i in 0..N
        invariant
            forall|j: int| 0 <= j < i ==> (#[trigger] a@[j]) == b@[j],
    {
        if !a[i].eq_(b[i]) {
            return false;
        }
        proof {
            T::lemma_lane(a@[i as int]);
            T::lemma_lane(b@[i as int]);
        }
    }
    assert(a@ =~= b@);
    true
}

/// Selects each lane from `t` or `f` according to the mask lane.
pub fn select<M: MaskPrimitive, T: Copy, const N: usize>(m: [M; N], t: [T; N], f: [T; N]) -> (r: [T; N])
    ensures
        r@ == select_lanes(m@, t@, f@),
{
    let mut out = f;
    for i in 0..N
        invariant
            forall|j: int| 0 <= j < i ==> #[trigger] out@[j] == (if m@[j].is_set() { t@[j] } else { f@[j] }),
            forall|j: int| i <= j < N ==> #[trigger] out@[j] == f@[j],
    {
        out[i] = if m[i].is_set_() {
            t[i]
        } else {
            f[i]
        };
    }
    assert(out@ =~= select_lanes(m@, t@, f@));
    out
}

/// Lane-wise logical negation of a canonical mask.
pub fn mask_not<M: MaskPrimitive, const N: usize>(a: [M; N]) -> (r: [M; N])
    requires
        all_valid(a@),
    ensures
        all_valid(r@),
        mask_bools(r@) == Seq::new(N as nat, |i: int| !a@[i].is_set()),
{
    let mut out = a;
    for i in 0..N
        invariant
            all_valid(a@),
            forall|j: int| 0 <= j < N ==> (#[trigger] out@[j]).valid(),
            forall|j: int| 0 <= j < i ==> (#[trigger] out@[j]).is_set() == !a@[j].is_set(),
            forall|j: int| i <= j < N ==> #[trigger] out@[j] == a@[j],
    {
        proof {
            M::lemma_canonical(a@[i as int], a@[i as int]);
        }
        out[i] = a[i].not();
    }
    assert(mask_bools(out@) =~= Seq::new(N as nat, |i: int| !a@[i].is_set()));
    out
}

/// Lane-wise logical conjunction of canonical masks.
pub fn mask_and<M: MaskPrimitive, const N: usize>(a: [M; N], b: [M; N]) -> (r: [M; N])
    requires
        all_valid(a@),
        all_valid(b@),
    ensures
        all_valid(r@),
        mask_bools(r@) == Seq::new(N as nat, |i: int| a@[i].is_set() && b@[i].is_set()),
{
    let mut out = a;
    for i in 0..N
        invariant
            all_valid(a@),
            all_valid(b@),
            forall|j: int| 0 <= j < N ==> (#[trigger] out@[j]).valid(),
            forall|j: int| 0 <= j < i ==> (#[trigger] out@[j]).is_set() == (a@[j].is_set() && b@[j].is_set()),
            forall|j: int| i <= j < N ==> #[trigger] out@[j] == a@[j],
    {
        proof {
            M::lemma_canonical(a@[i as int], b@[i as int]);
        }
        out[i] = a[i].bitand(b[i]);
    }
    assert(mask_bools(out@) =~= Seq::new(N as nat, |i: int| a@[i].is_set() && b@[i].is_set()));
    out
}

/// Lane-wise logical disjunction of canonical masks.
pub fn mask_or<M: MaskPrimitive, const N: usize>(a: [M; N], b: [M; N]) -> (r: [M; N])
    requires
        all_valid(a@),
        all_valid(b@),
    ensures
        all_valid(r@),
        mask_bools(r@) == Seq::new(N as nat, |i: int| a@[i].is_set() || b@[i].is_set()),
{
    let mut out = a;
    for i in 0..N
        invariant
            all_valid(a@),
            all_valid(b@),
            forall|j: int| 0 <= j < N ==> (#[trigger] out@[j]).valid(),
            forall|j: int| 0 <= j < i ==> (#[trigger] out@[j]).is_set() == (a@[j].is_set() || b@[j].is_set()),
            forall|j: int| i <= j < N ==> #[trigger] out@[j] == a@[j],
    {
        proof {
            M::lemma_canonical(a@[i as int], b@[i as int]);
        }
        out[i] = a[i].bitor(b[i]);
    }
    assert(mask_bools(out@) =~= Seq::new(N as nat, |i: int| a@[i].is_set() || b@[i].is_set()));
    out
}

/// Lane-wise exclusive disjunction of canonical masks.
pub fn mask_xor<M: MaskPrimitive, const N: usize>(a: [M; N], b: [M; N]) -> (r: [M; N])
    requires
        all_valid(a@),
        all_valid(b@),
    ensures
        all_valid(r@),
        mask_bools(r@) == Seq::new(N as nat, |i: int| a@[i].is_set() != b@[i].is_set()),
{
    let mut out = a;
    for i in 0..N
        invariant
            all_valid(a@),
            all_valid(b@),
            forall|j: int| 0 <= j < N ==> (#[trigger] out@[j]).valid(),
            forall|j: int| 0 <= j < i ==> (#[trigger] out@[j]).is_set() == (a@[j].is_set() != b@[j].is_set()),
            forall|j: int| i <= j < N ==> #[trigger] out@[j] == a@[j],
    {
        proof {
            M::lemma_canonical(a@[i as int], b@[i as int]);
        }
        out[i] = a[i].bitxor(b[i]);
    }
    assert(mask_bools(out@) =~= Seq::new(N as nat, |i: int| a@[i].is_set() != b@[i].is_set()));
    out
}

/// Whether every mask lane reads as true.
pub fn mask_all<M: MaskPrimitive, const N: usize>(a: [M; N]) -> (r: bool)
    ensures
        r == (forall|i: int| 0 <= i < N ==> (#[trigger] a@[i]).is_set()),
{
    for i in 0..N
        invariant
            forall|j: int| 0 <= j < i ==> (#[trigger] a@[j]).is_set(),
    {
        if !a[i].is_set_() {
            return false;
        }
    }
    true
}

/// Whether any mask lane reads as true.
pub fn mask_any<M: MaskPrimitive, const N: usize>(a: [M; N]) -> (r: bool)
    ensures
        r == (exists|i: int| 0 <= i < N && (#[trigger] a@[i]).is_set()),
{
    for i in 0..N
        invariant
            forall|j: int| 0 <= j < i ==> !(#[trigger] a@[j]).is_set(),
    {
        if a[i].is_set_() {
            return true;
        }
    }
    false
}

/// Canonical mask lanes with the given truth values.
pub fn mask_from_bools<M: MaskPrimitive, const N: usize>(a: [bool; N]) -> (r: [M; N])
    ensures
        all_valid(r@),
        mask_bools(r@) == a@,
{
    let mut out = [M::from_bool(false); N];
    for i in 0..N
        invariant
            forall|j: int| 0 <= j < N ==> (#[trigger] out@[j]).valid(),
            forall|j: int| 0 <= j < i ==> (#[trigger] out@[j]).is_set() == a@[j],
    {
        out[i] = M::from_bool(a[i]);
    }
    assert(mask_bools(out@) =~= a@);
    out
}

/// The truth value of every mask lane.
pub fn mask_to_bools<M: MaskPrimitive, const N: usize>(a: [M; N]) -> (r: [bool; N])
    ensures
        r@ == mask_bools(a@),
{
    let mut out = [false; N];
    for i in 0..N
        invariant
            forall|j: int| 0 <= j < i ==> #[trigger] out@[j] == a@[j].is_set(),
    {
        out[i] = a[i].is_set_();
    }
    assert(out@ =~= mask_bools(a@));
    out
}

// ---------------------------------------------------------------------------
// Lane rearrangements.
// ---------------------------------------------------------------------------
/// Overwrites the lanes of `out` starting at `offset` with the lanes of `src`.
pub fn copy_into<T: Copy, const D: usize, const N: usize>(out: &mut [T; D], src: [T; N], offset: usize)
    requires
        offset + N <= D,
    ensures
        final(out)@ == old(out)@.subrange(0, offset as int) + src@ + old(out)@.subrange(
            offset + N,
            D as int,
        ),
{
    let ghost start = *out;
    for k in 0..N
        invariant
            offset + N <= D,
            forall|p: int| 0 <= p < offset ==> #[trigger] out@[p] == start@[p],
            forall|p: int| 0 <= p < k ==> #[trigger] out@[offset + p] == src@[p],
            forall|p: int| offset + N <= p < D ==> #[trigger] out@[p] == start@[p],
    {
        out[offset + k] = src[k];
    }
    let ghost expected = start@.subrange(0, offset as int) + src@ + start@.subrange(offset + N, D as int);
    assert forall|p: int| 0 <= p < D implies #[trigger] out@[p] == expected[p] by {
        if offset <= p < offset + N {
            assert(out@[offset + (p - offset)] == src@[p - offset]);
        }
    }
    assert(out@ =~= expected);
}

/// Lane `k` of the result is lane `indices[k]` of `a`.
pub fn permute<T: Copy>(a: [T; 4], indices: [usize; 4]) -> (r: [T; 4])
    requires
        forall|k: int| 0 <= k < 4 ==> #[trigger] indices@[k] < 4,
    ensures
        forall|k: int| 0 <= k < 4 ==> #[trigger] r@[k] == a@[indices@[k] as int],
{
    [a[indices[0]], a[indices[1]], a[indices[2]], a[indices[3]]]
}

/// Lane `k` of the result is lane `indices[k]` of the eight lanes of `a`
/// followed by `b`.
pub fn permute2<T: Copy>(a: [T; 4], b: [T; 4], indices: [usize; 4]) -> (r: [T; 4])
    requires
        forall|k: int| 0 <= k < 4 ==> #[trigger] indices@[k] < 8,
    ensures
        forall|k: int| 0 <= k < 4 ==> #[trigger] r@[k] == (a@ + b@)[indices@[k] as int],
{
    let ab = [a[0], a[1], a[2], a[3], b[0], b[1], b[2], b[3]];
    assert(ab@ =~= a@ + b@);
    [ab[indices[0]], ab[indices[1]], ab[indices[2]], ab[indices[3]]]
}

/// Lane `i` of the result comes from `true_values` when bit `i` of `mask` is
/// set, and from `false_values` otherwise.
pub fn select_u64<T: Copy, const N: usize>(mask: u64, true_values: [[T; N]; 1], false_values: [[T; N]; 1]) -> (r: [[T; N]; 1])
    requires
        N <= 64,
    ensures
        forall|i: int| 0 <= i < N ==> #[trigger] r@[0]@[i] == (if mask & (1u64 << i as u64) != 0 {
            true_values@[0]@[i]
        } else {
            false_values@[0]@[i]
        }),
{
    let t = true_values[0];
    let f = false_values[0];
    let mut out = f;
    for i in 0..N
        invariant
            N <= 64,
            t == true_values@[0],
            f == false_values@[0],
            forall|j: int| 0 <= j < i ==> #[trigger] out@[j] == (if mask & (1u64 << j as u64) != 0 {
                t@[j]
            } else {
                f@[j]
            }),
    {
        let bit: u64 = 1u64 << (i as u64);
        out[i] = if (mask & bit) != 0 {
            t[i]
        } else {
            f[i]
        };
    }
    [out]
}

// ---------------------------------------------------------------------------
// Two-dimensional kernels.
// ---------------------------------------------------------------------------
/// Swaps the two dimensions of `a`.
pub fn transpose<T: Lane, const M: usize, const N: usize>(a: [[T; M]; N]) -> (r: [[T; N]; M])
    ensures
        forall|i: int, j: int| 0 <= i < M && 0 <= j < N ==> #[trigger] r@[i]@[j] == a@[j]@[i],
        rows_view(r) == transpose_rows(rows_view(a), M as nat, N as nat),
{
    let mut out = [[T::zero_(); N]; M];
    for i in 0..M
        invariant
            forall|p: int, q: int| 0 <= p < i && 0 <= q < N ==> #[trigger] out@[p]@[q] == a@[q]@[p],
    {
        let mut row = [T::zero_(); N];
        for j in 0..N
            invariant
                0 <= i < M,
                forall|q: int| 0 <= q < j ==> #[trigger] row@[q] == a@[q]@[i as int],
        {
            row[j] = a[j][i];
        }
        out[i] = row;
    }
    assert forall|i: int| 0 <= i < M implies #[trigger] rows_view(out)[i] =~= transpose_rows(rows_view(a), M as nat, N as nat)[i] by {
        assert forall|j: int| 0 <= j < N implies out@[i]@[j] == #[trigger] rows_view(a)[j][i] by {
        }
    }
    assert(rows_view(out) =~= transpose_rows(rows_view(a), M as nat, N as nat));
    out
}

/// The main diagonal of a square array.
pub fn diagonal<T: Lane, const N: usize>(a: [[T; N]; N]) -> (r: [T; N])
    ensures
        forall|i: int| 0 <= i < N ==> #[trigger] r@[i] == a@[i]@[i],
{
    let mut out = [T::zero_(); N];
    for i in 0..N
        invariant
            forall|p: int| 0 <= p < i ==> #[trigger] out@[p] == a@[p]@[p],
    {
        out[i] = a[i][i];
    }
    out
}

/// The square array with ones on the main diagonal and zeros elsewhere.
pub fn identity<T: Lane, const N: usize>() -> (r: [[T; N]; N])
    ensures
        forall|i: int, j: int| 0 <= i < N && 0 <= j < N ==> (#[trigger] r@[i]@[j]).val() == (if i == j {
            1int
        } else {
            0int
        }),
{
    let zero = T::zero_();
    let one = T::one_();
    let mut out = [[zero; N]; N];
    for i in 0..N
        invariant
            zero.val() == 0,
            one.val() == 1,
            forall|p: int, q: int| 0 <= p < N && 0 <= q < N ==> (#[trigger] out@[p]@[q]).val() == (if p < i && p == q {
                1int
            } else {
                0int
            }),
    {
        let mut row = out[i];
        row[i] = one;
        out[i] = row;
    }
    out
}

// ---------------------------------------------------------------------------
// Arrays built from sequences.
// ---------------------------------------------------------------------------
/// The array whose first `n` lanes come from `s` and whose remaining lanes
/// come from `base`.
pub closed spec fn fill_from<T, const D: usize>(base: [T; D], s: Seq<T>, n: nat) -> [T; D]
    decreases n,
{
    if n == 0 {
        base
    } else {
        vstd::array::spec_array_update(fill_from(base, s, (n - 1) as nat), n - 1, s[n - 1])
    }
}

proof fn lemma_fill_from<T, const D: usize>(base: [T; D], s: Seq<T>, n: nat)
    requires
        n <= D,
    ensures
        fill_from(base, s, n)@.len() == D,
        forall|i: int| 0 <= i < n ==> #[trigger] fill_from(base, s, n)@[i] == s[i],
        forall|i: int| n <= i < D ==> #[trigger] fill_from(base, s, n)@[i] == base@[i],
    decreases n,
{
    if n > 0 {
        lemma_fill_from(base, s, (n - 1) as nat);
    }
}

/// Every sequence of `D` values is the view of some array.
pub proof fn lemma_array_exists<T, const D: usize>(s: Seq<T>)
    requires
        s.len() == D,
    ensures
        exists|a: [T; D]| a@ == s,
{
    let base: [T; D] = vstd::pervasive::arbitrary();
    lemma_fill_from(base, s, D as nat);
    assert(fill_from(base, s, D as nat)@ =~= s);
}

/// Every sequence of `N` rows of `M` values is the view of some
/// two-dimensional array.
pub proof fn lemma_rows_exist<T, const M: usize, const N: usize>(s: Seq<Seq<T>>)
    requires
        s.len() == N,
        forall|i: int| 0 <= i < N ==> (#[trigger] s[i]).len() == M,
    ensures
        exists|a: [[T; M]; N]| rows_view(a) == s,
{
    let rows = Seq::new(N as nat, |i: int| choose|r: [T; M]| r@ == s[i]);
    assert forall|i: int| 0 <= i < N implies (#[trigger] rows[i])@ == s[i] by {
        lemma_array_exists::<T, M>(s[i]);
    }
    lemma_array_exists::<[T; M], N>(rows);
    let a = choose|a: [[T; M]; N]| a@ == rows;
    assert(rows_view(a) =~= s);
}

/// Two-dimensional arrays with the same rows are equal.
pub proof fn lemma_rows_eq<T, const M: usize, const N: usize>(a: [[T; M]; N], b: [[T; M]; N])
    requires
        rows_view(a) == rows_view(b),
    ensures
        a == b,
{
    assert forall|i: int| 0 <= i < N implies a@[i] == b@[i] by {
        assert(rows_view(a)[i] == rows_view(b)[i]);
        assert(a@[i] =~= b@[i]);
    }
    assert(a =~= b);
}

// ---------------------------------------------------------------------------
// Row-wise meaning and kernels for two-dimensional arrays.
// ---------------------------------------------------------------------------
pub open spec fn add_rows<T: Lane>(a: Seq<Seq<T>>, b: Seq<Seq<T>>) -> Seq<Seq<T>> {
    Seq::new(a.len(), |i: int| add_lanes(a[i], b[i]))
}

pub open spec fn sub_rows<T: Lane>(a: Seq<Seq<T>>, b: Seq<Seq<T>>) -> Seq<Seq<T>> {
    Seq::new(a.len(), |i: int| sub_lanes(a[i], b[i]))
}

pub open spec fn mul_rows<T: Lane>(a: Seq<Seq<T>>, b: Seq<Seq<T>>) -> Seq<Seq<T>> {
    Seq::new(a.len(), |i: int| mul_lanes(a[i], b[i]))
}

pub open spec fn div_rows<T: Lane>(a: Seq<Seq<T>>, b: Seq<Seq<T>>) -> Seq<Seq<T>> {
    Seq::new(a.len(), |i: int| div_lanes(a[i], b[i]))
}

pub open spec fn neg_rows<T: Lane>(a: Seq<Seq<T>>) -> Seq<Seq<T>> {
    Seq::new(a.len(), |i: int| neg_lanes(a[i]))
}

pub open spec fn cast_rows<T: Lane, U: Lane>(a: Seq<Seq<T>>) -> Seq<Seq<U>> {
    Seq::new(a.len(), |i: int| cast_lanes::<T, U>(a[i]))
}

/// `n` rows, each holding `m` copies of `x`.
pub open spec fn splat_rows<T>(x: T, m: nat, n: nat) -> Seq<Seq<T>> {
    Seq::new(n, |i: int| splat_seq(x, m))
}

/// Every value of `N` rows of `M` values set to `x`.
pub fn filled2<T: Copy, const M: usize, const N: usize>(x: T) -> (r: [[T; M]; N])
    ensures
        rows_view(r) == splat_rows(x, M as nat, N as nat),
        forall|j: int, i: int| 0 <= j < N && 0 <= i < M ==> #[trigger] r@[j]@[i] == x,
{
    let r = [[x; M]; N];
    assert forall|i: int| 0 <= i < N implies #[trigger] rows_view(r)[i] =~= splat_seq(x, M as nat) by {
    }
    assert(rows_view(r) =~= splat_rows(x, M as nat, N as nat));
    r
}

pub fn add_each2<T: Lane, const M: usize, const N: usize>(a: [[T; M]; N], b: [[T; M]; N]) -> (r: [[T; M]; N])
    ensures
        rows_view(r) == add_rows(rows_view(a), rows_view(b)),
{
    let mut out = a;
    for j in 0..N
        invariant
            forall|p: int| 0 <= p < j ==> (#[trigger] out@[p])@ == add_lanes(a@[p]@, b@[p]@),
    {
        out[j] = add_each(a[j], b[j]);
    }
    assert forall|p: int| 0 <= p < N implies #[trigger] rows_view(out)[p] == add_rows(rows_view(a), rows_view(b))[p] by {
    }
    assert(rows_view(out) =~= add_rows(rows_view(a), rows_view(b)));
    out
}

pub fn sub_each2<T: Lane, const M: usize, const N: usize>(a: [[T; M]; N], b: [[T; M]; N]) -> (r: [[T; M]; N])
    ensures
        rows_view(r) == sub_rows(rows_view(a), rows_view(b)),
{
    let mut out = a;
    for j in 0..N
        invariant
            forall|p: int| 0 <= p < j ==> (#[trigger] out@[p])@ == sub_lanes(a@[p]@, b@[p]@),
    {
        out[j] = sub_each(a[j], b[j]);
    }
    assert forall|p: int| 0 <= p < N implies #[trigger] rows_view(out)[p] == sub_rows(rows_view(a), rows_view(b))[p] by {
    }
    assert(rows_view(out) =~= sub_rows(rows_view(a), rows_view(b)));
    out
}

pub fn mul_each2<T: Lane, const M: usize, const N: usize>(a: [[T; M]; N], b: [[T; M]; N]) -> (r: [[T; M]; N])
    ensures
        rows_view(r) == mul_rows(rows_view(a), rows_view(b)),
{
    let mut out = a;
    for j in 0..N
        invariant
            forall|p: int| 0 <= p < j ==> (#[trigger] out@[p])@ == mul_lanes(a@[p]@, b@[p]@),
    {
        out[j] = mul_each(a[j], b[j]);
    }
    assert forall|p: int| 0 <= p < N implies #[trigger] rows_view(out)[p] == mul_rows(rows_view(a), rows_view(b))[p] by {
    }
    assert(rows_view(out) =~= mul_rows(rows_view(a), rows_view(b)));
    out
}

pub fn div_each2<T: Lane, const M: usize, const N: usize>(a: [[T; M]; N], b: [[T; M]; N]) -> (r: [[T; M]; N])
    requires
        forall|j: int, i: int| 0 <= j < N && 0 <= i < M ==> (#[trigger] b@[j]@[i]).val() != 0,
    ensures
        rows_view(r) == div_rows(rows_view(a), rows_view(b)),
{
    let mut out = a;
    for j in 0..N
        invariant
            forall|p: int, i: int| 0 <= p < N && 0 <= i < M ==> (#[trigger] b@[p]@[i]).val() != 0,
            forall|p: int| 0 <= p < j ==> (#[trigger] out@[p])@ == div_lanes(a@[p]@, b@[p]@),
    {
        assert(forall|i: int| 0 <= i < M ==> (#[trigger] b@[j as int]@[i]).val() != 0);
        out[j] = div_each(a[j], b[j]);
    }
    assert forall|p: int| 0 <= p < N implies #[trigger] rows_view(out)[p] == div_rows(rows_view(a), rows_view(b))[p] by {
    }
    assert(rows_view(out) =~= div_rows(rows_view(a), rows_view(b)));
    out
}

pub fn neg_each2<T: Signed, const M: usize, const N: usize>(a: [[T; M]; N]) -> (r: [[T; M]; N])
    ensures
        rows_view(r) == neg_rows(rows_view(a)),
{
    let mut out = a;
    for j in 0..N
        invariant
            forall|p: int| 0 <= p < j ==> (#[trigger] out@[p])@ == neg_lanes(a@[p]@),
    {
        out[j] = neg_each(a[j]);
    }
    assert forall|p: int| 0 <= p < N implies #[trigger] rows_view(out)[p] == neg_rows(rows_view(a))[p] by {
    }
    assert(rows_view(out) =~= neg_rows(rows_view(a)));
    out
}

pub fn cast2<T: Lane, U: CastFrom<T>, const M: usize, const N: usize>(a: [[T; M]; N]) -> (r: [[U; M]; N])
    ensures
        rows_view(r) == cast_rows::<T, U>(rows_view(a)),
{
    let mut out = [[U::zero_(); M]; N];
    for j in 0..N
        invariant
            forall|p: int| 0 <= p < j ==> (#[trigger] out@[p])@ == cast_lanes::<T, U>(a@[p]@),
    {
        out[j] = cast(a[j]);
    }
    assert forall|p: int| 0 <= p < N implies #[trigger] rows_view(out)[p] == cast_rows::<T, U>(rows_view(a))[p] by {
    }
    assert(rows_view(out) =~= cast_rows::<T, U>(rows_view(a)));
    out
}

/// Whether the two arrays hold the same values.
pub fn all_eq2<T: Lane, const M: usize, const N: usize>(a: [[T; M]; N], b: [[T; M]; N]) -> (r: bool)
    ensures
        r == (rows_view(a) == rows_view(b)),
{
    for j in 0..N
        invariant
            forall|p: int| 0 <= p < j ==> (#[trigger] a@[p])@ == b@[p]@,
    {
        if !all_eq(a[j], b[j]) {
            assert(rows_view(a)[j as int] != rows_view(b)[j as int]);
            return false;
        }
    }
    assert(rows_view(a) =~= rows_view(b));
    true
}

} // verus!
