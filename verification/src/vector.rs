//! Fixed-size, orientation-independent vectors.
use vstd::prelude::*;

use crate::kernels;
use crate::kernels::lemma_array_exists;
use crate::kernels::{
    abs_lanes, add_lanes, and_lanes, cast_lanes, clamp_lanes, div_lanes, eq_lanes, ge_lanes,
    gt_lanes, le_lanes, lt_lanes, max_lanes, min_lanes, mul_lanes, ne_lanes, neg_lanes, not_lanes,
    or_lanes, rem_lanes, shl_lanes, shr_lanes, splat_seq, sub_lanes, xor_lanes,
};
use crate::marker::{abs, CastFrom, Lane, Signed};
use crate::mask::Mask;
use crate::support::{Element, IntElement, SintElement, UintElement};

verus! {

/// A fixed-size, orientation-independent vector.
///
/// In column-major expressions it acts as a column vector; in row-major
/// expressions it acts as a row vector.
#[derive(Clone, Copy, Debug)]
pub struct Vector<T: Element, const D: usize> {
    lanes: [T; D],
}

impl<T: Element, const D: usize> View for Vector<T, D> {
    type V = Seq<T>;

    closed spec fn view(&self) -> Seq<T> {
        self.lanes@
    }
}

impl<T: Element, const D: usize> Vector<T, D> {
    /// The vector whose lanes are `s`.
    pub closed spec fn spec_from(s: Seq<T>) -> Self {
        Vector { lanes: choose|a: [T; D]| a@ == s }
    }

    pub proof fn lemma_len(v: Self)
        ensures
            v@.len() == D,
    {
    }

    /// Two vectors with the same lanes are equal.
    pub proof fn lemma_view_eq(a: Self, b: Self)
        requires
            a@ == b@,
        ensures
            a == b,
    {
        assert(a.lanes =~= b.lanes);
    }

    pub proof fn lemma_spec_from(s: Seq<T>)
        requires
            s.len() == D,
        ensures
            Self::spec_from(s)@ == s,
    {
        lemma_array_exists::<T, D>(s);
    }

    /// A vector is the one that `spec_from` builds from its lanes.
    pub proof fn lemma_from_view(v: Self, s: Seq<T>)
        requires
            v@ == s,
        ensures
            v == Self::spec_from(s),
    {
        Self::lemma_spec_from(s);
        Self::lemma_view_eq(v, Self::spec_from(s));
    }

    pub(crate) fn from_lanes(lanes: [T; D]) -> (r: Self)
        ensures
            r@ == lanes@,
    {
        Vector { lanes }
    }

    pub(crate) fn lanes(self) -> (r: [T; D])
        ensures
            r@ == self@,
    {
        self.lanes
    }

    /// The vector with all lanes set to zero.
    pub fn zero() -> (r: Self)
        ensures
            forall|i: int| 0 <= i < D ==> (#[trigger] r@[i]).val() == 0,
    {
        Self::filled(T::zero_())
    }

    /// The vector with all lanes set to one.
    pub fn one() -> (r: Self)
        ensures
            forall|i: int| 0 <= i < D ==> (#[trigger] r@[i]).val() == 1,
    {
        Self::filled(T::one_())
    }

    /// Constructs a vector with every lane set to `value`.
    pub fn splat(value: T) -> (r: Self)
        ensures
            r@ == splat_seq(value, D as nat),
    {
        Self::filled(value)
    }

    pub(crate) fn filled(value: T) -> (r: Self)
        ensures
            r@ == splat_seq(value, D as nat),
    {
        let r = Vector { lanes: [value; D] };
        assert(r@ =~= splat_seq(value, D as nat));
        r
    }

    /// Constructs a vector from an array of lanes.
    pub fn from_array(array: [T; D]) -> (r: Self)
        ensures
            r@ == array@,
    {
        Vector { lanes: array }
    }

    /// Returns the vector's lanes as an array.
    pub fn to_array(self) -> (r: [T; D])
        ensures
            r@ == self@,
    {
        self.lanes
    }

    /// Borrows the vector's lanes as an array.
    pub fn as_array(&self) -> (r: &[T; D])
        ensures
            r@ == self@,
    {
        &self.lanes
    }

    /// Mutably borrows the vector's lanes as an array.
    pub fn as_mut_array(&mut self) -> (r: &mut [T; D])
        ensures
            r@ == old(self)@,
            final(self)@ == final(r)@,
    {
        &mut self.lanes
    }

    /// Borrows lane `index`.
    pub fn index(&self, index: usize) -> (r: &T)
        requires
            index < D,
        ensures
            *r == self@[index as int],
    {
        &self.lanes[index]
    }

    /// Mutably borrows lane `index`.
    pub fn index_mut(&mut self, index: usize) -> (r: &mut T)
        requires
            index < D,
        ensures
            *r == old(self)@[index as int],
            final(self)@ == old(self)@.update(index as int, *final(r)),
    {
        &mut self.lanes[index]
    }

    /// Converts each lane to `U` using Rust's `as` conversion semantics.
    pub fn cast<U: Element + CastFrom<T>>(self) -> (r: Vector<U, D>)
        ensures
            r@ == cast_lanes::<T, U>(self@),
    {
        Vector { lanes: kernels::cast(self.lanes) }
    }

    /// Tests each lane for equality.
    pub fn each_eq(self, rhs: Self) -> (r: Mask<T::Mask, D>)
        ensures
            r@ == eq_lanes(self@, rhs@),
    {
        Mask::from_lanes(kernels::each_eq(self.lanes, rhs.lanes))
    }

    /// Tests each lane for inequality.
    pub fn each_ne(self, rhs: Self) -> (r: Mask<T::Mask, D>)
        ensures
            r@ == ne_lanes(self@, rhs@),
    {
        Mask::from_lanes(kernels::each_ne(self.lanes, rhs.lanes))
    }

    /// Tests whether each lane is less than the corresponding lane of `rhs`.
    pub fn each_lt(self, rhs: Self) -> (r: Mask<T::Mask, D>)
        ensures
            r@ == lt_lanes(self@, rhs@),
    {
        Mask::from_lanes(kernels::each_lt(self.lanes, rhs.lanes))
    }

    /// Tests whether each lane is less than or equal to the corresponding lane
    /// of `rhs`.
    pub fn each_le(self, rhs: Self) -> (r: Mask<T::Mask, D>)
        ensures
            r@ == le_lanes(self@, rhs@),
    {
        Mask::from_lanes(kernels::each_le(self.lanes, rhs.lanes))
    }

    /// Tests whether each lane is greater than the corresponding lane of `rhs`.
    pub fn each_gt(self, rhs: Self) -> (r: Mask<T::Mask, D>)
        ensures
            r@ == gt_lanes(self@, rhs@),
    {
        Mask::from_lanes(kernels::each_gt(self.lanes, rhs.lanes))
    }

    /// Tests whether each lane is greater than or equal to the corresponding
    /// lane of `rhs`.
    pub fn each_ge(self, rhs: Self) -> (r: Mask<T::Mask, D>)
        ensures
            r@ == ge_lanes(self@, rhs@),
    {
        Mask::from_lanes(kernels::each_ge(self.lanes, rhs.lanes))
    }

    /// The lane-wise sum of `vectors`; the zero vector when there are none.
    pub fn sum(vectors: &[Self]) -> (r: Self)
        ensures
            vectors@.len() == 0 ==> r == Self::spec_from(splat_seq(T::from_int(0), D as nat)),
            vectors@.len() > 0 ==> r == vectors@.skip(1).fold_left(
                vectors@[0],
                |acc: Self, x: Self| Self::spec_from(add_lanes(acc@, x@)),
            ),
    {
        if vectors.len() == 0 {
            let r = Self::zero();
            proof {
                assert forall|i: int| 0 <= i < D implies r@[i] == splat_seq(T::from_int(0), D as nat)[i] by {
                    T::lemma_lane(r@[i]);
                }
                assert(r@ =~= splat_seq(T::from_int(0), D as nat));
                Self::lemma_from_view(r, splat_seq(T::from_int(0), D as nat));
            }
            return r;
        }
        let mut acc = vectors[0];
        let mut k: usize = 1;
        while k < vectors.len()
            invariant
                1 <= k <= vectors@.len(),
                acc == vectors@.subrange(1, k as int).fold_left(
                    vectors@[0],
                    |acc: Self, x: Self| Self::spec_from(add_lanes(acc@, x@)),
                ),
            decreases vectors@.len() - k,
        {
            let ghost prev = vectors@.subrange(1, k as int);
            acc = acc + vectors[k];
            proof {
                let next = vectors@.subrange(1, k as int + 1);
                assert(next.drop_last() =~= prev);
                assert(next.last() == vectors@[k as int]);
            }
            k += 1;
        }
        assert(vectors@.subrange(1, vectors@.len() as int) =~= vectors@.skip(1));
        acc
    }

    /// The lane-wise product of `vectors`; the vector of ones when there are
    /// none.
    pub fn product(vectors: &[Self]) -> (r: Self)
        ensures
            vectors@.len() == 0 ==> r == Self::spec_from(splat_seq(T::from_int(1), D as nat)),
            vectors@.len() > 0 ==> r == vectors@.skip(1).fold_left(
                vectors@[0],
                |acc: Self, x: Self| Self::spec_from(mul_lanes(acc@, x@)),
            ),
    {
        if vectors.len() == 0 {
            let r = Self::one();
            proof {
                assert forall|i: int| 0 <= i < D implies r@[i] == splat_seq(T::from_int(1), D as nat)[i] by {
                    T::lemma_lane(r@[i]);
                }
                assert(r@ =~= splat_seq(T::from_int(1), D as nat));
                Self::lemma_from_view(r, splat_seq(T::from_int(1), D as nat));
            }
            return r;
        }
        let mut acc = vectors[0];
        let mut k: usize = 1;
        while k < vectors.len()
            invariant
                1 <= k <= vectors@.len(),
                acc == vectors@.subrange(1, k as int).fold_left(
                    vectors@[0],
                    |acc: Self, x: Self| Self::spec_from(mul_lanes(acc@, x@)),
                ),
            decreases vectors@.len() - k,
        {
            let ghost prev = vectors@.subrange(1, k as int);
            acc = acc * vectors[k];
            proof {
                let next = vectors@.subrange(1, k as int + 1);
                assert(next.drop_last() =~= prev);
                assert(next.last() == vectors@[k as int]);
            }
            k += 1;
        }
        assert(vectors@.subrange(1, vectors@.len() as int) =~= vectors@.skip(1));
        acc
    }
}

impl<T: Element, const D: usize> Vector<T, D> {
    /// Divides each lane in place by the corresponding lane of `rhs`, rounding
    /// toward zero and wrapping on overflow. Every divisor lane must be
    /// nonzero.
    pub fn div_assign(&mut self, rhs: Self)
        requires
            forall|i: int| 0 <= i < D ==> (#[trigger] rhs@[i]).val() != 0,
        ensures
            final(self)@ == div_lanes(old(self)@, rhs@),
    {
        *self = core::ops::Div::div(*self, rhs);
    }

    /// Replaces each lane by its remainder modulo the corresponding lane of
    /// `rhs`, with the sign of the dividend. Every divisor lane must be
    /// nonzero.
    pub fn rem_assign(&mut self, rhs: Self)
        requires
            forall|i: int| 0 <= i < D ==> (#[trigger] rhs@[i]).val() != 0,
        ensures
            final(self)@ == rem_lanes(old(self)@, rhs@),
    {
        *self = core::ops::Rem::rem(*self, rhs);
    }
}

impl<T: Element + Signed, const D: usize> Vector<T, D> {
    /// Computes the absolute value of each lane; the minimum value maps to
    /// itself.
    pub fn abs(self) -> (r: Self)
        ensures
            r@ == abs_lanes(self@),
    {
        Vector { lanes: kernels::abs_each(self.lanes) }
    }
}

impl<T: IntElement, const D: usize> Vector<T, D> {
    /// Computes the absolute difference between corresponding lanes.
    ///
    /// The result uses the unsigned counterpart of `T`, so every difference is
    /// representable, including the distance between the signed extrema.
    pub fn abs_diff(self, other: Self) -> (r: Vector<T::Unsigned, D>)
        ensures
            forall|i: int| 0 <= i < D ==> (#[trigger] r@[i]).val() == abs(self@[i].val() - other@[i].val()),
    {
        // Subtraction wraps, so each candidate is the mathematical difference
        // modulo 2^bits. The one selected by the signed comparison is the
        // non-negative difference, which is below 2^bits and so unchanged.
        let left = Vector { lanes: kernels::cast_unsigned(self.lanes) };
        let right = Vector { lanes: kernels::cast_unsigned(other.lanes) };
        let a = left - right;
        let b = right - left;
        let less = self.each_lt(other);
        let ml = less.lanes();
        let r = Vector { lanes: kernels::select(ml, b.lanes, a.lanes) };
        proof {
            T::lemma_int_forms();
            assert forall|i: int| 0 <= i < D implies (#[trigger] r@[i]).val() == abs(self@[i].val() - other@[i].val()) by {
                lemma_abs_diff_lane::<T>(self@[i], other@[i]);
                assert(<T::Mask as crate::marker::MaskPrimitive>::is_set(ml@[i]) == less@[i]);
                assert(less@[i] == (self@[i].val() < other@[i].val()));
                assert(left@[i] == <T::Unsigned as Lane>::from_int(self@[i].val()));
                assert(right@[i] == <T::Unsigned as Lane>::from_int(other@[i].val()));
            }
        }
        r
    }
}

/// The wrapped difference of the unsigned forms is the absolute difference
/// when taken in the right order.
proof fn lemma_abs_diff_lane<T: IntElement>(x: T, y: T)
    ensures
        ({
            let l = <T::Unsigned as Lane>::from_int(x.val());
            let r = <T::Unsigned as Lane>::from_int(y.val());
            let d = if x.val() < y.val() {
                <T::Unsigned as Lane>::from_int(r.val() - l.val())
            } else {
                <T::Unsigned as Lane>::from_int(l.val() - r.val())
            };
            d.val() == abs(x.val() - y.val())
        }),
{
    T::lemma_int_forms();
    T::lemma_lane(x);
    T::lemma_lane(y);
    let m = T::modulus();
    let xv = x.val();
    let yv = y.val();
    <T::Unsigned as Lane>::lemma_from_int(xv);
    <T::Unsigned as Lane>::lemma_from_int(yv);
    let l = <T::Unsigned as Lane>::from_int(xv);
    let r = <T::Unsigned as Lane>::from_int(yv);
    <T::Unsigned as Lane>::lemma_from_int(r.val() - l.val());
    <T::Unsigned as Lane>::lemma_from_int(l.val() - r.val());
    assert(l.val() == xv % m && r.val() == yv % m);
    vstd::arithmetic::div_mod::lemma_sub_mod_noop(yv, xv, m);
    vstd::arithmetic::div_mod::lemma_sub_mod_noop(xv, yv, m);
    if xv < yv {
        crate::marker::lemma_wrap_shift(yv - xv, 0, m, 0);
    } else {
        crate::marker::lemma_wrap_shift(xv - yv, 0, m, 0);
    }
}

impl<T: SintElement, const D: usize> Vector<T, D> {
    /// Reinterprets each lane as the corresponding unsigned integer type.
    pub fn cast_unsigned(self) -> (r: Vector<T::Unsigned, D>)
        ensures
            r@ == cast_lanes::<T, T::Unsigned>(self@),
    {
        Vector { lanes: kernels::cast_unsigned(self.lanes) }
    }
}

impl<T: UintElement, const D: usize> Vector<T, D> {
    /// Reinterprets each lane as the corresponding signed integer type.
    pub fn cast_signed(self) -> (r: Vector<T::Signed, D>)
        ensures
            r@ == cast_lanes::<T, T::Signed>(self@),
    {
        Vector { lanes: kernels::cast_signed(self.lanes) }
    }
}

/// Lane-wise ordering operations.
pub trait EachOrd: Sized {
    /// Every lane of `min` is at most the corresponding lane of `max`.
    spec fn clamp_bounds(min: Self, max: Self) -> bool;

    /// Returns the lane-wise maximum of `self` and `other`.
    fn each_max(self, other: Self) -> Self;

    /// Returns the lane-wise minimum of `self` and `other`.
    fn each_min(self, other: Self) -> Self;

    /// Restricts every lane to the corresponding inclusive range.
    ///
    /// Every lane of `min` must be at most the corresponding lane of `max`.
    fn each_clamp(self, min: Self, max: Self) -> Self
        requires
            Self::clamp_bounds(min, max),
    ;
}

impl<T: Element, const D: usize> EachOrd for Vector<T, D> {
    open spec fn clamp_bounds(min: Self, max: Self) -> bool {
        forall|i: int| 0 <= i < D ==> (#[trigger] min@[i]).val() <= max@[i].val()
    }

    fn each_max(self, other: Self) -> (r: Self)
        ensures
            r@ == max_lanes(self@, other@),
    {
        Vector { lanes: kernels::max_each(self.lanes, other.lanes) }
    }

    fn each_min(self, other: Self) -> (r: Self)
        ensures
            r@ == min_lanes(self@, other@),
    {
        Vector { lanes: kernels::min_each(self.lanes, other.lanes) }
    }

    fn each_clamp(self, min: Self, max: Self) -> (r: Self)
        ensures
            r@ == clamp_lanes(self@, min@, max@),
            forall|i: int| 0 <= i < D ==> min@[i].val() <= (#[trigger] r@[i]).val() <= max@[i].val(),
    {
        Vector { lanes: kernels::clamp_each(self.lanes, min.lanes, max.lanes) }
    }
}

impl<T: Element, const D: usize> PartialEq for Vector<T, D> {
    fn eq(&self, other: &Self) -> (r: bool) {
        kernels::all_eq(self.lanes, other.lanes)
    }
}

impl<T: Element, const D: usize> vstd::std_specs::cmp::PartialEqSpecImpl for Vector<T, D> {
    open spec fn obeys_eq_spec() -> bool {
        true
    }

    open spec fn eq_spec(&self, other: &Self) -> bool {
        self@ == other@
    }
}

impl<T: Element, const D: usize> Eq for Vector<T, D> {
}

impl<T: Element, const D: usize> Default for Vector<T, D> {
    /// The zero vector.
    fn default() -> (r: Self)
        ensures
            forall|i: int| 0 <= i < D ==> (#[trigger] r@[i]).val() == 0,
    {
        Self::zero()
    }
}

impl<T: Element, const D: usize> From<[T; D]> for Vector<T, D> {
    fn from(value: [T; D]) -> (r: Self) {
        let r = Self::from_array(value);
        proof {
            Self::lemma_from_view(r, value@);
        }
        r
    }
}

impl<T: Element, const D: usize> vstd::std_specs::convert::FromSpecImpl<[T; D]> for Vector<T, D> {
    open spec fn obeys_from_spec() -> bool {
        true
    }

    open spec fn from_spec(v: [T; D]) -> Self {
        Self::spec_from(v@)
    }
}

impl<T: Element, const D: usize> From<Vector<T, D>> for [T; D] {
    fn from(value: Vector<T, D>) -> (r: [T; D]) {
        let r = value.to_array();
        proof {
            lemma_array_exists::<T, D>(value@);
            let a = choose|a: [T; D]| a@ == value@;
            assert(r =~= a);
        }
        r
    }
}

impl<T: Element, const D: usize> vstd::std_specs::convert::FromSpecImpl<Vector<T, D>> for [T; D] {
    open spec fn obeys_from_spec() -> bool {
        true
    }

    open spec fn from_spec(v: Vector<T, D>) -> [T; D] {
        choose|a: [T; D]| a@ == v@
    }
}

impl<T: Element + Signed, const D: usize> core::ops::Neg for Vector<T, D> {
    type Output = Self;

    /// Lane-wise negation; the minimum value maps to itself.
    fn neg(self) -> (r: Self)
        ensures
            r@ == neg_lanes(self@),
    {
        let r = Vector { lanes: kernels::neg_each(self.lanes) };
        proof {
            Self::lemma_from_view(r, neg_lanes(self@));
        }
        r
    }
}

impl<T: Element + Signed, const D: usize> vstd::std_specs::ops::NegSpecImpl for Vector<T, D> {
    open spec fn obeys_neg_spec() -> bool {
        true
    }

    open spec fn neg_req(self) -> bool {
        true
    }

    open spec fn neg_spec(self) -> Self {
        Self::spec_from(neg_lanes(self@))
    }
}

impl<T: IntElement, const D: usize> core::ops::Not for Vector<T, D> {
    type Output = Self;

    /// Lane-wise bitwise complement.
    fn not(self) -> (r: Self)
        ensures
            r@ == not_lanes(self@),
    {
        let r = Vector { lanes: kernels::not_each(self.lanes) };
        proof {
            Self::lemma_from_view(r, not_lanes(self@));
        }
        r
    }
}

impl<T: IntElement, const D: usize> vstd::std_specs::ops::NotSpecImpl for Vector<T, D> {
    open spec fn obeys_not_spec() -> bool {
        true
    }

    open spec fn not_req(self) -> bool {
        true
    }

    open spec fn not_spec(self) -> Self {
        Self::spec_from(not_lanes(self@))
    }
}

impl<T: Element, const D: usize> core::ops::Add for Vector<T, D> {
    type Output = Self;

    /// Lane-wise addition; integer lanes wrap on overflow.
    fn add(self, rhs: Self) -> (r: Self)
        ensures
            r@ == add_lanes(self@, rhs@),
    {
        let r = Vector { lanes: kernels::add_each(self.lanes, rhs.lanes) };
        proof {
            Self::lemma_from_view(r, add_lanes(self@, rhs@));
        }
        r
    }
}

impl<T: Element, const D: usize> vstd::std_specs::ops::AddSpecImpl for Vector<T, D> {
    open spec fn obeys_add_spec() -> bool {
        true
    }

    open spec fn add_req(self, rhs: Self) -> bool {
        true
    }

    open spec fn add_spec(self, rhs: Self) -> Self {
        Self::spec_from(add_lanes(self@, rhs@))
    }
}

impl<T: Element, const D: usize> core::ops::Add<T> for Vector<T, D> {
    type Output = Self;

    /// Lane-wise addition; integer lanes wrap on overflow. The scalar acts on every lane.
    fn add(self, rhs: T) -> (r: Self)
        ensures
            r@ == add_lanes(self@, splat_seq(rhs, D as nat)),
    {
        let r = core::ops::Add::add(self, Self::filled(rhs));
        proof {
            Self::lemma_from_view(r, add_lanes(self@, splat_seq(rhs, D as nat)));
        }
        r
    }
}

impl<T: Element, const D: usize> vstd::std_specs::ops::AddSpecImpl<T> for Vector<T, D> {
    open spec fn obeys_add_spec() -> bool {
        true
    }

    open spec fn add_req(self, rhs: T) -> bool {
        true
    }

    open spec fn add_spec(self, rhs: T) -> Self {
        Self::spec_from(add_lanes(self@, splat_seq(rhs, D as nat)))
    }
}

impl<T: Element, const D: usize> core::ops::AddAssign for Vector<T, D> {
    fn add_assign(&mut self, rhs: Self)
        ensures
            final(self)@ == add_lanes(old(self)@, rhs@),
    {
        *self = core::ops::Add::add(*self, rhs);
    }
}

impl<T: Element, const D: usize> core::ops::AddAssign<T> for Vector<T, D> {
    fn add_assign(&mut self, rhs: T)
        ensures
            final(self)@ == add_lanes(old(self)@, splat_seq(rhs, D as nat)),
    {
        *self = core::ops::Add::add(*self, rhs);
    }
}

impl<const D: usize> core::ops::Add<Vector<i32, D>> for i32 {
    type Output = Vector<i32, D>;

    /// Lane-wise addition; integer lanes wrap on overflow. The scalar acts on every lane.
    fn add(self, rhs: Vector<i32, D>) -> (r: Vector<i32, D>)
        ensures
            r@ == add_lanes(splat_seq(self, D as nat), rhs@),
    {
        let r = core::ops::Add::add(Vector::<i32, D>::filled(self), rhs);
        proof {
            Vector::<i32, D>::lemma_from_view(r, add_lanes(splat_seq(self, D as nat), rhs@));
        }
        r
    }
}

impl<const D: usize> vstd::std_specs::ops::AddSpecImpl<Vector<i32, D>> for i32 {
    open spec fn obeys_add_spec() -> bool {
        true
    }

    open spec fn add_req(self, rhs: Vector<i32, D>) -> bool {
        true
    }

    open spec fn add_spec(self, rhs: Vector<i32, D>) -> Vector<i32, D> {
        Vector::<i32, D>::spec_from(add_lanes(splat_seq(self, D as nat), rhs@))
    }
}

impl<const D: usize> core::ops::Add<Vector<u32, D>> for u32 {
    type Output = Vector<u32, D>;

    /// Lane-wise addition; integer lanes wrap on overflow. The scalar acts on every lane.
    fn add(self, rhs: Vector<u32, D>) -> (r: Vector<u32, D>)
        ensures
            r@ == add_lanes(splat_seq(self, D as nat), rhs@),
    {
        let r = core::ops::Add::add(Vector::<u32, D>::filled(self), rhs);
        proof {
            Vector::<u32, D>::lemma_from_view(r, add_lanes(splat_seq(self, D as nat), rhs@));
        }
        r
    }
}

impl<const D: usize> vstd::std_specs::ops::AddSpecImpl<Vector<u32, D>> for u32 {
    open spec fn obeys_add_spec() -> bool {
        true
    }

    open spec fn add_req(self, rhs: Vector<u32, D>) -> bool {
        true
    }

    open spec fn add_spec(self, rhs: Vector<u32, D>) -> Vector<u32, D> {
        Vector::<u32, D>::spec_from(add_lanes(splat_seq(self, D as nat), rhs@))
    }
}

impl<T: Element, const D: usize> core::ops::Sub for Vector<T, D> {
    type Output = Self;

    /// Lane-wise subtraction; integer lanes wrap on overflow.
    fn sub(self, rhs: Self) -> (r: Self)
        ensures
            r@ == sub_lanes(self@, rhs@),
    {
        let r = Vector { lanes: kernels::sub_each(self.lanes, rhs.lanes) };
        proof {
            Self::lemma_from_view(r, sub_lanes(self@, rhs@));
        }
        r
    }
}

impl<T: Element, const D: usize> vstd::std_specs::ops::SubSpecImpl for Vector<T, D> {
    open spec fn obeys_sub_spec() -> bool {
        true
    }

    open spec fn sub_req(self, rhs: Self) -> bool {
        true
    }

    open spec fn sub_spec(self, rhs: Self) -> Self {
        Self::spec_from(sub_lanes(self@, rhs@))
    }
}

impl<T: Element, const D: usize> core::ops::Sub<T> for Vector<T, D> {
    type Output = Self;

    /// Lane-wise subtraction; integer lanes wrap on overflow. The scalar acts on every lane.
    fn sub(self, rhs: T) -> (r: Self)
        ensures
            r@ == sub_lanes(self@, splat_seq(rhs, D as nat)),
    {
        let r = core::ops::Sub::sub(self, Self::filled(rhs));
        proof {
            Self::lemma_from_view(r, sub_lanes(self@, splat_seq(rhs, D as nat)));
        }
        r
    }
}

impl<T: Element, const D: usize> vstd::std_specs::ops::SubSpecImpl<T> for Vector<T, D> {
    open spec fn obeys_sub_spec() -> bool {
        true
    }

    open spec fn sub_req(self, rhs: T) -> bool {
        true
    }

    open spec fn sub_spec(self, rhs: T) -> Self {
        Self::spec_from(sub_lanes(self@, splat_seq(rhs, D as nat)))
    }
}

impl<T: Element, const D: usize> core::ops::SubAssign for Vector<T, D> {
    fn sub_assign(&mut self, rhs: Self)
        ensures
            final(self)@ == sub_lanes(old(self)@, rhs@),
    {
        *self = core::ops::Sub::sub(*self, rhs);
    }
}

impl<T: Element, const D: usize> core::ops::SubAssign<T> for Vector<T, D> {
    fn sub_assign(&mut self, rhs: T)
        ensures
            final(self)@ == sub_lanes(old(self)@, splat_seq(rhs, D as nat)),
    {
        *self = core::ops::Sub::sub(*self, rhs);
    }
}

impl<const D: usize> core::ops::Sub<Vector<i32, D>> for i32 {
    type Output = Vector<i32, D>;

    /// Lane-wise subtraction; integer lanes wrap on overflow. The scalar acts on every lane.
    fn sub(self, rhs: Vector<i32, D>) -> (r: Vector<i32, D>)
        ensures
            r@ == sub_lanes(splat_seq(self, D as nat), rhs@),
    {
        let r = core::ops::Sub::sub(Vector::<i32, D>::filled(self), rhs);
        proof {
            Vector::<i32, D>::lemma_from_view(r, sub_lanes(splat_seq(self, D as nat), rhs@));
        }
        r
    }
}

impl<const D: usize> vstd::std_specs::ops::SubSpecImpl<Vector<i32, D>> for i32 {
    open spec fn obeys_sub_spec() -> bool {
        true
    }

    open spec fn sub_req(self, rhs: Vector<i32, D>) -> bool {
        true
    }

    open spec fn sub_spec(self, rhs: Vector<i32, D>) -> Vector<i32, D> {
        Vector::<i32, D>::spec_from(sub_lanes(splat_seq(self, D as nat), rhs@))
    }
}

impl<const D: usize> core::ops::Sub<Vector<u32, D>> for u32 {
    type Output = Vector<u32, D>;

    /// Lane-wise subtraction; integer lanes wrap on overflow. The scalar acts on every lane.
    fn sub(self, rhs: Vector<u32, D>) -> (r: Vector<u32, D>)
        ensures
            r@ == sub_lanes(splat_seq(self, D as nat), rhs@),
    {
        let r = core::ops::Sub::sub(Vector::<u32, D>::filled(self), rhs);
        proof {
            Vector::<u32, D>::lemma_from_view(r, sub_lanes(splat_seq(self, D as nat), rhs@));
        }
        r
    }
}

impl<const D: usize> vstd::std_specs::ops::SubSpecImpl<Vector<u32, D>> for u32 {
    open spec fn obeys_sub_spec() -> bool {
        true
    }

    open spec fn sub_req(self, rhs: Vector<u32, D>) -> bool {
        true
    }

    open spec fn sub_spec(self, rhs: Vector<u32, D>) -> Vector<u32, D> {
        Vector::<u32, D>::spec_from(sub_lanes(splat_seq(self, D as nat), rhs@))
    }
}

impl<T: Element, const D: usize> core::ops::Mul for Vector<T, D> {
    type Output = Self;

    /// Lane-wise multiplication; integer lanes wrap on overflow.
    fn mul(self, rhs: Self) -> (r: Self)
        ensures
            r@ == mul_lanes(self@, rhs@),
    {
        let r = Vector { lanes: kernels::mul_each(self.lanes, rhs.lanes) };
        proof {
            Self::lemma_from_view(r, mul_lanes(self@, rhs@));
        }
        r
    }
}

impl<T: Element, const D: usize> vstd::std_specs::ops::MulSpecImpl for Vector<T, D> {
    open spec fn obeys_mul_spec() -> bool {
        true
    }

    open spec fn mul_req(self, rhs: Self) -> bool {
        true
    }

    open spec fn mul_spec(self, rhs: Self) -> Self {
        Self::spec_from(mul_lanes(self@, rhs@))
    }
}

impl<T: Element, const D: usize> core::ops::Mul<T> for Vector<T, D> {
    type Output = Self;

    /// Lane-wise multiplication; integer lanes wrap on overflow. The scalar acts on every lane.
    fn mul(self, rhs: T) -> (r: Self)
        ensures
            r@ == mul_lanes(self@, splat_seq(rhs, D as nat)),
    {
        let r = core::ops::Mul::mul(self, Self::filled(rhs));
        proof {
            Self::lemma_from_view(r, mul_lanes(self@, splat_seq(rhs, D as nat)));
        }
        r
    }
}

impl<T: Element, const D: usize> vstd::std_specs::ops::MulSpecImpl<T> for Vector<T, D> {
    open spec fn obeys_mul_spec() -> bool {
        true
    }

    open spec fn mul_req(self, rhs: T) -> bool {
        true
    }

    open spec fn mul_spec(self, rhs: T) -> Self {
        Self::spec_from(mul_lanes(self@, splat_seq(rhs, D as nat)))
    }
}

impl<T: Element, const D: usize> core::ops::MulAssign for Vector<T, D> {
    fn mul_assign(&mut self, rhs: Self)
        ensures
            final(self)@ == mul_lanes(old(self)@, rhs@),
    {
        *self = core::ops::Mul::mul(*self, rhs);
    }
}

impl<T: Element, const D: usize> core::ops::MulAssign<T> for Vector<T, D> {
    fn mul_assign(&mut self, rhs: T)
        ensures
            final(self)@ == mul_lanes(old(self)@, splat_seq(rhs, D as nat)),
    {
        *self = core::ops::Mul::mul(*self, rhs);
    }
}

impl<const D: usize> core::ops::Mul<Vector<i32, D>> for i32 {
    type Output = Vector<i32, D>;

    /// Lane-wise multiplication; integer lanes wrap on overflow. The scalar acts on every lane.
    fn mul(self, rhs: Vector<i32, D>) -> (r: Vector<i32, D>)
        ensures
            r@ == mul_lanes(splat_seq(self, D as nat), rhs@),
    {
        let r = core::ops::Mul::mul(Vector::<i32, D>::filled(self), rhs);
        proof {
            Vector::<i32, D>::lemma_from_view(r, mul_lanes(splat_seq(self, D as nat), rhs@));
        }
        r
    }
}

impl<const D: usize> vstd::std_specs::ops::MulSpecImpl<Vector<i32, D>> for i32 {
    open spec fn obeys_mul_spec() -> bool {
        true
    }

    open spec fn mul_req(self, rhs: Vector<i32, D>) -> bool {
        true
    }

    open spec fn mul_spec(self, rhs: Vector<i32, D>) -> Vector<i32, D> {
        Vector::<i32, D>::spec_from(mul_lanes(splat_seq(self, D as nat), rhs@))
    }
}

impl<const D: usize> core::ops::Mul<Vector<u32, D>> for u32 {
    type Output = Vector<u32, D>;

    /// Lane-wise multiplication; integer lanes wrap on overflow. The scalar acts on every lane.
    fn mul(self, rhs: Vector<u32, D>) -> (r: Vector<u32, D>)
        ensures
            r@ == mul_lanes(splat_seq(self, D as nat), rhs@),
    {
        let r = core::ops::Mul::mul(Vector::<u32, D>::filled(self), rhs);
        proof {
            Vector::<u32, D>::lemma_from_view(r, mul_lanes(splat_seq(self, D as nat), rhs@));
        }
        r
    }
}

impl<const D: usize> vstd::std_specs::ops::MulSpecImpl<Vector<u32, D>> for u32 {
    open spec fn obeys_mul_spec() -> bool {
        true
    }

    open spec fn mul_req(self, rhs: Vector<u32, D>) -> bool {
        true
    }

    open spec fn mul_spec(self, rhs: Vector<u32, D>) -> Vector<u32, D> {
        Vector::<u32, D>::spec_from(mul_lanes(splat_seq(self, D as nat), rhs@))
    }
}

impl<T: Element, const D: usize> core::ops::Div for Vector<T, D> {
    type Output = Self;

    /// Lane-wise division rounding toward zero; it wraps on overflow. Every divisor lane must be nonzero.
    fn div(self, rhs: Self) -> (r: Self)
        ensures
            r@ == div_lanes(self@, rhs@),
    {
        let r = Vector { lanes: kernels::div_each(self.lanes, rhs.lanes) };
        proof {
            Self::lemma_from_view(r, div_lanes(self@, rhs@));
        }
        r
    }
}

impl<T: Element, const D: usize> vstd::std_specs::ops::DivSpecImpl for Vector<T, D> {
    open spec fn obeys_div_spec() -> bool {
        true
    }

    open spec fn div_req(self, rhs: Self) -> bool {
        forall|i: int| 0 <= i < D ==> (#[trigger] rhs@[i]).val() != 0
    }

    open spec fn div_spec(self, rhs: Self) -> Self {
        Self::spec_from(div_lanes(self@, rhs@))
    }
}

impl<T: Element, const D: usize> core::ops::Div<T> for Vector<T, D> {
    type Output = Self;

    /// Lane-wise division rounding toward zero; it wraps on overflow. Every divisor lane must be nonzero. The scalar acts on every lane.
    fn div(self, rhs: T) -> (r: Self)
        ensures
            r@ == div_lanes(self@, splat_seq(rhs, D as nat)),
    {
        let r = core::ops::Div::div(self, Self::filled(rhs));
        proof {
            Self::lemma_from_view(r, div_lanes(self@, splat_seq(rhs, D as nat)));
        }
        r
    }
}

impl<T: Element, const D: usize> vstd::std_specs::ops::DivSpecImpl<T> for Vector<T, D> {
    open spec fn obeys_div_spec() -> bool {
        true
    }

    open spec fn div_req(self, rhs: T) -> bool {
        rhs.val() != 0
    }

    open spec fn div_spec(self, rhs: T) -> Self {
        Self::spec_from(div_lanes(self@, splat_seq(rhs, D as nat)))
    }
}

impl<const D: usize> core::ops::Div<Vector<i32, D>> for i32 {
    type Output = Vector<i32, D>;

    /// Lane-wise division rounding toward zero; it wraps on overflow. Every divisor lane must be nonzero. The scalar acts on every lane.
    fn div(self, rhs: Vector<i32, D>) -> (r: Vector<i32, D>)
        ensures
            r@ == div_lanes(splat_seq(self, D as nat), rhs@),
    {
        let r = core::ops::Div::div(Vector::<i32, D>::filled(self), rhs);
        proof {
            Vector::<i32, D>::lemma_from_view(r, div_lanes(splat_seq(self, D as nat), rhs@));
        }
        r
    }
}

impl<const D: usize> vstd::std_specs::ops::DivSpecImpl<Vector<i32, D>> for i32 {
    open spec fn obeys_div_spec() -> bool {
        true
    }

    open spec fn div_req(self, rhs: Vector<i32, D>) -> bool {
        forall|i: int| 0 <= i < D ==> (#[trigger] rhs@[i]).val() != 0
    }

    open spec fn div_spec(self, rhs: Vector<i32, D>) -> Vector<i32, D> {
        Vector::<i32, D>::spec_from(div_lanes(splat_seq(self, D as nat), rhs@))
    }
}

impl<const D: usize> core::ops::Div<Vector<u32, D>> for u32 {
    type Output = Vector<u32, D>;

    /// Lane-wise division rounding toward zero; it wraps on overflow. Every divisor lane must be nonzero. The scalar acts on every lane.
    fn div(self, rhs: Vector<u32, D>) -> (r: Vector<u32, D>)
        ensures
            r@ == div_lanes(splat_seq(self, D as nat), rhs@),
    {
        let r = core::ops::Div::div(Vector::<u32, D>::filled(self), rhs);
        proof {
            Vector::<u32, D>::lemma_from_view(r, div_lanes(splat_seq(self, D as nat), rhs@));
        }
        r
    }
}

impl<const D: usize> vstd::std_specs::ops::DivSpecImpl<Vector<u32, D>> for u32 {
    open spec fn obeys_div_spec() -> bool {
        true
    }

    open spec fn div_req(self, rhs: Vector<u32, D>) -> bool {
        forall|i: int| 0 <= i < D ==> (#[trigger] rhs@[i]).val() != 0
    }

    open spec fn div_spec(self, rhs: Vector<u32, D>) -> Vector<u32, D> {
        Vector::<u32, D>::spec_from(div_lanes(splat_seq(self, D as nat), rhs@))
    }
}

impl<T: Element, const D: usize> core::ops::Rem for Vector<T, D> {
    type Output = Self;

    /// Lane-wise remainder of the division rounding toward zero. Every divisor lane must be nonzero.
    fn rem(self, rhs: Self) -> (r: Self)
        ensures
            r@ == rem_lanes(self@, rhs@),
    {
        let r = Vector { lanes: kernels::rem_each(self.lanes, rhs.lanes) };
        proof {
            Self::lemma_from_view(r, rem_lanes(self@, rhs@));
        }
        r
    }
}

impl<T: Element, const D: usize> vstd::std_specs::ops::RemSpecImpl for Vector<T, D> {
    open spec fn obeys_rem_spec() -> bool {
        true
    }

    open spec fn rem_req(self, rhs: Self) -> bool {
        forall|i: int| 0 <= i < D ==> (#[trigger] rhs@[i]).val() != 0
    }

    open spec fn rem_spec(self, rhs: Self) -> Self {
        Self::spec_from(rem_lanes(self@, rhs@))
    }
}

impl<T: Element, const D: usize> core::ops::Rem<T> for Vector<T, D> {
    type Output = Self;

    /// Lane-wise remainder of the division rounding toward zero. Every divisor lane must be nonzero. The scalar acts on every lane.
    fn rem(self, rhs: T) -> (r: Self)
        ensures
            r@ == rem_lanes(self@, splat_seq(rhs, D as nat)),
    {
        let r = core::ops::Rem::rem(self, Self::filled(rhs));
        proof {
            Self::lemma_from_view(r, rem_lanes(self@, splat_seq(rhs, D as nat)));
        }
        r
    }
}

impl<T: Element, const D: usize> vstd::std_specs::ops::RemSpecImpl<T> for Vector<T, D> {
    open spec fn obeys_rem_spec() -> bool {
        true
    }

    open spec fn rem_req(self, rhs: T) -> bool {
        rhs.val() != 0
    }

    open spec fn rem_spec(self, rhs: T) -> Self {
        Self::spec_from(rem_lanes(self@, splat_seq(rhs, D as nat)))
    }
}

impl<const D: usize> core::ops::Rem<Vector<i32, D>> for i32 {
    type Output = Vector<i32, D>;

    /// Lane-wise remainder of the division rounding toward zero. Every divisor lane must be nonzero. The scalar acts on every lane.
    fn rem(self, rhs: Vector<i32, D>) -> (r: Vector<i32, D>)
        ensures
            r@ == rem_lanes(splat_seq(self, D as nat), rhs@),
    {
        let r = core::ops::Rem::rem(Vector::<i32, D>::filled(self), rhs);
        proof {
            Vector::<i32, D>::lemma_from_view(r, rem_lanes(splat_seq(self, D as nat), rhs@));
        }
        r
    }
}

impl<const D: usize> vstd::std_specs::ops::RemSpecImpl<Vector<i32, D>> for i32 {
    open spec fn obeys_rem_spec() -> bool {
        true
    }

    open spec fn rem_req(self, rhs: Vector<i32, D>) -> bool {
        forall|i: int| 0 <= i < D ==> (#[trigger] rhs@[i]).val() != 0
    }

    open spec fn rem_spec(self, rhs: Vector<i32, D>) -> Vector<i32, D> {
        Vector::<i32, D>::spec_from(rem_lanes(splat_seq(self, D as nat), rhs@))
    }
}

impl<const D: usize> core::ops::Rem<Vector<u32, D>> for u32 {
    type Output = Vector<u32, D>;

    /// Lane-wise remainder of the division rounding toward zero. Every divisor lane must be nonzero. The scalar acts on every lane.
    fn rem(self, rhs: Vector<u32, D>) -> (r: Vector<u32, D>)
        ensures
            r@ == rem_lanes(splat_seq(self, D as nat), rhs@),
    {
        let r = core::ops::Rem::rem(Vector::<u32, D>::filled(self), rhs);
        proof {
            Vector::<u32, D>::lemma_from_view(r, rem_lanes(splat_seq(self, D as nat), rhs@));
        }
        r
    }
}

impl<const D: usize> vstd::std_specs::ops::RemSpecImpl<Vector<u32, D>> for u32 {
    open spec fn obeys_rem_spec() -> bool {
        true
    }

    open spec fn rem_req(self, rhs: Vector<u32, D>) -> bool {
        forall|i: int| 0 <= i < D ==> (#[trigger] rhs@[i]).val() != 0
    }

    open spec fn rem_spec(self, rhs: Vector<u32, D>) -> Vector<u32, D> {
        Vector::<u32, D>::spec_from(rem_lanes(splat_seq(self, D as nat), rhs@))
    }
}

impl<T: IntElement, const D: usize> core::ops::BitAnd for Vector<T, D> {
    type Output = Self;

    /// Lane-wise bitwise AND.
    fn bitand(self, rhs: Self) -> (r: Self)
        ensures
            r@ == and_lanes(self@, rhs@),
    {
        let r = Vector { lanes: kernels::bitand_each(self.lanes, rhs.lanes) };
        proof {
            Self::lemma_from_view(r, and_lanes(self@, rhs@));
        }
        r
    }
}

impl<T: IntElement, const D: usize> vstd::std_specs::ops::BitAndSpecImpl for Vector<T, D> {
    open spec fn obeys_bitand_spec() -> bool {
        true
    }

    open spec fn bitand_req(self, rhs: Self) -> bool {
        true
    }

    open spec fn bitand_spec(self, rhs: Self) -> Self {
        Self::spec_from(and_lanes(self@, rhs@))
    }
}

impl<T: IntElement, const D: usize> core::ops::BitAnd<T> for Vector<T, D> {
    type Output = Self;

    /// Lane-wise bitwise AND. The scalar acts on every lane.
    fn bitand(self, rhs: T) -> (r: Self)
        ensures
            r@ == and_lanes(self@, splat_seq(rhs, D as nat)),
    {
        let r = core::ops::BitAnd::bitand(self, Self::filled(rhs));
        proof {
            Self::lemma_from_view(r, and_lanes(self@, splat_seq(rhs, D as nat)));
        }
        r
    }
}

impl<T: IntElement, const D: usize> vstd::std_specs::ops::BitAndSpecImpl<T> for Vector<T, D> {
    open spec fn obeys_bitand_spec() -> bool {
        true
    }

    open spec fn bitand_req(self, rhs: T) -> bool {
        true
    }

    open spec fn bitand_spec(self, rhs: T) -> Self {
        Self::spec_from(and_lanes(self@, splat_seq(rhs, D as nat)))
    }
}

impl<T: IntElement, const D: usize> core::ops::BitAndAssign for Vector<T, D> {
    fn bitand_assign(&mut self, rhs: Self)
        ensures
            final(self)@ == and_lanes(old(self)@, rhs@),
    {
        *self = core::ops::BitAnd::bitand(*self, rhs);
    }
}

impl<T: IntElement, const D: usize> core::ops::BitAndAssign<T> for Vector<T, D> {
    fn bitand_assign(&mut self, rhs: T)
        ensures
            final(self)@ == and_lanes(old(self)@, splat_seq(rhs, D as nat)),
    {
        *self = core::ops::BitAnd::bitand(*self, rhs);
    }
}

impl<const D: usize> core::ops::BitAnd<Vector<i32, D>> for i32 {
    type Output = Vector<i32, D>;

    /// Lane-wise bitwise AND. The scalar acts on every lane.
    fn bitand(self, rhs: Vector<i32, D>) -> (r: Vector<i32, D>)
        ensures
            r@ == and_lanes(splat_seq(self, D as nat), rhs@),
    {
        let r = core::ops::BitAnd::bitand(Vector::<i32, D>::filled(self), rhs);
        proof {
            Vector::<i32, D>::lemma_from_view(r, and_lanes(splat_seq(self, D as nat), rhs@));
        }
        r
    }
}

impl<const D: usize> vstd::std_specs::ops::BitAndSpecImpl<Vector<i32, D>> for i32 {
    open spec fn obeys_bitand_spec() -> bool {
        true
    }

    open spec fn bitand_req(self, rhs: Vector<i32, D>) -> bool {
        true
    }

    open spec fn bitand_spec(self, rhs: Vector<i32, D>) -> Vector<i32, D> {
        Vector::<i32, D>::spec_from(and_lanes(splat_seq(self, D as nat), rhs@))
    }
}

impl<const D: usize> core::ops::BitAnd<Vector<u32, D>> for u32 {
    type Output = Vector<u32, D>;

    /// Lane-wise bitwise AND. The scalar acts on every lane.
    fn bitand(self, rhs: Vector<u32, D>) -> (r: Vector<u32, D>)
        ensures
            r@ == and_lanes(splat_seq(self, D as nat), rhs@),
    {
        let r = core::ops::BitAnd::bitand(Vector::<u32, D>::filled(self), rhs);
        proof {
            Vector::<u32, D>::lemma_from_view(r, and_lanes(splat_seq(self, D as nat), rhs@));
        }
        r
    }
}

impl<const D: usize> vstd::std_specs::ops::BitAndSpecImpl<Vector<u32, D>> for u32 {
    open spec fn obeys_bitand_spec() -> bool {
        true
    }

    open spec fn bitand_req(self, rhs: Vector<u32, D>) -> bool {
        true
    }

    open spec fn bitand_spec(self, rhs: Vector<u32, D>) -> Vector<u32, D> {
        Vector::<u32, D>::spec_from(and_lanes(splat_seq(self, D as nat), rhs@))
    }
}

impl<T: IntElement, const D: usize> core::ops::BitOr for Vector<T, D> {
    type Output = Self;

    /// Lane-wise bitwise OR.
    fn bitor(self, rhs: Self) -> (r: Self)
        ensures
            r@ == or_lanes(self@, rhs@),
    {
        let r = Vector { lanes: kernels::bitor_each(self.lanes, rhs.lanes) };
        proof {
            Self::lemma_from_view(r, or_lanes(self@, rhs@));
        }
        r
    }
}

impl<T: IntElement, const D: usize> vstd::std_specs::ops::BitOrSpecImpl for Vector<T, D> {
    open spec fn obeys_bitor_spec() -> bool {
        true
    }

    open spec fn bitor_req(self, rhs: Self) -> bool {
        true
    }

    open spec fn bitor_spec(self, rhs: Self) -> Self {
        Self::spec_from(or_lanes(self@, rhs@))
    }
}

impl<T: IntElement, const D: usize> core::ops::BitOr<T> for Vector<T, D> {
    type Output = Self;

    /// Lane-wise bitwise OR. The scalar acts on every lane.
    fn bitor(self, rhs: T) -> (r: Self)
        ensures
            r@ == or_lanes(self@, splat_seq(rhs, D as nat)),
    {
        let r = core::ops::BitOr::bitor(self, Self::filled(rhs));
        proof {
            Self::lemma_from_view(r, or_lanes(self@, splat_seq(rhs, D as nat)));
        }
        r
    }
}

impl<T: IntElement, const D: usize> vstd::std_specs::ops::BitOrSpecImpl<T> for Vector<T, D> {
    open spec fn obeys_bitor_spec() -> bool {
        true
    }

    open spec fn bitor_req(self, rhs: T) -> bool {
        true
    }

    open spec fn bitor_spec(self, rhs: T) -> Self {
        Self::spec_from(or_lanes(self@, splat_seq(rhs, D as nat)))
    }
}

impl<T: IntElement, const D: usize> core::ops::BitOrAssign for Vector<T, D> {
    fn bitor_assign(&mut self, rhs: Self)
        ensures
            final(self)@ == or_lanes(old(self)@, rhs@),
    {
        *self = core::ops::BitOr::bitor(*self, rhs);
    }
}

impl<T: IntElement, const D: usize> core::ops::BitOrAssign<T> for Vector<T, D> {
    fn bitor_assign(&mut self, rhs: T)
        ensures
            final(self)@ == or_lanes(old(self)@, splat_seq(rhs, D as nat)),
    {
        *self = core::ops::BitOr::bitor(*self, rhs);
    }
}

impl<const D: usize> core::ops::BitOr<Vector<i32, D>> for i32 {
    type Output = Vector<i32, D>;

    /// Lane-wise bitwise OR. The scalar acts on every lane.
    fn bitor(self, rhs: Vector<i32, D>) -> (r: Vector<i32, D>)
        ensures
            r@ == or_lanes(splat_seq(self, D as nat), rhs@),
    {
        let r = core::ops::BitOr::bitor(Vector::<i32, D>::filled(self), rhs);
        proof {
            Vector::<i32, D>::lemma_from_view(r, or_lanes(splat_seq(self, D as nat), rhs@));
        }
        r
    }
}

impl<const D: usize> vstd::std_specs::ops::BitOrSpecImpl<Vector<i32, D>> for i32 {
    open spec fn obeys_bitor_spec() -> bool {
        true
    }

    open spec fn bitor_req(self, rhs: Vector<i32, D>) -> bool {
        true
    }

    open spec fn bitor_spec(self, rhs: Vector<i32, D>) -> Vector<i32, D> {
        Vector::<i32, D>::spec_from(or_lanes(splat_seq(self, D as nat), rhs@))
    }
}

impl<const D: usize> core::ops::BitOr<Vector<u32, D>> for u32 {
    type Output = Vector<u32, D>;

    /// Lane-wise bitwise OR. The scalar acts on every lane.
    fn bitor(self, rhs: Vector<u32, D>) -> (r: Vector<u32, D>)
        ensures
            r@ == or_lanes(splat_seq(self, D as nat), rhs@),
    {
        let r = core::ops::BitOr::bitor(Vector::<u32, D>::filled(self), rhs);
        proof {
            Vector::<u32, D>::lemma_from_view(r, or_lanes(splat_seq(self, D as nat), rhs@));
        }
        r
    }
}

impl<const D: usize> vstd::std_specs::ops::BitOrSpecImpl<Vector<u32, D>> for u32 {
    open spec fn obeys_bitor_spec() -> bool {
        true
    }

    open spec fn bitor_req(self, rhs: Vector<u32, D>) -> bool {
        true
    }

    open spec fn bitor_spec(self, rhs: Vector<u32, D>) -> Vector<u32, D> {
        Vector::<u32, D>::spec_from(or_lanes(splat_seq(self, D as nat), rhs@))
    }
}

impl<T: IntElement, const D: usize> core::ops::BitXor for Vector<T, D> {
    type Output = Self;

    /// Lane-wise bitwise XOR.
    fn bitxor(self, rhs: Self) -> (r: Self)
        ensures
            r@ == xor_lanes(self@, rhs@),
    {
        let r = Vector { lanes: kernels::bitxor_each(self.lanes, rhs.lanes) };
        proof {
            Self::lemma_from_view(r, xor_lanes(self@, rhs@));
        }
        r
    }
}

impl<T: IntElement, const D: usize> vstd::std_specs::ops::BitXorSpecImpl for Vector<T, D> {
    open spec fn obeys_bitxor_spec() -> bool {
        true
    }

    open spec fn bitxor_req(self, rhs: Self) -> bool {
        true
    }

    open spec fn bitxor_spec(self, rhs: Self) -> Self {
        Self::spec_from(xor_lanes(self@, rhs@))
    }
}

impl<T: IntElement, const D: usize> core::ops::BitXor<T> for Vector<T, D> {
    type Output = Self;

    /// Lane-wise bitwise XOR. The scalar acts on every lane.
    fn bitxor(self, rhs: T) -> (r: Self)
        ensures
            r@ == xor_lanes(self@, splat_seq(rhs, D as nat)),
    {
        let r = core::ops::BitXor::bitxor(self, Self::filled(rhs));
        proof {
            Self::lemma_from_view(r, xor_lanes(self@, splat_seq(rhs, D as nat)));
        }
        r
    }
}

impl<T: IntElement, const D: usize> vstd::std_specs::ops::BitXorSpecImpl<T> for Vector<T, D> {
    open spec fn obeys_bitxor_spec() -> bool {
        true
    }

    open spec fn bitxor_req(self, rhs: T) -> bool {
        true
    }

    open spec fn bitxor_spec(self, rhs: T) -> Self {
        Self::spec_from(xor_lanes(self@, splat_seq(rhs, D as nat)))
    }
}

impl<T: IntElement, const D: usize> core::ops::BitXorAssign for Vector<T, D> {
    fn bitxor_assign(&mut self, rhs: Self)
        ensures
            final(self)@ == xor_lanes(old(self)@, rhs@),
    {
        *self = core::ops::BitXor::bitxor(*self, rhs);
    }
}

impl<T: IntElement, const D: usize> core::ops::BitXorAssign<T> for Vector<T, D> {
    fn bitxor_assign(&mut self, rhs: T)
        ensures
            final(self)@ == xor_lanes(old(self)@, splat_seq(rhs, D as nat)),
    {
        *self = core::ops::BitXor::bitxor(*self, rhs);
    }
}

impl<const D: usize> core::ops::BitXor<Vector<i32, D>> for i32 {
    type Output = Vector<i32, D>;

    /// Lane-wise bitwise XOR. The scalar acts on every lane.
    fn bitxor(self, rhs: Vector<i32, D>) -> (r: Vector<i32, D>)
        ensures
            r@ == xor_lanes(splat_seq(self, D as nat), rhs@),
    {
        let r = core::ops::BitXor::bitxor(Vector::<i32, D>::filled(self), rhs);
        proof {
            Vector::<i32, D>::lemma_from_view(r, xor_lanes(splat_seq(self, D as nat), rhs@));
        }
        r
    }
}

impl<const D: usize> vstd::std_specs::ops::BitXorSpecImpl<Vector<i32, D>> for i32 {
    open spec fn obeys_bitxor_spec() -> bool {
        true
    }

    open spec fn bitxor_req(self, rhs: Vector<i32, D>) -> bool {
        true
    }

    open spec fn bitxor_spec(self, rhs: Vector<i32, D>) -> Vector<i32, D> {
        Vector::<i32, D>::spec_from(xor_lanes(splat_seq(self, D as nat), rhs@))
    }
}

impl<const D: usize> core::ops::BitXor<Vector<u32, D>> for u32 {
    type Output = Vector<u32, D>;

    /// Lane-wise bitwise XOR. The scalar acts on every lane.
    fn bitxor(self, rhs: Vector<u32, D>) -> (r: Vector<u32, D>)
        ensures
            r@ == xor_lanes(splat_seq(self, D as nat), rhs@),
    {
        let r = core::ops::BitXor::bitxor(Vector::<u32, D>::filled(self), rhs);
        proof {
            Vector::<u32, D>::lemma_from_view(r, xor_lanes(splat_seq(self, D as nat), rhs@));
        }
        r
    }
}

impl<const D: usize> vstd::std_specs::ops::BitXorSpecImpl<Vector<u32, D>> for u32 {
    open spec fn obeys_bitxor_spec() -> bool {
        true
    }

    open spec fn bitxor_req(self, rhs: Vector<u32, D>) -> bool {
        true
    }

    open spec fn bitxor_spec(self, rhs: Vector<u32, D>) -> Vector<u32, D> {
        Vector::<u32, D>::spec_from(xor_lanes(splat_seq(self, D as nat), rhs@))
    }
}

impl<T: IntElement, const D: usize> core::ops::Shl for Vector<T, D> {
    type Output = Self;

    /// Lane-wise left shift by the corresponding lane of the right operand, modulo the lane width.
    fn shl(self, rhs: Self) -> (r: Self)
        ensures
            r@ == shl_lanes(self@, rhs@),
    {
        let r = Vector { lanes: kernels::shl_each(self.lanes, rhs.lanes) };
        proof {
            Self::lemma_from_view(r, shl_lanes(self@, rhs@));
        }
        r
    }
}

impl<T: IntElement, const D: usize> vstd::std_specs::ops::ShlSpecImpl for Vector<T, D> {
    open spec fn obeys_shl_spec() -> bool {
        true
    }

    open spec fn shl_req(self, rhs: Self) -> bool {
        true
    }

    open spec fn shl_spec(self, rhs: Self) -> Self {
        Self::spec_from(shl_lanes(self@, rhs@))
    }
}

impl<T: IntElement, const D: usize> core::ops::Shl<T> for Vector<T, D> {
    type Output = Self;

    /// Lane-wise left shift by the corresponding lane of the right operand, modulo the lane width. The scalar acts on every lane.
    fn shl(self, rhs: T) -> (r: Self)
        ensures
            r@ == shl_lanes(self@, splat_seq(rhs, D as nat)),
    {
        let r = core::ops::Shl::shl(self, Self::filled(rhs));
        proof {
            Self::lemma_from_view(r, shl_lanes(self@, splat_seq(rhs, D as nat)));
        }
        r
    }
}

impl<T: IntElement, const D: usize> vstd::std_specs::ops::ShlSpecImpl<T> for Vector<T, D> {
    open spec fn obeys_shl_spec() -> bool {
        true
    }

    open spec fn shl_req(self, rhs: T) -> bool {
        true
    }

    open spec fn shl_spec(self, rhs: T) -> Self {
        Self::spec_from(shl_lanes(self@, splat_seq(rhs, D as nat)))
    }
}

impl<T: IntElement, const D: usize> core::ops::ShlAssign for Vector<T, D> {
    fn shl_assign(&mut self, rhs: Self)
        ensures
            final(self)@ == shl_lanes(old(self)@, rhs@),
    {
        *self = core::ops::Shl::shl(*self, rhs);
    }
}

impl<T: IntElement, const D: usize> core::ops::ShlAssign<T> for Vector<T, D> {
    fn shl_assign(&mut self, rhs: T)
        ensures
            final(self)@ == shl_lanes(old(self)@, splat_seq(rhs, D as nat)),
    {
        *self = core::ops::Shl::shl(*self, rhs);
    }
}

impl<const D: usize> core::ops::Shl<Vector<i32, D>> for i32 {
    type Output = Vector<i32, D>;

    /// Lane-wise left shift by the corresponding lane of the right operand, modulo the lane width. The scalar acts on every lane.
    fn shl(self, rhs: Vector<i32, D>) -> (r: Vector<i32, D>)
        ensures
            r@ == shl_lanes(splat_seq(self, D as nat), rhs@),
    {
        let r = core::ops::Shl::shl(Vector::<i32, D>::filled(self), rhs);
        proof {
            Vector::<i32, D>::lemma_from_view(r, shl_lanes(splat_seq(self, D as nat), rhs@));
        }
        r
    }
}

impl<const D: usize> vstd::std_specs::ops::ShlSpecImpl<Vector<i32, D>> for i32 {
    open spec fn obeys_shl_spec() -> bool {
        true
    }

    open spec fn shl_req(self, rhs: Vector<i32, D>) -> bool {
        true
    }

    open spec fn shl_spec(self, rhs: Vector<i32, D>) -> Vector<i32, D> {
        Vector::<i32, D>::spec_from(shl_lanes(splat_seq(self, D as nat), rhs@))
    }
}

impl<const D: usize> core::ops::Shl<Vector<u32, D>> for u32 {
    type Output = Vector<u32, D>;

    /// Lane-wise left shift by the corresponding lane of the right operand, modulo the lane width. The scalar acts on every lane.
    fn shl(self, rhs: Vector<u32, D>) -> (r: Vector<u32, D>)
        ensures
            r@ == shl_lanes(splat_seq(self, D as nat), rhs@),
    {
        let r = core::ops::Shl::shl(Vector::<u32, D>::filled(self), rhs);
        proof {
            Vector::<u32, D>::lemma_from_view(r, shl_lanes(splat_seq(self, D as nat), rhs@));
        }
        r
    }
}

impl<const D: usize> vstd::std_specs::ops::ShlSpecImpl<Vector<u32, D>> for u32 {
    open spec fn obeys_shl_spec() -> bool {
        true
    }

    open spec fn shl_req(self, rhs: Vector<u32, D>) -> bool {
        true
    }

    open spec fn shl_spec(self, rhs: Vector<u32, D>) -> Vector<u32, D> {
        Vector::<u32, D>::spec_from(shl_lanes(splat_seq(self, D as nat), rhs@))
    }
}

impl<T: IntElement, const D: usize> core::ops::Shr for Vector<T, D> {
    type Output = Self;

    /// Lane-wise right shift (arithmetic for signed lanes) by the corresponding lane of the right operand, modulo the lane width.
    fn shr(self, rhs: Self) -> (r: Self)
        ensures
            r@ == shr_lanes(self@, rhs@),
    {
        let r = Vector { lanes: kernels::shr_each(self.lanes, rhs.lanes) };
        proof {
            Self::lemma_from_view(r, shr_lanes(self@, rhs@));
        }
        r
    }
}

impl<T: IntElement, const D: usize> vstd::std_specs::ops::ShrSpecImpl for Vector<T, D> {
    open spec fn obeys_shr_spec() -> bool {
        true
    }

    open spec fn shr_req(self, rhs: Self) -> bool {
        true
    }

    open spec fn shr_spec(self, rhs: Self) -> Self {
        Self::spec_from(shr_lanes(self@, rhs@))
    }
}

impl<T: IntElement, const D: usize> core::ops::Shr<T> for Vector<T, D> {
    type Output = Self;

    /// Lane-wise right shift (arithmetic for signed lanes) by the corresponding lane of the right operand, modulo the lane width. The scalar acts on every lane.
    fn shr(self, rhs: T) -> (r: Self)
        ensures
            r@ == shr_lanes(self@, splat_seq(rhs, D as nat)),
    {
        let r = core::ops::Shr::shr(self, Self::filled(rhs));
        proof {
            Self::lemma_from_view(r, shr_lanes(self@, splat_seq(rhs, D as nat)));
        }
        r
    }
}

impl<T: IntElement, const D: usize> vstd::std_specs::ops::ShrSpecImpl<T> for Vector<T, D> {
    open spec fn obeys_shr_spec() -> bool {
        true
    }

    open spec fn shr_req(self, rhs: T) -> bool {
        true
    }

    open spec fn shr_spec(self, rhs: T) -> Self {
        Self::spec_from(shr_lanes(self@, splat_seq(rhs, D as nat)))
    }
}

impl<T: IntElement, const D: usize> core::ops::ShrAssign for Vector<T, D> {
    fn shr_assign(&mut self, rhs: Self)
        ensures
            final(self)@ == shr_lanes(old(self)@, rhs@),
    {
        *self = core::ops::Shr::shr(*self, rhs);
    }
}

impl<T: IntElement, const D: usize> core::ops::ShrAssign<T> for Vector<T, D> {
    fn shr_assign(&mut self, rhs: T)
        ensures
            final(self)@ == shr_lanes(old(self)@, splat_seq(rhs, D as nat)),
    {
        *self = core::ops::Shr::shr(*self, rhs);
    }
}

impl<const D: usize> core::ops::Shr<Vector<i32, D>> for i32 {
    type Output = Vector<i32, D>;

    /// Lane-wise right shift (arithmetic for signed lanes) by the corresponding lane of the right operand, modulo the lane width. The scalar acts on every lane.
    fn shr(self, rhs: Vector<i32, D>) -> (r: Vector<i32, D>)
        ensures
            r@ == shr_lanes(splat_seq(self, D as nat), rhs@),
    {
        let r = core::ops::Shr::shr(Vector::<i32, D>::filled(self), rhs);
        proof {
            Vector::<i32, D>::lemma_from_view(r, shr_lanes(splat_seq(self, D as nat), rhs@));
        }
        r
    }
}

impl<const D: usize> vstd::std_specs::ops::ShrSpecImpl<Vector<i32, D>> for i32 {
    open spec fn obeys_shr_spec() -> bool {
        true
    }

    open spec fn shr_req(self, rhs: Vector<i32, D>) -> bool {
        true
    }

    open spec fn shr_spec(self, rhs: Vector<i32, D>) -> Vector<i32, D> {
        Vector::<i32, D>::spec_from(shr_lanes(splat_seq(self, D as nat), rhs@))
    }
}

impl<const D: usize> core::ops::Shr<Vector<u32, D>> for u32 {
    type Output = Vector<u32, D>;

    /// Lane-wise right shift (arithmetic for signed lanes) by the corresponding lane of the right operand, modulo the lane width. The scalar acts on every lane.
    fn shr(self, rhs: Vector<u32, D>) -> (r: Vector<u32, D>)
        ensures
            r@ == shr_lanes(splat_seq(self, D as nat), rhs@),
    {
        let r = core::ops::Shr::shr(Vector::<u32, D>::filled(self), rhs);
        proof {
            Vector::<u32, D>::lemma_from_view(r, shr_lanes(splat_seq(self, D as nat), rhs@));
        }
        r
    }
}

impl<const D: usize> vstd::std_specs::ops::ShrSpecImpl<Vector<u32, D>> for u32 {
    open spec fn obeys_shr_spec() -> bool {
        true
    }

    open spec fn shr_req(self, rhs: Vector<u32, D>) -> bool {
        true
    }

    open spec fn shr_spec(self, rhs: Vector<u32, D>) -> Vector<u32, D> {
        Vector::<u32, D>::spec_from(shr_lanes(splat_seq(self, D as nat), rhs@))
    }
}

} // verus!
