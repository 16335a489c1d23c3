//! Column-major matrices.
use vstd::prelude::*;

use crate::kernels;
use crate::kernels::{
    add_rows, cast_rows, div_rows, lemma_rows_eq, lemma_rows_exist, mul_rows, neg_rows, rows_view,
    splat_rows, sub_rows, transpose_rows,
};
use crate::marker::{CastFrom, Lane, Signed};
use crate::row_major;
use crate::support::Element;
use crate::vector::Vector;

verus! {

/// A fixed-size matrix stored as columns of length R.
///
/// `Matrix<T, R, C>` has `R` rows and `C` columns; its view is the sequence of
/// its columns, and `at(i, j)` is the element in row `i` and column `j`.
#[derive(Clone, Copy, Debug)]
pub struct Matrix<T: Element, const R: usize, const C: usize> {
    columns: [[T; R]; C],
}

impl<T: Element, const R: usize, const C: usize> View for Matrix<T, R, C> {
    type V = Seq<Seq<T>>;

    /// The columns of the matrix.
    closed spec fn view(&self) -> Seq<Seq<T>> {
        rows_view(self.columns)
    }
}

impl<T: Element, const R: usize, const C: usize> Matrix<T, R, C> {
    /// The element in row `i` and column `j`.
    pub open spec fn at(self, i: int, j: int) -> T {
        self@[j][i]
    }

    /// The matrix whose columns are `s`.
    pub closed spec fn spec_from(s: Seq<Seq<T>>) -> Self {
        Matrix { columns: choose|a: [[T; R]; C]| rows_view(a) == s }
    }

    pub proof fn lemma_shape(m: Self)
        ensures
            m@.len() == C,
            forall|k: int| 0 <= k < C ==> (#[trigger] m@[k]).len() == R,
    {
    }

    /// Two matrices with the same columns are equal.
    pub proof fn lemma_view_eq(a: Self, b: Self)
        requires
            a@ == b@,
        ensures
            a == b,
    {
        lemma_rows_eq(a.columns, b.columns);
    }

    /// A matrix is the one that `spec_from` builds from its columns.
    pub proof fn lemma_from_view(m: Self, s: Seq<Seq<T>>)
        requires
            m@ == s,
        ensures
            m == Self::spec_from(s),
    {
        lemma_rows_exist::<T, R, C>(s);
        lemma_rows_eq(m.columns, Self::spec_from(s).columns);
    }

    pub(crate) fn from_storage(columns: [[T; R]; C]) -> (r: Self)
        ensures
            r@ == rows_view(columns),
    {
        Matrix { columns }
    }

    pub(crate) fn storage(self) -> (r: [[T; R]; C])
        ensures
            rows_view(r) == self@,
    {
        self.columns
    }

    /// The matrix with all elements set to zero.
    pub fn zero() -> (r: Self)
        ensures
            forall|i: int, j: int| 0 <= i < R && 0 <= j < C ==> (#[trigger] r.at(i, j)).val() == 0,
    {
        Self::filled(T::zero_())
    }

    /// The matrix with all elements set to one.
    pub fn one() -> (r: Self)
        ensures
            forall|i: int, j: int| 0 <= i < R && 0 <= j < C ==> (#[trigger] r.at(i, j)).val() == 1,
    {
        Self::filled(T::one_())
    }

    /// Constructs a matrix with every element set to `value`.
    pub fn filled(value: T) -> (r: Self)
        ensures
            r@ == splat_rows(value, R as nat, C as nat),
            forall|i: int, j: int| 0 <= i < R && 0 <= j < C ==> #[trigger] r.at(i, j) == value,
    {
        Matrix { columns: kernels::filled2(value) }
    }

    /// Constructs a matrix from its columns.
    pub fn from_columns(columns: [[T; R]; C]) -> (r: Self)
        ensures
            r@ == rows_view(columns),
    {
        Matrix { columns }
    }

    /// Returns the columns of the matrix.
    pub fn to_columns(self) -> (r: [[T; R]; C])
        ensures
            rows_view(r) == self@,
    {
        self.columns
    }

    /// Constructs a matrix from columns given as vectors.
    pub fn from_column_vecs(vecs: [Vector<T, R>; C]) -> (r: Self)
        ensures
            forall|k: int| 0 <= k < C ==> #[trigger] r@[k] == vecs@[k]@,
    {
        let mut out = [[T::zero_(); R]; C];
        for k in 0..C
            invariant
                forall|p: int| 0 <= p < k ==> (#[trigger] out@[p])@ == vecs@[p]@,
        {
            out[k] = vecs[k].lanes();
        }
        Matrix { columns: out }
    }

    /// Returns the columns of the matrix as vectors.
    pub fn to_column_vecs(self) -> (r: [Vector<T, R>; C])
        ensures
            forall|k: int| 0 <= k < C ==> (#[trigger] r@[k])@ == self@[k],
    {
        let mut out = [Vector::<T, R>::zero(); C];
        for k in 0..C
            invariant
                forall|p: int| 0 <= p < k ==> (#[trigger] out@[p])@ == self.columns@[p]@,
        {
            out[k] = Vector::from_lanes(self.columns[k]);
        }
        out
    }

    /// Returns the transpose of this matrix in the same storage orientation.
    pub fn transpose(self) -> (r: Matrix<T, C, R>)
        ensures
            r@ == transpose_rows(self@, R as nat, C as nat),
            forall|i: int, j: int| 0 <= i < C && 0 <= j < R ==> #[trigger] r.at(i, j) == self.at(j, i),
    {
        let t = kernels::transpose(self.columns);
        let r = Matrix::<T, C, R>::from_storage(t);
        assert forall|i: int, j: int| 0 <= i < C && 0 <= j < R implies #[trigger] r.at(i, j) == self.at(j, i) by {
            assert(r@ == rows_view(t));
        }
        r
    }

    /// Reinterprets the storage as a row-major matrix representing the
    /// transpose of `self`.
    pub fn to_row_major_transposed(self) -> (r: row_major::Matrix<T, C, R>)
        ensures
            r@ == self@,
            forall|i: int, j: int| 0 <= i < C && 0 <= j < R ==> #[trigger] r.at(i, j) == self.at(j, i),
    {
        row_major::Matrix::<T, C, R>::from_storage(self.columns)
    }

    /// Converts each matrix element to `U` using Rust's `as` conversion semantics.
    pub fn cast<U: Element + CastFrom<T>>(self) -> (r: Matrix<U, R, C>)
        ensures
            r@ == cast_rows::<T, U>(self@),
    {
        Matrix { columns: kernels::cast2(self.columns) }
    }

    /// Borrows the element in row `i` and column `j`.
    pub fn index(&self, i: usize, j: usize) -> (r: &T)
        requires
            i < R,
            j < C,
        ensures
            *r == self.at(i as int, j as int),
    {
        &self.columns[j][i]
    }

    /// Mutably borrows the element in row `i` and column `j`.
    pub fn index_mut(&mut self, i: usize, j: usize) -> (r: &mut T)
        requires
            i < R,
            j < C,
        ensures
            *r == old(self).at(i as int, j as int),
            final(self)@ == old(self)@.update(j as int, old(self)@[j as int].update(i as int, *final(r))),
    {
        &mut self.columns[j][i]
    }

    /// Overwrites the element in row `i` and column `j`.
    pub fn set(&mut self, i: usize, j: usize, value: T)
        requires
            i < R,
            j < C,
        ensures
            final(self)@ == old(self)@.update(j as int, old(self)@[j as int].update(i as int, value)),
            final(self).at(i as int, j as int) == value,
    {
        let mut line = self.columns[j];
        line[i] = value;
        self.columns[j] = line;
        assert(self@ =~= old(self)@.update(j as int, old(self)@[j as int].update(i as int, value)));
    }

    /// The element-wise sum of `matrices`; the zero matrix when there are none.
    pub fn sum(matrices: &[Self]) -> (r: Self)
        ensures
            matrices@.len() == 0 ==> r == Self::spec_from(splat_rows(T::from_int(0), R as nat, C as nat)),
            matrices@.len() > 0 ==> r == matrices@.skip(1).fold_left(
                matrices@[0],
                |acc: Self, x: Self| Self::spec_from(add_rows(acc@, x@)),
            ),
    {
        if matrices.len() == 0 {
            let z = T::zero_();
            let r = Self::filled(z);
            proof {
                T::lemma_lane(z);
                Self::lemma_from_view(r, splat_rows(T::from_int(0), R as nat, C as nat));
            }
            return r;
        }
        let mut acc = matrices[0];
        let mut k: usize = 1;
        while k < matrices.len()
            invariant
                1 <= k <= matrices@.len(),
                acc == matrices@.subrange(1, k as int).fold_left(
                    matrices@[0],
                    |acc: Self, x: Self| Self::spec_from(add_rows(acc@, x@)),
                ),
            decreases matrices@.len() - k,
        {
            let ghost prev = matrices@.subrange(1, k as int);
            acc = acc + matrices[k];
            proof {
                let next = matrices@.subrange(1, k as int + 1);
                assert(next.drop_last() =~= prev);
                assert(next.last() == matrices@[k as int]);
            }
            k += 1;
        }
        assert(matrices@.subrange(1, matrices@.len() as int) =~= matrices@.skip(1));
        acc
    }
}

impl<T: Element, const D: usize> Matrix<T, D, D> {
    /// The identity matrix.
    pub fn identity() -> (r: Self)
        ensures
            forall|i: int, j: int| 0 <= i < D && 0 <= j < D ==> (#[trigger] r.at(i, j)).val() == (if i == j {
                1int
            } else {
                0int
            }),
    {
        let r = Matrix::<T, D, D> { columns: kernels::identity::<T, D>() };
        assert forall|i: int, j: int| 0 <= i < D && 0 <= j < D implies (#[trigger] r.at(i, j)).val() == (if i == j {
            1int
        } else {
            0int
        }) by {
            assert(r@[j][i] == r.columns@[j]@[i]);
        }
        r
    }

    /// Returns the main diagonal as a vector.
    pub fn diagonal(self) -> (r: Vector<T, D>)
        ensures
            forall|i: int| 0 <= i < D ==> #[trigger] r@[i] == self.at(i, i),
    {
        Vector::from_lanes(kernels::diagonal(self.columns))
    }
}

impl<T: Element, const R: usize, const C: usize> PartialEq for Matrix<T, R, C> {
    fn eq(&self, other: &Self) -> (r: bool) {
        kernels::all_eq2(self.columns, other.columns)
    }
}

impl<T: Element, const R: usize, const C: usize> vstd::std_specs::cmp::PartialEqSpecImpl for Matrix<T, R, C> {
    open spec fn obeys_eq_spec() -> bool {
        true
    }

    open spec fn eq_spec(&self, other: &Self) -> bool {
        self@ == other@
    }
}

impl<T: Element, const R: usize, const C: usize> Eq for Matrix<T, R, C> {
}

impl<T: Element, const R: usize, const C: usize> Default for Matrix<T, R, C> {
    /// The zero matrix.
    fn default() -> (r: Self)
        ensures
            forall|i: int, j: int| 0 <= i < R && 0 <= j < C ==> (#[trigger] r.at(i, j)).val() == 0,
    {
        Self::zero()
    }
}

impl<T: Element, const R: usize, const C: usize> From<[[T; R]; C]> for Matrix<T, R, C> {
    fn from(value: [[T; R]; C]) -> (r: Self) {
        let r = Self::from_columns(value);
        proof {
            Self::lemma_from_view(r, rows_view(value));
        }
        r
    }
}

impl<T: Element, const R: usize, const C: usize> vstd::std_specs::convert::FromSpecImpl<[[T; R]; C]> for Matrix<T, R, C> {
    open spec fn obeys_from_spec() -> bool {
        true
    }

    open spec fn from_spec(v: [[T; R]; C]) -> Self {
        Self::spec_from(rows_view(v))
    }
}

impl<T: Element, const R: usize, const C: usize> From<Matrix<T, R, C>> for [[T; R]; C] {
    fn from(value: Matrix<T, R, C>) -> (r: [[T; R]; C]) {
        let r = value.to_columns();
        proof {
            lemma_rows_exist::<T, R, C>(value@);
            let a = choose|a: [[T; R]; C]| rows_view(a) == value@;
            lemma_rows_eq(r, a);
        }
        r
    }
}

impl<T: Element, const R: usize, const C: usize> vstd::std_specs::convert::FromSpecImpl<Matrix<T, R, C>> for [[T; R]; C] {
    open spec fn obeys_from_spec() -> bool {
        true
    }

    open spec fn from_spec(v: Matrix<T, R, C>) -> [[T; R]; C] {
        choose|a: [[T; R]; C]| rows_view(a) == v@
    }
}

impl<T: Element + Signed, const R: usize, const C: usize> core::ops::Neg for Matrix<T, R, C> {
    type Output = Self;

    /// Element-wise negation; the minimum value maps to itself.
    fn neg(self) -> (r: Self)
        ensures
            r@ == neg_rows(self@),
    {
        let r = Matrix { columns: kernels::neg_each2(self.columns) };
        proof {
            Self::lemma_from_view(r, neg_rows(self@));
        }
        r
    }
}

impl<T: Element + Signed, const R: usize, const C: usize> vstd::std_specs::ops::NegSpecImpl for Matrix<T, R, C> {
    open spec fn obeys_neg_spec() -> bool {
        true
    }

    open spec fn neg_req(self) -> bool {
        true
    }

    open spec fn neg_spec(self) -> Self {
        Self::spec_from(neg_rows(self@))
    }
}

impl<T: Element, const R: usize, const C: usize> core::ops::Add for Matrix<T, R, C> {
    type Output = Self;

    /// Element-wise addition; integer elements wrap on overflow.
    fn add(self, rhs: Self) -> (r: Self)
        ensures
            r@ == add_rows(self@, rhs@),
    {
        let r = Matrix { columns: kernels::add_each2(self.columns, rhs.columns) };
        proof {
            Self::lemma_from_view(r, add_rows(self@, rhs@));
        }
        r
    }
}

impl<T: Element, const R: usize, const C: usize> vstd::std_specs::ops::AddSpecImpl for Matrix<T, R, C> {
    open spec fn obeys_add_spec() -> bool {
        true
    }

    open spec fn add_req(self, rhs: Self) -> bool {
        true
    }

    open spec fn add_spec(self, rhs: Self) -> Self {
        Self::spec_from(add_rows(self@, rhs@))
    }
}

impl<T: Element, const R: usize, const C: usize> core::ops::AddAssign for Matrix<T, R, C> {
    fn add_assign(&mut self, rhs: Self)
        ensures
            final(self)@ == add_rows(old(self)@, rhs@),
    {
        *self = core::ops::Add::add(*self, rhs);
    }
}

impl<T: Element, const R: usize, const C: usize> core::ops::Add<T> for Matrix<T, R, C> {
    type Output = Self;

    /// Element-wise addition; integer elements wrap on overflow.
    fn add(self, rhs: T) -> (r: Self)
        ensures
            r@ == add_rows(self@, splat_rows(rhs, R as nat, C as nat)),
    {
        let r = Matrix { columns: kernels::add_each2(self.columns, kernels::filled2(rhs)) };
        proof {
            Self::lemma_from_view(r, add_rows(self@, splat_rows(rhs, R as nat, C as nat)));
        }
        r
    }
}

impl<T: Element, const R: usize, const C: usize> vstd::std_specs::ops::AddSpecImpl<T> for Matrix<T, R, C> {
    open spec fn obeys_add_spec() -> bool {
        true
    }

    open spec fn add_req(self, rhs: T) -> bool {
        true
    }

    open spec fn add_spec(self, rhs: T) -> Self {
        Self::spec_from(add_rows(self@, splat_rows(rhs, R as nat, C as nat)))
    }
}

impl<T: Element, const R: usize, const C: usize> core::ops::AddAssign<T> for Matrix<T, R, C> {
    fn add_assign(&mut self, rhs: T)
        ensures
            final(self)@ == add_rows(old(self)@, splat_rows(rhs, R as nat, C as nat)),
    {
        *self = core::ops::Add::add(*self, rhs);
    }
}

impl<const R: usize, const C: usize> core::ops::Add<Matrix<i32, R, C>> for i32 {
    type Output = Matrix<i32, R, C>;

    /// Element-wise addition; integer elements wrap on overflow.
    fn add(self, rhs: Matrix<i32, R, C>) -> (r: Matrix<i32, R, C>)
        ensures
            r@ == add_rows(splat_rows(self, R as nat, C as nat), rhs@),
    {
        let st = rhs.storage();
        let r = Matrix::<i32, R, C>::from_storage(kernels::add_each2(kernels::filled2(self), st));
        proof {
            Matrix::<i32, R, C>::lemma_from_view(r, add_rows(splat_rows(self, R as nat, C as nat), rhs@));
        }
        r
    }
}

impl<const R: usize, const C: usize> vstd::std_specs::ops::AddSpecImpl<Matrix<i32, R, C>> for i32 {
    open spec fn obeys_add_spec() -> bool {
        true
    }

    open spec fn add_req(self, rhs: Matrix<i32, R, C>) -> bool {
        true
    }

    open spec fn add_spec(self, rhs: Matrix<i32, R, C>) -> Matrix<i32, R, C> {
        Matrix::<i32, R, C>::spec_from(add_rows(splat_rows(self, R as nat, C as nat), rhs@))
    }
}

impl<const R: usize, const C: usize> core::ops::Add<Matrix<u32, R, C>> for u32 {
    type Output = Matrix<u32, R, C>;

    /// Element-wise addition; integer elements wrap on overflow.
    fn add(self, rhs: Matrix<u32, R, C>) -> (r: Matrix<u32, R, C>)
        ensures
            r@ == add_rows(splat_rows(self, R as nat, C as nat), rhs@),
    {
        let st = rhs.storage();
        let r = Matrix::<u32, R, C>::from_storage(kernels::add_each2(kernels::filled2(self), st));
        proof {
            Matrix::<u32, R, C>::lemma_from_view(r, add_rows(splat_rows(self, R as nat, C as nat), rhs@));
        }
        r
    }
}

impl<const R: usize, const C: usize> vstd::std_specs::ops::AddSpecImpl<Matrix<u32, R, C>> for u32 {
    open spec fn obeys_add_spec() -> bool {
        true
    }

    open spec fn add_req(self, rhs: Matrix<u32, R, C>) -> bool {
        true
    }

    open spec fn add_spec(self, rhs: Matrix<u32, R, C>) -> Matrix<u32, R, C> {
        Matrix::<u32, R, C>::spec_from(add_rows(splat_rows(self, R as nat, C as nat), rhs@))
    }
}

impl<T: Element, const R: usize, const C: usize> core::ops::Sub for Matrix<T, R, C> {
    type Output = Self;

    /// Element-wise subtraction; integer elements wrap on overflow.
    fn sub(self, rhs: Self) -> (r: Self)
        ensures
            r@ == sub_rows(self@, rhs@),
    {
        let r = Matrix { columns: kernels::sub_each2(self.columns, rhs.columns) };
        proof {
            Self::lemma_from_view(r, sub_rows(self@, rhs@));
        }
        r
    }
}

impl<T: Element, const R: usize, const C: usize> vstd::std_specs::ops::SubSpecImpl for Matrix<T, R, C> {
    open spec fn obeys_sub_spec() -> bool {
        true
    }

    open spec fn sub_req(self, rhs: Self) -> bool {
        true
    }

    open spec fn sub_spec(self, rhs: Self) -> Self {
        Self::spec_from(sub_rows(self@, rhs@))
    }
}

impl<T: Element, const R: usize, const C: usize> core::ops::SubAssign for Matrix<T, R, C> {
    fn sub_assign(&mut self, rhs: Self)
        ensures
            final(self)@ == sub_rows(old(self)@, rhs@),
    {
        *self = core::ops::Sub::sub(*self, rhs);
    }
}

impl<T: Element, const R: usize, const C: usize> core::ops::Sub<T> for Matrix<T, R, C> {
    type Output = Self;

    /// Element-wise subtraction; integer elements wrap on overflow.
    fn sub(self, rhs: T) -> (r: Self)
        ensures
            r@ == sub_rows(self@, splat_rows(rhs, R as nat, C as nat)),
    {
        let r = Matrix { columns: kernels::sub_each2(self.columns, kernels::filled2(rhs)) };
        proof {
            Self::lemma_from_view(r, sub_rows(self@, splat_rows(rhs, R as nat, C as nat)));
        }
        r
    }
}

impl<T: Element, const R: usize, const C: usize> vstd::std_specs::ops::SubSpecImpl<T> for Matrix<T, R, C> {
    open spec fn obeys_sub_spec() -> bool {
        true
    }

    open spec fn sub_req(self, rhs: T) -> bool {
        true
    }

    open spec fn sub_spec(self, rhs: T) -> Self {
        Self::spec_from(sub_rows(self@, splat_rows(rhs, R as nat, C as nat)))
    }
}

impl<T: Element, const R: usize, const C: usize> core::ops::SubAssign<T> for Matrix<T, R, C> {
    fn sub_assign(&mut self, rhs: T)
        ensures
            final(self)@ == sub_rows(old(self)@, splat_rows(rhs, R as nat, C as nat)),
    {
        *self = core::ops::Sub::sub(*self, rhs);
    }
}

impl<const R: usize, const C: usize> core::ops::Sub<Matrix<i32, R, C>> for i32 {
    type Output = Matrix<i32, R, C>;

    /// Element-wise subtraction; integer elements wrap on overflow.
    fn sub(self, rhs: Matrix<i32, R, C>) -> (r: Matrix<i32, R, C>)
        ensures
            r@ == sub_rows(splat_rows(self, R as nat, C as nat), rhs@),
    {
        let st = rhs.storage();
        let r = Matrix::<i32, R, C>::from_storage(kernels::sub_each2(kernels::filled2(self), st));
        proof {
            Matrix::<i32, R, C>::lemma_from_view(r, sub_rows(splat_rows(self, R as nat, C as nat), rhs@));
        }
        r
    }
}

impl<const R: usize, const C: usize> vstd::std_specs::ops::SubSpecImpl<Matrix<i32, R, C>> for i32 {
    open spec fn obeys_sub_spec() -> bool {
        true
    }

    open spec fn sub_req(self, rhs: Matrix<i32, R, C>) -> bool {
        true
    }

    open spec fn sub_spec(self, rhs: Matrix<i32, R, C>) -> Matrix<i32, R, C> {
        Matrix::<i32, R, C>::spec_from(sub_rows(splat_rows(self, R as nat, C as nat), rhs@))
    }
}

impl<const R: usize, const C: usize> core::ops::Sub<Matrix<u32, R, C>> for u32 {
    type Output = Matrix<u32, R, C>;

    /// Element-wise subtraction; integer elements wrap on overflow.
    fn sub(self, rhs: Matrix<u32, R, C>) -> (r: Matrix<u32, R, C>)
        ensures
            r@ == sub_rows(splat_rows(self, R as nat, C as nat), rhs@),
    {
        let st = rhs.storage();
        let r = Matrix::<u32, R, C>::from_storage(kernels::sub_each2(kernels::filled2(self), st));
        proof {
            Matrix::<u32, R, C>::lemma_from_view(r, sub_rows(splat_rows(self, R as nat, C as nat), rhs@));
        }
        r
    }
}

impl<const R: usize, const C: usize> vstd::std_specs::ops::SubSpecImpl<Matrix<u32, R, C>> for u32 {
    open spec fn obeys_sub_spec() -> bool {
        true
    }

    open spec fn sub_req(self, rhs: Matrix<u32, R, C>) -> bool {
        true
    }

    open spec fn sub_spec(self, rhs: Matrix<u32, R, C>) -> Matrix<u32, R, C> {
        Matrix::<u32, R, C>::spec_from(sub_rows(splat_rows(self, R as nat, C as nat), rhs@))
    }
}

impl<T: Element, const R: usize, const C: usize> core::ops::Mul<T> for Matrix<T, R, C> {
    type Output = Self;

    /// Multiplies every element by the scalar; integer elements wrap on overflow.
    fn mul(self, rhs: T) -> (r: Self)
        ensures
            r@ == mul_rows(self@, splat_rows(rhs, R as nat, C as nat)),
    {
        let r = Matrix { columns: kernels::mul_each2(self.columns, kernels::filled2(rhs)) };
        proof {
            Self::lemma_from_view(r, mul_rows(self@, splat_rows(rhs, R as nat, C as nat)));
        }
        r
    }
}

impl<T: Element, const R: usize, const C: usize> vstd::std_specs::ops::MulSpecImpl<T> for Matrix<T, R, C> {
    open spec fn obeys_mul_spec() -> bool {
        true
    }

    open spec fn mul_req(self, rhs: T) -> bool {
        true
    }

    open spec fn mul_spec(self, rhs: T) -> Self {
        Self::spec_from(mul_rows(self@, splat_rows(rhs, R as nat, C as nat)))
    }
}

impl<T: Element, const R: usize, const C: usize> core::ops::MulAssign<T> for Matrix<T, R, C> {
    fn mul_assign(&mut self, rhs: T)
        ensures
            final(self)@ == mul_rows(old(self)@, splat_rows(rhs, R as nat, C as nat)),
    {
        *self = core::ops::Mul::mul(*self, rhs);
    }
}

impl<const R: usize, const C: usize> core::ops::Mul<Matrix<i32, R, C>> for i32 {
    type Output = Matrix<i32, R, C>;

    /// Multiplies the scalar by every element; integer elements wrap on overflow.
    fn mul(self, rhs: Matrix<i32, R, C>) -> (r: Matrix<i32, R, C>)
        ensures
            r@ == mul_rows(splat_rows(self, R as nat, C as nat), rhs@),
    {
        let st = rhs.storage();
        let r = Matrix::<i32, R, C>::from_storage(kernels::mul_each2(kernels::filled2(self), st));
        proof {
            Matrix::<i32, R, C>::lemma_from_view(r, mul_rows(splat_rows(self, R as nat, C as nat), rhs@));
        }
        r
    }
}

impl<const R: usize, const C: usize> vstd::std_specs::ops::MulSpecImpl<Matrix<i32, R, C>> for i32 {
    open spec fn obeys_mul_spec() -> bool {
        true
    }

    open spec fn mul_req(self, rhs: Matrix<i32, R, C>) -> bool {
        true
    }

    open spec fn mul_spec(self, rhs: Matrix<i32, R, C>) -> Matrix<i32, R, C> {
        Matrix::<i32, R, C>::spec_from(mul_rows(splat_rows(self, R as nat, C as nat), rhs@))
    }
}

impl<const R: usize, const C: usize> core::ops::Mul<Matrix<u32, R, C>> for u32 {
    type Output = Matrix<u32, R, C>;

    /// Multiplies the scalar by every element; integer elements wrap on overflow.
    fn mul(self, rhs: Matrix<u32, R, C>) -> (r: Matrix<u32, R, C>)
        ensures
            r@ == mul_rows(splat_rows(self, R as nat, C as nat), rhs@),
    {
        let st = rhs.storage();
        let r = Matrix::<u32, R, C>::from_storage(kernels::mul_each2(kernels::filled2(self), st));
        proof {
            Matrix::<u32, R, C>::lemma_from_view(r, mul_rows(splat_rows(self, R as nat, C as nat), rhs@));
        }
        r
    }
}

impl<const R: usize, const C: usize> vstd::std_specs::ops::MulSpecImpl<Matrix<u32, R, C>> for u32 {
    open spec fn obeys_mul_spec() -> bool {
        true
    }

    open spec fn mul_req(self, rhs: Matrix<u32, R, C>) -> bool {
        true
    }

    open spec fn mul_spec(self, rhs: Matrix<u32, R, C>) -> Matrix<u32, R, C> {
        Matrix::<u32, R, C>::spec_from(mul_rows(splat_rows(self, R as nat, C as nat), rhs@))
    }
}

impl<T: Element, const R: usize, const C: usize> core::ops::Div<T> for Matrix<T, R, C> {
    type Output = Self;

    /// Divides every element by the scalar, rounding toward zero and wrapping on overflow. The scalar must be nonzero.
    fn div(self, rhs: T) -> (r: Self)
        ensures
            r@ == div_rows(self@, splat_rows(rhs, R as nat, C as nat)),
    {
        let r = Matrix { columns: kernels::div_each2(self.columns, kernels::filled2(rhs)) };
        proof {
            Self::lemma_from_view(r, div_rows(self@, splat_rows(rhs, R as nat, C as nat)));
        }
        r
    }
}

impl<T: Element, const R: usize, const C: usize> vstd::std_specs::ops::DivSpecImpl<T> for Matrix<T, R, C> {
    open spec fn obeys_div_spec() -> bool {
        true
    }

    open spec fn div_req(self, rhs: T) -> bool {
        rhs.val() != 0
    }

    open spec fn div_spec(self, rhs: T) -> Self {
        Self::spec_from(div_rows(self@, splat_rows(rhs, R as nat, C as nat)))
    }
}

impl<T: Element, const R: usize, const C: usize> Matrix<T, R, C> {
    /// Divides every element in place by the scalar, rounding toward zero and
    /// wrapping on overflow. The scalar must be nonzero.
    pub fn div_assign(&mut self, rhs: T)
        requires
            rhs.val() != 0,
        ensures
            final(self)@ == div_rows(old(self)@, splat_rows(rhs, R as nat, C as nat)),
    {
        *self = core::ops::Div::div(*self, rhs);
    }
}

impl<const R: usize, const C: usize> core::ops::Div<Matrix<i32, R, C>> for i32 {
    type Output = Matrix<i32, R, C>;

    /// Divides the scalar by every element, rounding toward zero and wrapping on overflow. Every element must be nonzero.
    fn div(self, rhs: Matrix<i32, R, C>) -> (r: Matrix<i32, R, C>)
        ensures
            r@ == div_rows(splat_rows(self, R as nat, C as nat), rhs@),
    {
        let st = rhs.storage();
        proof {
            assert forall|p: int, q: int| 0 <= p < C && 0 <= q < R implies (#[trigger] st@[p]@[q]).val() != 0 by {
                assert(rows_view(st)[p][q] == st@[p]@[q]);
            }
        }
        let r = Matrix::<i32, R, C>::from_storage(kernels::div_each2(kernels::filled2(self), st));
        proof {
            Matrix::<i32, R, C>::lemma_from_view(r, div_rows(splat_rows(self, R as nat, C as nat), rhs@));
        }
        r
    }
}

impl<const R: usize, const C: usize> vstd::std_specs::ops::DivSpecImpl<Matrix<i32, R, C>> for i32 {
    open spec fn obeys_div_spec() -> bool {
        true
    }

    open spec fn div_req(self, rhs: Matrix<i32, R, C>) -> bool {
        forall|p: int, q: int| 0 <= p < C && 0 <= q < R ==> (#[trigger] rhs@[p][q]).val() != 0
    }

    open spec fn div_spec(self, rhs: Matrix<i32, R, C>) -> Matrix<i32, R, C> {
        Matrix::<i32, R, C>::spec_from(div_rows(splat_rows(self, R as nat, C as nat), rhs@))
    }
}

impl<const R: usize, const C: usize> core::ops::Div<Matrix<u32, R, C>> for u32 {
    type Output = Matrix<u32, R, C>;

    /// Divides the scalar by every element, rounding toward zero and wrapping on overflow. Every element must be nonzero.
    fn div(self, rhs: Matrix<u32, R, C>) -> (r: Matrix<u32, R, C>)
        ensures
            r@ == div_rows(splat_rows(self, R as nat, C as nat), rhs@),
    {
        let st = rhs.storage();
        proof {
            assert forall|p: int, q: int| 0 <= p < C && 0 <= q < R implies (#[trigger] st@[p]@[q]).val() != 0 by {
                assert(rows_view(st)[p][q] == st@[p]@[q]);
            }
        }
        let r = Matrix::<u32, R, C>::from_storage(kernels::div_each2(kernels::filled2(self), st));
        proof {
            Matrix::<u32, R, C>::lemma_from_view(r, div_rows(splat_rows(self, R as nat, C as nat), rhs@));
        }
        r
    }
}

impl<const R: usize, const C: usize> vstd::std_specs::ops::DivSpecImpl<Matrix<u32, R, C>> for u32 {
    open spec fn obeys_div_spec() -> bool {
        true
    }

    open spec fn div_req(self, rhs: Matrix<u32, R, C>) -> bool {
        forall|p: int, q: int| 0 <= p < C && 0 <= q < R ==> (#[trigger] rhs@[p][q]).val() != 0
    }

    open spec fn div_spec(self, rhs: Matrix<u32, R, C>) -> Matrix<u32, R, C> {
        Matrix::<u32, R, C>::spec_from(div_rows(splat_rows(self, R as nat, C as nat), rhs@))
    }
}

} // verus!
