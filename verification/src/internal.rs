//! Dimension markers and the concatenation of vectors.
use vstd::prelude::*;

use crate::kernels;
use crate::support::Element;
use crate::vector::Vector;

verus! {

/// A vector or matrix dimension, used as a type-level bound.
pub struct Dimension<const D: usize>;

/// Marks dimensions of at least `MIN`.
pub trait AtLeast<const MIN: usize> {
}

/// Marks dimensions of at most `MAX`.
pub trait AtMost<const MAX: usize> {
}

impl AtLeast<1> for Dimension<1> {
}

impl AtLeast<1> for Dimension<2> {
}

impl AtLeast<2> for Dimension<2> {
}

impl AtLeast<1> for Dimension<3> {
}

impl AtLeast<2> for Dimension<3> {
}

impl AtLeast<3> for Dimension<3> {
}

impl AtLeast<1> for Dimension<4> {
}

impl AtLeast<2> for Dimension<4> {
}

impl AtLeast<3> for Dimension<4> {
}

impl AtLeast<4> for Dimension<4> {
}

impl AtMost<1> for Dimension<1> {
}

impl AtMost<2> for Dimension<1> {
}

impl AtMost<2> for Dimension<2> {
}

impl AtMost<3> for Dimension<1> {
}

impl AtMost<3> for Dimension<2> {
}

impl AtMost<3> for Dimension<3> {
}

impl AtMost<4> for Dimension<1> {
}

impl AtMost<4> for Dimension<2> {
}

impl AtMost<4> for Dimension<3> {
}

impl AtMost<4> for Dimension<4> {
}

impl<T: Element> Vector<T, 1> {
    /// The one-lane vector holding `value`.
    pub fn from_scalar(value: T) -> (r: Self)
        ensures
            r@ == seq![value],
    {
        let r = Self::from_array([value]);
        assert(r@ =~= seq![value]);
        r
    }
}

impl<T: Element, const D: usize> Vector<T, D> {
    /// The lanes of `a` followed by the lanes of `b`.
    pub fn concat<const A: usize, const B: usize>(a: Vector<T, A>, b: Vector<T, B>) -> (r: Self)
        requires
            A + B == D,
        ensures
            r@ == a@ + b@,
    {
        let mut out = [T::zero_(); D];
        kernels::copy_into(&mut out, a.to_array(), 0);
        kernels::copy_into(&mut out, b.to_array(), A);
        let r = Self::from_array(out);
        assert(r@ =~= a@ + b@);
        r
    }

    /// The lanes of `a`, `b` and `c` in order.
    pub fn concat3<const A: usize, const B: usize, const C: usize>(
        a: Vector<T, A>,
        b: Vector<T, B>,
        c: Vector<T, C>,
    ) -> (r: Self)
        requires
            A + B + C == D,
        ensures
            r@ == a@ + b@ + c@,
    {
        let mut out = [T::zero_(); D];
        kernels::copy_into(&mut out, a.to_array(), 0);
        kernels::copy_into(&mut out, b.to_array(), A);
        kernels::copy_into(&mut out, c.to_array(), A + B);
        let r = Self::from_array(out);
        assert(r@ =~= a@ + b@ + c@);
        r
    }

    /// The lanes of `a`, `b`, `c` and `d` in order.
    pub fn concat4<const A: usize, const B: usize, const C: usize, const E: usize>(
        a: Vector<T, A>,
        b: Vector<T, B>,
        c: Vector<T, C>,
        d: Vector<T, E>,
    ) -> (r: Self)
        requires
            A + B + C + E == D,
        ensures
            r@ == a@ + b@ + c@ + d@,
    {
        let mut out = [T::zero_(); D];
        kernels::copy_into(&mut out, a.to_array(), 0);
        kernels::copy_into(&mut out, b.to_array(), A);
        kernels::copy_into(&mut out, c.to_array(), A + B);
        kernels::copy_into(&mut out, d.to_array(), A + B + C);
        let r = Self::from_array(out);
        assert(r@ =~= a@ + b@ + c@ + d@);
        r
    }
}

} // verus!
