//! Lane selection: swizzles, named components and unit axes.
use vstd::prelude::*;

use crate::internal::{AtLeast, Dimension};
use crate::marker::{Lane, Signed, StoredVerbatim};
use crate::support::Element;
use crate::vector::Vector;

verus! {

impl<T: Element, const D: usize> Vector<T, D> where Dimension<D>: AtLeast<1> {
    /// Returns the lanes `xx`.
    pub fn xx(self) -> (r: Vector<T, 2>)
        requires
            D >= 1,
        ensures
            r@ == seq![self@[0], self@[0]],
    {
        let r = Vector::<T, 2>::splat(self.to_array()[0]);
        assert(r@ =~= seq![self@[0], self@[0]]);
        r
    }

    /// Returns the lanes `xxx`.
    pub fn xxx(self) -> (r: Vector<T, 3>)
        requires
            D >= 1,
        ensures
            r@ == seq![self@[0], self@[0], self@[0]],
    {
        let r = Vector::<T, 3>::splat(self.to_array()[0]);
        assert(r@ =~= seq![self@[0], self@[0], self@[0]]);
        r
    }

    /// Returns the lanes `xxxx`.
    pub fn xxxx(self) -> (r: Vector<T, 4>)
        requires
            D >= 1,
        ensures
            r@ == seq![self@[0], self@[0], self@[0], self@[0]],
    {
        let r = Vector::<T, 4>::splat(self.to_array()[0]);
        assert(r@ =~= seq![self@[0], self@[0], self@[0], self@[0]]);
        r
    }
}

impl<T: Element, const D: usize> Vector<T, D> {
    /// Returns lanes `i0` and `i1`, in that order.
    pub fn swizzle2(self, i0: usize, i1: usize) -> (r: Vector<T, 2>)
        requires
            i0 < D,
            i1 < D,
        ensures
            r@ == seq![self@[i0 as int], self@[i1 as int]],
    {
        let a = self.to_array();
        let r = Vector::<T, 2>::from_array([a[i0], a[i1]]);
        assert(r@ =~= seq![self@[i0 as int], self@[i1 as int]]);
        r
    }

    /// Returns lanes `i0`, `i1` and `i2`, in that order.
    pub fn swizzle3(self, i0: usize, i1: usize, i2: usize) -> (r: Vector<T, 3>)
        requires
            i0 < D,
            i1 < D,
            i2 < D,
        ensures
            r@ == seq![self@[i0 as int], self@[i1 as int], self@[i2 as int]],
    {
        let a = self.to_array();
        let r = Vector::<T, 3>::from_array([a[i0], a[i1], a[i2]]);
        assert(r@ =~= seq![self@[i0 as int], self@[i1 as int], self@[i2 as int]]);
        r
    }

    /// Returns lanes `i0`, `i1`, `i2` and `i3`, in that order.
    pub fn swizzle4(self, i0: usize, i1: usize, i2: usize, i3: usize) -> (r: Vector<T, 4>)
        requires
            i0 < D,
            i1 < D,
            i2 < D,
            i3 < D,
        ensures
            r@ == seq![self@[i0 as int], self@[i1 as int], self@[i2 as int], self@[i3 as int]],
    {
        let a = self.to_array();
        let r = Vector::<T, 4>::from_array([a[i0], a[i1], a[i2], a[i3]]);
        assert(r@ =~= seq![self@[i0 as int], self@[i1 as int], self@[i2 as int], self@[i3 as int]]);
        r
    }

    /// The vector with `value` in lane `axis` and zero in every other lane.
    fn axis(axis: usize, value: T) -> (r: Self)
        requires
            axis < D,
        ensures
            r@[axis as int] == value,
            forall|i: int| 0 <= i < D && i != axis ==> (#[trigger] r@[i]).val() == 0,
    {
        let mut lanes = Self::zero().to_array();
        lanes[axis] = value;
        Self::from_array(lanes)
    }

    /// The positive unit vector along the x-axis.
    pub fn pos_x() -> (r: Self)
        requires
            D >= 1,
        ensures
            forall|i: int| 0 <= i < D ==> (#[trigger] r@[i]).val() == (if i == 0 { 1int } else { 0int }),
    {
        Self::axis(0, T::one_())
    }

    /// The positive unit vector along the y-axis.
    pub fn pos_y() -> (r: Self)
        requires
            D >= 2,
        ensures
            forall|i: int| 0 <= i < D ==> (#[trigger] r@[i]).val() == (if i == 1 { 1int } else { 0int }),
    {
        Self::axis(1, T::one_())
    }

    /// The positive unit vector along the z-axis.
    pub fn pos_z() -> (r: Self)
        requires
            D >= 3,
        ensures
            forall|i: int| 0 <= i < D ==> (#[trigger] r@[i]).val() == (if i == 2 { 1int } else { 0int }),
    {
        Self::axis(2, T::one_())
    }

    /// The positive unit vector along the w-axis.
    pub fn pos_w() -> (r: Self)
        requires
            D >= 4,
        ensures
            forall|i: int| 0 <= i < D ==> (#[trigger] r@[i]).val() == (if i == 3 { 1int } else { 0int }),
    {
        Self::axis(3, T::one_())
    }
}

impl<T: Element + Signed, const D: usize> Vector<T, D> {
    /// The negative unit vector along the x-axis.
    pub fn neg_x() -> (r: Self)
        requires
            D >= 1,
        ensures
            forall|i: int| 0 <= i < D ==> (#[trigger] r@[i]).val() == (if i == 0 { -1int } else { 0int }),
    {
        let m = T::one_().neg_();
        proof {
            T::lemma_lane(m);
            T::lemma_signed();
            T::lemma_from_int(-1);
            crate::marker::lemma_wrap_shift(-1, T::lo(), T::modulus(), 0);
        }
        Self::axis(0, m)
    }

    /// The negative unit vector along the y-axis.
    pub fn neg_y() -> (r: Self)
        requires
            D >= 2,
        ensures
            forall|i: int| 0 <= i < D ==> (#[trigger] r@[i]).val() == (if i == 1 { -1int } else { 0int }),
    {
        let m = T::one_().neg_();
        proof {
            T::lemma_lane(m);
            T::lemma_signed();
            T::lemma_from_int(-1);
            crate::marker::lemma_wrap_shift(-1, T::lo(), T::modulus(), 0);
        }
        Self::axis(1, m)
    }

    /// The negative unit vector along the z-axis.
    pub fn neg_z() -> (r: Self)
        requires
            D >= 3,
        ensures
            forall|i: int| 0 <= i < D ==> (#[trigger] r@[i]).val() == (if i == 2 { -1int } else { 0int }),
    {
        let m = T::one_().neg_();
        proof {
            T::lemma_lane(m);
            T::lemma_signed();
            T::lemma_from_int(-1);
            crate::marker::lemma_wrap_shift(-1, T::lo(), T::modulus(), 0);
        }
        Self::axis(2, m)
    }

    /// The negative unit vector along the w-axis.
    pub fn neg_w() -> (r: Self)
        requires
            D >= 4,
        ensures
            forall|i: int| 0 <= i < D ==> (#[trigger] r@[i]).val() == (if i == 3 { -1int } else { 0int }),
    {
        let m = T::one_().neg_();
        proof {
            T::lemma_lane(m);
            T::lemma_signed();
            T::lemma_from_int(-1);
            crate::marker::lemma_wrap_shift(-1, T::lo(), T::modulus(), 0);
        }
        Self::axis(3, m)
    }
}

/// The `x` and `y` components of a two-lane vector.
#[derive(Clone, Copy, Debug, PartialEq, Eq)]
pub struct XY<T: StoredVerbatim> {
    pub x: T,
    pub y: T,
}

/// The `x`, `y` and `z` components of a three-lane vector.
#[derive(Clone, Copy, Debug, PartialEq, Eq)]
pub struct XYZ<T: StoredVerbatim> {
    pub x: T,
    pub y: T,
    pub z: T,
}

/// The `x`, `y`, `z` and `w` components of a four-lane vector.
#[derive(Clone, Copy, Debug, PartialEq, Eq)]
pub struct XYZW<T: StoredVerbatim> {
    pub x: T,
    pub y: T,
    pub z: T,
    pub w: T,
}

impl<T: Element + StoredVerbatim> Vector<T, 2> {
    /// The lanes as named components.
    pub fn to_xy(self) -> (r: XY<T>)
        ensures
            r.x == self@[0],
            r.y == self@[1],
    {
        let a = self.to_array();
        XY { x: a[0], y: a[1] }
    }

    /// The vector with the given components as lanes.
    pub fn from_xy(v: XY<T>) -> (r: Self)
        ensures
            r@ == seq![v.x, v.y],
    {
        let r = Self::from_array([v.x, v.y]);
        assert(r@ =~= seq![v.x, v.y]);
        r
    }
}

impl<T: Element + StoredVerbatim> Vector<T, 3> {
    /// The lanes as named components.
    pub fn to_xyz(self) -> (r: XYZ<T>)
        ensures
            r.x == self@[0],
            r.y == self@[1],
            r.z == self@[2],
    {
        let a = self.to_array();
        XYZ { x: a[0], y: a[1], z: a[2] }
    }

    /// The vector with the given components as lanes.
    pub fn from_xyz(v: XYZ<T>) -> (r: Self)
        ensures
            r@ == seq![v.x, v.y, v.z],
    {
        let r = Self::from_array([v.x, v.y, v.z]);
        assert(r@ =~= seq![v.x, v.y, v.z]);
        r
    }
}

impl<T: Element + StoredVerbatim> Vector<T, 4> {
    /// The lanes as named components.
    pub fn to_xyzw(self) -> (r: XYZW<T>)
        ensures
            r.x == self@[0],
            r.y == self@[1],
            r.z == self@[2],
            r.w == self@[3],
    {
        let a = self.to_array();
        XYZW { x: a[0], y: a[1], z: a[2], w: a[3] }
    }

    /// The vector with the given components as lanes.
    pub fn from_xyzw(v: XYZW<T>) -> (r: Self)
        ensures
            r@ == seq![v.x, v.y, v.z, v.w],
    {
        let r = Self::from_array([v.x, v.y, v.z, v.w]);
        assert(r@ =~= seq![v.x, v.y, v.z, v.w]);
        r
    }
}

} // verus!
