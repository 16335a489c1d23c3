//! Named swizzles: every sequence of two to four of the lanes `x`, `y`, `z`
//! and `w`, grouped by the highest lane they read.
use vstd::prelude::*;

use crate::internal::{AtLeast, Dimension};
use crate::support::Element;
use crate::vector::Vector;

verus! {

impl<T: Element, const D: usize> Vector<T, D> where Dimension<D>: AtLeast<2> {
    /// Returns the lanes `xy`.
    pub fn xy(self) -> (r: Vector<T, 2>)
        requires
            D >= 2,
        ensures
            r@ == seq![self@[0], self@[1]],
    {
        self.swizzle2(0, 1)
    }

    /// Returns the lanes `yx`.
    pub fn yx(self) -> (r: Vector<T, 2>)
        requires
            D >= 2,
        ensures
            r@ == seq![self@[1], self@[0]],
    {
        self.swizzle2(1, 0)
    }

    /// Returns the lanes `yy`.
    pub fn yy(self) -> (r: Vector<T, 2>)
        requires
            D >= 2,
        ensures
            r@ == seq![self@[1], self@[1]],
    {
        self.swizzle2(1, 1)
    }

    /// Returns the lanes `xxy`.
    pub fn xxy(self) -> (r: Vector<T, 3>)
        requires
            D >= 2,
        ensures
            r@ == seq![self@[0], self@[0], self@[1]],
    {
        self.swizzle3(0, 0, 1)
    }

    /// Returns the lanes `xyx`.
    pub fn xyx(self) -> (r: Vector<T, 3>)
        requires
            D >= 2,
        ensures
            r@ == seq![self@[0], self@[1], self@[0]],
    {
        self.swizzle3(0, 1, 0)
    }

    /// Returns the lanes `xyy`.
    pub fn xyy(self) -> (r: Vector<T, 3>)
        requires
            D >= 2,
        ensures
            r@ == seq![self@[0], self@[1], self@[1]],
    {
        self.swizzle3(0, 1, 1)
    }

    /// Returns the lanes `yxx`.
    pub fn yxx(self) -> (r: Vector<T, 3>)
        requires
            D >= 2,
        ensures
            r@ == seq![self@[1], self@[0], self@[0]],
    {
        self.swizzle3(1, 0, 0)
    }

    /// Returns the lanes `yxy`.
    pub fn yxy(self) -> (r: Vector<T, 3>)
        requires
            D >= 2,
        ensures
            r@ == seq![self@[1], self@[0], self@[1]],
    {
        self.swizzle3(1, 0, 1)
    }

    /// Returns the lanes `yyx`.
    pub fn yyx(self) -> (r: Vector<T, 3>)
        requires
            D >= 2,
        ensures
            r@ == seq![self@[1], self@[1], self@[0]],
    {
        self.swizzle3(1, 1, 0)
    }

    /// Returns the lanes `yyy`.
    pub fn yyy(self) -> (r: Vector<T, 3>)
        requires
            D >= 2,
        ensures
            r@ == seq![self@[1], self@[1], self@[1]],
    {
        self.swizzle3(1, 1, 1)
    }

    /// Returns the lanes `xxxy`.
    pub fn xxxy(self) -> (r: Vector<T, 4>)
        requires
            D >= 2,
        ensures
            r@ == seq![self@[0], self@[0], self@[0], self@[1]],
    {
        self.swizzle4(0, 0, 0, 1)
    }

    /// Returns the lanes `xxyx`.
    pub fn xxyx(self) -> (r: Vector<T, 4>)
        requires
            D >= 2,
        ensures
            r@ == seq![self@[0], self@[0], self@[1], self@[0]],
    {
        self.swizzle4(0, 0, 1, 0)
    }

    /// Returns the lanes `xxyy`.
    pub fn xxyy(self) -> (r: Vector<T, 4>)
        requires
            D >= 2,
        ensures
            r@ == seq![self@[0], self@[0], self@[1], self@[1]],
    {
        self.swizzle4(0, 0, 1, 1)
    }

    /// Returns the lanes `xyxx`.
    pub fn xyxx(self) -> (r: Vector<T, 4>)
        requires
            D >= 2,
        ensures
            r@ == seq![self@[0], self@[1], self@[0], self@[0]],
    {
        self.swizzle4(0, 1, 0, 0)
    }

    /// Returns the lanes `xyxy`.
    pub fn xyxy(self) -> (r: Vector<T, 4>)
        requires
            D >= 2,
        ensures
            r@ == seq![self@[0], self@[1], self@[0], self@[1]],
    {
        self.swizzle4(0, 1, 0, 1)
    }

    /// Returns the lanes `xyyx`.
    pub fn xyyx(self) -> (r: Vector<T, 4>)
        requires
            D >= 2,
        ensures
            r@ == seq![self@[0], self@[1], self@[1], self@[0]],
    {
        self.swizzle4(0, 1, 1, 0)
    }

    /// Returns the lanes `xyyy`.
    pub fn xyyy(self) -> (r: Vector<T, 4>)
        requires
            D >= 2,
        ensures
            r@ == seq![self@[0], self@[1], self@[1], self@[1]],
    {
        self.swizzle4(0, 1, 1, 1)
    }

    /// Returns the lanes `yxxx`.
    pub fn yxxx(self) -> (r: Vector<T, 4>)
        requires
            D >= 2,
        ensures
            r@ == seq![self@[1], self@[0], self@[0], self@[0]],
    {
        self.swizzle4(1, 0, 0, 0)
    }

    /// Returns the lanes `yxxy`.
    pub fn yxxy(self) -> (r: Vector<T, 4>)
        requires
            D >= 2,
        ensures
            r@ == seq![self@[1], self@[0], self@[0], self@[1]],
    {
        self.swizzle4(1, 0, 0, 1)
    }

    /// Returns the lanes `yxyx`.
    pub fn yxyx(self) -> (r: Vector<T, 4>)
        requires
            D >= 2,
        ensures
            r@ == seq![self@[1], self@[0], self@[1], self@[0]],
    {
        self.swizzle4(1, 0, 1, 0)
    }

    /// Returns the lanes `yxyy`.
    pub fn yxyy(self) -> (r: Vector<T, 4>)
        requires
            D >= 2,
        ensures
            r@ == seq![self@[1], self@[0], self@[1], self@[1]],
    {
        self.swizzle4(1, 0, 1, 1)
    }

    /// Returns the lanes `yyxx`.
    pub fn yyxx(self) -> (r: Vector<T, 4>)
        requires
            D >= 2,
        ensures
            r@ == seq![self@[1], self@[1], self@[0], self@[0]],
    {
        self.swizzle4(1, 1, 0, 0)
    }

    /// Returns the lanes `yyxy`.
    pub fn yyxy(self) -> (r: Vector<T, 4>)
        requires
            D >= 2,
        ensures
            r@ == seq![self@[1], self@[1], self@[0], self@[1]],
    {
        self.swizzle4(1, 1, 0, 1)
    }

    /// Returns the lanes `yyyx`.
    pub fn yyyx(self) -> (r: Vector<T, 4>)
        requires
            D >= 2,
        ensures
            r@ == seq![self@[1], self@[1], self@[1], self@[0]],
    {
        self.swizzle4(1, 1, 1, 0)
    }

    /// Returns the lanes `yyyy`.
    pub fn yyyy(self) -> (r: Vector<T, 4>)
        requires
            D >= 2,
        ensures
            r@ == seq![self@[1], self@[1], self@[1], self@[1]],
    {
        self.swizzle4(1, 1, 1, 1)
    }
}

impl<T: Element, const D: usize> Vector<T, D> where Dimension<D>: AtLeast<3> {
    /// Returns the lanes `xz`.
    pub fn xz(self) -> (r: Vector<T, 2>)
        requires
            D >= 3,
        ensures
            r@ == seq![self@[0], self@[2]],
    {
        self.swizzle2(0, 2)
    }

    /// Returns the lanes `yz`.
    pub fn yz(self) -> (r: Vector<T, 2>)
        requires
            D >= 3,
        ensures
            r@ == seq![self@[1], self@[2]],
    {
        self.swizzle2(1, 2)
    }

    /// Returns the lanes `zx`.
    pub fn zx(self) -> (r: Vector<T, 2>)
        requires
            D >= 3,
        ensures
            r@ == seq![self@[2], self@[0]],
    {
        self.swizzle2(2, 0)
    }

    /// Returns the lanes `zy`.
    pub fn zy(self) -> (r: Vector<T, 2>)
        requires
            D >= 3,
        ensures
            r@ == seq![self@[2], self@[1]],
    {
        self.swizzle2(2, 1)
    }

    /// Returns the lanes `zz`.
    pub fn zz(self) -> (r: Vector<T, 2>)
        requires
            D >= 3,
        ensures
            r@ == seq![self@[2], self@[2]],
    {
        self.swizzle2(2, 2)
    }

    /// Returns the lanes `xxz`.
    pub fn xxz(self) -> (r: Vector<T, 3>)
        requires
            D >= 3,
        ensures
            r@ == seq![self@[0], self@[0], self@[2]],
    {
        self.swizzle3(0, 0, 2)
    }

    /// Returns the lanes `xyz`.
    pub fn xyz(self) -> (r: Vector<T, 3>)
        requires
            D >= 3,
        ensures
            r@ == seq![self@[0], self@[1], self@[2]],
    {
        self.swizzle3(0, 1, 2)
    }

    /// Returns the lanes `xzx`.
    pub fn xzx(self) -> (r: Vector<T, 3>)
        requires
            D >= 3,
        ensures
            r@ == seq![self@[0], self@[2], self@[0]],
    {
        self.swizzle3(0, 2, 0)
    }

    /// Returns the lanes `xzy`.
    pub fn xzy(self) -> (r: Vector<T, 3>)
        requires
            D >= 3,
        ensures
            r@ == seq![self@[0], self@[2], self@[1]],
    {
        self.swizzle3(0, 2, 1)
    }

    /// Returns the lanes `xzz`.
    pub fn xzz(self) -> (r: Vector<T, 3>)
        requires
            D >= 3,
        ensures
            r@ == seq![self@[0], self@[2], self@[2]],
    {
        self.swizzle3(0, 2, 2)
    }

    /// Returns the lanes `yxz`.
    pub fn yxz(self) -> (r: Vector<T, 3>)
        requires
            D >= 3,
        ensures
            r@ == seq![self@[1], self@[0], self@[2]],
    {
        self.swizzle3(1, 0, 2)
    }

    /// Returns the lanes `yyz`.
    pub fn yyz(self) -> (r: Vector<T, 3>)
        requires
            D >= 3,
        ensures
            r@ == seq![self@[1], self@[1], self@[2]],
    {
        self.swizzle3(1, 1, 2)
    }

    /// Returns the lanes `yzx`.
    pub fn yzx(self) -> (r: Vector<T, 3>)
        requires
            D >= 3,
        ensures
            r@ == seq![self@[1], self@[2], self@[0]],
    {
        self.swizzle3(1, 2, 0)
    }

    /// Returns the lanes `yzy`.
    pub fn yzy(self) -> (r: Vector<T, 3>)
        requires
            D >= 3,
        ensures
            r@ == seq![self@[1], self@[2], self@[1]],
    {
        self.swizzle3(1, 2, 1)
    }

    /// Returns the lanes `yzz`.
    pub fn yzz(self) -> (r: Vector<T, 3>)
        requires
            D >= 3,
        ensures
            r@ == seq![self@[1], self@[2], self@[2]],
    {
        self.swizzle3(1, 2, 2)
    }

    /// Returns the lanes `zxx`.
    pub fn zxx(self) -> (r: Vector<T, 3>)
        requires
            D >= 3,
        ensures
            r@ == seq![self@[2], self@[0], self@[0]],
    {
        self.swizzle3(2, 0, 0)
    }

    /// Returns the lanes `zxy`.
    pub fn zxy(self) -> (r: Vector<T, 3>)
        requires
            D >= 3,
        ensures
            r@ == seq![self@[2], self@[0], self@[1]],
    {
        self.swizzle3(2, 0, 1)
    }

    /// Returns the lanes `zxz`.
    pub fn zxz(self) -> (r: Vector<T, 3>)
        requires
            D >= 3,
        ensures
            r@ == seq![self@[2], self@[0], self@[2]],
    {
        self.swizzle3(2, 0, 2)
    }

    /// Returns the lanes `zyx`.
    pub fn zyx(self) -> (r: Vector<T, 3>)
        requires
            D >= 3,
        ensures
            r@ == seq![self@[2], self@[1], self@[0]],
    {
        self.swizzle3(2, 1, 0)
    }

    /// Returns the lanes `zyy`.
    pub fn zyy(self) -> (r: Vector<T, 3>)
        requires
            D >= 3,
        ensures
            r@ == seq![self@[2], self@[1], self@[1]],
    {
        self.swizzle3(2, 1, 1)
    }

    /// Returns the lanes `zyz`.
    pub fn zyz(self) -> (r: Vector<T, 3>)
        requires
            D >= 3,
        ensures
            r@ == seq![self@[2], self@[1], self@[2]],
    {
        self.swizzle3(2, 1, 2)
    }

    /// Returns the lanes `zzx`.
    pub fn zzx(self) -> (r: Vector<T, 3>)
        requires
            D >= 3,
        ensures
            r@ == seq![self@[2], self@[2], self@[0]],
    {
        self.swizzle3(2, 2, 0)
    }

    /// Returns the lanes `zzy`.
    pub fn zzy(self) -> (r: Vector<T, 3>)
        requires
            D >= 3,
        ensures
            r@ == seq![self@[2], self@[2], self@[1]],
    {
        self.swizzle3(2, 2, 1)
    }

    /// Returns the lanes `zzz`.
    pub fn zzz(self) -> (r: Vector<T, 3>)
        requires
            D >= 3,
        ensures
            r@ == seq![self@[2], self@[2], self@[2]],
    {
        self.swizzle3(2, 2, 2)
    }

    /// Returns the lanes `xxxz`.
    pub fn xxxz(self) -> (r: Vector<T, 4>)
        requires
            D >= 3,
        ensures
            r@ == seq![self@[0], self@[0], self@[0], self@[2]],
    {
        self.swizzle4(0, 0, 0, 2)
    }

    /// Returns the lanes `xxyz`.
    pub fn xxyz(self) -> (r: Vector<T, 4>)
        requires
            D >= 3,
        ensures
            r@ == seq![self@[0], self@[0], self@[1], self@[2]],
    {
        self.swizzle4(0, 0, 1, 2)
    }

    /// Returns the lanes `xxzx`.
    pub fn xxzx(self) -> (r: Vector<T, 4>)
        requires
            D >= 3,
        ensures
            r@ == seq![self@[0], self@[0], self@[2], self@[0]],
    {
        self.swizzle4(0, 0, 2, 0)
    }

    /// Returns the lanes `xxzy`.
    pub fn xxzy(self) -> (r: Vector<T, 4>)
        requires
            D >= 3,
        ensures
            r@ == seq![self@[0], self@[0], self@[2], self@[1]],
    {
        self.swizzle4(0, 0, 2, 1)
    }

    /// Returns the lanes `xxzz`.
    pub fn xxzz(self) -> (r: Vector<T, 4>)
        requires
            D >= 3,
        ensures
            r@ == seq![self@[0], self@[0], self@[2], self@[2]],
    {
        self.swizzle4(0, 0, 2, 2)
    }

    /// Returns the lanes `xyxz`.
    pub fn xyxz(self) -> (r: Vector<T, 4>)
        requires
            D >= 3,
        ensures
            r@ == seq![self@[0], self@[1], self@[0], self@[2]],
    {
        self.swizzle4(0, 1, 0, 2)
    }

    /// Returns the lanes `xyyz`.
    pub fn xyyz(self) -> (r: Vector<T, 4>)
        requires
            D >= 3,
        ensures
            r@ == seq![self@[0], self@[1], self@[1], self@[2]],
    {
        self.swizzle4(0, 1, 1, 2)
    }

    /// Returns the lanes `xyzx`.
    pub fn xyzx(self) -> (r: Vector<T, 4>)
        requires
            D >= 3,
        ensures
            r@ == seq![self@[0], self@[1], self@[2], self@[0]],
    {
        self.swizzle4(0, 1, 2, 0)
    }

    /// Returns the lanes `xyzy`.
    pub fn xyzy(self) -> (r: Vector<T, 4>)
        requires
            D >= 3,
        ensures
            r@ == seq![self@[0], self@[1], self@[2], self@[1]],
    {
        self.swizzle4(0, 1, 2, 1)
    }

    /// Returns the lanes `xyzz`.
    pub fn xyzz(self) -> (r: Vector<T, 4>)
        requires
            D >= 3,
        ensures
            r@ == seq![self@[0], self@[1], self@[2], self@[2]],
    {
        self.swizzle4(0, 1, 2, 2)
    }

    /// Returns the lanes `xzxx`.
    pub fn xzxx(self) -> (r: Vector<T, 4>)
        requires
            D >= 3,
        ensures
            r@ == seq![self@[0], self@[2], self@[0], self@[0]],
    {
        self.swizzle4(0, 2, 0, 0)
    }

    /// Returns the lanes `xzxy`.
    pub fn xzxy(self) -> (r: Vector<T, 4>)
        requires
            D >= 3,
        ensures
            r@ == seq![self@[0], self@[2], self@[0], self@[1]],
    {
        self.swizzle4(0, 2, 0, 1)
    }

    /// Returns the lanes `xzxz`.
    pub fn xzxz(self) -> (r: Vector<T, 4>)
        requires
            D >= 3,
        ensures
            r@ == seq![self@[0], self@[2], self@[0], self@[2]],
    {
        self.swizzle4(0, 2, 0, 2)
    }

    /// Returns the lanes `xzyx`.
    pub fn xzyx(self) -> (r: Vector<T, 4>)
        requires
            D >= 3,
        ensures
            r@ == seq![self@[0], self@[2], self@[1], self@[0]],
    {
        self.swizzle4(0, 2, 1, 0)
    }

    /// Returns the lanes `xzyy`.
    pub fn xzyy(self) -> (r: Vector<T, 4>)
        requires
            D >= 3,
        ensures
            r@ == seq![self@[0], self@[2], self@[1], self@[1]],
    {
        self.swizzle4(0, 2, 1, 1)
    }

    /// Returns the lanes `xzyz`.
    pub fn xzyz(self) -> (r: Vector<T, 4>)
        requires
            D >= 3,
        ensures
            r@ == seq![self@[0], self@[2], self@[1], self@[2]],
    {
        self.swizzle4(0, 2, 1, 2)
    }

    /// Returns the lanes `xzzx`.
    pub fn xzzx(self) -> (r: Vector<T, 4>)
        requires
            D >= 3,
        ensures
            r@ == seq![self@[0], self@[2], self@[2], self@[0]],
    {
        self.swizzle4(0, 2, 2, 0)
    }

    /// Returns the lanes `xzzy`.
    pub fn xzzy(self) -> (r: Vector<T, 4>)
        requires
            D >= 3,
        ensures
            r@ == seq![self@[0], self@[2], self@[2], self@[1]],
    {
        self.swizzle4(0, 2, 2, 1)
    }

    /// Returns the lanes `xzzz`.
    pub fn xzzz(self) -> (r: Vector<T, 4>)
        requires
            D >= 3,
        ensures
            r@ == seq![self@[0], self@[2], self@[2], self@[2]],
    {
        self.swizzle4(0, 2, 2, 2)
    }

    /// Returns the lanes `yxxz`.
    pub fn yxxz(self) -> (r: Vector<T, 4>)
        requires
            D >= 3,
        ensures
            r@ == seq![self@[1], self@[0], self@[0], self@[2]],
    {
        self.swizzle4(1, 0, 0, 2)
    }

    /// Returns the lanes `yxyz`.
    pub fn yxyz(self) -> (r: Vector<T, 4>)
        requires
            D >= 3,
        ensures
            r@ == seq![self@[1], self@[0], self@[1], self@[2]],
    {
        self.swizzle4(1, 0, 1, 2)
    }

    /// Returns the lanes `yxzx`.
    pub fn yxzx(self) -> (r: Vector<T, 4>)
        requires
            D >= 3,
        ensures
            r@ == seq![self@[1], self@[0], self@[2], self@[0]],
    {
        self.swizzle4(1, 0, 2, 0)
    }

    /// Returns the lanes `yxzy`.
    pub fn yxzy(self) -> (r: Vector<T, 4>)
        requires
            D >= 3,
        ensures
            r@ == seq![self@[1], self@[0], self@[2], self@[1]],
    {
        self.swizzle4(1, 0, 2, 1)
    }

    /// Returns the lanes `yxzz`.
    pub fn yxzz(self) -> (r: Vector<T, 4>)
        requires
            D >= 3,
        ensures
            r@ == seq![self@[1], self@[0], self@[2], self@[2]],
    {
        self.swizzle4(1, 0, 2, 2)
    }

    /// Returns the lanes `yyxz`.
    pub fn yyxz(self) -> (r: Vector<T, 4>)
        requires
            D >= 3,
        ensures
            r@ == seq![self@[1], self@[1], self@[0], self@[2]],
    {
        self.swizzle4(1, 1, 0, 2)
    }

    /// Returns the lanes `yyyz`.
    pub fn yyyz(self) -> (r: Vector<T, 4>)
        requires
            D >= 3,
        ensures
            r@ == seq![self@[1], self@[1], self@[1], self@[2]],
    {
        self.swizzle4(1, 1, 1, 2)
    }

    /// Returns the lanes `yyzx`.
    pub fn yyzx(self) -> (r: Vector<T, 4>)
        requires
            D >= 3,
        ensures
            r@ == seq![self@[1], self@[1], self@[2], self@[0]],
    {
        self.swizzle4(1, 1, 2, 0)
    }

    /// Returns the lanes `yyzy`.
    pub fn yyzy(self) -> (r: Vector<T, 4>)
        requires
            D >= 3,
        ensures
            r@ == seq![self@[1], self@[1], self@[2], self@[1]],
    {
        self.swizzle4(1, 1, 2, 1)
    }

    /// Returns the lanes `yyzz`.
    pub fn yyzz(self) -> (r: Vector<T, 4>)
        requires
            D >= 3,
        ensures
            r@ == seq![self@[1], self@[1], self@[2], self@[2]],
    {
        self.swizzle4(1, 1, 2, 2)
    }

    /// Returns the lanes `yzxx`.
    pub fn yzxx(self) -> (r: Vector<T, 4>)
        requires
            D >= 3,
        ensures
            r@ == seq![self@[1], self@[2], self@[0], self@[0]],
    {
        self.swizzle4(1, 2, 0, 0)
    }

    /// Returns the lanes `yzxy`.
    pub fn yzxy(self) -> (r: Vector<T, 4>)
        requires
            D >= 3,
        ensures
            r@ == seq![self@[1], self@[2], self@[0], self@[1]],
    {
        self.swizzle4(1, 2, 0, 1)
    }

    /// Returns the lanes `yzxz`.
    pub fn yzxz(self) -> (r: Vector<T, 4>)
        requires
            D >= 3,
        ensures
            r@ == seq![self@[1], self@[2], self@[0], self@[2]],
    {
        self.swizzle4(1, 2, 0, 2)
    }

    /// Returns the lanes `yzyx`.
    pub fn yzyx(self) -> (r: Vector<T, 4>)
        requires
            D >= 3,
        ensures
            r@ == seq![self@[1], self@[2], self@[1], self@[0]],
    {
        self.swizzle4(1, 2, 1, 0)
    }

    /// Returns the lanes `yzyy`.
    pub fn yzyy(self) -> (r: Vector<T, 4>)
        requires
            D >= 3,
        ensures
            r@ == seq![self@[1], self@[2], self@[1], self@[1]],
    {
        self.swizzle4(1, 2, 1, 1)
    }

    /// Returns the lanes `yzyz`.
    pub fn yzyz(self) -> (r: Vector<T, 4>)
        requires
            D >= 3,
        ensures
            r@ == seq![self@[1], self@[2], self@[1], self@[2]],
    {
        self.swizzle4(1, 2, 1, 2)
    }

    /// Returns the lanes `yzzx`.
    pub fn yzzx(self) -> (r: Vector<T, 4>)
        requires
            D >= 3,
        ensures
            r@ == seq![self@[1], self@[2], self@[2], self@[0]],
    {
        self.swizzle4(1, 2, 2, 0)
    }

    /// Returns the lanes `yzzy`.
    pub fn yzzy(self) -> (r: Vector<T, 4>)
        requires
            D >= 3,
        ensures
            r@ == seq![self@[1], self@[2], self@[2], self@[1]],
    {
        self.swizzle4(1, 2, 2, 1)
    }

    /// Returns the lanes `yzzz`.
    pub fn yzzz(self) -> (r: Vector<T, 4>)
        requires
            D >= 3,
        ensures
            r@ == seq![self@[1], self@[2], self@[2], self@[2]],
    {
        self.swizzle4(1, 2, 2, 2)
    }

    /// Returns the lanes `zxxx`.
    pub fn zxxx(self) -> (r: Vector<T, 4>)
        requires
            D >= 3,
        ensures
            r@ == seq![self@[2], self@[0], self@[0], self@[0]],
    {
        self.swizzle4(2, 0, 0, 0)
    }

    /// Returns the lanes `zxxy`.
    pub fn zxxy(self) -> (r: Vector<T, 4>)
        requires
            D >= 3,
        ensures
            r@ == seq![self@[2], self@[0], self@[0], self@[1]],
    {
        self.swizzle4(2, 0, 0, 1)
    }

    /// Returns the lanes `zxxz`.
    pub fn zxxz(self) -> (r: Vector<T, 4>)
        requires
            D >= 3,
        ensures
            r@ == seq![self@[2], self@[0], self@[0], self@[2]],
    {
        self.swizzle4(2, 0, 0, 2)
    }

    /// Returns the lanes `zxyx`.
    pub fn zxyx(self) -> (r: Vector<T, 4>)
        requires
            D >= 3,
        ensures
            r@ == seq![self@[2], self@[0], self@[1], self@[0]],
    {
        self.swizzle4(2, 0, 1, 0)
    }

    /// Returns the lanes `zxyy`.
    pub fn zxyy(self) -> (r: Vector<T, 4>)
        requires
            D >= 3,
        ensures
            r@ == seq![self@[2], self@[0], self@[1], self@[1]],
    {
        self.swizzle4(2, 0, 1, 1)
    }

    /// Returns the lanes `zxyz`.
    pub fn zxyz(self) -> (r: Vector<T, 4>)
        requires
            D >= 3,
        ensures
            r@ == seq![self@[2], self@[0], self@[1], self@[2]],
    {
        self.swizzle4(2, 0, 1, 2)
    }

    /// Returns the lanes `zxzx`.
    pub fn zxzx(self) -> (r: Vector<T, 4>)
        requires
            D >= 3,
        ensures
            r@ == seq![self@[2], self@[0], self@[2], self@[0]],
    {
        self.swizzle4(2, 0, 2, 0)
    }

    /// Returns the lanes `zxzy`.
    pub fn zxzy(self) -> (r: Vector<T, 4>)
        requires
            D >= 3,
        ensures
            r@ == seq![self@[2], self@[0], self@[2], self@[1]],
    {
        self.swizzle4(2, 0, 2, 1)
    }

    /// Returns the lanes `zxzz`.
    pub fn zxzz(self) -> (r: Vector<T, 4>)
        requires
            D >= 3,
        ensures
            r@ == seq![self@[2], self@[0], self@[2], self@[2]],
    {
        self.swizzle4(2, 0, 2, 2)
    }

    /// Returns the lanes `zyxx`.
    pub fn zyxx(self) -> (r: Vector<T, 4>)
        requires
            D >= 3,
        ensures
            r@ == seq![self@[2], self@[1], self@[0], self@[0]],
    {
        self.swizzle4(2, 1, 0, 0)
    }

    /// Returns the lanes `zyxy`.
    pub fn zyxy(self) -> (r: Vector<T, 4>)
        requires
            D >= 3,
        ensures
            r@ == seq![self@[2], self@[1], self@[0], self@[1]],
    {
        self.swizzle4(2, 1, 0, 1)
    }

    /// Returns the lanes `zyxz`.
    pub fn zyxz(self) -> (r: Vector<T, 4>)
        requires
            D >= 3,
        ensures
            r@ == seq![self@[2], self@[1], self@[0], self@[2]],
    {
        self.swizzle4(2, 1, 0, 2)
    }

    /// Returns the lanes `zyyx`.
    pub fn zyyx(self) -> (r: Vector<T, 4>)
        requires
            D >= 3,
        ensures
            r@ == seq![self@[2], self@[1], self@[1], self@[0]],
    {
        self.swizzle4(2, 1, 1, 0)
    }

    /// Returns the lanes `zyyy`.
    pub fn zyyy(self) -> (r: Vector<T, 4>)
        requires
            D >= 3,
        ensures
            r@ == seq![self@[2], self@[1], self@[1], self@[1]],
    {
        self.swizzle4(2, 1, 1, 1)
    }

    /// Returns the lanes `zyyz`.
    pub fn zyyz(self) -> (r: Vector<T, 4>)
        requires
            D >= 3,
        ensures
            r@ == seq![self@[2], self@[1], self@[1], self@[2]],
    {
        self.swizzle4(2, 1, 1, 2)
    }

    /// Returns the lanes `zyzx`.
    pub fn zyzx(self) -> (r: Vector<T, 4>)
        requires
            D >= 3,
        ensures
            r@ == seq![self@[2], self@[1], self@[2], self@[0]],
    {
        self.swizzle4(2, 1, 2, 0)
    }

    /// Returns the lanes `zyzy`.
    pub fn zyzy(self) -> (r: Vector<T, 4>)
        requires
            D >= 3,
        ensures
            r@ == seq![self@[2], self@[1], self@[2], self@[1]],
    {
        self.swizzle4(2, 1, 2, 1)
    }

    /// Returns the lanes `zyzz`.
    pub fn zyzz(self) -> (r: Vector<T, 4>)
        requires
            D >= 3,
        ensures
            r@ == seq![self@[2], self@[1], self@[2], self@[2]],
    {
        self.swizzle4(2, 1, 2, 2)
    }

    /// Returns the lanes `zzxx`.
    pub fn zzxx(self) -> (r: Vector<T, 4>)
        requires
            D >= 3,
        ensures
            r@ == seq![self@[2], self@[2], self@[0], self@[0]],
    {
        self.swizzle4(2, 2, 0, 0)
    }

    /// Returns the lanes `zzxy`.
    pub fn zzxy(self) -> (r: Vector<T, 4>)
        requires
            D >= 3,
        ensures
            r@ == seq![self@[2], self@[2], self@[0], self@[1]],
    {
        self.swizzle4(2, 2, 0, 1)
    }

    /// Returns the lanes `zzxz`.
    pub fn zzxz(self) -> (r: Vector<T, 4>)
        requires
            D >= 3,
        ensures
            r@ == seq![self@[2], self@[2], self@[0], self@[2]],
    {
        self.swizzle4(2, 2, 0, 2)
    }

    /// Returns the lanes `zzyx`.
    pub fn zzyx(self) -> (r: Vector<T, 4>)
        requires
            D >= 3,
        ensures
            r@ == seq![self@[2], self@[2], self@[1], self@[0]],
    {
        self.swizzle4(2, 2, 1, 0)
    }

    /// Returns the lanes `zzyy`.
    pub fn zzyy(self) -> (r: Vector<T, 4>)
        requires
            D >= 3,
        ensures
            r@ == seq![self@[2], self@[2], self@[1], self@[1]],
    {
        self.swizzle4(2, 2, 1, 1)
    }

    /// Returns the lanes `zzyz`.
    pub fn zzyz(self) -> (r: Vector<T, 4>)
        requires
            D >= 3,
        ensures
            r@ == seq![self@[2], self@[2], self@[1], self@[2]],
    {
        self.swizzle4(2, 2, 1, 2)
    }

    /// Returns the lanes `zzzx`.
    pub fn zzzx(self) -> (r: Vector<T, 4>)
        requires
            D >= 3,
        ensures
            r@ == seq![self@[2], self@[2], self@[2], self@[0]],
    {
        self.swizzle4(2, 2, 2, 0)
    }

    /// Returns the lanes `zzzy`.
    pub fn zzzy(self) -> (r: Vector<T, 4>)
        requires
            D >= 3,
        ensures
            r@ == seq![self@[2], self@[2], self@[2], self@[1]],
    {
        self.swizzle4(2, 2, 2, 1)
    }

    /// Returns the lanes `zzzz`.
    pub fn zzzz(self) -> (r: Vector<T, 4>)
        requires
            D >= 3,
        ensures
            r@ == seq![self@[2], self@[2], self@[2], self@[2]],
    {
        self.swizzle4(2, 2, 2, 2)
    }
}

impl<T: Element, const D: usize> Vector<T, D> where Dimension<D>: AtLeast<4> {
    /// Returns the lanes `xw`.
    pub fn xw(self) -> (r: Vector<T, 2>)
        requires
            D >= 4,
        ensures
            r@ == seq![self@[0], self@[3]],
    {
        self.swizzle2(0, 3)
    }

    /// Returns the lanes `yw`.
    pub fn yw(self) -> (r: Vector<T, 2>)
        requires
            D >= 4,
        ensures
            r@ == seq![self@[1], self@[3]],
    {
        self.swizzle2(1, 3)
    }

    /// Returns the lanes `zw`.
    pub fn zw(self) -> (r: Vector<T, 2>)
        requires
            D >= 4,
        ensures
            r@ == seq![self@[2], self@[3]],
    {
        self.swizzle2(2, 3)
    }

    /// Returns the lanes `wx`.
    pub fn wx(self) -> (r: Vector<T, 2>)
        requires
            D >= 4,
        ensures
            r@ == seq![self@[3], self@[0]],
    {
        self.swizzle2(3, 0)
    }

    /// Returns the lanes `wy`.
    pub fn wy(self) -> (r: Vector<T, 2>)
        requires
            D >= 4,
        ensures
            r@ == seq![self@[3], self@[1]],
    {
        self.swizzle2(3, 1)
    }

    /// Returns the lanes `wz`.
    pub fn wz(self) -> (r: Vector<T, 2>)
        requires
            D >= 4,
        ensures
            r@ == seq![self@[3], self@[2]],
    {
        self.swizzle2(3, 2)
    }

    /// Returns the lanes `ww`.
    pub fn ww(self) -> (r: Vector<T, 2>)
        requires
            D >= 4,
        ensures
            r@ == seq![self@[3], self@[3]],
    {
        self.swizzle2(3, 3)
    }

    /// Returns the lanes `xxw`.
    pub fn xxw(self) -> (r: Vector<T, 3>)
        requires
            D >= 4,
        ensures
            r@ == seq![self@[0], self@[0], self@[3]],
    {
        self.swizzle3(0, 0, 3)
    }

    /// Returns the lanes `xyw`.
    pub fn xyw(self) -> (r: Vector<T, 3>)
        requires
            D >= 4,
        ensures
            r@ == seq![self@[0], self@[1], self@[3]],
    {
        self.swizzle3(0, 1, 3)
    }

    /// Returns the lanes `xzw`.
    pub fn xzw(self) -> (r: Vector<T, 3>)
        requires
            D >= 4,
        ensures
            r@ == seq![self@[0], self@[2], self@[3]],
    {
        self.swizzle3(0, 2, 3)
    }

    /// Returns the lanes `xwx`.
    pub fn xwx(self) -> (r: Vector<T, 3>)
        requires
            D >= 4,
        ensures
            r@ == seq![self@[0], self@[3], self@[0]],
    {
        self.swizzle3(0, 3, 0)
    }

    /// Returns the lanes `xwy`.
    pub fn xwy(self) -> (r: Vector<T, 3>)
        requires
            D >= 4,
        ensures
            r@ == seq![self@[0], self@[3], self@[1]],
    {
        self.swizzle3(0, 3, 1)
    }

    /// Returns the lanes `xwz`.
    pub fn xwz(self) -> (r: Vector<T, 3>)
        requires
            D >= 4,
        ensures
            r@ == seq![self@[0], self@[3], self@[2]],
    {
        self.swizzle3(0, 3, 2)
    }

    /// Returns the lanes `xww`.
    pub fn xww(self) -> (r: Vector<T, 3>)
        requires
            D >= 4,
        ensures
            r@ == seq![self@[0], self@[3], self@[3]],
    {
        self.swizzle3(0, 3, 3)
    }

    /// Returns the lanes `yxw`.
    pub fn yxw(self) -> (r: Vector<T, 3>)
        requires
            D >= 4,
        ensures
            r@ == seq![self@[1], self@[0], self@[3]],
    {
        self.swizzle3(1, 0, 3)
    }

    /// Returns the lanes `yyw`.
    pub fn yyw(self) -> (r: Vector<T, 3>)
        requires
            D >= 4,
        ensures
            r@ == seq![self@[1], self@[1], self@[3]],
    {
        self.swizzle3(1, 1, 3)
    }

    /// Returns the lanes `yzw`.
    pub fn yzw(self) -> (r: Vector<T, 3>)
        requires
            D >= 4,
        ensures
            r@ == seq![self@[1], self@[2], self@[3]],
    {
        self.swizzle3(1, 2, 3)
    }

    /// Returns the lanes `ywx`.
    pub fn ywx(self) -> (r: Vector<T, 3>)
        requires
            D >= 4,
        ensures
            r@ == seq![self@[1], self@[3], self@[0]],
    {
        self.swizzle3(1, 3, 0)
    }

    /// Returns the lanes `ywy`.
    pub fn ywy(self) -> (r: Vector<T, 3>)
        requires
            D >= 4,
        ensures
            r@ == seq![self@[1], self@[3], self@[1]],
    {
        self.swizzle3(1, 3, 1)
    }

    /// Returns the lanes `ywz`.
    pub fn ywz(self) -> (r: Vector<T, 3>)
        requires
            D >= 4,
        ensures
            r@ == seq![self@[1], self@[3], self@[2]],
    {
        self.swizzle3(1, 3, 2)
    }

    /// Returns the lanes `yww`.
    pub fn yww(self) -> (r: Vector<T, 3>)
        requires
            D >= 4,
        ensures
            r@ == seq![self@[1], self@[3], self@[3]],
    {
        self.swizzle3(1, 3, 3)
    }

    /// Returns the lanes `zxw`.
    pub fn zxw(self) -> (r: Vector<T, 3>)
        requires
            D >= 4,
        ensures
            r@ == seq![self@[2], self@[0], self@[3]],
    {
        self.swizzle3(2, 0, 3)
    }

    /// Returns the lanes `zyw`.
    pub fn zyw(self) -> (r: Vector<T, 3>)
        requires
            D >= 4,
        ensures
            r@ == seq![self@[2], self@[1], self@[3]],
    {
        self.swizzle3(2, 1, 3)
    }

    /// Returns the lanes `zzw`.
    pub fn zzw(self) -> (r: Vector<T, 3>)
        requires
            D >= 4,
        ensures
            r@ == seq![self@[2], self@[2], self@[3]],
    {
        self.swizzle3(2, 2, 3)
    }

    /// Returns the lanes `zwx`.
    pub fn zwx(self) -> (r: Vector<T, 3>)
        requires
            D >= 4,
        ensures
            r@ == seq![self@[2], self@[3], self@[0]],
    {
        self.swizzle3(2, 3, 0)
    }

    /// Returns the lanes `zwy`.
    pub fn zwy(self) -> (r: Vector<T, 3>)
        requires
            D >= 4,
        ensures
            r@ == seq![self@[2], self@[3], self@[1]],
    {
        self.swizzle3(2, 3, 1)
    }

    /// Returns the lanes `zwz`.
    pub fn zwz(self) -> (r: Vector<T, 3>)
        requires
            D >= 4,
        ensures
            r@ == seq![self@[2], self@[3], self@[2]],
    {
        self.swizzle3(2, 3, 2)
    }

    /// Returns the lanes `zww`.
    pub fn zww(self) -> (r: Vector<T, 3>)
        requires
            D >= 4,
        ensures
            r@ == seq![self@[2], self@[3], self@[3]],
    {
        self.swizzle3(2, 3, 3)
    }

    /// Returns the lanes `wxx`.
    pub fn wxx(self) -> (r: Vector<T, 3>)
        requires
            D >= 4,
        ensures
            r@ == seq![self@[3], self@[0], self@[0]],
    {
        self.swizzle3(3, 0, 0)
    }

    /// Returns the lanes `wxy`.
    pub fn wxy(self) -> (r: Vector<T, 3>)
        requires
            D >= 4,
        ensures
            r@ == seq![self@[3], self@[0], self@[1]],
    {
        self.swizzle3(3, 0, 1)
    }

    /// Returns the lanes `wxz`.
    pub fn wxz(self) -> (r: Vector<T, 3>)
        requires
            D >= 4,
        ensures
            r@ == seq![self@[3], self@[0], self@[2]],
    {
        self.swizzle3(3, 0, 2)
    }

    /// Returns the lanes `wxw`.
    pub fn wxw(self) -> (r: Vector<T, 3>)
        requires
            D >= 4,
        ensures
            r@ == seq![self@[3], self@[0], self@[3]],
    {
        self.swizzle3(3, 0, 3)
    }

    /// Returns the lanes `wyx`.
    pub fn wyx(self) -> (r: Vector<T, 3>)
        requires
            D >= 4,
        ensures
            r@ == seq![self@[3], self@[1], self@[0]],
    {
        self.swizzle3(3, 1, 0)
    }

    /// Returns the lanes `wyy`.
    pub fn wyy(self) -> (r: Vector<T, 3>)
        requires
            D >= 4,
        ensures
            r@ == seq![self@[3], self@[1], self@[1]],
    {
        self.swizzle3(3, 1, 1)
    }

    /// Returns the lanes `wyz`.
    pub fn wyz(self) -> (r: Vector<T, 3>)
        requires
            D >= 4,
        ensures
            r@ == seq![self@[3], self@[1], self@[2]],
    {
        self.swizzle3(3, 1, 2)
    }

    /// Returns the lanes `wyw`.
    pub fn wyw(self) -> (r: Vector<T, 3>)
        requires
            D >= 4,
        ensures
            r@ == seq![self@[3], self@[1], self@[3]],
    {
        self.swizzle3(3, 1, 3)
    }

    /// Returns the lanes `wzx`.
    pub fn wzx(self) -> (r: Vector<T, 3>)
        requires
            D >= 4,
        ensures
            r@ == seq![self@[3], self@[2], self@[0]],
    {
        self.swizzle3(3, 2, 0)
    }

    /// Returns the lanes `wzy`.
    pub fn wzy(self) -> (r: Vector<T, 3>)
        requires
            D >= 4,
        ensures
            r@ == seq![self@[3], self@[2], self@[1]],
    {
        self.swizzle3(3, 2, 1)
    }

    /// Returns the lanes `wzz`.
    pub fn wzz(self) -> (r: Vector<T, 3>)
        requires
            D >= 4,
        ensures
            r@ == seq![self@[3], self@[2], self@[2]],
    {
        self.swizzle3(3, 2, 2)
    }

    /// Returns the lanes `wzw`.
    pub fn wzw(self) -> (r: Vector<T, 3>)
        requires
            D >= 4,
        ensures
            r@ == seq![self@[3], self@[2], self@[3]],
    {
        self.swizzle3(3, 2, 3)
    }

    /// Returns the lanes `wwx`.
    pub fn wwx(self) -> (r: Vector<T, 3>)
        requires
            D >= 4,
        ensures
            r@ == seq![self@[3], self@[3], self@[0]],
    {
        self.swizzle3(3, 3, 0)
    }

    /// Returns the lanes `wwy`.
    pub fn wwy(self) -> (r: Vector<T, 3>)
        requires
            D >= 4,
        ensures
            r@ == seq![self@[3], self@[3], self@[1]],
    {
        self.swizzle3(3, 3, 1)
    }

    /// Returns the lanes `wwz`.
    pub fn wwz(self) -> (r: Vector<T, 3>)
        requires
            D >= 4,
        ensures
            r@ == seq![self@[3], self@[3], self@[2]],
    {
        self.swizzle3(3, 3, 2)
    }

    /// Returns the lanes `www`.
    pub fn www(self) -> (r: Vector<T, 3>)
        requires
            D >= 4,
        ensures
            r@ == seq![self@[3], self@[3], self@[3]],
    {
        self.swizzle3(3, 3, 3)
    }

    /// Returns the lanes `xxxw`.
    pub fn xxxw(self) -> (r: Vector<T, 4>)
        requires
            D >= 4,
        ensures
            r@ == seq![self@[0], self@[0], self@[0], self@[3]],
    {
        self.swizzle4(0, 0, 0, 3)
    }

    /// Returns the lanes `xxyw`.
    pub fn xxyw(self) -> (r: Vector<T, 4>)
        requires
            D >= 4,
        ensures
            r@ == seq![self@[0], self@[0], self@[1], self@[3]],
    {
        self.swizzle4(0, 0, 1, 3)
    }

    /// Returns the lanes `xxzw`.
    pub fn xxzw(self) -> (r: Vector<T, 4>)
        requires
            D >= 4,
        ensures
            r@ == seq![self@[0], self@[0], self@[2], self@[3]],
    {
        self.swizzle4(0, 0, 2, 3)
    }

    /// Returns the lanes `xxwx`.
    pub fn xxwx(self) -> (r: Vector<T, 4>)
        requires
            D >= 4,
        ensures
            r@ == seq![self@[0], self@[0], self@[3], self@[0]],
    {
        self.swizzle4(0, 0, 3, 0)
    }

    /// Returns the lanes `xxwy`.
    pub fn xxwy(self) -> (r: Vector<T, 4>)
        requires
            D >= 4,
        ensures
            r@ == seq![self@[0], self@[0], self@[3], self@[1]],
    {
        self.swizzle4(0, 0, 3, 1)
    }

    /// Returns the lanes `xxwz`.
    pub fn xxwz(self) -> (r: Vector<T, 4>)
        requires
            D >= 4,
        ensures
            r@ == seq![self@[0], self@[0], self@[3], self@[2]],
    {
        self.swizzle4(0, 0, 3, 2)
    }

    /// Returns the lanes `xxww`.
    pub fn xxww(self) -> (r: Vector<T, 4>)
        requires
            D >= 4,
        ensures
            r@ == seq![self@[0], self@[0], self@[3], self@[3]],
    {
        self.swizzle4(0, 0, 3, 3)
    }

    /// Returns the lanes `xyxw`.
    pub fn xyxw(self) -> (r: Vector<T, 4>)
        requires
            D >= 4,
        ensures
            r@ == seq![self@[0], self@[1], self@[0], self@[3]],
    {
        self.swizzle4(0, 1, 0, 3)
    }

    /// Returns the lanes `xyyw`.
    pub fn xyyw(self) -> (r: Vector<T, 4>)
        requires
            D >= 4,
        ensures
            r@ == seq![self@[0], self@[1], self@[1], self@[3]],
    {
        self.swizzle4(0, 1, 1, 3)
    }

    /// Returns the lanes `xyzw`.
    pub fn xyzw(self) -> (r: Vector<T, 4>)
        requires
            D >= 4,
        ensures
            r@ == seq![self@[0], self@[1], self@[2], self@[3]],
    {
        self.swizzle4(0, 1, 2, 3)
    }

    /// Returns the lanes `xywx`.
    pub fn xywx(self) -> (r: Vector<T, 4>)
        requires
            D >= 4,
        ensures
            r@ == seq![self@[0], self@[1], self@[3], self@[0]],
    {
        self.swizzle4(0, 1, 3, 0)
    }

    /// Returns the lanes `xywy`.
    pub fn xywy(self) -> (r: Vector<T, 4>)
        requires
            D >= 4,
        ensures
            r@ == seq![self@[0], self@[1], self@[3], self@[1]],
    {
        self.swizzle4(0, 1, 3, 1)
    }

    /// Returns the lanes `xywz`.
    pub fn xywz(self) -> (r: Vector<T, 4>)
        requires
            D >= 4,
        ensures
            r@ == seq![self@[0], self@[1], self@[3], self@[2]],
    {
        self.swizzle4(0, 1, 3, 2)
    }

    /// Returns the lanes `xyww`.
    pub fn xyww(self) -> (r: Vector<T, 4>)
        requires
            D >= 4,
        ensures
            r@ == seq![self@[0], self@[1], self@[3], self@[3]],
    {
        self.swizzle4(0, 1, 3, 3)
    }

    /// Returns the lanes `xzxw`.
    pub fn xzxw(self) -> (r: Vector<T, 4>)
        requires
            D >= 4,
        ensures
            r@ == seq![self@[0], self@[2], self@[0], self@[3]],
    {
        self.swizzle4(0, 2, 0, 3)
    }

    /// Returns the lanes `xzyw`.
    pub fn xzyw(self) -> (r: Vector<T, 4>)
        requires
            D >= 4,
        ensures
            r@ == seq![self@[0], self@[2], self@[1], self@[3]],
    {
        self.swizzle4(0, 2, 1, 3)
    }

    /// Returns the lanes `xzzw`.
    pub fn xzzw(self) -> (r: Vector<T, 4>)
        requires
            D >= 4,
        ensures
            r@ == seq![self@[0], self@[2], self@[2], self@[3]],
    {
        self.swizzle4(0, 2, 2, 3)
    }

    /// Returns the lanes `xzwx`.
    pub fn xzwx(self) -> (r: Vector<T, 4>)
        requires
            D >= 4,
        ensures
            r@ == seq![self@[0], self@[2], self@[3], self@[0]],
    {
        self.swizzle4(0, 2, 3, 0)
    }

    /// Returns the lanes `xzwy`.
    pub fn xzwy(self) -> (r: Vector<T, 4>)
        requires
            D >= 4,
        ensures
            r@ == seq![self@[0], self@[2], self@[3], self@[1]],
    {
        self.swizzle4(0, 2, 3, 1)
    }

    /// Returns the lanes `xzwz`.
    pub fn xzwz(self) -> (r: Vector<T, 4>)
        requires
            D >= 4,
        ensures
            r@ == seq![self@[0], self@[2], self@[3], self@[2]],
    {
        self.swizzle4(0, 2, 3, 2)
    }

    /// Returns the lanes `xzww`.
    pub fn xzww(self) -> (r: Vector<T, 4>)
        requires
            D >= 4,
        ensures
            r@ == seq![self@[0], self@[2], self@[3], self@[3]],
    {
        self.swizzle4(0, 2, 3, 3)
    }

    /// Returns the lanes `xwxx`.
    pub fn xwxx(self) -> (r: Vector<T, 4>)
        requires
            D >= 4,
        ensures
            r@ == seq![self@[0], self@[3], self@[0], self@[0]],
    {
        self.swizzle4(0, 3, 0, 0)
    }

    /// Returns the lanes `xwxy`.
    pub fn xwxy(self) -> (r: Vector<T, 4>)
        requires
            D >= 4,
        ensures
            r@ == seq![self@[0], self@[3], self@[0], self@[1]],
    {
        self.swizzle4(0, 3, 0, 1)
    }

    /// Returns the lanes `xwxz`.
    pub fn xwxz(self) -> (r: Vector<T, 4>)
        requires
            D >= 4,
        ensures
            r@ == seq![self@[0], self@[3], self@[0], self@[2]],
    {
        self.swizzle4(0, 3, 0, 2)
    }

    /// Returns the lanes `xwxw`.
    pub fn xwxw(self) -> (r: Vector<T, 4>)
        requires
            D >= 4,
        ensures
            r@ == seq![self@[0], self@[3], self@[0], self@[3]],
    {
        self.swizzle4(0, 3, 0, 3)
    }

    /// Returns the lanes `xwyx`.
    pub fn xwyx(self) -> (r: Vector<T, 4>)
        requires
            D >= 4,
        ensures
            r@ == seq![self@[0], self@[3], self@[1], self@[0]],
    {
        self.swizzle4(0, 3, 1, 0)
    }

    /// Returns the lanes `xwyy`.
    pub fn xwyy(self) -> (r: Vector<T, 4>)
        requires
            D >= 4,
        ensures
            r@ == seq![self@[0], self@[3], self@[1], self@[1]],
    {
        self.swizzle4(0, 3, 1, 1)
    }

    /// Returns the lanes `xwyz`.
    pub fn xwyz(self) -> (r: Vector<T, 4>)
        requires
            D >= 4,
        ensures
            r@ == seq![self@[0], self@[3], self@[1], self@[2]],
    {
        self.swizzle4(0, 3, 1, 2)
    }

    /// Returns the lanes `xwyw`.
    pub fn xwyw(self) -> (r: Vector<T, 4>)
        requires
            D >= 4,
        ensures
            r@ == seq![self@[0], self@[3], self@[1], self@[3]],
    {
        self.swizzle4(0, 3, 1, 3)
    }

    /// Returns the lanes `xwzx`.
    pub fn xwzx(self) -> (r: Vector<T, 4>)
        requires
            D >= 4,
        ensures
            r@ == seq![self@[0], self@[3], self@[2], self@[0]],
    {
        self.swizzle4(0, 3, 2, 0)
    }

    /// Returns the lanes `xwzy`.
    pub fn xwzy(self) -> (r: Vector<T, 4>)
        requires
            D >= 4,
        ensures
            r@ == seq![self@[0], self@[3], self@[2], self@[1]],
    {
        self.swizzle4(0, 3, 2, 1)
    }

    /// Returns the lanes `xwzz`.
    pub fn xwzz(self) -> (r: Vector<T, 4>)
        requires
            D >= 4,
        ensures
            r@ == seq![self@[0], self@[3], self@[2], self@[2]],
    {
        self.swizzle4(0, 3, 2, 2)
    }

    /// Returns the lanes `xwzw`.
    pub fn xwzw(self) -> (r: Vector<T, 4>)
        requires
            D >= 4,
        ensures
            r@ == seq![self@[0], self@[3], self@[2], self@[3]],
    {
        self.swizzle4(0, 3, 2, 3)
    }

    /// Returns the lanes `xwwx`.
    pub fn xwwx(self) -> (r: Vector<T, 4>)
        requires
            D >= 4,
        ensures
            r@ == seq![self@[0], self@[3], self@[3], self@[0]],
    {
        self.swizzle4(0, 3, 3, 0)
    }

    /// Returns the lanes `xwwy`.
    pub fn xwwy(self) -> (r: Vector<T, 4>)
        requires
            D >= 4,
        ensures
            r@ == seq![self@[0], self@[3], self@[3], self@[1]],
    {
        self.swizzle4(0, 3, 3, 1)
    }

    /// Returns the lanes `xwwz`.
    pub fn xwwz(self) -> (r: Vector<T, 4>)
        requires
            D >= 4,
        ensures
            r@ == seq![self@[0], self@[3], self@[3], self@[2]],
    {
        self.swizzle4(0, 3, 3, 2)
    }

    /// Returns the lanes `xwww`.
    pub fn xwww(self) -> (r: Vector<T, 4>)
        requires
            D >= 4,
        ensures
            r@ == seq![self@[0], self@[3], self@[3], self@[3]],
    {
        self.swizzle4(0, 3, 3, 3)
    }

    /// Returns the lanes `yxxw`.
    pub fn yxxw(self) -> (r: Vector<T, 4>)
        requires
            D >= 4,
        ensures
            r@ == seq![self@[1], self@[0], self@[0], self@[3]],
    {
        self.swizzle4(1, 0, 0, 3)
    }

    /// Returns the lanes `yxyw`.
    pub fn yxyw(self) -> (r: Vector<T, 4>)
        requires
            D >= 4,
        ensures
            r@ == seq![self@[1], self@[0], self@[1], self@[3]],
    {
        self.swizzle4(1, 0, 1, 3)
    }

    /// Returns the lanes `yxzw`.
    pub fn yxzw(self) -> (r: Vector<T, 4>)
        requires
            D >= 4,
        ensures
            r@ == seq![self@[1], self@[0], self@[2], self@[3]],
    {
        self.swizzle4(1, 0, 2, 3)
    }

    /// Returns the lanes `yxwx`.
    pub fn yxwx(self) -> (r: Vector<T, 4>)
        requires
            D >= 4,
        ensures
            r@ == seq![self@[1], self@[0], self@[3], self@[0]],
    {
        self.swizzle4(1, 0, 3, 0)
    }

    /// Returns the lanes `yxwy`.
    pub fn yxwy(self) -> (r: Vector<T, 4>)
        requires
            D >= 4,
        ensures
            r@ == seq![self@[1], self@[0], self@[3], self@[1]],
    {
        self.swizzle4(1, 0, 3, 1)
    }

    /// Returns the lanes `yxwz`.
    pub fn yxwz(self) -> (r: Vector<T, 4>)
        requires
            D >= 4,
        ensures
            r@ == seq![self@[1], self@[0], self@[3], self@[2]],
    {
        self.swizzle4(1, 0, 3, 2)
    }

    /// Returns the lanes `yxww`.
    pub fn yxww(self) -> (r: Vector<T, 4>)
        requires
            D >= 4,
        ensures
            r@ == seq![self@[1], self@[0], self@[3], self@[3]],
    {
        self.swizzle4(1, 0, 3, 3)
    }

    /// Returns the lanes `yyxw`.
    pub fn yyxw(self) -> (r: Vector<T, 4>)
        requires
            D >= 4,
        ensures
            r@ == seq![self@[1], self@[1], self@[0], self@[3]],
    {
        self.swizzle4(1, 1, 0, 3)
    }

    /// Returns the lanes `yyyw`.
    pub fn yyyw(self) -> (r: Vector<T, 4>)
        requires
            D >= 4,
        ensures
            r@ == seq![self@[1], self@[1], self@[1], self@[3]],
    {
        self.swizzle4(1, 1, 1, 3)
    }

    /// Returns the lanes `yyzw`.
    pub fn yyzw(self) -> (r: Vector<T, 4>)
        requires
            D >= 4,
        ensures
            r@ == seq![self@[1], self@[1], self@[2], self@[3]],
    {
        self.swizzle4(1, 1, 2, 3)
    }

    /// Returns the lanes `yywx`.
    pub fn yywx(self) -> (r: Vector<T, 4>)
        requires
            D >= 4,
        ensures
            r@ == seq![self@[1], self@[1], self@[3], self@[0]],
    {
        self.swizzle4(1, 1, 3, 0)
    }

    /// Returns the lanes `yywy`.
    pub fn yywy(self) -> (r: Vector<T, 4>)
        requires
            D >= 4,
        ensures
            r@ == seq![self@[1], self@[1], self@[3], self@[1]],
    {
        self.swizzle4(1, 1, 3, 1)
    }

    /// Returns the lanes `yywz`.
    pub fn yywz(self) -> (r: Vector<T, 4>)
        requires
            D >= 4,
        ensures
            r@ == seq![self@[1], self@[1], self@[3], self@[2]],
    {
        self.swizzle4(1, 1, 3, 2)
    }

    /// Returns the lanes `yyww`.
    pub fn yyww(self) -> (r: Vector<T, 4>)
        requires
            D >= 4,
        ensures
            r@ == seq![self@[1], self@[1], self@[3], self@[3]],
    {
        self.swizzle4(1, 1, 3, 3)
    }

    /// Returns the lanes `yzxw`.
    pub fn yzxw(self) -> (r: Vector<T, 4>)
        requires
            D >= 4,
        ensures
            r@ == seq![self@[1], self@[2], self@[0], self@[3]],
    {
        self.swizzle4(1, 2, 0, 3)
    }

    /// Returns the lanes `yzyw`.
    pub fn yzyw(self) -> (r: Vector<T, 4>)
        requires
            D >= 4,
        ensures
            r@ == seq![self@[1], self@[2], self@[1], self@[3]],
    {
        self.swizzle4(1, 2, 1, 3)
    }

    /// Returns the lanes `yzzw`.
    pub fn yzzw(self) -> (r: Vector<T, 4>)
        requires
            D >= 4,
        ensures
            r@ == seq![self@[1], self@[2], self@[2], self@[3]],
    {
        self.swizzle4(1, 2, 2, 3)
    }

    /// Returns the lanes `yzwx`.
    pub fn yzwx(self) -> (r: Vector<T, 4>)
        requires
            D >= 4,
        ensures
            r@ == seq![self@[1], self@[2], self@[3], self@[0]],
    {
        self.swizzle4(1, 2, 3, 0)
    }

    /// Returns the lanes `yzwy`.
    pub fn yzwy(self) -> (r: Vector<T, 4>)
        requires
            D >= 4,
        ensures
            r@ == seq![self@[1], self@[2], self@[3], self@[1]],
    {
        self.swizzle4(1, 2, 3, 1)
    }

    /// Returns the lanes `yzwz`.
    pub fn yzwz(self) -> (r: Vector<T, 4>)
        requires
            D >= 4,
        ensures
            r@ == seq![self@[1], self@[2], self@[3], self@[2]],
    {
        self.swizzle4(1, 2, 3, 2)
    }

    /// Returns the lanes `yzww`.
    pub fn yzww(self) -> (r: Vector<T, 4>)
        requires
            D >= 4,
        ensures
            r@ == seq![self@[1], self@[2], self@[3], self@[3]],
    {
        self.swizzle4(1, 2, 3, 3)
    }

    /// Returns the lanes `ywxx`.
    pub fn ywxx(self) -> (r: Vector<T, 4>)
        requires
            D >= 4,
        ensures
            r@ == seq![self@[1], self@[3], self@[0], self@[0]],
    {
        self.swizzle4(1, 3, 0, 0)
    }

    /// Returns the lanes `ywxy`.
    pub fn ywxy(self) -> (r: Vector<T, 4>)
        requires
            D >= 4,
        ensures
            r@ == seq![self@[1], self@[3], self@[0], self@[1]],
    {
        self.swizzle4(1, 3, 0, 1)
    }

    /// Returns the lanes `ywxz`.
    pub fn ywxz(self) -> (r: Vector<T, 4>)
        requires
            D >= 4,
        ensures
            r@ == seq![self@[1], self@[3], self@[0], self@[2]],
    {
        self.swizzle4(1, 3, 0, 2)
    }

    /// Returns the lanes `ywxw`.
    pub fn ywxw(self) -> (r: Vector<T, 4>)
        requires
            D >= 4,
        ensures
            r@ == seq![self@[1], self@[3], self@[0], self@[3]],
    {
        self.swizzle4(1, 3, 0, 3)
    }

    /// Returns the lanes `ywyx`.
    pub fn ywyx(self) -> (r: Vector<T, 4>)
        requires
            D >= 4,
        ensures
            r@ == seq![self@[1], self@[3], self@[1], self@[0]],
    {
        self.swizzle4(1, 3, 1, 0)
    }

    /// Returns the lanes `ywyy`.
    pub fn ywyy(self) -> (r: Vector<T, 4>)
        requires
            D >= 4,
        ensures
            r@ == seq![self@[1], self@[3], self@[1], self@[1]],
    {
        self.swizzle4(1, 3, 1, 1)
    }

    /// Returns the lanes `ywyz`.
    pub fn ywyz(self) -> (r: Vector<T, 4>)
        requires
            D >= 4,
        ensures
            r@ == seq![self@[1], self@[3], self@[1], self@[2]],
    {
        self.swizzle4(1, 3, 1, 2)
    }

    /// Returns the lanes `ywyw`.
    pub fn ywyw(self) -> (r: Vector<T, 4>)
        requires
            D >= 4,
        ensures
            r@ == seq![self@[1], self@[3], self@[1], self@[3]],
    {
        self.swizzle4(1, 3, 1, 3)
    }

    /// Returns the lanes `ywzx`.
    pub fn ywzx(self) -> (r: Vector<T, 4>)
        requires
            D >= 4,
        ensures
            r@ == seq![self@[1], self@[3], self@[2], self@[0]],
    {
        self.swizzle4(1, 3, 2, 0)
    }

    /// Returns the lanes `ywzy`.
    pub fn ywzy(self) -> (r: Vector<T, 4>)
        requires
            D >= 4,
        ensures
            r@ == seq![self@[1], self@[3], self@[2], self@[1]],
    {
        self.swizzle4(1, 3, 2, 1)
    }

    /// Returns the lanes `ywzz`.
    pub fn ywzz(self) -> (r: Vector<T, 4>)
        requires
            D >= 4,
        ensures
            r@ == seq![self@[1], self@[3], self@[2], self@[2]],
    {
        self.swizzle4(1, 3, 2, 2)
    }

    /// Returns the lanes `ywzw`.
    pub fn ywzw(self) -> (r: Vector<T, 4>)
        requires
            D >= 4,
        ensures
            r@ == seq![self@[1], self@[3], self@[2], self@[3]],
    {
        self.swizzle4(1, 3, 2, 3)
    }

    /// Returns the lanes `ywwx`.
    pub fn ywwx(self) -> (r: Vector<T, 4>)
        requires
            D >= 4,
        ensures
            r@ == seq![self@[1], self@[3], self@[3], self@[0]],
    {
        self.swizzle4(1, 3, 3, 0)
    }

    /// Returns the lanes `ywwy`.
    pub fn ywwy(self) -> (r: Vector<T, 4>)
        requires
            D >= 4,
        ensures
            r@ == seq![self@[1], self@[3], self@[3], self@[1]],
    {
        self.swizzle4(1, 3, 3, 1)
    }

    /// Returns the lanes `ywwz`.
    pub fn ywwz(self) -> (r: Vector<T, 4>)
        requires
            D >= 4,
        ensures
            r@ == seq![self@[1], self@[3], self@[3], self@[2]],
    {
        self.swizzle4(1, 3, 3, 2)
    }

    /// Returns the lanes `ywww`.
    pub fn ywww(self) -> (r: Vector<T, 4>)
        requires
            D >= 4,
        ensures
            r@ == seq![self@[1], self@[3], self@[3], self@[3]],
    {
        self.swizzle4(1, 3, 3, 3)
    }

    /// Returns the lanes `zxxw`.
    pub fn zxxw(self) -> (r: Vector<T, 4>)
        requires
            D >= 4,
        ensures
            r@ == seq![self@[2], self@[0], self@[0], self@[3]],
    {
        self.swizzle4(2, 0, 0, 3)
    }

    /// Returns the lanes `zxyw`.
    pub fn zxyw(self) -> (r: Vector<T, 4>)
        requires
            D >= 4,
        ensures
            r@ == seq![self@[2], self@[0], self@[1], self@[3]],
    {
        self.swizzle4(2, 0, 1, 3)
    }

    /// Returns the lanes `zxzw`.
    pub fn zxzw(self) -> (r: Vector<T, 4>)
        requires
            D >= 4,
        ensures
            r@ == seq![self@[2], self@[0], self@[2], self@[3]],
    {
        self.swizzle4(2, 0, 2, 3)
    }

    /// Returns the lanes `zxwx`.
    pub fn zxwx(self) -> (r: Vector<T, 4>)
        requires
            D >= 4,
        ensures
            r@ == seq![self@[2], self@[0], self@[3], self@[0]],
    {
        self.swizzle4(2, 0, 3, 0)
    }

    /// Returns the lanes `zxwy`.
    pub fn zxwy(self) -> (r: Vector<T, 4>)
        requires
            D >= 4,
        ensures
            r@ == seq![self@[2], self@[0], self@[3], self@[1]],
    {
        self.swizzle4(2, 0, 3, 1)
    }

    /// Returns the lanes `zxwz`.
    pub fn zxwz(self) -> (r: Vector<T, 4>)
        requires
            D >= 4,
        ensures
            r@ == seq![self@[2], self@[0], self@[3], self@[2]],
    {
        self.swizzle4(2, 0, 3, 2)
    }

    /// Returns the lanes `zxww`.
    pub fn zxww(self) -> (r: Vector<T, 4>)
        requires
            D >= 4,
        ensures
            r@ == seq![self@[2], self@[0], self@[3], self@[3]],
    {
        self.swizzle4(2, 0, 3, 3)
    }

    /// Returns the lanes `zyxw`.
    pub fn zyxw(self) -> (r: Vector<T, 4>)
        requires
            D >= 4,
        ensures
            r@ == seq![self@[2], self@[1], self@[0], self@[3]],
    {
        self.swizzle4(2, 1, 0, 3)
    }

    /// Returns the lanes `zyyw`.
    pub fn zyyw(self) -> (r: Vector<T, 4>)
        requires
            D >= 4,
        ensures
            r@ == seq![self@[2], self@[1], self@[1], self@[3]],
    {
        self.swizzle4(2, 1, 1, 3)
    }

    /// Returns the lanes `zyzw`.
    pub fn zyzw(self) -> (r: Vector<T, 4>)
        requires
            D >= 4,
        ensures
            r@ == seq![self@[2], self@[1], self@[2], self@[3]],
    {
        self.swizzle4(2, 1, 2, 3)
    }

    /// Returns the lanes `zywx`.
    pub fn zywx(self) -> (r: Vector<T, 4>)
        requires
            D >= 4,
        ensures
            r@ == seq![self@[2], self@[1], self@[3], self@[0]],
    {
        self.swizzle4(2, 1, 3, 0)
    }

    /// Returns the lanes `zywy`.
    pub fn zywy(self) -> (r: Vector<T, 4>)
        requires
            D >= 4,
        ensures
            r@ == seq![self@[2], self@[1], self@[3], self@[1]],
    {
        self.swizzle4(2, 1, 3, 1)
    }

    /// Returns the lanes `zywz`.
    pub fn zywz(self) -> (r: Vector<T, 4>)
        requires
            D >= 4,
        ensures
            r@ == seq![self@[2], self@[1], self@[3], self@[2]],
    {
        self.swizzle4(2, 1, 3, 2)
    }

    /// Returns the lanes `zyww`.
    pub fn zyww(self) -> (r: Vector<T, 4>)
        requires
            D >= 4,
        ensures
            r@ == seq![self@[2], self@[1], self@[3], self@[3]],
    {
        self.swizzle4(2, 1, 3, 3)
    }

    /// Returns the lanes `zzxw`.
    pub fn zzxw(self) -> (r: Vector<T, 4>)
        requires
            D >= 4,
        ensures
            r@ == seq![self@[2], self@[2], self@[0], self@[3]],
    {
        self.swizzle4(2, 2, 0, 3)
    }

    /// Returns the lanes `zzyw`.
    pub fn zzyw(self) -> (r: Vector<T, 4>)
        requires
            D >= 4,
        ensures
            r@ == seq![self@[2], self@[2], self@[1], self@[3]],
    {
        self.swizzle4(2, 2, 1, 3)
    }

    /// Returns the lanes `zzzw`.
    pub fn zzzw(self) -> (r: Vector<T, 4>)
        requires
            D >= 4,
        ensures
            r@ == seq![self@[2], self@[2], self@[2], self@[3]],
    {
        self.swizzle4(2, 2, 2, 3)
    }

    /// Returns the lanes `zzwx`.
    pub fn zzwx(self) -> (r: Vector<T, 4>)
        requires
            D >= 4,
        ensures
            r@ == seq![self@[2], self@[2], self@[3], self@[0]],
    {
        self.swizzle4(2, 2, 3, 0)
    }

    /// Returns the lanes `zzwy`.
    pub fn zzwy(self) -> (r: Vector<T, 4>)
        requires
            D >= 4,
        ensures
            r@ == seq![self@[2], self@[2], self@[3], self@[1]],
    {
        self.swizzle4(2, 2, 3, 1)
    }

    /// Returns the lanes `zzwz`.
    pub fn zzwz(self) -> (r: Vector<T, 4>)
        requires
            D >= 4,
        ensures
            r@ == seq![self@[2], self@[2], self@[3], self@[2]],
    {
        self.swizzle4(2, 2, 3, 2)
    }

    /// Returns the lanes `zzww`.
    pub fn zzww(self) -> (r: Vector<T, 4>)
        requires
            D >= 4,
        ensures
            r@ == seq![self@[2], self@[2], self@[3], self@[3]],
    {
        self.swizzle4(2, 2, 3, 3)
    }

    /// Returns the lanes `zwxx`.
    pub fn zwxx(self) -> (r: Vector<T, 4>)
        requires
            D >= 4,
        ensures
            r@ == seq![self@[2], self@[3], self@[0], self@[0]],
    {
        self.swizzle4(2, 3, 0, 0)
    }

    /// Returns the lanes `zwxy`.
    pub fn zwxy(self) -> (r: Vector<T, 4>)
        requires
            D >= 4,
        ensures
            r@ == seq![self@[2], self@[3], self@[0], self@[1]],
    {
        self.swizzle4(2, 3, 0, 1)
    }

    /// Returns the lanes `zwxz`.
    pub fn zwxz(self) -> (r: Vector<T, 4>)
        requires
            D >= 4,
        ensures
            r@ == seq![self@[2], self@[3], self@[0], self@[2]],
    {
        self.swizzle4(2, 3, 0, 2)
    }

    /// Returns the lanes `zwxw`.
    pub fn zwxw(self) -> (r: Vector<T, 4>)
        requires
            D >= 4,
        ensures
            r@ == seq![self@[2], self@[3], self@[0], self@[3]],
    {
        self.swizzle4(2, 3, 0, 3)
    }

    /// Returns the lanes `zwyx`.
    pub fn zwyx(self) -> (r: Vector<T, 4>)
        requires
            D >= 4,
        ensures
            r@ == seq![self@[2], self@[3], self@[1], self@[0]],
    {
        self.swizzle4(2, 3, 1, 0)
    }

    /// Returns the lanes `zwyy`.
    pub fn zwyy(self) -> (r: Vector<T, 4>)
        requires
            D >= 4,
        ensures
            r@ == seq![self@[2], self@[3], self@[1], self@[1]],
    {
        self.swizzle4(2, 3, 1, 1)
    }

    /// Returns the lanes `zwyz`.
    pub fn zwyz(self) -> (r: Vector<T, 4>)
        requires
            D >= 4,
        ensures
            r@ == seq![self@[2], self@[3], self@[1], self@[2]],
    {
        self.swizzle4(2, 3, 1, 2)
    }

    /// Returns the lanes `zwyw`.
    pub fn zwyw(self) -> (r: Vector<T, 4>)
        requires
            D >= 4,
        ensures
            r@ == seq![self@[2], self@[3], self@[1], self@[3]],
    {
        self.swizzle4(2, 3, 1, 3)
    }

    /// Returns the lanes `zwzx`.
    pub fn zwzx(self) -> (r: Vector<T, 4>)
        requires
            D >= 4,
        ensures
            r@ == seq![self@[2], self@[3], self@[2], self@[0]],
    {
        self.swizzle4(2, 3, 2, 0)
    }

    /// Returns the lanes `zwzy`.
    pub fn zwzy(self) -> (r: Vector<T, 4>)
        requires
            D >= 4,
        ensures
            r@ == seq![self@[2], self@[3], self@[2], self@[1]],
    {
        self.swizzle4(2, 3, 2, 1)
    }

    /// Returns the lanes `zwzz`.
    pub fn zwzz(self) -> (r: Vector<T, 4>)
        requires
            D >= 4,
        ensures
            r@ == seq![self@[2], self@[3], self@[2], self@[2]],
    {
        self.swizzle4(2, 3, 2, 2)
    }

    /// Returns the lanes `zwzw`.
    pub fn zwzw(self) -> (r: Vector<T, 4>)
        requires
            D >= 4,
        ensures
            r@ == seq![self@[2], self@[3], self@[2], self@[3]],
    {
        self.swizzle4(2, 3, 2, 3)
    }

    /// Returns the lanes `zwwx`.
    pub fn zwwx(self) -> (r: Vector<T, 4>)
        requires
            D >= 4,
        ensures
            r@ == seq![self@[2], self@[3], self@[3], self@[0]],
    {
        self.swizzle4(2, 3, 3, 0)
    }

    /// Returns the lanes `zwwy`.
    pub fn zwwy(self) -> (r: Vector<T, 4>)
        requires
            D >= 4,
        ensures
            r@ == seq![self@[2], self@[3], self@[3], self@[1]],
    {
        self.swizzle4(2, 3, 3, 1)
    }

    /// Returns the lanes `zwwz`.
    pub fn zwwz(self) -> (r: Vector<T, 4>)
        requires
            D >= 4,
        ensures
            r@ == seq![self@[2], self@[3], self@[3], self@[2]],
    {
        self.swizzle4(2, 3, 3, 2)
    }

    /// Returns the lanes `zwww`.
    pub fn zwww(self) -> (r: Vector<T, 4>)
        requires
            D >= 4,
        ensures
            r@ == seq![self@[2], self@[3], self@[3], self@[3]],
    {
        self.swizzle4(2, 3, 3, 3)
    }

    /// Returns the lanes `wxxx`.
    pub fn wxxx(self) -> (r: Vector<T, 4>)
        requires
            D >= 4,
        ensures
            r@ == seq![self@[3], self@[0], self@[0], self@[0]],
    {
        self.swizzle4(3, 0, 0, 0)
    }

    /// Returns the lanes `wxxy`.
    pub fn wxxy(self) -> (r: Vector<T, 4>)
        requires
            D >= 4,
        ensures
            r@ == seq![self@[3], self@[0], self@[0], self@[1]],
    {
        self.swizzle4(3, 0, 0, 1)
    }

    /// Returns the lanes `wxxz`.
    pub fn wxxz(self) -> (r: Vector<T, 4>)
        requires
            D >= 4,
        ensures
            r@ == seq![self@[3], self@[0], self@[0], self@[2]],
    {
        self.swizzle4(3, 0, 0, 2)
    }

    /// Returns the lanes `wxxw`.
    pub fn wxxw(self) -> (r: Vector<T, 4>)
        requires
            D >= 4,
        ensures
            r@ == seq![self@[3], self@[0], self@[0], self@[3]],
    {
        self.swizzle4(3, 0, 0, 3)
    }

    /// Returns the lanes `wxyx`.
    pub fn wxyx(self) -> (r: Vector<T, 4>)
        requires
            D >= 4,
        ensures
            r@ == seq![self@[3], self@[0], self@[1], self@[0]],
    {
        self.swizzle4(3, 0, 1, 0)
    }

    /// Returns the lanes `wxyy`.
    pub fn wxyy(self) -> (r: Vector<T, 4>)
        requires
            D >= 4,
        ensures
            r@ == seq![self@[3], self@[0], self@[1], self@[1]],
    {
        self.swizzle4(3, 0, 1, 1)
    }

    /// Returns the lanes `wxyz`.
    pub fn wxyz(self) -> (r: Vector<T, 4>)
        requires
            D >= 4,
        ensures
            r@ == seq![self@[3], self@[0], self@[1], self@[2]],
    {
        self.swizzle4(3, 0, 1, 2)
    }

    /// Returns the lanes `wxyw`.
    pub fn wxyw(self) -> (r: Vector<T, 4>)
        requires
            D >= 4,
        ensures
            r@ == seq![self@[3], self@[0], self@[1], self@[3]],
    {
        self.swizzle4(3, 0, 1, 3)
    }

    /// Returns the lanes `wxzx`.
    pub fn wxzx(self) -> (r: Vector<T, 4>)
        requires
            D >= 4,
        ensures
            r@ == seq![self@[3], self@[0], self@[2], self@[0]],
    {
        self.swizzle4(3, 0, 2, 0)
    }

    /// Returns the lanes `wxzy`.
    pub fn wxzy(self) -> (r: Vector<T, 4>)
        requires
            D >= 4,
        ensures
            r@ == seq![self@[3], self@[0], self@[2], self@[1]],
    {
        self.swizzle4(3, 0, 2, 1)
    }

    /// Returns the lanes `wxzz`.
    pub fn wxzz(self) -> (r: Vector<T, 4>)
        requires
            D >= 4,
        ensures
            r@ == seq![self@[3], self@[0], self@[2], self@[2]],
    {
        self.swizzle4(3, 0, 2, 2)
    }

    /// Returns the lanes `wxzw`.
    pub fn wxzw(self) -> (r: Vector<T, 4>)
        requires
            D >= 4,
        ensures
            r@ == seq![self@[3], self@[0], self@[2], self@[3]],
    {
        self.swizzle4(3, 0, 2, 3)
    }

    /// Returns the lanes `wxwx`.
    pub fn wxwx(self) -> (r: Vector<T, 4>)
        requires
            D >= 4,
        ensures
            r@ == seq![self@[3], self@[0], self@[3], self@[0]],
    {
        self.swizzle4(3, 0, 3, 0)
    }

    /// Returns the lanes `wxwy`.
    pub fn wxwy(self) -> (r: Vector<T, 4>)
        requires
            D >= 4,
        ensures
            r@ == seq![self@[3], self@[0], self@[3], self@[1]],
    {
        self.swizzle4(3, 0, 3, 1)
    }

    /// Returns the lanes `wxwz`.
    pub fn wxwz(self) -> (r: Vector<T, 4>)
        requires
            D >= 4,
        ensures
            r@ == seq![self@[3], self@[0], self@[3], self@[2]],
    {
        self.swizzle4(3, 0, 3, 2)
    }

    /// Returns the lanes `wxww`.
    pub fn wxww(self) -> (r: Vector<T, 4>)
        requires
            D >= 4,
        ensures
            r@ == seq![self@[3], self@[0], self@[3], self@[3]],
    {
        self.swizzle4(3, 0, 3, 3)
    }

    /// Returns the lanes `wyxx`.
    pub fn wyxx(self) -> (r: Vector<T, 4>)
        requires
            D >= 4,
        ensures
            r@ == seq![self@[3], self@[1], self@[0], self@[0]],
    {
        self.swizzle4(3, 1, 0, 0)
    }

    /// Returns the lanes `wyxy`.
    pub fn wyxy(self) -> (r: Vector<T, 4>)
        requires
            D >= 4,
        ensures
            r@ == seq![self@[3], self@[1], self@[0], self@[1]],
    {
        self.swizzle4(3, 1, 0, 1)
    }

    /// Returns the lanes `wyxz`.
    pub fn wyxz(self) -> (r: Vector<T, 4>)
        requires
            D >= 4,
        ensures
            r@ == seq![self@[3], self@[1], self@[0], self@[2]],
    {
        self.swizzle4(3, 1, 0, 2)
    }

    /// Returns the lanes `wyxw`.
    pub fn wyxw(self) -> (r: Vector<T, 4>)
        requires
            D >= 4,
        ensures
            r@ == seq![self@[3], self@[1], self@[0], self@[3]],
    {
        self.swizzle4(3, 1, 0, 3)
    }

    /// Returns the lanes `wyyx`.
    pub fn wyyx(self) -> (r: Vector<T, 4>)
        requires
            D >= 4,
        ensures
            r@ == seq![self@[3], self@[1], self@[1], self@[0]],
    {
        self.swizzle4(3, 1, 1, 0)
    }

    /// Returns the lanes `wyyy`.
    pub fn wyyy(self) -> (r: Vector<T, 4>)
        requires
            D >= 4,
        ensures
            r@ == seq![self@[3], self@[1], self@[1], self@[1]],
    {
        self.swizzle4(3, 1, 1, 1)
    }

    /// Returns the lanes `wyyz`.
    pub fn wyyz(self) -> (r: Vector<T, 4>)
        requires
            D >= 4,
        ensures
            r@ == seq![self@[3], self@[1], self@[1], self@[2]],
    {
        self.swizzle4(3, 1, 1, 2)
    }

    /// Returns the lanes `wyyw`.
    pub fn wyyw(self) -> (r: Vector<T, 4>)
        requires
            D >= 4,
        ensures
            r@ == seq![self@[3], self@[1], self@[1], self@[3]],
    {
        self.swizzle4(3, 1, 1, 3)
    }

    /// Returns the lanes `wyzx`.
    pub fn wyzx(self) -> (r: Vector<T, 4>)
        requires
            D >= 4,
        ensures
            r@ == seq![self@[3], self@[1], self@[2], self@[0]],
    {
        self.swizzle4(3, 1, 2, 0)
    }

    /// Returns the lanes `wyzy`.
    pub fn wyzy(self) -> (r: Vector<T, 4>)
        requires
            D >= 4,
        ensures
            r@ == seq![self@[3], self@[1], self@[2], self@[1]],
    {
        self.swizzle4(3, 1, 2, 1)
    }

    /// Returns the lanes `wyzz`.
    pub fn wyzz(self) -> (r: Vector<T, 4>)
        requires
            D >= 4,
        ensures
            r@ == seq![self@[3], self@[1], self@[2], self@[2]],
    {
        self.swizzle4(3, 1, 2, 2)
    }

    /// Returns the lanes `wyzw`.
    pub fn wyzw(self) -> (r: Vector<T, 4>)
        requires
            D >= 4,
        ensures
            r@ == seq![self@[3], self@[1], self@[2], self@[3]],
    {
        self.swizzle4(3, 1, 2, 3)
    }

    /// Returns the lanes `wywx`.
    pub fn wywx(self) -> (r: Vector<T, 4>)
        requires
            D >= 4,
        ensures
            r@ == seq![self@[3], self@[1], self@[3], self@[0]],
    {
        self.swizzle4(3, 1, 3, 0)
    }

    /// Returns the lanes `wywy`.
    pub fn wywy(self) -> (r: Vector<T, 4>)
        requires
            D >= 4,
        ensures
            r@ == seq![self@[3], self@[1], self@[3], self@[1]],
    {
        self.swizzle4(3, 1, 3, 1)
    }

    /// Returns the lanes `wywz`.
    pub fn wywz(self) -> (r: Vector<T, 4>)
        requires
            D >= 4,
        ensures
            r@ == seq![self@[3], self@[1], self@[3], self@[2]],
    {
        self.swizzle4(3, 1, 3, 2)
    }

    /// Returns the lanes `wyww`.
    pub fn wyww(self) -> (r: Vector<T, 4>)
        requires
            D >= 4,
        ensures
            r@ == seq![self@[3], self@[1], self@[3], self@[3]],
    {
        self.swizzle4(3, 1, 3, 3)
    }

    /// Returns the lanes `wzxx`.
    pub fn wzxx(self) -> (r: Vector<T, 4>)
        requires
            D >= 4,
        ensures
            r@ == seq![self@[3], self@[2], self@[0], self@[0]],
    {
        self.swizzle4(3, 2, 0, 0)
    }

    /// Returns the lanes `wzxy`.
    pub fn wzxy(self) -> (r: Vector<T, 4>)
        requires
            D >= 4,
        ensures
            r@ == seq![self@[3], self@[2], self@[0], self@[1]],
    {
        self.swizzle4(3, 2, 0, 1)
    }

    /// Returns the lanes `wzxz`.
    pub fn wzxz(self) -> (r: Vector<T, 4>)
        requires
            D >= 4,
        ensures
            r@ == seq![self@[3], self@[2], self@[0], self@[2]],
    {
        self.swizzle4(3, 2, 0, 2)
    }

    /// Returns the lanes `wzxw`.
    pub fn wzxw(self) -> (r: Vector<T, 4>)
        requires
            D >= 4,
        ensures
            r@ == seq![self@[3], self@[2], self@[0], self@[3]],
    {
        self.swizzle4(3, 2, 0, 3)
    }

    /// Returns the lanes `wzyx`.
    pub fn wzyx(self) -> (r: Vector<T, 4>)
        requires
            D >= 4,
        ensures
            r@ == seq![self@[3], self@[2], self@[1], self@[0]],
    {
        self.swizzle4(3, 2, 1, 0)
    }

    /// Returns the lanes `wzyy`.
    pub fn wzyy(self) -> (r: Vector<T, 4>)
        requires
            D >= 4,
        ensures
            r@ == seq![self@[3], self@[2], self@[1], self@[1]],
    {
        self.swizzle4(3, 2, 1, 1)
    }

    /// Returns the lanes `wzyz`.
    pub fn wzyz(self) -> (r: Vector<T, 4>)
        requires
            D >= 4,
        ensures
            r@ == seq![self@[3], self@[2], self@[1], self@[2]],
    {
        self.swizzle4(3, 2, 1, 2)
    }

    /// Returns the lanes `wzyw`.
    pub fn wzyw(self) -> (r: Vector<T, 4>)
        requires
            D >= 4,
        ensures
            r@ == seq![self@[3], self@[2], self@[1], self@[3]],
    {
        self.swizzle4(3, 2, 1, 3)
    }

    /// Returns the lanes `wzzx`.
    pub fn wzzx(self) -> (r: Vector<T, 4>)
        requires
            D >= 4,
        ensures
            r@ == seq![self@[3], self@[2], self@[2], self@[0]],
    {
        self.swizzle4(3, 2, 2, 0)
    }

    /// Returns the lanes `wzzy`.
    pub fn wzzy(self) -> (r: Vector<T, 4>)
        requires
            D >= 4,
        ensures
            r@ == seq![self@[3], self@[2], self@[2], self@[1]],
    {
        self.swizzle4(3, 2, 2, 1)
    }

    /// Returns the lanes `wzzz`.
    pub fn wzzz(self) -> (r: Vector<T, 4>)
        requires
            D >= 4,
        ensures
            r@ == seq![self@[3], self@[2], self@[2], self@[2]],
    {
        self.swizzle4(3, 2, 2, 2)
    }

    /// Returns the lanes `wzzw`.
    pub fn wzzw(self) -> (r: Vector<T, 4>)
        requires
            D >= 4,
        ensures
            r@ == seq![self@[3], self@[2], self@[2], self@[3]],
    {
        self.swizzle4(3, 2, 2, 3)
    }

    /// Returns the lanes `wzwx`.
    pub fn wzwx(self) -> (r: Vector<T, 4>)
        requires
            D >= 4,
        ensures
            r@ == seq![self@[3], self@[2], self@[3], self@[0]],
    {
        self.swizzle4(3, 2, 3, 0)
    }

    /// Returns the lanes `wzwy`.
    pub fn wzwy(self) -> (r: Vector<T, 4>)
        requires
            D >= 4,
        ensures
            r@ == seq![self@[3], self@[2], self@[3], self@[1]],
    {
        self.swizzle4(3, 2, 3, 1)
    }

    /// Returns the lanes `wzwz`.
    pub fn wzwz(self) -> (r: Vector<T, 4>)
        requires
            D >= 4,
        ensures
            r@ == seq![self@[3], self@[2], self@[3], self@[2]],
    {
        self.swizzle4(3, 2, 3, 2)
    }

    /// Returns the lanes `wzww`.
    pub fn wzww(self) -> (r: Vector<T, 4>)
        requires
            D >= 4,
        ensures
            r@ == seq![self@[3], self@[2], self@[3], self@[3]],
    {
        self.swizzle4(3, 2, 3, 3)
    }

    /// Returns the lanes `wwxx`.
    pub fn wwxx(self) -> (r: Vector<T, 4>)
        requires
            D >= 4,
        ensures
            r@ == seq![self@[3], self@[3], self@[0], self@[0]],
    {
        self.swizzle4(3, 3, 0, 0)
    }

    /// Returns the lanes `wwxy`.
    pub fn wwxy(self) -> (r: Vector<T, 4>)
        requires
            D >= 4,
        ensures
            r@ == seq![self@[3], self@[3], self@[0], self@[1]],
    {
        self.swizzle4(3, 3, 0, 1)
    }

    /// Returns the lanes `wwxz`.
    pub fn wwxz(self) -> (r: Vector<T, 4>)
        requires
            D >= 4,
        ensures
            r@ == seq![self@[3], self@[3], self@[0], self@[2]],
    {
        self.swizzle4(3, 3, 0, 2)
    }

    /// Returns the lanes `wwxw`.
    pub fn wwxw(self) -> (r: Vector<T, 4>)
        requires
            D >= 4,
        ensures
            r@ == seq![self@[3], self@[3], self@[0], self@[3]],
    {
        self.swizzle4(3, 3, 0, 3)
    }

    /// Returns the lanes `wwyx`.
    pub fn wwyx(self) -> (r: Vector<T, 4>)
        requires
            D >= 4,
        ensures
            r@ == seq![self@[3], self@[3], self@[1], self@[0]],
    {
        self.swizzle4(3, 3, 1, 0)
    }

    /// Returns the lanes `wwyy`.
    pub fn wwyy(self) -> (r: Vector<T, 4>)
        requires
            D >= 4,
        ensures
            r@ == seq![self@[3], self@[3], self@[1], self@[1]],
    {
        self.swizzle4(3, 3, 1, 1)
    }

    /// Returns the lanes `wwyz`.
    pub fn wwyz(self) -> (r: Vector<T, 4>)
        requires
            D >= 4,
        ensures
            r@ == seq![self@[3], self@[3], self@[1], self@[2]],
    {
        self.swizzle4(3, 3, 1, 2)
    }

    /// Returns the lanes `wwyw`.
    pub fn wwyw(self) -> (r: Vector<T, 4>)
        requires
            D >= 4,
        ensures
            r@ == seq![self@[3], self@[3], self@[1], self@[3]],
    {
        self.swizzle4(3, 3, 1, 3)
    }

    /// Returns the lanes `wwzx`.
    pub fn wwzx(self) -> (r: Vector<T, 4>)
        requires
            D >= 4,
        ensures
            r@ == seq![self@[3], self@[3], self@[2], self@[0]],
    {
        self.swizzle4(3, 3, 2, 0)
    }

    /// Returns the lanes `wwzy`.
    pub fn wwzy(self) -> (r: Vector<T, 4>)
        requires
            D >= 4,
        ensures
            r@ == seq![self@[3], self@[3], self@[2], self@[1]],
    {
        self.swizzle4(3, 3, 2, 1)
    }

    /// Returns the lanes `wwzz`.
    pub fn wwzz(self) -> (r: Vector<T, 4>)
        requires
            D >= 4,
        ensures
            r@ == seq![self@[3], self@[3], self@[2], self@[2]],
    {
        self.swizzle4(3, 3, 2, 2)
    }

    /// Returns the lanes `wwzw`.
    pub fn wwzw(self) -> (r: Vector<T, 4>)
        requires
            D >= 4,
        ensures
            r@ == seq![self@[3], self@[3], self@[2], self@[3]],
    {
        self.swizzle4(3, 3, 2, 3)
    }

    /// Returns the lanes `wwwx`.
    pub fn wwwx(self) -> (r: Vector<T, 4>)
        requires
            D >= 4,
        ensures
            r@ == seq![self@[3], self@[3], self@[3], self@[0]],
    {
        self.swizzle4(3, 3, 3, 0)
    }

    /// Returns the lanes `wwwy`.
    pub fn wwwy(self) -> (r: Vector<T, 4>)
        requires
            D >= 4,
        ensures
            r@ == seq![self@[3], self@[3], self@[3], self@[1]],
    {
        self.swizzle4(3, 3, 3, 1)
    }

    /// Returns the lanes `wwwz`.
    pub fn wwwz(self) -> (r: Vector<T, 4>)
        requires
            D >= 4,
        ensures
            r@ == seq![self@[3], self@[3], self@[3], self@[2]],
    {
        self.swizzle4(3, 3, 3, 2)
    }

    /// Returns the lanes `wwww`.
    pub fn wwww(self) -> (r: Vector<T, 4>)
        requires
            D >= 4,
        ensures
            r@ == seq![self@[3], self@[3], self@[3], self@[3]],
    {
        self.swizzle4(3, 3, 3, 3)
    }
}

} // verus!
