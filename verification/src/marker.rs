//! Scalar lane types and the arithmetic they support.
//!
//! Every lane type is a fixed-width machine integer. Its value is modelled as a
//! mathematical integer (`val`), and every arithmetic operation is stated as
//! the mathematical result brought back into the lane's range (`wrap`).
use vstd::prelude::*;

use vstd::arithmetic::power2::pow2;

use crate::lane_bits::{bit, shift_count};
use crate::support::Element;

verus! {

/// Brings `x` into the half-open range `[lo, lo + m)` modulo `m`.
pub open spec fn wrap(x: int, lo: int, m: int) -> int {
    (x - lo) % m + lo
}

/// Absolute value of a mathematical integer.
pub open spec fn abs(x: int) -> int {
    if x < 0 {
        -x
    } else {
        x
    }
}

/// Integer division rounding toward zero.
pub open spec fn tdiv(x: int, y: int) -> int {
    if (x < 0) == (y < 0) {
        abs(x) / abs(y)
    } else {
        -(abs(x) / abs(y))
    }
}

/// Remainder of the division rounding toward zero; it has the sign of `x`.
pub open spec fn trem(x: int, y: int) -> int {
    if x < 0 {
        -(abs(x) % abs(y))
    } else {
        abs(x) % abs(y)
    }
}

pub proof fn lemma_wrap_range(x: int, lo: int, m: int)
    requires
        m > 0,
    ensures
        lo <= wrap(x, lo, m) < lo + m,
{
    vstd::arithmetic::div_mod::lemma_mod_bound(x - lo, m);
}

pub proof fn lemma_wrap_shift(x: int, lo: int, m: int, k: int)
    requires
        m > 0,
        lo <= x - k * m < lo + m,
    ensures
        wrap(x, lo, m) == x - k * m,
{
    vstd::arithmetic::div_mod::lemma_fundamental_div_mod_converse(x - lo, m, k, x - k * m - lo);
}

pub proof fn lemma_wrap_near(x: int, lo: int, m: int)
    requires
        m > 0,
        lo - m <= x < lo + 2 * m,
    ensures
        wrap(x, lo, m) == (if x < lo {
            x + m
        } else if x >= lo + m {
            x - m
        } else {
            x
        }),
{
    if x < lo {
        lemma_wrap_shift(x, lo, m, -1);
    } else if x >= lo + m {
        lemma_wrap_shift(x, lo, m, 1);
    } else {
        lemma_wrap_shift(x, lo, m, 0);
    }
}

/// Wrapping into a signed range agrees with reducing modulo `2h` and then
/// moving the upper half down by `2h`.
pub proof fn lemma_wrap_crop(p: int, h: int)
    requires
        h > 0,
    ensures
        wrap(p, -h, 2 * h) == (if p % (2 * h) > h - 1 {
            p % (2 * h) - 2 * h
        } else {
            p % (2 * h)
        }),
{
    let m = 2 * h;
    let q = p / m;
    let r = p % m;
    vstd::arithmetic::div_mod::lemma_fundamental_div_mod(p, m);
    vstd::arithmetic::div_mod::lemma_mod_bound(p, m);
    assert(m * q == q * m) by (nonlinear_arith);
    assert((q + 1) * m == q * m + m) by (nonlinear_arith);
    if r > h - 1 {
        lemma_wrap_shift(p, -h, m, q + 1);
    } else {
        lemma_wrap_shift(p, -h, m, q);
    }
}

/// Wrapping absorbs any earlier wrapping of one operand.
pub proof fn lemma_wrap_wrap_add(x: int, y: int, lo: int, m: int)
    requires
        m > 0,
    ensures
        wrap(wrap(x, lo, m) + y, lo, m) == wrap(x + y, lo, m),
{
    vstd::arithmetic::div_mod::lemma_add_mod_noop_right(y, x - lo, m);
    assert(wrap(x, lo, m) + y - lo == y + (x - lo) % m);
    assert(x + y - lo == y + (x - lo));
}

pub proof fn lemma_div_bounds(a: int, b: int)
    requires
        a >= 0,
        b >= 1,
    ensures
        0 <= a / b <= a,
        b == 1 ==> a / b == a,
        b >= 2 ==> a / b <= a / 2,
        0 <= a % b < b,
        a % b <= a,
{
    vstd::arithmetic::div_mod::lemma_div_is_ordered_by_denominator(a, 1, b);
    vstd::arithmetic::div_mod::lemma_div_pos_is_pos(a, b);
    vstd::arithmetic::div_mod::lemma_mod_bound(a, b);
    vstd::arithmetic::div_mod::lemma_mod_is_mod_recursive(a, b);
    if b >= 2 {
        vstd::arithmetic::div_mod::lemma_div_is_ordered_by_denominator(a, 2, b);
    }
    if a < b {
        vstd::arithmetic::div_mod::lemma_small_mod(a as nat, b as nat);
    }
    if b == 1 {
        vstd::arithmetic::div_mod::lemma_div_basics(a);
    }
}

/// A scalar that can be stored in the lanes of a mask.
///
/// A canonical mask lane is either all zero bits (false) or all one bits
/// (true). Reading a lane as a truth value looks at its sign.
pub trait MaskPrimitive: Copy + Sized {
    /// The lane is all zero bits or all one bits.
    spec fn valid(self) -> bool;

    /// The lane reads as true.
    spec fn is_set(self) -> bool;

    spec fn spec_not(self) -> Self;

    spec fn spec_and(self, rhs: Self) -> Self;

    spec fn spec_or(self, rhs: Self) -> Self;

    spec fn spec_xor(self, rhs: Self) -> Self;

    /// The canonical lane with the given truth value.
    spec fn spec_from_bool(value: bool) -> Self;

    /// Bitwise operations map canonical lanes to canonical lanes with the
    /// boolean meaning of the operation.
    proof fn lemma_canonical(a: Self, b: Self)
        requires
            a.valid(),
            b.valid(),
        ensures
            a.spec_not().valid(),
            a.spec_not().is_set() == !a.is_set(),
            a.spec_and(b).valid(),
            a.spec_and(b).is_set() == (a.is_set() && b.is_set()),
            a.spec_or(b).valid(),
            a.spec_or(b).is_set() == (a.is_set() || b.is_set()),
            a.spec_xor(b).valid(),
            a.spec_xor(b).is_set() == (a.is_set() != b.is_set()),
            Self::spec_from_bool(a.is_set()) == a,
    ;

    proof fn lemma_from_bool(value: bool)
        ensures
            Self::spec_from_bool(value).valid(),
            Self::spec_from_bool(value).is_set() == value,
    ;

    /// Two canonical lanes with the same truth value are equal.
    proof fn lemma_canonical_eq(a: Self, b: Self)
        requires
            a.valid(),
            b.valid(),
            a.is_set() == b.is_set(),
        ensures
            a == b,
    ;

    fn from_bool(value: bool) -> (r: Self)
        ensures
            r.valid(),
            r.is_set() == value,
            r == Self::spec_from_bool(value),
    ;

    fn is_valid(self) -> (r: bool)
        ensures
            r == self.valid(),
    ;

    fn is_set_(self) -> (r: bool)
        ensures
            r == self.is_set(),
    ;

    fn not(self) -> (r: Self)
        ensures
            r == self.spec_not(),
    ;

    fn bitand(self, rhs: Self) -> (r: Self)
        ensures
            r == self.spec_and(rhs),
    ;

    fn bitor(self, rhs: Self) -> (r: Self)
        ensures
            r == self.spec_or(rhs),
    ;

    fn bitxor(self, rhs: Self) -> (r: Self)
        ensures
            r == self.spec_xor(rhs),
    ;

    /// Picks `true_values` when this lane reads as true.
    fn select(self, true_values: Self, false_values: Self) -> (r: Self)
        ensures
            r == (if self.is_set() {
                true_values
            } else {
                false_values
            }),
    ;
}

/// A scalar lane: a fixed-width integer whose arithmetic wraps.
pub trait Lane: Copy + Sized {
    /// The signed integer scalar used to represent comparison results.
    type Mask: MaskPrimitive;

    /// The mathematical value of the lane.
    spec fn val(self) -> int;

    /// The smallest representable value.
    spec fn lo() -> int;

    /// The number of representable values, `2^bits`.
    spec fn modulus() -> int;

    /// The lane holding `x` reduced into the representable range.
    spec fn from_int(x: int) -> Self;

    proof fn lemma_lane(x: Self)
        ensures
            Self::modulus() > 1,
            Self::lo() <= 0,
            1 < Self::lo() + Self::modulus(),
            Self::lo() <= x.val() < Self::lo() + Self::modulus(),
            Self::from_int(x.val()) == x,
    ;

    proof fn lemma_from_int(x: int)
        ensures
            Self::from_int(x).val() == wrap(x, Self::lo(), Self::modulus()),
    ;

    fn zero_() -> (r: Self)
        ensures
            r.val() == 0,
    ;

    fn one_() -> (r: Self)
        ensures
            r.val() == 1,
    ;

    /// Wrapping addition.
    fn add_(self, rhs: Self) -> (r: Self)
        ensures
            r == Self::from_int(self.val() + rhs.val()),
    ;

    /// Wrapping subtraction.
    fn sub_(self, rhs: Self) -> (r: Self)
        ensures
            r == Self::from_int(self.val() - rhs.val()),
    ;

    /// Wrapping multiplication.
    fn mul_(self, rhs: Self) -> (r: Self)
        ensures
            r == Self::from_int(self.val() * rhs.val()),
    ;

    /// Division rounding toward zero; the only overflowing case wraps.
    fn div_(self, rhs: Self) -> (r: Self)
        requires
            rhs.val() != 0,
        ensures
            r == Self::from_int(tdiv(self.val(), rhs.val())),
    ;

    /// Remainder of the division rounding toward zero.
    fn rem_(self, rhs: Self) -> (r: Self)
        requires
            rhs.val() != 0,
        ensures
            r == Self::from_int(trem(self.val(), rhs.val())),
    ;

    fn eq_(self, rhs: Self) -> (r: bool)
        ensures
            r == (self.val() == rhs.val()),
    ;

    fn lt_(self, rhs: Self) -> (r: bool)
        ensures
            r == (self.val() < rhs.val()),
    ;
}

/// Canonical truth values of `i32` mask lanes, decided by bit patterns.
proof fn lemma_mask_bits_i32(a: i32, b: i32)
    by (bit_vector)
    requires
        a == 0 || a == -1,
        b == 0 || b == -1,
    ensures
        !a == 0 || !a == -1,
        (!a < 0) == !(a < 0),
        (a & b) == 0 || (a & b) == -1,
        ((a & b) < 0) == (a < 0 && b < 0),
        (a | b) == 0 || (a | b) == -1,
        ((a | b) < 0) == (a < 0 || b < 0),
        (a ^ b) == 0 || (a ^ b) == -1,
        ((a ^ b) < 0) == ((a < 0) != (b < 0)),
{
}

impl MaskPrimitive for i32 {
    open spec fn valid(self) -> bool {
        self == 0 || self == -1
    }

    open spec fn is_set(self) -> bool {
        self < 0
    }

    open spec fn spec_not(self) -> i32 {
        !self
    }

    open spec fn spec_and(self, rhs: i32) -> i32 {
        self & rhs
    }

    open spec fn spec_or(self, rhs: i32) -> i32 {
        self | rhs
    }

    open spec fn spec_xor(self, rhs: i32) -> i32 {
        self ^ rhs
    }

    open spec fn spec_from_bool(value: bool) -> i32 {
        if value {
            -1i32
        } else {
            0i32
        }
    }

    proof fn lemma_canonical(a: i32, b: i32) {
        lemma_mask_bits_i32(a, b);
    }

    proof fn lemma_canonical_eq(a: i32, b: i32) {
    }

    proof fn lemma_from_bool(value: bool) {
    }

    fn from_bool(value: bool) -> (r: i32) {
        if value {
            -1
        } else {
            0
        }
    }

    fn is_valid(self) -> (r: bool) {
        self == 0 || self == -1
    }

    fn is_set_(self) -> (r: bool) {
        self < 0
    }

    fn not(self) -> (r: i32) {
        !self
    }

    fn bitand(self, rhs: i32) -> (r: i32) {
        self & rhs
    }

    fn bitor(self, rhs: i32) -> (r: i32) {
        self | rhs
    }

    fn bitxor(self, rhs: i32) -> (r: i32) {
        self ^ rhs
    }

    fn select(self, true_values: i32, false_values: i32) -> (r: i32) {
        if self < 0 {
            true_values
        } else {
            false_values
        }
    }
}

/// Canonical truth values of `i64` mask lanes, decided by bit patterns.
proof fn lemma_mask_bits_i64(a: i64, b: i64)
    by (bit_vector)
    requires
        a == 0 || a == -1,
        b == 0 || b == -1,
    ensures
        !a == 0 || !a == -1,
        (!a < 0) == !(a < 0),
        (a & b) == 0 || (a & b) == -1,
        ((a & b) < 0) == (a < 0 && b < 0),
        (a | b) == 0 || (a | b) == -1,
        ((a | b) < 0) == (a < 0 || b < 0),
        (a ^ b) == 0 || (a ^ b) == -1,
        ((a ^ b) < 0) == ((a < 0) != (b < 0)),
{
}

impl MaskPrimitive for i64 {
    open spec fn valid(self) -> bool {
        self == 0 || self == -1
    }

    open spec fn is_set(self) -> bool {
        self < 0
    }

    open spec fn spec_not(self) -> i64 {
        !self
    }

    open spec fn spec_and(self, rhs: i64) -> i64 {
        self & rhs
    }

    open spec fn spec_or(self, rhs: i64) -> i64 {
        self | rhs
    }

    open spec fn spec_xor(self, rhs: i64) -> i64 {
        self ^ rhs
    }

    open spec fn spec_from_bool(value: bool) -> i64 {
        if value {
            -1i64
        } else {
            0i64
        }
    }

    proof fn lemma_canonical(a: i64, b: i64) {
        lemma_mask_bits_i64(a, b);
    }

    proof fn lemma_canonical_eq(a: i64, b: i64) {
    }

    proof fn lemma_from_bool(value: bool) {
    }

    fn from_bool(value: bool) -> (r: i64) {
        if value {
            -1
        } else {
            0
        }
    }

    fn is_valid(self) -> (r: bool) {
        self == 0 || self == -1
    }

    fn is_set_(self) -> (r: bool) {
        self < 0
    }

    fn not(self) -> (r: i64) {
        !self
    }

    fn bitand(self, rhs: i64) -> (r: i64) {
        self & rhs
    }

    fn bitor(self, rhs: i64) -> (r: i64) {
        self | rhs
    }

    fn bitxor(self, rhs: i64) -> (r: i64) {
        self ^ rhs
    }

    fn select(self, true_values: i64, false_values: i64) -> (r: i64) {
        if self < 0 {
            true_values
        } else {
            false_values
        }
    }
}

impl Lane for i32 {
    type Mask = i32;

    open spec fn val(self) -> int {
        self as int
    }

    open spec fn lo() -> int {
        -0x8000_0000
    }

    open spec fn modulus() -> int {
        0x1_0000_0000
    }

    open spec fn from_int(x: int) -> i32 {
        wrap(x, -0x8000_0000, 0x1_0000_0000) as i32
    }

    proof fn lemma_lane(x: i32) {
        lemma_wrap_shift(x as int, -0x8000_0000, 0x1_0000_0000, 0);
    }

    proof fn lemma_from_int(x: int) {
        lemma_wrap_range(x, -0x8000_0000, 0x1_0000_0000);
    }

    fn zero_() -> (r: i32) {
        0
    }

    fn one_() -> (r: i32) {
        1
    }

    fn add_(self, rhs: i32) -> (r: i32) {
        proof {
            lemma_wrap_near(self as int + rhs as int, -0x8000_0000, 0x1_0000_0000);
        }
        self.wrapping_add(rhs)
    }

    fn sub_(self, rhs: i32) -> (r: i32) {
        proof {
            lemma_wrap_near(self as int - rhs as int, -0x8000_0000, 0x1_0000_0000);
        }
        self.wrapping_sub(rhs)
    }

    fn mul_(self, rhs: i32) -> (r: i32) {
        proof {
            lemma_wrap_crop(self as int * rhs as int, 0x8000_0000);
        }
        self.wrapping_mul(rhs)
    }

    fn div_(self, rhs: i32) -> (r: i32) {
        if rhs == -1 {
            proof {
                lemma_div_bounds(abs(self as int), 1);
                lemma_wrap_near(0 - self as int, -0x8000_0000, 0x1_0000_0000);
            }
            0i32.wrapping_sub(self)
        } else {
            proof {
                lemma_div_bounds(abs(self as int), abs(rhs as int));
                lemma_wrap_shift(tdiv(self as int, rhs as int), -0x8000_0000, 0x1_0000_0000, 0);
            }
            match self.checked_div(rhs) {
                Some(q) => q,
                None => {
                    proof {
                        assert(false);
                    }
                    0
                },
            }
        }
    }

    fn rem_(self, rhs: i32) -> (r: i32) {
        proof {
            lemma_div_bounds(abs(self as int), abs(rhs as int));
            lemma_wrap_shift(trem(self as int, rhs as int), -0x8000_0000, 0x1_0000_0000, 0);
        }
        if rhs == -1 {
            0
        } else {
            match self.checked_rem(rhs) {
                Some(q) => q,
                None => {
                    proof {
                        assert(false);
                    }
                    0
                },
            }
        }
    }

    fn eq_(self, rhs: i32) -> (r: bool) {
        self == rhs
    }

    fn lt_(self, rhs: i32) -> (r: bool) {
        self < rhs
    }
}

impl Lane for i64 {
    type Mask = i64;

    open spec fn val(self) -> int {
        self as int
    }

    open spec fn lo() -> int {
        -0x8000_0000_0000_0000
    }

    open spec fn modulus() -> int {
        0x1_0000_0000_0000_0000
    }

    open spec fn from_int(x: int) -> i64 {
        wrap(x, -0x8000_0000_0000_0000, 0x1_0000_0000_0000_0000) as i64
    }

    proof fn lemma_lane(x: i64) {
        lemma_wrap_shift(x as int, -0x8000_0000_0000_0000, 0x1_0000_0000_0000_0000, 0);
    }

    proof fn lemma_from_int(x: int) {
        lemma_wrap_range(x, -0x8000_0000_0000_0000, 0x1_0000_0000_0000_0000);
    }

    fn zero_() -> (r: i64) {
        0
    }

    fn one_() -> (r: i64) {
        1
    }

    fn add_(self, rhs: i64) -> (r: i64) {
        proof {
            lemma_wrap_near(self as int + rhs as int, -0x8000_0000_0000_0000, 0x1_0000_0000_0000_0000);
        }
        self.wrapping_add(rhs)
    }

    fn sub_(self, rhs: i64) -> (r: i64) {
        proof {
            lemma_wrap_near(self as int - rhs as int, -0x8000_0000_0000_0000, 0x1_0000_0000_0000_0000);
        }
        self.wrapping_sub(rhs)
    }

    fn mul_(self, rhs: i64) -> (r: i64) {
        proof {
            lemma_wrap_crop(self as int * rhs as int, 0x8000_0000_0000_0000);
        }
        self.wrapping_mul(rhs)
    }

    fn div_(self, rhs: i64) -> (r: i64) {
        if rhs == -1 {
            proof {
                lemma_div_bounds(abs(self as int), 1);
                lemma_wrap_near(0 - self as int, -0x8000_0000_0000_0000, 0x1_0000_0000_0000_0000);
            }
            0i64.wrapping_sub(self)
        } else {
            proof {
                lemma_div_bounds(abs(self as int), abs(rhs as int));
                lemma_wrap_shift(tdiv(self as int, rhs as int), -0x8000_0000_0000_0000, 0x1_0000_0000_0000_0000, 0);
            }
            match self.checked_div(rhs) {
                Some(q) => q,
                None => {
                    proof {
                        assert(false);
                    }
                    0
                },
            }
        }
    }

    fn rem_(self, rhs: i64) -> (r: i64) {
        proof {
            lemma_div_bounds(abs(self as int), abs(rhs as int));
            lemma_wrap_shift(trem(self as int, rhs as int), -0x8000_0000_0000_0000, 0x1_0000_0000_0000_0000, 0);
        }
        if rhs == -1 {
            0
        } else {
            match self.checked_rem(rhs) {
                Some(q) => q,
                None => {
                    proof {
                        assert(false);
                    }
                    0
                },
            }
        }
    }

    fn eq_(self, rhs: i64) -> (r: bool) {
        self == rhs
    }

    fn lt_(self, rhs: i64) -> (r: bool) {
        self < rhs
    }
}

impl Lane for u32 {
    type Mask = i32;

    open spec fn val(self) -> int {
        self as int
    }

    open spec fn lo() -> int {
        0
    }

    open spec fn modulus() -> int {
        0x1_0000_0000
    }

    open spec fn from_int(x: int) -> u32 {
        wrap(x, 0, 0x1_0000_0000) as u32
    }

    proof fn lemma_lane(x: u32) {
        lemma_wrap_shift(x as int, 0, 0x1_0000_0000, 0);
    }

    proof fn lemma_from_int(x: int) {
        lemma_wrap_range(x, 0, 0x1_0000_0000);
    }

    fn zero_() -> (r: u32) {
        0
    }

    fn one_() -> (r: u32) {
        1
    }

    fn add_(self, rhs: u32) -> (r: u32) {
        proof {
            lemma_wrap_near(self as int + rhs as int, 0, 0x1_0000_0000);
        }
        self.wrapping_add(rhs)
    }

    fn sub_(self, rhs: u32) -> (r: u32) {
        proof {
            lemma_wrap_near(self as int - rhs as int, 0, 0x1_0000_0000);
        }
        self.wrapping_sub(rhs)
    }

    fn mul_(self, rhs: u32) -> (r: u32) {
        self.wrapping_mul(rhs)
    }

    fn div_(self, rhs: u32) -> (r: u32) {
        proof {
            lemma_div_bounds(self as int, rhs as int);
            lemma_wrap_shift(self as int / rhs as int, 0, 0x1_0000_0000, 0);
        }
        self / rhs
    }

    fn rem_(self, rhs: u32) -> (r: u32) {
        proof {
            lemma_div_bounds(self as int, rhs as int);
            lemma_wrap_shift(self as int % rhs as int, 0, 0x1_0000_0000, 0);
        }
        self % rhs
    }

    fn eq_(self, rhs: u32) -> (r: bool) {
        self == rhs
    }

    fn lt_(self, rhs: u32) -> (r: bool) {
        self < rhs
    }
}

impl Lane for u64 {
    type Mask = i64;

    open spec fn val(self) -> int {
        self as int
    }

    open spec fn lo() -> int {
        0
    }

    open spec fn modulus() -> int {
        0x1_0000_0000_0000_0000
    }

    open spec fn from_int(x: int) -> u64 {
        wrap(x, 0, 0x1_0000_0000_0000_0000) as u64
    }

    proof fn lemma_lane(x: u64) {
        lemma_wrap_shift(x as int, 0, 0x1_0000_0000_0000_0000, 0);
    }

    proof fn lemma_from_int(x: int) {
        lemma_wrap_range(x, 0, 0x1_0000_0000_0000_0000);
    }

    fn zero_() -> (r: u64) {
        0
    }

    fn one_() -> (r: u64) {
        1
    }

    fn add_(self, rhs: u64) -> (r: u64) {
        proof {
            lemma_wrap_near(self as int + rhs as int, 0, 0x1_0000_0000_0000_0000);
        }
        self.wrapping_add(rhs)
    }

    fn sub_(self, rhs: u64) -> (r: u64) {
        proof {
            lemma_wrap_near(self as int - rhs as int, 0, 0x1_0000_0000_0000_0000);
        }
        self.wrapping_sub(rhs)
    }

    fn mul_(self, rhs: u64) -> (r: u64) {
        self.wrapping_mul(rhs)
    }

    fn div_(self, rhs: u64) -> (r: u64) {
        proof {
            lemma_div_bounds(self as int, rhs as int);
            lemma_wrap_shift(self as int / rhs as int, 0, 0x1_0000_0000_0000_0000, 0);
        }
        self / rhs
    }

    fn rem_(self, rhs: u64) -> (r: u64) {
        proof {
            lemma_div_bounds(self as int, rhs as int);
            lemma_wrap_shift(self as int % rhs as int, 0, 0x1_0000_0000_0000_0000, 0);
        }
        self % rhs
    }

    fn eq_(self, rhs: u64) -> (r: bool) {
        self == rhs
    }

    fn lt_(self, rhs: u64) -> (r: bool) {
        self < rhs
    }
}
/// Marks a lane type that a lane of type `T` converts into with Rust's `as`
/// conversion.
pub trait CastFrom<T: Lane>: Lane {
    /// The conversion keeps the value of `x` modulo `2^bits` of `Self`.
    fn cast_from(x: T) -> (r: Self)
        ensures
            r == Self::from_int(x.val()),
    ;
}

impl CastFrom<i32> for i32 {
    fn cast_from(x: i32) -> (r: i32) {
        proof {
            <i32 as Lane>::lemma_lane(x);
        }
        x as i32
    }
}

impl CastFrom<i64> for i32 {
    fn cast_from(x: i64) -> (r: i32) {
        proof {
            assert((x as i32) as int == ((x as int + 0x8000_0000) % 0x1_0000_0000) - 0x8000_0000) by (bit_vector);
        }
        x as i32
    }
}

impl CastFrom<u32> for i32 {
    fn cast_from(x: u32) -> (r: i32) {
        proof {
            assert((x as i32) as int == ((x as int + 0x8000_0000) % 0x1_0000_0000) - 0x8000_0000) by (bit_vector);
        }
        x as i32
    }
}

impl CastFrom<u64> for i32 {
    fn cast_from(x: u64) -> (r: i32) {
        proof {
            assert((x as i32) as int == ((x as int + 0x8000_0000) % 0x1_0000_0000) - 0x8000_0000) by (bit_vector);
        }
        x as i32
    }
}

impl CastFrom<i32> for i64 {
    fn cast_from(x: i32) -> (r: i64) {
        proof {
            assert((x as i64) as int == ((x as int + 0x8000_0000_0000_0000) % 0x1_0000_0000_0000_0000) - 0x8000_0000_0000_0000) by (bit_vector);
        }
        x as i64
    }
}

impl CastFrom<i64> for i64 {
    fn cast_from(x: i64) -> (r: i64) {
        proof {
            <i64 as Lane>::lemma_lane(x);
        }
        x as i64
    }
}

impl CastFrom<u32> for i64 {
    fn cast_from(x: u32) -> (r: i64) {
        proof {
            assert((x as i64) as int == ((x as int + 0x8000_0000_0000_0000) % 0x1_0000_0000_0000_0000) - 0x8000_0000_0000_0000) by (bit_vector);
        }
        x as i64
    }
}

impl CastFrom<u64> for i64 {
    fn cast_from(x: u64) -> (r: i64) {
        proof {
            assert((x as i64) as int == ((x as int + 0x8000_0000_0000_0000) % 0x1_0000_0000_0000_0000) - 0x8000_0000_0000_0000) by (bit_vector);
        }
        x as i64
    }
}

impl CastFrom<i32> for u32 {
    fn cast_from(x: i32) -> (r: u32) {
        proof {
            assert((x as u32) as int == (x as int) % 0x1_0000_0000) by (bit_vector);
        }
        x as u32
    }
}

impl CastFrom<i64> for u32 {
    fn cast_from(x: i64) -> (r: u32) {
        proof {
            assert((x as u32) as int == (x as int) % 0x1_0000_0000) by (bit_vector);
        }
        x as u32
    }
}

impl CastFrom<u32> for u32 {
    fn cast_from(x: u32) -> (r: u32) {
        proof {
            <u32 as Lane>::lemma_lane(x);
        }
        x as u32
    }
}

impl CastFrom<u64> for u32 {
    fn cast_from(x: u64) -> (r: u32) {
        proof {
            assert((x as u32) as int == (x as int) % 0x1_0000_0000) by (bit_vector);
        }
        x as u32
    }
}

impl CastFrom<i32> for u64 {
    fn cast_from(x: i32) -> (r: u64) {
        proof {
            assert((x as u64) as int == (x as int) % 0x1_0000_0000_0000_0000) by (bit_vector);
        }
        x as u64
    }
}

impl CastFrom<i64> for u64 {
    fn cast_from(x: i64) -> (r: u64) {
        proof {
            assert((x as u64) as int == (x as int) % 0x1_0000_0000_0000_0000) by (bit_vector);
        }
        x as u64
    }
}

impl CastFrom<u32> for u64 {
    fn cast_from(x: u32) -> (r: u64) {
        proof {
            assert((x as u64) as int == (x as int) % 0x1_0000_0000_0000_0000) by (bit_vector);
        }
        x as u64
    }
}

impl CastFrom<u64> for u64 {
    fn cast_from(x: u64) -> (r: u64) {
        proof {
            <u64 as Lane>::lemma_lane(x);
        }
        x as u64
    }
}

/// Groups the wrapping arithmetic of numeric lanes.
pub trait NumOps: Lane {
}

/// Groups the bitwise operations of integer lanes.
pub trait BitOps: Lane {
}

/// Marks signed lane types.
pub trait Signed: Lane {
    proof fn lemma_signed()
        ensures
            Self::lo() < 0,
    ;

    /// Wrapping negation; the minimum value maps to itself.
    fn neg_(self) -> (r: Self)
        ensures
            r == Self::from_int(-self.val()),
    ;

    /// Wrapping absolute value; the minimum value maps to itself.
    fn abs_(self) -> (r: Self)
        ensures
            r == Self::from_int(abs(self.val())),
    ;
}

/// Marks unsigned lane types.
pub trait Unsigned: Lane {
    proof fn lemma_unsigned()
        ensures
            Self::lo() == 0,
    ;
}

/// Associates an integer lane type with its signed and unsigned forms of the
/// same width, and provides the bitwise operations.
pub trait Int: NumOps + BitOps {
    /// The signed type with the same lane width.
    type Signed: Element;

    /// The unsigned type with the same lane width.
    type Unsigned: Element;

    spec fn not_spec(self) -> Self;

    spec fn and_spec(self, rhs: Self) -> Self;

    spec fn or_spec(self, rhs: Self) -> Self;

    spec fn xor_spec(self, rhs: Self) -> Self;

    /// Left shift by `rhs` modulo the bit width.
    spec fn shl_spec(self, rhs: Self) -> Self;

    /// Right shift (arithmetic for signed lanes) by `rhs` modulo the bit width.
    spec fn shr_spec(self, rhs: Self) -> Self;

    /// The number of bits in a lane.
    spec fn bits() -> nat;

    /// What the bitwise operations compute, by value: `!x == -1 - x`,
    /// `x | y == x + y - (x & y)` and `x ^ y == x + y - 2 * (x & y)`, each
    /// wrapped into the lane's range; `x & x == x`; and bit `k` of `x & y`
    /// (in two's complement) is set exactly when bit `k` is set in both `x`
    /// and `y`.
    proof fn lemma_bitwise(x: Self, y: Self)
        ensures
            pow2(Self::bits()) == Self::modulus(),
            x.not_spec() == Self::from_int(-1 - x.val()),
            x.or_spec(y) == Self::from_int(x.val() + y.val() - x.and_spec(y).val()),
            x.xor_spec(y) == Self::from_int(x.val() + y.val() - 2 * x.and_spec(y).val()),
            x.and_spec(x) == x,
            forall|k: nat|
                k < Self::bits() ==> #[trigger] bit(wrap(x.and_spec(y).val(), 0, Self::modulus()), k) == (
                bit(wrap(x.val(), 0, Self::modulus()), k) && bit(wrap(y.val(), 0, Self::modulus()), k)),
    ;

    /// What the shifts compute, by value: the count `s` is taken modulo the
    /// lane width; a left shift multiplies by two to that power and wraps,
    /// and a right shift divides by it rounding down (arithmetic for signed
    /// lanes).
    proof fn lemma_shifts(x: Self, s: Self)
        ensures
            x.shl_spec(s) == Self::from_int(x.val() * pow2(shift_count(s.val(), Self::bits())) as int),
            x.shr_spec(s).val() == x.val() / (pow2(shift_count(s.val(), Self::bits())) as int),
    ;

    proof fn lemma_int_forms()
        ensures
            <Self::Unsigned as Lane>::lo() == 0,
            <Self::Unsigned as Lane>::modulus() == Self::modulus(),
            <Self::Signed as Lane>::modulus() == Self::modulus(),
            <Self::Signed as Lane>::lo() * -2 == Self::modulus(),
    ;

    fn not_(self) -> (r: Self)
        ensures
            r == self.not_spec(),
    ;

    fn bitand_(self, rhs: Self) -> (r: Self)
        ensures
            r == self.and_spec(rhs),
    ;

    fn bitor_(self, rhs: Self) -> (r: Self)
        ensures
            r == self.or_spec(rhs),
    ;

    fn bitxor_(self, rhs: Self) -> (r: Self)
        ensures
            r == self.xor_spec(rhs),
    ;

    fn shl_(self, rhs: Self) -> (r: Self)
        ensures
            r == self.shl_spec(rhs),
    ;

    fn shr_(self, rhs: Self) -> (r: Self)
        ensures
            r == self.shr_spec(rhs),
    ;

    /// Reinterprets the bits as the signed type of the same width.
    fn cast_signed_(self) -> (r: Self::Signed)
        ensures
            r == <Self::Signed as Lane>::from_int(self.val()),
    ;

    /// Reinterprets the bits as the unsigned type of the same width.
    fn cast_unsigned_(self) -> (r: Self::Unsigned)
        ensures
            r == <Self::Unsigned as Lane>::from_int(self.val()),
    ;
}

/// Marks signed integer lane types.
pub trait Sint: Signed + Int {
}

/// Marks unsigned integer lane types.
pub trait Uint: Unsigned + Int {
}

/// Marks scalar types stored in a directly referenceable form.
pub trait StoredVerbatim: Lane {
}

impl NumOps for i32 {
}

impl BitOps for i32 {
}

impl StoredVerbatim for i32 {
}

impl Signed for i32 {
    proof fn lemma_signed() {
    }

    fn neg_(self) -> (r: i32) {
        proof {
            lemma_wrap_near(0 - self as int, -0x8000_0000, 0x1_0000_0000);
        }
        0i32.wrapping_sub(self)
    }

    fn abs_(self) -> (r: i32) {
        proof {
            lemma_wrap_near(0 - self as int, -0x8000_0000, 0x1_0000_0000);
            lemma_wrap_shift(self as int, -0x8000_0000, 0x1_0000_0000, 0);
        }
        if self < 0 {
            0i32.wrapping_sub(self)
        } else {
            self
        }
    }
}

impl Sint for i32 {
}

impl Int for i32 {
    type Signed = i32;

    type Unsigned = u32;

    open spec fn not_spec(self) -> i32 {
        !self
    }

    open spec fn and_spec(self, rhs: i32) -> i32 {
        self & rhs
    }

    open spec fn or_spec(self, rhs: i32) -> i32 {
        self | rhs
    }

    open spec fn xor_spec(self, rhs: i32) -> i32 {
        self ^ rhs
    }

    open spec fn shl_spec(self, rhs: i32) -> i32 {
        vstd::wrapping::i32_specs::wrapping_shl(self, rhs as u32)
    }

    open spec fn shr_spec(self, rhs: i32) -> i32 {
        vstd::wrapping::i32_specs::wrapping_shr(self, rhs as u32)
    }

    open spec fn bits() -> nat {
        32
    }

    proof fn lemma_bitwise(x: i32, y: i32) {
        crate::lane_bits::lemma_pow2_widths();
        crate::lane_bits::lemma_i32_bitwise(x, y);
        <i32 as Lane>::lemma_from_int(-1 - x as int);
        <i32 as Lane>::lemma_from_int(x as int + y as int - (x & y) as int);
        <i32 as Lane>::lemma_from_int(x as int + y as int - 2 * (x & y) as int);
    }

    proof fn lemma_shifts(x: i32, s: i32) {
        crate::lane_bits::lemma_i32_shifts(x, s);
        <i32 as Lane>::lemma_from_int(x as int * pow2(shift_count(s as int, 32)) as int);
    }

    proof fn lemma_int_forms() {
    }

    fn not_(self) -> (r: i32) {
        !self
    }

    fn bitand_(self, rhs: i32) -> (r: i32) {
        self & rhs
    }

    fn bitor_(self, rhs: i32) -> (r: i32) {
        self | rhs
    }

    fn bitxor_(self, rhs: i32) -> (r: i32) {
        self ^ rhs
    }

    fn shl_(self, rhs: i32) -> (r: i32) {
        self.wrapping_shl(rhs as u32)
    }

    fn shr_(self, rhs: i32) -> (r: i32) {
        self.wrapping_shr(rhs as u32)
    }

    fn cast_signed_(self) -> (r: i32) {
        <i32 as CastFrom<i32>>::cast_from(self)
    }

    fn cast_unsigned_(self) -> (r: u32) {
        <u32 as CastFrom<i32>>::cast_from(self)
    }
}

impl NumOps for i64 {
}

impl BitOps for i64 {
}

impl StoredVerbatim for i64 {
}

impl Signed for i64 {
    proof fn lemma_signed() {
    }

    fn neg_(self) -> (r: i64) {
        proof {
            lemma_wrap_near(0 - self as int, -0x8000_0000_0000_0000, 0x1_0000_0000_0000_0000);
        }
        0i64.wrapping_sub(self)
    }

    fn abs_(self) -> (r: i64) {
        proof {
            lemma_wrap_near(0 - self as int, -0x8000_0000_0000_0000, 0x1_0000_0000_0000_0000);
            lemma_wrap_shift(self as int, -0x8000_0000_0000_0000, 0x1_0000_0000_0000_0000, 0);
        }
        if self < 0 {
            0i64.wrapping_sub(self)
        } else {
            self
        }
    }
}

impl Sint for i64 {
}

impl Int for i64 {
    type Signed = i64;

    type Unsigned = u64;

    open spec fn not_spec(self) -> i64 {
        !self
    }

    open spec fn and_spec(self, rhs: i64) -> i64 {
        self & rhs
    }

    open spec fn or_spec(self, rhs: i64) -> i64 {
        self | rhs
    }

    open spec fn xor_spec(self, rhs: i64) -> i64 {
        self ^ rhs
    }

    open spec fn shl_spec(self, rhs: i64) -> i64 {
        vstd::wrapping::i64_specs::wrapping_shl(self, rhs as u32)
    }

    open spec fn shr_spec(self, rhs: i64) -> i64 {
        vstd::wrapping::i64_specs::wrapping_shr(self, rhs as u32)
    }

    open spec fn bits() -> nat {
        64
    }

    proof fn lemma_bitwise(x: i64, y: i64) {
        crate::lane_bits::lemma_pow2_widths();
        crate::lane_bits::lemma_i64_bitwise(x, y);
        <i64 as Lane>::lemma_from_int(-1 - x as int);
        <i64 as Lane>::lemma_from_int(x as int + y as int - (x & y) as int);
        <i64 as Lane>::lemma_from_int(x as int + y as int - 2 * (x & y) as int);
    }

    proof fn lemma_shifts(x: i64, s: i64) {
        crate::lane_bits::lemma_i64_shifts(x, s);
        <i64 as Lane>::lemma_from_int(x as int * pow2(shift_count(s as int, 64)) as int);
    }

    proof fn lemma_int_forms() {
    }

    fn not_(self) -> (r: i64) {
        !self
    }

    fn bitand_(self, rhs: i64) -> (r: i64) {
        self & rhs
    }

    fn bitor_(self, rhs: i64) -> (r: i64) {
        self | rhs
    }

    fn bitxor_(self, rhs: i64) -> (r: i64) {
        self ^ rhs
    }

    fn shl_(self, rhs: i64) -> (r: i64) {
        self.wrapping_shl(rhs as u32)
    }

    fn shr_(self, rhs: i64) -> (r: i64) {
        self.wrapping_shr(rhs as u32)
    }

    fn cast_signed_(self) -> (r: i64) {
        <i64 as CastFrom<i64>>::cast_from(self)
    }

    fn cast_unsigned_(self) -> (r: u64) {
        <u64 as CastFrom<i64>>::cast_from(self)
    }
}

impl NumOps for u32 {
}

impl BitOps for u32 {
}

impl StoredVerbatim for u32 {
}

impl Unsigned for u32 {
    proof fn lemma_unsigned() {
    }
}

impl Uint for u32 {
}

impl Int for u32 {
    type Signed = i32;

    type Unsigned = u32;

    open spec fn not_spec(self) -> u32 {
        !self
    }

    open spec fn and_spec(self, rhs: u32) -> u32 {
        self & rhs
    }

    open spec fn or_spec(self, rhs: u32) -> u32 {
        self | rhs
    }

    open spec fn xor_spec(self, rhs: u32) -> u32 {
        self ^ rhs
    }

    open spec fn shl_spec(self, rhs: u32) -> u32 {
        vstd::wrapping::u32_specs::wrapping_shl(self, rhs)
    }

    open spec fn shr_spec(self, rhs: u32) -> u32 {
        vstd::wrapping::u32_specs::wrapping_shr(self, rhs)
    }

    open spec fn bits() -> nat {
        32
    }

    proof fn lemma_bitwise(x: u32, y: u32) {
        crate::lane_bits::lemma_pow2_widths();
        crate::lane_bits::lemma_u32_bitwise(x, y);
        <u32 as Lane>::lemma_from_int(-1 - x as int);
        <u32 as Lane>::lemma_from_int(x as int + y as int - (x & y) as int);
        <u32 as Lane>::lemma_from_int(x as int + y as int - 2 * (x & y) as int);
    }

    proof fn lemma_shifts(x: u32, s: u32) {
        crate::lane_bits::lemma_u32_shifts(x, s);
        <u32 as Lane>::lemma_from_int(x as int * pow2(shift_count(s as int, 32)) as int);
    }

    proof fn lemma_int_forms() {
    }

    fn not_(self) -> (r: u32) {
        !self
    }

    fn bitand_(self, rhs: u32) -> (r: u32) {
        self & rhs
    }

    fn bitor_(self, rhs: u32) -> (r: u32) {
        self | rhs
    }

    fn bitxor_(self, rhs: u32) -> (r: u32) {
        self ^ rhs
    }

    fn shl_(self, rhs: u32) -> (r: u32) {
        self.wrapping_shl(rhs)
    }

    fn shr_(self, rhs: u32) -> (r: u32) {
        self.wrapping_shr(rhs)
    }

    fn cast_signed_(self) -> (r: i32) {
        <i32 as CastFrom<u32>>::cast_from(self)
    }

    fn cast_unsigned_(self) -> (r: u32) {
        <u32 as CastFrom<u32>>::cast_from(self)
    }
}

impl NumOps for u64 {
}

impl BitOps for u64 {
}

impl StoredVerbatim for u64 {
}

impl Unsigned for u64 {
    proof fn lemma_unsigned() {
    }
}

impl Uint for u64 {
}

impl Int for u64 {
    type Signed = i64;

    type Unsigned = u64;

    open spec fn not_spec(self) -> u64 {
        !self
    }

    open spec fn and_spec(self, rhs: u64) -> u64 {
        self & rhs
    }

    open spec fn or_spec(self, rhs: u64) -> u64 {
        self | rhs
    }

    open spec fn xor_spec(self, rhs: u64) -> u64 {
        self ^ rhs
    }

    open spec fn shl_spec(self, rhs: u64) -> u64 {
        vstd::wrapping::u64_specs::wrapping_shl(self, rhs as u32)
    }

    open spec fn shr_spec(self, rhs: u64) -> u64 {
        vstd::wrapping::u64_specs::wrapping_shr(self, rhs as u32)
    }

    open spec fn bits() -> nat {
        64
    }

    proof fn lemma_bitwise(x: u64, y: u64) {
        crate::lane_bits::lemma_pow2_widths();
        crate::lane_bits::lemma_u64_bitwise(x, y);
        <u64 as Lane>::lemma_from_int(-1 - x as int);
        <u64 as Lane>::lemma_from_int(x as int + y as int - (x & y) as int);
        <u64 as Lane>::lemma_from_int(x as int + y as int - 2 * (x & y) as int);
    }

    proof fn lemma_shifts(x: u64, s: u64) {
        crate::lane_bits::lemma_u64_shifts(x, s);
        <u64 as Lane>::lemma_from_int(x as int * pow2(shift_count(s as int, 64)) as int);
    }

    proof fn lemma_int_forms() {
    }

    fn not_(self) -> (r: u64) {
        !self
    }

    fn bitand_(self, rhs: u64) -> (r: u64) {
        self & rhs
    }

    fn bitor_(self, rhs: u64) -> (r: u64) {
        self | rhs
    }

    fn bitxor_(self, rhs: u64) -> (r: u64) {
        self ^ rhs
    }

    fn shl_(self, rhs: u64) -> (r: u64) {
        self.wrapping_shl(rhs as u32)
    }

    fn shr_(self, rhs: u64) -> (r: u64) {
        self.wrapping_shr(rhs as u32)
    }

    fn cast_signed_(self) -> (r: i64) {
        <i64 as CastFrom<u64>>::cast_from(self)
    }

    fn cast_unsigned_(self) -> (r: u64) {
        <u64 as CastFrom<u64>>::cast_from(self)
    }
}

} // verus!
