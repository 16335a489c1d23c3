//! The bit-level operations of the lane types stated over their values: what
//! negation, conjunction, disjunction, exclusive or and the shifts compute.
use vstd::arithmetic::div_mod::{
    lemma_fundamental_div_mod, lemma_fundamental_div_mod_converse, lemma_mod_bound,
    lemma_mod_mod, lemma_mul_mod_noop_left, lemma_mul_mod_noop_right, lemma_small_mod,
    lemma_sub_mod_noop,
};
use vstd::arithmetic::power2::{lemma2_to64, lemma2_to64_rest, lemma_pow2_adds, lemma_pow2_pos, pow2};
use vstd::bits::{lemma_u32_shr_is_div, lemma_u64_shr_is_div};
use vstd::prelude::*;

use crate::marker::wrap;

verus! {

/// Bit `k` of a non-negative integer.
pub open spec fn bit(n: int, k: nat) -> bool {
    (n / (pow2(k) as int)) % 2 == 1
}

/// The shift amount that a shift count `s` selects on lanes of `bits` bits.
pub open spec fn shift_count(s: int, bits: nat) -> nat {
    (s % (bits as int)) as nat
}

/// A value congruent to `w` modulo `m`, with `w` in range, wraps to `w`.
pub proof fn lemma_wrap_congruent_value(v: int, w: int, lo: int, m: int)
    requires
        m > 0,
        lo <= w < lo + m,
        v % m == w % m,
    ensures
        wrap(v, lo, m) == w,
{
    lemma_sub_mod_noop(v, lo, m);
    lemma_sub_mod_noop(w, lo, m);
    lemma_small_mod((w - lo) as nat, m as nat);
}

/// Rounding down a negative quotient: `(-1 - y) / p == -1 - y / p`.
proof fn lemma_floor_neg(y: int, p: int)
    requires
        y >= 0,
        p > 0,
    ensures
        (-1 - y) / p == -1 - y / p,
{
    lemma_fundamental_div_mod(y, p);
    lemma_mod_bound(y, p);
    let q = y / p;
    let r = y % p;
    assert(-1 - y == (-1 - q) * p + (p - 1 - r)) by (nonlinear_arith)
        requires
            y == p * q + r,
    ;
    lemma_fundamental_div_mod_converse(-1 - y, p, -1 - q, p - 1 - r);
}

/// `2^32` and `2^64`.
pub proof fn lemma_pow2_widths()
    ensures
        pow2(32) == 0x1_0000_0000,
        pow2(64) == 0x1_0000_0000_0000_0000,
{
    lemma2_to64();
    lemma2_to64_rest();
}

// ---------------------------------------------------------------------------
// Bit-vector facts, one group per lane width.
// ---------------------------------------------------------------------------

proof fn lemma_u32_logic(x: u32, y: u32, k: u32)
    by (bit_vector)
    requires
        k < 32,
    ensures
        (!x) as int == 0xffff_ffff - x as int,
        (x | y) as int == x as int + y as int - (x & y) as int,
        (x ^ y) as int == x as int + y as int - 2 * ((x & y) as int),
        x & x == x,
        (((x & y) >> k) % 2 == 1) == (((x >> k) % 2 == 1) && ((y >> k) % 2 == 1)),
{
}

proof fn lemma_u32_shl_facts(x: u32, z: u32, k: u32)
    by (bit_vector)
    requires
        k < 32,
    ensures
        x << 0u32 == x,
        ((z << 1u32) as int) == (2 * z as int) % 0x1_0000_0000,
        k > 0 ==> x << k == (x << ((k - 1) as u32)) << 1u32,
{
}

proof fn lemma_u64_logic(x: u64, y: u64, k: u64)
    by (bit_vector)
    requires
        k < 64,
    ensures
        (!x) as int == 0xffff_ffff_ffff_ffff - x as int,
        (x | y) as int == x as int + y as int - (x & y) as int,
        (x ^ y) as int == x as int + y as int - 2 * ((x & y) as int),
        x & x == x,
        (((x & y) >> k) % 2 == 1) == (((x >> k) % 2 == 1) && ((y >> k) % 2 == 1)),
{
}

proof fn lemma_u64_shl_facts(x: u64, z: u64, k: u64)
    by (bit_vector)
    requires
        k < 64,
    ensures
        x << 0u64 == x,
        ((z << 1u64) as int) == (2 * z as int) % 0x1_0000_0000_0000_0000,
        k > 0 ==> x << k == (x << ((k - 1) as u64)) << 1u64,
{
}

proof fn lemma_i32_facts(x: i32, y: i32)
    by (bit_vector)
    ensures
        (!x) as int == -1 - x as int,
        (x | y) as int == x as int + y as int - (x & y) as int,
        (x ^ y) as int == x as int + y as int - 2 * ((x & y) as int),
        x & x == x,
        (x & y) as u32 == (x as u32) & (y as u32),
{
}

proof fn lemma_i64_facts(x: i64, y: i64)
    by (bit_vector)
    ensures
        (!x) as int == -1 - x as int,
        (x | y) as int == x as int + y as int - (x & y) as int,
        (x ^ y) as int == x as int + y as int - 2 * ((x & y) as int),
        x & x == x,
        (x & y) as u64 == (x as u64) & (y as u64),
{
}

proof fn lemma_i32_unsigned(z: i32)
    by (bit_vector)
    ensures
        (z as u32) as int == (z as int) % 0x1_0000_0000,
{
}

proof fn lemma_i64_unsigned(z: i64)
    by (bit_vector)
    ensures
        (z as u64) as int == (z as int) % 0x1_0000_0000_0000_0000,
{
}

proof fn lemma_i64_low32(z: i64)
    by (bit_vector)
    ensures
        (z as u32) as int == (z as int) % 0x1_0000_0000,
{
}

proof fn lemma_u64_low32(z: u64)
    by (bit_vector)
    ensures
        (z as u32) as int == (z as int) % 0x1_0000_0000,
{
}

proof fn lemma_i32_shift_facts(x: i32, c: u32)
    by (bit_vector)
    requires
        c < 32,
    ensures
        x >= 0 ==> (x >> c) as int == ((x as u32) >> c) as int,
        x < 0 ==> (x >> c) as int == -1 - (((!x) as u32) >> c) as int,
        (x << c) as u32 == (x as u32) << c,
{
}

proof fn lemma_i64_shift_facts(x: i64, c: u64)
    by (bit_vector)
    requires
        c < 64,
    ensures
        x >= 0 ==> (x >> c) as int == ((x as u64) >> c) as int,
        x < 0 ==> (x >> c) as int == -1 - (((!x) as u64) >> c) as int,
        (x << c) as u64 == (x as u64) << c,
{
}

// ---------------------------------------------------------------------------
// Left shifts multiply by a power of two and wrap.
// ---------------------------------------------------------------------------

/// `2^(k+1) == 2 * 2^k`, and so `2 * (x * 2^k) == x * 2^(k+1)`.
proof fn lemma_double(x: int, k: nat)
    ensures
        2 * (x * pow2(k) as int) == x * pow2(k + 1) as int,
{
    lemma_pow2_adds(k, 1);
    lemma2_to64();
    assert(2 * (x * pow2(k) as int) == x * (pow2(k) as int * 2)) by (nonlinear_arith);
}

pub proof fn lemma_u32_shl(x: u32, c: u32)
    requires
        c < 32,
    ensures
        (x << c) as int == (x as int * pow2(c as nat) as int) % 0x1_0000_0000,
    decreases c,
{
    let m = 0x1_0000_0000int;
    if c == 0 {
        lemma_u32_shl_facts(x, x, 0);
        lemma2_to64();
        lemma_small_mod(x as nat, m as nat);
    } else {
        let z = x << ((c - 1) as u32);
        lemma_u32_shl(x, (c - 1) as u32);
        lemma_u32_shl_facts(x, z, c);
        let p = x as int * pow2((c - 1) as nat) as int;
        assert(z as int == p % m);
        assert((x << c) as int == (2 * z as int) % m);
        lemma_mul_mod_noop_right(2, p, m);
        assert((2 * (p % m)) % m == (2 * p) % m);
        lemma_double(x as int, (c - 1) as nat);
        assert((c - 1) as nat + 1 == c as nat);
        assert(2 * p == x as int * pow2(c as nat) as int);
    }
}

pub proof fn lemma_u64_shl(x: u64, c: u64)
    requires
        c < 64,
    ensures
        (x << c) as int == (x as int * pow2(c as nat) as int) % 0x1_0000_0000_0000_0000,
    decreases c,
{
    let m = 0x1_0000_0000_0000_0000int;
    if c == 0 {
        lemma_u64_shl_facts(x, x, 0);
        lemma2_to64();
        lemma_small_mod(x as nat, m as nat);
    } else {
        let z = x << ((c - 1) as u64);
        lemma_u64_shl(x, (c - 1) as u64);
        lemma_u64_shl_facts(x, z, c);
        let p = x as int * pow2((c - 1) as nat) as int;
        assert(z as int == p % m);
        assert((x << c) as int == (2 * z as int) % m);
        lemma_mul_mod_noop_right(2, p, m);
        assert((2 * (p % m)) % m == (2 * p) % m);
        lemma_double(x as int, (c - 1) as nat);
        assert((c - 1) as nat + 1 == c as nat);
        assert(2 * p == x as int * pow2(c as nat) as int);
    }
}

// ---------------------------------------------------------------------------
// Per-type statements, in the form the lane traits use.
// ---------------------------------------------------------------------------

/// The bits of a conjunction of unsigned 32-bit values.
proof fn lemma_u32_and_bits(x: u32, y: u32)
    ensures
        forall|k: nat| k < 32 ==> #[trigger] bit((x & y) as int, k) == (bit(x as int, k) && bit(y as int, k)),
{
    assert forall|k: nat| k < 32 implies #[trigger] bit((x & y) as int, k) == (bit(x as int, k) && bit(y as int, k)) by {
        let kk = k as u32;
        lemma_u32_shr_is_div(x & y, kk);
        lemma_u32_shr_is_div(x, kk);
        lemma_u32_shr_is_div(y, kk);
        lemma_u32_logic(x, y, kk);
    }
}

/// The bits of a conjunction of unsigned 64-bit values.
proof fn lemma_u64_and_bits(x: u64, y: u64)
    ensures
        forall|k: nat| k < 64 ==> #[trigger] bit((x & y) as int, k) == (bit(x as int, k) && bit(y as int, k)),
{
    assert forall|k: nat| k < 64 implies #[trigger] bit((x & y) as int, k) == (bit(x as int, k) && bit(y as int, k)) by {
        let kk = k as u64;
        lemma_u64_shr_is_div(x & y, kk);
        lemma_u64_shr_is_div(x, kk);
        lemma_u64_shr_is_div(y, kk);
        lemma_u64_logic(x, y, kk);
    }
}

pub proof fn lemma_u32_bitwise(x: u32, y: u32)
    ensures
        (!x) as int == wrap(-1 - x as int, 0, 0x1_0000_0000),
        (x | y) as int == wrap(x as int + y as int - (x & y) as int, 0, 0x1_0000_0000),
        (x ^ y) as int == wrap(x as int + y as int - 2 * ((x & y) as int), 0, 0x1_0000_0000),
        x & x == x,
        forall|k: nat| k < 32 ==> #[trigger] bit(wrap((x & y) as int, 0, 0x1_0000_0000), k) == (bit(wrap(x as int, 0, 0x1_0000_0000), k) && bit(wrap(y as int, 0, 0x1_0000_0000), k)),
{
    let m = 0x1_0000_0000int;
    lemma_u32_logic(x, y, 0);
    crate::marker::lemma_wrap_shift(-1 - x as int, 0, m, -1);
    crate::marker::lemma_wrap_shift(x as int + y as int - (x & y) as int, 0, m, 0);
    crate::marker::lemma_wrap_shift(x as int + y as int - 2 * ((x & y) as int), 0, m, 0);
    crate::marker::lemma_wrap_shift((x & y) as int, 0, m, 0);
    crate::marker::lemma_wrap_shift(x as int, 0, m, 0);
    crate::marker::lemma_wrap_shift(y as int, 0, m, 0);
    lemma_u32_and_bits(x, y);
}

pub proof fn lemma_u64_bitwise(x: u64, y: u64)
    ensures
        (!x) as int == wrap(-1 - x as int, 0, 0x1_0000_0000_0000_0000),
        (x | y) as int == wrap(x as int + y as int - (x & y) as int, 0, 0x1_0000_0000_0000_0000),
        (x ^ y) as int == wrap(x as int + y as int - 2 * ((x & y) as int), 0, 0x1_0000_0000_0000_0000),
        x & x == x,
        forall|k: nat| k < 64 ==> #[trigger] bit(wrap((x & y) as int, 0, 0x1_0000_0000_0000_0000), k) == (bit(wrap(x as int, 0, 0x1_0000_0000_0000_0000), k) && bit(wrap(y as int, 0, 0x1_0000_0000_0000_0000), k)),
{
    let m = 0x1_0000_0000_0000_0000int;
    lemma_u64_logic(x, y, 0);
    crate::marker::lemma_wrap_shift(-1 - x as int, 0, m, -1);
    crate::marker::lemma_wrap_shift(x as int + y as int - (x & y) as int, 0, m, 0);
    crate::marker::lemma_wrap_shift(x as int + y as int - 2 * ((x & y) as int), 0, m, 0);
    crate::marker::lemma_wrap_shift((x & y) as int, 0, m, 0);
    crate::marker::lemma_wrap_shift(x as int, 0, m, 0);
    crate::marker::lemma_wrap_shift(y as int, 0, m, 0);
    lemma_u64_and_bits(x, y);
}

pub proof fn lemma_i32_bitwise(x: i32, y: i32)
    ensures
        (!x) as int == wrap(-1 - x as int, -0x8000_0000, 0x1_0000_0000),
        (x | y) as int == wrap(x as int + y as int - (x & y) as int, -0x8000_0000, 0x1_0000_0000),
        (x ^ y) as int == wrap(x as int + y as int - 2 * ((x & y) as int), -0x8000_0000, 0x1_0000_0000),
        x & x == x,
        forall|k: nat| k < 32 ==> #[trigger] bit(wrap((x & y) as int, 0, 0x1_0000_0000), k) == (bit(wrap(x as int, 0, 0x1_0000_0000), k) && bit(wrap(y as int, 0, 0x1_0000_0000), k)),
{
    let lo = -0x8000_0000int;
    let m = 0x1_0000_0000int;
    lemma_i32_facts(x, y);
    crate::marker::lemma_wrap_shift(-1 - x as int, lo, m, 0);
    crate::marker::lemma_wrap_shift(x as int + y as int - (x & y) as int, lo, m, 0);
    crate::marker::lemma_wrap_shift(x as int + y as int - 2 * ((x & y) as int), lo, m, 0);
    lemma_i32_unsigned(x & y);
    lemma_i32_unsigned(x);
    lemma_i32_unsigned(y);
    lemma_u32_and_bits(x as u32, y as u32);
}

pub proof fn lemma_i64_bitwise(x: i64, y: i64)
    ensures
        (!x) as int == wrap(-1 - x as int, -0x8000_0000_0000_0000, 0x1_0000_0000_0000_0000),
        (x | y) as int == wrap(x as int + y as int - (x & y) as int, -0x8000_0000_0000_0000, 0x1_0000_0000_0000_0000),
        (x ^ y) as int == wrap(x as int + y as int - 2 * ((x & y) as int), -0x8000_0000_0000_0000, 0x1_0000_0000_0000_0000),
        x & x == x,
        forall|k: nat| k < 64 ==> #[trigger] bit(wrap((x & y) as int, 0, 0x1_0000_0000_0000_0000), k) == (bit(wrap(x as int, 0, 0x1_0000_0000_0000_0000), k) && bit(wrap(y as int, 0, 0x1_0000_0000_0000_0000), k)),
{
    let lo = -0x8000_0000_0000_0000int;
    let m = 0x1_0000_0000_0000_0000int;
    lemma_i64_facts(x, y);
    crate::marker::lemma_wrap_shift(-1 - x as int, lo, m, 0);
    crate::marker::lemma_wrap_shift(x as int + y as int - (x & y) as int, lo, m, 0);
    crate::marker::lemma_wrap_shift(x as int + y as int - 2 * ((x & y) as int), lo, m, 0);
    lemma_i64_unsigned(x & y);
    lemma_i64_unsigned(x);
    lemma_i64_unsigned(y);
    lemma_u64_and_bits(x as u64, y as u64);
}

/// Shifts of unsigned 32-bit lanes by a count taken modulo 32.
pub proof fn lemma_u32_shifts(x: u32, s: u32)
    ensures
        (x << (s % 32)) as int == wrap(x as int * pow2(shift_count(s as int, 32)) as int, 0, 0x1_0000_0000),
        (x >> (s % 32)) as int == x as int / (pow2(shift_count(s as int, 32)) as int),
{
    let c = s % 32;
    lemma_u32_shl(x, c);
    lemma_u32_shr_is_div(x, c);
}

/// Shifts of unsigned 64-bit lanes by a count taken modulo 64 (of its low
/// 32 bits, which is the same).
pub proof fn lemma_u64_shifts(x: u64, s: u64)
    ensures
        (x << ((s as u32) % 64) as u64) as int == wrap(x as int * pow2(shift_count(s as int, 64)) as int, 0, 0x1_0000_0000_0000_0000),
        (x >> ((s as u32) % 64) as u64) as int == x as int / (pow2(shift_count(s as int, 64)) as int),
{
    let c = ((s as u32) % 64) as u64;
    lemma_u64_low32(s);
    lemma_mod_mod(s as int, 64, 0x400_0000);
    assert(c as int == (s as int) % 64);
    lemma_u64_shl(x, c);
    lemma_u64_shr_is_div(x, c);
}

/// Shifts of signed 32-bit lanes by a count taken modulo 32; the right shift
/// is arithmetic, rounding down.
pub proof fn lemma_i32_shifts(x: i32, s: i32)
    ensures
        (x << ((s as u32) % 32)) as int == wrap(x as int * pow2(shift_count(s as int, 32)) as int, -0x8000_0000, 0x1_0000_0000),
        (x >> ((s as u32) % 32)) as int == x as int / (pow2(shift_count(s as int, 32)) as int),
{
    let lo = -0x8000_0000int;
    let m = 0x1_0000_0000int;
    let c = (s as u32) % 32;
    lemma_i32_unsigned(s);
    lemma_mod_mod(s as int, 32, 0x800_0000);
    assert(c as int == (s as int) % 32);
    let p = pow2(c as nat) as int;
    lemma_pow2_pos(c as nat);
    lemma_i32_shift_facts(x, c);
    // Left shift: congruent to x * 2^c modulo 2^32.
    lemma_u32_shl(x as u32, c);
    lemma_i32_unsigned(x << c);
    lemma_i32_unsigned(x);
    lemma_mul_mod_noop_left(x as int, p, m);
    lemma_wrap_congruent_value(x as int * p, (x << c) as int, lo, m);
    // Right shift.
    if x >= 0 {
        lemma_small_mod(x as nat, m as nat);
        lemma_u32_shr_is_div(x as u32, c);
    } else {
        let y = !x;
        lemma_i32_facts(x, x);
        lemma_i32_unsigned(y);
        lemma_small_mod(y as nat, m as nat);
        lemma_u32_shr_is_div(y as u32, c);
        lemma_floor_neg(y as int, p);
    }
}

/// Shifts of signed 64-bit lanes by a count taken modulo 64; the right shift
/// is arithmetic, rounding down.
pub proof fn lemma_i64_shifts(x: i64, s: i64)
    ensures
        (x << ((s as u32) % 64)) as int == wrap(x as int * pow2(shift_count(s as int, 64)) as int, -0x8000_0000_0000_0000, 0x1_0000_0000_0000_0000),
        (x >> ((s as u32) % 64)) as int == x as int / (pow2(shift_count(s as int, 64)) as int),
{
    let lo = -0x8000_0000_0000_0000int;
    let m = 0x1_0000_0000_0000_0000int;
    let c32 = (s as u32) % 64;
    let c = c32 as u64;
    lemma_i64_low32(s);
    lemma_mod_mod(s as int, 64, 0x400_0000);
    assert(c as int == (s as int) % 64);
    let p = pow2(c as nat) as int;
    lemma_pow2_pos(c as nat);
    lemma_i64_shift_facts(x, c);
    assert(x << c32 == x << c);
    assert(x >> c32 == x >> c);
    lemma_u64_shl(x as u64, c);
    lemma_i64_unsigned(x << c);
    lemma_i64_unsigned(x);
    lemma_mul_mod_noop_left(x as int, p, m);
    lemma_wrap_congruent_value(x as int * p, (x << c) as int, lo, m);
    if x >= 0 {
        lemma_small_mod(x as nat, m as nat);
        lemma_u64_shr_is_div(x as u64, c);
    } else {
        let y = !x;
        lemma_i64_facts(x, x);
        lemma_i64_unsigned(y);
        lemma_small_mod(y as nat, m as nat);
        lemma_u64_shr_is_div(y as u64, c);
        lemma_floor_neg(y as int, p);
    }
}

} // verus!
