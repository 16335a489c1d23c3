//! Properties that hold across the operations of the library.
//!
//! Each law is stated over the sequence-level meaning that the operations'
//! contracts use, so it applies to vectors, to every row or column of a
//! matrix, and to mask lanes alike.
use vstd::prelude::*;

use vstd::arithmetic::power2::pow2;

use crate::kernels::{
    add_lanes, and_lanes, cast_lanes, clamp_lanes, div_lanes, eq_lanes, ge_lanes, gt_lanes,
    le_lanes, lt_lanes, mul_lanes, ne_lanes, neg_lanes, not_lanes, or_lanes, rem_lanes,
    select_lanes, shl_lanes, shr_lanes, splat_seq, sub_lanes, transpose_rows, xor_lanes,
};
use crate::lane_bits::{bit, shift_count};
use crate::mask::MaskStorage;
use crate::marker::{abs, lemma_div_bounds, lemma_wrap_shift, lemma_wrap_wrap_add, tdiv, trem, wrap, Int, Lane, MaskPrimitive, Signed};

verus! {

/// Two integers with the same wrapped value give the same lane.
proof fn lemma_from_int_eq<T: Lane>(x: int, y: int)
    requires
        wrap(x, T::lo(), T::modulus()) == wrap(y, T::lo(), T::modulus()),
    ensures
        T::from_int(x) == T::from_int(y),
{
    T::lemma_from_int(x);
    T::lemma_from_int(y);
    T::lemma_lane(T::from_int(x));
    T::lemma_lane(T::from_int(y));
}

/// Wrapping an intermediate result does not change a wrapped sum.
proof fn lemma_from_int_add<T: Lane>(x: int, y: int)
    ensures
        T::from_int(T::from_int(x).val() + y) == T::from_int(x + y),
{
    T::lemma_lane(T::from_int(x));
    T::lemma_from_int(x);
    lemma_wrap_wrap_add(x, y, T::lo(), T::modulus());
    lemma_from_int_eq::<T>(T::from_int(x).val() + y, x + y);
}

/// Integers that differ by a multiple of the modulus wrap to the same value.
proof fn lemma_wrap_congruent(x: int, y: int, lo: int, m: int, k: int)
    requires
        m > 0,
        x - y == m * k,
    ensures
        wrap(x, lo, m) == wrap(y, lo, m),
{
    vstd::arithmetic::div_mod::lemma_mod_multiples_vanish(k, y - lo, m);
    assert(x - lo == m * k + (y - lo));
}

/// Wrapping subtracts a multiple of the modulus.
proof fn lemma_wrap_multiple(x: int, lo: int, m: int)
    requires
        m > 0,
    ensures
        x - wrap(x, lo, m) == m * ((x - lo) / m),
{
    vstd::arithmetic::div_mod::lemma_fundamental_div_mod(x - lo, m);
}

/// Wrapping an intermediate result does not change a wrapped product.
proof fn lemma_from_int_mul<T: Lane>(x: int, y: int)
    ensures
        T::from_int(T::from_int(x).val() * y) == T::from_int(x * y),
{
    let lo = T::lo();
    let m = T::modulus();
    T::lemma_lane(T::from_int(x));
    T::lemma_from_int(x);
    let w = wrap(x, lo, m);
    let q = (x - lo) / m;
    lemma_wrap_multiple(x, lo, m);
    assert(x * y - w * y == m * (q * y)) by (nonlinear_arith)
        requires
            x - w == m * q,
    ;
    lemma_wrap_congruent(x * y, w * y, lo, m, q * y);
    lemma_from_int_eq::<T>(w * y, x * y);
}

/// Negating a wrapped negation gives back the value it started from.
proof fn lemma_from_int_neg_neg<T: Lane>(x: int)
    ensures
        T::from_int(-T::from_int(-x).val()) == T::from_int(x),
{
    let lo = T::lo();
    let m = T::modulus();
    T::lemma_lane(T::from_int(-x));
    T::lemma_from_int(-x);
    lemma_wrap_multiple(-x, lo, m);
    let q = (-x - lo) / m;
    lemma_wrap_congruent(-wrap(-x, lo, m), x, lo, m, q);
    lemma_from_int_eq::<T>(-T::from_int(-x).val(), x);
}

/// Adding a vector and then subtracting it again restores every lane, even
/// when the addition wraps.
pub proof fn law_add_sub_cancel<T: Lane>(a: Seq<T>, b: Seq<T>)
    requires
        a.len() == b.len(),
    ensures
        sub_lanes(add_lanes(a, b), b) == a,
{
    assert forall|i: int| 0 <= i < a.len() implies #[trigger] sub_lanes(add_lanes(a, b), b)[i] == a[i] by {
        let x = a[i].val();
        let y = b[i].val();
        lemma_from_int_add::<T>(x + y, -y);
        T::lemma_lane(a[i]);
    }
    assert(sub_lanes(add_lanes(a, b), b) =~= a);
}

/// Wrapping addition is commutative.
pub proof fn law_add_commutative<T: Lane>(a: Seq<T>, b: Seq<T>)
    requires
        a.len() == b.len(),
    ensures
        add_lanes(a, b) == add_lanes(b, a),
{
    assert(add_lanes(a, b) =~= add_lanes(b, a));
}

/// Adding zero leaves every lane unchanged.
pub proof fn law_add_zero<T: Lane>(a: Seq<T>)
    ensures
        add_lanes(a, splat_seq(T::from_int(0), a.len())) == a,
{
    assert forall|i: int| 0 <= i < a.len() implies #[trigger] add_lanes(a, splat_seq(T::from_int(0), a.len()))[i] == a[i] by {
        T::lemma_from_int(0);
        T::lemma_lane(a[i]);
        T::lemma_lane(T::from_int(0));
        lemma_wrap_shift(0, T::lo(), T::modulus(), 0);
    }
    assert(add_lanes(a, splat_seq(T::from_int(0), a.len())) =~= a);
}

/// Negating twice restores every lane, including the minimum value, which
/// negation maps to itself.
pub proof fn law_neg_involutive<T: Signed>(a: Seq<T>)
    ensures
        neg_lanes(neg_lanes(a)) == a,
{
    assert forall|i: int| 0 <= i < a.len() implies #[trigger] neg_lanes(neg_lanes(a))[i] == a[i] by {
        lemma_from_int_neg_neg::<T>(a[i].val());
        T::lemma_lane(a[i]);
    }
    assert(neg_lanes(neg_lanes(a)) =~= a);
}

/// Division rounding toward zero and its remainder recompose the dividend:
/// `(a / b) * b + a % b == a` lane by lane, with wrapping arithmetic.
pub proof fn law_div_rem<T: Lane>(a: Seq<T>, b: Seq<T>)
    requires
        a.len() == b.len(),
        forall|i: int| 0 <= i < b.len() ==> (#[trigger] b[i]).val() != 0,
    ensures
        add_lanes(mul_lanes(div_lanes(a, b), b), rem_lanes(a, b)) == a,
{
    assert forall|i: int| 0 <= i < a.len() implies #[trigger] add_lanes(mul_lanes(div_lanes(a, b), b), rem_lanes(a, b))[i] == a[i] by {
        let x = a[i].val();
        let y = b[i].val();
        assert(b[i].val() != 0);
        T::lemma_lane(a[i]);
        let q = tdiv(x, y);
        let r = trem(x, y);
        lemma_div_bounds(abs(x), abs(y));
        vstd::arithmetic::div_mod::lemma_fundamental_div_mod(abs(x), abs(y));
        assert(q * y + r == x) by (nonlinear_arith)
            requires
                abs(x) == abs(y) * (abs(x) / abs(y)) + abs(x) % abs(y),
                q == tdiv(x, y),
                r == trem(x, y),
                y != 0,
        {
        }
        // mul: from_int(from_int(q).val() * y) == from_int(q * y)
        lemma_from_int_mul::<T>(q, y);
        // add: from_int(from_int(q*y).val() + from_int(r).val()) == from_int(q*y + r)
        lemma_from_int_add::<T>(q * y, T::from_int(r).val());
        T::lemma_from_int(r);
        lemma_wrap_wrap_add(r, q * y, T::lo(), T::modulus());
        lemma_from_int_eq::<T>(q * y + T::from_int(r).val(), q * y + r);
        T::lemma_lane(a[i]);
    }
    assert(add_lanes(mul_lanes(div_lanes(a, b), b), rem_lanes(a, b)) =~= a);
}

/// Reinterpreting as unsigned and back restores every lane.
pub proof fn law_cast_unsigned_round_trip<T: Int>(a: Seq<T>)
    ensures
        cast_lanes::<T::Unsigned, T>(cast_lanes::<T, T::Unsigned>(a)) == a,
{
    T::lemma_int_forms();
    assert forall|i: int| 0 <= i < a.len() implies #[trigger] cast_lanes::<T::Unsigned, T>(cast_lanes::<T, T::Unsigned>(a))[i] == a[i] by {
        let x = a[i].val();
        <T::Unsigned as Lane>::lemma_from_int(x);
        T::lemma_lane(a[i]);
        wrap_lo_independent(x, 0, T::modulus());
        lemma_from_int_eq::<T>(<T::Unsigned as Lane>::from_int(x).val(), x);
    }
    assert(cast_lanes::<T::Unsigned, T>(cast_lanes::<T, T::Unsigned>(a)) =~= a);
}

/// Reinterpreting as signed and back restores every lane.
pub proof fn law_cast_signed_round_trip<T: Int>(a: Seq<T>)
    ensures
        cast_lanes::<T::Signed, T>(cast_lanes::<T, T::Signed>(a)) == a,
{
    T::lemma_int_forms();
    assert forall|i: int| 0 <= i < a.len() implies #[trigger] cast_lanes::<T::Signed, T>(cast_lanes::<T, T::Signed>(a))[i] == a[i] by {
        let x = a[i].val();
        <T::Signed as Lane>::lemma_from_int(x);
        T::lemma_lane(a[i]);
        wrap_lo_independent(x, <T::Signed as Lane>::lo(), T::modulus());
        lemma_from_int_eq::<T>(<T::Signed as Lane>::from_int(x).val(), x);
    }
    assert(cast_lanes::<T::Signed, T>(cast_lanes::<T, T::Signed>(a)) =~= a);
}

/// Wrapping into a range and then into another range of the same width is
/// the same as wrapping into the second range directly.
proof fn wrap_lo_independent(x: int, lo: int, m: int)
    requires
        m > 0,
    ensures
        forall|lo2: int| #[trigger] wrap(wrap(x, lo, m), lo2, m) == wrap(x, lo2, m),
{
    lemma_wrap_multiple(x, lo, m);
    assert forall|lo2: int| #[trigger] wrap(wrap(x, lo, m), lo2, m) == wrap(x, lo2, m) by {
        lemma_wrap_congruent(x, wrap(x, lo, m), lo2, m, (x - lo) / m);
    }
}

/// Converting a lane to its own type leaves it unchanged.
pub proof fn law_cast_identity<T: Lane>(a: Seq<T>)
    ensures
        cast_lanes::<T, T>(a) == a,
{
    assert forall|i: int| 0 <= i < a.len() implies #[trigger] cast_lanes::<T, T>(a)[i] == a[i] by {
        T::lemma_lane(a[i]);
    }
    assert(cast_lanes::<T, T>(a) =~= a);
}

/// `each_ne`, `each_ge` and `each_le` are the negations of `each_eq`,
/// `each_lt` and `each_gt`, and `each_gt` is `each_lt` with the operands
/// swapped.
pub proof fn law_comparison_complements<T: Lane>(a: Seq<T>, b: Seq<T>)
    requires
        a.len() == b.len(),
    ensures
        ne_lanes(a, b) == Seq::new(a.len(), |i: int| !eq_lanes(a, b)[i]),
        ge_lanes(a, b) == Seq::new(a.len(), |i: int| !lt_lanes(a, b)[i]),
        le_lanes(a, b) == Seq::new(a.len(), |i: int| !gt_lanes(a, b)[i]),
        gt_lanes(a, b) == lt_lanes(b, a),
{
    assert(ne_lanes(a, b) =~= Seq::new(a.len(), |i: int| !eq_lanes(a, b)[i]));
    assert(ge_lanes(a, b) =~= Seq::new(a.len(), |i: int| !lt_lanes(a, b)[i]));
    assert(le_lanes(a, b) =~= Seq::new(a.len(), |i: int| !gt_lanes(a, b)[i]));
    assert(gt_lanes(a, b) =~= lt_lanes(b, a));
}

/// Selecting between two equal operands returns that operand, whatever the
/// mask.
pub proof fn law_select_same<M: MaskPrimitive, T>(m: Seq<M>, a: Seq<T>)
    ensures
        select_lanes(m, a, a) == a,
{
    assert(select_lanes(m, a, a) =~= a);
}

/// Clamping keeps every lane within its bounds, leaves lanes already within
/// them unchanged, and so clamping twice is the same as clamping once.
pub proof fn law_clamp<T: Lane>(a: Seq<T>, lo: Seq<T>, hi: Seq<T>)
    requires
        a.len() == lo.len(),
        a.len() == hi.len(),
        forall|i: int| 0 <= i < a.len() ==> (#[trigger] lo[i]).val() <= hi[i].val(),
    ensures
        forall|i: int| 0 <= i < a.len() ==> lo[i].val() <= (#[trigger] clamp_lanes(a, lo, hi)[i]).val() <= hi[i].val(),
        forall|i: int| 0 <= i < a.len() && lo[i].val() <= a[i].val() <= hi[i].val() ==> #[trigger] clamp_lanes(a, lo, hi)[i] == a[i],
        clamp_lanes(clamp_lanes(a, lo, hi), lo, hi) == clamp_lanes(a, lo, hi),
{
    assert forall|i: int| 0 <= i < a.len() implies lo[i].val() <= (#[trigger] clamp_lanes(a, lo, hi)[i]).val() <= hi[i].val() by {
        assert(lo[i].val() <= hi[i].val());
    }
    assert(clamp_lanes(clamp_lanes(a, lo, hi), lo, hi) =~= clamp_lanes(a, lo, hi)) by {
        assert forall|i: int| 0 <= i < a.len() implies #[trigger] clamp_lanes(clamp_lanes(a, lo, hi), lo, hi)[i] == clamp_lanes(a, lo, hi)[i] by {
            assert(lo[i].val() <= hi[i].val());
            let c = clamp_lanes(a, lo, hi)[i];
            T::lemma_lane(c);
        }
    }
}

/// Transposing twice restores a matrix's rows (or columns).
pub proof fn law_transpose_involution<T>(s: Seq<Seq<T>>, m: nat, n: nat)
    requires
        s.len() == n,
        forall|j: int| 0 <= j < n ==> (#[trigger] s[j]).len() == m,
    ensures
        transpose_rows(transpose_rows(s, m, n), n, m) == s,
{
    assert forall|j: int| 0 <= j < n implies #[trigger] transpose_rows(transpose_rows(s, m, n), n, m)[j] =~= s[j] by {
    }
    assert(transpose_rows(transpose_rows(s, m, n), n, m) =~= s);
}

/// Lane-wise bitwise logic, by value. Negation gives `-1 - a`; or gives
/// `a + b - (a & b)` and exclusive or gives `a + b - 2 * (a & b)`, each
/// wrapped into the lane's range; so exclusive or of a vector with itself is
/// zero. Bit `k` of a lane of `a & b`, in two's complement, is set exactly
/// when bit `k` is set in both operands.
pub proof fn law_bitwise<T: Int>(a: Seq<T>, b: Seq<T>)
    requires
        a.len() == b.len(),
    ensures
        forall|i: int| 0 <= i < a.len() ==> #[trigger] not_lanes(a)[i] == T::from_int(-1 - a[i].val()),
        forall|i: int|
            0 <= i < a.len() ==> #[trigger] or_lanes(a, b)[i] == T::from_int(
                a[i].val() + b[i].val() - and_lanes(a, b)[i].val(),
            ),
        forall|i: int|
            0 <= i < a.len() ==> #[trigger] xor_lanes(a, b)[i] == T::from_int(
                a[i].val() + b[i].val() - 2 * and_lanes(a, b)[i].val(),
            ),
        forall|i: int| 0 <= i < a.len() ==> (#[trigger] xor_lanes(a, a)[i]).val() == 0,
        forall|i: int, k: nat|
            0 <= i < a.len() && k < T::bits() ==> #[trigger] bit(wrap(and_lanes(a, b)[i].val(), 0, T::modulus()), k)
                == (bit(wrap(a[i].val(), 0, T::modulus()), k) && bit(wrap(b[i].val(), 0, T::modulus()), k)),
{
    assert forall|i: int| 0 <= i < a.len() implies #[trigger] not_lanes(a)[i] == T::from_int(-1 - a[i].val()) by {
        T::lemma_bitwise(a[i], b[i]);
    }
    assert forall|i: int|
        0 <= i < a.len() implies #[trigger] or_lanes(a, b)[i] == T::from_int(
            a[i].val() + b[i].val() - and_lanes(a, b)[i].val(),
        ) by {
        T::lemma_bitwise(a[i], b[i]);
    }
    assert forall|i: int|
        0 <= i < a.len() implies #[trigger] xor_lanes(a, b)[i] == T::from_int(
            a[i].val() + b[i].val() - 2 * and_lanes(a, b)[i].val(),
        ) by {
        T::lemma_bitwise(a[i], b[i]);
    }
    assert forall|i: int| 0 <= i < a.len() implies (#[trigger] xor_lanes(a, a)[i]).val() == 0 by {
        T::lemma_bitwise(a[i], a[i]);
        T::lemma_from_int(0);
        T::lemma_lane(a[i]);
        lemma_wrap_shift(0, T::lo(), T::modulus(), 0);
    }
    assert forall|i: int, k: nat|
        0 <= i < a.len() && k < T::bits() implies #[trigger] bit(wrap(and_lanes(a, b)[i].val(), 0, T::modulus()), k)
            == (bit(wrap(a[i].val(), 0, T::modulus()), k) && bit(wrap(b[i].val(), 0, T::modulus()), k)) by {
        T::lemma_bitwise(a[i], b[i]);
    }
}

/// Lane-wise shifts, by value. The count `s` of each lane is taken modulo
/// the lane width `w`: a left shift gives `a * 2^(s mod w)` wrapped into the
/// lane's range, and a right shift gives `a / 2^(s mod w)` rounded down, so a
/// negative signed lane stays negative.
pub proof fn law_shifts<T: Int>(a: Seq<T>, s: Seq<T>)
    requires
        a.len() == s.len(),
    ensures
        forall|i: int|
            0 <= i < a.len() ==> #[trigger] shl_lanes(a, s)[i] == T::from_int(
                a[i].val() * pow2(shift_count(s[i].val(), T::bits())) as int,
            ),
        forall|i: int|
            0 <= i < a.len() ==> (#[trigger] shr_lanes(a, s)[i]).val() == a[i].val() / (pow2(
                shift_count(s[i].val(), T::bits()),
            ) as int),
{
    assert forall|i: int|
        0 <= i < a.len() implies #[trigger] shl_lanes(a, s)[i] == T::from_int(
            a[i].val() * pow2(shift_count(s[i].val(), T::bits())) as int,
        ) by {
        T::lemma_shifts(a[i], s[i]);
    }
    assert forall|i: int|
        0 <= i < a.len() implies (#[trigger] shr_lanes(a, s)[i]).val() == a[i].val() / (pow2(
            shift_count(s[i].val(), T::bits()),
        ) as int) by {
        T::lemma_shifts(a[i], s[i]);
    }
}

/// Splitting mask storage into its columns and joining them again gives back
/// the same truth values.
pub proof fn law_pack_unpack<T: MaskPrimitive, const M: usize, const N: usize>(
    s: MaskStorage<T, M, N>,
    parts: [MaskStorage<T, M, 1>; N],
    r: MaskStorage<T, M, N>,
)
    requires
        forall|j: int| 0 <= j < N ==> (#[trigger] parts@[j])@ == seq![s@[j]],
        forall|j: int| 0 <= j < N ==> #[trigger] r@[j] == parts@[j]@[0],
    ensures
        r@ == s@,
{
    MaskStorage::<T, M, N>::lemma_view_len(s);
    MaskStorage::<T, M, N>::lemma_view_len(r);
    assert forall|j: int| 0 <= j < N implies #[trigger] r@[j] == s@[j] by {
        assert(parts@[j]@ == seq![s@[j]]);
    }
    assert(r@ =~= s@);
}

/// Arrays with the same lanes are equal, so reading back what a conversion
/// wrote gives back the same array: a boolean array turned into a mask and
/// read back, or lanes turned into a vector and read back.
pub proof fn law_lanes_determine_array<T, const N: usize>(a: [T; N], b: [T; N])
    requires
        a@ == b@,
    ensures
        a == b,
{
    assert(a =~= b);
}

/// Two-dimensional arrays with the same rows are equal, so reading back what
/// a conversion wrote gives back the same array.
pub proof fn law_rows_determine_array<T, const M: usize, const N: usize>(a: [[T; M]; N], b: [[T; M]; N])
    requires
        crate::kernels::rows_view(a) == crate::kernels::rows_view(b),
    ensures
        a == b,
{
    crate::kernels::lemma_rows_eq(a, b);
}

} // verus!
