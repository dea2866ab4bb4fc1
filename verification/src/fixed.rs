//! Signed fixed-point scalars.
//!
//! A scalar value `v` is stored as the `i64` integer `v * SCALE`, rounded
//! toward zero.  Multiplication and division therefore truncate toward
//! zero, exactly like the specification functions [`fx_mul`] and
//! [`fx_div`] say they do.

use vstd::arithmetic::div_mod::{
    lemma_div_is_ordered, lemma_div_multiples_vanish, lemma_div_nonincreasing,
    lemma_div_pos_is_pos,
};
use vstd::prelude::*;

verus! {

/// Number of fixed-point units in one whole unit (2^16).
pub const SCALE: i64 = 65536;

/// Largest magnitude a scalar may have if it is to survive a division or
/// a conversion from a whole number: `i64::MAX / SCALE`.
pub const FX_DIV_BOUND: i64 = 140737488355327;

/// Bound accepted for a scalar that stands for a sine or cosine: twice
/// the fixed-point unit, ample for values the trigonometry can produce.
pub const TRIG_BOUND: i64 = 131072;

/// Every entry of a trigonometric table is within [`TRIG_BOUND`].
pub open spec fn trig_ok(s: Seq<i64>) -> bool {
    forall|k: int| 0 <= k < s.len() ==> -TRIG_BOUND <= #[trigger] s[k] <= TRIG_BOUND
}

/// Truncating (round-toward-zero) division by a positive divisor.
///
/// Spec-level `/` is Euclidean, so floor it on the magnitude and restore
/// the sign; this matches what hardware division of magnitudes produces.
pub open spec fn tdiv(a: int, d: int) -> int {
    if a >= 0 {
        a / d
    } else {
        -((-a) / d)
    }
}

/// The fixed-point product of two scalars given by their representations.
pub open spec fn fx_mul(a: int, b: int) -> int {
    tdiv(a * b, SCALE as int)
}

/// The fixed-point quotient of two scalars given by their representations.
pub open spec fn fx_div(a: int, b: int) -> int {
    if b >= 0 {
        tdiv(a * SCALE, b)
    } else {
        tdiv(-(a * SCALE), -b)
    }
}

/// Truncating division is bounded by any bound on the dividend that is a
/// multiple of the divisor.
pub proof fn lemma_tdiv_in_range(a: int, d: int, bound: int)
    requires
        0 < d,
        0 <= bound,
        -(bound * d) <= a <= bound * d,
    ensures
        -bound <= tdiv(a, d) <= bound,
{
    assert(bound * d == d * bound);
    lemma_div_multiples_vanish(bound, d);
    assert((d * bound) / d == bound);
    if a >= 0 {
        lemma_div_is_ordered(a, d * bound, d);
        lemma_div_pos_is_pos(a, d);
    } else {
        lemma_div_is_ordered(-a, d * bound, d);
        lemma_div_pos_is_pos(-a, d);
    }
}

/// Dividing an exact multiple of the divisor is exact.
pub proof fn lemma_tdiv_exact(x: int, d: int)
    requires
        0 < d,
    ensures
        tdiv(x * d, d) == x,
{
    if x * d >= 0 {
        lemma_div_multiples_vanish(x, d);
        assert(x * d == d * x);
        assert((d * x) / d == x);
    } else {
        lemma_div_multiples_vanish(-x, d);
        assert(-(x * d) == d * -x) by (nonlinear_arith);
        assert((d * -x) / d == -x);
    }
}

/// Bounds on the operands of a fixed-point product give a bound on the
/// product itself and show the operation free of overflow.
pub proof fn lemma_fx_mul_fits(a: int, b: int, ba: int, bb: int)
    requires
        0 <= ba,
        0 <= bb,
        -ba <= a <= ba,
        -bb <= b <= bb,
        ba * bb <= i64::MAX * SCALE,
    ensures
        -(i64::MAX * SCALE) <= a * b <= i64::MAX * SCALE,
        -(ba * bb / (SCALE as int) + 1) <= fx_mul(a, b) <= ba * bb / (SCALE as int) + 1,
{
    assert(-(ba * bb) <= a * b <= ba * bb) by (nonlinear_arith)
        requires
            0 <= ba,
            0 <= bb,
            -ba <= a <= ba,
            -bb <= b <= bb,
    ;
    let bd = ba * bb / (SCALE as int) + 1;
    vstd::arithmetic::div_mod::lemma_fundamental_div_mod(ba * bb, SCALE as int);
    vstd::arithmetic::div_mod::lemma_mod_bound(ba * bb, SCALE as int);
    assert(ba * bb <= bd * (SCALE as int)) by (nonlinear_arith)
        requires
            ba * bb == (SCALE as int) * (ba * bb / (SCALE as int)) + (ba * bb) % (SCALE as int),
            0 <= (ba * bb) % (SCALE as int) < SCALE as int,
            bd == ba * bb / (SCALE as int) + 1,
            SCALE == 65536,
    ;
    lemma_tdiv_in_range(a * b, SCALE as int, bd);
}

/// Truncating division of an `i128` by a positive divisor, computed on
/// unsigned magnitudes so the rounding is toward zero by construction.
pub(crate) fn tdiv_i128(a: i128, d: i128) -> (q: i128)
    requires
        0 < d,
        i128::MIN < a,
    ensures
        q == tdiv(a as int, d as int),
{
    if a >= 0 {
        let m: u128 = a as u128;
        let du: u128 = d as u128;
        let qu: u128 = m / du;
        proof {
            lemma_div_nonincreasing(m as int, du as int);
            lemma_div_pos_is_pos(m as int, du as int);
        }
        qu as i128
    } else {
        let m: u128 = (-a) as u128;
        let du: u128 = d as u128;
        let qu: u128 = m / du;
        proof {
            lemma_div_nonincreasing(m as int, du as int);
            lemma_div_pos_is_pos(m as int, du as int);
        }
        -(qu as i128)
    }
}

/// Fixed-point multiplication; truncates toward zero like the `f32`
/// multiply it stands in for rounds.
pub fn mul_fx(a: i64, b: i64) -> (r: i64)
    requires
        -(i64::MAX * SCALE) <= a * b <= i64::MAX * SCALE,
    ensures
        r == fx_mul(a as int, b as int),
{
    let p: i128 = (a as i128) * (b as i128);
    let q: i128 = tdiv_i128(p, SCALE as i128);
    proof {
        lemma_tdiv_in_range(p as int, SCALE as int, i64::MAX as int);
    }
    q as i64
}

/// Fixed-point division.  The divisor must be non-zero; the dividend is
/// bounded so that the quotient fits (the quotient's magnitude is at most
/// `|a| * SCALE`).
pub fn div_fx(a: i64, b: i64) -> (r: i64)
    requires
        b != 0,
        -FX_DIV_BOUND <= a <= FX_DIV_BOUND,
    ensures
        r == fx_div(a as int, b as int),
{
    proof {
        assert(-(FX_DIV_BOUND * SCALE) <= a * SCALE <= FX_DIV_BOUND * SCALE) by (nonlinear_arith)
            requires
                -FX_DIV_BOUND <= a <= FX_DIV_BOUND,
                SCALE == 65536,
                FX_DIV_BOUND == 140737488355327;
    }
    let p: i128 = (a as i128) * (SCALE as i128);
    let q: i128 = if b > 0 {
        tdiv_i128(p, b as i128)
    } else {
        tdiv_i128(-p, -(b as i128))
    };
    proof {
        let pa = if p >= 0 { p as int } else { -(p as int) };
        assert(pa <= FX_DIV_BOUND * SCALE);
        let d = if b > 0 { b as int } else { -(b as int) };
        assert(FX_DIV_BOUND * SCALE <= i64::MAX * d) by (nonlinear_arith)
            requires 1 <= d && FX_DIV_BOUND * SCALE <= i64::MAX;
        lemma_tdiv_in_range(if b > 0 { p as int } else { -(p as int) }, d, i64::MAX as int);
    }
    q as i64
}

} // verus!
