//! Fixed-point arithmetic for the synthesis path.
//!
//! Amplitudes, envelope levels, filter coefficients and waveform samples
//! are fractions scaled by [`SCALE`]: the integer `SCALE` stands for the
//! real value 1.0.  Multiplying two such fractions therefore needs the
//! product scaled back down, which [`scaled_mul`] does with the truncating
//! division of `i64`.

use vstd::arithmetic::div_mod::{
    lemma_div_is_ordered, lemma_div_multiples_vanish, lemma_div_pos_is_pos,
};
use vstd::prelude::*;

verus! {

/// One full amplitude: the fixed-point representation of 1.0.
pub const SCALE: i64 = 10_000;

/// Truncating (round-toward-zero) division, the semantics of `/` on `i64`.
pub open spec fn div_trunc(a: int, b: int) -> int
    recommends
        b > 0,
{
    if a >= 0 {
        a / b
    } else {
        -((-a) / b)
    }
}

/// Truncating division never enlarges a quotient bound: if the numerator
/// is within `c * b` of zero, the quotient is within `c` of zero.
pub proof fn lemma_div_trunc_bound(a: int, b: int, c: int)
    requires
        b > 0,
        0 <= c,
        -(c * b) <= a <= c * b,
    ensures
        -c <= div_trunc(a, b) <= c,
{
    lemma_div_multiples_vanish(c, b);
    assert(b * c == c * b) by (nonlinear_arith);
    if a >= 0 {
        lemma_div_pos_is_pos(a, b);
        lemma_div_is_ordered(a, c * b, b);
        assert(a / b <= (c * b) / b);
        assert((c * b) / b == c);
    } else {
        lemma_div_pos_is_pos(-a, b);
        lemma_div_is_ordered(-a, c * b, b);
        assert((-a) / b <= (c * b) / b);
        assert((c * b) / b == c);
    }
}

/// Truncating division of an exact multiple recovers the factor.
pub proof fn lemma_div_trunc_multiple(x: int, b: int)
    requires
        b > 0,
    ensures
        div_trunc(b * x, b) == x,
{
    if x >= 0 {
        assert(b * x >= 0) by (nonlinear_arith)
            requires
                b > 0,
                x >= 0,
        ;
        lemma_div_multiples_vanish(x, b);
    } else {
        assert(b * x < 0) by (nonlinear_arith)
            requires
                b > 0,
                x < 0,
        ;
        assert(-(b * x) == b * (-x)) by (nonlinear_arith);
        lemma_div_multiples_vanish(-x, b);
    }
}

/// For a nonnegative numerator bounded by the divisor times `c`, ordinary
/// Euclidean division also stays within `[0, c]`.
pub proof fn lemma_div_bound_nonneg(a: int, b: int, c: int)
    requires
        b > 0,
        0 <= c,
        0 <= a <= c * b,
    ensures
        0 <= a / b <= c,
        div_trunc(a, b) == a / b,
{
    lemma_div_pos_is_pos(a, b);
    lemma_div_is_ordered(a, c * b, b);
    lemma_div_multiples_vanish(c, b);
    assert(b * c == c * b) by (nonlinear_arith);
    assert((c * b) / b == c);
}

/// Euclidean division is monotone in the numerator.
pub proof fn lemma_div_mono(a: int, b: int, d: int)
    requires
        d > 0,
        a <= b,
    ensures
        a / d <= b / d,
{
    lemma_div_is_ordered(a, b, d);
}

/// The product of two fixed-point fractions, scaled back to a fraction.
pub open spec fn scaled_spec(a: int, b: int) -> int {
    div_trunc(a * b, SCALE as int)
}

/// Fixed-point multiply: `a * b / SCALE` with truncating division.
pub fn scaled_mul(a: i64, b: i64) -> (r: i64)
    requires
        -1_000_000_000 <= a <= 1_000_000_000,
        -1_000_000_000 <= b <= 1_000_000_000,
    ensures
        r == scaled_spec(a as int, b as int),
{
    proof {
        assert(-1_000_000_000_000_000_000 <= a * b <= 1_000_000_000_000_000_000)
            by (nonlinear_arith)
            requires
                -1_000_000_000 <= a <= 1_000_000_000,
                -1_000_000_000 <= b <= 1_000_000_000,
        ;
    }
    let p: i64 = a * b;
    p / SCALE
}

/// A scaled product of fractions with magnitude at most `bound` and `SCALE`
/// keeps magnitude at most `bound`.
pub proof fn lemma_scaled_bound(a: int, b: int, bound: int)
    requires
        0 <= bound,
        -bound <= a <= bound,
        -(SCALE as int) <= b <= SCALE as int,
    ensures
        -bound <= scaled_spec(a, b) <= bound,
{
    assert(-(bound * SCALE) <= a * b <= bound * SCALE) by (nonlinear_arith)
        requires
            0 <= bound,
            -bound <= a <= bound,
            -(SCALE as int) <= b <= SCALE as int,
    ;
    lemma_div_trunc_bound(a * b, SCALE as int, bound);
}

} // verus!
