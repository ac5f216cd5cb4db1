//! Fixed-point scale and shared numeric constants.
//!
//! A quantity `x` in physical units is stored as the integer closest to
//! `x * SCALE`.  All constants below are rounded to the nearest micro-unit.

use vstd::prelude::*;

verus! {

/// One whole unit in fixed-point representation (micro-unit resolution).
pub const SCALE: u64 = 1_000_000;

/// pi, fixed-point.
pub const PI_FX: u64 = 3_141_593;

/// 2 * pi, fixed-point.
pub const TWO_PI_FX: u64 = 6_283_185;

/// pi / 2, fixed-point.
pub const HALF_PI_FX: u64 = 1_570_796;

/// pi^2, fixed-point.
pub const PI_SQ_FX: u64 = 9_869_604;

/// 1 / e, fixed-point.
pub const INV_E_FX: u64 = 367_879;

/// Decay exponents at or above this threshold make a series term vanish at
/// micro-unit resolution (e^-20 < 1e-8), so evaluation treats them as zero.
pub const EXP_CUTOFF_FX: u64 = 20_000_000;

/// Scaling a nonnegative value by a factor of at most one (numerator `b`
/// bounded by the denominator `d`) never increases it.
pub proof fn lemma_scale_down(a: int, b: int, d: int)
    requires
        0 <= a,
        0 <= b <= d,
        0 < d,
    ensures
        0 <= a * b / d <= a,
{
    vstd::arithmetic::mul::lemma_mul_nonnegative(a, b);
    vstd::arithmetic::div_mod::lemma_div_pos_is_pos(a * b, d);
    vstd::arithmetic::mul::lemma_mul_inequality(b, d, a);
    vstd::arithmetic::mul::lemma_mul_is_commutative(a, b);
    vstd::arithmetic::mul::lemma_mul_is_commutative(a, d);
    vstd::arithmetic::div_mod::lemma_div_is_ordered(a * b, a * d, d);
    vstd::arithmetic::div_mod::lemma_div_multiples_vanish(a, d);
}

} // verus!
