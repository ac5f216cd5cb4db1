//! Fixed-point exponential decay `e^(-x)`.
//!
//! The fractional part of the exponent goes through an alternating Taylor
//! series, summed pairwise so every partial sum stays within `[0, SCALE]`;
//! the integer part multiplies by `1/e` once per whole unit.

use vstd::prelude::*;

use crate::fixed::EXP_CUTOFF_FX;
use crate::fixed::INV_E_FX;
use crate::fixed::SCALE;
use crate::fixed::lemma_scale_down;

verus! {

/// Term `k` of the Taylor series of `e^(-f)` (absolute value, fixed-point):
/// `f^k / k!`, evaluated with truncating division at each step.
pub open spec fn exp_term_fx(f: int, k: nat) -> int
    decreases k,
{
    if k == 0 {
        SCALE as int
    } else {
        exp_term_fx(f, (k - 1) as nat) * f / (k * (SCALE as int))
    }
}

/// Sum of the first `pairs` consecutive pairs of Taylor terms, each pair
/// `t_{2i} - t_{2i+1}` taken together so the sum never leaves `[0, t_0]`.
pub open spec fn exp_pair_sum_fx(f: int, pairs: nat) -> int
    decreases pairs,
{
    if pairs == 0 {
        0
    } else {
        exp_pair_sum_fx(f, (pairs - 1) as nat) + exp_term_fx(f, (2 * (pairs - 1)) as nat)
            - exp_term_fx(f, (2 * (pairs - 1) + 1) as nat)
    }
}

/// `e^(-f)` for a fractional exponent `0 <= f < 1`, fixed-point:
/// fourteen Taylor terms, enough for micro-unit resolution.
pub open spec fn exp_frac_fx(f: int) -> int {
    exp_pair_sum_fx(f, 7)
}

/// `s * e^(-q)`: `q` successive fixed-point multiplications by `1/e`.
pub open spec fn exp_decay_pow_fx(s: int, q: nat) -> int
    decreases q,
{
    if q == 0 {
        s
    } else {
        exp_decay_pow_fx(s, (q - 1) as nat) * (INV_E_FX as int) / (SCALE as int)
    }
}

/// `e^(-x)` in fixed point for `x >= 0`: Taylor series on the fractional
/// part, then one `1/e` multiplication per whole unit of the exponent.
pub open spec fn exp_neg_fx(x: int) -> int {
    exp_decay_pow_fx(exp_frac_fx(x % (SCALE as int)), (x / (SCALE as int)) as nat)
}

/// Taylor evaluation of `e^(-f)` for a fractional exponent.
fn exp_frac(f: u64) -> (s: u64)
    requires
        f < SCALE,
    ensures
        s as int == exp_frac_fx(f as int),
        s <= SCALE,
{
    let mut s: u64 = 0;
    let mut term: u64 = SCALE;
    let mut i: u64 = 0;
    while i < 7
        invariant
            i <= 7,
            f < SCALE,
            term as int == exp_term_fx(f as int, (2 * i) as nat),
            s as int == exp_pair_sum_fx(f as int, i as nat),
            s + term <= SCALE,
        decreases 7 - i,
    {
        proof {
            vstd::arithmetic::mul::lemma_mul_upper_bound(
                term as int,
                SCALE as int,
                f as int,
                SCALE as int,
            );
            lemma_scale_down(term as int, f as int, (2 * i + 1) as int * (SCALE as int));
        }
        let t_odd: u64 = term * f / ((2 * i + 1) * SCALE);
        proof {
            assert(t_odd as int == exp_term_fx(f as int, (2 * i + 1) as nat));
            vstd::arithmetic::mul::lemma_mul_upper_bound(
                t_odd as int,
                SCALE as int,
                f as int,
                SCALE as int,
            );
            lemma_scale_down(t_odd as int, f as int, (2 * i + 2) as int * (SCALE as int));
        }
        let t_next: u64 = t_odd * f / ((2 * i + 2) * SCALE);
        proof {
            assert(t_next as int == exp_term_fx(f as int, (2 * i + 2) as nat));
            assert(exp_pair_sum_fx(f as int, (i + 1) as nat) == exp_pair_sum_fx(f as int, i as nat)
                + exp_term_fx(f as int, (2 * i) as nat) - exp_term_fx(
                f as int,
                (2 * i + 1) as nat,
            ));
        }
        s = s + term - t_odd;
        term = t_next;
        i = i + 1;
    }
    s
}

/// `e^(-x)` in fixed point, for exponents below the cutoff.
pub fn exp_neg(x: u64) -> (r: u64)
    requires
        x < EXP_CUTOFF_FX,
    ensures
        r as int == exp_neg_fx(x as int),
        r <= SCALE,
{
    let q: u64 = x / SCALE;
    let f: u64 = x % SCALE;
    let mut s: u64 = exp_frac(f);
    let ghost s0: int = s as int;
    let mut j: u64 = 0;
    while j < q
        invariant
            j <= q,
            s as int == exp_decay_pow_fx(s0, j as nat),
            s <= SCALE,
        decreases q - j,
    {
        proof {
            lemma_scale_down(s as int, INV_E_FX as int, SCALE as int);
        }
        s = s * INV_E_FX / SCALE;
        j = j + 1;
    }
    s
}

} // verus!
