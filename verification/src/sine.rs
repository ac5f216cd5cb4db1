//! Fixed-point sine.
//!
//! The argument is reduced modulo `2*pi` and folded into the first quadrant
//! by the usual symmetries; the magnitude then comes from an alternating
//! Taylor series summed pairwise, so every partial sum stays in `[0, y]`.

use vstd::prelude::*;

use crate::fixed::HALF_PI_FX;
use crate::fixed::PI_FX;
use crate::fixed::SCALE;
use crate::fixed::TWO_PI_FX;
use crate::fixed::lemma_scale_down;

verus! {

/// Largest first-quadrant argument after folding: `pi - pi/2` rounds one
/// micro-unit above `pi/2`.
pub const QUARTER_MAX_FX: u64 = 1_570_797;

/// `y^2`, fixed-point.
pub open spec fn ysq_fx(y: int) -> int {
    y * y / (SCALE as int)
}

/// Term `j` of the Taylor series of `sin(y)` (absolute value, fixed-point):
/// `y^(2j+1) / (2j+1)!`, evaluated with truncating division at each step.
pub open spec fn sin_term_fx(y: int, j: nat) -> int
    decreases j,
{
    if j == 0 {
        y
    } else {
        sin_term_fx(y, (j - 1) as nat) * ysq_fx(y) / ((2 * j) * ((2 * j + 1) * (SCALE as int)))
    }
}

/// Sum of the first `pairs` consecutive pairs of Taylor terms, each pair
/// `t_{2i} - t_{2i+1}` taken together so the sum never leaves `[0, t_0]`.
pub open spec fn sin_pair_sum_fx(y: int, pairs: nat) -> int
    decreases pairs,
{
    if pairs == 0 {
        0
    } else {
        sin_pair_sum_fx(y, (pairs - 1) as nat) + sin_term_fx(y, (2 * (pairs - 1)) as nat)
            - sin_term_fx(y, (2 * (pairs - 1) + 1) as nat)
    }
}

/// `sin(y)` for a first-quadrant argument, fixed-point: eight Taylor terms,
/// enough for micro-unit resolution.
pub open spec fn sin_quarter_fx(y: int) -> int {
    sin_pair_sum_fx(y, 4)
}

/// Fold an argument in `[0, pi)` into the first quadrant.
pub open spec fn fold_quarter_fx(v: int) -> int {
    if v <= HALF_PI_FX as int {
        v
    } else {
        PI_FX as int - v
    }
}

/// `sin(y)` for any `y >= 0`, fixed-point: reduce modulo `2*pi`, take the
/// sign from the half-period and the magnitude from the folded quadrant.
pub open spec fn sin_fx(y: int) -> int {
    let yr = y % (TWO_PI_FX as int);
    if yr < PI_FX as int {
        sin_quarter_fx(fold_quarter_fx(yr))
    } else {
        -sin_quarter_fx(fold_quarter_fx(yr - PI_FX as int))
    }
}

/// Taylor evaluation of `sin(y)` on the (slightly padded) first quadrant.
fn sin_quarter(y: u64) -> (s: u64)
    requires
        y <= QUARTER_MAX_FX,
    ensures
        s as int == sin_quarter_fx(y as int),
        s <= y,
{
    proof {
        vstd::arithmetic::mul::lemma_mul_upper_bound(
            y as int,
            QUARTER_MAX_FX as int,
            y as int,
            QUARTER_MAX_FX as int,
        );
        vstd::arithmetic::div_mod::lemma_div_is_ordered(
            (y * y) as int,
            QUARTER_MAX_FX as int * QUARTER_MAX_FX as int,
            SCALE as int,
        );
        vstd::arithmetic::div_mod::lemma_div_pos_is_pos((y * y) as int, SCALE as int);
    }
    let ysq: u64 = y * y / SCALE;
    let mut s: u64 = 0;
    let mut term: u64 = y;
    let mut j: u64 = 0;
    while j < 4
        invariant
            j <= 4,
            y <= QUARTER_MAX_FX,
            ysq as int == ysq_fx(y as int),
            ysq <= 2_467_403,
            term as int == sin_term_fx(y as int, (2 * j) as nat),
            s as int == sin_pair_sum_fx(y as int, j as nat),
            s + term <= y,
        decreases 4 - j,
    {
        proof {
            assert(6_000_000 <= (4 * j as int + 2) * ((4 * j as int + 3) * (SCALE as int))
                <= 342_000_000) by (nonlinear_arith)
                requires
                    j < 4,
            ;
            vstd::arithmetic::mul::lemma_mul_upper_bound(
                term as int,
                QUARTER_MAX_FX as int,
                ysq as int,
                2_467_403,
            );
            lemma_scale_down(
                term as int,
                ysq as int,
                (4 * j + 2) as int * ((4 * j + 3) as int * (SCALE as int)),
            );
        }
        let t_odd: u64 = term * ysq / ((4 * j + 2) * ((4 * j + 3) * SCALE));
        proof {
            assert(t_odd as int == sin_term_fx(y as int, (2 * j + 1) as nat));
            assert(6_000_000 <= (4 * j as int + 4) * ((4 * j as int + 5) * (SCALE as int))
                <= 342_000_000) by (nonlinear_arith)
                requires
                    j < 4,
            ;
            vstd::arithmetic::mul::lemma_mul_upper_bound(
                t_odd as int,
                QUARTER_MAX_FX as int,
                ysq as int,
                2_467_403,
            );
            lemma_scale_down(
                t_odd as int,
                ysq as int,
                (4 * j + 4) as int * ((4 * j + 5) as int * (SCALE as int)),
            );
        }
        let t_next: u64 = t_odd * ysq / ((4 * j + 4) * ((4 * j + 5) * SCALE));
        proof {
            assert(t_next as int == sin_term_fx(y as int, (2 * j + 2) as nat));
            assert(sin_pair_sum_fx(y as int, (j + 1) as nat) == sin_pair_sum_fx(y as int, j as nat)
                + sin_term_fx(y as int, (2 * j) as nat) - sin_term_fx(
                y as int,
                (2 * j + 1) as nat,
            ));
        }
        s = s + term - t_odd;
        term = t_next;
        j = j + 1;
    }
    s
}

/// `sin(y)` for an argument already reduced modulo `2*pi`.
pub fn sin_reduced(yr: u64) -> (s: i64)
    requires
        yr < TWO_PI_FX,
    ensures
        s as int == sin_fx(yr as int),
        -(QUARTER_MAX_FX as i64) <= s <= QUARTER_MAX_FX as i64,
{
    proof {
        vstd::arithmetic::div_mod::lemma_small_mod(yr as nat, TWO_PI_FX as nat);
    }
    if yr < PI_FX {
        let v: u64 = if yr <= HALF_PI_FX {
            yr
        } else {
            PI_FX - yr
        };
        let m: u64 = sin_quarter(v);
        m as i64
    } else {
        let half: u64 = yr - PI_FX;
        let v: u64 = if half <= HALF_PI_FX {
            half
        } else {
            PI_FX - half
        };
        let m: u64 = sin_quarter(v);
        -(m as i64)
    }
}

} // verus!
