//! Integer cube root, bit by bit.

use vstd::arithmetic::power2::lemma2_to64;
use vstd::arithmetic::power2::lemma_pow2_pos;
use vstd::arithmetic::power2::lemma_pow2_unfold;
use vstd::arithmetic::power2::pow2;
use vstd::prelude::*;

verus! {

/// Largest input the cube-root routine accepts; its root is `10^9`.
pub const CBRT_MAX_INPUT: u128 = 1_000_000_000_000_000_000_000_000_000;

/// Initial trial bit of the cube root: `2^30`, above the root of any
/// accepted input.
pub const CBRT_TOP_BIT: u64 = 1_073_741_824;

pub open spec fn cube(x: int) -> int {
    x * x * x
}

/// The trial bit after `steps` halvings of the top bit.
pub open spec fn trial_bit_fx(steps: nat) -> int {
    pow2((30 - steps) as nat) as int
}

/// One descent step of the cube root: keep the trial bit if the candidate's
/// cube still fits under `u`.
pub open spec fn cbrt_step_fx(u: int, r: int, steps: nat) -> int {
    if cube(r + trial_bit_fx(steps)) <= u {
        r + trial_bit_fx(steps)
    } else {
        r
    }
}

/// The cube-root accumulator after descending from the top bit through
/// trial bits `steps`, `steps + 1`, ..., `30`, starting at `r`.
pub open spec fn cbrt_rec_fx(u: int, r: int, steps: nat) -> int
    decreases 31 - steps,
{
    if steps >= 30 {
        cbrt_step_fx(u, r, 30)
    } else {
        cbrt_rec_fx(u, cbrt_step_fx(u, r, steps), (steps + 1) as nat)
    }
}

/// The integer cube root: the largest `r` with `r^3 <= u`.
pub open spec fn icbrt_fx(u: int) -> int {
    cbrt_rec_fx(u, 0, 0)
}

/// Cubes of the few literal bounds the routine compares against.
proof fn lemma_cube_literals()
    ensures
        cube(1int) == 1,
        cube(2_147_483_648int) == 9903520314283042199192993792int,
        cube(1_000_000_001int) == 1000000003000000003000000001int,
{
    assert(1int * 1int * 1int == 1int) by (nonlinear_arith);
    assert(2_147_483_648int * 2_147_483_648int * 2_147_483_648int
        == 9903520314283042199192993792int) by (nonlinear_arith);
    assert(1_000_000_001int * 1_000_000_001int * 1_000_000_001int
        == 1000000003000000003000000001int) by (nonlinear_arith);
}

proof fn lemma_cube_monotone(a: int, b: int)
    requires
        0 <= a <= b,
    ensures
        cube(a) <= cube(b),
{
    assert(a * a * a <= b * b * b) by (nonlinear_arith)
        requires
            0 <= a <= b,
    ;
}

proof fn lemma_trial_bit(steps: nat)
    requires
        steps <= 30,
    ensures
        1 <= trial_bit_fx(steps),
        steps == 0 ==> trial_bit_fx(steps) == CBRT_TOP_BIT as int,
        steps == 30 ==> trial_bit_fx(steps) == 1,
        steps < 30 ==> trial_bit_fx(steps) == 2 * trial_bit_fx((steps + 1) as nat),
{
    lemma_pow2_pos((30 - steps) as nat);
    lemma2_to64();
    if steps < 30 {
        lemma_pow2_unfold((30 - steps) as nat);
    }
}

/// Descending through the remaining bits keeps the accumulator pinned by
/// `cube(r) <= u < cube(r + 2 * bit)` and ends exactly one apart.
proof fn lemma_cbrt_rec_bounds(u: int, r: int, steps: nat)
    requires
        steps <= 30,
        0 <= r,
        cube(r) <= u,
        u < cube(r + 2 * trial_bit_fx(steps)),
    ensures
        r <= cbrt_rec_fx(u, r, steps),
        cube(cbrt_rec_fx(u, r, steps)) <= u,
        u < cube(cbrt_rec_fx(u, r, steps) + 1),
    decreases 31 - steps,
{
    lemma_trial_bit(steps);
    let bit = trial_bit_fx(steps);
    let r2 = cbrt_step_fx(u, r, steps);
    if steps >= 30 {
        assert(bit == 1);
    } else {
        let nbit = trial_bit_fx((steps + 1) as nat);
        assert(bit == 2 * nbit);
        if cube(r + bit) <= u {
            assert(r2 + 2 * nbit == r + 2 * bit);
        } else {
            assert(r + bit == r2 + 2 * nbit);
        }
        lemma_cbrt_rec_bounds(u, r2, (steps + 1) as nat);
    }
}

/// The cube root is pinned between the cubes of itself and its successor.
pub proof fn lemma_icbrt_bounds(u: int)
    requires
        0 <= u <= CBRT_MAX_INPUT as int,
    ensures
        0 <= icbrt_fx(u) <= 1_000_000_000,
        cube(icbrt_fx(u)) <= u,
        u < cube(icbrt_fx(u) + 1),
{
    lemma_trial_bit(0);
    lemma_cube_literals();
    assert(0 + 2 * trial_bit_fx(0) == 2_147_483_648int);
    assert(u < cube(0 + 2 * trial_bit_fx(0)));
    lemma_cbrt_rec_bounds(u, 0, 0);
    let r = icbrt_fx(u);
    if r > 1_000_000_000 {
        lemma_cube_monotone(1_000_000_001, r);
    }
}

/// The cube root never decreases when its input grows.
pub proof fn lemma_icbrt_monotone(u1: int, u2: int)
    requires
        0 <= u1 <= u2 <= CBRT_MAX_INPUT as int,
    ensures
        icbrt_fx(u1) <= icbrt_fx(u2),
{
    lemma_icbrt_bounds(u1);
    lemma_icbrt_bounds(u2);
    let r1 = icbrt_fx(u1);
    let r2 = icbrt_fx(u2);
    if r1 > r2 {
        lemma_cube_monotone(r2 + 1, r1);
        assert(u2 < cube(r2 + 1));
        assert(cube(r1) <= u1);
        assert(false);
    }
}

/// A positive input has a positive cube root.
pub proof fn lemma_icbrt_positive(u: int)
    requires
        1 <= u <= CBRT_MAX_INPUT as int,
    ensures
        icbrt_fx(u) >= 1,
{
    lemma_icbrt_bounds(u);
    lemma_cube_literals();
    assert(icbrt_fx(u) >= 1);
}

/// Bit-by-bit integer cube root.
pub fn icbrt(u: u128) -> (r: u64)
    requires
        u <= CBRT_MAX_INPUT,
    ensures
        r as int == icbrt_fx(u as int),
        cube(r as int) <= u as int,
        (u as int) < cube(r as int + 1),
        r <= 1_000_000_000,
{
    let mut r: u64 = 0;
    let mut bit: u64 = CBRT_TOP_BIT;
    let mut steps: u64 = 0;
    proof {
        lemma_trial_bit(0);
        lemma_cube_literals();
        assert(0 + 2 * trial_bit_fx(0) == 2_147_483_648int);
        assert((u as int) < cube(0 + 2 * trial_bit_fx(0)));
    }
    while steps <= 30
        invariant
            steps <= 31,
            u <= CBRT_MAX_INPUT,
            bit <= CBRT_TOP_BIT,
            steps <= 30 ==> bit as int == trial_bit_fx(steps as nat),
            cube(r as int) <= u as int,
            steps <= 30 ==> (u as int) < cube(r as int + 2 * bit as int),
            steps == 31 ==> (u as int) < cube(r as int + 1),
            r <= 1_000_000_000,
            steps <= 30 ==> cbrt_rec_fx(u as int, r as int, steps as nat) == icbrt_fx(u as int),
            steps == 31 ==> r as int == icbrt_fx(u as int),
        decreases 31 - steps,
    {
        proof {
            lemma_trial_bit(steps as nat);
        }
        let c: u64 = r + bit;
        proof {
            assert(c as int * c as int <= 2_073_741_824int * 2_073_741_824int && c as int * c as int
                * c as int <= 2_073_741_824int * 2_073_741_824int * 2_073_741_824int && 0 <= c as int
                * c as int) by (nonlinear_arith)
                requires
                    0 <= c as int <= 2_073_741_824int,
            ;
        }
        let c3: u128 = (c as u128) * (c as u128) * (c as u128);
        if c3 <= u {
            proof {
                lemma_cube_literals();
                if c > 1_000_000_000 {
                    lemma_cube_monotone(1_000_000_001, c as int);
                }
            }
            r = c;
        }
        proof {
            if steps < 30 {
                lemma_trial_bit((steps + 1) as nat);
            }
        }
        bit = bit / 2;
        steps = steps + 1;
    }
    r
}

} // verus!
