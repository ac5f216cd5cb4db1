//! The model's general guarantees, stated and proved over the
//! specification functions that the executable contracts use.

use vstd::prelude::*;

use crate::cbrt::lemma_icbrt_monotone;
use crate::cbrt::lemma_icbrt_positive;
use crate::conduction::decay_exponent_fx;
use crate::conduction::raw_temperature_fx;
use crate::conduction::series_sum_fx;
use crate::conduction::series_term_fx;
use crate::conduction::tau0_fx;
use crate::conduction::temperature_at_fx;
use crate::conduction::yolk_radius_fx;
use crate::conduction::yolk_temperature_fx;
use crate::fixed::PI_FX;
use crate::fixed::PI_SQ_FX;
use crate::fixed::SCALE;
use crate::params::BoilSessionParameters;
use crate::params::DENSITY_WHITE_FX;
use crate::params::FX_FOURTH_POWER;
use crate::params::QUANTITY_MAX_FX;
use crate::params::lemma_radius_cbrt_input;
use crate::params::radius_from_mass_fx;
use crate::params::session_valid;
use crate::solver::GAIN_DEN;
use crate::solver::GAIN_NUM;
use crate::solver::TOLERANCE_FX;
use crate::solver::lemma_solver_converged;
use crate::solver::solve_rec_fx;

verus! {

/// At time zero (and any time before it), the temperature is the starting
/// temperature at every probe radius, and so is the yolk temperature.
pub proof fn lemma_start_temperature(r: int, t: int, p: BoilSessionParameters)
    requires
        t <= 0,
    ensures
        temperature_at_fx(r, t, p) == p.temperature_egg_start,
        yolk_temperature_fx(t, p) == p.temperature_egg_start,
{
}

/// Whenever the starting temperature does not exceed the water temperature,
/// the evaluated temperature stays in the closed interval between the two:
/// no truncation overshoot escapes the clamp.
pub proof fn lemma_temperature_within_bounds(r: int, t: int, p: BoilSessionParameters)
    requires
        p.temperature_egg_start <= p.temperature_water,
    ensures
        p.temperature_egg_start <= temperature_at_fx(r, t, p) <= p.temperature_water,
        p.temperature_egg_start <= yolk_temperature_fx(t, p) <= p.temperature_water,
{
}

/// Every series term vanishes once the slowest decay exponent has reached
/// the cutoff, which `t >= 3 * tau0` guarantees.
proof fn lemma_term_vanishes(n: int, r: int, t: int, p: BoilSessionParameters)
    requires
        1 <= n,
        1 <= t,
        t >= 3 * tau0_fx(p.egg),
    ensures
        series_term_fx(n, r, t, p) == 0,
{
    let tau0 = tau0_fx(p.egg);
    if tau0 > 0 {
        vstd::arithmetic::mul::lemma_mul_inequality(1, n, n);
        vstd::arithmetic::mul::lemma_mul_basics(n);
        assert(1 <= n * n);
        vstd::arithmetic::mul::lemma_mul_left_inequality(PI_SQ_FX as int, 1, n * n);
        vstd::arithmetic::mul::lemma_mul_basics(PI_SQ_FX as int);
        assert(PI_SQ_FX as int <= (PI_SQ_FX as int) * (n * n));
        vstd::arithmetic::mul::lemma_mul_inequality(
            PI_SQ_FX as int,
            (PI_SQ_FX as int) * (n * n),
            t,
        );
        assert((PI_SQ_FX as int) * t <= (PI_SQ_FX as int) * (n * n) * t);
        vstd::arithmetic::mul::lemma_mul_left_inequality(PI_SQ_FX as int, 3 * tau0, t);
        vstd::arithmetic::mul::lemma_mul_is_associative(PI_SQ_FX as int, 3, tau0);
        assert((PI_SQ_FX as int) * (3 * tau0) == 29_608_812 * tau0);
        vstd::arithmetic::div_mod::lemma_div_is_ordered(
            29_608_812 * tau0,
            (PI_SQ_FX as int) * (n * n) * t,
            tau0,
        );
        vstd::arithmetic::mul::lemma_mul_is_commutative(29_608_812, tau0);
        vstd::arithmetic::div_mod::lemma_div_multiples_vanish(29_608_812, tau0);
        assert(decay_exponent_fx(n, t, tau0) >= 29_608_812);
    }
}

/// The whole truncated series vanishes once every term does.
proof fn lemma_sum_vanishes(count: int, r: int, t: int, p: BoilSessionParameters)
    requires
        1 <= t,
        t >= 3 * tau0_fx(p.egg),
    ensures
        series_sum_fx(count, r, t, p) == 0,
    decreases count,
{
    if count > 0 {
        lemma_sum_vanishes(count - 1, r, t, p);
        lemma_term_vanishes(count, r, t, p);
    }
}

/// Once the elapsed time reaches a few diffusion time constants, the yolk
/// temperature has settled at the water temperature exactly: every series
/// term has decayed to nothing at this resolution.
pub proof fn lemma_long_boil_reaches_water(t: int, p: BoilSessionParameters)
    requires
        session_valid(p),
        p.temperature_egg_start <= p.temperature_water,
        p.egg.radius >= 2,
        1 <= t,
        t >= 3 * tau0_fx(p.egg),
    ensures
        yolk_temperature_fx(t, p) == p.temperature_water,
{
    let ry = yolk_radius_fx(p.egg);
    vstd::arithmetic::mul::lemma_mul_left_inequality(69, 2, p.egg.radius as int);
    vstd::arithmetic::div_mod::lemma_div_is_ordered(138, 69 * (p.egg.radius as int), 100);
    assert(ry >= 1);
    lemma_sum_vanishes(99, ry, t, p);
    let sum = series_sum_fx(99, ry, t, p);
    assert(sum == 0);
    let prefactor = 2 * (p.egg.radius as int) * (SCALE as int) * (SCALE as int) / ((PI_FX as int)
        * ry);
    let dmag = if p.temperature_egg_start >= p.temperature_water {
        p.temperature_egg_start - p.temperature_water
    } else {
        p.temperature_water - p.temperature_egg_start
    };
    let m1 = dmag * prefactor / (SCALE as int);
    vstd::arithmetic::mul::lemma_mul_basics(m1);
    vstd::arithmetic::div_mod::lemma_div_basics_1(SCALE as int);
    assert(m1 * 0 / (SCALE as int) == 0);
    assert(raw_temperature_fx(ry, t, p) == p.temperature_water);
}

/// Wherever the relaxation at the default gain reports convergence for a
/// target strictly between the starting and water temperatures, probing the
/// yolk at the returned time lands within the tolerance of the target: the
/// round trip closes.
pub proof fn lemma_round_trip(target: int, p: BoilSessionParameters)
    requires
        p.temperature_egg_start < target < p.temperature_water,
    ensures
        ({
            let outcome = solve_rec_fx(target, p, 0, GAIN_NUM as int, GAIN_DEN as int, 99);
            outcome.1 ==> -(TOLERANCE_FX as int) < target - yolk_temperature_fx(outcome.0, p)
                < TOLERANCE_FX as int
        }),
{
    lemma_solver_converged(target, p, 0, GAIN_NUM as int, GAIN_DEN as int, 99);
}

/// The derived radius never decreases as the egg mass grows, and every
/// positive mass yields a positive radius.
pub proof fn lemma_radius_monotone_in_mass(mass1: int, mass2: int)
    requires
        1 <= mass1 <= mass2 <= QUANTITY_MAX_FX,
    ensures
        radius_from_mass_fx(mass1) <= radius_from_mass_fx(mass2),
        1 <= radius_from_mass_fx(mass1),
{
    let d: int = 4 * (PI_FX as int) * (DENSITY_WHITE_FX as int);
    let u1 = 3 * mass1 * (FX_FOURTH_POWER as int) / d;
    let u2 = 3 * mass2 * (FX_FOURTH_POWER as int) / d;
    lemma_radius_cbrt_input(mass1);
    lemma_radius_cbrt_input(mass2);
    assert(3 * mass1 * (FX_FOURTH_POWER as int) == mass1 * 3_000_000_000_000_000_000_000_000
        && 3 * mass2 * (FX_FOURTH_POWER as int) == mass2 * 3_000_000_000_000_000_000_000_000)
        by (nonlinear_arith);
    vstd::arithmetic::mul::lemma_mul_inequality(mass1, mass2, 3_000_000_000_000_000_000_000_000);
    vstd::arithmetic::div_mod::lemma_div_is_ordered(
        3 * mass1 * (FX_FOURTH_POWER as int),
        3 * mass2 * (FX_FOURTH_POWER as int),
        d,
    );
    lemma_icbrt_monotone(u1, u2);
    lemma_icbrt_positive(u1);
}

} // verus!
