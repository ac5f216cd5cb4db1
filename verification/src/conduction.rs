//! Transient heat conduction in a sphere with a fixed surface temperature.
//!
//! The temperature at radius `r` and time `t` inside a sphere of radius `R`
//! that starts uniformly at `T0` and whose surface is held at `Tw` is the
//! classical series
//!
//! `T(r, t) = Tw + (T0 - Tw) * (2R / (pi r)) *
//!     sum over n >= 1 of ((-1)^(n-1) / n) * sin(n pi r / R) * e^(-n^2 pi^2 t / tau0)`
//!
//! with diffusion time constant `tau0 = c * rho * R^2 / k`.  Evaluation
//! truncates the series at 99 terms and, because a truncated series can
//! overshoot near `t = 0`, clamps any result that leaves the closed interval
//! between the starting and water temperatures back to the starting
//! temperature.  Times at or before zero and a probe radius of zero short
//! back to the starting temperature as well.

use vstd::prelude::*;

use crate::expdec::exp_neg;
use crate::expdec::exp_neg_fx;
use crate::fixed::EXP_CUTOFF_FX;
use crate::fixed::PI_FX;
use crate::fixed::PI_SQ_FX;
use crate::fixed::SCALE;
use crate::fixed::TWO_PI_FX;
use crate::fixed::lemma_scale_down;
use crate::params::BoilSessionParameters;
use crate::params::EggParameters;
use crate::params::egg_valid;
use crate::params::session_valid;
use crate::sine::QUARTER_MAX_FX;
use crate::sine::sin_fx;
use crate::sine::sin_reduced;

verus! {

/// Largest magnitude of the truncated series sum: 99 terms, each bounded by
/// the largest sine magnitude.
pub const SERIES_SUM_MAX_FX: i64 = 155_508_903;

/// The diffusion time constant `tau0 = c * rho * R^2 / k`, fixed-point.
pub open spec fn tau0_fx(e: EggParameters) -> int {
    let cp = (e.specific_heat_capacity_white as int) * (e.density_white as int) / (SCALE as int);
    let rr = (e.radius as int) * (e.radius as int) / (SCALE as int);
    cp * rr / (SCALE as int) * (SCALE as int) / (e.thermal_conductivity_white as int)
}

/// The decay exponent of series term `n`: `n^2 pi^2 t / tau0`, fixed-point.
/// A degenerate (zero) time constant decays instantly: the exponent
/// saturates at the cutoff.
pub open spec fn decay_exponent_fx(n: int, t: int, tau0: int) -> int {
    if tau0 <= 0 {
        EXP_CUTOFF_FX as int
    } else {
        (PI_SQ_FX as int) * (n * n) * t / tau0
    }
}

/// The sine argument of series term `n`: `n pi r / R`, fixed-point.
pub open spec fn probe_angle_fx(n: int, r: int, radius: int) -> int {
    (PI_FX as int) * n * r / radius
}

/// Series term `n`, fixed-point: `((-1)^(n-1) / n) * sin(n pi r / R) *
/// e^(-n^2 pi^2 t / tau0)`.  Terms whose exponent reaches the cutoff vanish.
pub open spec fn series_term_fx(n: int, r: int, t: int, p: BoilSessionParameters) -> int {
    let x = decay_exponent_fx(n, t, tau0_fx(p.egg));
    if x >= EXP_CUTOFF_FX as int {
        0
    } else {
        let sv = sin_fx(probe_angle_fx(n, r, p.egg.radius as int));
        let smag = if sv < 0 {
            -sv
        } else {
            sv
        };
        let mag = smag * exp_neg_fx(x) / (n * (SCALE as int));
        if (n % 2 == 1) == (sv >= 0) {
            mag
        } else {
            -mag
        }
    }
}

/// The sum of the first `count` series terms.
pub open spec fn series_sum_fx(count: int, r: int, t: int, p: BoilSessionParameters) -> int
    decreases count,
{
    if count <= 0 {
        0
    } else {
        series_sum_fx(count - 1, r, t, p) + series_term_fx(count, r, t, p)
    }
}

/// The unclamped series evaluation
/// `Tw + (T0 - Tw) * (2R / (pi r)) * sum`, fixed-point, carried out in
/// magnitudes so every division acts on nonnegative values.
pub open spec fn raw_temperature_fx(r: int, t: int, p: BoilSessionParameters) -> int {
    let sum = series_sum_fx(99, r, t, p);
    let smag = if sum < 0 {
        -sum
    } else {
        sum
    };
    let prefactor = 2 * (p.egg.radius as int) * (SCALE as int) * (SCALE as int) / ((PI_FX as int)
        * r);
    let dmag = if p.temperature_egg_start >= p.temperature_water {
        p.temperature_egg_start - p.temperature_water
    } else {
        p.temperature_water - p.temperature_egg_start
    };
    let m1 = dmag * prefactor / (SCALE as int);
    let m2 = m1 * smag / (SCALE as int);
    if (p.temperature_egg_start >= p.temperature_water) == (sum >= 0) {
        p.temperature_water + m2
    } else {
        p.temperature_water - m2
    }
}

/// The temperature at radius `r` and time `t`: the starting temperature at
/// or before time zero and at the center singularity, otherwise the series
/// value clamped back to the starting temperature whenever it leaves the
/// closed interval between the starting and water temperatures.
pub open spec fn temperature_at_fx(r: int, t: int, p: BoilSessionParameters) -> int {
    if t <= 0 || r <= 0 {
        p.temperature_egg_start as int
    } else {
        let raw = raw_temperature_fx(r, t, p);
        if p.temperature_egg_start <= raw && raw <= p.temperature_water {
            raw
        } else {
            p.temperature_egg_start as int
        }
    }
}

/// The fixed empirical fraction of the sphere radius at which the yolk
/// center sits: `0.69 * R`.
pub open spec fn yolk_radius_fx(e: EggParameters) -> int {
    69 * (e.radius as int) / 100
}

/// The yolk-center temperature: the conduction solution at `0.69 * R`.
pub open spec fn yolk_temperature_fx(t: int, p: BoilSessionParameters) -> int {
    temperature_at_fx(yolk_radius_fx(p.egg), t, p)
}

/// The diffusion time constant `tau0 = c * rho * R^2 / k`.
pub fn diffusion_time_constant(egg: &EggParameters) -> (tau0: u128)
    requires
        egg_valid(*egg),
    ensures
        tau0 as int == tau0_fx(*egg),
{
    proof {
        vstd::arithmetic::mul::lemma_mul_upper_bound(
            egg.specific_heat_capacity_white as int,
            1_000_000_000,
            egg.density_white as int,
            1_000_000_000,
        );
        vstd::arithmetic::mul::lemma_mul_upper_bound(
            egg.radius as int,
            1_000_000_000,
            egg.radius as int,
            1_000_000_000,
        );
    }
    let cp: u64 = egg.specific_heat_capacity_white * egg.density_white / SCALE;
    let rr: u64 = egg.radius * egg.radius / SCALE;
    proof {
        vstd::arithmetic::div_mod::lemma_div_is_ordered(
            (egg.specific_heat_capacity_white as int) * (egg.density_white as int),
            1_000_000_000_000_000_000int,
            SCALE as int,
        );
        vstd::arithmetic::div_mod::lemma_div_is_ordered(
            (egg.radius as int) * (egg.radius as int),
            1_000_000_000_000_000_000int,
            SCALE as int,
        );
        vstd::arithmetic::mul::lemma_mul_upper_bound(
            cp as int,
            1_000_000_000_000,
            rr as int,
            1_000_000_000_000,
        );
        vstd::arithmetic::div_mod::lemma_div_is_ordered(
            (cp as int) * (rr as int),
            1_000_000_000_000_000_000_000_000int,
            SCALE as int,
        );
    }
    let a: u128 = (cp as u128) * (rr as u128) / (SCALE as u128);
    a * (SCALE as u128) / (egg.thermal_conductivity_white as u128)
}

/// Series term `n` of the conduction solution.
fn series_term(n: u64, r: u64, t: i64, tau0: u128, p: &BoilSessionParameters) -> (term: i64)
    requires
        1 <= n <= 99,
        1 <= r,
        1 <= t,
        session_valid(*p),
        tau0 as int == tau0_fx(p.egg),
    ensures
        term as int == series_term_fx(n as int, r as int, t as int, *p),
        -(QUARTER_MAX_FX as i64) <= term <= QUARTER_MAX_FX as i64,
{
    let x128: u128 = if tau0 == 0 {
        EXP_CUTOFF_FX as u128
    } else {
        proof {
            assert(n as int * n as int <= 9801) by (nonlinear_arith)
                requires
                    n <= 99,
            ;
            vstd::arithmetic::mul::lemma_mul_upper_bound(
                (PI_SQ_FX as int) * (n as int * n as int),
                96_731_988_804,
                t as int,
                9_223_372_036_854_775_807,
            );
            vstd::arithmetic::mul::lemma_mul_nonnegative(
                (PI_SQ_FX as int) * (n as int * n as int),
                t as int,
            );
        }
        let nn: u64 = n * n;
        (PI_SQ_FX as u128) * (nn as u128) * (t as u128) / tau0
    };
    if x128 >= EXP_CUTOFF_FX as u128 {
        return 0;
    }
    let e: u64 = exp_neg(x128 as u64);
    proof {
        vstd::arithmetic::mul::lemma_mul_upper_bound(
            (PI_FX as int) * (n as int),
            311_017_707,
            r as int,
            18_446_744_073_709_551_615,
        );
        vstd::arithmetic::mul::lemma_mul_nonnegative((PI_FX as int) * (n as int), r as int);
    }
    let angle_reduced: u128 = (PI_FX as u128) * (n as u128) * (r as u128) / (p.egg.radius as u128)
        % (TWO_PI_FX as u128);
    proof {
        vstd::arithmetic::div_mod::lemma_small_mod(angle_reduced as nat, TWO_PI_FX as nat);
    }
    let sv: i64 = sin_reduced(angle_reduced as u64);
    let smag: u64 = if sv < 0 {
        (-sv) as u64
    } else {
        sv as u64
    };
    proof {
        vstd::arithmetic::mul::lemma_mul_upper_bound(
            smag as int,
            QUARTER_MAX_FX as int,
            e as int,
            SCALE as int,
        );
        lemma_scale_down(smag as int, e as int, n as int * (SCALE as int));
    }
    let mag: u64 = smag * e / (n * SCALE);
    if (n % 2 == 1) == (sv >= 0) {
        mag as i64
    } else {
        -(mag as i64)
    }
}

/// The truncated series: the sum of terms 1 through 99.
fn series_sum(r: u64, t: i64, p: &BoilSessionParameters) -> (sum: i64)
    requires
        1 <= r,
        1 <= t,
        session_valid(*p),
    ensures
        sum as int == series_sum_fx(99, r as int, t as int, *p),
        -SERIES_SUM_MAX_FX <= sum <= SERIES_SUM_MAX_FX,
{
    let tau0: u128 = diffusion_time_constant(&p.egg);
    let mut sum: i64 = 0;
    let mut n: u64 = 1;
    while n <= 99
        invariant
            1 <= n <= 100,
            1 <= r,
            1 <= t,
            session_valid(*p),
            tau0 as int == tau0_fx(p.egg),
            sum as int == series_sum_fx(n as int - 1, r as int, t as int, *p),
            -(n as int - 1) * (QUARTER_MAX_FX as int) <= sum as int <= (n as int - 1) * (
            QUARTER_MAX_FX as int),
        decreases 100 - n,
    {
        let term: i64 = series_term(n, r, t, tau0, p);
        sum = sum + term;
        n = n + 1;
    }
    sum
}

/// The temperature at a probe radius and elapsed time, for the given
/// session.  At or before time zero, and at the exact center, this is the
/// starting temperature; otherwise it is the truncated series value, sent
/// back to the starting temperature whenever truncation pushes it outside
/// the closed interval between the starting and water temperatures.
pub fn get_egg_temperature_at_radius(radius: u64, time: i64, parameters: &BoilSessionParameters) -> (
    temperature: i64)
    requires
        session_valid(*parameters),
    ensures
        temperature as int == temperature_at_fx(radius as int, time as int, *parameters),
        time <= 0 ==> temperature == parameters.temperature_egg_start,
        temperature == parameters.temperature_egg_start || (parameters.temperature_egg_start
            <= temperature <= parameters.temperature_water),
{
    if time <= 0 || radius == 0 {
        return parameters.temperature_egg_start;
    }
    let sum: i64 = series_sum(radius, time, parameters);
    let smag: u64 = if sum < 0 {
        (-sum) as u64
    } else {
        sum as u64
    };
    proof {
        vstd::arithmetic::mul::lemma_mul_inequality(1, radius as int, PI_FX as int);
        vstd::arithmetic::mul::lemma_mul_is_commutative(radius as int, PI_FX as int);
        vstd::arithmetic::div_mod::lemma_div_is_ordered_by_denominator(
            2 * (parameters.egg.radius as int) * (SCALE as int) * (SCALE as int),
            PI_FX as int,
            (PI_FX as int) * (radius as int),
        );
        vstd::arithmetic::mul::lemma_mul_strictly_positive(PI_FX as int, radius as int);
    }
    let numerator: u128 = 2 * (parameters.egg.radius as u128) * (SCALE as u128) * (SCALE as u128);
    let prefactor: u64 = (numerator / ((PI_FX as u128) * (radius as u128))) as u64;
    let dmag: u64 = if parameters.temperature_egg_start >= parameters.temperature_water {
        (parameters.temperature_egg_start - parameters.temperature_water) as u64
    } else {
        (parameters.temperature_water - parameters.temperature_egg_start) as u64
    };
    proof {
        vstd::arithmetic::mul::lemma_mul_upper_bound(
            dmag as int,
            2_000_000_000,
            prefactor as int,
            636_619_702_170_204,
        );
        vstd::arithmetic::div_mod::lemma_div_pos_is_pos(
            (dmag as int) * (prefactor as int),
            SCALE as int,
        );
        vstd::arithmetic::div_mod::lemma_div_is_ordered(
            (dmag as int) * (prefactor as int),
            2_000_000_000int * 636_619_702_170_204,
            SCALE as int,
        );
    }
    let m1: u128 = (dmag as u128) * (prefactor as u128) / (SCALE as u128);
    proof {
        vstd::arithmetic::mul::lemma_mul_upper_bound(
            m1 as int,
            1_273_239_404_340_408_000,
            smag as int,
            SERIES_SUM_MAX_FX as int,
        );
        vstd::arithmetic::mul::lemma_mul_nonnegative(m1 as int, smag as int);
        vstd::arithmetic::div_mod::lemma_div_pos_is_pos(
            (m1 as int) * (smag as int),
            SCALE as int,
        );
        vstd::arithmetic::div_mod::lemma_div_is_ordered(
            (m1 as int) * (smag as int),
            1_273_239_404_340_408_000int * (SERIES_SUM_MAX_FX as int),
            SCALE as int,
        );
    }
    let m2: u128 = m1 * (smag as u128) / (SCALE as u128);
    let raw: i128 = if (parameters.temperature_egg_start >= parameters.temperature_water) == (sum
        >= 0) {
        parameters.temperature_water as i128 + m2 as i128
    } else {
        parameters.temperature_water as i128 - m2 as i128
    };
    if parameters.temperature_egg_start as i128 <= raw && raw
        <= parameters.temperature_water as i128 {
        raw as i64
    } else {
        parameters.temperature_egg_start
    }
}

/// The yolk-center temperature: the conduction solution probed at the
/// fixed empirical fraction `0.69` of the sphere radius.
pub fn get_yolk_temperature(time: i64, parameters: &BoilSessionParameters) -> (temperature: i64)
    requires
        session_valid(*parameters),
    ensures
        temperature as int == yolk_temperature_fx(time as int, *parameters),
        time <= 0 ==> temperature == parameters.temperature_egg_start,
        temperature == parameters.temperature_egg_start || (parameters.temperature_egg_start
            <= temperature <= parameters.temperature_water),
{
    get_egg_temperature_at_radius(69 * parameters.egg.radius / 100, time, parameters)
}

} // verus!
