//! Inversion of the yolk probe: the boiling time for a target temperature.
//!
//! Targets above the water temperature are unreachable; targets at or below
//! the starting temperature are satisfied before boiling starts.  Anything
//! in between is solved by a bounded fixed-gain relaxation: starting from a
//! guess of zero, the signed temperature error is scaled by a constant gain
//! and added to the guess, until the error falls inside the tolerance or the
//! iteration cap is hit.  Hitting the cap is tolerated: the best current
//! guess comes back, marked as unconverged.

use vstd::prelude::*;

use crate::conduction::get_yolk_temperature;
use crate::conduction::yolk_temperature_fx;
use crate::params::BoilSessionParameters;
use crate::params::TEMP_MAX_FX;
use crate::params::session_valid;

verus! {

/// Convergence tolerance of the relaxation: a tenth of a degree.
pub const TOLERANCE_FX: i64 = 100_000;

/// Numerator of the default relaxation gain.  The gain is a tunable
/// constant, about 4.3 seconds of boiling per degree of error; it is an
/// empirical step size, not derived from the diffusion time constant.
pub const GAIN_NUM: u64 = 30;

/// Denominator of the default relaxation gain.
pub const GAIN_DEN: u64 = 7;

/// Largest accepted gain numerator: a million seconds of boiling per degree
/// of error is far past any useful step size.
pub const GAIN_NUM_MAX: u64 = 1_000_000;

/// Iteration cap of the relaxation: bounded latency beats full convergence.
pub const SOLVER_CAP: u64 = 99;

/// Largest guess update per iteration: `2 * TEMP_MAX_FX * GAIN_NUM_MAX`.
pub const STEP_MAX_FX: i64 = 2_000_000_000_000_000;

/// The boiling time for a target yolk temperature: either unreachable, or
/// an elapsed time together with whether the relaxation converged.
#[derive(Clone, Copy, Debug, PartialEq, Eq, Structural)]
pub enum BoilingTime {
    /// The target exceeds the water temperature and is never reached.
    Unreachable,
    /// The elapsed fixed-point time at which the target is (approximately)
    /// reached; `converged` is false when the iteration cap was hit first.
    After { time: i64, converged: bool },
}

/// One relaxation update: the signed error scaled by the gain, taken on
/// magnitudes so the truncating division acts on nonnegative values.
pub open spec fn relax_step_fx(guess: int, error: int, gain_num: int, gain_den: int) -> int {
    if error >= 0 {
        guess + error * gain_num / gain_den
    } else {
        guess - (-error) * gain_num / gain_den
    }
}

/// The relaxation from `guess` with `fuel` iterations left: the final guess,
/// and whether the error fell inside the tolerance before fuel ran out.
pub open spec fn solve_rec_fx(
    target: int,
    p: BoilSessionParameters,
    guess: int,
    gain_num: int,
    gain_den: int,
    fuel: nat,
) -> (int, bool)
    decreases fuel,
{
    if fuel == 0 {
        (guess, false)
    } else {
        let error = target - yolk_temperature_fx(guess, p);
        if -(TOLERANCE_FX as int) < error < TOLERANCE_FX as int {
            (guess, true)
        } else {
            solve_rec_fx(
                target,
                p,
                relax_step_fx(guess, error, gain_num, gain_den),
                gain_num,
                gain_den,
                (fuel - 1) as nat,
            )
        }
    }
}

/// Wherever the relaxation reports convergence, the yolk temperature at the
/// time it returns really is within the tolerance of the target.
pub proof fn lemma_solver_converged(
    target: int,
    p: BoilSessionParameters,
    guess: int,
    gain_num: int,
    gain_den: int,
    fuel: nat,
)
    ensures
        solve_rec_fx(target, p, guess, gain_num, gain_den, fuel).1 ==> -(TOLERANCE_FX as int)
            < target - yolk_temperature_fx(
            solve_rec_fx(target, p, guess, gain_num, gain_den, fuel).0,
            p,
        ) < TOLERANCE_FX as int,
    decreases fuel,
{
    if fuel > 0 {
        let error = target - yolk_temperature_fx(guess, p);
        if !(-(TOLERANCE_FX as int) < error < TOLERANCE_FX as int) {
            lemma_solver_converged(
                target,
                p,
                relax_step_fx(guess, error, gain_num, gain_den),
                gain_num,
                gain_den,
                (fuel - 1) as nat,
            );
        }
    }
}

/// The boiling time for the requested yolk temperature, solved with the
/// given relaxation gain `gain_num / gain_den`.  Targets above the water
/// temperature are unreachable; targets at or below the starting
/// temperature need no boiling at all; in between, the bounded fixed-gain
/// relaxation inverts the yolk probe and reports whether it converged.
pub fn boiling_time_with_gain(
    requested_yolk_temperature: i64,
    parameters: &BoilSessionParameters,
    gain_num: u64,
    gain_den: u64,
) -> (result: BoilingTime)
    requires
        session_valid(*parameters),
        -TEMP_MAX_FX <= requested_yolk_temperature <= TEMP_MAX_FX,
        1 <= gain_num <= GAIN_NUM_MAX,
        1 <= gain_den,
    ensures
        (result is Unreachable) <==> requested_yolk_temperature > parameters.temperature_water,
        (requested_yolk_temperature <= parameters.temperature_water
            && requested_yolk_temperature <= parameters.temperature_egg_start) ==> result == (
        BoilingTime::After { time: 0, converged: true }),
        (requested_yolk_temperature <= parameters.temperature_water
            && requested_yolk_temperature > parameters.temperature_egg_start) ==> {
            let outcome = solve_rec_fx(
                requested_yolk_temperature as int,
                *parameters,
                0,
                gain_num as int,
                gain_den as int,
                SOLVER_CAP as nat,
            );
            result == (BoilingTime::After { time: outcome.0 as i64, converged: outcome.1 })
                && outcome.0 == outcome.0 as i64 as int
        },
        result matches BoilingTime::After { time, converged } ==> ((converged
            && requested_yolk_temperature > parameters.temperature_egg_start) ==> -(TOLERANCE_FX
            as int) < requested_yolk_temperature - yolk_temperature_fx(time as int, *parameters)
            < TOLERANCE_FX as int),
{
    if requested_yolk_temperature > parameters.temperature_water {
        return BoilingTime::Unreachable;
    }
    if requested_yolk_temperature <= parameters.temperature_egg_start {
        return BoilingTime::After { time: 0, converged: true };
    }
    let mut guess: i64 = 0;
    let mut iterations: u64 = 0;
    while iterations < SOLVER_CAP
        invariant
            iterations <= SOLVER_CAP,
            session_valid(*parameters),
            -TEMP_MAX_FX <= requested_yolk_temperature <= TEMP_MAX_FX,
            requested_yolk_temperature <= parameters.temperature_water,
            requested_yolk_temperature > parameters.temperature_egg_start,
            1 <= gain_num <= GAIN_NUM_MAX,
            1 <= gain_den,
            -(iterations as int) * (STEP_MAX_FX as int) <= guess as int <= (iterations as int) * (
            STEP_MAX_FX as int),
            solve_rec_fx(
                requested_yolk_temperature as int,
                *parameters,
                guess as int,
                gain_num as int,
                gain_den as int,
                (SOLVER_CAP - iterations) as nat,
            ) == solve_rec_fx(
                requested_yolk_temperature as int,
                *parameters,
                0,
                gain_num as int,
                gain_den as int,
                SOLVER_CAP as nat,
            ),
        decreases SOLVER_CAP - iterations,
    {
        let ghost fuel: nat = (SOLVER_CAP - iterations) as nat;
        let temperature: i64 = get_yolk_temperature(guess, parameters);
        let error: i64 = requested_yolk_temperature - temperature;
        if -TOLERANCE_FX < error && error < TOLERANCE_FX {
            proof {
                assert(solve_rec_fx(
                    requested_yolk_temperature as int,
                    *parameters,
                    guess as int,
                    gain_num as int,
                    gain_den as int,
                    fuel,
                ) == (guess as int, true));
            }
            return BoilingTime::After { time: guess, converged: true };
        }
        let emag: u64 = if error >= 0 {
            error as u64
        } else {
            (-error) as u64
        };
        proof {
            vstd::arithmetic::mul::lemma_mul_upper_bound(
                emag as int,
                2_000_000_000,
                gain_num as int,
                GAIN_NUM_MAX as int,
            );
            vstd::arithmetic::mul::lemma_mul_nonnegative(emag as int, gain_num as int);
            vstd::arithmetic::div_mod::lemma_div_pos_is_pos(
                (emag as int) * (gain_num as int),
                gain_den as int,
            );
            vstd::arithmetic::div_mod::lemma_div_basics_5(
                (emag as int) * (gain_num as int),
                gain_den as int,
            );
        }
        let step_mag: u64 = emag * gain_num / gain_den;
        let ghost old_guess: int = guess as int;
        if error >= 0 {
            guess = guess + (step_mag as i64);
        } else {
            guess = guess - (step_mag as i64);
        }
        proof {
            assert(guess as int == relax_step_fx(
                old_guess,
                error as int,
                gain_num as int,
                gain_den as int,
            ));
            assert(solve_rec_fx(
                requested_yolk_temperature as int,
                *parameters,
                old_guess,
                gain_num as int,
                gain_den as int,
                fuel,
            ) == solve_rec_fx(
                requested_yolk_temperature as int,
                *parameters,
                guess as int,
                gain_num as int,
                gain_den as int,
                (fuel - 1) as nat,
            ));
        }
        iterations = iterations + 1;
    }
    BoilingTime::After { time: guess, converged: false }
}

/// The elapsed boiling time at which the yolk center reaches the requested
/// temperature, solved at the default gain.
pub fn get_boiling_time(requested_yolk_temperature: i64, parameters: &BoilSessionParameters) -> (
    result: BoilingTime)
    requires
        session_valid(*parameters),
        -TEMP_MAX_FX <= requested_yolk_temperature <= TEMP_MAX_FX,
    ensures
        (result is Unreachable) <==> requested_yolk_temperature > parameters.temperature_water,
        (requested_yolk_temperature <= parameters.temperature_water
            && requested_yolk_temperature <= parameters.temperature_egg_start) ==> result == (
        BoilingTime::After { time: 0, converged: true }),
        (requested_yolk_temperature <= parameters.temperature_water
            && requested_yolk_temperature > parameters.temperature_egg_start) ==> {
            let outcome = solve_rec_fx(
                requested_yolk_temperature as int,
                *parameters,
                0,
                GAIN_NUM as int,
                GAIN_DEN as int,
                SOLVER_CAP as nat,
            );
            result == (BoilingTime::After { time: outcome.0 as i64, converged: outcome.1 })
                && outcome.0 == outcome.0 as i64 as int
        },
        result matches BoilingTime::After { time, converged } ==> ((converged
            && requested_yolk_temperature > parameters.temperature_egg_start) ==> -(TOLERANCE_FX
            as int) < requested_yolk_temperature - yolk_temperature_fx(time as int, *parameters)
            < TOLERANCE_FX as int),
{
    boiling_time_with_gain(requested_yolk_temperature, parameters, GAIN_NUM, GAIN_DEN)
}

} // verus!
