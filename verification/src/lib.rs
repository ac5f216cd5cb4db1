//! Transient heat conduction in a boiling egg, in fixed-point arithmetic.
//!
//! The model treats the egg as a uniform sphere with a fixed surface
//! temperature and evaluates the closed-form conduction series at a given
//! radius and time; it also inverts that evaluation to find the boiling
//! time needed for a target yolk temperature.  All quantities are scaled
//! integers (micro-units): temperatures in micro-degrees, times in
//! micro-seconds, lengths in micro-centimetres and masses in micro-grams.

mod cbrt;
mod conduction;
mod expdec;
mod fixed;
mod laws;
mod params;
mod sine;
mod solver;

pub use conduction::decay_exponent_fx;
pub use conduction::diffusion_time_constant;
pub use conduction::get_egg_temperature_at_radius;
pub use conduction::get_yolk_temperature;
pub use conduction::raw_temperature_fx;
pub use conduction::series_sum_fx;
pub use conduction::series_term_fx;
pub use conduction::tau0_fx;
pub use conduction::temperature_at_fx;
pub use conduction::yolk_radius_fx;
pub use conduction::yolk_temperature_fx;
pub use expdec::exp_neg;
pub use expdec::exp_neg_fx;
pub use fixed::EXP_CUTOFF_FX;
pub use fixed::SCALE;
pub use laws::lemma_long_boil_reaches_water;
pub use laws::lemma_radius_monotone_in_mass;
pub use laws::lemma_round_trip;
pub use laws::lemma_start_temperature;
pub use laws::lemma_temperature_within_bounds;
pub use params::BoilSessionParameters;
pub use params::EggParameters;
pub use params::QUANTITY_MAX_FX;
pub use params::TEMP_MAX_FX;
pub use params::egg_default;
pub use params::egg_valid;
pub use params::radius_from_mass_fx;
pub use params::session_valid;
pub use solver::BoilingTime;
pub use solver::GAIN_DEN;
pub use solver::GAIN_NUM;
pub use solver::GAIN_NUM_MAX;
pub use solver::SOLVER_CAP;
pub use solver::TOLERANCE_FX;
pub use solver::boiling_time_with_gain;
pub use solver::get_boiling_time;
pub use solver::lemma_solver_converged;
pub use solver::relax_step_fx;
pub use solver::solve_rec_fx;
