//! Parameter bundles: egg geometry and material constants, and the
//! temperatures of one boiling session.

use vstd::prelude::*;

use crate::cbrt::CBRT_MAX_INPUT;
use crate::cbrt::icbrt;
use crate::cbrt::icbrt_fx;
use crate::cbrt::lemma_icbrt_bounds;
use crate::cbrt::lemma_icbrt_positive;
use crate::fixed::PI_FX;
use crate::fixed::SCALE;

verus! {

/// Largest accepted magnitude for a fixed-point temperature (1000 degrees).
pub const TEMP_MAX_FX: i64 = 1_000_000_000;

/// Largest accepted fixed-point radius, material constant, or egg mass
/// (1000 in physical units).
pub const QUANTITY_MAX_FX: u64 = 1_000_000_000;

/// `SCALE^4`, the factor that puts a ratio of three fixed-point values back
/// into fixed point under a cube root.
pub const FX_FOURTH_POWER: u128 = 1_000_000_000_000_000_000_000_000;

/// Default specific heat capacity of egg white, fixed-point.
pub const HEAT_CAPACITY_WHITE_FX: u64 = 3_700_000;

/// Default density of egg white, fixed-point.
pub const DENSITY_WHITE_FX: u64 = 1_038_000;

/// Default thermal conductivity of egg white, fixed-point.
pub const CONDUCTIVITY_WHITE_FX: u64 = 5_400;

/// Default sphere radius when no mass is given, fixed-point.
pub const RADIUS_DEFAULT_FX: u64 = 2_000_000;

/// Egg geometry and the material constants of egg white.
/// All fields are positive fixed-point quantities.
#[derive(Clone, Copy, Debug, PartialEq, Eq, Structural)]
pub struct EggParameters {
    pub radius: u64,
    pub specific_heat_capacity_white: u64,
    pub density_white: u64,
    pub thermal_conductivity_white: u64,
}

/// The temperatures of one boiling session together with the egg itself.
/// Temperatures are fixed-point and may be negative.
#[derive(Clone, Copy, Debug, PartialEq, Eq, Structural)]
pub struct BoilSessionParameters {
    pub temperature_water: i64,
    pub temperature_egg_start: i64,
    pub egg: EggParameters,
}

/// Every quantity positive and within the machine bounds the evaluation
/// arithmetic is sized for.
pub open spec fn egg_valid(e: EggParameters) -> bool {
    &&& 1 <= e.radius <= QUANTITY_MAX_FX
    &&& 1 <= e.specific_heat_capacity_white <= QUANTITY_MAX_FX
    &&& 1 <= e.density_white <= QUANTITY_MAX_FX
    &&& 1 <= e.thermal_conductivity_white <= QUANTITY_MAX_FX
}

/// A session is valid when its egg is and both temperatures are in range.
pub open spec fn session_valid(p: BoilSessionParameters) -> bool {
    &&& egg_valid(p.egg)
    &&& -TEMP_MAX_FX <= p.temperature_water <= TEMP_MAX_FX
    &&& -TEMP_MAX_FX <= p.temperature_egg_start <= TEMP_MAX_FX
}

/// The default egg: radius 2 and the material constants of egg white.
pub open spec fn egg_default() -> EggParameters {
    EggParameters {
        radius: RADIUS_DEFAULT_FX,
        specific_heat_capacity_white: HEAT_CAPACITY_WHITE_FX,
        density_white: DENSITY_WHITE_FX,
        thermal_conductivity_white: CONDUCTIVITY_WHITE_FX,
    }
}

/// The radius of a uniform sphere of egg white of the given mass:
/// the cube root of `3 * mass / (4 * pi * density)`, fixed-point.
pub open spec fn radius_from_mass_fx(mass: int) -> int {
    icbrt_fx(3 * mass * (FX_FOURTH_POWER as int) / (4 * (PI_FX as int) * (DENSITY_WHITE_FX as int)))
}

/// The argument handed to the cube root stays within its input bound and is
/// positive for positive mass.
pub proof fn lemma_radius_cbrt_input(mass: int)
    requires
        1 <= mass <= QUANTITY_MAX_FX,
    ensures
        1 <= 3 * mass * (FX_FOURTH_POWER as int) / (4 * (PI_FX as int) * (DENSITY_WHITE_FX as int))
            <= CBRT_MAX_INPUT,
{
    let d: int = 4 * (PI_FX as int) * (DENSITY_WHITE_FX as int);
    assert(d == 13_043_894_136_000);
    assert(3 * mass * (FX_FOURTH_POWER as int) == mass * 3_000_000_000_000_000_000_000_000)
        by (nonlinear_arith);
    vstd::arithmetic::mul::lemma_mul_inequality(1, mass, 3_000_000_000_000_000_000_000_000);
    vstd::arithmetic::mul::lemma_mul_inequality(
        mass,
        QUANTITY_MAX_FX as int,
        3_000_000_000_000_000_000_000_000,
    );
    vstd::arithmetic::div_mod::lemma_div_is_ordered(
        3_000_000_000_000_000_000_000_000,
        mass * 3_000_000_000_000_000_000_000_000,
        d,
    );
    vstd::arithmetic::div_mod::lemma_div_is_ordered(
        mass * 3_000_000_000_000_000_000_000_000,
        (QUANTITY_MAX_FX as int) * 3_000_000_000_000_000_000_000_000,
        d,
    );
    assert(3_000_000_000_000_000_000_000_000int / d == 229_992_666_969);
    assert((QUANTITY_MAX_FX as int) * 3_000_000_000_000_000_000_000_000
        == 3_000_000_000_000_000_000_000_000_000_000_000int) by (nonlinear_arith);
    assert(3_000_000_000_000_000_000_000_000_000_000_000int / d == 229_992_666_969_004_600_329);
}

impl EggParameters {
    /// The default egg: radius 2 and the material constants of egg white.
    pub fn default() -> (e: EggParameters)
        ensures
            e == egg_default(),
            egg_valid(e),
    {
        EggParameters {
            radius: RADIUS_DEFAULT_FX,
            specific_heat_capacity_white: HEAT_CAPACITY_WHITE_FX,
            density_white: DENSITY_WHITE_FX,
            thermal_conductivity_white: CONDUCTIVITY_WHITE_FX,
        }
    }

    /// Derive the sphere radius from the egg's mass at the default density;
    /// all other fields are mass-independent material constants.
    pub fn from_mass(mass: u64) -> (e: EggParameters)
        requires
            1 <= mass <= QUANTITY_MAX_FX,
        ensures
            e.radius as int == radius_from_mass_fx(mass as int),
            e.specific_heat_capacity_white == HEAT_CAPACITY_WHITE_FX,
            e.density_white == DENSITY_WHITE_FX,
            e.thermal_conductivity_white == CONDUCTIVITY_WHITE_FX,
            egg_valid(e),
    {
        proof {
            lemma_radius_cbrt_input(mass as int);
        }
        let numerator: u128 = 3 * (mass as u128) * FX_FOURTH_POWER;
        let denominator: u128 = 4 * (PI_FX as u128) * (DENSITY_WHITE_FX as u128);
        let u: u128 = numerator / denominator;
        let radius: u64 = icbrt(u);
        proof {
            lemma_icbrt_bounds(u as int);
            lemma_icbrt_positive(u as int);
        }
        EggParameters {
            radius,
            specific_heat_capacity_white: HEAT_CAPACITY_WHITE_FX,
            density_white: DENSITY_WHITE_FX,
            thermal_conductivity_white: CONDUCTIVITY_WHITE_FX,
        }
    }
}

} // verus!
