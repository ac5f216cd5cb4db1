use eggboil::BoilSessionParameters;
use eggboil::BoilingTime;
use eggboil::EggParameters;
use eggboil::SCALE;
use eggboil::TOLERANCE_FX;
use eggboil::boiling_time_with_gain;
use eggboil::exp_neg;
use eggboil::get_boiling_time;
use eggboil::get_egg_temperature_at_radius;
use eggboil::get_yolk_temperature;

fn default_session() -> BoilSessionParameters {
    BoilSessionParameters {
        temperature_water: 100_000_000,
        temperature_egg_start: 4_000_000,
        egg: EggParameters::default(),
    }
}

#[test]
fn temperature_at_time_zero_is_start_everywhere() {
    let p = default_session();
    for radius in [0u64, 1, 500_000, 1_380_000, 2_000_000, 5_000_000] {
        assert_eq!(get_egg_temperature_at_radius(radius, 0, &p), 4_000_000);
        assert_eq!(get_egg_temperature_at_radius(radius, -7_000_000, &p), 4_000_000);
    }
    assert_eq!(get_yolk_temperature(0, &p), 4_000_000);
    assert_eq!(get_yolk_temperature(-1, &p), 4_000_000);
}

#[test]
fn yolk_temperature_stays_between_start_and_water() {
    let p = default_session();
    for t in [
        0i64,
        1,
        1_000_000,
        60_000_000,
        100_000_000,
        300_000_000,
        1_000_000_000,
        5_000_000_000,
        1_000_000_000_000,
    ] {
        let temp = get_yolk_temperature(t, &p);
        assert!(temp >= 4_000_000, "yolk below start at t={t}: {temp}");
        assert!(temp <= 100_000_000, "yolk above water at t={t}: {temp}");
    }
}

#[test]
fn yolk_temperature_reaches_water_for_long_boils() {
    let p = default_session();
    // tau0 for the default egg is about 2845 seconds; these times are far
    // beyond 50 tau0, so the series has fully decayed.
    assert_eq!(get_yolk_temperature(1_000_000_000_000, &p), 100_000_000);
    assert_eq!(get_yolk_temperature(500_000_000_000, &p), 100_000_000);
}

#[test]
fn surface_temperature_equals_water_while_boiling() {
    // The boundary condition: at the sphere surface every sine argument is
    // a whole multiple of pi, the series vanishes, and the temperature is
    // the water temperature for any positive time.
    let p = default_session();
    for t in [1_000_000i64, 10_000_000, 100_000_000, 1_000_000_000] {
        assert_eq!(get_egg_temperature_at_radius(2_000_000, t, &p), 100_000_000);
    }
}

#[test]
fn boiling_time_unreachable_above_water_temperature() {
    let p = default_session();
    assert_eq!(get_boiling_time(150_000_000, &p), BoilingTime::Unreachable);
    assert_eq!(get_boiling_time(100_000_001, &p), BoilingTime::Unreachable);
}

#[test]
fn boiling_time_zero_at_or_below_start_temperature() {
    let mut p = default_session();
    p.temperature_egg_start = 20_000_000;
    assert_eq!(
        get_boiling_time(10_000_000, &p),
        BoilingTime::After { time: 0, converged: true }
    );
    assert_eq!(
        get_boiling_time(20_000_000, &p),
        BoilingTime::After { time: 0, converged: true }
    );
}

#[test]
fn boiling_time_round_trips_through_the_yolk_probe() {
    let p = default_session();
    for target in [70_000_000i64, 75_000_000, 80_000_000, 85_000_000] {
        match get_boiling_time(target, &p) {
            BoilingTime::After { time, converged } => {
                assert!(converged, "relaxation hit the cap for target {target}");
                assert!(time > 0);
                let temp = get_yolk_temperature(time, &p);
                assert!(
                    (target - temp).abs() < TOLERANCE_FX,
                    "round trip off for target {target}: got {temp} at t={time}"
                );
            }
            BoilingTime::Unreachable => panic!("target {target} reported unreachable"),
        }
    }
}

#[test]
fn boiling_time_for_soft_egg_is_a_few_minutes() {
    let p = default_session();
    match get_boiling_time(70_000_000, &p) {
        BoilingTime::After { time, converged } => {
            assert!(converged);
            // Between two and ten minutes for a 2 cm egg from fridge cold.
            assert!(time > 120_000_000, "implausibly short: {time}");
            assert!(time < 600_000_000, "implausibly long: {time}");
        }
        BoilingTime::Unreachable => panic!("reachable target reported unreachable"),
    }
}

#[test]
fn overriding_the_relaxation_gain_still_round_trips() {
    let p = default_session();
    for (gain_num, gain_den) in [(10u64, 1u64), (1, 1), (60, 7)] {
        match boiling_time_with_gain(75_000_000, &p, gain_num, gain_den) {
            BoilingTime::After { time, converged } => {
                assert!(converged, "gain {gain_num}/{gain_den} hit the cap");
                let temp = get_yolk_temperature(time, &p);
                assert!((75_000_000 - temp).abs() < TOLERANCE_FX);
            }
            BoilingTime::Unreachable => panic!("reachable target reported unreachable"),
        }
    }
}

#[test]
fn an_oscillating_gain_reports_the_cap() {
    // A gain far above the stable range makes the relaxation overshoot back
    // and forth; the solver still terminates at the iteration cap and says
    // so instead of pretending to have converged.
    let p = default_session();
    match boiling_time_with_gain(75_000_000, &p, 100, 1) {
        BoilingTime::After { converged, .. } => assert!(!converged),
        BoilingTime::Unreachable => panic!("reachable target reported unreachable"),
    }
}

#[test]
fn radius_grows_with_mass_and_stays_positive() {
    let masses: [u64; 6] = [1, 1_000_000, 50_000_000, 57_000_000, 60_000_000, 70_000_000];
    let mut previous: u64 = 0;
    for mass in masses {
        let egg = EggParameters::from_mass(mass);
        assert!(egg.radius > 0, "radius vanished for mass {mass}");
        assert!(egg.radius >= previous, "radius shrank at mass {mass}");
        previous = egg.radius;
    }
}

#[test]
fn radius_from_mass_matches_sphere_geometry() {
    // 60 g at the egg-white density of 1.038 gives a radius just under
    // 2.4 cm: the cube root of 3 m / (4 pi rho).
    let egg = EggParameters::from_mass(60_000_000);
    assert_eq!(egg.radius, 2_398_584);
    assert_eq!(egg.specific_heat_capacity_white, 3_700_000);
    assert_eq!(egg.density_white, 1_038_000);
    assert_eq!(egg.thermal_conductivity_white, 5_400);
}

#[test]
fn concrete_scenario_cold_egg_in_boiling_water() {
    // Water at 100, egg from the fridge at 4, radius 2: the yolk starts at
    // the starting temperature and ends at the water temperature.
    let p = default_session();
    assert_eq!(p.egg.radius, 2_000_000);
    assert_eq!(get_yolk_temperature(0, &p), 4_000_000);
    let late = get_yolk_temperature(1_000_000_000_000, &p);
    assert!((100_000_000 - late).abs() < TOLERANCE_FX);
}

#[test]
fn exponential_decay_fixed_points() {
    assert_eq!(exp_neg(0), SCALE);
    // One whole unit of exponent decays by exactly the fixed-point 1/e.
    assert_eq!(exp_neg(SCALE), 367_879);
    assert_eq!(exp_neg(19_999_999), 0);
}

#[test]
fn degenerate_session_clamps_to_start() {
    // A starting temperature above the water temperature leaves the clamp
    // interval empty: every positive-time evaluation falls back to the
    // starting temperature.
    let mut p = default_session();
    p.temperature_egg_start = 120_000_000;
    assert_eq!(get_yolk_temperature(60_000_000, &p), 120_000_000);
    assert_eq!(get_yolk_temperature(1_000_000_000_000, &p), 120_000_000);
}
