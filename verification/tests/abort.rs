use moon_lander::abort::{
    ascent_mass_ratio, attempt_abort, AbortResult, ASCENT_EXHAUST_VELOCITY, LUNAR_ORBITAL_SPEED,
    MIN_ABORT_ALTITUDE,
};
use moon_lander::landing::{classify_landing, landing_report, Landing};
use moon_lander::units::{POSITION_PER_FOOT, SPEED_PER_FPS};
use moon_lander::vehicle::VehicleState;

fn at(altitude_feet: i64, horiz_fps: i64, ascent_fuel_mass: u64) -> VehicleState {
    VehicleState::new(
        altitude_feet * POSITION_PER_FOOT,
        400 * SPEED_PER_FPS,
        horiz_fps * SPEED_PER_FPS,
        15_000_000,
        ascent_fuel_mass,
    )
    .unwrap()
}

fn delta_v(state: &VehicleState) -> i64 {
    let (fuelled, dry) = ascent_mass_ratio(state);
    let feet_per_second = ASCENT_EXHAUST_VELOCITY as f64 * (fuelled as f64 / dry as f64).ln();
    (feet_per_second * SPEED_PER_FPS as f64).round() as i64
}

#[test]
fn the_mass_ratio_is_fuelled_over_dry() {
    assert_eq!(ascent_mass_ratio(&at(7_500, 200, 51_870_000)), (100_370_000, 48_500_000));
    assert_eq!(ascent_mass_ratio(&at(7_500, 200, 0)), (48_500_000, 48_500_000));
}

#[test]
fn the_reference_ascent_stage_reaches_orbit() {
    let mut state = at(7_500, 200, 51_870_000);
    let before = state;
    let dv = delta_v(&state);
    let feet_per_second = dv as f64 / SPEED_PER_FPS as f64;
    assert!((feet_per_second - 10_000.0 * (10_037.0_f64 / 4_850.0).ln()).abs() < 1e-6);
    assert!(feet_per_second >= 5_512.0 - 200.0);
    assert_eq!(attempt_abort(&mut state, dv), AbortResult::Success(dv));
    assert_eq!(state, before);
}

#[test]
fn the_gate_is_the_orbital_speed_less_the_horizontal_speed() {
    let need = LUNAR_ORBITAL_SPEED - 200 * SPEED_PER_FPS;
    assert_eq!(need, 5_312 * SPEED_PER_FPS);
    let mut state = at(7_500, 200, 51_870_000);
    assert_eq!(attempt_abort(&mut state, need), AbortResult::Success(need));
    assert_eq!(attempt_abort(&mut state, need - 1), AbortResult::InsufficientDeltaV(need - 1));
    let mut backwards = at(7_500, -200, 51_870_000);
    assert_eq!(attempt_abort(&mut backwards, need), AbortResult::Success(need));
    assert_eq!(
        attempt_abort(&mut backwards, need - 1),
        AbortResult::InsufficientDeltaV(need - 1)
    );
}

#[test]
fn a_failed_velocity_gate_leaves_the_state() {
    let mut state = at(7_500, 0, 51_870_000);
    let before = state;
    assert_eq!(attempt_abort(&mut state, 0), AbortResult::InsufficientDeltaV(0));
    assert_eq!(state, before);
}

#[test]
fn an_abort_below_the_safe_altitude_crashes() {
    let mut state = at(99, 200, 51_870_000);
    assert_eq!(attempt_abort(&mut state, i64::MAX), AbortResult::TooLow);
    assert_eq!(state, VehicleState { altitude: 0, ..at(99, 200, 51_870_000) });
    assert_eq!(landing_report(&state), Some(Landing::Crash));
    let mut edge = at(100, 200, 51_870_000);
    assert_eq!(edge.altitude, MIN_ABORT_ALTITUDE);
    assert_eq!(attempt_abort(&mut edge, i64::MAX), AbortResult::Success(i64::MAX));
}

#[test]
fn an_abort_without_ascent_fuel_crashes() {
    let mut state = at(7_500, 200, 0);
    assert_eq!(attempt_abort(&mut state, i64::MAX), AbortResult::NoFuel);
    assert_eq!(state.altitude, 0);
    assert_eq!(state.v_down, 400 * SPEED_PER_FPS);
}

#[test]
fn the_altitude_is_judged_before_the_fuel() {
    let mut state = at(50, 200, 0);
    assert_eq!(attempt_abort(&mut state, i64::MAX), AbortResult::TooLow);
}

#[test]
fn landings_are_judged_by_both_speeds() {
    let fps = SPEED_PER_FPS;
    assert_eq!(classify_landing(5 * fps, 5 * fps), Landing::Perfect);
    assert_eq!(classify_landing(5 * fps, -5 * fps), Landing::Perfect);
    assert_eq!(classify_landing(-100 * fps, 0), Landing::Perfect);
    assert_eq!(classify_landing(5 * fps + 1, 0), Landing::Good);
    assert_eq!(classify_landing(0, -5 * fps - 1), Landing::Good);
    assert_eq!(classify_landing(15 * fps, -15 * fps), Landing::Good);
    assert_eq!(classify_landing(15 * fps + 1, 0), Landing::Crash);
    assert_eq!(classify_landing(0, 15 * fps + 1), Landing::Crash);
    assert_eq!(classify_landing(0, -15 * fps - 1), Landing::Crash);
    assert_eq!(classify_landing(i64::MAX, i64::MIN), Landing::Crash);
}

#[test]
fn there_is_no_report_while_airborne() {
    assert_eq!(landing_report(&at(1, 0, 0)), None);
    let landed = VehicleState::new(0, 3 * SPEED_PER_FPS, 0, 0, 0).unwrap();
    assert_eq!(landing_report(&landed), Some(Landing::Perfect));
    let below = VehicleState::new(-5, 10 * SPEED_PER_FPS, 0, 0, 0).unwrap();
    assert_eq!(landing_report(&below), Some(Landing::Good));
}
