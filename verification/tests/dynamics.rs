use moon_lander::dynamics::{
    compute_horizontal_acceleration, compute_thrust_acceleration, compute_vertical_acceleration,
};
use moon_lander::ledger::{compute_total_mass, draw_fuel};
use moon_lander::units::{
    ACCELERATION_PER_FPS2, ASCENT_DRY_MASS, DESCENT_DRY_MASS, LUNAR_GRAVITY, MASS_PER_POUND,
    THRUST_FACTOR,
};

#[test]
fn thrust_is_flow_times_exhaust_velocity_over_mass() {
    assert_eq!(compute_thrust_acceleration(200_000, 162_370_000), 307_938_658);
    assert_eq!(compute_thrust_acceleration(10_000, 162_370_000), 15_396_932);
}

#[test]
fn thrust_agrees_with_the_formula_in_feet_and_slugs() {
    let g0 = 32.174_f64;
    let flow = 200.0 / g0;
    let force = flow * 10_000.0;
    let slugs = 16_237.0 / g0;
    let expected = force / slugs;
    let got = compute_thrust_acceleration(200_000, 162_370_000) as f64
        / ACCELERATION_PER_FPS2 as f64;
    assert!((got - expected).abs() < 1e-6);
}

#[test]
fn no_flow_gives_no_thrust() {
    assert_eq!(compute_thrust_acceleration(0, 162_370_000), 0);
    assert_eq!(compute_vertical_acceleration(0, 162_370_000), LUNAR_GRAVITY);
    assert_eq!(compute_horizontal_acceleration(0, 162_370_000), 0);
}

#[test]
fn thrust_on_a_unit_mass_is_the_whole_factor() {
    assert_eq!(compute_thrust_acceleration(250_000, 1), 250_000 * THRUST_FACTOR);
}

#[test]
fn vertical_thrust_opposes_gravity() {
    assert_eq!(compute_vertical_acceleration(200_000, 162_370_000), -294_610_246);
}

#[test]
fn horizontal_thrust_follows_the_sign_of_the_rate() {
    assert_eq!(compute_horizontal_acceleration(10_000, 162_370_000), 15_396_932);
    assert_eq!(compute_horizontal_acceleration(-10_000, 162_370_000), -15_396_932);
}

#[test]
fn gravity_is_the_lunar_value() {
    let g = LUNAR_GRAVITY as f64 / ACCELERATION_PER_FPS2 as f64;
    assert!((g - 5.33136483).abs() < 1e-6);
}

#[test]
fn a_sub_step_draws_both_rates() {
    assert_eq!(draw_fuel(1_000_000, 200_000, -5_000), 205_000);
    assert_eq!(draw_fuel(1_000_000, 200_000, 5_000), 205_000);
}

#[test]
fn a_sub_step_draws_no_more_than_is_left() {
    assert_eq!(draw_fuel(100, 200_000, -5_000), 100);
    assert_eq!(draw_fuel(0, 250_000, 10_000), 0);
    assert_eq!(draw_fuel(205_000, 200_000, 5_000), 205_000);
}

#[test]
fn idle_engines_draw_nothing() {
    assert_eq!(draw_fuel(1_000_000, 0, 0), 0);
}

#[test]
fn total_mass_adds_both_stages() {
    assert_eq!(compute_total_mass(15_000_000, 51_870_000), 162_370_000);
    assert_eq!(162_370_000 / MASS_PER_POUND, 16_237);
    assert_eq!(compute_total_mass(0, 0), DESCENT_DRY_MASS + ASCENT_DRY_MASS);
}
