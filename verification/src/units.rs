//! Units of the integer grid on which the engine computes.
//!
//! Time advances in sub-steps of a tenth of a second, and the integrator
//! samples at half sub-steps, so the grid instant is a twentieth of a
//! second. A position is counted in billionths of a foot. A speed is counted
//! in position units per grid instant, and an acceleration in speed units per
//! grid instant: with these the equations of motion need no division.
//! A mass flow is counted in thousandths of a pound per second, and a mass in
//! flow units times one sub-step, which is a ten-thousandth of a pound.

use vstd::prelude::*;

verus! {

/// Grid instants in one second.
pub const INSTANTS_PER_SECOND: i64 = 20;

/// Sub-steps in one second.
pub const STEPS_PER_SECOND: u64 = 10;

/// Exhaust velocity of the descent engine in feet per second.
pub const EXHAUST_VELOCITY: i64 = 10_000;

/// Milliseconds in one sub-step.
pub const MILLIS_PER_STEP: i64 = 100;

/// Grid instants in half a sub-step: the half step handed to the integrator.
pub const HALF_STEP: i64 = 1;

/// Position units in one foot.
pub const POSITION_PER_FOOT: i64 = 1_000_000_000;

/// Speed units in one foot per second.
pub const SPEED_PER_FPS: i64 = 50_000_000;

/// Acceleration units in one foot per second squared.
pub const ACCELERATION_PER_FPS2: i64 = 2_500_000;

/// Mass units in one pound.
pub const MASS_PER_POUND: u64 = 10_000;

/// Flow units in one pound per second.
pub const FLOW_PER_POUND_PER_SECOND: i64 = 1_000;

/// Lunar gravity, 5.33136483 feet per second squared, to the nearest unit.
pub const LUNAR_GRAVITY: i64 = 13_328_412;

/// Acceleration units gained per flow unit burnt per mass unit carried, at
/// an exhaust velocity of 10,000 feet per second: ten mass units to the flow
/// unit-second, times the exhaust velocity, times the acceleration unit.
pub const THRUST_FACTOR: i64 = 250_000_000_000;

/// Greatest vertical burn rate, 250 pounds per second.
pub const MAX_VERTICAL_BURN: i64 = 250_000;

/// Greatest horizontal burn rate to either side, 10 pounds per second.
pub const MAX_HORIZONTAL_BURN: i64 = 10_000;

/// Dry mass of the descent stage, 4,700 pounds.
pub const DESCENT_DRY_MASS: u64 = 47_000_000;

/// Dry mass of the ascent stage, 4,850 pounds.
pub const ASCENT_DRY_MASS: u64 = 48_500_000;

/// Greatest propellant load of either stage that a state can hold.
pub const FUEL_LIMIT: u64 = 1_000_000_000_000;

/// Sub-steps after which a flight is given up, 600 seconds.
pub const TIME_LIMIT: u64 = 6_000;

/// The units agree with one another: a sub-step is two half steps, a speed
/// unit is a position unit per grid instant, an acceleration unit is a speed
/// unit per grid instant, a mass unit is a flow unit for one sub-step, and
/// the thrust factor turns flow over mass into acceleration units.
pub proof fn lemma_units_agree()
    ensures
        2 * HALF_STEP * STEPS_PER_SECOND == INSTANTS_PER_SECOND,
        MILLIS_PER_STEP * STEPS_PER_SECOND == 1_000,
        SPEED_PER_FPS * INSTANTS_PER_SECOND == POSITION_PER_FOOT,
        ACCELERATION_PER_FPS2 * INSTANTS_PER_SECOND == SPEED_PER_FPS,
        FLOW_PER_POUND_PER_SECOND * STEPS_PER_SECOND == MASS_PER_POUND,
        THRUST_FACTOR * FLOW_PER_POUND_PER_SECOND == EXHAUST_VELOCITY * MASS_PER_POUND
            * ACCELERATION_PER_FPS2,
        MAX_VERTICAL_BURN == 250 * FLOW_PER_POUND_PER_SECOND,
        MAX_HORIZONTAL_BURN == 10 * FLOW_PER_POUND_PER_SECOND,
        DESCENT_DRY_MASS == 4_700 * MASS_PER_POUND,
        ASCENT_DRY_MASS == 4_850 * MASS_PER_POUND,
        TIME_LIMIT == 600 * STEPS_PER_SECOND,
{
}

} // verus!
