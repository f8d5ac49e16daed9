//! Abort to orbit on the ascent stage.
//!
//! The velocity change that the ascent stage can give follows from the
//! rocket equation, the exhaust velocity times the natural logarithm of the
//! ratio of its fuelled mass to its dry mass. The logarithm is taken by the
//! caller; this module supplies the ratio and judges the result.

use vstd::prelude::*;
use crate::units::{ASCENT_DRY_MASS, FUEL_LIMIT};
use crate::vehicle::VehicleState;

verus! {

/// Lowest altitude from which an abort is safe, 100 feet.
pub const MIN_ABORT_ALTITUDE: i64 = 100_000_000_000;

/// Speed of a low lunar orbit, 5,512 feet per second.
pub const LUNAR_ORBITAL_SPEED: i64 = 275_600_000_000;

/// Exhaust velocity of the ascent engine in feet per second.
pub const ASCENT_EXHAUST_VELOCITY: u64 = 10_000;

/// How an attempt to abort ends.
#[derive(Clone, Copy, Debug, PartialEq, Eq, Structural)]
pub enum AbortResult {
    /// The vehicle was below the lowest safe altitude: it crashes.
    TooLow,
    /// The ascent stage had no propellant: it crashes.
    NoFuel,
    /// Orbit is reached with this velocity change.
    Success(i64),
    /// This velocity change does not reach orbit: the descent goes on.
    InsufficientDeltaV(i64),
}

/// Magnitude of a horizontal speed.
pub open spec fn speed_along(horiz_speed: int) -> int {
    if horiz_speed >= 0 {
        horiz_speed
    } else {
        -horiz_speed
    }
}

/// Velocity change that is needed to reach orbit from a horizontal speed:
/// what is missing to the orbital speed.
pub open spec fn required_delta_v(horiz_speed: int) -> int {
    LUNAR_ORBITAL_SPEED - speed_along(horiz_speed)
}

/// How an attempt to abort from `state` ends when the ascent stage can give
/// the velocity change `delta_v`. The altitude is judged first, then the
/// propellant, then the velocity change.
pub open spec fn abort_outcome(state: VehicleState, delta_v: i64) -> AbortResult {
    if state.altitude < MIN_ABORT_ALTITUDE {
        AbortResult::TooLow
    } else if state.ascent_fuel_mass == 0 {
        AbortResult::NoFuel
    } else if delta_v >= required_delta_v(state.horiz_speed as int) {
        AbortResult::Success(delta_v)
    } else {
        AbortResult::InsufficientDeltaV(delta_v)
    }
}

/// The state after an attempt to abort that ended in `outcome`: a crash puts
/// the vehicle on the surface, and nothing else changes anything.
pub open spec fn after_abort(state: VehicleState, outcome: AbortResult) -> VehicleState {
    match outcome {
        AbortResult::TooLow | AbortResult::NoFuel => VehicleState { altitude: 0, ..state },
        _ => state,
    }
}

/// Fuelled and dry mass of the ascent stage, in this order: the two terms of
/// the mass ratio in the rocket equation.
pub fn ascent_mass_ratio(state: &VehicleState) -> (ratio: (u64, u64))
    requires
        state.ascent_fuel_mass <= FUEL_LIMIT,
    ensures
        ratio.0 == ASCENT_DRY_MASS + state.ascent_fuel_mass,
        ratio.1 == ASCENT_DRY_MASS,
{
    (ASCENT_DRY_MASS + state.ascent_fuel_mass, ASCENT_DRY_MASS)
}

/// Attempts to abort from `state` with the velocity change `delta_v` that
/// the ascent stage can give.
pub fn attempt_abort(state: &mut VehicleState, delta_v: i64) -> (outcome: AbortResult)
    ensures
        outcome == abort_outcome(*old(state), delta_v),
        *final(state) == after_abort(*old(state), outcome),
        old(state).wf() ==> final(state).wf(),
{
    if state.altitude < MIN_ABORT_ALTITUDE {
        state.altitude = 0;
        AbortResult::TooLow
    } else if state.ascent_fuel_mass == 0 {
        state.altitude = 0;
        AbortResult::NoFuel
    } else {
        let along: i128 = if state.horiz_speed >= 0 {
            state.horiz_speed as i128
        } else {
            -(state.horiz_speed as i128)
        };
        if delta_v as i128 >= LUNAR_ORBITAL_SPEED as i128 - along {
            AbortResult::Success(delta_v)
        } else {
            AbortResult::InsufficientDeltaV(delta_v)
        }
    }
}

/// An abort reaches orbit if and only if the vehicle is at or above the
/// lowest safe altitude, the ascent stage has propellant, and the velocity
/// change covers what is missing to the orbital speed.
pub proof fn lemma_abort_succeeds_iff(state: VehicleState, delta_v: i64)
    ensures
        abort_outcome(state, delta_v) is Success <==> state.altitude >= MIN_ABORT_ALTITUDE
            && state.ascent_fuel_mass > 0 && delta_v >= LUNAR_ORBITAL_SPEED - speed_along(
            state.horiz_speed as int,
        ),
        abort_outcome(state, delta_v) is InsufficientDeltaV ==> after_abort(
            state,
            abort_outcome(state, delta_v),
        ) == state,
{
}

} // verus!
