//! Judging a touchdown by the speeds at which the surface is met.

use vstd::prelude::*;
use crate::abort::speed_along;
use crate::vehicle::VehicleState;

verus! {

/// Greatest speed on either axis of a perfect landing, 5 feet per second.
pub const PERFECT_SPEED: i64 = 250_000_000;

/// Greatest speed on either axis of a good landing, 15 feet per second.
pub const GOOD_SPEED: i64 = 750_000_000;

/// How a touchdown is judged.
#[derive(Clone, Copy, Debug, PartialEq, Eq, Structural)]
pub enum Landing {
    /// Both speeds are safe.
    Perfect,
    /// A minor impact.
    Good,
    /// The impact is too hard.
    Crash,
}

/// The judgement of a touchdown at the downward speed `v_down` and the
/// horizontal speed `horiz_speed`: perfect where the downward speed and the
/// magnitude of the horizontal speed are both within the perfect speed, good
/// where both are within the good speed, and a crash otherwise.
pub open spec fn landing_class(v_down: int, horiz_speed: int) -> Landing {
    if v_down <= PERFECT_SPEED && speed_along(horiz_speed) <= PERFECT_SPEED {
        Landing::Perfect
    } else if v_down <= GOOD_SPEED && speed_along(horiz_speed) <= GOOD_SPEED {
        Landing::Good
    } else {
        Landing::Crash
    }
}

/// Computes [`landing_class`].
pub fn classify_landing(v_down: i64, horiz_speed: i64) -> (landing: Landing)
    ensures
        landing == landing_class(v_down as int, horiz_speed as int),
{
    if v_down <= PERFECT_SPEED && -PERFECT_SPEED <= horiz_speed && horiz_speed <= PERFECT_SPEED {
        Landing::Perfect
    } else if v_down <= GOOD_SPEED && -GOOD_SPEED <= horiz_speed && horiz_speed <= GOOD_SPEED {
        Landing::Good
    } else {
        Landing::Crash
    }
}

/// The judgement of the touchdown in `state`, or nothing while the vehicle
/// is above the surface.
pub fn landing_report(state: &VehicleState) -> (report: Option<Landing>)
    ensures
        report == if state.altitude <= 0 {
            Some(landing_class(state.v_down as int, state.horiz_speed as int))
        } else {
            None
        },
{
    if state.altitude <= 0 {
        Some(classify_landing(state.v_down, state.horiz_speed))
    } else {
        None
    }
}

} // verus!
