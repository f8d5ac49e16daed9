//! The ground's view of a burn: where the vehicle would touch down if the
//! throttle stayed as it was just commanded, and the advisory that follows
//! from it.

use vstd::prelude::*;
use crate::advisory::{
    enqueued,
    AdvisoryQueue,
    Correction,
    PROCESSING_DELAY,
    QUEUE_CAPACITY,
    TRANSMISSION_DELAY,
};
use crate::units::{MAX_HORIZONTAL_BURN, MAX_VERTICAL_BURN, TIME_LIMIT};
use crate::vehicle::{BurnCommand, VehicleModel, VehicleState};

verus! {

/// Most sub-steps that a projection looks ahead.
pub const PROJECTION_STEPS: u64 = 10_000;

/// Downward speed that a landing aims at, 5 feet per second.
pub const TARGET_TOUCHDOWN_SPEED: i64 = 250_000_000;

/// Horizontal speed that a landing aims at.
pub const TARGET_HORIZONTAL_SPEED: i64 = 0;

/// Greatest deviation from a target that needs no correction, 5 feet per
/// second.
pub const LANDING_TOLERANCE: i64 = 250_000_000;

/// Speed units of vertical error for which one flow unit is suggested: a
/// tenth of a pound per second for each foot per second.
pub const VERTICAL_ERROR_PER_FLOW: i64 = 500_000;

/// Speed units of horizontal error for which one flow unit is suggested: a
/// twentieth of a pound per second for each foot per second.
pub const HORIZONTAL_ERROR_PER_FLOW: i64 = 1_000_000;

impl VehicleModel {
    /// The state in which a projection from this state ends: the first one
    /// at or below the surface, or the one after `steps` sub-steps where the
    /// surface is not reached by then.
    pub open spec fn projected(self, v_burn: int, h_burn: int, steps: nat) -> VehicleModel
        decreases steps,
    {
        if steps == 0 || self.altitude <= 0 {
            self
        } else {
            self.step(v_burn, h_burn).projected(v_burn, h_burn, (steps - 1) as nat)
        }
    }
}

/// Whether a deviation from a target needs no correction.
pub open spec fn tolerable(error: int) -> bool {
    -LANDING_TOLERANCE <= error <= LANDING_TOLERANCE
}

/// The quotient of `error` by `per_flow`, rounded towards zero.
pub open spec fn proportional(error: int, per_flow: int) -> int {
    if error >= 0 {
        error / per_flow
    } else {
        -((-error) / per_flow)
    }
}

/// The part of `adjustment` that keeps `rate + adjustment` between `low` and
/// `high`.
pub open spec fn clamped(rate: int, adjustment: int, low: int, high: int) -> int {
    if rate + adjustment > high {
        high - rate
    } else if rate + adjustment < low {
        low - rate
    } else {
        adjustment
    }
}

/// Deviation of a projected downward speed from its target.
pub open spec fn vertical_error(v_down: int) -> int {
    v_down - TARGET_TOUCHDOWN_SPEED
}

/// Deviation of a projected horizontal speed from its target.
pub open spec fn horizontal_error(horiz_speed: int) -> int {
    horiz_speed - TARGET_HORIZONTAL_SPEED
}

/// The change of the vertical burn rate that a projected downward speed
/// calls for, before it is held to what the engine can deliver.
pub open spec fn vertical_adjustment(v_down: int) -> int {
    proportional(vertical_error(v_down), VERTICAL_ERROR_PER_FLOW as int)
}

/// The change of the horizontal burn rate that a projected horizontal speed
/// calls for, before it is held to what the engine can deliver.
pub open spec fn horizontal_adjustment(horiz_speed: int) -> int {
    proportional(horizontal_error(horiz_speed), HORIZONTAL_ERROR_PER_FLOW as int)
}

/// Whether a projected touchdown is within tolerance on both axes.
pub open spec fn nominal(v_down: int, horiz_speed: int) -> bool {
    tolerable(vertical_error(v_down)) && tolerable(horizontal_error(horiz_speed))
}

/// The advisory for a projected touchdown at the speeds `v_down` and
/// `horiz_speed` under `command`, computed for the instant `now`.
///
/// Within tolerance it is a confirmation without changes. Otherwise it is a
/// correction that carries both adjustments, each held to what the engine
/// can deliver; one that is held to zero is carried all the same.
pub open spec fn advice(
    v_down: i64,
    horiz_speed: i64,
    command: BurnCommand,
    now: u64,
) -> Correction {
    let confirmed = nominal(v_down as int, horiz_speed as int);
    Correction {
        eval_time: now,
        display_time: (now + TRANSMISSION_DELAY + PROCESSING_DELAY) as u64,
        v_burn_diff: if confirmed {
            0
        } else {
            clamped(
                command.v_burn_rate as int,
                vertical_adjustment(v_down as int),
                0,
                MAX_VERTICAL_BURN as int,
            ) as i64
        },
        h_burn_diff: if confirmed {
            0
        } else {
            clamped(
                command.h_burn_rate as int,
                horizontal_adjustment(horiz_speed as int),
                -MAX_HORIZONTAL_BURN as int,
                MAX_HORIZONTAL_BURN as int,
            ) as i64
        },
        is_confirmation: confirmed,
    }
}

/// The advisory that the ground works out from `state` after `command`.
pub open spec fn advisory_for(state: VehicleState, command: BurnCommand) -> Correction
    recommends
        state.wf(),
        command.valid(),
{
    let touchdown = state@.projected(
        command.v_burn_rate as int,
        command.h_burn_rate as int,
        PROJECTION_STEPS as nat,
    );
    advice(touchdown.v_down as i64, touchdown.horiz_speed as i64, command, state.time)
}

/// Computes [`proportional`].
fn compute_proportional(error: i128, per_flow: i64) -> (adjustment: i128)
    requires
        per_flow > 0,
        -0x1_0000_0000_0000_0000 <= error <= 0x1_0000_0000_0000_0000,
    ensures
        adjustment == proportional(error as int, per_flow as int),
        -0x1_0000_0000_0000_0000 <= adjustment <= 0x1_0000_0000_0000_0000,
{
    proof {
        if error >= 0 {
            vstd::arithmetic::div_mod::lemma_div_pos_is_pos(error as int, per_flow as int);
            vstd::arithmetic::div_mod::lemma_div_is_ordered_by_denominator(
                error as int,
                1,
                per_flow as int,
            );
        } else {
            vstd::arithmetic::div_mod::lemma_div_pos_is_pos(-error as int, per_flow as int);
            vstd::arithmetic::div_mod::lemma_div_is_ordered_by_denominator(
                -error as int,
                1,
                per_flow as int,
            );
        }
    }
    if error >= 0 {
        error / (per_flow as i128)
    } else {
        -((-error) / (per_flow as i128))
    }
}

/// Computes [`clamped`].
fn compute_clamped(rate: i64, adjustment: i128, low: i64, high: i64) -> (held: i64)
    requires
        low <= rate <= high,
        -MAX_VERTICAL_BURN <= low,
        high <= MAX_VERTICAL_BURN,
        -0x1_0000_0000_0000_0000 <= adjustment <= 0x1_0000_0000_0000_0000,
    ensures
        held == clamped(rate as int, adjustment as int, low as int, high as int),
        low <= rate + held <= high,
{
    let sum: i128 = rate as i128 + adjustment;
    if sum > high as i128 {
        high - rate
    } else if sum < low as i128 {
        low - rate
    } else {
        adjustment as i64
    }
}

/// Works out the advisory for a projected touchdown at the speeds `v_down`
/// and `horiz_speed` under `command`, for the instant `now`.
pub fn advise(v_down: i64, horiz_speed: i64, command: &BurnCommand, now: u64) -> (correction:
    Correction)
    requires
        command.valid(),
        now + TRANSMISSION_DELAY + PROCESSING_DELAY <= u64::MAX,
    ensures
        correction == advice(v_down, horiz_speed, *command, now),
        correction.eval_time == now,
        correction.display_time == now + TRANSMISSION_DELAY + PROCESSING_DELAY,
        correction.is_confirmation == nominal(v_down as int, horiz_speed as int),
        correction.is_confirmation ==> correction.v_burn_diff == 0 && correction.h_burn_diff == 0,
        !correction.is_confirmation ==> correction.v_burn_diff == clamped(
            command.v_burn_rate as int,
            vertical_adjustment(v_down as int),
            0,
            MAX_VERTICAL_BURN as int,
        ) && correction.h_burn_diff == clamped(
            command.h_burn_rate as int,
            horizontal_adjustment(horiz_speed as int),
            -MAX_HORIZONTAL_BURN as int,
            MAX_HORIZONTAL_BURN as int,
        ),
        0 <= command.v_burn_rate + correction.v_burn_diff <= MAX_VERTICAL_BURN,
        -MAX_HORIZONTAL_BURN <= command.h_burn_rate + correction.h_burn_diff
            <= MAX_HORIZONTAL_BURN,
{
    let v_error: i128 = v_down as i128 - TARGET_TOUCHDOWN_SPEED as i128;
    let h_error: i128 = horiz_speed as i128 - TARGET_HORIZONTAL_SPEED as i128;
    let tolerance: i128 = LANDING_TOLERANCE as i128;
    let display_time = now + TRANSMISSION_DELAY + PROCESSING_DELAY;
    if -tolerance <= v_error && v_error <= tolerance && -tolerance <= h_error && h_error
        <= tolerance {
        Correction {
            eval_time: now,
            display_time,
            v_burn_diff: 0,
            h_burn_diff: 0,
            is_confirmation: true,
        }
    } else {
        let v_adjustment = compute_proportional(v_error, VERTICAL_ERROR_PER_FLOW);
        let h_adjustment = compute_proportional(h_error, HORIZONTAL_ERROR_PER_FLOW);
        Correction {
            eval_time: now,
            display_time,
            v_burn_diff: compute_clamped(command.v_burn_rate, v_adjustment, 0, MAX_VERTICAL_BURN),
            h_burn_diff: compute_clamped(
                command.h_burn_rate,
                h_adjustment,
                -MAX_HORIZONTAL_BURN,
                MAX_HORIZONTAL_BURN,
            ),
            is_confirmation: false,
        }
    }
}

/// Flies a copy of `state` on under the rates of `command` until it reaches
/// the surface, or for the most sub-steps that a projection looks ahead, and
/// returns the copy as it then is.
pub fn project(state: &VehicleState, command: &BurnCommand) -> (touchdown: VehicleState)
    requires
        state.wf(),
        command.valid(),
    ensures
        touchdown@ == state@.projected(
            command.v_burn_rate as int,
            command.h_burn_rate as int,
            PROJECTION_STEPS as nat,
        ),
        touchdown@.representable(),
{
    let mut scratch = *state;
    let mut flown: u64 = 0;
    while scratch.altitude > 0 && flown < PROJECTION_STEPS
        invariant
            flown <= PROJECTION_STEPS,
            command.valid(),
            scratch@.representable(),
            scratch.time == state.time + flown,
            state.time <= TIME_LIMIT,
            scratch@.projected(
                command.v_burn_rate as int,
                command.h_burn_rate as int,
                (PROJECTION_STEPS - flown) as nat,
            ) == state@.projected(
                command.v_burn_rate as int,
                command.h_burn_rate as int,
                PROJECTION_STEPS as nat,
            ),
        decreases PROJECTION_STEPS - flown,
    {
        scratch.sub_step(command.v_burn_rate, command.h_burn_rate);
        flown = flown + 1;
    }
    scratch
}

/// Queues the advisory that the ground works out from `state` after
/// `last_command`, where the vehicle is still above the surface; the state
/// itself is only read.
pub fn project_and_queue_advisory(
    state: &VehicleState,
    queue: &mut AdvisoryQueue,
    last_command: &BurnCommand,
)
    requires
        state.wf(),
        last_command.valid(),
        old(queue).wf(),
    ensures
        final(queue).wf(),
        final(queue)@ == if state.altitude > 0 {
            enqueued(old(queue)@, advisory_for(*state, *last_command))
        } else {
            old(queue)@
        },
{
    if state.altitude > 0 {
        let touchdown = project(state, last_command);
        let correction = advise(touchdown.v_down, touchdown.horiz_speed, last_command, state.time);
        queue.insert(correction);
    }
}

/// The ground confirms if and only if both projected deviations are within
/// tolerance, and a confirmation carries no change. Otherwise at least one
/// axis calls for a change that is not zero, and the correction carries, for
/// each axis, that change held to what the engine can deliver: it can come
/// out as zero only where the commanded rate already stands at the limit
/// towards which the change points.
pub proof fn lemma_confirmation_or_correction(
    v_down: i64,
    horiz_speed: i64,
    command: BurnCommand,
    now: u64,
)
    requires
        command.valid(),
    ensures
        ({
            let correction = advice(v_down, horiz_speed, command, now);
            let v_adjustment = vertical_adjustment(v_down as int);
            let h_adjustment = horizontal_adjustment(horiz_speed as int);
            &&& correction.is_confirmation <==> tolerable(vertical_error(v_down as int))
                && tolerable(horizontal_error(horiz_speed as int))
            &&& correction.is_confirmation ==> correction.v_burn_diff == 0
                && correction.h_burn_diff == 0
            &&& !correction.is_confirmation ==> v_adjustment != 0 || h_adjustment != 0
            &&& !correction.is_confirmation && v_adjustment > 0 && correction.v_burn_diff == 0
                ==> command.v_burn_rate == MAX_VERTICAL_BURN
            &&& !correction.is_confirmation && v_adjustment < 0 && correction.v_burn_diff == 0
                ==> command.v_burn_rate == 0
            &&& !correction.is_confirmation && h_adjustment > 0 && correction.h_burn_diff == 0
                ==> command.h_burn_rate == MAX_HORIZONTAL_BURN
            &&& !correction.is_confirmation && h_adjustment < 0 && correction.h_burn_diff == 0
                ==> command.h_burn_rate == -MAX_HORIZONTAL_BURN
        }),
{
    let v_error = vertical_error(v_down as int);
    let h_error = horizontal_error(horiz_speed as int);
    lemma_proportional_sign(v_error, VERTICAL_ERROR_PER_FLOW as int);
    lemma_proportional_sign(h_error, HORIZONTAL_ERROR_PER_FLOW as int);
}

/// A proportional adjustment has the sign of the error, and is not zero
/// where the error is at least one flow unit's worth.
proof fn lemma_proportional_sign(error: int, per_flow: int)
    requires
        per_flow > 0,
    ensures
        error >= per_flow ==> proportional(error, per_flow) > 0,
        error <= -per_flow ==> proportional(error, per_flow) < 0,
        error >= 0 ==> proportional(error, per_flow) >= 0,
        error <= 0 ==> proportional(error, per_flow) <= 0,
{
    if error >= 0 {
        vstd::arithmetic::div_mod::lemma_div_pos_is_pos(error, per_flow);
        if error >= per_flow {
            vstd::arithmetic::div_mod::lemma_div_non_zero(error, per_flow);
        }
    } else {
        vstd::arithmetic::div_mod::lemma_div_pos_is_pos(-error, per_flow);
        if -error >= per_flow {
            vstd::arithmetic::div_mod::lemma_div_non_zero(-error, per_flow);
        }
    }
}

/// A projection reads the state and leaves it as it is, so that two runs
/// from one state after one command work out one and the same advisory:
/// queued one after the other where there is room, they stand side by side
/// and are equal.
pub proof fn lemma_projection_repeats(
    state: VehicleState,
    command: BurnCommand,
    pending: Seq<Correction>,
)
    requires
        pending.len() + 2 <= QUEUE_CAPACITY,
    ensures
        ({
            let once = enqueued(pending, advisory_for(state, command));
            let twice = enqueued(once, advisory_for(state, command));
            &&& once == pending.push(advisory_for(state, command))
            &&& twice == once.push(advisory_for(state, command))
            &&& twice[pending.len() as int] == twice[pending.len() as int + 1]
        }),
{
}

} // verus!
