//! Flying a burn: the state is advanced sub-step by sub-step, and at each
//! sub-step the advisories whose time has come are handed out.

use vstd::prelude::*;
use crate::abort::{abort_outcome, after_abort, attempt_abort, AbortResult};
use crate::advisory::{
    due,
    enqueued,
    held_over,
    lemma_waiting_twice,
    shown_over,
    AdvisoryQueue,
    Correction,
};
use crate::projector::{advisory_for, project_and_queue_advisory};
use crate::units::TIME_LIMIT;
use crate::vehicle::{BurnCommand, VehicleModel, VehicleState};

verus! {

impl VehicleModel {
    /// The state in which a burn of `steps` sub-steps ends: the burn stops
    /// short at the surface and at the time limit.
    pub open spec fn flown(self, v_burn: int, h_burn: int, steps: nat) -> VehicleModel
        decreases steps,
    {
        if steps == 0 || self.altitude <= 0 || self.time >= TIME_LIMIT {
            self
        } else {
            self.step(v_burn, h_burn).flown(v_burn, h_burn, (steps - 1) as nat)
        }
    }

    /// The state after the burns of `commands`, one after the other.
    pub open spec fn flown_all(self, commands: Seq<BurnCommand>) -> VehicleModel
        decreases commands.len(),
    {
        if commands.len() == 0 {
            self
        } else {
            let last = commands.last();
            self.flown_all(commands.drop_last()).flown(
                last.v_burn_rate as int,
                last.h_burn_rate as int,
                last.steps(),
            )
        }
    }
}

/// Flies the burn of `command` from `state`, sub-step by sub-step, until its
/// length is flown, the surface is reached or the time limit has come. After
/// each sub-step the advisories that are due at its instant leave `queue`;
/// they are returned in the order in which they were shown.
pub fn apply_burn(
    state: &mut VehicleState,
    queue: &mut AdvisoryQueue,
    command: &BurnCommand,
) -> (delivered: Vec<Correction>)
    requires
        old(state).wf(),
        old(queue).wf(),
        command.valid(),
    ensures
        final(state).wf(),
        final(queue).wf(),
        final(state)@ == old(state)@.flown(
            command.v_burn_rate as int,
            command.h_burn_rate as int,
            command.steps(),
        ),
        old(state).time <= final(state).time <= old(state).time + command.steps(),
        final(state).descent_fuel_mass <= old(state).descent_fuel_mass,
        final(queue)@ == held_over(
            old(queue)@,
            old(state).time as nat,
            (final(state).time - old(state).time) as nat,
        ),
        delivered@ == shown_over(
            old(queue)@,
            old(state).time as nat,
            (final(state).time - old(state).time) as nat,
        ),
{
    let ghost start = state@;
    let ghost pending = queue@;
    let ghost v_burn = command.v_burn_rate as int;
    let ghost h_burn = command.h_burn_rate as int;
    let steps = command.sub_steps();
    let mut delivered: Vec<Correction> = Vec::new();
    let mut ticks: u64 = 0;
    while ticks < steps && state.altitude > 0 && state.time < TIME_LIMIT
        invariant
            state.wf(),
            queue.wf(),
            command.valid(),
            v_burn == command.v_burn_rate as int,
            h_burn == command.h_burn_rate as int,
            steps == command.steps(),
            ticks <= steps,
            state.time == start.time + ticks,
            state.descent_fuel_mass <= start.descent_fuel_mass,
            state@.flown(v_burn, h_burn, (steps - ticks) as nat) == start.flown(
                v_burn,
                h_burn,
                steps as nat,
            ),
            queue@ == held_over(pending, start.time, ticks as nat),
            delivered@ == shown_over(pending, start.time, ticks as nat),
        decreases steps - ticks,
    {
        state.sub_step(command.v_burn_rate, command.h_burn_rate);
        let mut batch = queue.drain_due(state.time);
        proof {
            if ticks > 0 {
                let now = start.time + ticks as nat;
                lemma_waiting_twice(pending, now, now + 1);
            }
            assert(batch@ == due(
                held_over(pending, start.time, ticks as nat),
                start.time + ticks as nat + 1,
            ));
        }
        delivered.append(&mut batch);
        ticks = ticks + 1;
    }
    delivered
}

/// What one command of the pilot came to.
#[derive(Clone, Debug, PartialEq, Eq)]
pub enum Turn {
    /// The command asked for an abort, which ended so.
    Abort(AbortResult),
    /// The burn rates are not ones that the engines can deliver: nothing was
    /// flown and nothing changed.
    Rejected,
    /// The burn was flown, and these advisories were shown on the way.
    Burn(Vec<Correction>),
}

/// Carries out one command of the pilot.
///
/// A negative length asks for an abort, which is attempted with the velocity
/// change `delta_v` that the ascent stage can give; the queue is left alone.
/// Else burn rates that cannot be delivered are turned down. Else the burn is
/// flown, and where the vehicle is still above the surface after it, the
/// ground's advisory on it joins the queue.
pub fn execute(
    state: &mut VehicleState,
    queue: &mut AdvisoryQueue,
    command: &BurnCommand,
    delta_v: i64,
) -> (turn: Turn)
    requires
        old(state).wf(),
        old(queue).wf(),
    ensures
        final(state).wf(),
        final(queue).wf(),
        command.asks_abort() ==> {
            &&& turn == Turn::Abort(abort_outcome(*old(state), delta_v))
            &&& *final(state) == after_abort(*old(state), abort_outcome(*old(state), delta_v))
            &&& final(queue)@ == old(queue)@
        },
        !command.asks_abort() && !command.valid() ==> {
            &&& turn is Rejected
            &&& *final(state) == *old(state)
            &&& final(queue)@ == old(queue)@
        },
        !command.asks_abort() && command.valid() ==> {
            let ticks = (final(state).time - old(state).time) as nat;
            let held = held_over(old(queue)@, old(state).time as nat, ticks);
            &&& final(state)@ == old(state)@.flown(
                command.v_burn_rate as int,
                command.h_burn_rate as int,
                command.steps(),
            )
            &&& old(state).time <= final(state).time
            &&& turn matches Turn::Burn(delivered) && delivered@ == shown_over(
                old(queue)@,
                old(state).time as nat,
                ticks,
            )
            &&& final(queue)@ == if final(state).altitude > 0 {
                enqueued(held, advisory_for(*final(state), *command))
            } else {
                held
            }
        },
{
    if command.is_abort() {
        Turn::Abort(attempt_abort(state, delta_v))
    } else if !command.is_valid() {
        Turn::Rejected
    } else {
        let delivered = apply_burn(state, queue, command);
        project_and_queue_advisory(state, queue, command);
        Turn::Burn(delivered)
    }
}

/// A sub-step never adds propellant to the descent stage.
pub proof fn lemma_step_spends(state: VehicleModel, v_burn: int, h_burn: int)
    ensures
        state.step(v_burn, h_burn).descent_fuel_mass <= state.descent_fuel_mass,
        state.step(v_burn, h_burn).time == state.time + 1,
{
}

/// A burn never adds propellant to the descent stage, and never turns the
/// clock back.
pub proof fn lemma_burn_spends(state: VehicleModel, v_burn: int, h_burn: int, steps: nat)
    ensures
        state.flown(v_burn, h_burn, steps).descent_fuel_mass <= state.descent_fuel_mass,
        state.time <= state.flown(v_burn, h_burn, steps).time <= state.time + steps,
    decreases steps,
{
    if !(steps == 0 || state.altitude <= 0 || state.time >= TIME_LIMIT) {
        lemma_step_spends(state, v_burn, h_burn);
        lemma_burn_spends(state.step(v_burn, h_burn), v_burn, h_burn, (steps - 1) as nat);
    }
}

/// Over any sequence of burns the propellant of the descent stage never
/// rises: after more of the burns there is no more of it than after fewer.
/// It is a natural number, so it is never negative either.
pub proof fn lemma_fuel_never_rises(
    state: VehicleModel,
    commands: Seq<BurnCommand>,
    fewer: int,
    more: int,
)
    requires
        0 <= fewer <= more <= commands.len(),
    ensures
        state.flown_all(commands.take(more)).descent_fuel_mass <= state.flown_all(
            commands.take(fewer),
        ).descent_fuel_mass,
        state.flown_all(commands.take(more)).descent_fuel_mass >= 0,
    decreases more - fewer,
{
    if fewer < more {
        let longer = commands.take(more);
        let last = longer.last();
        assert(longer.drop_last() =~= commands.take(more - 1));
        lemma_burn_spends(
            state.flown_all(commands.take(more - 1)),
            last.v_burn_rate as int,
            last.h_burn_rate as int,
            last.steps(),
        );
        lemma_fuel_never_rises(state, commands, fewer, more - 1);
    }
}

/// Whether a flight is over: the vehicle is on the surface, or the time
/// limit has come.
pub open spec fn over(state: VehicleModel) -> bool {
    state.altitude <= 0 || state.time >= TIME_LIMIT
}

/// A burn of at least one sub-step that starts in a flight that is not over
/// moves the clock on, and a burn that starts in one that is over changes
/// nothing.
pub proof fn lemma_burn_advances(state: VehicleModel, v_burn: int, h_burn: int, steps: nat)
    ensures
        !over(state) && steps > 0 ==> state.flown(v_burn, h_burn, steps).time > state.time,
        over(state) ==> state.flown(v_burn, h_burn, steps) == state,
{
    if !over(state) && steps > 0 {
        lemma_step_spends(state, v_burn, h_burn);
        lemma_burn_spends(state.step(v_burn, h_burn), v_burn, h_burn, (steps - 1) as nat);
    }
}

/// Every flight ends: after as many burns of at least one sub-step each as
/// the time limit has sub-steps, whatever their rates, the vehicle is on the
/// surface or the time limit has come.
pub proof fn lemma_flight_ends(state: VehicleModel, commands: Seq<BurnCommand>)
    requires
        commands.len() >= TIME_LIMIT,
        forall|i: int| 0 <= i < commands.len() ==> (#[trigger] commands[i]).steps() > 0,
    ensures
        over(state.flown_all(commands)),
{
    lemma_flight_progresses(state, commands);
}

/// After a number of burns of at least one sub-step each, the flight is over
/// or the clock has moved on by at least that number.
proof fn lemma_flight_progresses(state: VehicleModel, commands: Seq<BurnCommand>)
    requires
        forall|i: int| 0 <= i < commands.len() ==> (#[trigger] commands[i]).steps() > 0,
    ensures
        over(state.flown_all(commands)) || state.flown_all(commands).time >= state.time
            + commands.len(),
    decreases commands.len(),
{
    if commands.len() > 0 {
        let last = commands.last();
        let earlier = commands.drop_last();
        assert forall|i: int| 0 <= i < earlier.len() implies (#[trigger] earlier[i]).steps()
            > 0 by {
            assert(earlier[i] == commands[i]);
        }
        lemma_flight_progresses(state, earlier);
        lemma_burn_advances(
            state.flown_all(earlier),
            last.v_burn_rate as int,
            last.h_burn_rate as int,
            last.steps(),
        );
    }
}

} // verus!
