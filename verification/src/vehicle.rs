//! The vehicle's state, a burn command, and the sub-step that advances the
//! one under the other.

use vstd::prelude::*;
use crate::dynamics::{
    compute_horizontal_acceleration,
    compute_vertical_acceleration,
    deliverable,
    horizontal_acceleration,
    lemma_acceleration_bounded,
    vertical_acceleration,
};
use crate::integrator::{
    displacement,
    rate_gain,
    rk4_horizontal,
    rk4_vertical,
    ACCELERATION_LIMIT,
    HALF_STEP_LIMIT,
    POSITION_LIMIT,
    RATE_LIMIT,
};
use crate::ledger::{compute_total_mass, draw_fuel, fuel_drawn, total_mass};
use crate::units::{
    ASCENT_DRY_MASS,
    DESCENT_DRY_MASS,
    FUEL_LIMIT,
    HALF_STEP,
    MAX_HORIZONTAL_BURN,
    MAX_VERTICAL_BURN,
    MILLIS_PER_STEP,
    THRUST_FACTOR,
    TIME_LIMIT,
};

verus! {

/// Greatest magnitude of a speed with which a flight can start.
pub const SPEED_START_LIMIT: i64 = 5_000_000_000_000;

/// Greatest magnitude of an altitude with which a flight can start.
pub const POSITION_START_LIMIT: i64 = 100_000_000_000_000_000;

/// A magnitude that no acceleration of the vehicle exceeds.
pub const ACCELERATION_BOUND: i64 = 700_000_000;

/// Sub-steps that a state can be carried through: a whole flight, and a
/// whole projection after its last instant.
pub const STEP_HORIZON: u64 = 16_000;

/// Most that a speed changes in one sub-step.
pub const SPEED_GROWTH: i64 = 1_400_000_000;

/// Most that a position changes in one sub-step.
pub const POSITION_GROWTH: i64 = 54_801_400_000_000;

/// What the vehicle is at one instant.
#[derive(Clone, Copy, Debug, PartialEq, Eq, Structural)]
pub struct VehicleState {
    /// Height above the surface.
    pub altitude: i64,
    /// Speed towards the surface.
    pub v_down: i64,
    /// Distance covered along the surface.
    pub horiz_pos: i64,
    /// Speed along the surface.
    pub horiz_speed: i64,
    /// Propellant left in the descent stage.
    pub descent_fuel_mass: u64,
    /// Propellant in the ascent stage, which a descent never draws.
    pub ascent_fuel_mass: u64,
    /// Sub-steps flown.
    pub time: u64,
}

/// A [`VehicleState`] as mathematical integers.
pub struct VehicleModel {
    pub altitude: int,
    pub v_down: int,
    pub horiz_pos: int,
    pub horiz_speed: int,
    pub descent_fuel_mass: nat,
    pub ascent_fuel_mass: nat,
    pub time: nat,
}

impl View for VehicleState {
    type V = VehicleModel;

    open spec fn view(&self) -> VehicleModel {
        VehicleModel {
            altitude: self.altitude as int,
            v_down: self.v_down as int,
            horiz_pos: self.horiz_pos as int,
            horiz_speed: self.horiz_speed as int,
            descent_fuel_mass: self.descent_fuel_mass as nat,
            ascent_fuel_mass: self.ascent_fuel_mass as nat,
            time: self.time as nat,
        }
    }
}

/// One pilot input: how long to burn, and at which two rates.
#[derive(Clone, Copy, Debug, PartialEq, Eq, Structural)]
pub struct BurnCommand {
    /// Length of the burn in milliseconds; a negative length asks for an
    /// abort instead of a burn.
    pub duration_ms: i64,
    /// Vertical burn rate.
    pub v_burn_rate: i64,
    /// Horizontal burn rate, signed by its direction.
    pub h_burn_rate: i64,
}

/// Whether a position and its rate lie where `time` sub-steps can have
/// brought them from an admissible start.
pub open spec fn within_envelope(position: int, rate: int, time: nat) -> bool {
    &&& -(SPEED_START_LIMIT + time * SPEED_GROWTH) <= rate <= SPEED_START_LIMIT + time
        * SPEED_GROWTH
    &&& -(POSITION_START_LIMIT + time * POSITION_GROWTH) <= position <= POSITION_START_LIMIT
        + time * POSITION_GROWTH
}

impl VehicleModel {
    /// Whether the machine's integers can hold this state and every state
    /// that follows it up to the step horizon.
    pub open spec fn representable(self) -> bool {
        &&& self.time <= STEP_HORIZON
        &&& within_envelope(self.altitude, self.v_down, self.time)
        &&& within_envelope(self.horiz_pos, self.horiz_speed, self.time)
        &&& self.descent_fuel_mass <= FUEL_LIMIT
        &&& self.ascent_fuel_mass <= FUEL_LIMIT
    }

    /// Mass of the whole vehicle.
    pub open spec fn mass(self) -> nat {
        total_mass(self.descent_fuel_mass, self.ascent_fuel_mass)
    }

    /// The state one sub-step later under the two commanded burn rates.
    ///
    /// The ledger is settled first, and the accelerations are taken at the
    /// mass that it leaves. A stage that was empty before the sub-step gives
    /// no thrust, whatever is commanded.
    pub open spec fn step(self, v_burn: int, h_burn: int) -> VehicleModel {
        let drawn = fuel_drawn(self.descent_fuel_mass, v_burn, h_burn);
        let fuel = (self.descent_fuel_mass - drawn) as nat;
        let mass = total_mass(fuel, self.ascent_fuel_mass) as int;
        let v_thrust = if self.descent_fuel_mass > 0 { v_burn } else { 0 };
        let h_thrust = if self.descent_fuel_mass > 0 { h_burn } else { 0 };
        let net_acc = vertical_acceleration(v_thrust, mass);
        let horiz_acc = horizontal_acceleration(h_thrust, mass);
        VehicleModel {
            altitude: self.altitude - displacement(self.v_down, HALF_STEP as int, net_acc),
            v_down: self.v_down + rate_gain(HALF_STEP as int, net_acc),
            horiz_pos: self.horiz_pos + displacement(self.horiz_speed, HALF_STEP as int, horiz_acc),
            horiz_speed: self.horiz_speed + rate_gain(HALF_STEP as int, horiz_acc),
            descent_fuel_mass: fuel,
            ascent_fuel_mass: self.ascent_fuel_mass,
            time: self.time + 1,
        }
    }
}

impl BurnCommand {
    /// Whether the two rates are ones that the engines can deliver.
    pub open spec fn valid(&self) -> bool {
        deliverable(self.v_burn_rate as int, self.h_burn_rate as int)
    }

    /// Whether the command asks for an abort.
    pub open spec fn asks_abort(&self) -> bool {
        self.duration_ms < 0
    }

    /// Whole sub-steps in the commanded length.
    pub open spec fn steps(&self) -> nat {
        if self.duration_ms < 0 {
            0
        } else {
            (self.duration_ms / MILLIS_PER_STEP) as nat
        }
    }

    /// Computes [`BurnCommand::valid`].
    pub fn is_valid(&self) -> (valid: bool)
        ensures
            valid == self.valid(),
    {
        0 <= self.v_burn_rate && self.v_burn_rate <= MAX_VERTICAL_BURN && -MAX_HORIZONTAL_BURN
            <= self.h_burn_rate && self.h_burn_rate <= MAX_HORIZONTAL_BURN
    }

    /// Computes [`BurnCommand::asks_abort`].
    pub fn is_abort(&self) -> (abort: bool)
        ensures
            abort == self.asks_abort(),
    {
        self.duration_ms < 0
    }

    /// Computes [`BurnCommand::steps`].
    pub fn sub_steps(&self) -> (steps: u64)
        ensures
            steps == self.steps(),
    {
        if self.duration_ms < 0 {
            0
        } else {
            (self.duration_ms / MILLIS_PER_STEP) as u64
        }
    }
}

impl VehicleState {
    /// Whether this is a state of a flight: one that the machine's integers
    /// can carry on, and not past the time limit.
    pub open spec fn wf(&self) -> bool {
        &&& self@.representable()
        &&& self.time <= TIME_LIMIT
    }

    /// Whether a flight can start from these values.
    pub open spec fn admissible(
        altitude: i64,
        v_down: i64,
        horiz_speed: i64,
        descent_fuel_mass: u64,
        ascent_fuel_mass: u64,
    ) -> bool {
        &&& -POSITION_START_LIMIT <= altitude <= POSITION_START_LIMIT
        &&& -SPEED_START_LIMIT <= v_down <= SPEED_START_LIMIT
        &&& -SPEED_START_LIMIT <= horiz_speed <= SPEED_START_LIMIT
        &&& descent_fuel_mass <= FUEL_LIMIT
        &&& ascent_fuel_mass <= FUEL_LIMIT
    }

    /// The state at the first instant of a flight, or nothing where a value
    /// is too large to fly from.
    pub fn new(
        altitude: i64,
        v_down: i64,
        horiz_speed: i64,
        descent_fuel_mass: u64,
        ascent_fuel_mass: u64,
    ) -> (state: Option<VehicleState>)
        ensures
            state is Some <==> Self::admissible(
                altitude,
                v_down,
                horiz_speed,
                descent_fuel_mass,
                ascent_fuel_mass,
            ),
            state matches Some(s) ==> s.wf() && s == (VehicleState {
                altitude,
                v_down,
                horiz_pos: 0,
                horiz_speed,
                descent_fuel_mass,
                ascent_fuel_mass,
                time: 0,
            }),
    {
        if -POSITION_START_LIMIT <= altitude && altitude <= POSITION_START_LIMIT
            && -SPEED_START_LIMIT <= v_down && v_down <= SPEED_START_LIMIT && -SPEED_START_LIMIT
            <= horiz_speed && horiz_speed <= SPEED_START_LIMIT && descent_fuel_mass <= FUEL_LIMIT
            && ascent_fuel_mass <= FUEL_LIMIT {
            Some(
                VehicleState {
                    altitude,
                    v_down,
                    horiz_pos: 0,
                    horiz_speed,
                    descent_fuel_mass,
                    ascent_fuel_mass,
                    time: 0,
                },
            )
        } else {
            None
        }
    }

    /// Computes [`VehicleState::wf`].
    pub fn is_wf(&self) -> (wf: bool)
        ensures
            wf == self.wf(),
    {
        if self.time > TIME_LIMIT || self.descent_fuel_mass > FUEL_LIMIT || self.ascent_fuel_mass
            > FUEL_LIMIT {
            return false;
        }
        let elapsed: i64 = self.time as i64;
        let speed_bound: i64 = SPEED_START_LIMIT + elapsed * SPEED_GROWTH;
        let position_bound: i64 = POSITION_START_LIMIT + elapsed * POSITION_GROWTH;
        -speed_bound <= self.v_down && self.v_down <= speed_bound && -speed_bound
            <= self.horiz_speed && self.horiz_speed <= speed_bound && -position_bound
            <= self.altitude && self.altitude <= position_bound && -position_bound
            <= self.horiz_pos && self.horiz_pos <= position_bound
    }

    /// Whether the flight has reached the time limit.
    pub fn timed_out(&self) -> (over: bool)
        ensures
            over == (self.time >= TIME_LIMIT),
    {
        self.time >= TIME_LIMIT
    }

    /// Mass of the whole vehicle.
    pub fn total_mass(&self) -> (mass: u64)
        requires
            self@.representable(),
        ensures
            mass == self@.mass(),
            mass > 0,
    {
        compute_total_mass(self.descent_fuel_mass, self.ascent_fuel_mass)
    }

    /// Whether the vehicle is above the surface.
    pub fn is_airborne(&self) -> (airborne: bool)
        ensures
            airborne == (self.altitude > 0),
    {
        self.altitude > 0
    }

    /// Advances the state by one sub-step under the two burn rates.
    pub fn sub_step(&mut self, v_burn: i64, h_burn: i64)
        requires
            old(self)@.representable(),
            old(self).time < STEP_HORIZON,
            deliverable(v_burn as int, h_burn as int),
        ensures
            final(self)@ == old(self)@.step(v_burn as int, h_burn as int),
            final(self)@.representable(),
    {
        let thrusting = self.descent_fuel_mass > 0;
        let drawn = draw_fuel(self.descent_fuel_mass, v_burn, h_burn);
        self.descent_fuel_mass = self.descent_fuel_mass - drawn;
        let mass = compute_total_mass(self.descent_fuel_mass, self.ascent_fuel_mass);
        let v_thrust: i64 = if thrusting { v_burn } else { 0 };
        let h_thrust: i64 = if thrusting { h_burn } else { 0 };
        let net_acc = compute_vertical_acceleration(v_thrust, mass);
        let horiz_acc = compute_horizontal_acceleration(h_thrust, mass);
        proof {
            lemma_acceleration_bounded(
                v_thrust as int,
                h_thrust as int,
                mass as int,
                (DESCENT_DRY_MASS + ASCENT_DRY_MASS) as int,
                ACCELERATION_BOUND as int,
            );
        }
        let vertical = rk4_vertical([self.altitude, self.v_down], HALF_STEP, net_acc);
        let horizontal = rk4_horizontal([self.horiz_pos, self.horiz_speed], HALF_STEP, horiz_acc);
        self.altitude = vertical[0];
        self.v_down = vertical[1];
        self.horiz_pos = horizontal[0];
        self.horiz_speed = horizontal[1];
        self.time = self.time + 1;
    }
}

/// The bounds of the envelope fit together: a speed grows by no more than
/// twice the greatest acceleration in a sub-step, a position by no more than
/// twice the greatest speed and one growth of the speed, and at the horizon
/// both still fit the integrator.
pub proof fn lemma_envelope_fits()
    ensures
        SPEED_GROWTH == 2 * HALF_STEP * ACCELERATION_BOUND,
        POSITION_GROWTH == 2 * HALF_STEP * (SPEED_START_LIMIT + STEP_HORIZON * SPEED_GROWTH)
            + SPEED_GROWTH,
        SPEED_START_LIMIT + STEP_HORIZON * SPEED_GROWTH <= RATE_LIMIT,
        POSITION_START_LIMIT + STEP_HORIZON * POSITION_GROWTH <= POSITION_LIMIT,
        ACCELERATION_BOUND <= ACCELERATION_LIMIT,
        HALF_STEP <= HALF_STEP_LIMIT,
        MAX_VERTICAL_BURN * THRUST_FACTOR < ACCELERATION_BOUND * (DESCENT_DRY_MASS
            + ASCENT_DRY_MASS),
{
}

} // verus!
