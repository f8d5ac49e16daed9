//! Accelerations of the vehicle from the commanded burn rates and its mass.
//!
//! A burn rate `b` gives a mass flow `b / g0`, a thrust of that flow times
//! the exhaust velocity, and an acceleration of that thrust over the mass in
//! slugs, `m / g0`. Standard gravity `g0` cancels, so the acceleration is
//! `b` times the exhaust velocity over `m`, and the quotient is taken once.

use vstd::prelude::*;
use crate::units::{LUNAR_GRAVITY, MAX_HORIZONTAL_BURN, MAX_VERTICAL_BURN, THRUST_FACTOR};

verus! {

/// Acceleration from burning `flow` on a vehicle of mass `mass`, rounded
/// down to the acceleration unit.
pub open spec fn thrust_acceleration(flow: int, mass: int) -> int {
    (flow * THRUST_FACTOR) / mass
}

/// Net downward acceleration: gravity less the vertical thrust.
pub open spec fn vertical_acceleration(v_burn: int, mass: int) -> int {
    LUNAR_GRAVITY - thrust_acceleration(v_burn, mass)
}

/// Horizontal acceleration: the thrust of `|h_burn|`, to the side of its
/// sign.
pub open spec fn horizontal_acceleration(h_burn: int, mass: int) -> int {
    if h_burn >= 0 {
        thrust_acceleration(h_burn, mass)
    } else {
        -thrust_acceleration(-h_burn, mass)
    }
}

/// Whether the two rates are ones that the engines can deliver.
pub open spec fn deliverable(v_burn: int, h_burn: int) -> bool {
    &&& 0 <= v_burn <= MAX_VERTICAL_BURN
    &&& -MAX_HORIZONTAL_BURN <= h_burn <= MAX_HORIZONTAL_BURN
}

/// Computes [`thrust_acceleration`].
pub fn compute_thrust_acceleration(flow: i64, mass: u64) -> (acc: i64)
    requires
        0 <= flow <= MAX_VERTICAL_BURN,
        0 < mass,
    ensures
        acc == thrust_acceleration(flow as int, mass as int),
        0 <= acc <= flow * THRUST_FACTOR,
{
    assert(0 <= flow * THRUST_FACTOR <= 62_500_000_000_000_000) by (nonlinear_arith)
        requires
            0 <= flow <= 250_000,
            THRUST_FACTOR == 250_000_000_000,
    ;
    let force: u64 = (flow * THRUST_FACTOR) as u64;
    proof {
        vstd::arithmetic::div_mod::lemma_div_pos_is_pos(force as int, mass as int);
        vstd::arithmetic::div_mod::lemma_div_is_ordered_by_denominator(
            force as int,
            1,
            mass as int,
        );
    }
    (force / mass) as i64
}

/// Computes [`vertical_acceleration`].
pub fn compute_vertical_acceleration(v_burn: i64, mass: u64) -> (acc: i64)
    requires
        0 <= v_burn <= MAX_VERTICAL_BURN,
        0 < mass,
    ensures
        acc == vertical_acceleration(v_burn as int, mass as int),
{
    LUNAR_GRAVITY - compute_thrust_acceleration(v_burn, mass)
}

/// Computes [`horizontal_acceleration`].
pub fn compute_horizontal_acceleration(h_burn: i64, mass: u64) -> (acc: i64)
    requires
        -MAX_HORIZONTAL_BURN <= h_burn <= MAX_HORIZONTAL_BURN,
        0 < mass,
    ensures
        acc == horizontal_acceleration(h_burn as int, mass as int),
{
    if h_burn >= 0 {
        compute_thrust_acceleration(h_burn, mass)
    } else {
        -compute_thrust_acceleration(-h_burn, mass)
    }
}

/// The thrust accelerations of a vehicle no lighter than `floor` stay under
/// `bound` on both axes when `bound * floor` covers the greatest thrust.
pub proof fn lemma_acceleration_bounded(v_burn: int, h_burn: int, mass: int, floor: int, bound: int)
    requires
        deliverable(v_burn, h_burn),
        0 < floor <= mass,
        MAX_VERTICAL_BURN * THRUST_FACTOR < bound * floor,
        LUNAR_GRAVITY <= bound,
    ensures
        -bound <= vertical_acceleration(v_burn, mass) <= bound,
        -bound <= horizontal_acceleration(h_burn, mass) <= bound,
{
    let magnitude = if h_burn >= 0 { h_burn } else { -h_burn };
    lemma_thrust_bounded(v_burn, mass, floor, bound);
    lemma_thrust_bounded(magnitude, mass, floor, bound);
}

/// A thrust acceleration is not negative, and is under `bound` when
/// `bound * floor` covers the greatest thrust and the mass is at least
/// `floor`.
proof fn lemma_thrust_bounded(flow: int, mass: int, floor: int, bound: int)
    requires
        0 <= flow <= MAX_VERTICAL_BURN,
        0 < floor <= mass,
        MAX_VERTICAL_BURN * THRUST_FACTOR < bound * floor,
    ensures
        0 <= thrust_acceleration(flow, mass) <= bound,
{
    let force = flow * THRUST_FACTOR;
    assert(0 <= force <= MAX_VERTICAL_BURN * THRUST_FACTOR) by (nonlinear_arith)
        requires
            0 <= flow <= MAX_VERTICAL_BURN,
            force == flow * THRUST_FACTOR,
            THRUST_FACTOR > 0,
    ;
    vstd::arithmetic::div_mod::lemma_div_pos_is_pos(force, mass);
    vstd::arithmetic::div_mod::lemma_fundamental_div_mod(force, mass);
    let quotient = force / mass;
    assert(quotient <= bound) by (nonlinear_arith)
        requires
            0 <= quotient,
            0 < floor <= mass,
            mass * quotient <= force,
            force < bound * floor,
    ;
}

} // verus!
