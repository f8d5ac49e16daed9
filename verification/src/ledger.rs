//! The propellant ledger: what a sub-step draws from the descent stage, and
//! what the vehicle weighs afterwards.

use vstd::prelude::*;
use crate::dynamics::deliverable;
use crate::units::{ASCENT_DRY_MASS, DESCENT_DRY_MASS, FUEL_LIMIT};

verus! {

/// Propellant that one sub-step at the two burn rates asks for: the vertical
/// rate plus the magnitude of the horizontal rate, for one sub-step.
pub open spec fn fuel_demand(v_burn: int, h_burn: int) -> int {
    v_burn + if h_burn >= 0 {
        h_burn
    } else {
        -h_burn
    }
}

/// Propellant that one sub-step draws: the demand, or all that is left of
/// `fuel` where the demand is larger.
pub open spec fn fuel_drawn(fuel: nat, v_burn: int, h_burn: int) -> nat {
    if fuel_demand(v_burn, h_burn) <= 0 {
        0
    } else if fuel_demand(v_burn, h_burn) >= fuel {
        fuel
    } else {
        fuel_demand(v_burn, h_burn) as nat
    }
}

/// Mass of the whole vehicle: both dry stages and both propellant loads.
pub open spec fn total_mass(descent_fuel: nat, ascent_fuel: nat) -> nat {
    DESCENT_DRY_MASS as nat + descent_fuel + ASCENT_DRY_MASS as nat + ascent_fuel
}

/// Computes [`fuel_drawn`].
pub fn draw_fuel(fuel: u64, v_burn: i64, h_burn: i64) -> (drawn: u64)
    requires
        deliverable(v_burn as int, h_burn as int),
    ensures
        drawn == fuel_drawn(fuel as nat, v_burn as int, h_burn as int),
        drawn <= fuel,
{
    let sideways: i64 = if h_burn >= 0 {
        h_burn
    } else {
        -h_burn
    };
    let demand: u64 = (v_burn + sideways) as u64;
    if demand > fuel {
        fuel
    } else {
        demand
    }
}

/// Computes [`total_mass`].
pub fn compute_total_mass(descent_fuel: u64, ascent_fuel: u64) -> (mass: u64)
    requires
        descent_fuel <= FUEL_LIMIT,
        ascent_fuel <= FUEL_LIMIT,
    ensures
        mass == total_mass(descent_fuel as nat, ascent_fuel as nat),
        mass >= DESCENT_DRY_MASS + ASCENT_DRY_MASS,
{
    DESCENT_DRY_MASS + descent_fuel + ASCENT_DRY_MASS + ascent_fuel
}

/// The vehicle always has mass: whatever the propellant loads, it weighs
/// at least its two dry stages.
pub proof fn lemma_mass_is_positive(descent_fuel: nat, ascent_fuel: nat)
    ensures
        total_mass(descent_fuel, ascent_fuel) >= DESCENT_DRY_MASS + ASCENT_DRY_MASS > 0,
{
}

} // verus!
