//! Classical fourth-order Runge-Kutta stepping of a position/rate pair.
//!
//! A state is `[position, rate]`. The acceleration is frozen for the length
//! of a step. A step spans two equal halves of `half_dt` grid instants each,
//! so the midpoint samples fall on the grid and no sample is rounded; the
//! weighted sum of the four samples is then a multiple of three, and the
//! step is exact.

use vstd::prelude::*;

verus! {

/// Largest magnitude of a position that a step accepts.
pub const POSITION_LIMIT: i64 = 4_000_000_000_000_000_000;

/// Largest magnitude of a rate that a step accepts.
pub const RATE_LIMIT: i64 = 100_000_000_000_000;

/// Largest magnitude of an acceleration that a step accepts.
pub const ACCELERATION_LIMIT: i64 = 10_000_000_000;

/// Largest half step, in grid instants, that a step accepts.
pub const HALF_STEP_LIMIT: i64 = 100;

/// Whether a step from `state` stays inside the machine's integers.
pub open spec fn steppable(state: [i64; 2], half_dt: i64, acc: i64) -> bool {
    &&& -POSITION_LIMIT <= state[0] <= POSITION_LIMIT
    &&& -RATE_LIMIT <= state[1] <= RATE_LIMIT
    &&& -ACCELERATION_LIMIT <= acc <= ACCELERATION_LIMIT
    &&& 0 <= half_dt <= HALF_STEP_LIMIT
}

/// Distance covered in a time `dt = 2 * half_dt` from rate `rate` under the
/// constant acceleration `acc`: `rate * dt + acc * dt * dt / 2`.
pub open spec fn displacement(rate: int, half_dt: int, acc: int) -> int {
    2 * half_dt * rate + 2 * half_dt * half_dt * acc
}

/// Rate gained in a time `dt = 2 * half_dt` under the constant acceleration
/// `acc`: `acc * dt`.
pub open spec fn rate_gain(half_dt: int, acc: int) -> int {
    2 * half_dt * acc
}

/// Time derivative of `[altitude, v_down]`: the altitude falls at the
/// downward speed, and the downward speed grows at the net acceleration.
pub fn compute_vertical_derivatives(state: [i64; 2], net_acc: i64) -> (derivatives: [i64; 2])
    requires
        state[1] > i64::MIN,
    ensures
        derivatives[0] == -state[1],
        derivatives[1] == net_acc,
{
    [-state[1], net_acc]
}

/// Time derivative of `[horiz_pos, horiz_speed]`: the position grows at the
/// speed, and the speed grows at the acceleration.
pub fn compute_horizontal_derivatives(state: [i64; 2], horiz_acc: i64) -> (derivatives: [i64; 2])
    ensures
        derivatives[0] == state[1],
        derivatives[1] == horiz_acc,
{
    [state[1], horiz_acc]
}

/// The state `state + weight * slope`, component by component.
fn offset(state: [i64; 2], weight: i64, slope: [i64; 2]) -> (moved: [i64; 2])
    requires
        0 <= weight <= 2 * HALF_STEP_LIMIT,
        -POSITION_LIMIT <= state[0] <= POSITION_LIMIT,
        -RATE_LIMIT <= state[1] <= RATE_LIMIT,
        -2 * RATE_LIMIT <= slope[0] <= 2 * RATE_LIMIT,
        -ACCELERATION_LIMIT <= slope[1] <= ACCELERATION_LIMIT,
    ensures
        moved[0] == state[0] + weight * slope[0],
        moved[1] == state[1] + weight * slope[1],
        -2 * RATE_LIMIT <= moved[1] <= 2 * RATE_LIMIT,
{
    assert(-400_000_000_000_000_000 <= weight * slope[0] <= 400_000_000_000_000_000)
        by (nonlinear_arith)
        requires
            0 <= weight <= 200,
            -200_000_000_000_000 <= slope[0] <= 200_000_000_000_000,
    ;
    assert(-2_000_000_000_000 <= weight * slope[1] <= 2_000_000_000_000) by (nonlinear_arith)
        requires
            0 <= weight <= 200,
            -10_000_000_000 <= slope[1] <= 10_000_000_000,
    ;
    [state[0] + weight * slope[0], state[1] + weight * slope[1]]
}

/// The step `half_dt / 3 * (k1 + 2 * k2 + 2 * k3 + k4)`, which is a sixth of
/// the whole step `2 * half_dt` times the weighted sum of the four samples.
fn weighted_step(half_dt: i64, k1: i64, k2: i64, k3: i64, k4: i64) -> (step: i64)
    requires
        0 <= half_dt <= HALF_STEP_LIMIT,
        -2 * RATE_LIMIT <= k1 <= 2 * RATE_LIMIT,
        -2 * RATE_LIMIT <= k2 <= 2 * RATE_LIMIT,
        -2 * RATE_LIMIT <= k3 <= 2 * RATE_LIMIT,
        -2 * RATE_LIMIT <= k4 <= 2 * RATE_LIMIT,
        (k1 + 2 * k2 + 2 * k3 + k4) % 3 == 0,
    ensures
        3 * step == half_dt * (k1 + 2 * k2 + 2 * k3 + k4),
        -40_000_000_000_000_000 <= step <= 40_000_000_000_000_000,
{
    let sum: i64 = k1 + 2 * k2 + 2 * k3 + k4;
    let third: i64 = sum / 3;
    assert(half_dt * (3 * third) == 3 * (half_dt * third)) by (nonlinear_arith);
    assert(-40_000_000_000_000_000 <= half_dt * third <= 40_000_000_000_000_000)
        by (nonlinear_arith)
        requires
            0 <= half_dt <= 100,
            -400_000_000_000_000 <= third <= 400_000_000_000_000,
    ;
    half_dt * third
}

/// One Runge-Kutta step of length `2 * half_dt` on the horizontal axis.
///
/// The four samples are taken at the state, twice at the midpoint and at the
/// end, all under the same `horiz_acc`; the result is the motion under
/// constant acceleration, with nothing rounded and nothing clamped.
pub fn rk4_horizontal(state: [i64; 2], half_dt: i64, horiz_acc: i64) -> (next: [i64; 2])
    requires
        steppable(state, half_dt, horiz_acc),
    ensures
        next[0] == state[0] + displacement(state[1] as int, half_dt as int, horiz_acc as int),
        next[1] == state[1] + rate_gain(half_dt as int, horiz_acc as int),
{
    let k1 = compute_horizontal_derivatives(state, horiz_acc);
    let k2 = compute_horizontal_derivatives(offset(state, half_dt, k1), horiz_acc);
    let k3 = compute_horizontal_derivatives(offset(state, half_dt, k2), horiz_acc);
    let k4 = compute_horizontal_derivatives(offset(state, 2 * half_dt, k3), horiz_acc);
    proof {
        lemma_samples(state[1] as int, half_dt as int, horiz_acc as int);
    }
    let d_position = weighted_step(half_dt, k1[0], k2[0], k3[0], k4[0]);
    let d_rate = weighted_step(half_dt, k1[1], k2[1], k3[1], k4[1]);
    [state[0] + d_position, state[1] + d_rate]
}

/// One Runge-Kutta step of length `2 * half_dt` on the vertical axis, where
/// the rate is the downward speed and the position is the altitude.
pub fn rk4_vertical(state: [i64; 2], half_dt: i64, net_acc: i64) -> (next: [i64; 2])
    requires
        steppable(state, half_dt, net_acc),
    ensures
        next[0] == state[0] - displacement(state[1] as int, half_dt as int, net_acc as int),
        next[1] == state[1] + rate_gain(half_dt as int, net_acc as int),
{
    let k1 = compute_vertical_derivatives(state, net_acc);
    let k2 = compute_vertical_derivatives(offset(state, half_dt, k1), net_acc);
    let k3 = compute_vertical_derivatives(offset(state, half_dt, k2), net_acc);
    let k4 = compute_vertical_derivatives(offset(state, 2 * half_dt, k3), net_acc);
    proof {
        lemma_samples(state[1] as int, half_dt as int, net_acc as int);
    }
    let d_altitude = weighted_step(half_dt, k1[0], k2[0], k3[0], k4[0]);
    let d_rate = weighted_step(half_dt, k1[1], k2[1], k3[1], k4[1]);
    [state[0] + d_altitude, state[1] + d_rate]
}

/// The weighted sum of the rates sampled at the start, twice at the midpoint
/// and at the end of a step is a multiple of three, and the half step times
/// it is three times the displacement.
proof fn lemma_samples(rate: int, half_dt: int, acc: int)
    ensures
        ({
            let mid = rate + half_dt * acc;
            let end = rate + (2 * half_dt) * acc;
            let sum = rate + 2 * mid + 2 * mid + end;
            &&& sum % 3 == 0
            &&& (-rate + 2 * (-mid) + 2 * (-mid) + (-end)) % 3 == 0
            &&& half_dt * sum == 3 * displacement(rate, half_dt, acc)
            &&& half_dt * (-rate + 2 * (-mid) + 2 * (-mid) + (-end)) == -3 * displacement(
                rate,
                half_dt,
                acc,
            )
            &&& half_dt * (acc + 2 * acc + 2 * acc + acc) == 3 * rate_gain(half_dt, acc)
        }),
{
    let gain = half_dt * acc;
    assert((2 * half_dt) * acc == 2 * gain) by (nonlinear_arith)
        requires
            gain == half_dt * acc,
    ;
    assert(half_dt * (6 * rate + 6 * gain) == 3 * (2 * half_dt * rate + 2 * half_dt * half_dt
        * acc)) by (nonlinear_arith)
        requires
            gain == half_dt * acc,
    ;
    assert(half_dt * (-6 * rate - 6 * gain) == -3 * (2 * half_dt * rate + 2 * half_dt * half_dt
        * acc)) by (nonlinear_arith)
        requires
            gain == half_dt * acc,
    ;
    assert(half_dt * (acc + 2 * acc + 2 * acc + acc) == 3 * (2 * half_dt * acc))
        by (nonlinear_arith);
}

/// The horizontal state after `steps` steps of half length `half_dt`, all
/// under the acceleration `acc`.
pub open spec fn glide(position: int, rate: int, half_dt: int, acc: int, steps: nat) -> (int, int)
    decreases steps,
{
    if steps == 0 {
        (position, rate)
    } else {
        let before = glide(position, rate, half_dt, acc, (steps - 1) as nat);
        (before.0 + displacement(before.1, half_dt, acc), before.1 + rate_gain(half_dt, acc))
    }
}

/// The vertical state after `steps` steps of half length `half_dt`, all
/// under the net downward acceleration `acc`.
pub open spec fn fall(altitude: int, v_down: int, half_dt: int, acc: int, steps: nat) -> (int, int)
    decreases steps,
{
    if steps == 0 {
        (altitude, v_down)
    } else {
        let before = fall(altitude, v_down, half_dt, acc, (steps - 1) as nat);
        (before.0 - displacement(before.1, half_dt, acc), before.1 + rate_gain(half_dt, acc))
    }
}

/// Under constant acceleration the integrator is exact: after `steps` steps,
/// which take the time `t = 2 * half_dt * steps`, the position has grown by
/// `rate * t + acc * t * t / 2` and the rate by `acc * t`. From rest, twice
/// the distance covered is `acc * t * t`.
pub proof fn lemma_glide_is_exact(position: int, rate: int, half_dt: int, acc: int, steps: nat)
    ensures
        ({
            let t = 2 * half_dt * steps;
            let after = glide(position, rate, half_dt, acc, steps);
            &&& 2 * (after.0 - position) == 2 * rate * t + acc * t * t
            &&& after.1 == rate + acc * t
            &&& rate == 0 ==> 2 * (after.0 - position) == acc * t * t
        }),
    decreases steps,
{
    let t = 2 * half_dt * steps;
    assert(rate == 0 ==> 2 * rate * t == 0) by (nonlinear_arith);
    if steps > 0 {
        let s = 2 * half_dt * (steps - 1);
        let before = glide(position, rate, half_dt, acc, (steps - 1) as nat);
        lemma_glide_is_exact(position, rate, half_dt, acc, (steps - 1) as nat);
        assert(t == s + 2 * half_dt) by (nonlinear_arith)
            requires
                t == 2 * half_dt * steps,
                s == 2 * half_dt * (steps - 1),
        ;
        assert(2 * rate * s + acc * s * s + 2 * (2 * half_dt * (rate + acc * s) + 2 * half_dt
            * half_dt * acc) == 2 * rate * t + acc * t * t) by (nonlinear_arith)
            requires
                t == s + 2 * half_dt,
        ;
        assert(rate + acc * s + 2 * half_dt * acc == rate + acc * t) by (nonlinear_arith)
            requires
                t == s + 2 * half_dt,
        ;
    } else {
        assert(t == 0) by (nonlinear_arith)
            requires
                t == 2 * half_dt * steps,
                steps == 0,
        ;
        assert(2 * rate * t + acc * t * t == 0) by (nonlinear_arith)
            requires
                t == 0,
        ;
        assert(acc * t == 0) by (nonlinear_arith)
            requires
                t == 0,
        ;
    }
}

/// The same on the vertical axis: after the time `t = 2 * half_dt * steps`
/// the altitude has fallen by `v_down * t + acc * t * t / 2` and the downward
/// speed has grown by `acc * t`.
pub proof fn lemma_fall_is_exact(altitude: int, v_down: int, half_dt: int, acc: int, steps: nat)
    ensures
        ({
            let t = 2 * half_dt * steps;
            let after = fall(altitude, v_down, half_dt, acc, steps);
            &&& 2 * (altitude - after.0) == 2 * v_down * t + acc * t * t
            &&& after.1 == v_down + acc * t
            &&& v_down == 0 ==> 2 * (altitude - after.0) == acc * t * t
        }),
    decreases steps,
{
    lemma_fall_mirrors_glide(altitude, v_down, half_dt, acc, steps);
    lemma_glide_is_exact(-altitude, v_down, half_dt, acc, steps);
}

/// A fall is a glide of the negated altitude.
proof fn lemma_fall_mirrors_glide(altitude: int, v_down: int, half_dt: int, acc: int, steps: nat)
    ensures
        fall(altitude, v_down, half_dt, acc, steps).0 == -glide(
            -altitude,
            v_down,
            half_dt,
            acc,
            steps,
        ).0,
        fall(altitude, v_down, half_dt, acc, steps).1 == glide(
            -altitude,
            v_down,
            half_dt,
            acc,
            steps,
        ).1,
    decreases steps,
{
    if steps > 0 {
        lemma_fall_mirrors_glide(altitude, v_down, half_dt, acc, (steps - 1) as nat);
    }
}

} // verus!
