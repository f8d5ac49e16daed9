//! Descent engine for a lunar landing vehicle flown by manual throttle.
//!
//! The pilot commands burns, each a length and two burn rates. The engine
//! flies a burn in sub-steps of a tenth of a second: the propellant ledger is
//! settled, the accelerations are taken from the dynamics, and each axis is
//! advanced by one Runge-Kutta step. After a burn the ground projects the
//! flight on to touchdown under the throttle as commanded, and its advisory
//! reaches the pilot only after the signal's and the ground's delay.
//!
//! Every quantity is an integer count of a fixed unit (see [`units`]), so
//! each result is reproducible bit for bit and the laws of the engine hold
//! exactly rather than up to a rounding tolerance.
//!
//! - [`units`]: the units and the constants of the vehicle.
//! - [`dynamics`]: accelerations from burn rates and mass.
//! - [`integrator`]: the Runge-Kutta step, exact under constant acceleration.
//! - [`ledger`]: propellant drawn and mass left.
//! - [`vehicle`]: the state, the command and the sub-step.
//! - [`advisory`]: advisories and the queue that delays them.
//! - [`projector`]: the projection to touchdown and the advisory from it.
//! - [`engine`]: flying a burn and carrying out a command.
//! - [`abort`]: the abort to orbit.
//! - [`landing`]: the judgement of a touchdown.
//! - [`rng`]: the generator that draws the starting speeds.

pub mod abort;
pub mod advisory;
pub mod dynamics;
pub mod engine;
pub mod integrator;
pub mod landing;
pub mod ledger;
pub mod projector;
pub mod rng;
pub mod units;
pub mod vehicle;
