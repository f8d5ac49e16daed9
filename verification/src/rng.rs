//! A small linear congruential generator, and the speeds with which a
//! flight starts that are drawn from it.

use std::ops::RangeInclusive;
use std::time::Duration;
use vstd::prelude::*;
use crate::units::SPEED_PER_FPS;

verus! {

/// Multiplier of the generator.
pub const MULTIPLIER: u64 = 6364136223846793005;

/// Increment of the generator.
pub const INCREMENT: u64 = 1;

/// Least downward speed of a start, in feet per second.
pub const MIN_START_V_DOWN: i32 = 200;

/// Width of the range of downward speeds of a start, in feet per second.
pub const START_V_DOWN_SPREAD: i32 = 500;

/// Least horizontal speed of a start, in feet per second.
pub const MIN_START_HORIZ_SPEED: i32 = 50;

/// Width of the range of horizontal speeds of a start, in feet per second.
pub const START_HORIZ_SPEED_SPREAD: i32 = 150;

/// A linear congruential generator over 64 bits.
#[derive(Clone, Copy, Debug, PartialEq, Eq, Structural)]
pub struct SimpleRng {
    /// The current state.
    pub seed: u64,
}

/// The state that follows `seed`: `seed * MULTIPLIER + INCREMENT` in the
/// arithmetic of 64 bits.
pub open spec fn advanced(seed: u64) -> u64 {
    ((seed as int * MULTIPLIER as int + INCREMENT as int) % 0x1_0000_0000_0000_0000) as u64
}

/// The number that a state gives out: its upper 31 bits.
pub open spec fn output(seed: u64) -> u32 {
    (seed as int / 0x2_0000_0000) as u32
}

/// The number that a draw from the range `start..=end` turns `number` into.
pub open spec fn ranged(number: u32, start: int, end: int) -> int {
    start + number as int % (end - start + 1)
}

/// `std::ops::RangeInclusive::start`: it returns the lower bound that the
/// range was made with, as long as the range has not been iterated to its
/// end.
pub assume_specification<Idx>[ RangeInclusive::<Idx>::start ](range: &RangeInclusive<Idx>) -> (bound:
    &Idx)
    ensures
        !range@.exhausted ==> *bound == range@.start,
;

/// `std::ops::RangeInclusive::end`: it returns the upper bound that the
/// range was made with, as long as the range has not been iterated to its
/// end.
pub assume_specification<Idx>[ RangeInclusive::<Idx>::end ](range: &RangeInclusive<Idx>) -> (bound:
    &Idx)
    ensures
        !range@.exhausted ==> *bound == range@.end,
;

/// `std::time::SystemTime::elapsed` on `std::time::UNIX_EPOCH`: the time
/// that the clock has gone past the epoch, or nothing where the clock stands
/// before it. Nothing is claimed of the time.
#[verifier::external_body]
fn since_epoch() -> (elapsed: Option<Duration>) {
    std::time::UNIX_EPOCH.elapsed().ok()
}

/// `std::time::Duration::as_secs`: the whole seconds of a duration. Nothing
/// is claimed of the number.
pub assume_specification[ Duration::as_secs ](duration: &Duration) -> (seconds: u64)
;

impl SimpleRng {
    /// A generator seeded from the clock. The clock alone decides the seed,
    /// so nothing is promised of it here: whatever the clock says, the
    /// generator is the one that [`SimpleRng::from_clock`] makes of its
    /// reading.
    pub fn new() -> (rng: SimpleRng) {
        let reading = match since_epoch() {
            Some(elapsed) => Some(elapsed.as_secs()),
            None => None,
        };
        SimpleRng::from_clock(reading)
    }

    /// A generator seeded from a reading of the clock: with the whole
    /// seconds that it has gone past the epoch, and with zero where it
    /// stands before the epoch and gives no reading.
    pub fn from_clock(reading: Option<u64>) -> (rng: SimpleRng)
        ensures
            rng.seed == match reading {
                Some(seconds) => seconds,
                None => 0,
            },
    {
        match reading {
            Some(seconds) => SimpleRng::from_seed(seconds),
            None => SimpleRng::from_seed(0),
        }
    }

    /// A generator in the state `seed`.
    pub fn from_seed(seed: u64) -> (rng: SimpleRng)
        ensures
            rng.seed == seed,
    {
        SimpleRng { seed }
    }

    /// Moves to the next state and gives out its number.
    pub fn next(&mut self) -> (number: u32)
        ensures
            final(self).seed == advanced(old(self).seed),
            number == output(final(self).seed),
            number < 0x8000_0000,
    {
        self.seed = self.seed.wrapping_mul(MULTIPLIER).wrapping_add(INCREMENT);
        let seed = self.seed;
        assert(seed >> 33 == seed / 0x2_0000_0000 && (seed >> 33) < 0x8000_0000) by (bit_vector);
        (self.seed >> 33) as u32
    }

    /// Draws a number of `range`, both bounds included.
    pub fn gen_range(&mut self, range: RangeInclusive<i32>) -> (number: i32)
        requires
            !range@.exhausted,
            range@.start <= range@.end,
            range@.end - range@.start < i32::MAX,
        ensures
            final(self).seed == advanced(old(self).seed),
            number == ranged(output(final(self).seed), range@.start as int, range@.end as int),
            range@.start <= number <= range@.end,
    {
        let min = *range.start();
        let max = *range.end();
        let span: u32 = (max - min + 1) as u32;
        let drawn = self.next() % span;
        min + drawn as i32
    }
}

/// Downward speed and horizontal speed of a start, drawn from `rng`: between
/// 200 and 700 feet per second down, and between 50 and 200 feet per second
/// along, each a whole number of feet per second.
pub fn random_initial_conditions(rng: &mut SimpleRng) -> (speeds: (i64, i64))
    ensures
        final(rng).seed == advanced(advanced(old(rng).seed)),
        speeds.0 == (MIN_START_V_DOWN + output(advanced(old(rng).seed)) % 501) * SPEED_PER_FPS,
        speeds.1 == (MIN_START_HORIZ_SPEED + output(final(rng).seed) % 151) * SPEED_PER_FPS,
        200 * SPEED_PER_FPS <= speeds.0 <= 700 * SPEED_PER_FPS,
        50 * SPEED_PER_FPS <= speeds.1 <= 200 * SPEED_PER_FPS,
{
    let down = MIN_START_V_DOWN + rng.gen_range(RangeInclusive::new(0, START_V_DOWN_SPREAD));
    let along = MIN_START_HORIZ_SPEED + rng.gen_range(
        RangeInclusive::new(0, START_HORIZ_SPEED_SPREAD),
    );
    (down as i64 * SPEED_PER_FPS, along as i64 * SPEED_PER_FPS)
}

} // verus!
