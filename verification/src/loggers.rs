//! A transport that needs no hardware.
//!
//! [`DummyLogger`] stands in for a serial line: each read moves the three
//! channels by a random step and hands back the frame of where they stand.
//! The steps come from a generator that is seeded at construction, so two
//! loggers made with the same seed, and read equally often, give the same
//! frames.

use crate::frame::{encode_channels, encoded};
use crate::model::{Data, DataLogger, TransportError};
use rand::rngs::StdRng;
use rand::{Rng, SeedableRng};
use vstd::prelude::*;

verus! {

/// The generator of `rand` that a seed determines. Nothing is known of what
/// it holds.
#[verifier::external_type_specification]
#[verifier::external_body]
pub struct ExStdRng(StdRng);

/// The smallest step that one read may move the oil channel by.
pub const OIL_STEP_LOW: i32 = -3;

/// The bound that the steps of the oil channel stay below.
pub const OIL_STEP_HIGH: i32 = 7;

/// The smallest step that one read may move the fuel channel by.
pub const FUEL_STEP_LOW: i32 = -7;

/// The bound that the steps of the fuel channel stay below.
pub const FUEL_STEP_HIGH: i32 = 10;

/// The smallest step that one read may move the turbo channel by.
pub const TURBO_STEP_LOW: i32 = -5;

/// The bound that the steps of the turbo channel stay below.
pub const TURBO_STEP_HIGH: i32 = 10;

/// Whether a read can lead from the sample `before` to the sample `after`:
/// each channel moved by a step that is allowed for it, and was then
/// brought back into `0..=100`.
pub open spec fn one_step(before: Data, after: Data) -> bool {
    exists|oil: int, fuel: int, turbo: int|
        {
            &&& OIL_STEP_LOW <= oil < OIL_STEP_HIGH
            &&& FUEL_STEP_LOW <= fuel < FUEL_STEP_HIGH
            &&& TURBO_STEP_LOW <= turbo < TURBO_STEP_HIGH
            &&& after == #[trigger] before.walked(oil, fuel, turbo)
        }
}

/// Calls `StdRng::seed_from_u64` of `rand`, which makes a generator from a
/// seed. Nothing is claimed of the generator.
#[verifier::external_body]
fn seeded(seed: u64) -> StdRng {
    StdRng::seed_from_u64(seed)
}

/// Calls `Rng::random_range` of `rand` on the half-open range from `low` to
/// `high`. The call panics on an empty range, which `requires` leaves out;
/// what it returns lies within the range, and no more is claimed of it.
#[verifier::external_body]
fn draw(rng: &mut StdRng, low: i32, high: i32) -> (step: i32)
    requires
        low < high,
    ensures
        low <= step < high,
{
    rng.random_range(low..high)
}

/// A simulated transport: a bounded random walk over the three channels.
pub struct DummyLogger {
    sample: Data,
    rng: StdRng,
    open: bool,
}

impl DummyLogger {
    /// The sample that the walk stands at.
    pub closed spec fn sample(self) -> Data {
        self.sample
    }

    /// A logger whose walk starts at `start`, with steps drawn from a
    /// generator seeded with `seed`.
    pub fn new(start: Data, seed: u64) -> (logger: DummyLogger)
        ensures
            logger.sample() == start,
            !logger.is_open(),
    {
        DummyLogger { sample: start, rng: seeded(seed), open: false }
    }

    /// The sample that the walk stands at.
    pub fn current(&self) -> (sample: Data)
        ensures
            sample == self.sample(),
    {
        self.sample
    }
}

impl DataLogger for DummyLogger {
    closed spec fn is_open(&self) -> bool {
        self.open
    }

    /// Always succeeds: there is no device to find. The path and the baud
    /// rate are not looked at.
    fn open(&mut self, path: &str, baud_rate: u32) -> (opened: Result<(), TransportError>)
        ensures
            opened is Ok,
            final(self).sample() == old(self).sample(),
    {
        self.open = true;
        Ok(())
    }

    /// Moves the walk by one step and hands back the frame of the sample it
    /// has come to. The read never fails and never waits.
    fn read(&mut self, timeout_ms: u64) -> (frame: Result<Vec<u8>, TransportError>)
        ensures
            frame is Ok,
            frame.unwrap()@ == encoded(final(self).sample()),
            one_step(old(self).sample(), final(self).sample()),
            final(self).sample().in_range(),
    {
        let oil = draw(&mut self.rng, OIL_STEP_LOW, OIL_STEP_HIGH);
        let fuel = draw(&mut self.rng, FUEL_STEP_LOW, FUEL_STEP_HIGH);
        let turbo = draw(&mut self.rng, TURBO_STEP_LOW, TURBO_STEP_HIGH);
        self.sample = self.sample.step(oil, fuel, turbo);
        assert(self.sample == old(self).sample().walked(oil as int, fuel as int, turbo as int));
        Ok(encode_channels(&self.sample))
    }

    /// Closes the logger. The walk stays where it stands.
    fn close(&mut self)
        ensures
            final(self).sample() == old(self).sample(),
    {
        self.open = false;
    }
}

} // verus!
