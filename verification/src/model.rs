//! The values that travel through the pipeline.

use vstd::prelude::*;

verus! {

/// Lowest value a channel of a valid reading can hold, in percent of full scale.
pub const QUANTITY_MIN: i32 = 0;

/// Highest value a channel of a valid reading can hold, in percent of full scale.
pub const QUANTITY_MAX: i32 = 100;

/// Whether `value` is a percentage of full scale.
pub open spec fn is_quantity(value: int) -> bool {
    QUANTITY_MIN <= value <= QUANTITY_MAX
}

/// The nearest percentage of full scale to `value`.
pub open spec fn clamp_quantity(value: int) -> int {
    if value < QUANTITY_MIN {
        QUANTITY_MIN as int
    } else if value > QUANTITY_MAX {
        QUANTITY_MAX as int
    } else {
        value
    }
}

/// The three pressure channels of one sample, as they come off the wire.
///
/// Nothing bounds the fields: a frame may carry any 32-bit value, and it is
/// the decoder that tells a sample within range from one that is not.
#[derive(Clone, Copy, Debug, PartialEq, Eq, Structural)]
pub struct Data {
    pub oil_pressure: i32,
    pub fuel_pressure: i32,
    pub turbo_pressure: i32,
}

impl Default for Data {
    fn default() -> (data: Data)
        ensures
            data == (Data { oil_pressure: 0, fuel_pressure: 0, turbo_pressure: 0 }),
    {
        Data { oil_pressure: 0, fuel_pressure: 0, turbo_pressure: 0 }
    }
}

impl Data {
    /// Every channel is a percentage of full scale.
    pub open spec fn in_range(self) -> bool {
        &&& is_quantity(self.oil_pressure as int)
        &&& is_quantity(self.fuel_pressure as int)
        &&& is_quantity(self.turbo_pressure as int)
    }

    /// This sample moved by one step per channel, each channel then brought
    /// back into range.
    pub open spec fn walked(self, oil_step: int, fuel_step: int, turbo_step: int) -> Data {
        Data {
            oil_pressure: clamp_quantity(self.oil_pressure + oil_step) as i32,
            fuel_pressure: clamp_quantity(self.fuel_pressure + fuel_step) as i32,
            turbo_pressure: clamp_quantity(self.turbo_pressure + turbo_step) as i32,
        }
    }

    pub fn new(oil_pressure: i32, fuel_pressure: i32, turbo_pressure: i32) -> (data: Data)
        ensures
            data == (Data { oil_pressure, fuel_pressure, turbo_pressure }),
    {
        Data { oil_pressure, fuel_pressure, turbo_pressure }
    }

    /// Tells whether every channel lies within `0..=100`.
    pub fn is_in_range(&self) -> (ok: bool)
        ensures
            ok == self.in_range(),
    {
        channel_in_range(self.oil_pressure) && channel_in_range(self.fuel_pressure)
            && channel_in_range(self.turbo_pressure)
    }

    /// One step of a bounded random walk: adds a step to each channel and
    /// clamps the sum to `0..=100`. The sums are formed without overflow
    /// whatever the channels hold.
    pub fn step(&self, oil_step: i32, fuel_step: i32, turbo_step: i32) -> (next: Data)
        ensures
            next == self.walked(oil_step as int, fuel_step as int, turbo_step as int),
            next.in_range(),
    {
        Data {
            oil_pressure: walk_channel(self.oil_pressure, oil_step),
            fuel_pressure: walk_channel(self.fuel_pressure, fuel_step),
            turbo_pressure: walk_channel(self.turbo_pressure, turbo_step),
        }
    }
}

/// One validated sample: three channels, each a percentage of full scale,
/// and the time at which the sample was captured, in milliseconds on the
/// caller's monotonic clock.
///
/// A reading cannot be changed once it is made, and none can be made with a
/// channel out of range.
#[derive(Clone, Copy, Debug, PartialEq, Eq, Structural)]
pub struct Reading {
    channels: Data,
    captured_at: u64,
}

impl Reading {
    #[verifier::type_invariant]
    spec fn within_scale(self) -> bool {
        self.channels.in_range()
    }

    /// The three channels of this reading.
    pub closed spec fn channels(self) -> Data {
        self.channels
    }

    /// The capture time of this reading.
    pub closed spec fn captured_at(self) -> u64 {
        self.captured_at
    }

    /// What holds of every reading that the library hands out.
    pub open spec fn wf(self) -> bool {
        self.channels().in_range()
    }

    /// Two readings with the same channels and the same capture time are
    /// the same reading.
    pub proof fn lemma_equal(self, other: Reading)
        requires
            self.channels() == other.channels(),
            self.captured_at() == other.captured_at(),
        ensures
            self == other,
    {
    }

    /// Makes a reading of `channels`, captured at `captured_at`; `None`
    /// when a channel lies outside `0..=100`.
    pub fn new(channels: Data, captured_at: u64) -> (made: Option<Reading>)
        ensures
            made is Some <==> channels.in_range(),
            made matches Some(reading) ==> reading.channels() == channels
                && reading.captured_at() == captured_at,
    {
        if channels.is_in_range() {
            Some(Reading { channels, captured_at })
        } else {
            None
        }
    }

    /// The three channels, each within `0..=100`.
    pub fn data(&self) -> (channels: Data)
        ensures
            channels == self.channels(),
            channels.in_range(),
    {
        proof {
            use_type_invariant(self);
        }
        self.channels
    }

    pub fn oil_pressure(&self) -> (value: i32)
        ensures
            value == self.channels().oil_pressure,
            is_quantity(value as int),
    {
        proof {
            use_type_invariant(self);
        }
        self.channels.oil_pressure
    }

    pub fn fuel_pressure(&self) -> (value: i32)
        ensures
            value == self.channels().fuel_pressure,
            is_quantity(value as int),
    {
        proof {
            use_type_invariant(self);
        }
        self.channels.fuel_pressure
    }

    pub fn turbo_pressure(&self) -> (value: i32)
        ensures
            value == self.channels().turbo_pressure,
            is_quantity(value as int),
    {
        proof {
            use_type_invariant(self);
        }
        self.channels.turbo_pressure
    }

    /// The capture time, in milliseconds on the caller's monotonic clock.
    pub fn timestamp(&self) -> (at: u64)
        ensures
            at == self.captured_at(),
    {
        self.captured_at
    }
}

/// Why a transport could not be opened or read.
#[derive(Clone, Copy, Debug, PartialEq, Eq, Structural)]
pub enum TransportError {
    /// No device is found under the path given.
    NotFound,
    /// The device is held by another process.
    Busy,
    /// No data came within the time allowed. The transport is still usable.
    Timeout,
    /// The channel failed; it may work again once it is opened anew.
    IoFault,
}

/// Where the poll loop stands with its transport.
#[derive(Clone, Copy, Debug, PartialEq, Eq, Structural)]
pub enum TransportState {
    /// No transport is open.
    Disconnected,
    /// The transport is open, and the last read did not time out.
    Connected,
    /// The transport is open, and this many reads in a row have timed out.
    Degraded(u32),
}

impl TransportState {
    /// The transport is open.
    pub open spec fn is_connected(self) -> bool {
        self != TransportState::Disconnected
    }

    /// The number of reads in a row that have timed out.
    pub open spec fn timeouts(self) -> u32 {
        match self {
            TransportState::Degraded(count) => count,
            _ => 0,
        }
    }

    /// Tells whether the transport is open.
    pub fn connected(&self) -> (open: bool)
        ensures
            open == self.is_connected(),
    {
        match self {
            TransportState::Disconnected => false,
            _ => true,
        }
    }

    /// The number of reads in a row that have timed out.
    pub fn consecutive_timeouts(&self) -> (count: u32)
        ensures
            count == self.timeouts(),
    {
        match self {
            TransportState::Degraded(count) => *count,
            _ => 0,
        }
    }
}

/// A source of raw frames: a serial line, or something that stands in for
/// one.
///
/// The poll loop is the only caller. It opens a transport before it reads
/// from it, reads at most once per tick, and closes it when it gives it up
/// or is told to stop. A transport keeps no count of failures and decides
/// nothing about retries: that is the loop's part.
///
/// What the methods promise of [`DataLogger::is_open`] is what the loop
/// relies on. It is proved of the transports of this library, and it is an
/// obligation on every other one.
pub trait DataLogger {
    /// Whether the channel is open. Contracts speak of it; compiled code
    /// never calls it.
    spec fn is_open(&self) -> bool;

    /// Opens the channel, or reports at once why it cannot be opened. The
    /// channel is open afterwards exactly if the call succeeded.
    fn open(&mut self, path: &str, baud_rate: u32) -> (opened: Result<(), TransportError>)
        ensures
            final(self).is_open() == (opened is Ok),
    ;

    /// Reads one frame from the open channel, waiting no longer than
    /// `timeout_ms` milliseconds. The channel stays open, whether the read
    /// succeeds or fails: only [`DataLogger::close`] closes it.
    fn read(&mut self, timeout_ms: u64) -> (frame: Result<Vec<u8>, TransportError>)
        requires
            old(self).is_open(),
        ensures
            final(self).is_open(),
    ;

    /// Closes the channel, if it is open.
    fn close(&mut self)
        ensures
            !final(self).is_open(),
    ;
}

fn channel_in_range(value: i32) -> (ok: bool)
    ensures
        ok == is_quantity(value as int),
{
    QUANTITY_MIN <= value && value <= QUANTITY_MAX
}

fn walk_channel(value: i32, step: i32) -> (next: i32)
    ensures
        next == clamp_quantity(value + step),
{
    let sum: i64 = value as i64 + step as i64;
    if sum < QUANTITY_MIN as i64 {
        QUANTITY_MIN
    } else if sum > QUANTITY_MAX as i64 {
        QUANTITY_MAX
    } else {
        sum as i32
    }
}

} // verus!
