//! The sample bus: the one place where the poll loop hands readings over.
//!
//! The bus holds the most recent reading and counts how many were published.
//! It is a latest-value channel, not a queue: a consumer that falls behind
//! skips the readings it missed and sees the newest one, so the bus never
//! grows. A consumer follows the bus through a [`Subscriber`], which
//! remembers the last version it has observed.
//!
//! The bus itself is plain data. Where producer and consumers run in
//! different tasks, the caller keeps it behind a lock of its own and holds
//! that lock for the length of one call.

use crate::model::{Data, Reading};
use vstd::prelude::*;

verus! {

/// The latest reading and the number of readings published so far.
#[derive(Clone, Copy, Debug, PartialEq, Eq, Structural)]
pub struct SampleBus {
    latest: Option<Reading>,
    version: u64,
}

/// A consumer's place on a bus: the last version it has observed.
#[derive(Clone, Copy, Debug, PartialEq, Eq, Structural)]
pub struct Subscriber {
    seen: u64,
}

/// What a consumer that waits for the next reading learns at one look.
#[derive(Clone, Copy, Debug, PartialEq, Eq, Structural)]
pub enum Wait {
    /// A version newer than the last one observed is there: this is its
    /// reading.
    Ready(Reading),
    /// Nothing new yet. The wait may go on for this many milliseconds more.
    Pending(u64),
    /// Nothing new, and the time allowed for the wait is used up.
    TimedOut,
}

impl SampleBus {
    #[verifier::type_invariant]
    spec fn consistent(self) -> bool {
        (self.version == 0) == (self.latest is None)
    }

    /// The reading published last, if any was.
    pub closed spec fn snapshot(self) -> Option<Reading> {
        self.latest
    }

    /// The number of readings published so far.
    pub closed spec fn spec_version(&self) -> u64 {
        self.version
    }

    /// What holds of every bus: it is empty exactly as long as nothing was
    /// published.
    pub open spec fn wf(self) -> bool {
        (self.version() == 0) == (self.snapshot() is None)
    }

    /// How the bus `after` relates to this one when `reading` was published
    /// in between.
    pub open spec fn published(self, reading: Reading, after: SampleBus) -> bool {
        &&& after.snapshot() == Some(reading)
        &&& after.version() == self.version() + 1
    }

    /// How the bus `after` relates to this one when a reading of `channels`,
    /// captured at `at`, was published in between.
    pub open spec fn received(self, channels: Data, at: u64, after: SampleBus) -> bool {
        &&& after.snapshot() matches Some(reading)
        &&& reading.channels() == channels
        &&& reading.captured_at() == at
        &&& self.published(reading, after)
    }

    /// The last of two readings published in a row is the one that the bus
    /// shows, and each of the two raised the version.
    pub proof fn lemma_last_publish_wins(
        self,
        first: Reading,
        between: SampleBus,
        second: Reading,
        after: SampleBus,
    )
        requires
            self.published(first, between),
            between.published(second, after),
        ensures
            after.snapshot() == Some(second),
            first != second ==> after.snapshot() != Some(first),
            self.version() < between.version() < after.version(),
    {
    }

    /// An empty bus at version 0.
    pub fn new() -> (bus: SampleBus)
        ensures
            bus.snapshot() is None,
            bus.version() == 0,
    {
        SampleBus { latest: None, version: 0 }
    }

    /// Puts `reading` in place of the latest one and raises the version by
    /// one. The version is a 64-bit count, and the call asks that it has not
    /// run out.
    pub fn publish(&mut self, reading: Reading)
        requires
            old(self).version() < u64::MAX,
        ensures
            old(self).published(reading, *final(self)),
            final(self).wf(),
    {
        *self = SampleBus { latest: Some(reading), version: self.version + 1 };
    }

    /// The number of readings published so far.
    #[verifier::when_used_as_spec(spec_version)]
    pub fn version(&self) -> (version: u64)
        ensures
            version == self.spec_version(),
    {
        self.version
    }

    /// The most recent reading; `None` before the first one is published.
    pub fn latest(&self) -> (reading: Option<Reading>)
        ensures
            reading == self.snapshot(),
            self.wf(),
    {
        proof {
            use_type_invariant(self);
        }
        self.latest
    }

    /// A new consumer, which has observed nothing yet.
    pub fn subscribe(&self) -> (subscriber: Subscriber)
        ensures
            subscriber.seen() == 0,
    {
        Subscriber { seen: 0 }
    }
}

impl Subscriber {
    /// The last version that this consumer has observed; 0 when none.
    pub closed spec fn spec_seen(&self) -> u64 {
        self.seen
    }

    /// The last version that this consumer has observed; 0 when none.
    #[verifier::when_used_as_spec(spec_seen)]
    pub fn seen(&self) -> (seen: u64)
        ensures
            seen == self.spec_seen(),
    {
        self.seen
    }

    /// Whether `bus` holds a version that this consumer has not observed.
    pub open spec fn behind(self, bus: SampleBus) -> bool {
        self.seen() < bus.version()
    }

    /// The consumer after it has looked at `bus`: what it has observed
    /// never goes back.
    pub open spec fn caught_up(self, bus: SampleBus, after: Subscriber) -> bool {
        after.seen() == if self.behind(bus) {
            bus.version()
        } else {
            self.seen()
        }
    }

    /// What a consumer that waits for the next reading finds on `bus`,
    /// `waited_ms` milliseconds into a wait that may take `timeout_ms`. On
    /// a bus that holds a version, that version has a reading, so a consumer
    /// that is behind is never kept waiting.
    pub open spec fn outlook(self, bus: SampleBus, waited_ms: u64, timeout_ms: u64) -> Wait {
        if self.behind(bus) && bus.snapshot() is Some {
            Wait::Ready(bus.snapshot().unwrap())
        } else if waited_ms >= timeout_ms {
            Wait::TimedOut
        } else {
            Wait::Pending((timeout_ms - waited_ms) as u64)
        }
    }

    /// Looks at the bus without waiting: the most recent reading, or `None`
    /// before the first one is published. The consumer has then observed
    /// the version that the bus is at.
    pub fn latest(&mut self, bus: &SampleBus) -> (reading: Option<Reading>)
        ensures
            reading == bus.snapshot(),
            old(self).caught_up(*bus, *final(self)),
            final(self).seen() >= old(self).seen(),
    {
        if self.seen < bus.version() {
            self.seen = bus.version();
        }
        bus.latest()
    }

    /// One look of a consumer that waits for the next reading, `waited_ms`
    /// milliseconds into a wait that may take `timeout_ms`.
    ///
    /// A version newer than the last one observed ends the wait with its
    /// reading, however long the wait has taken. Without one, the wait ends
    /// as timed out once `waited_ms` has reached `timeout_ms`, and goes on
    /// otherwise. The caller sleeps between two looks, for no longer than the
    /// time that [`Wait::Pending`] gives.
    pub fn wait_for_next(&mut self, bus: &SampleBus, waited_ms: u64, timeout_ms: u64) -> (wait:
        Wait)
        ensures
            wait == old(self).outlook(*bus, waited_ms, timeout_ms),
            bus.wf(),
            old(self).caught_up(*bus, *final(self)),
            final(self).seen() >= old(self).seen(),
    {
        proof {
            use_type_invariant(bus);
        }
        if self.seen < bus.version() {
            self.seen = bus.version();
            match bus.latest() {
                Some(reading) => {
                    return Wait::Ready(reading);
                },
                None => {},
            }
        }
        if waited_ms >= timeout_ms {
            Wait::TimedOut
        } else {
            Wait::Pending(timeout_ms - waited_ms)
        }
    }
}

} // verus!
