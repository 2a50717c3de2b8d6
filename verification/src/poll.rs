//! The poll loop: when to read, when to give a transport up, and how long
//! to wait before opening it again.
//!
//! The loop is run tick by tick. At each tick it does at most one thing with
//! its transport: it opens it, or it reads one frame from it. What came of
//! that is an [`Event`], and the loop's state after the tick is a function
//! of its state before, of the event and of the time of the tick. Sleeping
//! between ticks is the caller's part, as is the clock.
//!
//! | state | event | next state |
//! |---|---|---|
//! | disconnected | the transport opened | connected |
//! | disconnected | it could not be opened | disconnected, backed off |
//! | connected or degraded | a frame that decodes | connected; the reading is published, the backoff delay goes back to its minimum |
//! | connected or degraded | a frame that does not decode | connected; the frame is dropped and counted |
//! | connected or degraded | a read timed out, the threshold is not reached | degraded, one more timeout |
//! | connected or degraded | a read timed out and the threshold is reached, or the read failed otherwise | disconnected, backed off |
//! | any | the loop was told to stop | disconnected, stopped |
//!
//! Backing off sets the earliest time of the next attempt to open the
//! transport, one backoff delay from now, and doubles the delay for the time
//! after, up to its maximum. An event that cannot come in a state changes
//! nothing, and a loop that has stopped stays as it is.

use crate::bus::SampleBus;
use crate::config::{Config, ConfigError};
use crate::frame::{decode, decoded};
use crate::model::{Data, DataLogger, TransportError, TransportState};
use vstd::arithmetic::power2::{lemma2_to64, lemma_pow2_pos, lemma_pow2_unfold, pow2};
use vstd::prelude::*;

verus! {

/// What one tick brought.
#[derive(Clone, Debug, PartialEq, Eq)]
pub enum Event {
    /// The loop was told to stop.
    Cancelled,
    /// The transport was opened.
    Opened,
    /// The transport could not be opened.
    OpenFailed(TransportError),
    /// A read gave these bytes.
    Frame(Vec<u8>),
    /// A read gave no bytes.
    ReadFailed(TransportError),
}

/// What a tick is to do.
#[derive(Clone, Copy, Debug, PartialEq, Eq, Structural)]
pub enum Step {
    /// Close the transport if it is open, and end the loop.
    Stop,
    /// Nothing: the time to open the transport again has not come.
    Wait,
    /// Try to open the transport.
    Open,
    /// Read one frame, waiting no longer than this many milliseconds.
    Read(u64),
}

/// The state of a poll loop, as plain values.
#[derive(Clone, Copy, Debug, PartialEq, Eq, Structural)]
pub struct PollView {
    /// The longest that one read may take.
    pub read_timeout_ms: u64,
    /// The number of reads in a row that time out before the transport is
    /// given up.
    pub timeout_threshold: u32,
    /// The delay that backing off starts from.
    pub backoff_min_ms: u64,
    /// The delay that backing off stops at.
    pub backoff_max_ms: u64,
    /// Where the loop stands with its transport.
    pub link: TransportState,
    /// The delay that the next backing off will wait.
    pub backoff_ms: u64,
    /// The time before which the transport is not opened again.
    pub retry_at_ms: u64,
    /// The number of frames dropped because they did not decode.
    pub decode_errors: u64,
    /// The loop was told to stop.
    pub stopped: bool,
}

/// The smaller of two numbers.
pub open spec fn least(a: int, b: int) -> int {
    if a <= b {
        a
    } else {
        b
    }
}

impl PollView {
    /// What holds of the state of every poll loop.
    pub open spec fn wf(self) -> bool {
        &&& self.timeout_threshold >= 1
        &&& 1 <= self.backoff_min_ms <= self.backoff_ms <= self.backoff_max_ms
        &&& self.link matches TransportState::Degraded(count) ==> 1 <= count
            < self.timeout_threshold
        &&& self.stopped ==> self.link == TransportState::Disconnected
    }

    /// The state that a loop built from `config` starts in: disconnected,
    /// free to open its transport at once, the backoff delay at its minimum.
    pub open spec fn initial(config: Config) -> PollView {
        PollView {
            read_timeout_ms: config.read_timeout_ms,
            timeout_threshold: config.timeout_threshold,
            backoff_min_ms: config.backoff_min_ms,
            backoff_max_ms: config.backoff_max_ms,
            link: TransportState::Disconnected,
            backoff_ms: config.backoff_min_ms,
            retry_at_ms: 0,
            decode_errors: 0,
            stopped: false,
        }
    }

    /// What the tick at `now_ms` is to do.
    pub open spec fn plan(self, now_ms: u64, cancelled: bool) -> Step {
        if self.stopped || cancelled {
            Step::Stop
        } else if self.link.is_connected() {
            Step::Read(self.read_timeout_ms)
        } else if now_ms >= self.retry_at_ms {
            Step::Open
        } else {
            Step::Wait
        }
    }

    /// The state after the transport was given up, or could not be opened,
    /// at `now_ms`.
    pub open spec fn backed_off(self, now_ms: u64) -> PollView {
        PollView {
            link: TransportState::Disconnected,
            retry_at_ms: least(now_ms + self.backoff_ms, u64::MAX as int) as u64,
            backoff_ms: least(2 * self.backoff_ms, self.backoff_max_ms as int) as u64,
            ..self
        }
    }

    /// The state after a read that timed out at `now_ms`.
    pub open spec fn timed_out(self, now_ms: u64) -> PollView {
        if self.link.timeouts() + 1 >= self.timeout_threshold {
            self.backed_off(now_ms)
        } else {
            PollView { link: TransportState::Degraded((self.link.timeouts() + 1) as u32), ..self }
        }
    }

    /// The state after a read that gave `frame`.
    pub open spec fn framed(self, frame: Seq<u8>) -> PollView {
        if decoded(frame) is Ok {
            PollView {
                link: TransportState::Connected,
                backoff_ms: self.backoff_min_ms,
                ..self
            }
        } else {
            PollView {
                link: TransportState::Connected,
                decode_errors: (self.decode_errors + 1) as u64,
                ..self
            }
        }
    }

    /// The state after `event`, which the tick at `now_ms` brought.
    pub open spec fn step(self, event: Event, now_ms: u64) -> PollView {
        if self.stopped {
            self
        } else {
            match event {
                Event::Cancelled => PollView {
                    link: TransportState::Disconnected,
                    stopped: true,
                    ..self
                },
                Event::Opened => if self.link.is_connected() {
                    self
                } else {
                    PollView { link: TransportState::Connected, ..self }
                },
                Event::OpenFailed(_) => if self.link.is_connected() {
                    self
                } else {
                    self.backed_off(now_ms)
                },
                Event::Frame(frame) => if self.link.is_connected() {
                    self.framed(frame@)
                } else {
                    self
                },
                Event::ReadFailed(error) => if !self.link.is_connected() {
                    self
                } else if error == TransportError::Timeout {
                    self.timed_out(now_ms)
                } else {
                    self.backed_off(now_ms)
                },
            }
        }
    }

    /// The channels of the reading that `event` puts on the bus, if it puts
    /// one there: those of a frame that decodes, read while the transport is
    /// open and the loop has not stopped.
    pub open spec fn publishes(self, event: Event) -> Option<Data> {
        match event {
            Event::Frame(frame) => if !self.stopped && self.link.is_connected() {
                match decoded(frame@) {
                    Ok(channels) => Some(channels),
                    Err(_) => None,
                }
            } else {
                None
            },
            _ => None,
        }
    }

    /// Whether `event` can be what a tick with the plan `step` brings.
    pub open spec fn brings(step: Step, event: Option<Event>) -> bool {
        match step {
            Step::Stop => event == Some(Event::Cancelled),
            Step::Wait => event is None,
            Step::Open => event matches Some(e) && (e is Opened || e is OpenFailed),
            Step::Read(_) => event matches Some(e) && (e is Frame || e is ReadFailed),
        }
    }

    /// The state after a tick at `now_ms` that brought `event`, or nothing.
    pub open spec fn after(self, event: Option<Event>, now_ms: u64) -> PollView {
        match event {
            Some(event) => self.step(event, now_ms),
            None => self,
        }
    }

    /// How the bus `after` relates to the bus `before` when a tick at
    /// `now_ms` brought `event` in this state.
    pub open spec fn delivered(
        self,
        event: Option<Event>,
        now_ms: u64,
        before: SampleBus,
        after: SampleBus,
    ) -> bool {
        match event {
            Some(event) => match self.publishes(event) {
                Some(channels) => before.received(channels, now_ms, after),
                None => after == before,
            },
            None => after == before,
        }
    }

    /// The state after reads in a row that all timed out, one at each of
    /// the times `times`.
    pub open spec fn after_timeouts(self, times: Seq<u64>) -> PollView
        decreases times.len(),
    {
        if times.len() == 0 {
            self
        } else {
            self.after_timeouts(times.drop_last()).step(
                Event::ReadFailed(TransportError::Timeout),
                times.last(),
            )
        }
    }

    /// The state after attempts in a row to open the transport that all
    /// failed, each with its error and its time.
    pub open spec fn after_failed_opens(self, failures: Seq<(TransportError, u64)>) -> PollView
        decreases failures.len(),
    {
        if failures.len() == 0 {
            self
        } else {
            self.after_failed_opens(failures.drop_last()).step(
                Event::OpenFailed(failures.last().0),
                failures.last().1,
            )
        }
    }

    /// The backoff delay after it was doubled `doublings` times: it grows
    /// from where it stands by powers of two, up to the longest delay.
    pub open spec fn delay(self, doublings: nat) -> int {
        least(self.backoff_ms * pow2(doublings), self.backoff_max_ms as int)
    }

    /// Timeouts in a row, counted from a read that did not time out: below
    /// the threshold the transport stays open and the count goes up by one
    /// each; the timeout that reaches the threshold gives the transport up,
    /// with the next attempt to open it one backoff delay later; what times
    /// out after that changes nothing more.
    pub proof fn lemma_timeouts_give_up(self, times: Seq<u64>)
        requires
            self.wf(),
            !self.stopped,
            self.link == TransportState::Connected,
        ensures
            times.len() == 0 ==> self.after_timeouts(times) == self,
            0 < times.len() < self.timeout_threshold ==> self.after_timeouts(times) == (PollView {
                link: TransportState::Degraded(times.len() as u32),
                ..self
            }),
            times.len() >= self.timeout_threshold ==> self.after_timeouts(times)
                == self.backed_off(times[self.timeout_threshold - 1]),
            times.len() >= self.timeout_threshold ==> self.after_timeouts(times).link
                == TransportState::Disconnected,
        decreases times.len(),
    {
        if times.len() > 0 {
            self.lemma_timeouts_give_up(times.drop_last());
        }
    }

    /// Failed attempts in a row to open the transport: the loop stays
    /// disconnected, each failure puts the next attempt one backoff delay
    /// later, and the delay doubles from failure to failure until it has
    /// reached the longest delay, where it stays.
    pub proof fn lemma_backoff_schedule(self, failures: Seq<(TransportError, u64)>)
        requires
            self.wf(),
            !self.stopped,
            self.link == TransportState::Disconnected,
        ensures
            failures.len() == 0 ==> self.after_failed_opens(failures) == self,
            failures.len() > 0 ==> self.after_failed_opens(failures) == (PollView {
                retry_at_ms: least(
                    failures.last().1 + self.delay((failures.len() - 1) as nat),
                    u64::MAX as int,
                ) as u64,
                backoff_ms: self.delay(failures.len()) as u64,
                ..self
            }),
            self.backoff_min_ms <= self.delay(failures.len()) <= self.backoff_max_ms,
        decreases failures.len(),
    {
        let count = failures.len();
        self.lemma_delay_doubles(count);
        if count == 0 {
        } else {
            self.lemma_backoff_schedule(failures.drop_last());
            self.lemma_delay_doubles((count - 1) as nat);
        }
    }

    /// The delay after no doubling is the delay as it stands, each doubling
    /// gives twice the delay before it, cut at the longest delay, and the
    /// delay never leaves the range from the first delay to the longest.
    pub proof fn lemma_delay_doubles(self, doublings: nat)
        requires
            self.wf(),
        ensures
            self.delay(0) == self.backoff_ms,
            self.delay(doublings + 1) == least(
                2 * self.delay(doublings),
                self.backoff_max_ms as int,
            ),
            self.backoff_min_ms <= self.backoff_ms <= self.delay(doublings) <= self.backoff_max_ms,
    {
        let power = pow2(doublings) as int;
        let start = self.backoff_ms as int;
        lemma2_to64();
        lemma_pow2_pos(doublings);
        lemma_pow2_unfold(doublings + 1);
        assert(pow2(doublings + 1) == 2 * power);
        assert(start * (2 * power) == 2 * (start * power)) by (nonlinear_arith);
        assert(start * power >= start) by (nonlinear_arith)
            requires
                power >= 1,
                start >= 0,
        ;
    }

    /// No event leads out of the states that a poll loop can be in.
    pub proof fn lemma_step_wf(self, event: Event, now_ms: u64)
        requires
            self.wf(),
        ensures
            self.step(event, now_ms).wf(),
    {
    }
}

/// The state of a poll loop, kept within the states that a loop can be in.
#[derive(Clone, Copy, Debug, PartialEq, Eq, Structural)]
pub struct PollState {
    state: PollView,
}

impl View for PollState {
    type V = PollView;

    closed spec fn view(&self) -> PollView {
        self.state
    }
}

impl PollState {
    #[verifier::type_invariant]
    spec fn sound(self) -> bool {
        self.state.wf()
    }

    /// The state that a loop starts in, or the rule that `config` breaks.
    pub fn new(config: &Config) -> (made: Result<PollState, ConfigError>)
        ensures
            match config.violation() {
                Some(error) => made == Err::<PollState, ConfigError>(error),
                None => made is Ok && made.unwrap()@ == PollView::initial(*config),
            },
            made is Ok ==> made.unwrap()@.wf(),
    {
        match config.validate() {
            Err(error) => Err(error),
            Ok(()) => Ok(
                PollState {
                    state: PollView {
                        read_timeout_ms: config.read_timeout_ms,
                        timeout_threshold: config.timeout_threshold,
                        backoff_min_ms: config.backoff_min_ms,
                        backoff_max_ms: config.backoff_max_ms,
                        link: TransportState::Disconnected,
                        backoff_ms: config.backoff_min_ms,
                        retry_at_ms: 0,
                        decode_errors: 0,
                        stopped: false,
                    },
                },
            ),
        }
    }

    /// The state as plain values.
    pub fn snapshot(&self) -> (state: PollView)
        ensures
            state == self@,
            state.wf(),
    {
        proof {
            use_type_invariant(self);
        }
        self.state
    }

    /// What the tick at `now_ms` is to do. A loop that was told to stop, now
    /// or before, stops; one whose transport is open reads; one without a
    /// transport opens it once the time of the next attempt has come, and
    /// waits until then.
    pub fn plan(&self, now_ms: u64, cancelled: bool) -> (step: Step)
        ensures
            step == self@.plan(now_ms, cancelled),
    {
        if self.state.stopped || cancelled {
            Step::Stop
        } else if self.state.link.connected() {
            Step::Read(self.state.read_timeout_ms)
        } else if now_ms >= self.state.retry_at_ms {
            Step::Open
        } else {
            Step::Wait
        }
    }

    /// Takes in what the tick at `now_ms` brought. A frame that decodes is
    /// published on `bus` as a reading captured at `now_ms`; nothing else
    /// touches the bus.
    ///
    /// The count of dropped frames and the version of the bus are 64-bit
    /// counts, and the call asks that neither has run out.
    pub fn step(&mut self, event: &Event, bus: &mut SampleBus, now_ms: u64)
        requires
            old(self)@.decode_errors < u64::MAX,
            old(bus).version() < u64::MAX,
        ensures
            final(self)@ == old(self)@.step(*event, now_ms),
            final(self)@.wf(),
            old(self)@.delivered(Some(*event), now_ms, *old(bus), *final(bus)),
    {
        proof {
            use_type_invariant(&*self);
        }
        let state = self.state;
        if state.stopped {
            return ;
        }
        let open = state.link.connected();
        let next = match event {
            Event::Cancelled => PollView {
                link: TransportState::Disconnected,
                stopped: true,
                ..state
            },
            Event::Opened => if open {
                state
            } else {
                PollView { link: TransportState::Connected, ..state }
            },
            Event::OpenFailed(_) => if open {
                state
            } else {
                back_off(state, now_ms)
            },
            Event::Frame(frame) => if open {
                match decode(frame.as_slice(), now_ms) {
                    Ok(reading) => {
                        bus.publish(reading);
                        PollView {
                            link: TransportState::Connected,
                            backoff_ms: state.backoff_min_ms,
                            ..state
                        }
                    },
                    Err(_) => PollView {
                        link: TransportState::Connected,
                        decode_errors: state.decode_errors + 1,
                        ..state
                    },
                }
            } else {
                state
            },
            Event::ReadFailed(error) => if !open {
                state
            } else {
                match error {
                    TransportError::Timeout => {
                        let timeouts = state.link.consecutive_timeouts();
                        if timeouts + 1 >= state.timeout_threshold {
                            back_off(state, now_ms)
                        } else {
                            PollView { link: TransportState::Degraded(timeouts + 1), ..state }
                        }
                    },
                    _ => back_off(state, now_ms),
                }
            },
        };
        self.state = next;
    }
}

/// Gives the transport up, or an attempt to open it, at `now_ms`.
fn back_off(state: PollView, now_ms: u64) -> (next: PollView)
    requires
        state.wf(),
    ensures
        next == state.backed_off(now_ms),
{
    let retry_at_ms = if now_ms > u64::MAX - state.backoff_ms {
        u64::MAX
    } else {
        now_ms + state.backoff_ms
    };
    let backoff_ms = if state.backoff_ms >= state.backoff_max_ms - state.backoff_ms {
        state.backoff_max_ms
    } else {
        state.backoff_ms + state.backoff_ms
    };
    PollView { link: TransportState::Disconnected, retry_at_ms, backoff_ms, ..state }
}

/// The scheduler: a transport, and the state of the loop that drives it.
///
/// The loop keeps the transport to itself. Consumers never reach it: they
/// see what the loop publishes on the bus, and a transport that is down shows
/// to them as a version that stands still.
pub struct PollLoop<T: DataLogger> {
    transport: T,
    config: Config,
    state: PollState,
}

impl<T: DataLogger> PollLoop<T> {
    /// The state of the loop.
    pub closed spec fn machine(self) -> PollState {
        self.state
    }

    /// The configuration that the loop was built from.
    pub closed spec fn settings(self) -> Config {
        self.config
    }

    /// The transport that the loop drives.
    pub closed spec fn spec_transport(&self) -> &T {
        &self.transport
    }

    /// What holds of every poll loop: its transport is open exactly while
    /// its state says so.
    pub open spec fn wf(self) -> bool {
        self.transport().is_open() == self.machine()@.link.is_connected()
    }

    /// Builds a loop around `transport`, or reports the rule that `config`
    /// breaks. The loop starts disconnected: it closes the transport that it
    /// is given, and its first tick opens it.
    pub fn new(config: Config, transport: T) -> (made: Result<PollLoop<T>, ConfigError>)
        ensures
            match config.violation() {
                Some(error) => made matches Err(e) && e == error,
                None => made matches Ok(poll) && poll.machine()@ == PollView::initial(config)
                    && poll.settings() == config && poll.wf(),
            },
    {
        match PollState::new(&config) {
            Err(error) => Err(error),
            Ok(state) => {
                let mut transport = transport;
                transport.close();
                Ok(PollLoop { transport, config, state })
            },
        }
    }

    /// The state of the loop, as plain values.
    pub fn state(&self) -> (state: PollView)
        ensures
            state == self.machine()@,
            state.wf(),
    {
        self.state.snapshot()
    }

    /// The transport that the loop drives.
    #[verifier::when_used_as_spec(spec_transport)]
    pub fn transport(&self) -> (transport: &T)
        ensures
            transport == self.spec_transport(),
    {
        &self.transport
    }

    /// The time left to sleep in a tick of which `spent_ms` milliseconds are
    /// used up.
    pub fn rest_of_tick(&self, spent_ms: u64) -> (rest_ms: u64)
        ensures
            rest_ms == if spent_ms >= self.settings().poll_interval_ms {
                0
            } else {
                self.settings().poll_interval_ms - spent_ms
            },
    {
        self.config.rest_of_tick(spent_ms)
    }

    /// Runs the tick at `now_ms`; `cancelled` tells whether the loop was told
    /// to stop.
    ///
    /// The tick calls the transport at most once to open it or to read from
    /// it, as the plan for the tick says, and takes in what came of the call.
    /// It closes the transport when the loop gives it up and when the loop
    /// stops, so that the transport is open after the tick exactly if the
    /// loop is connected, and closed once the loop has stopped. The result is
    /// the event that the tick brought; `None` when the tick only waited.
    /// Which event a call to the transport brings is for the transport to
    /// say; what the loop makes of it is [`PollView::step`].
    pub fn tick(&mut self, bus: &mut SampleBus, now_ms: u64, cancelled: bool) -> (seen: Option<
        Event,
    >)
        requires
            old(self).wf(),
            old(self).machine()@.decode_errors < u64::MAX,
            old(bus).version() < u64::MAX,
        ensures
            final(self).wf(),
            PollView::brings(old(self).machine()@.plan(now_ms, cancelled), seen),
            final(self).machine()@ == old(self).machine()@.after(seen, now_ms),
            final(self).machine()@.wf(),
            old(self).machine()@.delivered(seen, now_ms, *old(bus), *final(bus)),
            final(self).settings() == old(self).settings(),
            seen is None ==> *final(self) == *old(self),
    {
        let open = self.state.snapshot().link.connected();
        let plan = self.state.plan(now_ms, cancelled);
        let event = match plan {
            Step::Wait => {
                return None;
            },
            Step::Stop => {
                if open {
                    self.transport.close();
                }
                Event::Cancelled
            },
            Step::Open => match self.transport.open(
                self.config.serial_path.as_str(),
                self.config.baud_rate,
            ) {
                Ok(()) => Event::Opened,
                Err(error) => Event::OpenFailed(error),
            },
            Step::Read(timeout_ms) => match self.transport.read(timeout_ms) {
                Ok(frame) => Event::Frame(frame),
                Err(error) => Event::ReadFailed(error),
            },
        };
        self.state.step(&event, bus, now_ms);
        if open && !cancelled && !self.state.snapshot().link.connected() {
            self.transport.close();
        }
        Some(event)
    }
}

} // verus!
