//! What a poll loop is started with.
//!
//! All times are in milliseconds. A configuration is checked as a whole
//! before a loop is built from it: a value that breaks a rule is reported,
//! never bent into shape.

use vstd::prelude::*;

verus! {

/// The settings of one poll loop and of the transport it drives.
#[derive(Clone, Debug)]
pub struct Config {
    /// The path of the serial device, handed to the transport as it is.
    pub serial_path: String,
    /// The speed of the serial line, in bits per second.
    pub baud_rate: u32,
    /// The time from one tick of the loop to the next.
    pub poll_interval_ms: u64,
    /// The longest that one read may take; below the poll interval, so
    /// that the loop never falls behind its own cadence.
    pub read_timeout_ms: u64,
    /// The number of reads in a row that may time out before the loop
    /// gives the transport up.
    pub timeout_threshold: u32,
    /// The first delay before a transport is opened again.
    pub backoff_min_ms: u64,
    /// The longest delay before a transport is opened again.
    pub backoff_max_ms: u64,
}

/// The rule that a configuration breaks.
#[derive(Clone, Copy, Debug, PartialEq, Eq, Structural)]
pub enum ConfigError {
    /// The baud rate is 0.
    ZeroBaudRate,
    /// The read timeout is not below the poll interval.
    ReadTimeoutTooLong,
    /// The timeout threshold is 0.
    ZeroTimeoutThreshold,
    /// The first backoff delay is 0, or above the longest one.
    BackoffRange,
}

impl Config {
    /// The first rule that this configuration breaks, in the order baud
    /// rate, read timeout, timeout threshold, backoff; `None` when it
    /// breaks none.
    pub open spec fn violation(self) -> Option<ConfigError> {
        if self.baud_rate == 0 {
            Some(ConfigError::ZeroBaudRate)
        } else if self.read_timeout_ms >= self.poll_interval_ms {
            Some(ConfigError::ReadTimeoutTooLong)
        } else if self.timeout_threshold == 0 {
            Some(ConfigError::ZeroTimeoutThreshold)
        } else if self.backoff_min_ms == 0 || self.backoff_min_ms > self.backoff_max_ms {
            Some(ConfigError::BackoffRange)
        } else {
            None
        }
    }

    /// This configuration breaks no rule.
    pub open spec fn valid(self) -> bool {
        self.violation() is None
    }

    /// Checks the configuration: `Ok` when it breaks no rule, else the first
    /// rule that it breaks.
    pub fn validate(&self) -> (checked: Result<(), ConfigError>)
        ensures
            checked == match self.violation() {
                Some(error) => Err::<(), ConfigError>(error),
                None => Ok::<(), ConfigError>(()),
            },
    {
        if self.baud_rate == 0 {
            Err(ConfigError::ZeroBaudRate)
        } else if self.read_timeout_ms >= self.poll_interval_ms {
            Err(ConfigError::ReadTimeoutTooLong)
        } else if self.timeout_threshold == 0 {
            Err(ConfigError::ZeroTimeoutThreshold)
        } else if self.backoff_min_ms == 0 || self.backoff_min_ms > self.backoff_max_ms {
            Err(ConfigError::BackoffRange)
        } else {
            Ok(())
        }
    }

    /// The time left to sleep in a tick of which `spent_ms` milliseconds are
    /// used up; 0 when the tick has overrun. A loop that sleeps for this long
    /// after each tick keeps its cadence whatever a read has taken.
    pub fn rest_of_tick(&self, spent_ms: u64) -> (rest_ms: u64)
        ensures
            rest_ms == if spent_ms >= self.poll_interval_ms {
                0
            } else {
                self.poll_interval_ms - spent_ms
            },
    {
        if spent_ms >= self.poll_interval_ms {
            0
        } else {
            self.poll_interval_ms - spent_ms
        }
    }
}

impl Default for Config {
    /// No device path, 9600 baud, a tick every 200 ms with reads of at most
    /// 100 ms, three timeouts in a row before the transport is given up, and
    /// delays from 200 ms to 5 s before it is opened again.
    fn default() -> (config: Config)
        ensures
            config.serial_path@ == Seq::<char>::empty(),
            config.baud_rate == 9600,
            config.poll_interval_ms == 200,
            config.read_timeout_ms == 100,
            config.timeout_threshold == 3,
            config.backoff_min_ms == 200,
            config.backoff_max_ms == 5000,
            config.valid(),
    {
        Config {
            serial_path: String::new(),
            baud_rate: 9600,
            poll_interval_ms: 200,
            read_timeout_ms: 100,
            timeout_threshold: 3,
            backoff_min_ms: 200,
            backoff_max_ms: 5000,
        }
    }
}

} // verus!
