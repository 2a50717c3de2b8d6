use gauge_poll::config::{Config, ConfigError};

fn sample() -> Config {
    Config {
        serial_path: String::from("/dev/ttyUSB0"),
        baud_rate: 115200,
        poll_interval_ms: 200,
        read_timeout_ms: 150,
        timeout_threshold: 5,
        backoff_min_ms: 200,
        backoff_max_ms: 5000,
    }
}

#[test]
fn default_config_values() {
    let config = Config::default();
    assert_eq!(config.serial_path, "");
    assert_eq!(config.baud_rate, 9600);
    assert_eq!(config.poll_interval_ms, 200);
    assert_eq!(config.read_timeout_ms, 100);
    assert_eq!(config.timeout_threshold, 3);
    assert_eq!(config.backoff_min_ms, 200);
    assert_eq!(config.backoff_max_ms, 5000);
}

#[test]
fn default_config_is_valid() {
    assert_eq!(Config::default().validate(), Ok(()));
    assert_eq!(sample().validate(), Ok(()));
}

#[test]
fn zero_baud_rate_is_refused() {
    let config = Config { baud_rate: 0, ..sample() };
    assert_eq!(config.validate(), Err(ConfigError::ZeroBaudRate));
}

#[test]
fn read_timeout_must_be_below_the_poll_interval() {
    let config = Config { read_timeout_ms: 200, ..sample() };
    assert_eq!(config.validate(), Err(ConfigError::ReadTimeoutTooLong));
    let config = Config { read_timeout_ms: 201, ..sample() };
    assert_eq!(config.validate(), Err(ConfigError::ReadTimeoutTooLong));
    let config = Config { read_timeout_ms: 199, ..sample() };
    assert_eq!(config.validate(), Ok(()));
    let config = Config { read_timeout_ms: 0, poll_interval_ms: 0, ..sample() };
    assert_eq!(config.validate(), Err(ConfigError::ReadTimeoutTooLong));
    let config = Config { read_timeout_ms: 0, poll_interval_ms: 1, ..sample() };
    assert_eq!(config.validate(), Ok(()));
}

#[test]
fn zero_timeout_threshold_is_refused() {
    let config = Config { timeout_threshold: 0, ..sample() };
    assert_eq!(config.validate(), Err(ConfigError::ZeroTimeoutThreshold));
    let config = Config { timeout_threshold: 1, ..sample() };
    assert_eq!(config.validate(), Ok(()));
}

#[test]
fn backoff_range_is_checked() {
    let config = Config { backoff_min_ms: 0, ..sample() };
    assert_eq!(config.validate(), Err(ConfigError::BackoffRange));
    let config = Config { backoff_min_ms: 5001, ..sample() };
    assert_eq!(config.validate(), Err(ConfigError::BackoffRange));
    let config = Config { backoff_min_ms: 5000, ..sample() };
    assert_eq!(config.validate(), Ok(()));
}

#[test]
fn first_broken_rule_is_reported() {
    let config = Config {
        baud_rate: 0,
        read_timeout_ms: 500,
        timeout_threshold: 0,
        backoff_min_ms: 0,
        ..sample()
    };
    assert_eq!(config.validate(), Err(ConfigError::ZeroBaudRate));
    let config = Config { baud_rate: 1, ..config };
    assert_eq!(config.validate(), Err(ConfigError::ReadTimeoutTooLong));
    let config = Config { read_timeout_ms: 1, ..config };
    assert_eq!(config.validate(), Err(ConfigError::ZeroTimeoutThreshold));
    let config = Config { timeout_threshold: 1, ..config };
    assert_eq!(config.validate(), Err(ConfigError::BackoffRange));
}

#[test]
fn rest_of_tick_is_what_is_left_of_the_interval() {
    let config = sample();
    assert_eq!(config.rest_of_tick(0), 200);
    assert_eq!(config.rest_of_tick(150), 50);
    assert_eq!(config.rest_of_tick(199), 1);
    assert_eq!(config.rest_of_tick(200), 0);
    assert_eq!(config.rest_of_tick(10_000), 0);
    assert_eq!(config.rest_of_tick(u64::MAX), 0);
}
