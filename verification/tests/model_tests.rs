use gauge_poll::model::{Data, Reading, TransportState};

#[test]
fn data_default_is_all_zero() {
    let data = Data::default();
    assert_eq!(data, Data { oil_pressure: 0, fuel_pressure: 0, turbo_pressure: 0 });
    assert_eq!(data, Data::new(0, 0, 0));
}

#[test]
fn data_range_is_zero_to_hundred_inclusive() {
    assert!(Data::new(0, 0, 0).is_in_range());
    assert!(Data::new(100, 100, 100).is_in_range());
    assert!(Data::new(50, 0, 100).is_in_range());
    assert!(!Data::new(101, 50, 50).is_in_range());
    assert!(!Data::new(50, 101, 50).is_in_range());
    assert!(!Data::new(50, 50, 101).is_in_range());
    assert!(!Data::new(-1, 50, 50).is_in_range());
    assert!(!Data::new(50, -1, 50).is_in_range());
    assert!(!Data::new(50, 50, -1).is_in_range());
}

#[test]
fn step_adds_each_channel() {
    let next = Data::new(50, 50, 50).step(-3, 9, 4);
    assert_eq!(next, Data::new(47, 59, 54));
}

#[test]
fn step_clamps_at_both_ends() {
    assert_eq!(Data::new(2, 98, 100).step(-3, 9, 1), Data::new(0, 100, 100));
    assert_eq!(Data::new(0, 0, 0).step(-1, -7, -5), Data::new(0, 0, 0));
    assert_eq!(Data::new(100, 100, 100).step(6, 9, 9), Data::new(100, 100, 100));
}

#[test]
fn step_brings_a_sample_out_of_range_back() {
    assert_eq!(Data::new(500, -500, 101).step(0, 0, 0), Data::new(100, 0, 100));
}

#[test]
fn step_does_not_overflow_at_the_ends_of_i32() {
    assert_eq!(
        Data::new(i32::MAX, i32::MIN, i32::MAX).step(i32::MAX, i32::MIN, 1),
        Data::new(100, 0, 100)
    );
    assert_eq!(Data::new(i32::MIN, i32::MAX, 0).step(i32::MAX, i32::MIN, 0), Data::new(0, 0, 0));
}

#[test]
fn reading_keeps_channels_and_capture_time() {
    let reading = Reading::new(Data::new(52, 49, 51), 1234).unwrap();
    assert_eq!(reading.data(), Data::new(52, 49, 51));
    assert_eq!(reading.oil_pressure(), 52);
    assert_eq!(reading.fuel_pressure(), 49);
    assert_eq!(reading.turbo_pressure(), 51);
    assert_eq!(reading.timestamp(), 1234);
}

#[test]
fn reading_accepts_the_ends_of_the_scale() {
    assert!(Reading::new(Data::new(0, 0, 0), 0).is_some());
    assert!(Reading::new(Data::new(100, 100, 100), u64::MAX).is_some());
}

#[test]
fn reading_refuses_a_channel_out_of_range() {
    assert_eq!(Reading::new(Data::new(101, 0, 0), 0), None);
    assert_eq!(Reading::new(Data::new(0, -1, 0), 0), None);
    assert_eq!(Reading::new(Data::new(0, 0, 1000), 0), None);
}

#[test]
fn readings_differ_by_capture_time() {
    let early = Reading::new(Data::new(1, 2, 3), 10).unwrap();
    let late = Reading::new(Data::new(1, 2, 3), 11).unwrap();
    assert_ne!(early, late);
    assert_eq!(early, Reading::new(Data::new(1, 2, 3), 10).unwrap());
}

#[test]
fn transport_state_tells_open_from_closed() {
    assert!(!TransportState::Disconnected.connected());
    assert!(TransportState::Connected.connected());
    assert!(TransportState::Degraded(2).connected());
}

#[test]
fn transport_state_counts_timeouts() {
    assert_eq!(TransportState::Disconnected.consecutive_timeouts(), 0);
    assert_eq!(TransportState::Connected.consecutive_timeouts(), 0);
    assert_eq!(TransportState::Degraded(2).consecutive_timeouts(), 2);
}
