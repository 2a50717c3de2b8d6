use gauge_poll::frame::{decode, encode, encode_channels, DecodeError, FRAME_LEN, PAYLOAD_LEN};
use gauge_poll::model::{Data, Reading};

#[test]
fn frame_is_thirteen_bytes() {
    assert_eq!(FRAME_LEN, 13);
    assert_eq!(PAYLOAD_LEN, 12);
    assert_eq!(encode_channels(&Data::new(1, 2, 3)).len(), 13);
}

#[test]
fn encode_writes_little_endian_channels_and_checksum() {
    let frame = encode_channels(&Data::new(50, 49, 51));
    assert_eq!(frame, vec![50, 0, 0, 0, 49, 0, 0, 0, 51, 0, 0, 0, 150]);
}

#[test]
fn encode_writes_wide_and_negative_values_in_twos_complement() {
    let frame = encode_channels(&Data::new(-1, 0x0102_0304, i32::MIN));
    // 4 * 255 + (4 + 3 + 2 + 1) + 128 = 1158, and 1158 mod 256 = 134
    assert_eq!(
        frame,
        vec![0xff, 0xff, 0xff, 0xff, 0x04, 0x03, 0x02, 0x01, 0x00, 0x00, 0x00, 0x80, 134]
    );
}

#[test]
fn encode_agrees_with_to_le_bytes() {
    for value in [0, 1, 100, 255, 256, 65535, 65536, i32::MAX, -1, -256, -65537, i32::MIN] {
        let frame = encode_channels(&Data::new(value, 0, 0));
        assert_eq!(frame[0..4], value.to_le_bytes());
    }
}

#[test]
fn checksum_wraps_at_256() {
    let frame = encode_channels(&Data::new(100, 100, 100));
    assert_eq!(frame[12], 44); // 300 mod 256
}

#[test]
fn decode_gives_back_what_encode_took() {
    let reading = Reading::new(Data::new(50, 49, 51), 77).unwrap();
    let frame = encode(&reading);
    assert_eq!(decode(&frame, 77), Ok(reading));
}

#[test]
fn round_trip_over_the_whole_scale() {
    for oil in 0..=100 {
        for (fuel, turbo) in [(0, 100), (100, 0), (oil, 100 - oil)] {
            let reading = Reading::new(Data::new(oil, fuel, turbo), 5).unwrap();
            assert_eq!(decode(&encode(&reading), 5), Ok(reading));
        }
    }
}

#[test]
fn encode_of_a_decoded_frame_is_the_frame() {
    let frame: Vec<u8> = vec![7, 0, 0, 0, 100, 0, 0, 0, 0, 0, 0, 0, 107];
    let reading = decode(&frame, 0).unwrap();
    assert_eq!(reading.data(), Data::new(7, 100, 0));
    assert_eq!(encode(&reading), frame);
}

#[test]
fn decode_takes_the_capture_time_it_is_given() {
    let frame = encode_channels(&Data::new(1, 2, 3));
    assert_eq!(decode(&frame, 10).unwrap().timestamp(), 10);
    assert_eq!(decode(&frame, 11).unwrap().timestamp(), 11);
    assert_eq!(decode(&frame, 10), decode(&frame, 10));
}

#[test]
fn encode_leaves_the_capture_time_out() {
    let early = Reading::new(Data::new(1, 2, 3), 10).unwrap();
    let late = Reading::new(Data::new(1, 2, 3), 99).unwrap();
    assert_eq!(encode(&early), encode(&late));
    assert_eq!(encode(&early), encode_channels(&Data::new(1, 2, 3)));
}

#[test]
fn every_short_frame_is_truncated() {
    let frame = encode_channels(&Data::new(50, 50, 50));
    for len in 0..FRAME_LEN {
        assert_eq!(decode(&frame[..len], 0), Err(DecodeError::Truncated));
    }
    assert!(decode(&frame, 0).is_ok());
}

#[test]
fn empty_frame_is_truncated() {
    assert_eq!(decode(&[], 0), Err(DecodeError::Truncated));
}

#[test]
fn wrong_checksum_is_reported() {
    let mut frame = encode_channels(&Data::new(50, 50, 50));
    frame[12] = frame[12].wrapping_add(1);
    assert_eq!(decode(&frame, 0), Err(DecodeError::ChecksumMismatch));
}

#[test]
fn changed_payload_is_reported_as_checksum_mismatch() {
    let mut frame = encode_channels(&Data::new(50, 50, 50));
    frame[4] = 51;
    assert_eq!(decode(&frame, 0), Err(DecodeError::ChecksumMismatch));
}

#[test]
fn channel_above_the_scale_is_out_of_range() {
    assert_eq!(decode(&encode_channels(&Data::new(101, 50, 50)), 0), Err(DecodeError::OutOfRange));
    assert_eq!(decode(&encode_channels(&Data::new(50, 101, 50)), 0), Err(DecodeError::OutOfRange));
    assert_eq!(decode(&encode_channels(&Data::new(50, 50, 101)), 0), Err(DecodeError::OutOfRange));
    assert_eq!(
        decode(&encode_channels(&Data::new(i32::MAX, 0, 0)), 0),
        Err(DecodeError::OutOfRange)
    );
}

#[test]
fn channel_below_the_scale_is_out_of_range() {
    assert_eq!(decode(&encode_channels(&Data::new(-1, 50, 50)), 0), Err(DecodeError::OutOfRange));
    assert_eq!(
        decode(&encode_channels(&Data::new(50, 50, i32::MIN)), 0),
        Err(DecodeError::OutOfRange)
    );
}

#[test]
fn out_of_range_is_not_clamped() {
    let frame = encode_channels(&Data::new(100, 100, 100));
    assert_eq!(decode(&frame, 0).unwrap().data(), Data::new(100, 100, 100));
    let frame = encode_channels(&Data::new(100, 100, 256));
    assert_eq!(decode(&frame, 0), Err(DecodeError::OutOfRange));
}

#[test]
fn checksum_is_looked_at_before_the_range() {
    let mut frame = encode_channels(&Data::new(101, 50, 50));
    frame[12] ^= 0x55;
    assert_eq!(decode(&frame, 0), Err(DecodeError::ChecksumMismatch));
}

#[test]
fn length_is_looked_at_before_the_checksum() {
    let mut frame = encode_channels(&Data::new(50, 50, 50));
    frame[0] = 51;
    assert_eq!(decode(&frame[..12], 0), Err(DecodeError::Truncated));
}

#[test]
fn bytes_behind_the_frame_are_not_looked_at() {
    let mut frame = encode_channels(&Data::new(3, 2, 1));
    frame.extend_from_slice(&[0xde, 0xad]);
    assert_eq!(decode(&frame, 4), Ok(Reading::new(Data::new(3, 2, 1), 4).unwrap()));
}
