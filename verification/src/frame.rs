//! The wire format of one sample, and the codec that reads and writes it.
//!
//! A frame is thirteen bytes. The oil, fuel and turbo channels come first,
//! in that order, each as a signed 32-bit integer in little-endian byte
//! order. The last byte is a checksum: the sum of the twelve bytes before
//! it, modulo 256.
//!
//! Decoding looks at the first thirteen bytes of what it is given and at
//! nothing behind them. It corrects nothing: a frame that is too short, whose
//! checksum does not match, or that carries a channel outside `0..=100` is
//! reported, each under its own error.

use crate::model::{Data, Reading};
use vstd::prelude::*;

verus! {

/// Bytes that one channel takes on the wire.
pub const CHANNEL_LEN: usize = 4;

/// Bytes that the three channels take together.
pub const PAYLOAD_LEN: usize = 12;

/// Bytes of a whole frame: the payload and its checksum.
pub const FRAME_LEN: usize = 13;

/// Why a frame yields no reading.
#[derive(Clone, Copy, Debug, PartialEq, Eq, Structural)]
pub enum DecodeError {
    /// The frame has fewer than [`FRAME_LEN`] bytes.
    Truncated,
    /// The checksum byte is not the checksum of the payload.
    ChecksumMismatch,
    /// The frame is intact, but a channel lies outside `0..=100`.
    OutOfRange,
}

/// The four bytes that stand for `value` on the wire: its two's complement,
/// least significant byte first. Meant for the values of an `i32`.
pub open spec fn le_bytes(value: int) -> Seq<u8> {
    let word = if value < 0 {
        value + 0x1_0000_0000
    } else {
        value
    };
    seq![
        (word % 0x100) as u8,
        (word / 0x100 % 0x100) as u8,
        (word / 0x1_0000 % 0x100) as u8,
        (word / 0x100_0000 % 0x100) as u8,
    ]
}

/// The value that four bytes on the wire stand for.
pub open spec fn le_value(bytes: Seq<u8>) -> int
    recommends
        bytes.len() == CHANNEL_LEN,
{
    let word = bytes[0] + 0x100 * bytes[1] + 0x1_0000 * bytes[2] + 0x100_0000 * bytes[3];
    if word >= 0x8000_0000 {
        word - 0x1_0000_0000
    } else {
        word
    }
}

/// The sum of all bytes of `bytes`.
pub open spec fn byte_sum(bytes: Seq<u8>) -> int
    decreases bytes.len(),
{
    if bytes.len() == 0 {
        0
    } else {
        byte_sum(bytes.drop_last()) + bytes.last()
    }
}

/// The checksum of a payload: the sum of its bytes, modulo 256.
pub open spec fn checksum(payload: Seq<u8>) -> u8 {
    (byte_sum(payload) % 0x100) as u8
}

/// The twelve payload bytes of `data`.
pub open spec fn payload(data: Data) -> Seq<u8> {
    le_bytes(data.oil_pressure as int) + le_bytes(data.fuel_pressure as int) + le_bytes(
        data.turbo_pressure as int,
    )
}

/// The frame that carries `data`.
pub open spec fn encoded(data: Data) -> Seq<u8> {
    payload(data).push(checksum(payload(data)))
}

/// The channels that the first twelve bytes of `frame` carry.
pub open spec fn channels_of(frame: Seq<u8>) -> Data
    recommends
        frame.len() >= PAYLOAD_LEN,
{
    Data {
        oil_pressure: le_value(frame.subrange(0, 4)) as i32,
        fuel_pressure: le_value(frame.subrange(4, 8)) as i32,
        turbo_pressure: le_value(frame.subrange(8, 12)) as i32,
    }
}

/// What decoding makes of `frame`: the channels of a valid sample, or the
/// first of the three defects, in the order length, checksum, range.
pub open spec fn decoded(frame: Seq<u8>) -> Result<Data, DecodeError> {
    if frame.len() < FRAME_LEN {
        Err(DecodeError::Truncated)
    } else if checksum(frame.subrange(0, PAYLOAD_LEN as int)) != frame[PAYLOAD_LEN as int] {
        Err(DecodeError::ChecksumMismatch)
    } else if !channels_of(frame).in_range() {
        Err(DecodeError::OutOfRange)
    } else {
        Ok(channels_of(frame))
    }
}

/// Whether `result` is what decoding owes for `frame` read at `captured_at`:
/// the reading that carries the channels of the frame and that capture time,
/// or the defect of the frame.
pub open spec fn decodes_to(
    frame: Seq<u8>,
    captured_at: u64,
    result: Result<Reading, DecodeError>,
) -> bool {
    match decoded(frame) {
        Ok(channels) => {
            &&& result matches Ok(reading)
            &&& reading.channels() == channels
            &&& reading.captured_at() == captured_at
        },
        Err(error) => result == Err::<Reading, DecodeError>(error),
    }
}

/// Writing a value out and reading it back gives the value.
pub proof fn lemma_le_value_of_bytes(value: int)
    requires
        i32::MIN <= value <= i32::MAX,
    ensures
        le_bytes(value).len() == CHANNEL_LEN,
        le_value(le_bytes(value)) == value,
{
    let word = if value < 0 {
        value + 0x1_0000_0000
    } else {
        value
    };
    let rest1 = word / 0x100;
    let rest2 = rest1 / 0x100;
    let rest3 = rest2 / 0x100;
    let (b0, b1, b2) = (word % 0x100, rest1 % 0x100, rest2 % 0x100);
    assert(word == b0 + 0x100 * rest1 && rest1 == b1 + 0x100 * rest2 && rest2 == b2 + 0x100
        * rest3);
    assert(0 <= rest3 < 0x100);
    lemma_digits(b0 + 0x100 * b1, rest2, 0x1_0000);
    lemma_digits(b0 + 0x100 * b1 + 0x1_0000 * b2, rest3, 0x100_0000);
    assert(word / 0x1_0000 == rest2);
    assert(word / 0x100_0000 == rest3);
    let bytes = le_bytes(value);
    assert(bytes[0] == b0 && bytes[1] == b1 && bytes[2] == b2 && bytes[3] == rest3);
    assert(bytes[0] + 0x100 * bytes[1] + 0x1_0000 * bytes[2] + 0x100_0000 * bytes[3] == word);
}

/// Reading four bytes and writing the value out again gives the four bytes,
/// and the value read fits an `i32`.
pub proof fn lemma_le_bytes_of_value(bytes: Seq<u8>)
    requires
        bytes.len() == CHANNEL_LEN,
    ensures
        i32::MIN <= le_value(bytes) <= i32::MAX,
        le_bytes(le_value(bytes)) == bytes,
{
    let word = bytes[0] + 0x100 * bytes[1] + 0x1_0000 * bytes[2] + 0x100_0000 * bytes[3];
    let value = le_value(bytes);
    lemma_digits(bytes[0] as int, bytes[1] + 0x100 * bytes[2] + 0x1_0000 * bytes[3], 0x100);
    lemma_digits(bytes[1] as int, bytes[2] + 0x100 * bytes[3], 0x100);
    lemma_digits(bytes[0] + 0x100 * bytes[1], bytes[2] + 0x100 * bytes[3], 0x1_0000);
    lemma_digits(bytes[2] as int, bytes[3] as int, 0x100);
    lemma_digits(bytes[0] + 0x100 * bytes[1] + 0x1_0000 * bytes[2], bytes[3] as int, 0x100_0000);
    assert(word % 0x100 == bytes[0]);
    assert(word / 0x100 % 0x100 == bytes[1]);
    assert(word / 0x1_0000 % 0x100 == bytes[2]);
    assert(word / 0x100_0000 % 0x100 == bytes[3]);
    assert(le_bytes(value) =~= bytes);
}

/// A number written as a low part below `base` and a high part: dividing by
/// `base` gives the high part, and the remainder is the low part.
proof fn lemma_digits(low: int, high: int, base: int)
    requires
        0 <= low < base,
        0 <= high,
    ensures
        (low + base * high) / base == high,
        (low + base * high) % base == low,
{
    assert(base * high == high * base) by (nonlinear_arith);
    vstd::arithmetic::div_mod::lemma_fundamental_div_mod_converse(
        low + base * high,
        base,
        high,
        low,
    );
}

/// The sum of a sequence with one more byte at its end.
proof fn lemma_byte_sum_push(bytes: Seq<u8>, byte: u8)
    ensures
        byte_sum(bytes.push(byte)) == byte_sum(bytes) + byte,
{
    assert(bytes.push(byte).drop_last() =~= bytes);
}

/// The channels that an encoded frame carries are those that were encoded.
proof fn lemma_channels_of_encoded(data: Data)
    ensures
        encoded(data).len() == FRAME_LEN,
        encoded(data).subrange(0, PAYLOAD_LEN as int) == payload(data),
        encoded(data)[PAYLOAD_LEN as int] == checksum(payload(data)),
        channels_of(encoded(data)) == data,
{
    let frame = encoded(data);
    lemma_le_value_of_bytes(data.oil_pressure as int);
    lemma_le_value_of_bytes(data.fuel_pressure as int);
    lemma_le_value_of_bytes(data.turbo_pressure as int);
    assert(frame.subrange(0, PAYLOAD_LEN as int) =~= payload(data));
    assert(frame.subrange(0, 4) =~= le_bytes(data.oil_pressure as int));
    assert(frame.subrange(4, 8) =~= le_bytes(data.fuel_pressure as int));
    assert(frame.subrange(8, 12) =~= le_bytes(data.turbo_pressure as int));
}

/// Round trip, from a sample to its frame and back: decoding the frame of
/// any sample within range gives that sample, and decoding the frame of a
/// sample out of range reports exactly that.
pub proof fn lemma_decode_encode(data: Data)
    ensures
        data.in_range() ==> decoded(encoded(data)) == Ok::<Data, DecodeError>(data),
        !data.in_range() ==> decoded(encoded(data)) == Err::<Data, DecodeError>(
            DecodeError::OutOfRange,
        ),
{
    lemma_channels_of_encoded(data);
}

/// Round trip of a reading: whatever decoding makes of the frame of
/// `reading`, read at the capture time of `reading`, is that reading.
pub proof fn lemma_round_trip(reading: Reading, result: Result<Reading, DecodeError>)
    requires
        reading.wf(),
        decodes_to(encoded(reading.channels()), reading.captured_at(), result),
    ensures
        result == Ok::<Reading, DecodeError>(reading),
{
    lemma_decode_encode(reading.channels());
    reading.lemma_equal(result.unwrap());
}

/// Round trip, from a frame to its sample and back: a frame that decodes
/// is, in its first thirteen bytes, the frame of the sample it decodes to.
/// No two different frames of thirteen bytes carry the same reading.
pub proof fn lemma_encode_decode(frame: Seq<u8>)
    requires
        decoded(frame) is Ok,
    ensures
        encoded(decoded(frame)->Ok_0) == frame.subrange(0, FRAME_LEN as int),
{
    let data = channels_of(frame);
    lemma_le_bytes_of_value(frame.subrange(0, 4));
    lemma_le_bytes_of_value(frame.subrange(4, 8));
    lemma_le_bytes_of_value(frame.subrange(8, 12));
    assert(payload(data) =~= frame.subrange(0, PAYLOAD_LEN as int));
    assert(encoded(data) =~= frame.subrange(0, FRAME_LEN as int));
}

/// Appends the four wire bytes of `value` to `frame`.
fn push_channel(frame: &mut Vec<u8>, value: i32)
    ensures
        final(frame)@ == old(frame)@ + le_bytes(value as int),
{
    let word: u32 = if value < 0 {
        (value as i64 + 0x1_0000_0000) as u32
    } else {
        value as u32
    };
    frame.push((word % 0x100) as u8);
    frame.push((word / 0x100 % 0x100) as u8);
    frame.push((word / 0x1_0000 % 0x100) as u8);
    frame.push((word / 0x100_0000 % 0x100) as u8);
    assert(frame@ =~= old(frame)@ + le_bytes(value as int));
}

/// Reads the channel whose four bytes start at `start`.
fn read_channel(frame: &[u8], start: usize) -> (value: i32)
    requires
        start + CHANNEL_LEN <= frame.len(),
    ensures
        value == le_value(frame@.subrange(start as int, start + CHANNEL_LEN)),
{
    let word: i64 = frame[start] as i64 + 0x100 * (frame[start + 1] as i64) + 0x1_0000 * (
    frame[start + 2] as i64) + 0x100_0000 * (frame[start + 3] as i64);
    if word >= 0x8000_0000 {
        (word - 0x1_0000_0000) as i32
    } else {
        word as i32
    }
}

/// Computes the checksum of the first twelve bytes of `frame`.
fn payload_checksum(frame: &[u8]) -> (sum: u8)
    requires
        frame.len() >= PAYLOAD_LEN,
    ensures
        sum == checksum(frame@.subrange(0, PAYLOAD_LEN as int)),
{
    let mut total: u32 = 0;
    let mut index: usize = 0;
    while index < PAYLOAD_LEN
        invariant
            index <= PAYLOAD_LEN <= frame.len(),
            total == byte_sum(frame@.subrange(0, index as int)),
            total <= 0xff * index,
        decreases PAYLOAD_LEN - index,
    {
        proof {
            lemma_byte_sum_push(frame@.subrange(0, index as int), frame@[index as int]);
            assert(frame@.subrange(0, index + 1) =~= frame@.subrange(0, index as int).push(
                frame@[index as int],
            ));
        }
        total = total + frame[index] as u32;
        index = index + 1;
    }
    (total % 0x100) as u8
}

/// Writes the frame of `data`, whatever its channels hold. A sample out of
/// range gets a well-formed frame too, which decoding then reports as out of
/// range.
pub fn encode_channels(data: &Data) -> (frame: Vec<u8>)
    ensures
        frame@ == encoded(*data),
        frame.len() == FRAME_LEN,
{
    let mut frame: Vec<u8> = Vec::new();
    push_channel(&mut frame, data.oil_pressure);
    push_channel(&mut frame, data.fuel_pressure);
    push_channel(&mut frame, data.turbo_pressure);
    assert(frame@ =~= payload(*data));
    let sum = payload_checksum(frame.as_slice());
    assert(frame@.subrange(0, PAYLOAD_LEN as int) =~= frame@);
    frame.push(sum);
    frame
}

/// Writes the frame of `reading`. The capture time is not part of the frame.
pub fn encode(reading: &Reading) -> (frame: Vec<u8>)
    ensures
        frame@ == encoded(reading.channels()),
        frame.len() == FRAME_LEN,
        decoded(frame@) == Ok::<Data, DecodeError>(reading.channels()),
{
    let data = reading.data();
    proof {
        lemma_decode_encode(data);
    }
    encode_channels(&data)
}

/// Reads one frame. The result depends on the bytes and on `captured_at`
/// alone: it is the reading that carries the channels of the frame and the
/// capture time given, or the first defect found, looking at the length,
/// then at the checksum, then at the range of the channels.
pub fn decode(frame: &[u8], captured_at: u64) -> (result: Result<Reading, DecodeError>)
    ensures
        decodes_to(frame@, captured_at, result),
{
    if frame.len() < FRAME_LEN {
        return Err(DecodeError::Truncated);
    }
    if payload_checksum(frame) != frame[PAYLOAD_LEN] {
        return Err(DecodeError::ChecksumMismatch);
    }
    let channels = Data {
        oil_pressure: read_channel(frame, 0),
        fuel_pressure: read_channel(frame, 4),
        turbo_pressure: read_channel(frame, 8),
    };
    proof {
        lemma_le_bytes_of_value(frame@.subrange(0, 4));
        lemma_le_bytes_of_value(frame@.subrange(4, 8));
        lemma_le_bytes_of_value(frame@.subrange(8, 12));
    }
    match Reading::new(channels, captured_at) {
        Some(reading) => Ok(reading),
        None => Err(DecodeError::OutOfRange),
    }
}

} // verus!
