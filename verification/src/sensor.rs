//! The sensor decoder: from a notification payload to an accelerometer sample.

use vstd::prelude::*;

verus! {

/// Number of payload bytes that one sample occupies.
pub const SAMPLE_LEN: usize = 6;

/// One accelerometer reading. Each axis is kept as the signed 16-bit value
/// that the device sent, which counts thousandths of the engineering unit:
/// `1000` stands for `1.0`.
#[derive(Clone, Copy, Debug, PartialEq, Eq, Structural)]
pub struct SensorSample {
    pub acc_x: i16,
    pub acc_y: i16,
    pub acc_z: i16,
}

/// Why a payload could not be decoded into a sample.
#[derive(Clone, Copy, Debug, PartialEq, Eq, Structural)]
pub enum SensorDecodeError {
    /// Fewer than [`SAMPLE_LEN`] bytes were supplied.
    PayloadTooShort,
}

/// The signed 16-bit integer whose big-endian two's complement encoding is
/// `high, low`.
pub open spec fn be_i16(high: u8, low: u8) -> int {
    let unsigned = high * 256 + low;
    if unsigned >= 32768 {
        unsigned - 65536
    } else {
        unsigned
    }
}

/// What a payload means: the sample held in its first six bytes, or the
/// reason for which it is rejected.
pub open spec fn parse_sensor(payload: Seq<u8>) -> Result<SensorSample, SensorDecodeError> {
    if payload.len() < SAMPLE_LEN {
        Err(SensorDecodeError::PayloadTooShort)
    } else {
        Ok(
            SensorSample {
                acc_x: be_i16(payload[0], payload[1]) as i16,
                acc_y: be_i16(payload[2], payload[3]) as i16,
                acc_z: be_i16(payload[4], payload[5]) as i16,
            },
        )
    }
}

/// Reads one big-endian signed 16-bit integer.
fn read_be_i16(high: u8, low: u8) -> (value: i16)
    ensures
        value == be_i16(high, low),
{
    let unsigned: u16 = (high as u16) * 256 + (low as u16);
    if unsigned >= 32768 {
        let above: i16 = (unsigned - 32768) as i16;
        above - 32767 - 1
    } else {
        unsigned as i16
    }
}

/// Decodes the first six bytes of `payload` as three big-endian signed 16-bit
/// axes; bytes after the sixth are ignored. Fails with `PayloadTooShort`
/// exactly when fewer than six bytes are supplied.
pub fn decode_sensor(payload: &[u8]) -> (result: Result<SensorSample, SensorDecodeError>)
    ensures
        result == parse_sensor(payload@),
        payload@.len() < SAMPLE_LEN <==> result == Err::<SensorSample, SensorDecodeError>(
            SensorDecodeError::PayloadTooShort,
        ),
{
    if payload.len() < SAMPLE_LEN {
        return Err(SensorDecodeError::PayloadTooShort);
    }
    Ok(
        SensorSample {
            acc_x: read_be_i16(payload[0], payload[1]),
            acc_y: read_be_i16(payload[2], payload[3]),
            acc_z: read_be_i16(payload[4], payload[5]),
        },
    )
}

/// Two payloads of at least six bytes that agree on their first six bytes
/// decode to the same sample, whatever follows.
pub proof fn lemma_trailing_bytes_ignored(first: Seq<u8>, second: Seq<u8>)
    requires
        first.len() >= SAMPLE_LEN,
        second.len() >= SAMPLE_LEN,
        first.take(SAMPLE_LEN as int) == second.take(SAMPLE_LEN as int),
    ensures
        parse_sensor(first) is Ok,
        parse_sensor(first) == parse_sensor(second),
{
    let prefix = first.take(SAMPLE_LEN as int);
    let other = second.take(SAMPLE_LEN as int);
    assert(forall|i: int| 0 <= i < 6 ==> first[i] == prefix[i]);
    assert(forall|i: int| 0 <= i < 6 ==> second[i] == other[i]);
}

} // verus!
