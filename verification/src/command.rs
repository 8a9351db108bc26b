//! The framed commands that a client sends: the ping and the sensor-mask
//! request.

use crate::frame::{assemble, frame_of, Frame, FrameError, FrameView, PacketCodec};
use vstd::prelude::*;

verus! {

/// Device id of the API processor, which answers pings.
pub const API_PROCESSOR: u8 = 0x0A;

/// Command id of the ping.
pub const PING_COMMAND: u8 = 0x01;

/// Device id of the sensor unit.
pub const SENSOR_DEVICE: u8 = 0x02;

/// Command id of the request that sets the sensor streaming mask.
pub const SENSOR_MASK_COMMAND: u8 = 0x11;

/// Flags byte of a command that sets no flag.
pub const NO_FLAGS: u8 = 0x00;

/// The ping with the given sequence number.
pub open spec fn ping_command(sequence: u16) -> FrameView {
    frame_of(API_PROCESSOR, PING_COMMAND, sequence, NO_FLAGS, Seq::empty())
}

/// The sensor-mask request that carries `mask`.
pub open spec fn sensor_mask_command(sequence: u16, mask: Seq<u8>) -> FrameView {
    frame_of(SENSOR_DEVICE, SENSOR_MASK_COMMAND, sequence, NO_FLAGS, mask)
}

/// Frames a ping: a command to the API processor with an empty payload.
pub fn ping_frame(sequence: u16) -> (frame: Frame)
    ensures
        frame@ == ping_command(sequence),
{
    let payload: Vec<u8> = Vec::new();
    assemble(API_PROCESSOR, PING_COMMAND, sequence, NO_FLAGS, payload.as_slice())
}

/// Frames a sensor-mask request with `codec`. Fails with `PayloadTooLarge`
/// exactly when `mask` exceeds the codec's limit.
pub fn sensor_mask_frame(codec: &PacketCodec, sequence: u16, mask: &[u8]) -> (result: Result<
    Frame,
    FrameError,
>)
    ensures
        mask@.len() > codec.limit() ==> result == Err::<Frame, FrameError>(
            FrameError::PayloadTooLarge,
        ),
        mask@.len() <= codec.limit() ==> result is Ok && result->Ok_0@ == sensor_mask_command(
            sequence,
            mask@,
        ),
{
    codec.encode(SENSOR_DEVICE, SENSOR_MASK_COMMAND, sequence, NO_FLAGS, mask)
}

} // verus!
