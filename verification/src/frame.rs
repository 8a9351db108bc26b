//! The packet codec: framing of outbound commands and validation of inbound
//! frames.
//!
//! A frame on the wire is
//! `[START_BYTE, device id, command id, sequence high, sequence low, flags,
//! payload.., checksum, END_BYTE]`. The checksum covers every byte between
//! the start marker and the checksum itself.

use crate::checksum::{calculate_checksum, checksum_of, lemma_checksum_detects_change};
use vstd::prelude::*;
use vstd::slice::{slice_subrange, slice_to_vec};

verus! {

/// Marker that opens every frame.
pub const START_BYTE: u8 = 0x8D;

/// Marker that closes every frame.
pub const END_BYTE: u8 = 0xD8;

/// Length of a frame with an empty payload: two markers, five header bytes
/// and the checksum.
pub const MIN_FRAME_LEN: usize = 8;

/// Why a command could not be framed or a frame could not be accepted.
#[derive(Clone, Copy, Debug, PartialEq, Eq, Structural)]
pub enum FrameError {
    /// The payload is longer than the codec allows.
    PayloadTooLarge,
    /// Fewer than [`MIN_FRAME_LEN`] bytes were supplied.
    FrameTooShort,
    /// The first byte is not [`START_BYTE`].
    BadStartByte,
    /// The last byte is not [`END_BYTE`].
    BadEndByte,
    /// The transmitted checksum differs from the one computed over the frame.
    ChecksumMismatch,
}

/// The fields carried by one frame.
#[derive(Debug, PartialEq, Eq)]
pub struct DecodedFrame {
    pub device_id: u8,
    pub command_id: u8,
    pub sequence: u16,
    pub flags: u8,
    pub payload: Vec<u8>,
}

impl Clone for DecodedFrame {
    fn clone(&self) -> (copy: DecodedFrame)
        ensures
            copy@ == self@,
    {
        DecodedFrame {
            device_id: self.device_id,
            command_id: self.command_id,
            sequence: self.sequence,
            flags: self.flags,
            payload: slice_to_vec(self.payload.as_slice()),
        }
    }
}

/// Mathematical model of a frame's fields.
pub struct FrameView {
    pub device_id: u8,
    pub command_id: u8,
    pub sequence: u16,
    pub flags: u8,
    pub payload: Seq<u8>,
}

impl View for DecodedFrame {
    type V = FrameView;

    open spec fn view(&self) -> FrameView {
        FrameView {
            device_id: self.device_id,
            command_id: self.command_id,
            sequence: self.sequence,
            flags: self.flags,
            payload: self.payload@,
        }
    }
}

/// The frame model with the given fields.
pub open spec fn frame_of(
    device_id: u8,
    command_id: u8,
    sequence: u16,
    flags: u8,
    payload: Seq<u8>,
) -> FrameView {
    FrameView { device_id, command_id, sequence, flags, payload }
}

/// The bytes that the checksum covers: the five header bytes, then the payload.
pub open spec fn covered_bytes(frame: FrameView) -> Seq<u8> {
    seq![
        frame.device_id,
        frame.command_id,
        (frame.sequence / 256) as u8,
        (frame.sequence % 256) as u8,
        frame.flags,
    ] + frame.payload
}

/// The wire encoding of `frame`.
pub open spec fn frame_bytes(frame: FrameView) -> Seq<u8> {
    seq![START_BYTE] + covered_bytes(frame) + seq![checksum_of(covered_bytes(frame)), END_BYTE]
}

/// What a received byte string means: the frame it carries, or the first
/// reason for which it is rejected. Length is checked first, then the start
/// marker, then the end marker, then the checksum.
pub open spec fn parse_frame(raw: Seq<u8>) -> Result<FrameView, FrameError> {
    if raw.len() < MIN_FRAME_LEN {
        Err(FrameError::FrameTooShort)
    } else if raw[0] != START_BYTE {
        Err(FrameError::BadStartByte)
    } else if raw[raw.len() - 1] != END_BYTE {
        Err(FrameError::BadEndByte)
    } else if checksum_of(raw.subrange(1, raw.len() - 2)) != raw[raw.len() - 2] {
        Err(FrameError::ChecksumMismatch)
    } else {
        Ok(
            FrameView {
                device_id: raw[1],
                command_id: raw[2],
                sequence: (raw[3] * 256 + raw[4]) as u16,
                flags: raw[5],
                payload: raw.subrange(6, raw.len() - 2),
            },
        )
    }
}

/// The wire encoding of one command. A value of this type always holds a
/// valid frame: markers in place and the checksum right.
#[derive(Debug, PartialEq, Eq)]
pub struct Frame {
    bytes: Vec<u8>,
}

impl View for Frame {
    type V = FrameView;

    closed spec fn view(&self) -> FrameView {
        parse_frame(self.bytes@)->Ok_0
    }
}

impl Clone for Frame {
    fn clone(&self) -> (copy: Frame)
        ensures
            copy@ == self@,
    {
        proof {
            use_type_invariant(self);
        }
        Frame { bytes: slice_to_vec(self.bytes.as_slice()) }
    }
}

impl Frame {
    #[verifier::type_invariant]
    spec fn valid(self) -> bool {
        parse_frame(self.bytes@) is Ok
    }

    /// The bytes to put on the wire.
    pub fn as_bytes(&self) -> (bytes: &[u8])
        ensures
            bytes@ == frame_bytes(self@),
            parse_frame(bytes@) == Ok::<FrameView, FrameError>(self@),
    {
        proof {
            use_type_invariant(self);
            lemma_parse_is_canonical(self.bytes@);
        }
        self.bytes.as_slice()
    }

    /// The bytes to put on the wire, owned.
    pub fn into_bytes(self) -> (bytes: Vec<u8>)
        ensures
            bytes@ == frame_bytes(self@),
            parse_frame(bytes@) == Ok::<FrameView, FrameError>(self@),
    {
        proof {
            use_type_invariant(&self);
            lemma_parse_is_canonical(self.bytes@);
        }
        self.bytes
    }

    /// Number of bytes on the wire: the payload and eight more.
    pub fn len(&self) -> (len: usize)
        ensures
            len == self@.payload.len() + MIN_FRAME_LEN,
    {
        proof {
            use_type_invariant(self);
        }
        self.bytes.len()
    }
}

/// Frames outbound commands, refusing payloads above a fixed size.
#[derive(Clone, Copy, Debug, PartialEq, Eq, Structural)]
pub struct PacketCodec {
    max_payload: usize,
}

impl PacketCodec {
    /// The largest payload that this codec frames.
    pub closed spec fn limit(&self) -> nat {
        self.max_payload as nat
    }

    /// A codec that frames payloads of at most `max_payload` bytes.
    pub fn new(max_payload: usize) -> (codec: PacketCodec)
        ensures
            codec.limit() == max_payload,
    {
        PacketCodec { max_payload }
    }

    /// The largest payload that this codec frames.
    pub fn max_payload(&self) -> (max: usize)
        ensures
            max == self.limit(),
    {
        self.max_payload
    }

    /// Frames one command. Fails with `PayloadTooLarge` exactly when the
    /// payload exceeds the codec's limit; otherwise returns the wire bytes.
    pub fn encode(
        &self,
        device_id: u8,
        command_id: u8,
        sequence: u16,
        flags: u8,
        payload: &[u8],
    ) -> (result: Result<Frame, FrameError>)
        ensures
            payload@.len() > self.limit() ==> result == Err::<Frame, FrameError>(
                FrameError::PayloadTooLarge,
            ),
            payload@.len() <= self.limit() ==> result is Ok && result->Ok_0@ == frame_of(
                device_id,
                command_id,
                sequence,
                flags,
                payload@,
            ),
    {
        if payload.len() > self.max_payload {
            Err(FrameError::PayloadTooLarge)
        } else {
            Ok(assemble(device_id, command_id, sequence, flags, payload))
        }
    }
}

/// Lays out one frame, whatever the payload's length.
pub(crate) fn assemble(
    device_id: u8,
    command_id: u8,
    sequence: u16,
    flags: u8,
    payload: &[u8],
) -> (frame: Frame)
    ensures
        frame@ == frame_of(device_id, command_id, sequence, flags, payload@),
{
    let ghost frame = frame_of(device_id, command_id, sequence, flags, payload@);
    let mut out: Vec<u8> = Vec::new();
    out.push(START_BYTE);
    out.push(device_id);
    out.push(command_id);
    out.push((sequence / 256) as u8);
    out.push((sequence % 256) as u8);
    out.push(flags);
    let mut i: usize = 0;
    while i < payload.len()
        invariant
            i <= payload.len(),
            out@ =~= seq![START_BYTE] + covered_bytes(frame).take(5 + i),
            frame.payload == payload@,
        decreases payload.len() - i,
    {
        out.push(payload[i]);
        i += 1;
    }
    assert(covered_bytes(frame).take(5 + i) =~= covered_bytes(frame));
    let sum: u8 = calculate_checksum(slice_subrange(out.as_slice(), 1, out.len()));
    assert(out@.subrange(1, out@.len() as int) =~= covered_bytes(frame));
    out.push(sum);
    out.push(END_BYTE);
    assert(out@ =~= frame_bytes(frame));
    proof {
        lemma_round_trip(frame);
    }
    Frame { bytes: out }
}

/// Validates one received frame and extracts its fields. The outcome is
/// exactly [`parse_frame`] of the bytes.
pub fn decode(raw: &[u8]) -> (result: Result<DecodedFrame, FrameError>)
    ensures
        match parse_frame(raw@) {
            Ok(frame) => result is Ok && result->Ok_0@ == frame,
            Err(error) => result == Err::<DecodedFrame, FrameError>(error),
        },
{
    let len: usize = raw.len();
    if len < MIN_FRAME_LEN {
        return Err(FrameError::FrameTooShort);
    }
    if raw[0] != START_BYTE {
        return Err(FrameError::BadStartByte);
    }
    if raw[len - 1] != END_BYTE {
        return Err(FrameError::BadEndByte);
    }
    let sum: u8 = calculate_checksum(slice_subrange(raw, 1, len - 2));
    if sum != raw[len - 2] {
        return Err(FrameError::ChecksumMismatch);
    }
    let high: u16 = raw[3] as u16;
    let low: u16 = raw[4] as u16;
    let payload = slice_to_vec(slice_subrange(raw, 6, len - 2));
    Ok(
        DecodedFrame {
            device_id: raw[1],
            command_id: raw[2],
            sequence: high * 256 + low,
            flags: raw[5],
            payload,
        },
    )
}

/// Round trip: the wire encoding of any frame parses back to that frame, so
/// what `encode` lays out, `decode` reads back with every field unchanged.
pub proof fn lemma_round_trip(frame: FrameView)
    ensures
        parse_frame(frame_bytes(frame)) == Ok::<FrameView, FrameError>(frame),
{
    let raw = frame_bytes(frame);
    let covered = covered_bytes(frame);
    assert(raw.len() == covered.len() + 3);
    assert(raw.subrange(1, raw.len() - 2) =~= covered);
    assert(raw.subrange(6, raw.len() - 2) =~= frame.payload);
    let high = (frame.sequence / 256) as u8;
    let low = (frame.sequence % 256) as u8;
    assert(raw[3] == high && raw[4] == low);
    assert((high * 256 + low) as u16 == frame.sequence);
    let parsed = parse_frame(raw);
    assert(parsed is Ok);
    assert(parsed->Ok_0.payload == frame.payload);
}

/// The encoding is canonical: a byte string that parses to a frame is that
/// frame's wire encoding, so no two byte strings carry the same frame.
pub proof fn lemma_parse_is_canonical(raw: Seq<u8>)
    requires
        parse_frame(raw) is Ok,
    ensures
        frame_bytes(parse_frame(raw)->Ok_0) == raw,
{
    let frame = parse_frame(raw)->Ok_0;
    let sequence = (raw[3] * 256 + raw[4]) as u16;
    assert(sequence / 256 == raw[3] && sequence % 256 == raw[4]);
    assert(covered_bytes(frame) =~= raw.subrange(1, raw.len() - 2));
    assert(frame_bytes(frame) =~= raw);
}

/// Corruption: changing any single byte between the two markers of a valid
/// frame makes it fail with `ChecksumMismatch`.
pub proof fn lemma_corruption_detected(raw: Seq<u8>, index: int, value: u8)
    requires
        parse_frame(raw) is Ok,
        1 <= index < raw.len() - 1,
        value != raw[index],
    ensures
        parse_frame(raw.update(index, value)) == Err::<FrameView, FrameError>(
            FrameError::ChecksumMismatch,
        ),
{
    let damaged = raw.update(index, value);
    let end = raw.len() - 2;
    if index < end {
        assert(damaged.subrange(1, end) =~= raw.subrange(1, end).update(index - 1, value));
        lemma_checksum_detects_change(raw.subrange(1, end), index - 1, value);
    } else {
        assert(damaged.subrange(1, end) =~= raw.subrange(1, end));
    }
}

} // verus!
