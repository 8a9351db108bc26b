//! The handshake sequencer: the order of the requests that bring a connected
//! peripheral to streaming.
//!
//! Three requests are made, one after the other: the unlock write, the
//! subscription, the sensor-mask write. A request is made only after the one
//! before it completed; the first that fails or times out ends the handshake.

use crate::characteristic::{advertises_notify, CharacteristicId, CharacteristicTable, ANTI_DOS, API_V2};
use crate::command::{sensor_mask_command, sensor_mask_frame};
use crate::frame::{frame_bytes, PacketCodec};
use vstd::prelude::*;
use vstd::slice::slice_to_vec;

verus! {

/// Largest sensor mask that the sequencer frames.
pub const MAX_MASK_LEN: usize = 255;

/// Sequence number of the sensor-mask request.
pub const CONFIG_SEQUENCE: u16 = 1;

/// Whether a write waits for the peripheral's acknowledgement.
#[derive(Clone, Copy, Debug, PartialEq, Eq, Structural)]
pub enum WriteMode {
    WithResponse,
    WithoutResponse,
}

/// The three steps of the handshake, in their order.
#[derive(Clone, Copy, Debug, PartialEq, Eq, Structural)]
pub enum HandshakeStep {
    /// The unlock string is written to `ANTI_DOS`.
    Unlock,
    /// Notifications of `API_V2` are subscribed to.
    Subscribe,
    /// The sensor-mask request is written to `API_V2`.
    Configure,
}

/// Why a handshake ended without reaching streaming.
#[derive(Clone, Copy, Debug, PartialEq, Eq, Structural)]
pub enum HandshakeError {
    /// The transport reported an error for the unlock write.
    UnlockWriteFailed,
    /// The peripheral offers no `API_V2` characteristic that can notify.
    NotifyNotSupported,
    /// The transport reported an error for the subscription.
    SubscribeFailed,
    /// The sensor-mask request could not be framed, or the transport
    /// reported an error for its write.
    ConfigWriteFailed,
    /// The named step did not complete in time.
    Timeout(HandshakeStep),
}

/// How the transport answered the request of the current step.
#[derive(Clone, Copy, Debug, PartialEq, Eq, Structural)]
pub enum Reply {
    Completed,
    Failed,
    TimedOut,
}

/// One request to the transport.
#[derive(Debug, PartialEq, Eq)]
pub enum Request {
    Write { characteristic: CharacteristicId, bytes: Vec<u8>, mode: WriteMode },
    Subscribe { characteristic: CharacteristicId },
}

/// Mathematical model of a request.
pub enum RequestView {
    Write { characteristic: CharacteristicId, bytes: Seq<u8>, mode: WriteMode },
    Subscribe { characteristic: CharacteristicId },
}

impl View for Request {
    type V = RequestView;

    open spec fn view(&self) -> RequestView {
        match *self {
            Request::Write { characteristic, bytes, mode } => RequestView::Write {
                characteristic,
                bytes: bytes@,
                mode,
            },
            Request::Subscribe { characteristic } => RequestView::Subscribe { characteristic },
        }
    }
}

/// Where the handshake stands after a reply.
#[derive(Debug, PartialEq, Eq)]
pub enum Progress {
    /// The next step begins with `request`.
    Continue { step: HandshakeStep, request: Request },
    /// All three steps completed.
    Done,
    /// The handshake ended; no further request is made.
    Failed(HandshakeError),
}

/// Mathematical model of [`Progress`].
pub enum ProgressView {
    Continue { step: HandshakeStep, request: RequestView },
    Done,
    Failed(HandshakeError),
}

impl View for Progress {
    type V = ProgressView;

    open spec fn view(&self) -> ProgressView {
        match *self {
            Progress::Continue { step, request } => ProgressView::Continue {
                step,
                request: request@,
            },
            Progress::Done => ProgressView::Done,
            Progress::Failed(error) => ProgressView::Failed(error),
        }
    }
}

/// The request of the first step: the unlock string, written to `ANTI_DOS`
/// without acknowledgement.
pub open spec fn unlock_request(unlock_payload: Seq<u8>) -> RequestView {
    RequestView::Write {
        characteristic: ANTI_DOS,
        bytes: unlock_payload,
        mode: WriteMode::WithoutResponse,
    }
}

/// The request of the second step: the subscription to `API_V2`.
pub open spec fn subscribe_request() -> RequestView {
    RequestView::Subscribe { characteristic: API_V2 }
}

/// The request of the third step: the framed sensor mask, written to
/// `API_V2` without acknowledgement.
pub open spec fn configure_request(sensor_mask: Seq<u8>) -> RequestView {
    RequestView::Write {
        characteristic: API_V2,
        bytes: frame_bytes(sensor_mask_command(CONFIG_SEQUENCE, sensor_mask)),
        mode: WriteMode::WithoutResponse,
    }
}

/// The error that a failed request of `step` stands for.
pub open spec fn failure_of(step: HandshakeStep) -> HandshakeError {
    match step {
        HandshakeStep::Unlock => HandshakeError::UnlockWriteFailed,
        HandshakeStep::Subscribe => HandshakeError::SubscribeFailed,
        HandshakeStep::Configure => HandshakeError::ConfigWriteFailed,
    }
}

/// The sequencer's rule. `notify_supported` says whether the peripheral
/// advertises `API_V2` with the notify capability.
pub open spec fn next_progress(
    step: HandshakeStep,
    reply: Reply,
    notify_supported: bool,
    sensor_mask: Seq<u8>,
) -> ProgressView {
    match reply {
        Reply::Failed => ProgressView::Failed(failure_of(step)),
        Reply::TimedOut => ProgressView::Failed(HandshakeError::Timeout(step)),
        Reply::Completed => match step {
            HandshakeStep::Unlock => if notify_supported {
                ProgressView::Continue {
                    step: HandshakeStep::Subscribe,
                    request: subscribe_request(),
                }
            } else {
                ProgressView::Failed(HandshakeError::NotifyNotSupported)
            },
            HandshakeStep::Subscribe => if sensor_mask.len() <= MAX_MASK_LEN {
                ProgressView::Continue {
                    step: HandshakeStep::Configure,
                    request: configure_request(sensor_mask),
                }
            } else {
                ProgressView::Failed(HandshakeError::ConfigWriteFailed)
            },
            HandshakeStep::Configure => ProgressView::Done,
        },
    }
}

/// Position of a step in the handshake.
pub open spec fn step_index(step: HandshakeStep) -> nat {
    match step {
        HandshakeStep::Unlock => 0,
        HandshakeStep::Subscribe => 1,
        HandshakeStep::Configure => 2,
    }
}

/// Opens the handshake: the request of the unlock step.
pub fn begin(unlock_payload: &[u8]) -> (request: Request)
    ensures
        request@ == unlock_request(unlock_payload@),
{
    Request::Write {
        characteristic: ANTI_DOS,
        bytes: slice_to_vec(unlock_payload),
        mode: WriteMode::WithoutResponse,
    }
}

/// Decides what follows the reply to the request of `step`.
///
/// A reply other than `Completed` ends the handshake with the step's error
/// and no request. A completed step is followed by the request of the next
/// step and by nothing else.
pub fn advance(
    step: HandshakeStep,
    reply: Reply,
    characteristics: &CharacteristicTable,
    sensor_mask: &[u8],
) -> (progress: Progress)
    ensures
        progress@ == next_progress(
            step,
            reply,
            advertises_notify(characteristics@, API_V2),
            sensor_mask@,
        ),
        reply != Reply::Completed ==> progress@ is Failed,
        progress@ matches ProgressView::Continue { step: next, .. } ==> step_index(next)
            == step_index(step) + 1,
{
    match reply {
        Reply::Failed => Progress::Failed(
            match step {
                HandshakeStep::Unlock => HandshakeError::UnlockWriteFailed,
                HandshakeStep::Subscribe => HandshakeError::SubscribeFailed,
                HandshakeStep::Configure => HandshakeError::ConfigWriteFailed,
            },
        ),
        Reply::TimedOut => Progress::Failed(HandshakeError::Timeout(step)),
        Reply::Completed => match step {
            HandshakeStep::Unlock => {
                if characteristics.supports_notify(API_V2) {
                    Progress::Continue {
                        step: HandshakeStep::Subscribe,
                        request: Request::Subscribe { characteristic: API_V2 },
                    }
                } else {
                    Progress::Failed(HandshakeError::NotifyNotSupported)
                }
            },
            HandshakeStep::Subscribe => {
                let codec = PacketCodec::new(MAX_MASK_LEN);
                match sensor_mask_frame(&codec, CONFIG_SEQUENCE, sensor_mask) {
                    Ok(frame) => Progress::Continue {
                        step: HandshakeStep::Configure,
                        request: Request::Write {
                            characteristic: API_V2,
                            bytes: frame.into_bytes(),
                            mode: WriteMode::WithoutResponse,
                        },
                    },
                    Err(_) => Progress::Failed(HandshakeError::ConfigWriteFailed),
                }
            },
            HandshakeStep::Configure => Progress::Done,
        },
    }
}

} // verus!
