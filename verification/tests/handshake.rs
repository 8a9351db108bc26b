use sphero_session::characteristic::{Capabilities, CharacteristicTable, ANTI_DOS, API_V2, DFU_CONTROL};
use sphero_session::frame::decode;
use sphero_session::handshake::{
    advance, begin, HandshakeError, HandshakeStep, Progress, Reply, Request, WriteMode,
    CONFIG_SEQUENCE, MAX_MASK_LEN,
};

const MASK: [u8; 4] = [0x0F, 0x00, 0xFA, 0x00];

fn table(notify: bool) -> CharacteristicTable {
    let mut table = CharacteristicTable::new();
    table.insert(
        API_V2,
        Capabilities {
            read: true,
            write: true,
            notify,
        },
    );
    table
}

#[test]
fn begin_writes_the_unlock_string_without_response() {
    assert_eq!(
        begin(b"unlock"),
        Request::Write {
            characteristic: ANTI_DOS,
            bytes: b"unlock".to_vec(),
            mode: WriteMode::WithoutResponse,
        }
    );
    assert_eq!(
        begin(&[]),
        Request::Write {
            characteristic: ANTI_DOS,
            bytes: vec![],
            mode: WriteMode::WithoutResponse,
        }
    );
}

#[test]
fn completed_unlock_leads_to_subscription() {
    assert_eq!(
        advance(HandshakeStep::Unlock, Reply::Completed, &table(true), &MASK),
        Progress::Continue {
            step: HandshakeStep::Subscribe,
            request: Request::Subscribe {
                characteristic: API_V2
            },
        }
    );
}

#[test]
fn completed_subscription_leads_to_the_mask_write() {
    let progress = advance(HandshakeStep::Subscribe, Reply::Completed, &table(true), &MASK);
    assert_eq!(
        progress,
        Progress::Continue {
            step: HandshakeStep::Configure,
            request: Request::Write {
                characteristic: API_V2,
                bytes: vec![0x8D, 0x02, 0x11, 0x00, 0x01, 0x00, 0x0F, 0x00, 0xFA, 0x00, 0x1D, 0xD8],
                mode: WriteMode::WithoutResponse,
            },
        }
    );
}

#[test]
fn mask_write_is_a_valid_frame() {
    assert_eq!(CONFIG_SEQUENCE, 1);
    match advance(HandshakeStep::Subscribe, Reply::Completed, &table(true), &[1, 2, 3]) {
        Progress::Continue {
            request: Request::Write { bytes, .. },
            ..
        } => {
            let frame = decode(&bytes).unwrap();
            assert_eq!(frame.sequence, CONFIG_SEQUENCE);
            assert_eq!(frame.payload, vec![1, 2, 3]);
        }
        other => panic!("no write: {:?}", other),
    }
}

#[test]
fn completed_mask_write_ends_the_handshake() {
    assert_eq!(
        advance(HandshakeStep::Configure, Reply::Completed, &table(true), &MASK),
        Progress::Done
    );
}

#[test]
fn failed_reply_ends_with_the_error_of_the_step() {
    let cases = [
        (HandshakeStep::Unlock, HandshakeError::UnlockWriteFailed),
        (HandshakeStep::Subscribe, HandshakeError::SubscribeFailed),
        (HandshakeStep::Configure, HandshakeError::ConfigWriteFailed),
    ];
    for (step, error) in cases {
        assert_eq!(
            advance(step, Reply::Failed, &table(true), &MASK),
            Progress::Failed(error)
        );
    }
}

#[test]
fn timed_out_reply_names_the_step() {
    for step in [
        HandshakeStep::Unlock,
        HandshakeStep::Subscribe,
        HandshakeStep::Configure,
    ] {
        assert_eq!(
            advance(step, Reply::TimedOut, &table(true), &MASK),
            Progress::Failed(HandshakeError::Timeout(step))
        );
    }
}

#[test]
fn missing_characteristic_is_notify_not_supported() {
    let mut other = CharacteristicTable::new();
    other.insert(
        DFU_CONTROL,
        Capabilities {
            read: true,
            write: true,
            notify: true,
        },
    );
    for characteristics in [CharacteristicTable::new(), other] {
        assert_eq!(
            advance(HandshakeStep::Unlock, Reply::Completed, &characteristics, &MASK),
            Progress::Failed(HandshakeError::NotifyNotSupported)
        );
    }
}

#[test]
fn characteristic_without_notify_is_notify_not_supported() {
    assert_eq!(
        advance(HandshakeStep::Unlock, Reply::Completed, &table(false), &MASK),
        Progress::Failed(HandshakeError::NotifyNotSupported)
    );
}

#[test]
fn notify_is_checked_at_the_unlock_step_only() {
    assert_eq!(
        advance(HandshakeStep::Unlock, Reply::Failed, &table(false), &MASK),
        Progress::Failed(HandshakeError::UnlockWriteFailed)
    );
    assert_eq!(
        advance(HandshakeStep::Configure, Reply::Completed, &table(false), &MASK),
        Progress::Done
    );
}

#[test]
fn mask_at_the_limit_is_framed() {
    assert_eq!(MAX_MASK_LEN, 255);
    let mask = vec![0xAA; MAX_MASK_LEN];
    match advance(HandshakeStep::Subscribe, Reply::Completed, &table(true), &mask) {
        Progress::Continue {
            step: HandshakeStep::Configure,
            request: Request::Write { bytes, .. },
        } => assert_eq!(bytes.len(), MAX_MASK_LEN + 8),
        other => panic!("no write: {:?}", other),
    }
}

#[test]
fn mask_above_the_limit_is_a_config_failure() {
    let mask = vec![0xAA; MAX_MASK_LEN + 1];
    assert_eq!(
        advance(HandshakeStep::Subscribe, Reply::Completed, &table(true), &mask),
        Progress::Failed(HandshakeError::ConfigWriteFailed)
    );
}
