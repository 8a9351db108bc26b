use sphero_session::characteristic::{Capabilities, CharacteristicTable, ANTI_DOS, API_V2, DFU_CONTROL};
use sphero_session::frame::decode;
use sphero_session::handshake::{HandshakeError, HandshakeStep, Request, WriteMode};
use sphero_session::pipeline::{DecodeError, FramingMode, NotificationEvent};
use sphero_session::sensor::{SensorDecodeError, SensorSample};
use sphero_session::session::{
    open_session, Action, ConnectError, DeviceHandle, DeviceId, Event, Phase, Session,
    SessionConfig, SessionError, SessionState, Step,
};

const UNIT: [u8; 6] = [0x03, 0xE8, 0xFC, 0x18, 0x00, 0x00];

const UNIT_SAMPLE: SensorSample = SensorSample {
    acc_x: 1000,
    acc_y: -1000,
    acc_z: 0,
};

const DEVICE: DeviceId = DeviceId { value: 0xC0FFEE };

const HANDLE: DeviceHandle = DeviceHandle { value: 42 };

fn config(framing_mode: FramingMode) -> SessionConfig {
    SessionConfig {
        unlock_payload: b"usetheforce...band".to_vec(),
        sensor_mask: vec![0x0F, 0x00, 0xFA, 0x00],
        framing_mode,
        connect_timeout_ms: 5000,
        handshake_timeout_ms: 1500,
    }
}

fn characteristics(notify: bool) -> CharacteristicTable {
    let mut table = CharacteristicTable::new();
    table.insert(
        ANTI_DOS,
        Capabilities {
            read: false,
            write: true,
            notify: false,
        },
    );
    table.insert(
        API_V2,
        Capabilities {
            read: false,
            write: true,
            notify,
        },
    );
    table
}

fn connected(notify: bool) -> Event {
    Event::Connected {
        handle: HANDLE,
        characteristics: characteristics(notify),
    }
}

fn notification(payload: &[u8]) -> Event {
    Event::Notification(NotificationEvent {
        characteristic: API_V2,
        payload: payload.to_vec(),
    })
}

fn halt() -> Step {
    Step {
        action: Action::Halt,
        item: None,
    }
}

fn ask(action: Action) -> Step {
    Step { action, item: None }
}

fn rank(state: SessionState) -> u8 {
    match state {
        SessionState::Disconnected => 0,
        SessionState::Connected => 1,
        SessionState::Unlocked => 2,
        SessionState::Streaming => 3,
        SessionState::Terminated(_) => 4,
    }
}

/// A session brought to the given phase along the successful path.
fn session_at(phase: Phase) -> Session {
    let (mut session, _) = open_session(DEVICE, config(FramingMode::Unframed));
    let mut events = vec![connected(true), Event::Completed, Event::Completed, Event::Completed];
    let count = match phase {
        Phase::Connecting => 0,
        Phase::Handshake(HandshakeStep::Unlock) => 1,
        Phase::Handshake(HandshakeStep::Subscribe) => 2,
        Phase::Handshake(HandshakeStep::Configure) => 3,
        Phase::Streaming => 4,
        Phase::Terminated(_) => panic!("not on the successful path"),
    };
    for event in events.drain(..count) {
        session.step(event);
    }
    assert_eq!(session.phase(), phase);
    session
}

fn every_live_phase() -> Vec<Phase> {
    vec![
        Phase::Connecting,
        Phase::Handshake(HandshakeStep::Unlock),
        Phase::Handshake(HandshakeStep::Subscribe),
        Phase::Handshake(HandshakeStep::Configure),
        Phase::Streaming,
    ]
}

fn every_event() -> Vec<Event> {
    vec![
        connected(true),
        Event::Completed,
        Event::Failed,
        Event::TimedOut,
        notification(&UNIT),
        Event::StreamEnded,
        Event::Cancel,
    ]
}

/// A transport that records what it is asked to do.
struct MockTransport {
    fail_unlock: bool,
    notifications: Vec<Vec<u8>>,
    connects: usize,
    unlock_writes: usize,
    config_writes: usize,
    subscribes: usize,
    unsubscribes: usize,
    listens: usize,
}

impl MockTransport {
    fn new(fail_unlock: bool, notifications: Vec<Vec<u8>>) -> MockTransport {
        MockTransport {
            fail_unlock,
            notifications,
            connects: 0,
            unlock_writes: 0,
            config_writes: 0,
            subscribes: 0,
            unsubscribes: 0,
            listens: 0,
        }
    }

    fn writes(&self) -> usize {
        self.unlock_writes + self.config_writes
    }

    /// Carries out one action. `None` means that the driver stops.
    fn perform(&mut self, action: &Action) -> Option<Event> {
        match action {
            Action::Connect { .. } => {
                self.connects += 1;
                Some(connected(true))
            }
            Action::Perform {
                request: Request::Write { characteristic, .. },
                ..
            } => {
                if *characteristic == ANTI_DOS {
                    self.unlock_writes += 1;
                    if self.fail_unlock {
                        return Some(Event::Failed);
                    }
                } else {
                    self.config_writes += 1;
                }
                Some(Event::Completed)
            }
            Action::Perform {
                request: Request::Subscribe { .. },
                ..
            } => {
                self.subscribes += 1;
                Some(Event::Completed)
            }
            Action::Listen => {
                self.listens += 1;
                if self.notifications.is_empty() {
                    Some(Event::StreamEnded)
                } else {
                    Some(notification(&self.notifications.remove(0)))
                }
            }
            Action::Unsubscribe { .. } => {
                self.unsubscribes += 1;
                None
            }
            Action::Halt => None,
        }
    }
}

/// Runs a session against the transport. The caller stops consuming once it
/// holds `wanted` items.
fn drive(
    transport: &mut MockTransport,
    framing_mode: FramingMode,
    wanted: Option<usize>,
) -> (Session, Vec<Result<SensorSample, DecodeError>>) {
    let (mut session, mut action) = open_session(DEVICE, config(framing_mode));
    let mut items = Vec::new();
    loop {
        let cancelled = action == Action::Listen && wanted == Some(items.len());
        let event = if cancelled {
            Event::Cancel
        } else {
            match transport.perform(&action) {
                Some(event) => event,
                None => break,
            }
        };
        let step = session.step(event);
        items.extend(step.item);
        action = step.action;
    }
    (session, items)
}

#[test]
fn open_session_asks_for_the_connection() {
    let (session, action) = open_session(DEVICE, config(FramingMode::Framed));
    assert_eq!(
        action,
        Action::Connect {
            device: DEVICE,
            timeout_ms: 5000
        }
    );
    assert_eq!(session.state(), SessionState::Disconnected);
    assert_eq!(session.phase(), Phase::Connecting);
    assert_eq!(session.handle(), None);
    assert_eq!(session.device(), DEVICE);
    assert_eq!(session.config(), &config(FramingMode::Framed));
    assert_eq!(session.pipeline().source, API_V2);
    assert_eq!(session.pipeline().mode, FramingMode::Framed);
}

#[test]
fn handshake_runs_in_strict_order() {
    let (mut session, _) = open_session(DEVICE, config(FramingMode::Unframed));

    let step = session.step(connected(true));
    assert_eq!(
        step,
        ask(Action::Perform {
            request: Request::Write {
                characteristic: ANTI_DOS,
                bytes: b"usetheforce...band".to_vec(),
                mode: WriteMode::WithoutResponse,
            },
            timeout_ms: 1500,
        })
    );
    assert_eq!(session.state(), SessionState::Connected);
    assert_eq!(session.handle(), Some(HANDLE));

    let step = session.step(Event::Completed);
    assert_eq!(
        step,
        ask(Action::Perform {
            request: Request::Subscribe {
                characteristic: API_V2
            },
            timeout_ms: 1500,
        })
    );
    assert_eq!(session.state(), SessionState::Unlocked);
    assert_eq!(session.phase(), Phase::Handshake(HandshakeStep::Subscribe));

    let step = session.step(Event::Completed);
    assert_eq!(
        step,
        ask(Action::Perform {
            request: Request::Write {
                characteristic: API_V2,
                bytes: vec![0x8D, 0x02, 0x11, 0x00, 0x01, 0x00, 0x0F, 0x00, 0xFA, 0x00, 0x1D, 0xD8],
                mode: WriteMode::WithoutResponse,
            },
            timeout_ms: 1500,
        })
    );
    assert_eq!(session.state(), SessionState::Unlocked);
    assert_eq!(session.phase(), Phase::Handshake(HandshakeStep::Configure));

    let step = session.step(Event::Completed);
    assert_eq!(step, ask(Action::Listen));
    assert_eq!(session.state(), SessionState::Streaming);
    assert_eq!(session.handle(), Some(HANDLE));
}

#[test]
fn config_write_decodes_to_the_mask() {
    let mut session = session_at(Phase::Handshake(HandshakeStep::Subscribe));
    match session.step(Event::Completed).action {
        Action::Perform {
            request: Request::Write { bytes, .. },
            ..
        } => assert_eq!(decode(&bytes).unwrap().payload, vec![0x0F, 0x00, 0xFA, 0x00]),
        other => panic!("no write: {:?}", other),
    }
}

#[test]
fn streaming_yields_an_item_for_each_notification() {
    let mut session = session_at(Phase::Streaming);
    let step = session.step(notification(&UNIT));
    assert_eq!(
        step,
        Step {
            action: Action::Listen,
            item: Some(Ok(UNIT_SAMPLE)),
        }
    );
    let step = session.step(notification(&[1, 2]));
    assert_eq!(
        step,
        Step {
            action: Action::Listen,
            item: Some(Err(DecodeError::Sensor(SensorDecodeError::PayloadTooShort))),
        }
    );
    let step = session.step(notification(&UNIT));
    assert_eq!(step.item, Some(Ok(UNIT_SAMPLE)));
    assert_eq!(session.state(), SessionState::Streaming);
}

#[test]
fn streaming_drops_other_characteristics() {
    let mut session = session_at(Phase::Streaming);
    for characteristic in [ANTI_DOS, DFU_CONTROL, API_V2 + 1] {
        let step = session.step(Event::Notification(NotificationEvent {
            characteristic,
            payload: UNIT.to_vec(),
        }));
        assert_eq!(step, ask(Action::Listen));
        assert_eq!(session.state(), SessionState::Streaming);
    }
}

#[test]
fn framing_mode_of_the_config_is_used() {
    let (mut session, _) = open_session(DEVICE, config(FramingMode::Framed));
    for event in [connected(true), Event::Completed, Event::Completed, Event::Completed] {
        session.step(event);
    }
    assert_eq!(session.state(), SessionState::Streaming);
    let step = session.step(notification(&UNIT));
    assert!(matches!(step.item, Some(Err(DecodeError::Frame(_)))));
    let step = session.step(notification(&[
        0x8D, 0x02, 0x11, 0x00, 0x07, 0x00, 0x03, 0xE8, 0xFC, 0x18, 0x00, 0x00, 0x19, 0xD8,
    ]));
    assert_eq!(step.item, Some(Ok(UNIT_SAMPLE)));
}

#[test]
fn stream_end_terminates_the_session() {
    let mut session = session_at(Phase::Streaming);
    assert_eq!(session.step(Event::StreamEnded), halt());
    assert_eq!(
        session.state(),
        SessionState::Terminated(SessionError::Disconnected)
    );
    assert_eq!(session.handle(), None);
}

#[test]
fn connect_failure_terminates_the_session() {
    let mut session = session_at(Phase::Connecting);
    assert_eq!(session.step(Event::Failed), halt());
    assert_eq!(
        session.state(),
        SessionState::Terminated(SessionError::Connect(ConnectError::Failed))
    );
    assert_eq!(session.handle(), None);
}

#[test]
fn connect_timeout_terminates_the_session() {
    let mut session = session_at(Phase::Connecting);
    assert_eq!(session.step(Event::TimedOut), halt());
    assert_eq!(
        session.state(),
        SessionState::Terminated(SessionError::Connect(ConnectError::Timeout))
    );
}

#[test]
fn handshake_failures_name_their_step() {
    let cases = [
        (HandshakeStep::Unlock, HandshakeError::UnlockWriteFailed),
        (HandshakeStep::Subscribe, HandshakeError::SubscribeFailed),
        (HandshakeStep::Configure, HandshakeError::ConfigWriteFailed),
    ];
    for (step, error) in cases {
        let mut session = session_at(Phase::Handshake(step));
        assert_eq!(session.step(Event::Failed), halt());
        assert_eq!(
            session.state(),
            SessionState::Terminated(SessionError::Handshake(error))
        );
        assert_eq!(session.handle(), None);
    }
}

#[test]
fn handshake_timeouts_name_their_step() {
    for step in [
        HandshakeStep::Unlock,
        HandshakeStep::Subscribe,
        HandshakeStep::Configure,
    ] {
        let mut session = session_at(Phase::Handshake(step));
        assert_eq!(session.step(Event::TimedOut), halt());
        assert_eq!(
            session.state(),
            SessionState::Terminated(SessionError::Handshake(HandshakeError::Timeout(step)))
        );
        assert_eq!(session.handle(), None);
    }
}

#[test]
fn missing_notify_capability_terminates_after_unlock() {
    let (mut session, _) = open_session(DEVICE, config(FramingMode::Unframed));
    let step = session.step(connected(false));
    assert!(matches!(step.action, Action::Perform { .. }));
    assert_eq!(session.step(Event::Completed), halt());
    assert_eq!(
        session.state(),
        SessionState::Terminated(SessionError::Handshake(HandshakeError::NotifyNotSupported))
    );
    assert_eq!(session.handle(), None);
}

#[test]
fn oversized_mask_terminates_before_the_write() {
    let mut oversized = config(FramingMode::Unframed);
    oversized.sensor_mask = vec![0; 256];
    let (mut session, _) = open_session(DEVICE, oversized);
    session.step(connected(true));
    session.step(Event::Completed);
    assert_eq!(session.step(Event::Completed), halt());
    assert_eq!(
        session.state(),
        SessionState::Terminated(SessionError::Handshake(HandshakeError::ConfigWriteFailed))
    );
}

#[test]
fn unexpected_event_terminates_the_session() {
    let unexpected = [
        (Phase::Connecting, Event::Completed),
        (Phase::Connecting, notification(&UNIT)),
        (Phase::Connecting, Event::StreamEnded),
        (Phase::Handshake(HandshakeStep::Unlock), connected(true)),
        (Phase::Handshake(HandshakeStep::Subscribe), notification(&UNIT)),
        (Phase::Handshake(HandshakeStep::Configure), Event::StreamEnded),
        (Phase::Streaming, Event::Completed),
        (Phase::Streaming, Event::Failed),
        (Phase::Streaming, Event::TimedOut),
        (Phase::Streaming, connected(true)),
    ];
    for (phase, event) in unexpected {
        let mut session = session_at(phase);
        assert_eq!(session.step(event), halt());
        assert_eq!(
            session.state(),
            SessionState::Terminated(SessionError::UnexpectedEvent)
        );
        assert_eq!(session.handle(), None);
    }
}

#[test]
fn terminated_session_stays_terminated() {
    let mut session = session_at(Phase::Handshake(HandshakeStep::Unlock));
    session.step(Event::Failed);
    let ended = session.state();
    for _ in 0..3 {
        for event in every_event() {
            assert_eq!(session.step(event), halt());
            assert_eq!(session.state(), ended);
            assert_eq!(session.handle(), None);
        }
    }
}

#[test]
fn state_never_moves_backward() {
    for phase in every_live_phase() {
        for first in every_event() {
            for second in every_event() {
                let mut session = session_at(phase);
                let start = rank(session.state());
                session.step(first.clone());
                let middle = rank(session.state());
                session.step(second);
                let end = rank(session.state());
                assert!(start <= middle && middle <= end);
            }
        }
    }
}

#[test]
fn handle_is_held_exactly_while_connected() {
    for phase in every_live_phase() {
        for event in every_event() {
            let mut session = session_at(phase);
            session.step(event);
            let connected = matches!(
                session.state(),
                SessionState::Connected | SessionState::Unlocked | SessionState::Streaming
            );
            assert_eq!(session.handle().is_some(), connected);
        }
    }
}

#[test]
fn cancel_while_streaming_asks_for_one_unsubscribe() {
    let mut session = session_at(Phase::Streaming);
    assert_eq!(
        session.step(Event::Cancel),
        ask(Action::Unsubscribe {
            characteristic: API_V2
        })
    );
    assert_eq!(
        session.state(),
        SessionState::Terminated(SessionError::Cancelled)
    );
    assert_eq!(session.handle(), None);
    for event in every_event() {
        assert_eq!(session.step(event), halt());
    }
}

#[test]
fn cancel_after_subscribing_asks_for_one_unsubscribe() {
    let mut session = session_at(Phase::Handshake(HandshakeStep::Configure));
    assert_eq!(
        session.step(Event::Cancel),
        ask(Action::Unsubscribe {
            characteristic: API_V2
        })
    );
    assert_eq!(session.step(Event::Cancel), halt());
}

#[test]
fn cancel_before_subscribing_asks_for_nothing() {
    for phase in [
        Phase::Connecting,
        Phase::Handshake(HandshakeStep::Unlock),
        Phase::Handshake(HandshakeStep::Subscribe),
    ] {
        let mut session = session_at(phase);
        assert_eq!(session.step(Event::Cancel), halt());
        assert_eq!(
            session.state(),
            SessionState::Terminated(SessionError::Cancelled)
        );
    }
}

#[test]
fn mock_transport_runs_a_whole_session() {
    let mut transport = MockTransport::new(false, vec![UNIT.to_vec(), vec![9], UNIT.to_vec()]);
    let (session, items) = drive(&mut transport, FramingMode::Unframed, None);
    assert_eq!(
        items,
        vec![
            Ok(UNIT_SAMPLE),
            Err(DecodeError::Sensor(SensorDecodeError::PayloadTooShort)),
            Ok(UNIT_SAMPLE),
        ]
    );
    assert_eq!(
        session.state(),
        SessionState::Terminated(SessionError::Disconnected)
    );
    assert_eq!(transport.connects, 1);
    assert_eq!(transport.unlock_writes, 1);
    assert_eq!(transport.subscribes, 1);
    assert_eq!(transport.config_writes, 1);
    assert_eq!(transport.listens, 4);
    assert_eq!(transport.unsubscribes, 0);
}

#[test]
fn failed_unlock_write_issues_no_subscribe_and_no_config_write() {
    let mut transport = MockTransport::new(true, vec![UNIT.to_vec()]);
    let (session, items) = drive(&mut transport, FramingMode::Unframed, None);
    assert_eq!(
        session.state(),
        SessionState::Terminated(SessionError::Handshake(HandshakeError::UnlockWriteFailed))
    );
    assert!(items.is_empty());
    assert_eq!(transport.unlock_writes, 1);
    assert_eq!(transport.subscribes, 0);
    assert_eq!(transport.config_writes, 0);
    assert_eq!(transport.listens, 0);
    assert_eq!(transport.unsubscribes, 0);
}

#[test]
fn malformed_then_well_formed_notification_gives_error_then_sample() {
    let mut transport = MockTransport::new(false, vec![vec![0x03, 0xE8], UNIT.to_vec()]);
    let (_, items) = drive(&mut transport, FramingMode::Unframed, None);
    assert_eq!(
        items,
        vec![
            Err(DecodeError::Sensor(SensorDecodeError::PayloadTooShort)),
            Ok(UNIT_SAMPLE),
        ]
    );
}

#[test]
fn cancelling_causes_one_unsubscribe_and_no_write() {
    let mut transport = MockTransport::new(false, vec![UNIT.to_vec(); 5]);
    let (session, items) = drive(&mut transport, FramingMode::Unframed, Some(2));
    assert_eq!(items, vec![Ok(UNIT_SAMPLE), Ok(UNIT_SAMPLE)]);
    assert_eq!(
        session.state(),
        SessionState::Terminated(SessionError::Cancelled)
    );
    assert_eq!(transport.unsubscribes, 1);
    assert_eq!(transport.writes(), 2);
    assert_eq!(transport.listens, 2);
    assert_eq!(transport.notifications.len(), 3);
}

#[test]
fn cancelling_at_once_causes_no_write_after_the_handshake() {
    let mut transport = MockTransport::new(false, vec![UNIT.to_vec()]);
    let (_, items) = drive(&mut transport, FramingMode::Unframed, Some(0));
    assert!(items.is_empty());
    assert_eq!(transport.unsubscribes, 1);
    assert_eq!(transport.writes(), 2);
    assert_eq!(transport.listens, 0);
}

#[test]
fn config_clone_is_equal() {
    let first = config(FramingMode::Framed);
    assert_eq!(first.clone(), first);
}

#[test]
fn session_items_are_the_pipeline_output() {
    let notifications = vec![
        NotificationEvent {
            characteristic: API_V2,
            payload: UNIT.to_vec(),
        },
        NotificationEvent {
            characteristic: DFU_CONTROL,
            payload: UNIT.to_vec(),
        },
        NotificationEvent {
            characteristic: API_V2,
            payload: vec![1, 2, 3],
        },
        NotificationEvent {
            characteristic: API_V2,
            payload: vec![0, 1, 0, 2, 0, 3, 4],
        },
    ];
    let mut session = session_at(Phase::Streaming);
    let mut items = Vec::new();
    for notification in &notifications {
        let step = session.step(Event::Notification(notification.clone()));
        assert_eq!(step.action, Action::Listen);
        items.extend(step.item);
    }
    assert_eq!(session.state(), SessionState::Streaming);
    assert_eq!(items, session.pipeline().process_all(&notifications));
    assert_eq!(items.len(), 3);
}
