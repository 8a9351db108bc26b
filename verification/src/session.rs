//! The session controller: one session over one peripheral, from connecting
//! to streaming to its end.
//!
//! The controller performs no I/O. It tells its driver what to do next with
//! an [`Action`]; the driver does it and reports what happened as an
//! [`Event`]. [`transition`] is the whole rule; [`Session::step`] carries it
//! out.

use crate::characteristic::{advertises_notify, Capabilities, CharacteristicId, CharacteristicTable, API_V2};
use crate::handshake::{
    advance, begin, configure_request, next_progress, subscribe_request, unlock_request,
    HandshakeError, HandshakeStep, Progress, ProgressView, Reply, Request, RequestView,
};
use crate::pipeline::{DecodeError, FramingMode, NotificationEvent, NotificationView, Pipeline};
use crate::sensor::SensorSample;
use vstd::prelude::*;
use vstd::slice::slice_to_vec;

verus! {

/// Names the peripheral that a session is opened for.
#[derive(Clone, Copy, Debug, PartialEq, Eq, Structural)]
pub struct DeviceId {
    pub value: u64,
}

/// The transport's reference to a connected peripheral. The session holds
/// it while it is connected and gives it up when it ends.
#[derive(Clone, Copy, Debug, PartialEq, Eq, Structural)]
pub struct DeviceHandle {
    pub value: u64,
}

/// What a caller chooses for a session.
#[derive(Debug, PartialEq, Eq)]
pub struct SessionConfig {
    /// The unlock string, written as it is to `ANTI_DOS`.
    pub unlock_payload: Vec<u8>,
    /// The payload of the sensor-mask request.
    pub sensor_mask: Vec<u8>,
    /// Whether notification payloads arrive framed.
    pub framing_mode: FramingMode,
    /// Time allowed for connecting, in milliseconds.
    pub connect_timeout_ms: u64,
    /// Time allowed for each handshake step, in milliseconds.
    pub handshake_timeout_ms: u64,
}

impl Clone for SessionConfig {
    fn clone(&self) -> (copy: SessionConfig)
        ensures
            copy@ == self@,
    {
        SessionConfig {
            unlock_payload: slice_to_vec(self.unlock_payload.as_slice()),
            sensor_mask: slice_to_vec(self.sensor_mask.as_slice()),
            framing_mode: self.framing_mode,
            connect_timeout_ms: self.connect_timeout_ms,
            handshake_timeout_ms: self.handshake_timeout_ms,
        }
    }
}

/// Mathematical model of a [`SessionConfig`].
pub struct ConfigView {
    pub unlock_payload: Seq<u8>,
    pub sensor_mask: Seq<u8>,
    pub framing_mode: FramingMode,
    pub connect_timeout_ms: u64,
    pub handshake_timeout_ms: u64,
}

impl View for SessionConfig {
    type V = ConfigView;

    open spec fn view(&self) -> ConfigView {
        ConfigView {
            unlock_payload: self.unlock_payload@,
            sensor_mask: self.sensor_mask@,
            framing_mode: self.framing_mode,
            connect_timeout_ms: self.connect_timeout_ms,
            handshake_timeout_ms: self.handshake_timeout_ms,
        }
    }
}

/// Why connecting ended without a connection.
#[derive(Clone, Copy, Debug, PartialEq, Eq, Structural)]
pub enum ConnectError {
    /// The transport reported an error.
    Failed,
    /// The connection was not made in time.
    Timeout,
}

/// Why a session ended.
#[derive(Clone, Copy, Debug, PartialEq, Eq, Structural)]
pub enum SessionError {
    /// No connection was made.
    Connect(ConnectError),
    /// The handshake failed.
    Handshake(HandshakeError),
    /// The notification stream ended: the peripheral is gone.
    Disconnected,
    /// The caller stopped consuming samples.
    Cancelled,
    /// The driver reported an event that answers nothing the session asked
    /// for.
    UnexpectedEvent,
}

/// The states of a session. A session only moves forward through them.
#[derive(Clone, Copy, Debug, PartialEq, Eq, Structural)]
pub enum SessionState {
    Disconnected,
    Connected,
    Unlocked,
    Streaming,
    Terminated(SessionError),
}

/// What a session is waiting for.
#[derive(Clone, Copy, Debug, PartialEq, Eq, Structural)]
pub enum Phase {
    /// The outcome of connecting.
    Connecting,
    /// The reply to the request of the given handshake step.
    Handshake(HandshakeStep),
    /// The next notification.
    Streaming,
    /// Nothing: the session has ended.
    Terminated(SessionError),
}

/// What the driver reports to the session.
#[derive(Debug)]
pub enum Event {
    /// The peripheral is connected and offers these characteristics.
    Connected { handle: DeviceHandle, characteristics: CharacteristicTable },
    /// The pending request completed.
    Completed,
    /// The transport reported an error for what was pending.
    Failed,
    /// What was pending did not complete in time.
    TimedOut,
    /// The transport delivered a notification.
    Notification(NotificationEvent),
    /// The notification stream ended.
    StreamEnded,
    /// The caller stopped consuming samples.
    Cancel,
}

impl Clone for Event {
    fn clone(&self) -> (copy: Event)
        ensures
            copy@ == self@,
    {
        match self {
            Event::Connected { handle, characteristics } => Event::Connected {
                handle: *handle,
                characteristics: characteristics.clone(),
            },
            Event::Completed => Event::Completed,
            Event::Failed => Event::Failed,
            Event::TimedOut => Event::TimedOut,
            Event::Notification(notification) => Event::Notification(notification.clone()),
            Event::StreamEnded => Event::StreamEnded,
            Event::Cancel => Event::Cancel,
        }
    }
}

/// Mathematical model of an [`Event`].
pub enum EventView {
    Connected { handle: DeviceHandle, characteristics: Map<CharacteristicId, Capabilities> },
    Completed,
    Failed,
    TimedOut,
    Notification(NotificationView),
    StreamEnded,
    Cancel,
}

impl View for Event {
    type V = EventView;

    open spec fn view(&self) -> EventView {
        match *self {
            Event::Connected { handle, characteristics } => EventView::Connected {
                handle,
                characteristics: characteristics@,
            },
            Event::Completed => EventView::Completed,
            Event::Failed => EventView::Failed,
            Event::TimedOut => EventView::TimedOut,
            Event::Notification(notification) => EventView::Notification(notification@),
            Event::StreamEnded => EventView::StreamEnded,
            Event::Cancel => EventView::Cancel,
        }
    }
}

/// What the session asks its driver to do next.
#[derive(Debug, PartialEq, Eq)]
pub enum Action {
    /// Connect to the peripheral within the given time and discover its
    /// characteristics.
    Connect { device: DeviceId, timeout_ms: u64 },
    /// Make the handshake request within the given time.
    Perform { request: Request, timeout_ms: u64 },
    /// Wait for the next notification.
    Listen,
    /// Unsubscribe from the characteristic, ignoring any error, and stop.
    Unsubscribe { characteristic: CharacteristicId },
    /// Stop: the session has ended.
    Halt,
}

/// Mathematical model of an [`Action`].
pub enum ActionView {
    Connect { device: DeviceId, timeout_ms: u64 },
    Perform { request: RequestView, timeout_ms: u64 },
    Listen,
    Unsubscribe { characteristic: CharacteristicId },
    Halt,
}

impl View for Action {
    type V = ActionView;

    open spec fn view(&self) -> ActionView {
        match *self {
            Action::Connect { device, timeout_ms } => ActionView::Connect { device, timeout_ms },
            Action::Perform { request, timeout_ms } => ActionView::Perform {
                request: request@,
                timeout_ms,
            },
            Action::Listen => ActionView::Listen,
            Action::Unsubscribe { characteristic } => ActionView::Unsubscribe { characteristic },
            Action::Halt => ActionView::Halt,
        }
    }
}

/// The outcome of one step: the next action and, while streaming, the item
/// that the event gave.
#[derive(Debug, PartialEq, Eq)]
pub struct Step {
    pub action: Action,
    pub item: Option<Result<SensorSample, DecodeError>>,
}

/// Mathematical model of a [`Step`].
pub struct StepView {
    pub action: ActionView,
    pub item: Option<Result<SensorSample, DecodeError>>,
}

impl View for Step {
    type V = StepView;

    open spec fn view(&self) -> StepView {
        StepView { action: self.action@, item: self.item }
    }
}

/// One session over one peripheral.
#[derive(Debug)]
pub struct Session {
    device: DeviceId,
    config: SessionConfig,
    phase: Phase,
    handle: Option<DeviceHandle>,
    characteristics: CharacteristicTable,
}

/// Mathematical model of a [`Session`].
pub struct SessionView {
    pub device: DeviceId,
    pub config: ConfigView,
    pub phase: Phase,
    pub handle: Option<DeviceHandle>,
    pub characteristics: Map<CharacteristicId, Capabilities>,
}

impl View for Session {
    type V = SessionView;

    closed spec fn view(&self) -> SessionView {
        SessionView {
            device: self.device,
            config: self.config@,
            phase: self.phase,
            handle: self.handle,
            characteristics: self.characteristics@,
        }
    }
}

impl SessionView {
    /// The state that the session is in.
    pub open spec fn state(self) -> SessionState {
        match self.phase {
            Phase::Connecting => SessionState::Disconnected,
            Phase::Handshake(HandshakeStep::Unlock) => SessionState::Connected,
            Phase::Handshake(_) => SessionState::Unlocked,
            Phase::Streaming => SessionState::Streaming,
            Phase::Terminated(reason) => SessionState::Terminated(reason),
        }
    }

    /// The session holds a device handle exactly while it is connected.
    pub open spec fn wf(self) -> bool {
        self.handle is Some <==> (self.phase is Handshake || self.phase is Streaming)
    }

    /// The pipeline that decodes this session's notifications.
    pub open spec fn pipeline(self) -> Pipeline {
        Pipeline { source: API_V2, mode: self.config.framing_mode }
    }

    /// Whether the session has subscribed to notifications.
    pub open spec fn subscribed(self) -> bool {
        self.phase == Phase::Handshake(HandshakeStep::Configure) || self.phase is Streaming
    }

    /// This session, ended for `reason`, its device handle given up.
    pub open spec fn ended(self, reason: SessionError) -> SessionView {
        SessionView { phase: Phase::Terminated(reason), handle: None, ..self }
    }

    /// This session in another phase.
    pub open spec fn moved_to(self, phase: Phase) -> SessionView {
        SessionView { phase, ..self }
    }
}

/// Position of a state in the order `Disconnected`, `Connected`, `Unlocked`,
/// `Streaming`, `Terminated`.
pub open spec fn state_rank(state: SessionState) -> nat {
    match state {
        SessionState::Disconnected => 0,
        SessionState::Connected => 1,
        SessionState::Unlocked => 2,
        SessionState::Streaming => 3,
        SessionState::Terminated(_) => 4,
    }
}

/// The step that asks for `action` and gives no item.
pub open spec fn ask(action: ActionView) -> StepView {
    StepView { action, item: None }
}

/// The reply that an event carries to a pending handshake request.
pub open spec fn reply_of(event: EventView) -> Option<Reply> {
    match event {
        EventView::Completed => Some(Reply::Completed),
        EventView::Failed => Some(Reply::Failed),
        EventView::TimedOut => Some(Reply::TimedOut),
        _ => None,
    }
}

/// The action that follows a cancellation: one unsubscription where the
/// session had subscribed, else nothing.
pub open spec fn teardown_action(session: SessionView) -> ActionView {
    if session.subscribed() {
        ActionView::Unsubscribe { characteristic: API_V2 }
    } else {
        ActionView::Halt
    }
}

/// The rule while the outcome of connecting is awaited.
pub open spec fn on_connecting(session: SessionView, event: EventView) -> (SessionView, StepView) {
    match event {
        EventView::Connected { handle, characteristics } => (
            SessionView {
                phase: Phase::Handshake(HandshakeStep::Unlock),
                handle: Some(handle),
                characteristics,
                ..session
            },
            ask(
                ActionView::Perform {
                    request: unlock_request(session.config.unlock_payload),
                    timeout_ms: session.config.handshake_timeout_ms,
                },
            ),
        ),
        EventView::Failed => (
            session.ended(SessionError::Connect(ConnectError::Failed)),
            ask(ActionView::Halt),
        ),
        EventView::TimedOut => (
            session.ended(SessionError::Connect(ConnectError::Timeout)),
            ask(ActionView::Halt),
        ),
        EventView::Cancel => (session.ended(SessionError::Cancelled), ask(ActionView::Halt)),
        _ => (session.ended(SessionError::UnexpectedEvent), ask(ActionView::Halt)),
    }
}

/// The rule while the reply to a handshake request is awaited.
pub open spec fn on_handshake(session: SessionView, step: HandshakeStep, event: EventView) -> (
    SessionView,
    StepView,
) {
    match reply_of(event) {
        Some(reply) => match next_progress(
            step,
            reply,
            advertises_notify(session.characteristics, API_V2),
            session.config.sensor_mask,
        ) {
            ProgressView::Continue { step: next, request } => (
                session.moved_to(Phase::Handshake(next)),
                ask(
                    ActionView::Perform {
                        request,
                        timeout_ms: session.config.handshake_timeout_ms,
                    },
                ),
            ),
            ProgressView::Done => (session.moved_to(Phase::Streaming), ask(ActionView::Listen)),
            ProgressView::Failed(error) => (
                session.ended(SessionError::Handshake(error)),
                ask(ActionView::Halt),
            ),
        },
        None => match event {
            EventView::Cancel => (
                session.ended(SessionError::Cancelled),
                ask(teardown_action(session)),
            ),
            _ => (session.ended(SessionError::UnexpectedEvent), ask(ActionView::Halt)),
        },
    }
}

/// The rule while streaming.
pub open spec fn on_streaming(session: SessionView, event: EventView) -> (SessionView, StepView) {
    match event {
        EventView::Notification(notification) => (
            session,
            StepView {
                action: ActionView::Listen,
                item: session.pipeline().item_of(notification),
            },
        ),
        EventView::StreamEnded => (
            session.ended(SessionError::Disconnected),
            ask(ActionView::Halt),
        ),
        EventView::Cancel => (
            session.ended(SessionError::Cancelled),
            ask(teardown_action(session)),
        ),
        _ => (session.ended(SessionError::UnexpectedEvent), ask(ActionView::Halt)),
    }
}

/// The session's rule: the session after `event` and the step it gives.
pub open spec fn transition(session: SessionView, event: EventView) -> (SessionView, StepView) {
    match session.phase {
        Phase::Connecting => on_connecting(session, event),
        Phase::Handshake(step) => on_handshake(session, step, event),
        Phase::Streaming => on_streaming(session, event),
        Phase::Terminated(reason) => (session.ended(reason), ask(ActionView::Halt)),
    }
}

/// The session after a run of events.
pub open spec fn run(session: SessionView, events: Seq<EventView>) -> SessionView
    decreases events.len(),
{
    if events.len() == 0 {
        session
    } else {
        run(transition(session, events.first()).0, events.drop_first())
    }
}

/// The steps that a run of events gives, one for each event.
pub open spec fn steps_of(session: SessionView, events: Seq<EventView>) -> Seq<StepView>
    decreases events.len(),
{
    if events.len() == 0 {
        Seq::empty()
    } else {
        seq![transition(session, events.first()).1] + steps_of(
            transition(session, events.first()).0,
            events.drop_first(),
        )
    }
}

/// The items that a run of steps gave, in the order of the steps.
pub open spec fn items_in(steps: Seq<StepView>) -> Seq<Result<SensorSample, DecodeError>>
    decreases steps.len(),
{
    if steps.len() == 0 {
        Seq::empty()
    } else {
        let before = items_in(steps.drop_last());
        match steps.last().item {
            Some(item) => before.push(item),
            None => before,
        }
    }
}

/// A run of notifications, as the events that report them.
pub open spec fn notification_events(notifications: Seq<NotificationView>) -> Seq<EventView> {
    Seq::new(notifications.len(), |i: int| EventView::Notification(notifications[i]))
}

/// A session that has just been opened: not connected, no characteristic
/// known.
pub open spec fn opened(device: DeviceId, config: ConfigView) -> SessionView {
    SessionView {
        device,
        config,
        phase: Phase::Connecting,
        handle: None,
        characteristics: Map::empty(),
    }
}

/// Opens a session for `device`. The session starts in `Disconnected` and
/// asks first for the connection, within the configured time.
pub fn open_session(device: DeviceId, config: SessionConfig) -> (start: (Session, Action))
    ensures
        start.0@ == opened(device, config@),
        start.0@.wf(),
        start.1@ == (ActionView::Connect { device, timeout_ms: config.connect_timeout_ms }),
{
    let action = Action::Connect { device, timeout_ms: config.connect_timeout_ms };
    let session = Session {
        device,
        config,
        phase: Phase::Connecting,
        handle: None,
        characteristics: CharacteristicTable::new(),
    };
    (session, action)
}

impl Session {
    /// The state that the session is in.
    pub fn state(&self) -> (state: SessionState)
        ensures
            state == self@.state(),
    {
        match self.phase {
            Phase::Connecting => SessionState::Disconnected,
            Phase::Handshake(HandshakeStep::Unlock) => SessionState::Connected,
            Phase::Handshake(_) => SessionState::Unlocked,
            Phase::Streaming => SessionState::Streaming,
            Phase::Terminated(reason) => SessionState::Terminated(reason),
        }
    }

    /// What the session is waiting for.
    pub fn phase(&self) -> (phase: Phase)
        ensures
            phase == self@.phase,
    {
        self.phase
    }

    /// The device handle, while the session holds one.
    pub fn handle(&self) -> (handle: Option<DeviceHandle>)
        ensures
            handle == self@.handle,
    {
        self.handle
    }

    /// The peripheral that the session was opened for.
    pub fn device(&self) -> (device: DeviceId)
        ensures
            device == self@.device,
    {
        self.device
    }

    /// What the caller chose for this session.
    pub fn config(&self) -> (config: &SessionConfig)
        ensures
            config@ == self@.config,
    {
        &self.config
    }

    /// The pipeline that decodes this session's notifications.
    pub fn pipeline(&self) -> (pipeline: Pipeline)
        ensures
            pipeline == self@.pipeline(),
    {
        Pipeline::new(API_V2, self.config.framing_mode)
    }

    /// Ends the session for `reason` and gives up the device handle.
    fn end(&mut self, reason: SessionError)
        ensures
            final(self)@ == old(self)@.ended(reason),
    {
        self.phase = Phase::Terminated(reason);
        self.handle = None;
    }

    /// Ends the session because the caller stopped consuming.
    fn cancel(&mut self) -> (step: Step)
        ensures
            final(self)@ == old(self)@.ended(SessionError::Cancelled),
            step@ == ask(teardown_action(old(self)@)),
    {
        let subscribed = match self.phase {
            Phase::Handshake(HandshakeStep::Configure) => true,
            Phase::Streaming => true,
            _ => false,
        };
        self.end(SessionError::Cancelled);
        if subscribed {
            Step { action: Action::Unsubscribe { characteristic: API_V2 }, item: None }
        } else {
            Step { action: Action::Halt, item: None }
        }
    }

    /// Ends the session for `reason` and asks for nothing more.
    fn halt(&mut self, reason: SessionError) -> (step: Step)
        ensures
            final(self)@ == old(self)@.ended(reason),
            step@ == ask(ActionView::Halt),
    {
        self.end(reason);
        Step { action: Action::Halt, item: None }
    }

    /// Takes one event and says what to do next, as [`transition`] rules.
    ///
    /// The state never moves backward, a session that has ended stays ended
    /// and asks for nothing, and a session that ends holds no device handle.
    pub fn step(&mut self, event: Event) -> (step: Step)
        ensures
            (final(self)@, step@) == transition(old(self)@, event@),
            old(self)@.wf() ==> final(self)@.wf(),
            state_rank(final(self)@.state()) >= state_rank(old(self)@.state()),
            final(self)@.state() is Terminated ==> final(self)@.handle is None,
            old(self)@.state() is Terminated ==> step@ == ask(ActionView::Halt),
            old(self)@.state() is Terminated ==> final(self)@.state() == old(self)@.state(),
    {
        match self.phase {
            Phase::Terminated(reason) => self.halt(reason),
            Phase::Connecting => match event {
                Event::Connected { handle, characteristics } => {
                    self.phase = Phase::Handshake(HandshakeStep::Unlock);
                    self.handle = Some(handle);
                    self.characteristics = characteristics;
                    let request = begin(self.config.unlock_payload.as_slice());
                    Step {
                        action: Action::Perform {
                            request,
                            timeout_ms: self.config.handshake_timeout_ms,
                        },
                        item: None,
                    }
                },
                Event::Failed => self.halt(SessionError::Connect(ConnectError::Failed)),
                Event::TimedOut => self.halt(SessionError::Connect(ConnectError::Timeout)),
                Event::Cancel => self.cancel(),
                _ => self.halt(SessionError::UnexpectedEvent),
            },
            Phase::Handshake(current) => {
                let reply = match event {
                    Event::Completed => Reply::Completed,
                    Event::Failed => Reply::Failed,
                    Event::TimedOut => Reply::TimedOut,
                    Event::Cancel => {
                        return self.cancel();
                    },
                    _ => {
                        return self.halt(SessionError::UnexpectedEvent);
                    },
                };
                let progress = advance(
                    current,
                    reply,
                    &self.characteristics,
                    self.config.sensor_mask.as_slice(),
                );
                match progress {
                    Progress::Continue { step: next, request } => {
                        self.phase = Phase::Handshake(next);
                        Step {
                            action: Action::Perform {
                                request,
                                timeout_ms: self.config.handshake_timeout_ms,
                            },
                            item: None,
                        }
                    },
                    Progress::Done => {
                        self.phase = Phase::Streaming;
                        Step { action: Action::Listen, item: None }
                    },
                    Progress::Failed(error) => self.halt(SessionError::Handshake(error)),
                }
            },
            Phase::Streaming => match event {
                Event::Notification(notification) => {
                    let item = self.pipeline().process(&notification);
                    Step { action: Action::Listen, item }
                },
                Event::StreamEnded => self.halt(SessionError::Disconnected),
                Event::Cancel => self.cancel(),
                _ => self.halt(SessionError::UnexpectedEvent),
            },
        }
    }
}

/// A run gives one step for each event.
pub proof fn lemma_one_step_per_event(session: SessionView, events: Seq<EventView>)
    ensures
        steps_of(session, events).len() == events.len(),
    decreases events.len(),
{
    if events.len() > 0 {
        lemma_one_step_per_event(transition(session, events.first()).0, events.drop_first());
    }
}

/// A session that has ended stays ended, for the same reason, whatever is
/// reported to it, and asks for nothing more.
pub proof fn lemma_ended_session_is_inert(session: SessionView, events: Seq<EventView>)
    requires
        session.phase is Terminated,
    ensures
        run(session, events).state() == session.state(),
        steps_of(session, events).len() == events.len(),
        forall|i: int|
            0 <= i < events.len() ==> #[trigger] steps_of(session, events)[i] == ask(
                ActionView::Halt,
            ),
    decreases events.len(),
{
    lemma_one_step_per_event(session, events);
    if events.len() > 0 {
        let next = transition(session, events.first()).0;
        lemma_ended_session_is_inert(next, events.drop_first());
        lemma_one_step_per_event(next, events.drop_first());
        assert forall|i: int| 0 <= i < events.len() implies #[trigger] steps_of(session, events)[i]
            == ask(ActionView::Halt) by {
            if i > 0 {
                assert(steps_of(session, events)[i] == steps_of(next, events.drop_first())[i - 1]);
            }
        }
    }
}

/// Fail-fast: when the reply to a handshake request is a failure or a
/// timeout, the session ends at once, and neither that step nor any later
/// one asks for a subscription, a write or anything else.
pub proof fn lemma_failed_request_ends_session(session: SessionView, events: Seq<EventView>)
    requires
        session.phase is Handshake,
        events.len() > 0,
        events[0] == EventView::Failed || events[0] == EventView::TimedOut,
    ensures
        run(session, events).state() is Terminated,
        session.phase == Phase::Handshake(HandshakeStep::Unlock) && events[0] == EventView::Failed
            ==> run(session, events).state() == SessionState::Terminated(
            SessionError::Handshake(HandshakeError::UnlockWriteFailed),
        ),
        steps_of(session, events).len() == events.len(),
        forall|i: int|
            0 <= i < events.len() ==> #[trigger] steps_of(session, events)[i] == ask(
                ActionView::Halt,
            ),
{
    let next = transition(session, events.first()).0;
    let rest = events.drop_first();
    lemma_one_step_per_event(session, events);
    lemma_one_step_per_event(next, rest);
    lemma_ended_session_is_inert(next, rest);
    assert forall|i: int| 0 <= i < events.len() implies #[trigger] steps_of(session, events)[i]
        == ask(ActionView::Halt) by {
        if i > 0 {
            assert(steps_of(session, events)[i] == steps_of(next, rest)[i - 1]);
        }
    }
}

/// Cancellation: when the caller stops consuming, the session ends at once.
/// That step asks for one unsubscription where the session had subscribed
/// and for nothing otherwise; every later step asks for nothing. So a
/// cancelled session causes at most one unsubscription and no write.
pub proof fn lemma_cancel_tears_down(session: SessionView, events: Seq<EventView>)
    requires
        events.len() > 0,
        events[0] == EventView::Cancel,
    ensures
        run(session, events).state() is Terminated,
        steps_of(session, events).len() == events.len(),
        steps_of(session, events)[0].action == ActionView::Halt || steps_of(
            session,
            events,
        )[0].action == (ActionView::Unsubscribe { characteristic: API_V2 }),
        forall|i: int|
            1 <= i < events.len() ==> #[trigger] steps_of(session, events)[i] == ask(
                ActionView::Halt,
            ),
        forall|i: int|
            0 <= i < events.len() ==> !(#[trigger] steps_of(session, events)[i].action is Perform),
{
    let next = transition(session, events.first()).0;
    let rest = events.drop_first();
    lemma_one_step_per_event(session, events);
    lemma_one_step_per_event(next, rest);
    lemma_ended_session_is_inert(next, rest);
    assert forall|i: int| 1 <= i < events.len() implies #[trigger] steps_of(session, events)[i]
        == ask(ActionView::Halt) by {
        assert(steps_of(session, events)[i] == steps_of(next, rest)[i - 1]);
    }
}

/// Forward only: over any run of events the state never moves backward in
/// the order `Disconnected`, `Connected`, `Unlocked`, `Streaming`,
/// `Terminated`.
pub proof fn lemma_state_only_advances(session: SessionView, events: Seq<EventView>)
    ensures
        state_rank(run(session, events).state()) >= state_rank(session.state()),
    decreases events.len(),
{
    if events.len() > 0 {
        lemma_state_only_advances(transition(session, events.first()).0, events.drop_first());
    }
}

/// Over any run of events the session holds a device handle exactly while
/// it is connected; a session that has ended holds none.
pub proof fn lemma_handle_follows_connection(session: SessionView, events: Seq<EventView>)
    requires
        session.wf(),
    ensures
        run(session, events).wf(),
        run(session, events).state() is Terminated ==> run(session, events).handle is None,
    decreases events.len(),
{
    if events.len() > 0 {
        lemma_handle_follows_connection(
            transition(session, events.first()).0,
            events.drop_first(),
        );
    }
}

/// Strict order: each request is asked for only when the step before it
/// completed. The unlock write follows the connection, the subscription
/// follows the completed unlock write, and the sensor-mask write follows the
/// completed subscription.
pub proof fn lemma_requests_in_order(session: SessionView, event: EventView)
    ensures
        transition(session, event).1.action matches ActionView::Perform { request, .. } ==> {
            ||| session.phase is Connecting && event is Connected && request == unlock_request(
                session.config.unlock_payload,
            )
            ||| session.phase == Phase::Handshake(HandshakeStep::Unlock) && event
                == EventView::Completed && request == subscribe_request()
            ||| session.phase == Phase::Handshake(HandshakeStep::Subscribe) && event
                == EventView::Completed && request == configure_request(session.config.sensor_mask)
        },
{
}

/// An item is given only while streaming, and only for a notification of
/// `API_V2`.
pub proof fn lemma_items_only_while_streaming(session: SessionView, event: EventView)
    ensures
        transition(session, event).1.item is Some ==> {
            &&& session.phase is Streaming
            &&& event matches EventView::Notification(notification)
            &&& notification.characteristic == API_V2
        },
{
}

/// A run of events can be taken in two parts: the second part continues
/// from the session that the first part left.
pub proof fn lemma_run_in_parts(session: SessionView, first: Seq<EventView>, second: Seq<EventView>)
    ensures
        run(session, first + second) == run(run(session, first), second),
        steps_of(session, first + second) == steps_of(session, first) + steps_of(
            run(session, first),
            second,
        ),
    decreases first.len(),
{
    if first.len() == 0 {
        assert(first + second =~= second);
        assert(steps_of(session, first) + steps_of(session, second) =~= steps_of(session, second));
    } else {
        let whole = first + second;
        let next = transition(session, first.first()).0;
        assert(whole.first() == first.first());
        assert(whole.drop_first() =~= first.drop_first() + second);
        lemma_run_in_parts(next, first.drop_first(), second);
        assert(steps_of(session, whole) =~= steps_of(session, first) + steps_of(
            run(session, first),
            second,
        ));
    }
}

/// While streaming, the samples of a session are the pipeline's output: a
/// run of notifications leaves the session streaming, and the items of its
/// steps are the pipeline's items for those notifications, in their order.
pub proof fn lemma_samples_follow_notifications(
    session: SessionView,
    notifications: Seq<NotificationView>,
)
    requires
        session.phase is Streaming,
    ensures
        run(session, notification_events(notifications)) == session,
        items_in(steps_of(session, notification_events(notifications)))
            == session.pipeline().items_of(notifications),
    decreases notifications.len(),
{
    let events = notification_events(notifications);
    if notifications.len() == 0 {
        assert(steps_of(session, events).len() == 0);
    } else {
        let earlier = notifications.drop_last();
        let last = notifications.last();
        let last_event = seq![EventView::Notification(last)];
        lemma_samples_follow_notifications(session, earlier);
        assert(events =~= notification_events(earlier) + last_event);
        lemma_run_in_parts(session, notification_events(earlier), last_event);
        let last_step = transition(session, EventView::Notification(last)).1;
        assert(last_event.first() == EventView::Notification(last));
        assert(last_event.drop_first().len() == 0);
        assert(run(session, last_event.drop_first()) == session);
        assert(steps_of(session, last_event.drop_first()).len() == 0);
        assert(run(session, last_event) == session);
        assert(steps_of(session, last_event) =~= seq![last_step]);
        let steps = steps_of(session, events);
        assert(steps =~= steps_of(session, notification_events(earlier)).push(last_step));
        assert(steps.drop_last() =~= steps_of(session, notification_events(earlier)));
        assert(steps.last() == last_step);
    }
}

} // verus!
