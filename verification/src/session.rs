//! One connection attempt as a state machine. The caller owns the socket, the
//! timer and the sink: it reports what happened as a `SessionEvent`, and the
//! session answers with the actions to perform, in order.

use crate::event::{dispatched, handle_dispatch_event, GatewayEvent, GatewayEventView};
use crate::frame::{Frame, FrameError, FrameView};
use crate::heartbeat::{initial_heartbeat, HeartbeatState};
use crate::message::{
    decode_frame, decoded, message_result_view, Message, MessageKind, MessageKindView, MessageView,
};
use crate::outbound::{encode_identify, heartbeat_frame, identify_frame};
use vstd::prelude::*;
use vstd::string::StringExecFns;

verus! {

/// Where the transport is opened: protocol version 10, JSON encoding.
pub const GATEWAY_URL: &'static str = "wss://gateway.discord.gg/?v=10&encoding=json";

/// The life of a connection.
#[derive(Clone, Copy, Debug, PartialEq, Eq, Structural)]
pub enum ConnectionState {
    /// No socket.
    Idle,
    /// The socket is being opened or is open; the hello and the identify are
    /// under way.
    Handshaking,
    /// The credentials have been sent.
    Identified,
    /// Events are being exchanged.
    Active,
    /// The session is shutting down.
    Closing,
}

/// Which side of the transport failed.
#[derive(Clone, Copy, Debug, PartialEq, Eq, Structural)]
pub enum TransportFault {
    /// The socket could not be opened.
    Connect,
    /// A read failed.
    Read,
    /// A write failed.
    Write,
}

/// What the caller reports to the session.
#[derive(Clone, Debug, PartialEq, Eq)]
pub enum SessionEvent {
    /// The supervisor asks for a connection.
    ConnectRequested,
    /// A data frame arrived.
    FrameReceived(Frame),
    /// The server's close frame arrived.
    CloseReceived,
    /// The stream of inbound frames ended without a close frame.
    StreamEnded,
    /// The transport failed; `detail` is the transport's own description.
    TransportFailed { fault: TransportFault, detail: String },
    /// The identify envelope has been written to the socket.
    IdentifySent,
    /// The heartbeat timer fired.
    HeartbeatDue,
    /// The supervisor's shutdown signal arrived.
    ShutdownRequested,
    /// The socket is closed and the timer stopped.
    CleanupComplete,
}

/// What the session asks of the caller.
#[derive(Clone, Debug, PartialEq, Eq)]
pub enum Action {
    /// Open the transport at `GATEWAY_URL`.
    OpenTransport,
    /// Start the heartbeat timer at this cadence.
    StartHeartbeat { interval_ms: u64 },
    /// Send this text frame, and report `IdentifySent` once it is written.
    SendIdentify(String),
    /// Send this text frame.
    SendHeartbeat(String),
    /// Send a close frame.
    SendClose,
    /// The last heartbeat was never acknowledged: warn of a zombie connection.
    WarnZombie,
    /// Write the connection flag.
    SetConnected(bool),
    /// Push this event to the sink.
    Emit(GatewayEvent),
}

/// What an event holds.
pub enum SessionEventView {
    ConnectRequested,
    FrameReceived(FrameView),
    CloseReceived,
    StreamEnded,
    TransportFailed { fault: TransportFault, detail: Seq<char> },
    IdentifySent,
    HeartbeatDue,
    ShutdownRequested,
    CleanupComplete,
}

/// What an action holds.
pub enum ActionView {
    OpenTransport,
    StartHeartbeat { interval_ms: u64 },
    SendIdentify(Seq<char>),
    SendHeartbeat(Seq<char>),
    SendClose,
    WarnZombie,
    SetConnected(bool),
    Emit(GatewayEventView),
}

impl View for SessionEvent {
    type V = SessionEventView;

    open spec fn view(&self) -> SessionEventView {
        match self {
            SessionEvent::ConnectRequested => SessionEventView::ConnectRequested,
            SessionEvent::FrameReceived(frame) => SessionEventView::FrameReceived(frame@),
            SessionEvent::CloseReceived => SessionEventView::CloseReceived,
            SessionEvent::StreamEnded => SessionEventView::StreamEnded,
            SessionEvent::TransportFailed { fault, detail } => SessionEventView::TransportFailed {
                fault: *fault,
                detail: detail@,
            },
            SessionEvent::IdentifySent => SessionEventView::IdentifySent,
            SessionEvent::HeartbeatDue => SessionEventView::HeartbeatDue,
            SessionEvent::ShutdownRequested => SessionEventView::ShutdownRequested,
            SessionEvent::CleanupComplete => SessionEventView::CleanupComplete,
        }
    }
}

impl View for Action {
    type V = ActionView;

    open spec fn view(&self) -> ActionView {
        match self {
            Action::OpenTransport => ActionView::OpenTransport,
            Action::StartHeartbeat { interval_ms } => ActionView::StartHeartbeat {
                interval_ms: *interval_ms,
            },
            Action::SendIdentify(frame) => ActionView::SendIdentify(frame@),
            Action::SendHeartbeat(frame) => ActionView::SendHeartbeat(frame@),
            Action::SendClose => ActionView::SendClose,
            Action::WarnZombie => ActionView::WarnZombie,
            Action::SetConnected(flag) => ActionView::SetConnected(*flag),
            Action::Emit(event) => ActionView::Emit(event@),
        }
    }
}

/// The views of a run of actions, in order.
pub open spec fn action_views(actions: Seq<Action>) -> Seq<ActionView> {
    actions.map_values(|action: Action| action@)
}

/// What a session holds.
pub struct SessionView {
    /// Where in its life the connection is.
    pub state: ConnectionState,
    /// The credential for the identify envelope.
    pub token: Seq<char>,
    /// Whether the server's hello has been recorded.
    pub hello_received: bool,
    /// The scheduler's state.
    pub heartbeat: HeartbeatState,
    /// The highest sequence number seen on this connection.
    pub last_sequence: Option<u64>,
}

/// An event as the session reads it: a frame is taken by what it decodes to.
pub enum Input {
    ConnectRequested,
    Decoded(Result<MessageView, FrameError>),
    CloseReceived,
    StreamEnded,
    TransportFailed { fault: TransportFault, detail: Seq<char> },
    IdentifySent,
    HeartbeatDue,
    ShutdownRequested,
    CleanupComplete,
}

/// Reads an event.
pub open spec fn interpret(event: SessionEventView) -> Input {
    match event {
        SessionEventView::ConnectRequested => Input::ConnectRequested,
        SessionEventView::FrameReceived(frame) => Input::Decoded(decoded(frame)),
        SessionEventView::CloseReceived => Input::CloseReceived,
        SessionEventView::StreamEnded => Input::StreamEnded,
        SessionEventView::TransportFailed { fault, detail } => Input::TransportFailed {
            fault,
            detail,
        },
        SessionEventView::IdentifySent => Input::IdentifySent,
        SessionEventView::HeartbeatDue => Input::HeartbeatDue,
        SessionEventView::ShutdownRequested => Input::ShutdownRequested,
        SessionEventView::CleanupComplete => Input::CleanupComplete,
    }
}

/// A session that has not been asked to connect.
pub open spec fn idle_session(token: Seq<char>) -> SessionView {
    SessionView {
        state: ConnectionState::Idle,
        token,
        hello_received: false,
        heartbeat: initial_heartbeat(None),
        last_sequence: None,
    }
}

/// A session with a transport: anywhere from the connect request to the
/// moment shutdown begins.
pub open spec fn live(session: SessionView) -> bool {
    session.state == ConnectionState::Handshaking || session.state == ConnectionState::Identified
        || session.state == ConnectionState::Active
}

/// A live session that still waits for the server's hello.
pub open spec fn awaiting_hello(session: SessionView) -> bool {
    session.state == ConnectionState::Handshaking && !session.hello_received
}

/// The last sequence after an envelope: the larger of what was known and what
/// the envelope carries.
pub open spec fn advance(last_sequence: Option<u64>, carried: Option<u64>) -> Option<u64> {
    match (last_sequence, carried) {
        (Some(known), Some(sequence)) => if sequence > known {
            Some(sequence)
        } else {
            Some(known)
        },
        (None, Some(sequence)) => Some(sequence),
        (_, None) => last_sequence,
    }
}

/// The session ends on a fault: it starts closing and the sink hears why.
pub open spec fn fail(session: SessionView, reason: Seq<char>) -> (SessionView, Seq<ActionView>) {
    (
        SessionView { state: ConnectionState::Closing, ..session },
        seq![ActionView::Emit(GatewayEventView::GatewayError(reason))],
    )
}

/// The event is of no concern in this state.
pub open spec fn ignore(session: SessionView) -> (SessionView, Seq<ActionView>) {
    (session, Seq::empty())
}

/// The reason reported for a transport fault.
pub open spec fn fault_reason(session: SessionView, fault: TransportFault, detail: Seq<char>) -> Seq<
    char,
> {
    match fault {
        TransportFault::Connect => "WebSocket connection failed: "@ + detail,
        TransportFault::Read => if awaiting_hello(session) {
            "Error reading HELLO: "@ + detail
        } else {
            "WebSocket error: "@ + detail
        },
        TransportFault::Write => if session.state == ConnectionState::Handshaking {
            "Failed to send IDENTIFY: "@ + detail
        } else {
            "Failed to send heartbeat: "@ + detail
        },
    }
}

/// An idle session starts handshaking and asks for the transport.
pub open spec fn on_connect(session: SessionView) -> (SessionView, Seq<ActionView>) {
    if session.state == ConnectionState::Idle {
        (
            SessionView { state: ConnectionState::Handshaking, ..idle_session(session.token) },
            seq![ActionView::OpenTransport],
        )
    } else {
        ignore(session)
    }
}

/// The first frame has to be the hello: its cadence is recorded, the
/// scheduler started and the identify sent. Anything else ends the session.
pub open spec fn on_first_frame(session: SessionView, frame: Result<MessageView, FrameError>) -> (
    SessionView,
    Seq<ActionView>,
) {
    match frame {
        Ok(MessageView { sequence, kind: MessageKindView::Hello { heartbeat_interval } }) => {
            let heartbeat = initial_heartbeat(heartbeat_interval);
            (
                SessionView {
                    hello_received: true,
                    heartbeat,
                    last_sequence: advance(session.last_sequence, sequence),
                    ..session
                },
                seq![
                    ActionView::StartHeartbeat { interval_ms: heartbeat.interval_ms },
                    ActionView::SendIdentify(identify_frame(session.token)),
                ],
            )
        },
        _ => fail(session, "Expected HELLO"@),
    }
}

/// An envelope after the hello. Its sequence number is recorded; the first
/// one after the identify makes the session active; then its kind decides.
pub open spec fn on_message(session: SessionView, message: MessageView) -> (
    SessionView,
    Seq<ActionView>,
) {
    let seen = SessionView {
        state: if session.state == ConnectionState::Identified {
            ConnectionState::Active
        } else {
            session.state
        },
        last_sequence: advance(session.last_sequence, message.sequence),
        ..session
    };
    match message.kind {
        MessageKindView::Dispatch { event_type, data } => match dispatched(event_type, data) {
            Some(event) => (seen, seq![ActionView::Emit(event)]),
            None => ignore(seen),
        },
        MessageKindView::HeartbeatAck => ignore(
            SessionView { heartbeat: HeartbeatState { acked: true, ..seen.heartbeat }, ..seen },
        ),
        MessageKindView::Reconnect => fail(seen, "Reconnect requested"@),
        MessageKindView::InvalidSession => fail(seen, "invalid session"@),
        _ => ignore(seen),
    }
}

/// A frame, decoded or not. A frame that does not decode is dropped and the
/// connection goes on, unless the hello is still owed.
pub open spec fn on_decoded(session: SessionView, frame: Result<MessageView, FrameError>) -> (
    SessionView,
    Seq<ActionView>,
) {
    if !live(session) {
        ignore(session)
    } else if awaiting_hello(session) {
        on_first_frame(session, frame)
    } else {
        match frame {
            Ok(message) => on_message(session, message),
            Err(_) => ignore(session),
        }
    }
}

/// The server closed the connection.
pub open spec fn on_close(session: SessionView) -> (SessionView, Seq<ActionView>) {
    if !live(session) {
        ignore(session)
    } else if awaiting_hello(session) {
        fail(session, "Connection closed immediately"@)
    } else {
        fail(session, "Gateway closed"@)
    }
}

/// The stream ended without a close frame.
pub open spec fn on_stream_end(session: SessionView) -> (SessionView, Seq<ActionView>) {
    if live(session) {
        fail(session, "WebSocket stream ended"@)
    } else {
        ignore(session)
    }
}

/// The transport failed.
pub open spec fn on_fault(session: SessionView, fault: TransportFault, detail: Seq<char>) -> (
    SessionView,
    Seq<ActionView>,
) {
    if live(session) {
        fail(session, fault_reason(session, fault, detail))
    } else {
        ignore(session)
    }
}

/// The identify is on the wire: the handshake is complete.
pub open spec fn on_identify_sent(session: SessionView) -> (SessionView, Seq<ActionView>) {
    if session.state == ConnectionState::Handshaking && session.hello_received {
        (
            SessionView { state: ConnectionState::Identified, ..session },
            seq![
                ActionView::SetConnected(true),
                ActionView::Emit(GatewayEventView::Connected),
            ],
        )
    } else {
        ignore(session)
    }
}

/// The timer fired. A missing acknowledgement is reported and nothing more:
/// the flag is cleared and the heartbeat goes out with the last sequence.
pub open spec fn on_heartbeat_due(session: SessionView) -> (SessionView, Seq<ActionView>) {
    if live(session) && session.hello_received {
        let beat = ActionView::SendHeartbeat(heartbeat_frame(session.last_sequence));
        (
            SessionView {
                heartbeat: HeartbeatState { acked: false, ..session.heartbeat },
                ..session
            },
            if session.heartbeat.acked {
                seq![beat]
            } else {
                seq![ActionView::WarnZombie, beat]
            },
        )
    } else {
        ignore(session)
    }
}

/// The supervisor asked the session to stop: a close frame and no error.
pub open spec fn on_shutdown(session: SessionView) -> (SessionView, Seq<ActionView>) {
    if live(session) {
        (SessionView { state: ConnectionState::Closing, ..session }, seq![ActionView::SendClose])
    } else {
        ignore(session)
    }
}

/// The transport is gone: the flag is cleared, the sink hears that the
/// connection is lost, and what the session had learned is discarded.
pub open spec fn on_cleanup(session: SessionView) -> (SessionView, Seq<ActionView>) {
    if session.state == ConnectionState::Closing {
        (
            idle_session(session.token),
            seq![
                ActionView::SetConnected(false),
                ActionView::Emit(GatewayEventView::Disconnected),
            ],
        )
    } else {
        ignore(session)
    }
}

/// One step of the session: the state after `input`, and the actions it asks
/// for, in order.
pub open spec fn step(session: SessionView, input: Input) -> (SessionView, Seq<ActionView>) {
    match input {
        Input::ConnectRequested => on_connect(session),
        Input::Decoded(frame) => on_decoded(session, frame),
        Input::CloseReceived => on_close(session),
        Input::StreamEnded => on_stream_end(session),
        Input::TransportFailed { fault, detail } => on_fault(session, fault, detail),
        Input::IdentifySent => on_identify_sent(session),
        Input::HeartbeatDue => on_heartbeat_due(session),
        Input::ShutdownRequested => on_shutdown(session),
        Input::CleanupComplete => on_cleanup(session),
    }
}

/// One connection attempt, from the connect request to the end.
#[derive(Clone, Debug, PartialEq, Eq)]
pub struct Session {
    state: ConnectionState,
    token: String,
    hello_received: bool,
    heartbeat: HeartbeatState,
    last_sequence: Option<u64>,
}

impl View for Session {
    type V = SessionView;

    closed spec fn view(&self) -> SessionView {
        SessionView {
            state: self.state,
            token: self.token@,
            hello_received: self.hello_received,
            heartbeat: self.heartbeat,
            last_sequence: self.last_sequence,
        }
    }
}

/// Folds the sequence number of an envelope into the last one known.
pub fn advance_sequence(last_sequence: Option<u64>, carried: Option<u64>) -> (next: Option<u64>)
    ensures
        next == advance(last_sequence, carried),
{
    match (last_sequence, carried) {
        (Some(known), Some(sequence)) => if sequence > known {
            Some(sequence)
        } else {
            Some(known)
        },
        (None, Some(sequence)) => Some(sequence),
        (_, None) => last_sequence,
    }
}

impl Session {
    /// A session for `token`, idle until asked to connect.
    pub fn new(token: String) -> (session: Session)
        ensures
            session@ == idle_session(token@),
    {
        Session {
            state: ConnectionState::Idle,
            token,
            hello_received: false,
            heartbeat: HeartbeatState::from_hello(None),
            last_sequence: None,
        }
    }

    /// Where in its life the connection is.
    pub fn state(&self) -> (state: ConnectionState)
        ensures
            state == self@.state,
    {
        self.state
    }

    /// The highest sequence number seen on this connection.
    pub fn last_sequence(&self) -> (sequence: Option<u64>)
        ensures
            sequence == self@.last_sequence,
    {
        self.last_sequence
    }

    /// The scheduler's state: the cadence and the liveness flag.
    pub fn heartbeat(&self) -> (heartbeat: HeartbeatState)
        ensures
            heartbeat == self@.heartbeat,
    {
        self.heartbeat
    }

    /// Whether the server's hello has been recorded.
    pub fn hello_received(&self) -> (received: bool)
        ensures
            received == self@.hello_received,
    {
        self.hello_received
    }

    fn is_live(&self) -> (yes: bool)
        ensures
            yes == live(self@),
    {
        self.state == ConnectionState::Handshaking || self.state == ConnectionState::Identified
            || self.state == ConnectionState::Active
    }

    fn is_awaiting_hello(&self) -> (yes: bool)
        ensures
            yes == awaiting_hello(self@),
    {
        self.state == ConnectionState::Handshaking && !self.hello_received
    }

    /// Ends the session on a fault.
    fn fail_with(&mut self, reason: String) -> (actions: Vec<Action>)
        ensures
            (final(self)@, action_views(actions@)) == fail(old(self)@, reason@),
    {
        self.state = ConnectionState::Closing;
        let mut actions: Vec<Action> = Vec::new();
        actions.push(Action::Emit(GatewayEvent::GatewayError(reason)));
        assert(action_views(actions@) =~= fail(old(self)@, reason@).1);
        actions
    }

    fn no_actions(&self) -> (actions: Vec<Action>)
        ensures
            action_views(actions@) == Seq::<ActionView>::empty(),
    {
        let actions: Vec<Action> = Vec::new();
        assert(action_views(actions@) =~= Seq::<ActionView>::empty());
        actions
    }

    fn connect(&mut self) -> (actions: Vec<Action>)
        ensures
            (final(self)@, action_views(actions@)) == on_connect(old(self)@),
    {
        if self.state == ConnectionState::Idle {
            self.state = ConnectionState::Handshaking;
            self.hello_received = false;
            self.heartbeat = HeartbeatState::from_hello(None);
            self.last_sequence = None;
            let mut actions: Vec<Action> = Vec::new();
            actions.push(Action::OpenTransport);
            assert(action_views(actions@) =~= on_connect(old(self)@).1);
            actions
        } else {
            self.no_actions()
        }
    }

    fn first_frame(&mut self, frame: Result<Message, FrameError>) -> (actions: Vec<Action>)
        ensures
            (final(self)@, action_views(actions@)) == on_first_frame(
                old(self)@,
                message_result_view(frame),
            ),
    {
        match frame {
            Ok(Message { sequence, kind: MessageKind::Hello { heartbeat_interval } }) => {
                let heartbeat = HeartbeatState::from_hello(heartbeat_interval);
                self.hello_received = true;
                self.heartbeat = heartbeat;
                self.last_sequence = advance_sequence(self.last_sequence, sequence);
                let mut actions: Vec<Action> = Vec::new();
                actions.push(Action::StartHeartbeat { interval_ms: heartbeat.interval_ms });
                actions.push(Action::SendIdentify(encode_identify(self.token.as_str())));
                assert(action_views(actions@) =~= on_first_frame(
                    old(self)@,
                    message_result_view(frame),
                ).1);
                actions
            },
            _ => self.fail_with(String::from_str("Expected HELLO")),
        }
    }

    /// Takes one envelope that arrived after the hello: records its sequence
    /// number and acts on its kind.
    pub fn handle_message(&mut self, message: Message) -> (actions: Vec<Action>)
        ensures
            (final(self)@, action_views(actions@)) == on_message(old(self)@, message@),
    {
        if self.state == ConnectionState::Identified {
            self.state = ConnectionState::Active;
        }
        self.last_sequence = advance_sequence(self.last_sequence, message.sequence);
        match message.kind {
            MessageKind::Dispatch { event_type, data } => {
                match handle_dispatch_event(event_type.as_str(), data) {
                    Some(event) => {
                        let mut actions: Vec<Action> = Vec::new();
                        actions.push(Action::Emit(event));
                        assert(action_views(actions@) =~= on_message(old(self)@, message@).1);
                        actions
                    },
                    None => self.no_actions(),
                }
            },
            MessageKind::HeartbeatAck => {
                self.heartbeat.acknowledge();
                self.no_actions()
            },
            MessageKind::Reconnect => self.fail_with(String::from_str("Reconnect requested")),
            MessageKind::InvalidSession => self.fail_with(String::from_str("invalid session")),
            _ => self.no_actions(),
        }
    }

    /// Takes what one frame decoded to.
    pub fn receive(&mut self, frame: Result<Message, FrameError>) -> (actions: Vec<Action>)
        ensures
            (final(self)@, action_views(actions@)) == on_decoded(
                old(self)@,
                message_result_view(frame),
            ),
    {
        if !self.is_live() {
            self.no_actions()
        } else if self.is_awaiting_hello() {
            self.first_frame(frame)
        } else {
            match frame {
                Ok(message) => self.handle_message(message),
                Err(_) => self.no_actions(),
            }
        }
    }

    fn close_received(&mut self) -> (actions: Vec<Action>)
        ensures
            (final(self)@, action_views(actions@)) == on_close(old(self)@),
    {
        if !self.is_live() {
            self.no_actions()
        } else if self.is_awaiting_hello() {
            self.fail_with(String::from_str("Connection closed immediately"))
        } else {
            self.fail_with(String::from_str("Gateway closed"))
        }
    }

    fn stream_ended(&mut self) -> (actions: Vec<Action>)
        ensures
            (final(self)@, action_views(actions@)) == on_stream_end(old(self)@),
    {
        if self.is_live() {
            self.fail_with(String::from_str("WebSocket stream ended"))
        } else {
            self.no_actions()
        }
    }

    fn transport_failed(&mut self, fault: TransportFault, detail: String) -> (actions: Vec<Action>)
        ensures
            (final(self)@, action_views(actions@)) == on_fault(old(self)@, fault, detail@),
    {
        if self.is_live() {
            let head = match fault {
                TransportFault::Connect => "WebSocket connection failed: ",
                TransportFault::Read => if self.is_awaiting_hello() {
                    "Error reading HELLO: "
                } else {
                    "WebSocket error: "
                },
                TransportFault::Write => if self.state == ConnectionState::Handshaking {
                    "Failed to send IDENTIFY: "
                } else {
                    "Failed to send heartbeat: "
                },
            };
            let reason = String::from_str(head).concat(detail.as_str());
            self.fail_with(reason)
        } else {
            self.no_actions()
        }
    }

    fn identify_sent(&mut self) -> (actions: Vec<Action>)
        ensures
            (final(self)@, action_views(actions@)) == on_identify_sent(old(self)@),
    {
        if self.state == ConnectionState::Handshaking && self.hello_received {
            self.state = ConnectionState::Identified;
            let mut actions: Vec<Action> = Vec::new();
            actions.push(Action::SetConnected(true));
            actions.push(Action::Emit(GatewayEvent::Connected));
            assert(action_views(actions@) =~= on_identify_sent(old(self)@).1);
            actions
        } else {
            self.no_actions()
        }
    }

    fn heartbeat_due(&mut self) -> (actions: Vec<Action>)
        ensures
            (final(self)@, action_views(actions@)) == on_heartbeat_due(old(self)@),
    {
        if self.is_live() && self.hello_received {
            let tick = self.heartbeat.tick(self.last_sequence);
            let mut actions: Vec<Action> = Vec::new();
            if tick.missed_ack {
                actions.push(Action::WarnZombie);
            }
            actions.push(Action::SendHeartbeat(tick.frame));
            assert(action_views(actions@) =~= on_heartbeat_due(old(self)@).1);
            actions
        } else {
            self.no_actions()
        }
    }

    fn shutdown_requested(&mut self) -> (actions: Vec<Action>)
        ensures
            (final(self)@, action_views(actions@)) == on_shutdown(old(self)@),
    {
        if self.is_live() {
            self.state = ConnectionState::Closing;
            let mut actions: Vec<Action> = Vec::new();
            actions.push(Action::SendClose);
            assert(action_views(actions@) =~= on_shutdown(old(self)@).1);
            actions
        } else {
            self.no_actions()
        }
    }

    fn cleanup_complete(&mut self) -> (actions: Vec<Action>)
        ensures
            (final(self)@, action_views(actions@)) == on_cleanup(old(self)@),
    {
        if self.state == ConnectionState::Closing {
            self.state = ConnectionState::Idle;
            self.hello_received = false;
            self.heartbeat = HeartbeatState::from_hello(None);
            self.last_sequence = None;
            let mut actions: Vec<Action> = Vec::new();
            actions.push(Action::SetConnected(false));
            actions.push(Action::Emit(GatewayEvent::Disconnected));
            assert(action_views(actions@) =~= on_cleanup(old(self)@).1);
            actions
        } else {
            self.no_actions()
        }
    }

    /// Takes one event and answers with the actions to perform, in order. A
    /// frame is decoded first; every other event is taken as it is.
    pub fn step(&mut self, event: SessionEvent) -> (actions: Vec<Action>)
        ensures
            (final(self)@, action_views(actions@)) == step(old(self)@, interpret(event@)),
    {
        match event {
            SessionEvent::ConnectRequested => self.connect(),
            SessionEvent::FrameReceived(frame) => {
                let message = decode_frame(&frame);
                self.receive(message)
            },
            SessionEvent::CloseReceived => self.close_received(),
            SessionEvent::StreamEnded => self.stream_ended(),
            SessionEvent::TransportFailed { fault, detail } => self.transport_failed(fault, detail),
            SessionEvent::IdentifySent => self.identify_sent(),
            SessionEvent::HeartbeatDue => self.heartbeat_due(),
            SessionEvent::ShutdownRequested => self.shutdown_requested(),
            SessionEvent::CleanupComplete => self.cleanup_complete(),
        }
    }
}

} // verus!
