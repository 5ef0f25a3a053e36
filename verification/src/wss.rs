//! The gateway session: the state machine that takes a connection from the
//! handshake to the stream of dispatched events.
//!
//! The session owns no socket. Whoever drives it opens the stream, hands
//! every inbound frame to [`QQBotWebsocket::next_event`] and the time to
//! [`QQBotWebsocket::tick`], and sends the frames that come back.

use vstd::prelude::*;
use crate::codec::{
    decode, encode, json_of_operation, operation_of_text, DecodeError, Frame, Inbound,
};
use crate::heartbeat::{Scheduler, Tick};
use crate::json::rendered_json;
use crate::operation::{
    DispatchView, OperationView, QQBotOperation, QQBotOperationDispatch, User, UserView,
    OP_DISPATCH, OP_HEARTBEAT, OP_HEARTBEAT_ACK, OP_HELLO, OP_IDENTIFY, OP_INVALID_SESSION,
};
use crate::subscription_mask::{default_intents, DEFAULT_INTENTS};

verus! {

/// How many sessions may be started, as the gateway reports it.
#[derive(Debug, Clone, Copy, PartialEq, Eq, Structural)]
pub struct SessionStartLimit {
    pub max_concurrency: u32,
    pub remaining: u32,
    pub reset_after: u32,
    pub total: u32,
}

/// Where to connect, as the gateway reports it.
#[derive(Debug, PartialEq, Eq)]
pub struct QQBotConnected {
    pub shards: u32,
    pub url: String,
    pub session_start_limit: SessionStartLimit,
}

/// Model of a [`QQBotConnected`].
pub struct ConnectedView {
    pub shards: u32,
    pub url: Seq<char>,
    pub session_start_limit: SessionStartLimit,
}

impl View for QQBotConnected {
    type V = ConnectedView;

    open spec fn view(&self) -> ConnectedView {
        ConnectedView {
            shards: self.shards,
            url: self.url@,
            session_start_limit: self.session_start_limit,
        }
    }
}

/// Where a session stands in its life.
#[derive(Debug, Clone, Copy, PartialEq, Eq, Structural)]
pub enum SessionState {
    /// The stream is not open yet.
    Connecting,
    /// The stream is open; the gateway has not said hello.
    AwaitingHello,
    /// The identify frame is out; the gateway has not answered.
    Identifying,
    /// The gateway has accepted the bot.
    Authenticated,
    /// The session is over. Nothing leaves this state.
    Closed,
}

/// Why a session ended.
#[derive(Debug, Clone, Copy, PartialEq, Eq, Structural)]
pub enum SessionError {
    /// The transport could not be opened or kept up.
    Connection,
    /// A frame could not be decoded.
    Decode(DecodeError),
    /// The gateway rejected the identify parameters.
    Authentication,
    /// A heartbeat was not acknowledged in time.
    Liveness,
}

/// What one inbound frame meant.
#[derive(Debug, PartialEq, Eq)]
pub enum SessionEvent {
    /// The gateway said hello and named the heartbeat interval.
    Hello { heartbeat_interval: u32 },
    /// The gateway accepted the bot.
    Ready { user: User },
    /// An event for the host application.
    Dispatch { event_type: String, sequence: Option<u32>, payload: QQBotOperationDispatch },
    /// The gateway acknowledged a heartbeat.
    HeartbeatAck,
    /// The gateway sent a heartbeat of its own.
    Heartbeat,
    /// The gateway called the session invalid while none was being set up.
    InvalidSession,
    /// An opcode that this session does not know.
    Unknown { opcode: u32 },
    /// A known opcode that means nothing in the present state.
    Ignored { opcode: u32 },
    /// The session is closed.
    Closed,
}

/// Model of a [`SessionEvent`].
pub enum EventView {
    Hello { heartbeat_interval: u32 },
    Ready { user: UserView },
    Dispatch { event_type: Seq<char>, sequence: Option<u32>, payload: DispatchView },
    HeartbeatAck,
    Heartbeat,
    InvalidSession,
    Unknown { opcode: u32 },
    Ignored { opcode: u32 },
    Closed,
}

impl View for SessionEvent {
    type V = EventView;

    open spec fn view(&self) -> EventView {
        match self {
            SessionEvent::Hello { heartbeat_interval } => EventView::Hello {
                heartbeat_interval: *heartbeat_interval,
            },
            SessionEvent::Ready { user } => EventView::Ready { user: user@ },
            SessionEvent::Dispatch { event_type, sequence, payload } => EventView::Dispatch {
                event_type: event_type@,
                sequence: *sequence,
                payload: payload@,
            },
            SessionEvent::HeartbeatAck => EventView::HeartbeatAck,
            SessionEvent::Heartbeat => EventView::Heartbeat,
            SessionEvent::InvalidSession => EventView::InvalidSession,
            SessionEvent::Unknown { opcode } => EventView::Unknown { opcode: *opcode },
            SessionEvent::Ignored { opcode } => EventView::Ignored { opcode: *opcode },
            SessionEvent::Closed => EventView::Closed,
        }
    }
}

/// The outcome of one inbound frame: what it meant, and the text frame to
/// send in answer, if any.
#[derive(Debug, PartialEq, Eq)]
pub struct Step {
    pub event: SessionEvent,
    pub reply: Option<String>,
}

/// Model of a [`Step`].
pub struct StepView {
    pub event: EventView,
    pub reply: Option<Seq<char>>,
}

impl StepView {
    /// A step that sends nothing.
    pub open spec fn quiet(event: EventView) -> StepView {
        StepView { event, reply: None }
    }
}

impl View for Step {
    type V = StepView;

    open spec fn view(&self) -> StepView {
        StepView {
            event: self.event@,
            reply: match self.reply {
                Some(text) => Some(text@),
                None => None,
            },
        }
    }
}

/// The model of the result of a step.
pub open spec fn step_result_view(result: Result<Step, SessionError>) -> Result<
    StepView,
    SessionError,
> {
    match result {
        Ok(step) => Ok(step@),
        Err(error) => Err(error),
    }
}

/// The outcome of one tick of the clock: what the heartbeat timer asks
/// for, and the heartbeat frame to send, if one is due.
#[derive(Debug, PartialEq, Eq)]
pub struct Pulse {
    pub signal: Tick,
    pub frame: Option<String>,
}

impl Pulse {
    /// The error to report for this tick: a heartbeat went without its
    /// acknowledgement. The session goes on; whether to close it is for the
    /// host to decide.
    pub fn liveness_error(&self) -> (error: Option<SessionError>)
        ensures
            error == if self.signal == Tick::BeatAfterMiss {
                Some(SessionError::Liveness)
            } else {
                None
            },
    {
        match self.signal {
            Tick::BeatAfterMiss => Some(SessionError::Liveness),
            _ => None,
        }
    }
}

/// A session with the gateway.
#[derive(Debug, PartialEq, Eq)]
pub struct QQBotWebsocket {
    /// The bot token.
    pub key: String,
    pub connected: QQBotConnected,
    pub state: SessionState,
    pub heartbeat: Scheduler,
    /// Who the bot is logged in as, once the gateway has said so.
    pub identity: Option<User>,
    /// The sequence number of the last dispatched event.
    pub last_sequence: Option<u32>,
}

/// Model of a [`QQBotWebsocket`].
pub struct SessionView {
    pub key: Seq<char>,
    pub connected: ConnectedView,
    pub state: SessionState,
    pub heartbeat: Scheduler,
    pub identity: Option<UserView>,
    pub last_sequence: Option<u32>,
}

impl View for QQBotWebsocket {
    type V = SessionView;

    open spec fn view(&self) -> SessionView {
        SessionView {
            key: self.key@,
            connected: self.connected@,
            state: self.state,
            heartbeat: self.heartbeat,
            identity: match self.identity {
                Some(user) => Some(user@),
                None => None,
            },
            last_sequence: self.last_sequence,
        }
    }
}

/// The text of the identify frame for the token `key`.
pub open spec fn identify_text(key: Seq<char>) -> Seq<char> {
    rendered_json(json_of_operation(OperationView::identify(key, DEFAULT_INTENTS)))
}

/// The text of the heartbeat frame after `last_sequence`.
pub open spec fn heartbeat_text(last_sequence: Option<u32>) -> Seq<char> {
    rendered_json(json_of_operation(OperationView::heartbeat(last_sequence)))
}

impl SessionView {
    /// The session as it is linked: not open yet, nobody logged in.
    pub open spec fn linked(key: Seq<char>, connected: ConnectedView) -> SessionView {
        SessionView {
            key,
            connected,
            state: SessionState::Connecting,
            heartbeat: Scheduler::started(0),
            identity: None,
            last_sequence: None,
        }
    }

    /// Nobody is logged in before the gateway has accepted the bot, and the
    /// heartbeat interval is never zero.
    pub open spec fn well_formed(self) -> bool {
        &&& self.identity is Some ==> (self.state is Authenticated || self.state is Closed)
        &&& self.heartbeat.interval_ms > 0
    }

    pub open spec fn closed(self) -> bool {
        self.state is Closed
    }

    /// The session once it is over.
    pub open spec fn ended(self) -> SessionView {
        SessionView { state: SessionState::Closed, ..self }
    }

    /// The session once the stream is open: only a connecting session
    /// changes, and its heartbeat timer starts at `now`.
    pub open spec fn opened(self, now: u64) -> SessionView {
        if self.state is Connecting {
            SessionView {
                state: SessionState::AwaitingHello,
                heartbeat: Scheduler { last_sent_at: now, ..self.heartbeat },
                ..self
            }
        } else {
            self
        }
    }

    /// The sequence number to remember after an envelope that carries `s`.
    pub open spec fn sequence_after(self, s: Option<u32>) -> Option<u32> {
        if s is Some {
            s
        } else {
            self.last_sequence
        }
    }

    /// The identify frame that the session hands out: none once it is
    /// closed.
    pub open spec fn identify_frame(self) -> Option<Seq<char>> {
        if self.closed() {
            None
        } else {
            Some(identify_text(self.key))
        }
    }

    /// The heartbeat frame that the session hands out: none once it is
    /// closed.
    pub open spec fn heartbeat_frame(self) -> Option<Seq<char>> {
        if self.closed() {
            None
        } else {
            Some(heartbeat_text(self.last_sequence))
        }
    }

    /// A hello frame: its heartbeat interval is taken over in every state,
    /// unless it is zero; a session that was waiting for the frame starts to
    /// identify. The event tells the interval that is in force afterwards.
    pub open spec fn on_hello(self, operation: OperationView) -> (SessionView, StepView) {
        let heartbeat = self.heartbeat.greeted(operation.d.dispatched().heartbeat_interval);
        let event = EventView::Hello { heartbeat_interval: heartbeat.interval_ms };
        if self.state is AwaitingHello {
            (
                SessionView { state: SessionState::Identifying, heartbeat, ..self },
                StepView { event, reply: Some(identify_text(self.key)) },
            )
        } else {
            (SessionView { heartbeat, ..self }, StepView::quiet(event))
        }
    }

    /// A dispatch frame: it logs the bot in where the session is
    /// identifying and the frame names the user, it is an event for the host
    /// where the bot is logged in, and it means nothing before that.
    pub open spec fn on_dispatch(self, operation: OperationView) -> (SessionView, StepView) {
        let payload = operation.d.dispatched();
        if self.state is Identifying && payload.user.populated() {
            (
                SessionView {
                    state: SessionState::Authenticated,
                    identity: Some(payload.user),
                    last_sequence: self.sequence_after(operation.s),
                    ..self
                },
                StepView::quiet(EventView::Ready { user: payload.user }),
            )
        } else if self.state is Authenticated {
            (
                SessionView { last_sequence: self.sequence_after(operation.s), ..self },
                StepView::quiet(
                    EventView::Dispatch {
                        event_type: operation.t,
                        sequence: operation.s,
                        payload,
                    },
                ),
            )
        } else {
            (self, StepView::quiet(EventView::Ignored { opcode: operation.op }))
        }
    }

    /// What one envelope does to the session.
    pub open spec fn on_operation(self, operation: OperationView) -> (
        SessionView,
        Result<StepView, SessionError>,
    ) {
        if self.state is Closed {
            (self, Ok(StepView::quiet(EventView::Closed)))
        } else if operation.op == OP_HELLO {
            (self.on_hello(operation).0, Ok(self.on_hello(operation).1))
        } else if operation.op == OP_DISPATCH {
            (self.on_dispatch(operation).0, Ok(self.on_dispatch(operation).1))
        } else if operation.op == OP_HEARTBEAT_ACK {
            (
                SessionView {
                    heartbeat: Scheduler { pending_ack: false, ..self.heartbeat },
                    ..self
                },
                Ok(StepView::quiet(EventView::HeartbeatAck)),
            )
        } else if operation.op == OP_INVALID_SESSION {
            if self.state is Identifying {
                (self.ended(), Err(SessionError::Authentication))
            } else {
                (self, Ok(StepView::quiet(EventView::InvalidSession)))
            }
        } else if operation.op == OP_HEARTBEAT {
            (self, Ok(StepView::quiet(EventView::Heartbeat)))
        } else if operation.op == OP_IDENTIFY {
            (self, Ok(StepView::quiet(EventView::Ignored { opcode: operation.op })))
        } else {
            (self, Ok(StepView::quiet(EventView::Unknown { opcode: operation.op })))
        }
    }

    /// What one inbound frame does to the session. A closed session takes
    /// nothing in. A close frame ends the session without an error; a frame
    /// that cannot be decoded ends it with one.
    pub open spec fn on_frame(self, frame: Frame) -> (SessionView, Result<StepView, SessionError>) {
        if self.state is Closed {
            (self, Ok(StepView::quiet(EventView::Closed)))
        } else {
            match frame {
                Frame::Text(text) => match operation_of_text(text@) {
                    Ok(operation) => self.on_operation(operation),
                    Err(error) => (self.ended(), Err(SessionError::Decode(error))),
                },
                Frame::Close => (self.ended(), Ok(StepView::quiet(EventView::Closed))),
                _ => (self.ended(), Err(SessionError::Decode(DecodeError::UnsupportedFrameKind))),
            }
        }
    }

    /// Whether the heartbeat timer runs: from the opening of the stream to
    /// the end of the session.
    pub open spec fn beating(self) -> bool {
        !(self.state is Connecting) && !(self.state is Closed)
    }

    /// What the heartbeat timer asks for at `now`.
    pub open spec fn signal(self, now: u64) -> Tick {
        if self.beating() {
            self.heartbeat.signal(now)
        } else {
            Tick::Idle
        }
    }

    /// The session after a tick at `now`.
    pub open spec fn ticked(self, now: u64) -> SessionView {
        if self.beating() {
            SessionView { heartbeat: self.heartbeat.ticked(now), ..self }
        } else {
            self
        }
    }
}

impl QQBotWebsocket {
    /// Sets up the session for a bot token and the gateway's answer to the
    /// question where to connect. The stream is still to be opened.
    pub fn link(key: String, connected: QQBotConnected) -> (session: QQBotWebsocket)
        ensures
            session@ == SessionView::linked(key@, connected@),
            session@.well_formed(),
            session@.heartbeat.interval_ms == 40000,
    {
        QQBotWebsocket {
            key,
            connected,
            state: SessionState::Connecting,
            heartbeat: Scheduler::new(0),
            identity: None,
            last_sequence: None,
        }
    }

    /// Whether the session is over.
    pub fn closed(&self) -> (closed: bool)
        ensures
            closed == self@.closed(),
    {
        match self.state {
            SessionState::Closed => true,
            _ => false,
        }
    }

    /// The heartbeat interval in force, in milliseconds.
    pub fn heartbeat_interval(&self) -> (interval_ms: u32)
        ensures
            interval_ms == self@.heartbeat.interval_ms,
    {
        self.heartbeat.interval_ms
    }

    /// Notes that the stream to the gateway is open.
    pub fn opened(&mut self, now: u64)
        ensures
            final(self)@ == old(self)@.opened(now),
            old(self)@.well_formed() ==> final(self)@.well_formed(),
    {
        match self.state {
            SessionState::Connecting => {
                self.state = SessionState::AwaitingHello;
                self.heartbeat.last_sent_at = now;
            },
            _ => {},
        }
    }

    /// Ends the session because the host wants it so.
    pub fn close(&mut self)
        ensures
            final(self)@ == old(self)@.ended(),
            old(self)@.well_formed() ==> final(self)@.well_formed(),
    {
        self.state = SessionState::Closed;
    }

    /// Notes that the transport failed, while a frame was awaited or sent.
    /// The session is over; the error is the one to hand to the host.
    pub fn transport_failed(&mut self) -> (error: SessionError)
        ensures
            final(self)@ == old(self)@.ended(),
            error == SessionError::Connection,
            old(self)@.well_formed() ==> final(self)@.well_formed(),
    {
        self.state = SessionState::Closed;
        SessionError::Connection
    }

    /// The text of the heartbeat frame to send now. A closed session sends
    /// nothing and hands out no frame.
    pub fn send_heartbeat(&self) -> (text: Option<String>)
        ensures
            match text {
                Some(t) => !self@.closed() && t@ == heartbeat_text(self@.last_sequence),
                None => self@.closed(),
            },
            match text {
                Some(t) => self@.heartbeat_frame() == Some(t@),
                None => self@.heartbeat_frame() is None,
            },
    {
        match self.state {
            SessionState::Closed => None,
            _ => {
                let operation = QQBotOperation::heartbeat(self.last_sequence);
                Some(encode(&operation))
            },
        }
    }

    /// The text of the identify frame: the bot token, the intent mask and
    /// the single shard. A closed session sends nothing and hands out no
    /// frame.
    pub fn send_identify(&self) -> (text: Option<String>)
        ensures
            match text {
                Some(t) => !self@.closed() && t@ == identify_text(self@.key),
                None => self@.closed(),
            },
            match text {
                Some(t) => self@.identify_frame() == Some(t@),
                None => self@.identify_frame() is None,
            },
    {
        match self.state {
            SessionState::Closed => None,
            _ => {
                let operation = QQBotOperation::identify(self.key.clone(), default_intents());
                Some(encode(&operation))
            },
        }
    }

    /// One tick of the clock: asks the heartbeat timer and, where a
    /// heartbeat is due, hands out the frame to send.
    pub fn tick(&mut self, now: u64) -> (pulse: Pulse)
        ensures
            final(self)@ == old(self)@.ticked(now),
            pulse.signal == old(self)@.signal(now),
            match pulse.frame {
                Some(text) => pulse.signal != Tick::Idle && text@ == heartbeat_text(
                    old(self)@.last_sequence,
                ),
                None => pulse.signal == Tick::Idle,
            },
            old(self)@.well_formed() ==> final(self)@.well_formed(),
    {
        match self.state {
            SessionState::Connecting => { return Pulse { signal: Tick::Idle, frame: None }; },
            SessionState::Closed => { return Pulse { signal: Tick::Idle, frame: None }; },
            _ => {},
        }
        let signal = self.heartbeat.tick(now);
        match signal {
            Tick::Idle => Pulse { signal, frame: None },
            _ => Pulse { signal, frame: self.send_heartbeat() },
        }
    }

    /// Takes in one decoded envelope.
    pub fn on_operation(&mut self, operation: QQBotOperation) -> (result: Result<
        Step,
        SessionError,
    >)
        ensures
            (final(self)@, step_result_view(result)) == old(self)@.on_operation(operation@),
            old(self)@.well_formed() ==> final(self)@.well_formed(),
            old(self)@.heartbeat.interval_ms > 0 ==> final(self)@.heartbeat.interval_ms > 0,
    {
        match self.state {
            SessionState::Closed => {
                return Ok(Step { event: SessionEvent::Closed, reply: None });
            },
            _ => {},
        }
        let opcode = operation.op;
        if opcode == OP_HELLO {
            self.heartbeat.on_hello(operation.dispatched().heartbeat_interval);
            let event = SessionEvent::Hello { heartbeat_interval: self.heartbeat.interval_ms };
            match self.state {
                SessionState::AwaitingHello => {
                    self.state = SessionState::Identifying;
                    Ok(Step { event, reply: self.send_identify() })
                },
                _ => Ok(Step { event, reply: None }),
            }
        } else if opcode == OP_DISPATCH {
            let sequence = operation.s;
            let event_type = operation.t.clone();
            let payload = operation.dispatched();
            let identifying = match self.state {
                SessionState::Identifying => true,
                _ => false,
            };
            let authenticated = match self.state {
                SessionState::Authenticated => true,
                _ => false,
            };
            if identifying && payload.user.is_populated() {
                self.state = SessionState::Authenticated;
                self.identity = Some(payload.user.clone());
                if sequence.is_some() {
                    self.last_sequence = sequence;
                }
                Ok(Step { event: SessionEvent::Ready { user: payload.user }, reply: None })
            } else if authenticated {
                if sequence.is_some() {
                    self.last_sequence = sequence;
                }
                Ok(
                    Step {
                        event: SessionEvent::Dispatch { event_type, sequence, payload },
                        reply: None,
                    },
                )
            } else {
                Ok(Step { event: SessionEvent::Ignored { opcode }, reply: None })
            }
        } else if opcode == OP_HEARTBEAT_ACK {
            self.heartbeat.on_ack();
            Ok(Step { event: SessionEvent::HeartbeatAck, reply: None })
        } else if opcode == OP_INVALID_SESSION {
            match self.state {
                SessionState::Identifying => {
                    self.state = SessionState::Closed;
                    Err(SessionError::Authentication)
                },
                _ => Ok(Step { event: SessionEvent::InvalidSession, reply: None }),
            }
        } else if opcode == OP_HEARTBEAT {
            Ok(Step { event: SessionEvent::Heartbeat, reply: None })
        } else if opcode == OP_IDENTIFY {
            Ok(Step { event: SessionEvent::Ignored { opcode }, reply: None })
        } else {
            Ok(Step { event: SessionEvent::Unknown { opcode }, reply: None })
        }
    }

    /// Takes in the next inbound frame: decodes it and moves the session
    /// on. An error ends the session.
    pub fn next_event(&mut self, frame: &Frame) -> (result: Result<Step, SessionError>)
        ensures
            (final(self)@, step_result_view(result)) == old(self)@.on_frame(*frame),
            old(self)@.well_formed() ==> final(self)@.well_formed(),
            old(self)@.heartbeat.interval_ms > 0 ==> final(self)@.heartbeat.interval_ms > 0,
    {
        match self.state {
            SessionState::Closed => {
                return Ok(Step { event: SessionEvent::Closed, reply: None });
            },
            _ => {},
        }
        match decode(frame) {
            Ok(Inbound::Operation(operation)) => self.on_operation(operation),
            Ok(Inbound::Closed) => {
                self.state = SessionState::Closed;
                Ok(Step { event: SessionEvent::Closed, reply: None })
            },
            Err(error) => {
                self.state = SessionState::Closed;
                Err(SessionError::Decode(error))
            },
        }
    }
}

/// A closed session stays closed: no frame, no tick and no opening changes
/// it, and no frame is handed out for it, neither in answer to a frame nor
/// at a tick nor where an identify or a heartbeat frame is asked for.
pub proof fn lemma_closed_is_terminal(session: SessionView, frame: Frame, now: u64)
    requires
        session.closed(),
    ensures
        session.on_frame(frame) == (
            session,
            Ok::<StepView, SessionError>(StepView::quiet(EventView::Closed)),
        ),
        session.ticked(now) == session,
        session.signal(now) == Tick::Idle,
        session.opened(now) == session,
        session.ended() == session,
        session.identify_frame() is None,
        session.heartbeat_frame() is None,
{
}

/// No frame reopens a session: what is closed before a frame is closed
/// after it, and every error leaves the session closed.
pub proof fn lemma_closed_is_monotonic(session: SessionView, frame: Frame)
    ensures
        session.closed() ==> session.on_frame(frame).0.closed(),
        session.on_frame(frame).1 is Err ==> session.on_frame(frame).0.closed(),
{
}

/// A close frame ends a session in every state that is not closed yet,
/// and does so without an error; nothing else about the session changes.
pub proof fn lemma_close_frame_closes(session: SessionView)
    requires
        !session.closed(),
    ensures
        session.on_frame(Frame::Close) == (
            session.ended(),
            Ok::<StepView, SessionError>(StepView::quiet(EventView::Closed)),
        ),
        session.on_frame(Frame::Close).0.closed(),
{
}

/// An envelope with an opcode that the session does not know changes
/// nothing and ends nothing: it is reported and the session goes on.
pub proof fn lemma_unknown_opcode_is_tolerated(session: SessionView, operation: OperationView)
    requires
        !session.closed(),
        operation.op != OP_DISPATCH,
        operation.op != OP_HEARTBEAT,
        operation.op != OP_IDENTIFY,
        operation.op != OP_INVALID_SESSION,
        operation.op != OP_HELLO,
        operation.op != OP_HEARTBEAT_ACK,
    ensures
        session.on_operation(operation) == (
            session,
            Ok::<StepView, SessionError>(
                StepView::quiet(EventView::Unknown { opcode: operation.op }),
            ),
        ),
{
}

/// Only a hello frame writes the heartbeat interval, and none writes
/// zero: an interval above zero stays above zero under every envelope,
/// every frame, every tick and the opening of the stream.
pub proof fn lemma_interval_is_written_by_hello_only(
    session: SessionView,
    operation: OperationView,
    frame: Frame,
    now: u64,
)
    ensures
        operation.op != OP_HELLO ==> session.on_operation(operation).0.heartbeat.interval_ms
            == session.heartbeat.interval_ms,
        session.heartbeat.interval_ms > 0 ==> {
            &&& session.on_operation(operation).0.heartbeat.interval_ms > 0
            &&& session.on_frame(frame).0.heartbeat.interval_ms > 0
            &&& session.ticked(now).heartbeat.interval_ms > 0
            &&& session.opened(now).heartbeat.interval_ms > 0
            &&& session.ended().heartbeat.interval_ms > 0
        },
{
}

/// A bot is logged in at most once: nobody is logged in before the gateway
/// accepts the bot, and who is logged in never changes afterwards.
pub proof fn lemma_authenticated_once(session: SessionView, operation: OperationView)
    requires
        session.well_formed(),
    ensures
        session.on_operation(operation).0.well_formed(),
        session.identity is Some ==> session.on_operation(operation).0.identity
            == session.identity,
{
}

/// The identify frame goes out once: only the hello that a session was
/// waiting for is answered, and after it the session waits no more.
pub proof fn lemma_identify_is_sent_once(session: SessionView, operation: OperationView)
    ensures
        match session.on_operation(operation).1 {
            Ok(step) => step.reply is Some <==> (session.state is AwaitingHello && operation.op
                == OP_HELLO),
            Err(_) => true,
        },
        !(session.on_operation(operation).0.state is AwaitingHello) || session.state
            is AwaitingHello,
        (session.state is AwaitingHello && operation.op == OP_HELLO)
            ==> session.on_operation(operation).0.state is Identifying,
{
}

} // verus!
