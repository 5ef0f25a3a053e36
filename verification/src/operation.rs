//! The operation envelope: the unit that travels over the gateway connection.

use vstd::prelude::*;

verus! {

/// Opcode of a dispatched event.
pub const OP_DISPATCH: u32 = 0;

/// Opcode of a heartbeat.
pub const OP_HEARTBEAT: u32 = 1;

/// Opcode of the identify frame that authenticates the bot.
pub const OP_IDENTIFY: u32 = 2;

/// Opcode by which the gateway rejects the identify parameters.
pub const OP_INVALID_SESSION: u32 = 9;

/// Opcode of the hello frame that carries the heartbeat interval.
pub const OP_HELLO: u32 = 10;

/// Opcode by which the gateway acknowledges a heartbeat.
pub const OP_HEARTBEAT_ACK: u32 = 11;

/// Heartbeat interval, in milliseconds, in force until the gateway names one.
pub const DEFAULT_HEARTBEAT_INTERVAL: u32 = 40000;

/// Payload of a heartbeat sent before any sequence number was received.
pub const HEARTBEAT_PLACEHOLDER: i64 = 100;

/// The account a session is logged in as.
#[derive(Debug, PartialEq, Eq)]
pub struct User {
    pub id: String,
    pub username: String,
    pub bot: bool,
}

/// Model of a [`User`].
pub struct UserView {
    pub id: Seq<char>,
    pub username: Seq<char>,
    pub bot: bool,
}

impl UserView {
    /// The user with empty names that is no bot.
    pub open spec fn empty() -> UserView {
        UserView { id: Seq::empty(), username: Seq::empty(), bot: false }
    }

    /// Whether the gateway filled in who the user is.
    pub open spec fn populated(self) -> bool {
        self.id.len() > 0 || self.username.len() > 0
    }
}

impl View for User {
    type V = UserView;

    open spec fn view(&self) -> UserView {
        UserView { id: self.id@, username: self.username@, bot: self.bot }
    }
}

impl Default for User {
    fn default() -> (user: User)
        ensures
            user@ == UserView::empty(),
    {
        User { id: String::new(), username: String::new(), bot: false }
    }
}

impl Clone for User {
    fn clone(&self) -> (user: User)
        ensures
            user@ == self@,
    {
        User { id: self.id.clone(), username: self.username.clone(), bot: self.bot }
    }
}

impl User {
    /// Whether the gateway filled in who the user is.
    pub fn is_populated(&self) -> (populated: bool)
        ensures
            populated == self@.populated(),
    {
        !self.id.as_str().is_empty() || !self.username.as_str().is_empty()
    }
}

/// The structured payload of an envelope.
#[derive(Debug, PartialEq, Eq)]
pub struct QQBotOperationDispatch {
    pub token: String,
    pub intents: u32,
    pub shard: Vec<u32>,
    pub heartbeat_interval: u32,
    pub version: i64,
    pub session_id: String,
    pub user: User,
}

/// Model of a [`QQBotOperationDispatch`].
pub struct DispatchView {
    pub token: Seq<char>,
    pub intents: u32,
    pub shard: Seq<u32>,
    pub heartbeat_interval: u32,
    pub version: i64,
    pub session_id: Seq<char>,
    pub user: UserView,
}

impl DispatchView {
    /// The payload in which nothing is filled in.
    pub open spec fn empty() -> DispatchView {
        DispatchView {
            token: Seq::empty(),
            intents: 0,
            shard: Seq::empty(),
            heartbeat_interval: DEFAULT_HEARTBEAT_INTERVAL,
            version: 0,
            session_id: Seq::empty(),
            user: UserView::empty(),
        }
    }

    /// The payload of an identify frame: the token, the intent mask and the
    /// single shard `[0, 1]`.
    pub open spec fn identify(token: Seq<char>, intents: u32) -> DispatchView {
        DispatchView { token, intents, shard: seq![0u32, 1u32], ..DispatchView::empty() }
    }

    /// A heartbeat interval is never zero.
    pub open spec fn well_formed(self) -> bool {
        self.heartbeat_interval != 0
    }
}

impl View for QQBotOperationDispatch {
    type V = DispatchView;

    open spec fn view(&self) -> DispatchView {
        DispatchView {
            token: self.token@,
            intents: self.intents,
            shard: self.shard@,
            heartbeat_interval: self.heartbeat_interval,
            version: self.version,
            session_id: self.session_id@,
            user: self.user@,
        }
    }
}

impl Default for QQBotOperationDispatch {
    fn default() -> (body: QQBotOperationDispatch)
        ensures
            body@ == DispatchView::empty(),
    {
        QQBotOperationDispatch {
            token: String::new(),
            intents: 0,
            shard: Vec::new(),
            heartbeat_interval: DEFAULT_HEARTBEAT_INTERVAL,
            version: 0,
            session_id: String::new(),
            user: User::default(),
        }
    }
}

impl Clone for QQBotOperationDispatch {
    fn clone(&self) -> (body: QQBotOperationDispatch)
        ensures
            body@ == self@,
    {
        QQBotOperationDispatch {
            token: self.token.clone(),
            intents: self.intents,
            shard: self.shard.clone(),
            heartbeat_interval: self.heartbeat_interval,
            version: self.version,
            session_id: self.session_id.clone(),
            user: self.user.clone(),
        }
    }
}

/// The payload of an envelope: a structured body, a boolean or an integer.
#[derive(Debug, PartialEq, Eq)]
pub enum QQBotOperationUnion {
    Dispatch(QQBotOperationDispatch),
    Boolean(bool),
    Integer(i64),
}

/// Model of a [`QQBotOperationUnion`].
pub enum PayloadView {
    Dispatch(DispatchView),
    Boolean(bool),
    Integer(i64),
}

impl PayloadView {
    /// The structured body that the payload stands for: its own, or the
    /// empty one where the payload is a boolean or an integer.
    pub open spec fn dispatched(self) -> DispatchView {
        match self {
            PayloadView::Dispatch(body) => body,
            _ => DispatchView::empty(),
        }
    }

    pub open spec fn well_formed(self) -> bool {
        self matches PayloadView::Dispatch(body) ==> body.well_formed()
    }
}

impl View for QQBotOperationUnion {
    type V = PayloadView;

    open spec fn view(&self) -> PayloadView {
        match self {
            QQBotOperationUnion::Dispatch(body) => PayloadView::Dispatch(body@),
            QQBotOperationUnion::Boolean(b) => PayloadView::Boolean(*b),
            QQBotOperationUnion::Integer(i) => PayloadView::Integer(*i),
        }
    }
}

impl Default for QQBotOperationUnion {
    fn default() -> (payload: QQBotOperationUnion)
        ensures
            payload@ == PayloadView::Dispatch(DispatchView::empty()),
    {
        QQBotOperationUnion::Dispatch(QQBotOperationDispatch::default())
    }
}

/// One envelope: an opcode, the sequence number and event name of a
/// dispatched event, and the payload.
#[derive(Debug, PartialEq, Eq)]
pub struct QQBotOperation {
    pub op: u32,
    pub s: Option<u32>,
    pub t: String,
    pub d: QQBotOperationUnion,
}

/// Model of a [`QQBotOperation`].
pub struct OperationView {
    pub op: u32,
    pub s: Option<u32>,
    pub t: Seq<char>,
    pub d: PayloadView,
}

impl OperationView {
    /// The identify envelope for a token and an intent mask.
    pub open spec fn identify(token: Seq<char>, intents: u32) -> OperationView {
        OperationView {
            op: OP_IDENTIFY,
            s: None,
            t: Seq::empty(),
            d: PayloadView::Dispatch(DispatchView::identify(token, intents)),
        }
    }

    /// The heartbeat envelope: it carries the last sequence number received,
    /// or the placeholder where there is none.
    pub open spec fn heartbeat(last_sequence: Option<u32>) -> OperationView {
        OperationView {
            op: OP_HEARTBEAT,
            s: None,
            t: Seq::empty(),
            d: PayloadView::Integer(
                match last_sequence {
                    Some(sequence) => sequence as i64,
                    None => HEARTBEAT_PLACEHOLDER,
                },
            ),
        }
    }

    pub open spec fn well_formed(self) -> bool {
        self.d.well_formed()
    }
}

impl View for QQBotOperation {
    type V = OperationView;

    open spec fn view(&self) -> OperationView {
        OperationView { op: self.op, s: self.s, t: self.t@, d: self.d@ }
    }
}

impl QQBotOperation {
    /// Builds the identify envelope for a token and an intent mask.
    pub fn identify(token: String, intents: u32) -> (operation: QQBotOperation)
        ensures
            operation@ == OperationView::identify(token@, intents),
            operation@.well_formed(),
    {
        let mut shard: Vec<u32> = Vec::new();
        shard.push(0);
        shard.push(1);
        let empty = QQBotOperationDispatch::default();
        let body = QQBotOperationDispatch {
            token,
            intents,
            shard,
            heartbeat_interval: empty.heartbeat_interval,
            version: empty.version,
            session_id: empty.session_id,
            user: empty.user,
        };
        assert(body@.shard =~= seq![0u32, 1u32]);
        QQBotOperation {
            op: OP_IDENTIFY,
            s: None,
            t: String::new(),
            d: QQBotOperationUnion::Dispatch(body),
        }
    }

    /// Builds a heartbeat envelope.
    pub fn heartbeat(last_sequence: Option<u32>) -> (operation: QQBotOperation)
        ensures
            operation@ == OperationView::heartbeat(last_sequence),
            operation@.well_formed(),
    {
        let payload: i64 = match last_sequence {
            Some(sequence) => sequence as i64,
            None => HEARTBEAT_PLACEHOLDER,
        };
        QQBotOperation {
            op: OP_HEARTBEAT,
            s: None,
            t: String::new(),
            d: QQBotOperationUnion::Integer(payload),
        }
    }

    /// Hands out the structured body of the envelope, or the empty body
    /// where the payload is a boolean or an integer.
    pub fn dispatched(self) -> (body: QQBotOperationDispatch)
        ensures
            body@ == self@.d.dispatched(),
    {
        match self.d {
            QQBotOperationUnion::Dispatch(d) => d,
            _ => QQBotOperationDispatch::default(),
        }
    }
}

} // verus!
