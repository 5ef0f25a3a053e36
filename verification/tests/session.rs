use ackerman_qqbot::codec::{DecodeError, Frame};
use ackerman_qqbot::heartbeat::{Scheduler, Tick};
use ackerman_qqbot::operation::{
    QQBotOperation, QQBotOperationDispatch, QQBotOperationUnion, User,
};
use ackerman_qqbot::wss::{
    Pulse, QQBotConnected, QQBotWebsocket, SessionError, SessionEvent, SessionStartLimit,
    SessionState, Step,
};

fn connected() -> QQBotConnected {
    QQBotConnected {
        shards: 1,
        url: "wss://gateway.example/websocket".to_string(),
        session_start_limit: SessionStartLimit {
            max_concurrency: 1,
            remaining: 999,
            reset_after: 14_400_000,
            total: 1000,
        },
    }
}

fn linked() -> QQBotWebsocket {
    QQBotWebsocket::link("Bot 1.secret".to_string(), connected())
}

fn text(frame: &str) -> Frame {
    Frame::Text(frame.to_string())
}

fn in_state(state: SessionState) -> QQBotWebsocket {
    let mut session = linked();
    session.state = state;
    if state == SessionState::Authenticated {
        session.identity = Some(User { id: "9".to_string(), username: "bot1".to_string(), bot: true });
    }
    session
}

fn quiet(event: SessionEvent) -> Result<Step, SessionError> {
    Ok(Step { event, reply: None })
}

const HELLO: &str = "{\"op\":10,\"d\":{\"heartbeat_interval\":30000}}";
const READY: &str = "{\"op\":0,\"s\":1,\"t\":\"READY\",\"d\":{\"version\":1,\"session_id\":\"abc\",\
                     \"user\":{\"id\":\"9\",\"username\":\"bot1\",\"bot\":true}}}";

#[test]
fn linked_session_is_connecting() {
    let session = linked();
    assert_eq!(session.state, SessionState::Connecting);
    assert!(!session.closed());
    assert_eq!(session.heartbeat_interval(), 40000);
    assert_eq!(session.identity, None);
    assert_eq!(session.last_sequence, None);
    assert_eq!(session.key, "Bot 1.secret");
    assert_eq!(session.connected, connected());
}

#[test]
fn handshake_scenario() {
    let mut session = linked();
    assert_eq!(session.state, SessionState::Connecting);
    session.opened(5_000);
    assert_eq!(session.state, SessionState::AwaitingHello);

    let step = session.next_event(&text(HELLO)).unwrap();
    assert_eq!(session.state, SessionState::Identifying);
    assert_eq!(session.heartbeat_interval(), 30000);
    assert_eq!(step.event, SessionEvent::Hello { heartbeat_interval: 30000 });
    let identify = step.reply.expect("the hello is answered by an identify frame");
    let value: serde_json::Value = serde_json::from_str(&identify).unwrap();
    assert_eq!(value["op"].as_u64(), Some(2));
    assert_eq!(value["d"]["token"].as_str(), Some("Bot 1.secret"));
    assert_eq!(value["d"]["intents"].as_u64(), Some((1 << 9) | (1 << 10) | (1 << 26) | (1 << 30)));
    assert_eq!(value["d"]["shard"].as_array().map(|shard| shard.len()), Some(2));
    assert_eq!(value["d"]["shard"][0].as_u64(), Some(0));
    assert_eq!(value["d"]["shard"][1].as_u64(), Some(1));

    let ready = "{\"op\":0,\"t\":\"READY\",\"d\":{\"user\":{\"username\":\"bot1\"}}}";
    let step = session.next_event(&text(ready)).unwrap();
    assert_eq!(session.state, SessionState::Authenticated);
    let user = User { id: String::new(), username: "bot1".to_string(), bot: false };
    assert_eq!(step, Step { event: SessionEvent::Ready { user: user.clone() }, reply: None });
    assert_eq!(session.identity.as_ref().map(|user| user.username.as_str()), Some("bot1"));
    assert_eq!(session.identity, Some(user));
    assert!(!session.closed());
}

#[test]
fn identify_is_sent_exactly_once() {
    let mut session = linked();
    session.opened(0);
    let mut replies = 0;
    for frame in [HELLO, HELLO, READY, HELLO, "{\"op\":11,\"d\":true}", READY] {
        if session.next_event(&text(frame)).unwrap().reply.is_some() {
            replies += 1;
        }
    }
    assert_eq!(replies, 1);
    assert_eq!(session.state, SessionState::Authenticated);
}

#[test]
fn identify_frame_is_what_the_session_answers_hello_with() {
    let mut session = linked();
    session.opened(0);
    let expected = session.send_identify();
    assert!(expected.is_some());
    let step = session.next_event(&text(HELLO)).unwrap();
    assert_eq!(step.reply, expected);
}

#[test]
fn hello_without_interval_keeps_the_default() {
    let mut session = linked();
    session.opened(0);
    let step = session.next_event(&text("{\"op\":10,\"d\":{}}")).unwrap();
    assert_eq!(step.event, SessionEvent::Hello { heartbeat_interval: 40000 });
    assert_eq!(session.heartbeat_interval(), 40000);
    assert_eq!(session.state, SessionState::Identifying);
}

#[test]
fn later_hello_is_tolerated() {
    let mut session = in_state(SessionState::Authenticated);
    let step = session.next_event(&text("{\"op\":10,\"d\":{\"heartbeat_interval\":123}}"));
    assert_eq!(step, quiet(SessionEvent::Hello { heartbeat_interval: 123 }));
    assert_eq!(session.heartbeat_interval(), 123);
    assert_eq!(session.state, SessionState::Authenticated);
}

#[test]
fn dispatch_before_authentication_is_ignored() {
    let mut session = linked();
    session.opened(0);
    let before = linked_and_opened();
    assert_eq!(session.next_event(&text(READY)), quiet(SessionEvent::Ignored { opcode: 0 }));
    assert_eq!(session, before);

    let mut session = in_state(SessionState::Identifying);
    let nameless = "{\"op\":0,\"s\":4,\"t\":\"READY\",\"d\":{\"session_id\":\"abc\"}}";
    assert_eq!(session.next_event(&text(nameless)), quiet(SessionEvent::Ignored { opcode: 0 }));
    assert_eq!(session, in_state(SessionState::Identifying));
}

fn linked_and_opened() -> QQBotWebsocket {
    let mut session = linked();
    session.opened(0);
    session
}

#[test]
fn dispatch_is_routed_to_the_host() {
    let mut session = in_state(SessionState::Authenticated);
    let frame = "{\"op\":0,\"s\":8,\"t\":\"AT_MESSAGE_CREATE\",\"d\":{\"session_id\":\"abc\"}}";
    let step = session.next_event(&text(frame));
    let payload = QQBotOperationDispatch {
        session_id: "abc".to_string(),
        ..QQBotOperationDispatch::default()
    };
    assert_eq!(
        step,
        quiet(SessionEvent::Dispatch {
            event_type: "AT_MESSAGE_CREATE".to_string(),
            sequence: Some(8),
            payload,
        })
    );
    assert_eq!(session.last_sequence, Some(8));
    assert_eq!(session.state, SessionState::Authenticated);

    let unnumbered = "{\"op\":0,\"t\":\"RESUMED\",\"d\":true}";
    let step = session.next_event(&text(unnumbered));
    assert_eq!(
        step,
        quiet(SessionEvent::Dispatch {
            event_type: "RESUMED".to_string(),
            sequence: None,
            payload: QQBotOperationDispatch::default(),
        })
    );
    assert_eq!(session.last_sequence, Some(8));
}

#[test]
fn identity_is_set_once() {
    let mut session = in_state(SessionState::Identifying);
    session.next_event(&text(READY)).unwrap();
    let first = session.identity.clone();
    assert_eq!(first, Some(User { id: "9".to_string(), username: "bot1".to_string(), bot: true }));
    assert_eq!(session.last_sequence, Some(1));
    let other = "{\"op\":0,\"s\":2,\"t\":\"READY\",\"d\":{\"user\":{\"id\":\"1\",\"username\":\"x\",\"bot\":true}}}";
    let step = session.next_event(&text(other)).unwrap();
    assert!(matches!(step.event, SessionEvent::Dispatch { .. }));
    assert_eq!(session.identity, first);
}

#[test]
fn close_frame_closes_every_open_state() {
    for state in [
        SessionState::Connecting,
        SessionState::AwaitingHello,
        SessionState::Identifying,
        SessionState::Authenticated,
    ] {
        let mut session = in_state(state);
        assert_eq!(session.next_event(&Frame::Close), quiet(SessionEvent::Closed));
        assert!(session.closed());
        assert_eq!(session.state, SessionState::Closed);
    }
}

#[test]
fn closed_session_takes_nothing_in() {
    let mut session = in_state(SessionState::Authenticated);
    session.close();
    assert!(session.closed());
    let closed = {
        let mut closed = in_state(SessionState::Authenticated);
        closed.state = SessionState::Closed;
        closed
    };
    for frame in [text(HELLO), text(READY), text("not json"), Frame::Close, Frame::Ping] {
        assert_eq!(session.next_event(&frame), quiet(SessionEvent::Closed));
        assert_eq!(session, closed);
    }
    assert_eq!(session.tick(u64::MAX), Pulse { signal: Tick::Idle, frame: None });
    session.opened(5);
    assert_eq!(session, closed);
    let hello = QQBotOperation { op: 10, s: None, t: String::new(), d: QQBotOperationUnion::Boolean(true) };
    assert_eq!(session.on_operation(hello), quiet(SessionEvent::Closed));
    assert_eq!(session, closed);
}

#[test]
fn unknown_opcode_is_tolerated() {
    for state in [
        SessionState::Connecting,
        SessionState::AwaitingHello,
        SessionState::Identifying,
        SessionState::Authenticated,
    ] {
        let mut session = in_state(state);
        let step = session.next_event(&text("{\"op\":255,\"s\":77,\"t\":\"X\",\"d\":{\"heartbeat_interval\":5}}"));
        assert_eq!(step, quiet(SessionEvent::Unknown { opcode: 255 }));
        assert_eq!(session, in_state(state));
        assert!(!session.closed());
    }
}

#[test]
fn inbound_identify_is_ignored() {
    let mut session = in_state(SessionState::Authenticated);
    let step = session.next_event(&text("{\"op\":2,\"d\":{\"token\":\"t\"}}"));
    assert_eq!(step, quiet(SessionEvent::Ignored { opcode: 2 }));
    assert_eq!(session, in_state(SessionState::Authenticated));
}

#[test]
fn inbound_heartbeat_is_a_status() {
    let mut session = in_state(SessionState::Authenticated);
    assert_eq!(session.next_event(&text("{\"op\":1,\"d\":5}")), quiet(SessionEvent::Heartbeat));
    assert_eq!(session, in_state(SessionState::Authenticated));
}

#[test]
fn rejected_identify_ends_the_session() {
    let mut session = in_state(SessionState::Identifying);
    assert_eq!(session.next_event(&text("{\"op\":9,\"d\":false}")), Err(SessionError::Authentication));
    assert!(session.closed());
}

#[test]
fn invalid_session_elsewhere_is_a_status() {
    for state in [SessionState::AwaitingHello, SessionState::Authenticated] {
        let mut session = in_state(state);
        assert_eq!(session.next_event(&text("{\"op\":9,\"d\":false}")), quiet(SessionEvent::InvalidSession));
        assert_eq!(session, in_state(state));
    }
}

#[test]
fn undecodable_frame_ends_the_session() {
    let cases = [
        (text("not json"), DecodeError::InvalidJson),
        (text("[]"), DecodeError::InvalidEnvelope),
        (text("{\"op\":0,\"d\":\"?\"}"), DecodeError::UnknownPayloadShape),
        (Frame::Binary, DecodeError::UnsupportedFrameKind),
        (Frame::Ping, DecodeError::UnsupportedFrameKind),
        (Frame::Pong, DecodeError::UnsupportedFrameKind),
        (Frame::Raw, DecodeError::UnsupportedFrameKind),
    ];
    for (frame, error) in cases {
        let mut session = in_state(SessionState::Authenticated);
        assert_eq!(session.next_event(&frame), Err(SessionError::Decode(error)));
        assert!(session.closed());
    }
}

#[test]
fn heartbeat_frame_carries_the_last_sequence() {
    let mut session = in_state(SessionState::Authenticated);
    let value: serde_json::Value =
        serde_json::from_str(&session.send_heartbeat().unwrap()).unwrap();
    assert_eq!(value["op"].as_u64(), Some(1));
    assert_eq!(value["d"].as_i64(), Some(100));
    session.next_event(&text("{\"op\":0,\"s\":4000000000,\"t\":\"E\",\"d\":{}}")).unwrap();
    let value: serde_json::Value =
        serde_json::from_str(&session.send_heartbeat().unwrap()).unwrap();
    assert_eq!(value["op"].as_u64(), Some(1));
    assert_eq!(value["d"].as_u64(), Some(4_000_000_000));
}

#[test]
fn tick_hands_out_the_heartbeat_frame() {
    let mut session = linked();
    assert_eq!(session.tick(1_000_000), Pulse { signal: Tick::Idle, frame: None });
    session.opened(5_000);
    session.next_event(&text(HELLO)).unwrap();
    assert_eq!(session.tick(34_999), Pulse { signal: Tick::Idle, frame: None });
    let pulse = session.tick(35_000);
    assert_eq!(pulse.signal, Tick::Beat);
    assert!(pulse.frame.is_some());
    assert_eq!(pulse.frame, session.send_heartbeat());
    assert_eq!(session.heartbeat, Scheduler { interval_ms: 30000, last_sent_at: 35_000, pending_ack: true });
}

#[test]
fn ack_frame_clears_the_pending_heartbeat() {
    let mut session = linked();
    session.opened(0);
    session.next_event(&text(HELLO)).unwrap();
    assert_eq!(session.tick(30_000).signal, Tick::Beat);
    assert!(session.heartbeat.pending_ack);
    assert_eq!(session.next_event(&text("{\"op\":11,\"d\":true}")), quiet(SessionEvent::HeartbeatAck));
    assert!(!session.heartbeat.pending_ack);
    assert_eq!(session.tick(60_001).signal, Tick::Beat);
}

#[test]
fn missing_ack_is_reported_and_does_not_close() {
    let mut session = linked();
    session.opened(0);
    session.next_event(&text(HELLO)).unwrap();
    assert_eq!(session.tick(30_000).signal, Tick::Beat);
    let pulse = session.tick(90_000);
    assert_eq!(pulse.signal, Tick::BeatAfterMiss);
    assert!(pulse.frame.is_some());
    assert_eq!(session.tick(90_001), Pulse { signal: Tick::Idle, frame: None });
    assert!(!session.closed());
    assert_eq!(session.state, SessionState::Identifying);
}

#[test]
fn close_is_the_cancellation() {
    let mut session = in_state(SessionState::Identifying);
    session.close();
    assert!(session.closed());
    session.close();
    assert!(session.closed());
}

#[test]
fn transport_failure_ends_the_session() {
    for state in [
        SessionState::Connecting,
        SessionState::AwaitingHello,
        SessionState::Identifying,
        SessionState::Authenticated,
        SessionState::Closed,
    ] {
        let mut session = in_state(state);
        assert_eq!(session.transport_failed(), SessionError::Connection);
        assert!(session.closed());
        let mut expected = in_state(state);
        expected.state = SessionState::Closed;
        assert_eq!(session, expected);
    }
}

#[test]
fn missing_ack_maps_to_the_liveness_error() {
    let missed = Pulse { signal: Tick::BeatAfterMiss, frame: Some("{}".to_string()) };
    assert_eq!(missed.liveness_error(), Some(SessionError::Liveness));
    let beat = Pulse { signal: Tick::Beat, frame: Some("{}".to_string()) };
    assert_eq!(beat.liveness_error(), None);
    let idle = Pulse { signal: Tick::Idle, frame: None };
    assert_eq!(idle.liveness_error(), None);
}

#[test]
fn opening_starts_the_heartbeat_clock() {
    let mut session = linked();
    session.opened(77);
    assert_eq!(session.state, SessionState::AwaitingHello);
    assert_eq!(session.heartbeat, Scheduler { interval_ms: 40000, last_sent_at: 77, pending_ack: false });
    session.opened(99);
    assert_eq!(session.heartbeat.last_sent_at, 77);
    assert_eq!(session.state, SessionState::AwaitingHello);
}

#[test]
fn closed_session_hands_out_no_identify_frame() {
    for state in [
        SessionState::Connecting,
        SessionState::AwaitingHello,
        SessionState::Identifying,
        SessionState::Authenticated,
    ] {
        let mut session = in_state(state);
        let frame = session.send_identify().expect("an open session identifies");
        assert_eq!(
            frame,
            "{\"op\":2,\"d\":{\"token\":\"Bot 1.secret\",\"intents\":1140852224,\"shard\":[0,1],\
             \"heartbeat_interval\":40000,\"version\":0,\"session_id\":\"\",\
             \"user\":{\"id\":\"\",\"username\":\"\",\"bot\":false}}}"
        );
        session.close();
        assert_eq!(session.send_identify(), None);
        assert!(session.closed());
    }
    let mut failed = in_state(SessionState::Identifying);
    failed.transport_failed();
    assert_eq!(failed.send_identify(), None);
    let mut rejected = in_state(SessionState::Identifying);
    assert!(rejected.next_event(&text("{\"op\":9,\"d\":false}")).is_err());
    assert_eq!(rejected.send_identify(), None);
    assert!(rejected.closed());
}

#[test]
fn closed_session_hands_out_no_heartbeat_frame() {
    for state in [
        SessionState::Connecting,
        SessionState::AwaitingHello,
        SessionState::Identifying,
        SessionState::Authenticated,
    ] {
        let mut session = in_state(state);
        assert_eq!(session.send_heartbeat(), Some("{\"op\":1,\"d\":100}".to_string()));
        session.last_sequence = Some(12);
        assert_eq!(session.send_heartbeat(), Some("{\"op\":1,\"d\":12}".to_string()));
        session.next_event(&Frame::Close).unwrap();
        assert_eq!(session.send_heartbeat(), None);
        assert!(session.closed());
    }
}

#[test]
fn hello_that_names_no_interval_keeps_the_one_in_force() {
    let zero = || QQBotOperation {
        op: 10,
        s: None,
        t: String::new(),
        d: QQBotOperationUnion::Dispatch(QQBotOperationDispatch {
            heartbeat_interval: 0,
            ..QQBotOperationDispatch::default()
        }),
    };
    let mut session = linked();
    session.opened(0);
    let step = session.on_operation(zero()).unwrap();
    assert_eq!(step.event, SessionEvent::Hello { heartbeat_interval: 40000 });
    assert!(step.reply.is_some());
    assert_eq!(session.heartbeat_interval(), 40000);
    assert_eq!(session.state, SessionState::Identifying);

    session.next_event(&text(HELLO)).unwrap();
    assert_eq!(session.heartbeat_interval(), 30000);
    assert_eq!(session.on_operation(zero()), quiet(SessionEvent::Hello { heartbeat_interval: 30000 }));
    assert_eq!(session.heartbeat_interval(), 30000);
}
