use groupme_tui::{encode_frame, parse_response, response_event, Action, ConnectionKind, Engine,
    Event, OutFrame};

fn reply(text: &str, now: u64) -> Event {
    Event::Reply { frame: parse_response(text).expect("well-formed response"), now }
}

fn tick(now: u64) -> Event {
    Event::Tick { shutdown: false, now }
}

fn shutdown_tick(now: u64) -> Event {
    Event::Tick { shutdown: true, now }
}

fn new_engine() -> Engine {
    Engine::new("42".to_string(), "token".to_string(), 3600)
}

#[test]
fn fresh_engine_sends_handshake_first() {
    let mut e = new_engine();
    match e.step(tick(0)) {
        Action::Send(OutFrame::Handshake { id }) => assert_eq!(id, 1),
        _ => panic!("expected a handshake frame"),
    }
}

#[test]
fn handshake_response_sets_session_id() {
    let mut e = new_engine();
    e.step(tick(0));
    let a = e.step(reply("[{\"successful\": true, \"clientId\": \"abc123\"}]", 10));
    match a {
        Action::Send(OutFrame::Subscribe { id, client_id, subscription, access_token, timestamp }) => {
            assert_eq!(id, 2);
            assert_eq!(client_id, "abc123");
            assert_eq!(subscription, "/user/42");
            assert_eq!(access_token, "token");
            assert_eq!(timestamp, 10);
        }
        _ => panic!("expected a subscribe frame under the granted session id"),
    }
}

#[test]
fn alert_response_is_delivered_once() {
    let mut e = new_engine();
    e.step(tick(0));
    e.step(reply("[{\"successful\": true, \"clientId\": \"abc123\"}]", 1));
    e.step(reply("[{\"successful\": true}]", 2));
    match e.step(tick(3)) {
        Action::Send(OutFrame::Connect { id, client_id }) => {
            assert_eq!(id, 3);
            assert_eq!(client_id, "abc123");
        }
        _ => panic!("expected a connect frame"),
    }
    let a = e.step(reply(
        "[{}, {\"data\": {\"alert\": \"New message from Alice\"}}]",
        4,
    ));
    match a {
        Action::Deliver(alert) => assert_eq!(alert.body, "New message from Alice"),
        _ => panic!("expected exactly one delivery"),
    }
}

#[test]
fn ping_response_delivers_nothing() {
    let mut e = new_engine();
    e.step(tick(0));
    e.step(reply("[{\"successful\": true, \"clientId\": \"abc123\"}]", 1));
    e.step(reply("[{\"successful\": true}]", 2));
    e.step(tick(3));
    let a = e.step(reply("[{\"data\": {\"ping\": true}}]", 4));
    assert!(matches!(a, Action::Idle), "a heartbeat must not reach the sink");
}

#[test]
fn shutdown_stops_all_further_frames() {
    let mut e = new_engine();
    e.step(tick(0));
    e.step(reply("[{\"successful\": true, \"clientId\": \"abc123\"}]", 1));
    e.step(reply("[{\"successful\": true}]", 2));
    assert!(matches!(e.step(shutdown_tick(3)), Action::Stop));
    assert!(matches!(e.step(tick(4)), Action::Stop));
    assert!(matches!(e.step(reply("[{}]", 5)), Action::Stop));
}

#[test]
fn renewal_makes_one_handshake_subscribe_pair() {
    let mut e = new_engine();
    e.step(tick(0));
    e.step(reply("[{\"successful\": true, \"clientId\": \"first\"}]", 100));
    e.step(reply("[{\"successful\": true}]", 101));
    // Within the threshold: an ordinary poll.
    assert!(matches!(
        e.step(tick(200)),
        Action::Send(OutFrame::Connect { .. })
    ));
    e.step(reply("[{}]", 201));
    // Past the threshold: exactly one re-handshake and re-subscribe.
    match e.step(tick(100 + 3601)) {
        Action::Send(OutFrame::Handshake { id }) => assert_eq!(id, 4),
        _ => panic!("expected a renewal handshake"),
    }
    match e.step(reply("[{\"successful\": true, \"clientId\": \"second\"}]", 3702)) {
        Action::Send(OutFrame::Subscribe { id, client_id, .. }) => {
            assert_eq!(id, 5);
            assert_eq!(client_id, "second");
        }
        _ => panic!("expected a renewal subscribe"),
    }
    assert!(matches!(e.step(reply("[{\"successful\": true}]", 3703)), Action::Idle));
    // The next poll runs under the renewed session.
    match e.step(tick(3704)) {
        Action::Send(OutFrame::Connect { id, client_id }) => {
            assert_eq!(id, 6);
            assert_eq!(client_id, "second");
        }
        _ => panic!("expected a connect frame under the renewed session"),
    }
}

#[test]
fn request_ids_strictly_increase_across_renewal() {
    let mut e = new_engine();
    let mut sent_ids: Vec<u64> = Vec::new();
    let mut record = |a: Action| {
        if let Action::Send(f) = a {
            let id = match f {
                OutFrame::Handshake { id } => id,
                OutFrame::Subscribe { id, .. } => id,
                OutFrame::Connect { id, .. } => id,
            };
            sent_ids.push(id);
        }
    };
    record(e.step(tick(0)));
    record(e.step(reply("[{\"successful\": true, \"clientId\": \"a\"}]", 1)));
    record(e.step(reply("[{\"successful\": true}]", 2)));
    record(e.step(tick(3)));
    record(e.step(reply("[{}]", 4)));
    record(e.step(tick(4000)));
    record(e.step(reply("[{\"successful\": true, \"clientId\": \"b\"}]", 4001)));
    record(e.step(reply("[{\"successful\": true}]", 4002)));
    record(e.step(tick(4003)));
    assert_eq!(sent_ids, vec![1, 2, 3, 4, 5, 6]);
    for w in sent_ids.windows(2) {
        assert!(w[0] < w[1]);
    }
}

#[test]
fn session_start_produces_the_exact_wire_frames() {
    let mut e = new_engine();
    let mut wire: Vec<String> = Vec::new();
    let mut drive = |a: Action| {
        if let Action::Send(f) = a {
            wire.push(encode_frame(&f, ConnectionKind::Websocket));
        }
    };
    drive(e.step(tick(0)));
    drive(e.step(reply("[{\"successful\": true, \"clientId\": \"abc123\"}]", 55)));
    drive(e.step(reply("[{\"successful\": true}]", 56)));
    drive(e.step(tick(57)));
    assert_eq!(
        wire,
        vec![
            "[{\"channel\":\"/meta/handshake\",\"id\":\"1\",\
             \"supportedConnectionTypes\":[\"websocket\"],\"version\":\"1.0\"}]"
                .to_string(),
            "[{\"channel\":\"/meta/subscribe\",\"clientId\":\"abc123\",\
             \"ext\":{\"access_token\":\"token\",\"timestamp\":\"55\"},\
             \"id\":\"2\",\"subscription\":\"/user/42\"}]"
                .to_string(),
            "[{\"channel\":\"/meta/connect\",\"clientId\":\"abc123\",\
             \"connectionType\":\"websocket\",\"id\":\"3\"}]"
                .to_string(),
        ]
    );
}

#[test]
fn failed_handshake_is_retried_next_cycle() {
    let mut e = new_engine();
    e.step(tick(0));
    // The response reports failure: no session is granted.
    assert!(matches!(
        e.step(reply("[{\"successful\": false}]", 1)),
        Action::Idle
    ));
    // The next cycle tries the handshake again.
    match e.step(tick(2)) {
        Action::Send(OutFrame::Handshake { id }) => assert_eq!(id, 2),
        _ => panic!("expected a retried handshake"),
    }
}

#[test]
fn unacknowledged_subscribe_still_polls() {
    let mut e = new_engine();
    e.step(tick(0));
    e.step(reply("[{\"successful\": true, \"clientId\": \"abc\"}]", 1));
    // The subscribe acknowledgment reports failure; the engine polls
    // anyway, and records the missing acknowledgment.
    assert!(matches!(
        e.step(reply("[{\"successful\": false}]", 2)),
        Action::Idle
    ));
    assert!(!e.sub_acked);
    assert!(matches!(
        e.step(tick(3)),
        Action::Send(OutFrame::Connect { .. })
    ));
}

#[test]
fn acknowledged_subscribe_is_recorded() {
    let mut e = new_engine();
    e.step(tick(0));
    e.step(reply("[{\"successful\": true, \"clientId\": \"abc\"}]", 1));
    e.step(reply("[{\"successful\": true}]", 2));
    assert!(e.sub_acked);
}

#[test]
fn response_event_classifies_wire_text() {
    match response_event("[{\"successful\": true}]", 7) {
        Event::Reply { frame, now } => {
            assert_eq!(now, 7);
            assert_eq!(frame.elems.len(), 1);
            assert_eq!(frame.elems[0].successful, Some(true));
        }
        _ => panic!("well-formed text must become a reply"),
    }
    assert!(matches!(response_event("not json", 7), Event::Failed));
}

#[test]
fn malformed_response_does_not_kill_the_loop() {
    let mut e = new_engine();
    e.step(tick(0));
    e.step(reply("[{\"successful\": true, \"clientId\": \"abc\"}]", 1));
    e.step(reply("[{\"successful\": true}]", 2));
    e.step(tick(3));
    // The transport reports a malformed response mid-poll.
    assert!(matches!(e.step(Event::Failed), Action::Idle));
    assert!(matches!(
        e.step(tick(4)),
        Action::Send(OutFrame::Connect { .. })
    ));
}
