//! The realtime session: classification, the two pumps, the
//! subscribe/unsubscribe protocol and the lifecycle.

use eodhd::pump::{ClassifiedFrame, InboundPump, ReadOutcome, StepAction};
use eodhd::session::{OpenError, Session, SessionEvent, SessionState, session_transition};
use eodhd::socket::{socket_url, EODHDSocketKind};
use eodhd::status::{classify_text, parse_status, StatusMessage, TextClass};
use eodhd::wire::{encode_command, subscribe_frame, unsubscribe_frame, Command, OutFrame};

/// A decoded forex tick, as a caller of the library would define it.
#[derive(Debug, Clone, PartialEq)]
struct ForexTick {
    s: String,
    a: f64,
    b: f64,
    t: i64,
}

fn eurusd() -> ForexTick {
    ForexTick {
        s: "EURUSD".to_string(),
        a: 1.0842,
        b: 1.0840,
        t: 1647504300000,
    }
}

#[test]
fn parse_status_reads_the_authorized_frame() {
    let r = parse_status("{\"status_code\":200,\"message\":\"Authorized\"}");
    assert_eq!(
        r,
        Some(StatusMessage {
            status_code: 200,
            message: "Authorized".to_string()
        })
    );
}

#[test]
fn parse_status_reads_the_empty_message_and_the_largest_code() {
    let r = parse_status("{\"status_code\":65535,\"message\":\"\"}");
    assert_eq!(
        r,
        Some(StatusMessage {
            status_code: 65535,
            message: String::new()
        })
    );
}

#[test]
fn parse_status_refuses_other_shapes() {
    // Code too large for the protocol's status codes.
    assert_eq!(parse_status("{\"status_code\":65536,\"message\":\"x\"}"), None);
    // A leading zero is not the canonical rendering.
    assert_eq!(parse_status("{\"status_code\":007,\"message\":\"x\"}"), None);
    // No digits at all.
    assert_eq!(parse_status("{\"status_code\":,\"message\":\"x\"}"), None);
    // An escape inside the message.
    assert_eq!(parse_status("{\"status_code\":200,\"message\":\"a\\\"b\"}"), None);
    // Trailing text after the closing brace.
    assert_eq!(parse_status("{\"status_code\":200,\"message\":\"ok\"} "), None);
    // A different key ordering.
    assert_eq!(parse_status("{\"message\":\"ok\",\"status_code\":200}"), None);
    // Not a status frame at all.
    assert_eq!(parse_status("{\"s\":\"EURUSD\",\"a\":1.08}"), None);
}

#[test]
fn parse_status_reads_a_single_digit_code() {
    let r = parse_status("{\"status_code\":0,\"message\":\"x\"}");
    assert_eq!(
        r,
        Some(StatusMessage {
            status_code: 0,
            message: "x".to_string()
        })
    );
}

#[test]
fn every_probe_gets_its_own_pong() {
    let mut s = Session::<u32>::open(EODHDSocketKind::Quote, "validToken", 4)
        .expect("open should succeed with a token");
    assert_eq!(s.on_frame(ClassifiedFrame::Keepalive), StepAction::SendPong);
    assert_eq!(s.on_frame(ClassifiedFrame::Tick(9)), StepAction::Forwarded);
    assert_eq!(s.on_frame(ClassifiedFrame::Keepalive), StepAction::SendPong);
    assert_eq!(s.outbound_next(), Some(OutFrame::Pong));
    assert_eq!(s.outbound_next(), Some(OutFrame::Pong));
    assert_eq!(s.outbound_next(), None);
}

#[test]
fn classify_text_tells_status_ticks_and_drift_apart() {
    match classify_text("{\"status_code\":200,\"message\":\"Authorized\"}") {
        TextClass::Status(sm) => {
            assert_eq!(sm.status_code, 200);
            assert_eq!(sm.message, "Authorized");
        }
        other => panic!("expected a status frame, got {:?}", classify_kind(&other)),
    }
    // The marker is present but the shape is not the status shape.
    match classify_text("{\"status_code\":\"OK\"}") {
        TextClass::StatusMalformed => {}
        other => panic!("expected a malformed status, got {:?}", classify_kind(&other)),
    }
    // No marker: a tick candidate.
    match classify_text("{\"s\":\"EURUSD\",\"a\":1.0842}") {
        TextClass::TickPayload => {}
        other => panic!("expected a tick payload, got {:?}", classify_kind(&other)),
    }
}

fn classify_kind(c: &TextClass) -> &'static str {
    match c {
        TextClass::Status(_) => "Status",
        TextClass::StatusMalformed => "StatusMalformed",
        TextClass::TickPayload => "TickPayload",
    }
}

#[test]
fn subscribe_frames_match_the_wire_shape() {
    assert_eq!(
        subscribe_frame("EURUSD"),
        "{\"action\": \"subscribe\", \"symbols\": \"EURUSD\"}"
    );
    assert_eq!(
        unsubscribe_frame("EURUSD"),
        "{\"action\": \"unsubscribe\", \"symbols\": \"EURUSD\"}"
    );
}

#[test]
fn encode_command_translates_each_variant() {
    assert_eq!(
        encode_command(&Command::Subscribe("AAPL".to_string())),
        OutFrame::Text("{\"action\": \"subscribe\", \"symbols\": \"AAPL\"}".to_string())
    );
    assert_eq!(
        encode_command(&Command::Unsubscribe("AAPL".to_string())),
        OutFrame::Text("{\"action\": \"unsubscribe\", \"symbols\": \"AAPL\"}".to_string())
    );
    assert_eq!(
        encode_command(&Command::RawFrame("hello".to_string())),
        OutFrame::Text("hello".to_string())
    );
    assert_eq!(encode_command(&Command::Pong), OutFrame::Pong);
}

#[test]
fn socket_urls_name_each_feed() {
    assert_eq!(
        socket_url(EODHDSocketKind::Forex, "tok"),
        "wss://ws.eodhistoricaldata.com/ws/forex?api_token=tok"
    );
    assert_eq!(
        socket_url(EODHDSocketKind::Crypto, "tok"),
        "wss://ws.eodhistoricaldata.com/ws/crypto?api_token=tok"
    );
    assert_eq!(
        socket_url(EODHDSocketKind::Quote, "tok"),
        "wss://ws.eodhistoricaldata.com/ws/us-quote?api_token=tok"
    );
    assert_eq!(
        socket_url(EODHDSocketKind::Trade, "tok"),
        "wss://ws.eodhistoricaldata.com/ws/us?api_token=tok"
    );
    assert_eq!(EODHDSocketKind::Forex.to_string(), "forex");
    assert_eq!(EODHDSocketKind::Crypto.to_string(), "crypto");
    assert_eq!(EODHDSocketKind::Quote.to_string(), "us-quote");
    assert_eq!(EODHDSocketKind::Trade.to_string(), "us");
}

#[test]
fn open_refuses_an_empty_token() {
    match Session::<ForexTick>::open(EODHDSocketKind::Forex, "", 10) {
        Err(OpenError::MissingCredential) => {}
        other => panic!("expected a missing-credential error, got {:?}", other.is_ok()),
    }
}

#[test]
fn open_builds_the_connection_url() {
    let s = Session::<ForexTick>::open(EODHDSocketKind::Forex, "validToken", 10)
        .expect("open should succeed with a token");
    assert_eq!(s.url(), "wss://ws.eodhistoricaldata.com/ws/forex?api_token=validToken");
    assert_eq!(s.current_state(), SessionState::Open);
}

/// Scenario: open, subscribe, a status frame and one decoded tick
/// arrive; the consumer reads exactly that one tick and nothing else.
#[test]
fn one_tick_reaches_the_consumer_and_status_does_not() {
    let mut s = Session::<ForexTick>::open(EODHDSocketKind::Forex, "validToken", 10)
        .expect("open should succeed with a token");
    s.subscribe("EURUSD").expect("subscribe on an open session");

    // The transport first reports authorization.
    let status = match classify_text("{\"status_code\":200,\"message\":\"Authorized\"}") {
        TextClass::Status(sm) => sm,
        _ => panic!("the authorization frame is a status frame"),
    };
    let act = s.on_frame(ClassifiedFrame::Status(status.clone()));
    assert_eq!(act, StepAction::ReportStatus(status));

    // Then one decoded tick arrives.
    let act = s.on_frame(ClassifiedFrame::Tick(eurusd()));
    assert_eq!(act, StepAction::Forwarded);

    // The consumer sees exactly the tick, then nothing.
    assert_eq!(s.read_tick(), ReadOutcome::Item(eurusd()));
    assert_eq!(s.read_tick(), ReadOutcome::WouldBlock);
}

/// Scenario: subscribe then unsubscribe back to back; the transport
/// receives the subscribe frame strictly before the unsubscribe frame.
#[test]
fn subscribe_precedes_unsubscribe_on_the_wire() {
    let mut s = Session::<ForexTick>::open(EODHDSocketKind::Forex, "validToken", 10)
        .expect("open should succeed with a token");
    s.subscribe("EURUSD").expect("subscribe on an open session");
    s.unsubscribe("EURUSD").expect("unsubscribe on an open session");

    let first = s.outbound_next().expect("a first frame waits");
    let second = s.outbound_next().expect("a second frame waits");
    assert_eq!(
        first,
        OutFrame::Text("{\"action\": \"subscribe\", \"symbols\": \"EURUSD\"}".to_string())
    );
    assert_eq!(
        second,
        OutFrame::Text("{\"action\": \"unsubscribe\", \"symbols\": \"EURUSD\"}".to_string())
    );
    assert_eq!(s.outbound_next(), None);
}

/// Commands of every caller-facing kind reach the wire in submission
/// order.
#[test]
fn commands_drain_in_submission_order() {
    let mut s = Session::<ForexTick>::open(EODHDSocketKind::Trade, "validToken", 4)
        .expect("open should succeed with a token");
    s.subscribe("AAPL").expect("subscribe");
    s.send_raw("custom").expect("raw frame");
    s.subscribe("TSLA").expect("subscribe");
    s.unsubscribe("AAPL").expect("unsubscribe");

    let mut texts = Vec::new();
    while let Some(f) = s.outbound_next() {
        match f {
            OutFrame::Text(t) => texts.push(t),
            OutFrame::Pong => texts.push("<pong>".to_string()),
        }
    }
    assert_eq!(
        texts,
        vec![
            "{\"action\": \"subscribe\", \"symbols\": \"AAPL\"}".to_string(),
            "custom".to_string(),
            "{\"action\": \"subscribe\", \"symbols\": \"TSLA\"}".to_string(),
            "{\"action\": \"unsubscribe\", \"symbols\": \"AAPL\"}".to_string(),
        ]
    );
}

/// A keepalive probe puts exactly one pong on the wire and nothing on
/// the tick queue.
#[test]
fn keepalive_answers_with_one_pong_and_no_tick() {
    let mut s = Session::<ForexTick>::open(EODHDSocketKind::Forex, "validToken", 10)
        .expect("open should succeed with a token");
    let act = s.on_frame(ClassifiedFrame::Keepalive);
    assert_eq!(act, StepAction::SendPong);
    // The pong is the only command on the wire.
    assert_eq!(s.outbound_next(), Some(OutFrame::Pong));
    assert_eq!(s.outbound_next(), None);
    // The tick queue saw nothing.
    assert_eq!(s.read_tick(), ReadOutcome::WouldBlock);
}

/// Interleaved keepalive, status, malformed and tick frames: the
/// consumer receives exactly the decoded ticks, in arrival order.
#[test]
fn only_decoded_ticks_reach_the_queue_in_order() {
    let mut p = InboundPump::<u32>::new(8);
    assert_eq!(p.step(ClassifiedFrame::Keepalive), StepAction::SendPong);
    assert_eq!(p.step(ClassifiedFrame::Tick(1)), StepAction::Forwarded);
    assert_eq!(
        p.step(ClassifiedFrame::Status(StatusMessage {
            status_code: 200,
            message: "Authorized".to_string()
        })),
        StepAction::ReportStatus(StatusMessage {
            status_code: 200,
            message: "Authorized".to_string()
        })
    );
    assert_eq!(p.step(ClassifiedFrame::Malformed), StepAction::ReportDecodeError);
    assert_eq!(p.step(ClassifiedFrame::Tick(2)), StepAction::Forwarded);
    assert_eq!(p.step(ClassifiedFrame::Unrecognized), StepAction::ReportUnrecognized);
    assert_eq!(p.step(ClassifiedFrame::ReadError), StepAction::ReportReadError);
    assert_eq!(p.step(ClassifiedFrame::Tick(3)), StepAction::Forwarded);

    assert_eq!(p.consumer_read(), ReadOutcome::Item(1));
    assert_eq!(p.consumer_read(), ReadOutcome::Item(2));
    assert_eq!(p.consumer_read(), ReadOutcome::Item(3));
    assert_eq!(p.consumer_read(), ReadOutcome::WouldBlock);
}

/// With capacity two, the third tick suspends the pump; one read makes
/// room, promotes the waiting tick, and nothing is dropped or
/// reordered.
#[test]
fn backpressure_suspends_and_resumes_without_loss() {
    let mut p = InboundPump::<u32>::new(2);
    assert_eq!(p.step(ClassifiedFrame::Tick(10)), StepAction::Forwarded);
    assert_eq!(p.step(ClassifiedFrame::Tick(11)), StepAction::Forwarded);
    assert_eq!(p.buffered_len(), 2);
    // The queue is full: the third tick waits, the pump suspends.
    assert_eq!(p.step(ClassifiedFrame::Tick(12)), StepAction::Suspended);
    assert_eq!(p.buffered_len(), 2);
    // One read makes room and the waiting tick moves in.
    assert_eq!(p.consumer_read(), ReadOutcome::Item(10));
    assert_eq!(p.buffered_len(), 2);
    assert_eq!(p.consumer_read(), ReadOutcome::Item(11));
    assert_eq!(p.consumer_read(), ReadOutcome::Item(12));
    assert_eq!(p.consumer_read(), ReadOutcome::WouldBlock);
}

/// The transport's close ends the stream: buffered ticks drain, then
/// the queue reports the end, and the session leaves its open phase.
#[test]
fn close_drains_then_ends_the_stream() {
    let mut s = Session::<u32>::open(EODHDSocketKind::Crypto, "validToken", 4)
        .expect("open should succeed with a token");
    assert_eq!(s.on_frame(ClassifiedFrame::Tick(5)), StepAction::Forwarded);
    assert_eq!(s.on_frame(ClassifiedFrame::Closed), StepAction::Exit);
    assert_eq!(s.current_state(), SessionState::Draining);
    // What was buffered still drains; then the stream is over.
    assert_eq!(s.read_tick(), ReadOutcome::Item(5));
    assert_eq!(s.read_tick(), ReadOutcome::EndOfStream);
    // Submissions are refused once the session is past its open phase.
    assert!(s.subscribe("EURUSD").is_err());
    // Both pumps exited: the session closes.
    s.finish();
    assert_eq!(s.current_state(), SessionState::Closed);
}

/// The caller can also shut down explicitly: unsubscribe leaves the
/// connection up, close is its own step.
#[test]
fn close_is_explicit_and_separate_from_unsubscribe() {
    let mut s = Session::<u32>::open(EODHDSocketKind::Forex, "validToken", 4)
        .expect("open should succeed with a token");
    s.subscribe("EURUSD").expect("subscribe");
    s.unsubscribe("EURUSD").expect("unsubscribe");
    // Still open: unsubscribing did not close anything.
    assert_eq!(s.current_state(), SessionState::Open);
    s.close();
    assert_eq!(s.current_state(), SessionState::Draining);
    assert!(s.send_raw("late").is_err());
}

#[test]
fn lifecycle_transitions_follow_the_state_machine() {
    let open = session_transition(SessionState::Connecting, SessionEvent::Connected);
    assert_eq!(open, SessionState::Open);
    assert_eq!(
        session_transition(SessionState::Open, SessionEvent::CloseObserved),
        SessionState::Draining
    );
    assert_eq!(
        session_transition(SessionState::Open, SessionEvent::ShutdownRequested),
        SessionState::Draining
    );
    assert_eq!(
        session_transition(SessionState::Draining, SessionEvent::PumpsExited),
        SessionState::Closed
    );
    // Nothing else moves a session.
    assert_eq!(
        session_transition(SessionState::Connecting, SessionEvent::PumpsExited),
        SessionState::Connecting
    );
    assert_eq!(
        session_transition(SessionState::Open, SessionEvent::Connected),
        SessionState::Open
    );
    assert_eq!(
        session_transition(SessionState::Draining, SessionEvent::CloseObserved),
        SessionState::Draining
    );
    assert_eq!(
        session_transition(SessionState::Closed, SessionEvent::Connected),
        SessionState::Closed
    );
}
