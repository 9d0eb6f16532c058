use ronkey_server::envelope::{encode_err, encode_ok, Response};
use ronkey_server::index;
use ronkey_server::session::{Action, Connection, Event, Inbound, Phase};

fn strings(v: &[&str]) -> Vec<String> {
    v.iter().map(|s| s.to_string()).collect()
}

fn sent(a: Action) -> String {
    match a {
        Action::Send(frame) => frame,
        _ => panic!("expected a frame to send"),
    }
}

fn parse_of(a: Action) -> String {
    match a {
        Action::Parse(src) => src,
        _ => panic!("expected a fragment to parse"),
    }
}

fn is_receive(a: &Action) -> bool {
    matches!(a, Action::Receive)
}

fn is_close(a: &Action) -> bool {
    matches!(a, Action::Close)
}

fn text(s: &str) -> Event {
    Event::Received(Inbound::Text(s.to_string()))
}

/// Drives one valid fragment through a connection and returns the reply.
fn exchange_valid(c: &mut Connection, src: &str, display: &str) -> String {
    assert_eq!(parse_of(c.step(text(src))), src);
    assert!(matches!(c.step(Event::Parsed(Vec::new())), Action::Evaluate));
    let frame = sent(c.step(Event::Evaluated(display.to_string())));
    assert!(is_receive(&c.step(Event::Sent)));
    frame
}

#[test]
fn greeting_text() {
    assert_eq!(index(), "Hello, world! :)\n\n\n---\n\n\nBy jgcardelus");
}

#[test]
fn ok_frame_plain() {
    assert_eq!(encode_ok("5"), "{\"ok\":\"5\"}");
}

#[test]
fn ok_frame_escapes_text() {
    assert_eq!(encode_ok("a\"b\n"), "{\"ok\":\"a\\\"b\\n\"}");
}

#[test]
fn ok_frame_empty_display() {
    assert_eq!(encode_ok(""), "{\"ok\":\"\"}");
}

#[test]
fn err_frame_keeps_order() {
    let errs = strings(&["expected next token to be =", "no prefix parse function for ;"]);
    assert_eq!(
        encode_err(&errs),
        "{\"err\":[\"expected next token to be =\",\"no prefix parse function for ;\"]}"
    );
}

#[test]
fn err_frame_single() {
    assert_eq!(encode_err(&strings(&["bad"])), "{\"err\":[\"bad\"]}");
}

#[test]
fn err_frame_empty_list() {
    assert_eq!(encode_err(&Vec::new()), "{\"err\":[]}");
}

#[test]
fn err_frame_escapes_messages() {
    assert_eq!(encode_err(&strings(&["say \"hi\""])), "{\"err\":[\"say \\\"hi\\\"\"]}");
}

#[test]
fn response_encode_both_variants() {
    assert_eq!(Response::Evaluated("true".to_string()).encode(), "{\"ok\":\"true\"}");
    assert_eq!(Response::Rejected(strings(&["x", "y"])).encode(), "{\"err\":[\"x\",\"y\"]}");
}

#[test]
fn new_connection_awaits_frame() {
    let c = Connection::new();
    assert_eq!(c.phase(), Phase::Awaiting);
    assert!(!c.is_closed());
}

#[test]
fn syntax_errors_answered_without_evaluation() {
    let mut c = Connection::new();
    assert_eq!(parse_of(c.step(text("let = 5;"))), "let = 5;");
    assert_eq!(c.phase(), Phase::Parsing);
    let errs = strings(&["first", "second"]);
    let frame = sent(c.step(Event::Parsed(errs)));
    assert_eq!(frame, "{\"err\":[\"first\",\"second\"]}");
    assert_eq!(c.phase(), Phase::Sending);
    assert!(is_receive(&c.step(Event::Sent)));
    assert_eq!(c.phase(), Phase::Awaiting);
}

#[test]
fn valid_input_answered_with_display_string() {
    let mut c = Connection::new();
    assert_eq!(exchange_valid(&mut c, "1 + 2;", "3"), "{\"ok\":\"3\"}");
    assert_eq!(c.phase(), Phase::Awaiting);
}

#[test]
fn runtime_error_value_reported_as_ok() {
    let mut c = Connection::new();
    let frame = exchange_valid(&mut c, "1 + true;", "ERROR: type mismatch: INTEGER + BOOLEAN");
    assert_eq!(frame, "{\"ok\":\"ERROR: type mismatch: INTEGER + BOOLEAN\"}");
}

#[test]
fn two_messages_on_one_connection() {
    let mut c = Connection::new();
    assert_eq!(exchange_valid(&mut c, "let x = 5;", ""), "{\"ok\":\"\"}");
    assert_eq!(exchange_valid(&mut c, "x;", "5"), "{\"ok\":\"5\"}");
}

#[test]
fn error_then_valid_keeps_session_open() {
    let mut c = Connection::new();
    parse_of(c.step(text("let;")));
    sent(c.step(Event::Parsed(strings(&["bad"]))));
    assert!(is_receive(&c.step(Event::Sent)));
    assert_eq!(exchange_valid(&mut c, "x;", "1"), "{\"ok\":\"1\"}");
}

#[test]
fn connections_are_independent() {
    let mut a = Connection::new();
    let mut b = Connection::new();
    assert_eq!(parse_of(a.step(text("let x = 1;"))), "let x = 1;");
    assert!(is_close(&b.step(Event::Received(Inbound::Malformed))));
    assert!(b.is_closed());
    assert!(!a.is_closed());
    assert!(matches!(a.step(Event::Parsed(Vec::new())), Action::Evaluate));
    assert_eq!(sent(a.step(Event::Evaluated("1".to_string()))), "{\"ok\":\"1\"}");
}

#[test]
fn replies_in_request_order() {
    let mut c = Connection::new();
    let inputs = ["1;", "2;", "3;", "4;", "5;"];
    let mut replies = Vec::new();
    for (i, src) in inputs.iter().enumerate() {
        replies.push(exchange_valid(&mut c, src, &(i + 1).to_string()));
    }
    assert_eq!(replies.len(), inputs.len());
    for (i, frame) in replies.iter().enumerate() {
        assert_eq!(frame, &format!("{{\"ok\":\"{}\"}}", i + 1));
    }
}

#[test]
fn malformed_frame_closes_without_reply() {
    let mut c = Connection::new();
    assert!(is_close(&c.step(Event::Received(Inbound::Malformed))));
    assert!(c.is_closed());
    assert!(is_close(&c.step(text("1;"))));
    assert!(is_close(&c.step(Event::Parsed(Vec::new()))));
    assert!(is_close(&c.step(Event::Sent)));
    assert_eq!(c.phase(), Phase::Closed);
}

#[test]
fn peer_close_ends_connection() {
    let mut c = Connection::new();
    assert!(is_close(&c.step(Event::Received(Inbound::Closed))));
    assert!(c.is_closed());
}

#[test]
fn send_failure_ends_connection() {
    let mut c = Connection::new();
    parse_of(c.step(text("1;")));
    c.step(Event::Parsed(Vec::new()));
    sent(c.step(Event::Evaluated("1".to_string())));
    assert!(is_close(&c.step(Event::SendFailed)));
    assert!(c.is_closed());
}

#[test]
fn event_out_of_phase_ends_connection() {
    let mut c = Connection::new();
    assert!(is_close(&c.step(Event::Evaluated("1".to_string()))));
    assert!(c.is_closed());
    let mut d = Connection::new();
    parse_of(d.step(text("1;")));
    assert!(is_close(&d.step(text("2;"))));
}

#[test]
fn many_sessions_start_fresh() {
    for i in 0..50 {
        let mut c = Connection::new();
        assert_eq!(c.phase(), Phase::Awaiting);
        let src = format!("let x{} = {};", i, i);
        assert_eq!(parse_of(c.step(text(&src))), src);
        assert!(is_close(&c.step(Event::Received(Inbound::Closed))));
    }
    let fresh = Connection::new();
    assert_eq!(fresh.phase(), Phase::Awaiting);
}
