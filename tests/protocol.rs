use backend_supervisor::handshake::{handshake_step, HandshakeError, HandshakeInput, HandshakeStep, HANDSHAKE_TIMEOUT_MS};
use backend_supervisor::message::{decode_error_message, decode_handshake, encode_command, lossy_text, decode_response, handshake_input, ResponseLine};
use backend_supervisor::protocol::{classify_line, heartbeat_ack_line, StdoutLine};
use backend_supervisor::supervisor::{BackendManager, SupervisorEvent};
use backend_supervisor::types::{BackendState, HandshakeData};

const READY_LINE: &str = r#"HANDSHAKE:{"type":"handshake","status":"ready","host":"127.0.0.1","port":11017,"api_base":"http://127.0.0.1:11017","endpoints":{"health":"/health","shutdown":"/shutdown"}}"#;

fn ready_data() -> HandshakeData {
    match classify_line(READY_LINE.as_bytes()) {
        StdoutLine::Handshake(json) => decode_handshake(&json).unwrap(),
        other => panic!("unexpected {:?}", other),
    }
}

#[test]
fn ready_handshake_line_makes_store_running_on_its_port() {
    let step = handshake_step(1200, HANDSHAKE_TIMEOUT_MS, handshake_input(READY_LINE.as_bytes()));
    let info = match step {
        HandshakeStep::Ready(info) => info,
        other => panic!("unexpected {:?}", other),
    };
    assert_eq!(info.port, 11017);
    assert_eq!(info.host, "127.0.0.1");
    assert_eq!(info.endpoints.health, "/health");
    let mut m = BackendManager::new();
    m.start_backend();
    m.handle(SupervisorEvent::HandshakeSucceeded { info, now_secs: 1 });
    assert_eq!(m.get_status().running_port(), Some(11017));
}

#[test]
fn handshake_just_before_deadline_succeeds_and_just_after_times_out() {
    let before = handshake_step(HANDSHAKE_TIMEOUT_MS - 1, HANDSHAKE_TIMEOUT_MS, HandshakeInput::Announcement(Some(ready_data())));
    assert!(matches!(before, HandshakeStep::Ready(_)));
    let after = handshake_step(HANDSHAKE_TIMEOUT_MS + 1, HANDSHAKE_TIMEOUT_MS, HandshakeInput::Announcement(Some(ready_data())));
    assert_eq!(after, HandshakeStep::Failed(HandshakeError::Timeout));
    let at = handshake_step(HANDSHAKE_TIMEOUT_MS, HANDSHAKE_TIMEOUT_MS, HandshakeInput::Quiet);
    assert_eq!(at, HandshakeStep::Failed(HandshakeError::Timeout));
}

#[test]
fn noise_line_is_diagnostic_and_keeps_waiting() {
    for line in ["Loading pandas...", "{not json", "", "HANDSHAKE", "heartbeat", "HEARTBEATS"] {
        assert!(matches!(classify_line(line.as_bytes()), StdoutLine::Diagnostic), "{}", line);
    }
    assert_eq!(handshake_step(10, HANDSHAKE_TIMEOUT_MS, HandshakeInput::Other), HandshakeStep::Waiting);
    assert_eq!(handshake_step(10, HANDSHAKE_TIMEOUT_MS, HandshakeInput::Quiet), HandshakeStep::Waiting);
}

#[test]
fn prefixes_and_tokens_are_recognised() {
    match classify_line(b"ERROR:{\"error\":\"port in use\"}") {
        StdoutLine::Error(json) => assert_eq!(json, b"{\"error\":\"port in use\"}".to_vec()),
        other => panic!("unexpected {:?}", other),
    }
    match classify_line(b"HANDSHAKE:") {
        StdoutLine::Handshake(json) => assert!(json.is_empty()),
        other => panic!("unexpected {:?}", other),
    }
    assert!(matches!(classify_line(b"HEARTBEAT"), StdoutLine::Heartbeat));
    assert_eq!(heartbeat_ack_line(), b"HEARTBEAT_ACK".to_vec());
}

#[test]
fn error_line_fails_with_its_message() {
    let json = match classify_line(b"ERROR:{\"error\":\"port in use\"}") {
        StdoutLine::Error(json) => json,
        other => panic!("unexpected {:?}", other),
    };
    let message = decode_error_message(&json);
    let step = handshake_step(5, HANDSHAKE_TIMEOUT_MS, HandshakeInput::StartupError(message));
    assert_eq!(step, HandshakeStep::Failed(HandshakeError::Reported("port in use".to_string())));
    let unknown = handshake_step(5, HANDSHAKE_TIMEOUT_MS, HandshakeInput::StartupError(None));
    assert_eq!(unknown, HandshakeStep::Failed(HandshakeError::Reported("Unknown error".to_string())));
    if let HandshakeStep::Failed(e) = step {
        assert_eq!(e.describe(), "Backend startup error: port in use");
    }
}

#[test]
fn announcement_that_is_not_ready_keeps_waiting() {
    let mut d = ready_data();
    d.status = "starting".to_string();
    assert_eq!(handshake_step(5, HANDSHAKE_TIMEOUT_MS, HandshakeInput::Announcement(Some(d))), HandshakeStep::Waiting);
    let mut d = ready_data();
    d.port = None;
    assert_eq!(handshake_step(5, HANDSHAKE_TIMEOUT_MS, HandshakeInput::Announcement(Some(d))), HandshakeStep::Waiting);
    assert_eq!(
        handshake_step(5, HANDSHAKE_TIMEOUT_MS, HandshakeInput::Announcement(None)),
        HandshakeStep::Failed(HandshakeError::Malformed)
    );
}

#[test]
fn closed_or_broken_stream_fails() {
    assert_eq!(handshake_step(5, HANDSHAKE_TIMEOUT_MS, HandshakeInput::Closed), HandshakeStep::Failed(HandshakeError::Timeout));
    assert_eq!(
        handshake_step(5, HANDSHAKE_TIMEOUT_MS, HandshakeInput::ReadFailed("eof".to_string())),
        HandshakeStep::Failed(HandshakeError::ReadFailed("eof".to_string()))
    );
    assert_eq!(
        HandshakeError::Timeout.describe(),
        "Handshake timeout: Backend did not respond within 30 seconds"
    );
    assert_eq!(HandshakeError::Malformed.describe(), "Failed to parse handshake JSON");
    assert_eq!(
        HandshakeError::Unparsed("ERROR:oops".to_string()).describe(),
        "Backend reported error: ERROR:oops"
    );
    assert_eq!(HandshakeError::ReadFailed("eof".to_string()).describe(), "Failed to read line: eof");
}

#[test]
fn into_backend_info_requires_ready_and_all_fields() {
    let info = ready_data().into_backend_info().unwrap();
    assert_eq!(info.api_base, "http://127.0.0.1:11017");
    let mut d = ready_data();
    d.message_type = "hello".to_string();
    assert_eq!(d.into_backend_info(), None);
    let _ = BackendState::NotStarted;
}

#[test]
fn handshake_input_decodes_prefixed_json() {
    match handshake_input(READY_LINE.as_bytes()) {
        HandshakeInput::Announcement(Some(d)) => {
            assert_eq!(d.message_type, "handshake");
            assert_eq!(d.status, "ready");
            assert_eq!(d.port, Some(11017));
            assert_eq!(d.endpoints.unwrap().shutdown, "/shutdown");
            assert_eq!(d.error, None);
        }
        other => panic!("unexpected {:?}", other),
    }
    assert!(matches!(handshake_input(b"HANDSHAKE:{oops"), HandshakeInput::Announcement(None)));
    assert!(matches!(
        handshake_input(b"ERROR:{\"error\":\"missing module\"}"),
        HandshakeInput::StartupError(Some(ref m)) if m == "missing module"
    ));
    match handshake_input(b"ERROR:not json") {
        HandshakeInput::UnparsedError(line) => assert_eq!(line, "ERROR:not json"),
        other => panic!("unexpected {:?}", other),
    }
    assert!(matches!(handshake_input(b"ERROR:{\"code\":3}"), HandshakeInput::StartupError(None)));
    assert!(matches!(handshake_input(b"starting server"), HandshakeInput::Other));
    assert!(matches!(handshake_input(b"HEARTBEAT"), HandshakeInput::Other));
}

#[test]
fn handshake_decoding_checks_member_kinds() {
    assert!(decode_handshake(br#"{"status":"ready"}"#).is_none());
    assert!(decode_handshake(br#"{"type":"handshake","status":"ready","port":70000}"#).is_none());
    assert!(decode_handshake(br#"{"type":"handshake","status":"ready","host":5}"#).is_none());
    assert!(decode_handshake(br#"{"type":"handshake","status":"ready","endpoints":{"health":"/h"}}"#).is_none());
    let d = decode_handshake(br#"{"type":"handshake","status":"ready","port":null,"host":null}"#).unwrap();
    assert_eq!((d.port, d.host), (None, None));
    assert!(decode_handshake(b"").is_none());
}

#[test]
fn response_lines_decode_their_members() {
    assert_eq!(
        decode_response(br#"{"id":7,"success":true,"data":{"rows":[1,2]},"error":null}"#),
        Some(ResponseLine { id: Some(7), success: Some(true), data: r#"{"rows":[1,2]}"#.to_string(), error: None })
    );
    assert_eq!(
        decode_response(br#"{"success":false,"error":"bad"}"#),
        Some(ResponseLine { id: None, success: Some(false), data: "null".to_string(), error: Some("bad".to_string()) })
    );
    assert_eq!(decode_response(b"Traceback (most recent call last):"), None);
    assert_eq!(decode_response(b"3"), Some(ResponseLine { id: None, success: None, data: "null".to_string(), error: None }));
}

#[test]
fn undecodable_error_line_is_reported_whole() {
    let step = handshake_step(5, HANDSHAKE_TIMEOUT_MS, handshake_input(b"ERROR:Traceback"));
    match step {
        HandshakeStep::Failed(e) => assert_eq!(e.describe(), "Backend reported error: ERROR:Traceback"),
        other => panic!("unexpected {:?}", other),
    }
    let step = handshake_step(5, HANDSHAKE_TIMEOUT_MS, handshake_input(b"ERROR:{}"));
    match step {
        HandshakeStep::Failed(e) => assert_eq!(e.describe(), "Backend startup error: Unknown error"),
        other => panic!("unexpected {:?}", other),
    }
}

#[test]
fn stream_closing_early_is_a_timeout() {
    match handshake_step(10, HANDSHAKE_TIMEOUT_MS, HandshakeInput::Closed) {
        HandshakeStep::Failed(e) => assert!(e.describe().starts_with("Handshake timeout")),
        other => panic!("unexpected {:?}", other),
    }
}

#[test]
fn commands_are_framed_with_their_id() {
    assert_eq!(encode_command(7, "ping", "{}"), r#"{"id":7,"type":"ping","params":{}}"#);
    assert_eq!(
        encode_command(12, "preview \"x\"", r#"{"file_path":"a.xlsx"}"#),
        r#"{"id":12,"type":"preview \"x\"","params":{"file_path":"a.xlsx"}}"#
    );
    assert_eq!(lossy_text(b"ok\xff"), "ok\u{FFFD}");
    assert_eq!(
        encode_command(1, "a\tb\\c\u{1}\u{1f}é/", "null"),
        "{\"id\":1,\"type\":\"a\\tb\\\\c\\u0001\\u001fé/\",\"params\":null}"
    );
}
