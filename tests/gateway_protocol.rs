use codex_monitor_web::events::{build_event_notification, forward_step, DaemonEvent, Delivery, Forward};
use codex_monitor_web::gateway::{
    build_error_response, build_result_text_response, decode_request,
    intake, parse_auth_token, token_accepted, Action, Connection, Inbound, Intake, Verdict,
};

fn secret() -> String {
    "s3cret".to_string()
}

#[test]
fn error_reply_frame() {
    assert_eq!(
        build_error_response(Some(1), "unauthorized"),
        Some("{\"id\":1,\"error\":{\"message\":\"unauthorized\"}}".to_string())
    );
    assert_eq!(build_error_response(None, "unauthorized"), None);
}

#[test]
fn error_reply_escapes_message() {
    assert_eq!(
        build_error_response(Some(42), "bad \"x\"\n"),
        Some("{\"id\":42,\"error\":{\"message\":\"bad \\\"x\\\"\\n\"}}".to_string())
    );
}

#[test]
fn result_reply_frames() {
    assert_eq!(
        build_result_text_response(Some(7), "{\"ok\":true}"),
        Some("{\"id\":7,\"result\":{\"ok\":true}}".to_string())
    );
    assert_eq!(build_result_text_response(Some(3), "[1,\"a\"]"), Some("{\"id\":3,\"result\":[1,\"a\"]}".to_string()));
    assert_eq!(build_result_text_response(None, "[1]"), None);
}

#[test]
fn decode_reads_id_method_params() {
    let r = decode_request("  {\"id\":5,\"method\":\"ping\",\"params\":{\"a\":1}}  \n").unwrap();
    assert_eq!(r.id, Some(5));
    assert_eq!(r.method, "ping");
    assert_eq!(r.params, "{\"a\":1}");
    let r = decode_request("{\"method\":\"ping\"}").unwrap();
    assert_eq!(r.id, None);
    assert_eq!(r.params, "null");
}

#[test]
fn blank_and_malformed_frames_are_dropped() {
    assert!(decode_request("").is_none());
    assert!(decode_request("   \n").is_none());
    assert!(decode_request("{not json").is_none());
}

#[test]
fn auth_token_from_string_or_object() {
    assert_eq!(parse_auth_token("\"abc\""), Some("abc".to_string()));
    assert_eq!(parse_auth_token("{\"token\":\"xyz\"}"), Some("xyz".to_string()));
    assert_eq!(parse_auth_token("{\"token\":5}"), None);
    assert_eq!(parse_auth_token("null"), None);
}

#[test]
fn connection_without_secret_starts_authenticated() {
    let c = Connection::new(None, None);
    assert!(c.is_authenticated());
}

#[test]
fn connection_with_secret_in_query() {
    let s = secret();
    assert!(Connection::new(Some(&s), Some(&s)).is_authenticated());
    let wrong = "nope".to_string();
    assert!(!Connection::new(Some(&s), Some(&wrong)).is_authenticated());
    assert!(!Connection::new(Some(&s), None).is_authenticated());
    assert!(token_accepted(None, None));
    assert!(!token_accepted(Some(&s), None));
}

#[test]
fn unauthenticated_request_is_refused() {
    let s = secret();
    let mut c = Connection::new(Some(&s), None);
    match c.receive("{\"id\":1,\"method\":\"list_workspaces\"}", Some(&s)) {
        Action::Reply(Some(f)) => assert_eq!(f, "{\"id\":1,\"error\":{\"message\":\"unauthorized\"}}"),
        _ => panic!("expected an unauthorized reply"),
    }
    assert!(!c.is_authenticated());
    // Without an id nothing is sent back.
    assert!(matches!(c.receive("{\"method\":\"ping\"}", Some(&s)), Action::Reply(None)));
}

#[test]
fn wrong_token_is_refused() {
    let s = secret();
    let mut c = Connection::new(Some(&s), None);
    match c.receive("{\"id\":2,\"method\":\"auth\",\"params\":{\"token\":\"bad\"}}", Some(&s)) {
        Action::Reply(Some(f)) => assert_eq!(f, "{\"id\":2,\"error\":{\"message\":\"invalid token\"}}"),
        _ => panic!("expected an invalid-token reply"),
    }
    assert!(!c.is_authenticated());
}

#[test]
fn auth_then_dispatch() {
    let s = secret();
    let mut c = Connection::new(Some(&s), None);
    match c.receive("{\"id\":3,\"method\":\"auth\",\"params\":\"s3cret\"}", Some(&s)) {
        Action::Subscribe(Some(f)) => assert_eq!(f, "{\"id\":3,\"result\":{\"ok\":true}}"),
        _ => panic!("expected authentication"),
    }
    assert!(c.is_authenticated());
    match c.receive("{\"id\":4,\"method\":\"list_workspaces\"}", Some(&s)) {
        Action::Dispatch(r) => {
            assert_eq!(r.id, Some(4));
            assert_eq!(r.method, "list_workspaces");
        }
        _ => panic!("expected dispatch"),
    }
    // A later auth request is just another request.
    assert!(matches!(c.receive("{\"id\":5,\"method\":\"auth\",\"params\":\"x\"}", Some(&s)), Action::Dispatch(_)));
    assert!(c.is_authenticated());
}

#[test]
fn judge_decisions() {
    let s = secret();
    let mut c = Connection::new(Some(&s), None);
    let m = "auth".to_string();
    assert!(matches!(c.judge(Some(1), &m, Some("bad".into()), Some(&s)), Verdict::Refuse(Some(_))));
    assert!(matches!(c.judge(None, &m, Some(s.clone()), Some(&s)), Verdict::Welcome(None)));
    assert!(matches!(c.judge(Some(9), &"x".to_string(), None, Some(&s)), Verdict::Pass));
}

#[test]
fn malformed_frame_is_ignored() {
    let s = secret();
    let mut c = Connection::new(Some(&s), None);
    assert!(matches!(c.receive("", Some(&s)), Action::Ignore));
    assert!(matches!(c.receive("hello", Some(&s)), Action::Ignore));
    assert!(!c.is_authenticated());
}

#[test]
fn terminal_output_notification() {
    let e = DaemonEvent::TerminalOutput {
        workspace_id: "w1".into(),
        terminal_id: "t1".into(),
        data: "hi\r\n".into(),
    };
    assert_eq!(
        build_event_notification(&e),
        Some("{\"method\":\"terminal-output\",\"params\":{\"workspaceId\":\"w1\",\"terminalId\":\"t1\",\"data\":\"hi\\r\\n\"}}".to_string())
    );
}

#[test]
fn terminal_exit_notification() {
    let e = DaemonEvent::TerminalExit { workspace_id: "w1".into(), terminal_id: "t1".into() };
    assert_eq!(
        build_event_notification(&e),
        Some("{\"method\":\"terminal-exit\",\"params\":{\"workspaceId\":\"w1\",\"terminalId\":\"t1\"}}".to_string())
    );
}

#[test]
fn agent_event_notification() {
    assert_eq!(
        build_event_notification(&DaemonEvent::AppServer("{\"k\":1}".into())),
        Some("{\"method\":\"app-server-event\",\"params\":{\"k\":1}}".to_string())
    );
}

#[test]
fn lagging_subscriber_skips_and_continues() {
    assert!(matches!(forward_step(Delivery::Lagged), Forward::Skip));
    assert!(matches!(forward_step(Delivery::Closed), Forward::Stop));
    let e = DaemonEvent::TerminalExit { workspace_id: "w".into(), terminal_id: "t".into() };
    assert!(matches!(forward_step(Delivery::Event(&e)), Forward::Send(_)));
}

#[test]
fn transport_messages() {
    assert!(matches!(intake(Inbound::Text("x".into())), Intake::Frame(f) if f == "x"));
    assert!(matches!(intake(Inbound::Binary("é".as_bytes().to_vec())), Intake::Frame(f) if f == "é"));
    assert!(matches!(intake(Inbound::Binary(vec![0xff])), Intake::Skip));
    assert!(matches!(intake(Inbound::Control), Intake::Skip));
    assert!(matches!(intake(Inbound::Close), Intake::Stop));
}

#[test]
fn error_reply_escapes_control_characters() {
    assert_eq!(
        build_error_response(Some(0), "a\u{1}\u{1f}\t\\/é"),
        Some("{\"id\":0,\"error\":{\"message\":\"a\\u0001\\u001f\\t\\\\/é\"}}".to_string())
    );
}

#[test]
fn authenticated_request_is_dispatched_with_its_params() {
    let mut c = Connection::new(None, None);
    match c.receive(" {\"id\":8,\"method\":\"terminal_write\",\"params\":{\"data\":\"x\"}} ", None) {
        Action::Dispatch(r) => {
            assert_eq!(r.id, Some(8));
            assert_eq!(r.method, "terminal_write");
            assert_eq!(r.params, "{\"data\":\"x\"}");
        }
        _ => panic!("expected dispatch"),
    }
}
