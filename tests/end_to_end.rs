use codex_monitor_web::events::{build_event_notification, DaemonEvent};
use codex_monitor_web::gateway::{Action, Connection};
use codex_monitor_web::registry::Registry;
use codex_monitor_web::store::workspace_path;
use codex_monitor_web::terminal::{pty_dimension, TerminalRegistry};
use codex_monitor_web::utf8::Utf8Stream;

#[test]
fn terminal_session_lifecycle() {
    let mut workspaces: Registry<String> = Registry::new();
    workspaces.insert_if_absent("w1".into(), "/tmp".into());
    let mut terminals: TerminalRegistry<&str> = TerminalRegistry::new();

    // (1) open t1 for w1 at 80x24.
    assert_eq!(terminals.open_status("w1", "t1"), Ok(false));
    assert_eq!(workspace_path(&workspaces, &"w1".to_string()), Ok("/tmp".to_string()));
    assert_eq!((pty_dimension(80), pty_dimension(24)), (80, 24));
    assert_eq!(terminals.register("w1", "t1", "pty-1"), None);

    // (2) the write succeeds.
    assert_eq!(terminals.session("w1", "t1"), Ok(&"pty-1"));
    assert_eq!(terminals.settle("w1", "t1", Ok(())), Ok(()));

    // (3) the shell's echo comes back as output for w1/t1, split across reads.
    let mut stream = Utf8Stream::new();
    let mut text = stream.feed(b"echo hi\r\nh");
    text.push_str(&stream.feed(b"i\r\n"));
    assert!(text.contains("hi"));
    let frame = build_event_notification(&DaemonEvent::TerminalOutput {
        workspace_id: "w1".into(),
        terminal_id: "t1".into(),
        data: text,
    })
    .unwrap();
    assert!(frame.contains("\"workspaceId\":\"w1\",\"terminalId\":\"t1\""));
    assert!(frame.contains("hi"));

    // (4) close succeeds; (5) a later write fails as not found.
    assert_eq!(terminals.close("w1", "t1"), Ok("pty-1"));
    assert_eq!(terminals.session("w1", "t1"), Err("Terminal session not found".to_string()));
}

#[test]
fn unauthenticated_list_workspaces_is_unauthorized() {
    let secret = "top".to_string();
    let mut connection = Connection::new(Some(&secret), None);
    match connection.receive("{\"id\":1,\"method\":\"list_workspaces\"}", Some(&secret)) {
        Action::Reply(Some(frame)) => {
            assert_eq!(frame, "{\"id\":1,\"error\":{\"message\":\"unauthorized\"}}")
        }
        _ => panic!("expected an unauthorized reply"),
    }
}

#[test]
fn open_twice_spawns_once() {
    let mut terminals: TerminalRegistry<u32> = TerminalRegistry::new();
    let mut spawned = 0;
    for _ in 0..2 {
        if terminals.open_status("w1", "t1") == Ok(false) {
            spawned += 1;
            assert_eq!(terminals.register("w1", "t1", spawned), None);
        }
    }
    assert_eq!(spawned, 1);
    assert_eq!(terminals.session("w1", "t1"), Ok(&1));
}
