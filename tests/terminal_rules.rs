use codex_monitor_web::terminal::{
    is_terminal_closed_error, pty_dimension, resolve_locale, shell_path, terminal_key,
    TerminalRegistry,
};

#[test]
fn key_joins_ids_with_colon() {
    assert_eq!(terminal_key("w1", "t1"), "w1:t1");
    assert_eq!(terminal_key("", ""), ":");
}

#[test]
fn closed_error_signatures() {
    assert!(is_terminal_closed_error("Failed to write to pty: Broken pipe (os error 32)"));
    assert!(is_terminal_closed_error("Input/output error"));
    assert!(is_terminal_closed_error("os error 5"));
    assert!(is_terminal_closed_error("EIO"));
    assert!(is_terminal_closed_error("some IO Error happened"));
    assert!(is_terminal_closed_error("socket is Not Connected"));
    assert!(is_terminal_closed_error("channel CLOSED"));
    assert!(!is_terminal_closed_error("Failed to resize pty: invalid argument"));
    assert!(!is_terminal_closed_error(""));
}

#[test]
fn pty_dimensions_have_a_floor_of_two() {
    assert_eq!(pty_dimension(0), 2);
    assert_eq!(pty_dimension(1), 2);
    assert_eq!(pty_dimension(2), 2);
    assert_eq!(pty_dimension(80), 80);
    assert_eq!(pty_dimension(u16::MAX), u16::MAX);
}

#[test]
fn locale_prefers_utf8_settings() {
    assert_eq!(resolve_locale(Some("de_DE.UTF-8".into()), Some("C".into())), "de_DE.UTF-8");
    assert_eq!(resolve_locale(None, Some("fr_FR.utf8".into())), "fr_FR.utf8");
    assert_eq!(resolve_locale(Some("C".into()), Some("fr_FR.UTF-8".into())), "en_US.UTF-8");
    assert_eq!(resolve_locale(None, None), "en_US.UTF-8");
}

#[test]
fn shell_defaults_to_zsh() {
    assert_eq!(shell_path(Some("/bin/bash".into())), "/bin/bash");
    assert_eq!(shell_path(None), "/bin/zsh");
}

#[test]
fn open_is_idempotent() {
    let mut reg: TerminalRegistry<u32> = TerminalRegistry::new();
    assert_eq!(reg.open_status("w1", "t1"), Ok(false));
    assert_eq!(reg.register("w1", "t1", 7), None);
    // A second open finds the terminal: nothing is spawned.
    assert_eq!(reg.open_status("w1", "t1"), Ok(true));
    assert_eq!(reg.session("w1", "t1"), Ok(&7));
}

#[test]
fn racing_opens_converge_to_first() {
    let mut reg: TerminalRegistry<u32> = TerminalRegistry::new();
    assert_eq!(reg.register("w1", "t1", 1), None);
    assert_eq!(reg.register("w1", "t1", 2), Some(2));
    assert_eq!(reg.session("w1", "t1"), Ok(&1));
}

#[test]
fn blank_terminal_id_is_refused() {
    let reg: TerminalRegistry<u32> = TerminalRegistry::new();
    assert_eq!(reg.open_status("w1", "  "), Err("Terminal id is required".to_string()));
    assert_eq!(reg.open_status("w1", ""), Err("Terminal id is required".to_string()));
}

#[test]
fn closed_write_evicts_session() {
    let mut reg: TerminalRegistry<u32> = TerminalRegistry::new();
    reg.register("w1", "t1", 1);
    let err = "Failed to write to pty: Input/output error (os error 5)".to_string();
    assert_eq!(reg.settle("w1", "t1", Err(err.clone())), Err(err));
    assert_eq!(reg.session("w1", "t1"), Err("Terminal session not found".to_string()));
}

#[test]
fn other_write_errors_keep_session() {
    let mut reg: TerminalRegistry<u32> = TerminalRegistry::new();
    reg.register("w1", "t1", 1);
    let err = "Failed to resize pty: invalid argument".to_string();
    assert_eq!(reg.settle("w1", "t1", Err(err.clone())), Err(err));
    assert_eq!(reg.session("w1", "t1"), Ok(&1));
    assert_eq!(reg.settle("w1", "t1", Ok(())), Ok(()));
    assert_eq!(reg.session("w1", "t1"), Ok(&1));
}

#[test]
fn close_takes_session_out() {
    let mut reg: TerminalRegistry<u32> = TerminalRegistry::new();
    reg.register("w1", "t1", 5);
    assert_eq!(reg.close("w1", "t1"), Ok(5));
    assert_eq!(reg.close("w1", "t1"), Err("Terminal session not found".to_string()));
    assert_eq!(reg.session("w1", "t1"), Err("Terminal session not found".to_string()));
    assert_eq!(reg.open_status("w1", "t1"), Ok(false));
}

#[test]
fn terminals_of_different_workspaces_are_separate() {
    let mut reg: TerminalRegistry<u32> = TerminalRegistry::new();
    reg.register("w1", "t1", 1);
    reg.register("w2", "t1", 2);
    assert_eq!(reg.session("w1", "t1"), Ok(&1));
    assert_eq!(reg.session("w2", "t1"), Ok(&2));
}
