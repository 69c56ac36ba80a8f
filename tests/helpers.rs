use codex_monitor_web::config::{default_data_dir, initial_token, parse_args, usage, Invocation};
use codex_monitor_web::files::{
    check_within_root, content_type_for_path, normalize_git_path, should_skip_dir,
    workspace_file_response, MAX_WORKSPACE_FILE_BYTES,
};
use codex_monitor_web::prompts::{
    build_commit_message_prompt, build_run_title, build_worktree_name, heuristic_commit_message,
    title_words, worktree_name_from_lower,
};
use codex_monitor_web::registry::Registry;
use codex_monitor_web::rpc::{
    narrow_u32, parse_optional_bool, parse_optional_string, parse_optional_u32, parse_string,
    string_param, unknown_method,
};
use codex_monitor_web::store::{connect_needs_spawn, detach, workspace_path};

#[test]
fn skipped_directories() {
    for d in [".git", "node_modules", "dist", "target", "release-artifacts"] {
        assert!(should_skip_dir(d));
    }
    assert!(!should_skip_dir("src"));
    assert!(!should_skip_dir(".github"));
    assert!(!should_skip_dir("Target"));
}

#[test]
fn git_paths_use_forward_slashes() {
    assert_eq!(normalize_git_path("a\\b\\c.rs"), "a/b/c.rs");
    assert_eq!(normalize_git_path("a/b"), "a/b");
    assert_eq!(normalize_git_path(""), "");
}

#[test]
fn content_types_by_extension() {
    assert_eq!(content_type_for_path("/x/logo.PNG"), "image/png");
    assert_eq!(content_type_for_path("a.jpeg"), "image/jpeg");
    assert_eq!(content_type_for_path("a.jpg"), "image/jpeg");
    assert_eq!(content_type_for_path("a.gif"), "image/gif");
    assert_eq!(content_type_for_path("a.webp"), "image/webp");
    assert_eq!(content_type_for_path("a.bmp"), "image/bmp");
    assert_eq!(content_type_for_path("icon.svg"), "image/svg+xml");
    assert_eq!(content_type_for_path("README.md"), "text/plain; charset=utf-8");
    assert_eq!(content_type_for_path("c.yml"), "text/plain; charset=utf-8");
    assert_eq!(content_type_for_path("Makefile"), "application/octet-stream");
    assert_eq!(content_type_for_path(".png"), "application/octet-stream");
    assert_eq!(content_type_for_path("a.exe"), "application/octet-stream");
}

#[test]
fn usage_text() {
    let u = usage();
    assert!(u.starts_with("USAGE:\n  codex-monitor-web [--listen <addr>]"));
    assert!(u.contains("Bind address (default: 127.0.0.1:4732)"));
    assert!(u.ends_with("Show this help\n"));
}

#[test]
fn commit_prompt_ends_with_diff() {
    let p = build_commit_message_prompt("DIFF");
    assert!(p.starts_with("Generate a concise git commit message for the following changes. Follow conventional commit format"));
    assert!(p.ends_with("nothing else.\n\nChanges:\nDIFF"));
}

#[test]
fn heuristic_messages() {
    assert_eq!(heuristic_commit_message(""), "chore: update workspace files");
    assert_eq!(
        heuristic_commit_message("diff --git a/src/x.rs b/src/x.rs\nindex 1..2\n"),
        "chore: update src/x.rs"
    );
    assert_eq!(
        heuristic_commit_message("diff --git a/a b/a\r\n+x\r\ndiff --git a/b b/b\ndiff --git a/c b/c"),
        "chore: update 3 files"
    );
    assert_eq!(heuristic_commit_message("diff --git a/only-a\n"), "chore: update workspace files");
}

#[test]
fn run_titles() {
    assert_eq!(build_run_title("   "), "New Task");
    assert_eq!(build_run_title("fix the  login bug"), "Fix The Login Bug");
    assert_eq!(build_run_title("one two three four five six seven eight"), "One Two Three Four Five Six Seven");
    assert_eq!(build_run_title("ßtraße"), "SStraße");
    assert_eq!(title_words(" a b "), vec!["a".to_string(), "b".to_string()]);
}

#[test]
fn worktree_names() {
    assert_eq!(build_worktree_name("Fix the Login bug!"), "feat/fix-the-login-bug");
    assert_eq!(build_worktree_name("a b c d e f g h"), "feat/a-b-c-d-e-f");
    assert_eq!(build_worktree_name("???"), "feat/new-task");
    assert_eq!(worktree_name_from_lower("--x--y--"), "feat/x-y");
}

#[test]
fn command_line() {
    let args: Vec<String> = vec![];
    match parse_args(&args, None, "/d".into()) {
        Ok(Invocation::Run(c)) => {
            assert_eq!(c.listen, "127.0.0.1:4732");
            assert_eq!(c.token, None);
            assert_eq!(c.data_dir, "/d");
        }
        _ => panic!("expected settings"),
    }
    let args: Vec<String> = ["--listen", "0.0.0.0:1", "--token", " t ", "--data-dir", " /x "]
        .iter()
        .map(|s| s.to_string())
        .collect();
    match parse_args(&args, Some("env".into()), "/d".into()) {
        Ok(Invocation::Run(c)) => {
            assert_eq!(c.listen, "0.0.0.0:1");
            assert_eq!(c.token, Some("t".to_string()));
            assert_eq!(c.data_dir, "/x");
        }
        _ => panic!("expected settings"),
    }
    let one = |a: &str| vec![a.to_string()];
    assert!(matches!(parse_args(&one("-h"), None, "/d".into()), Ok(Invocation::Help)));
    assert_eq!(parse_args(&one("--token"), None, "/d".into()).err(), Some("--token requires a value".to_string()));
    assert_eq!(
        parse_args(&vec!["--token".into(), "  ".into()], None, "/d".into()).err(),
        Some("--token requires a non-empty value".to_string())
    );
    assert_eq!(parse_args(&one("--bogus"), None, "/d".into()).err(), Some("Unknown argument: --bogus".to_string()));
}

#[test]
fn environment_token() {
    assert_eq!(initial_token(Some(" a ".into()), Some("b".into())), Some("a".to_string()));
    assert_eq!(initial_token(None, Some("b".into())), Some("b".to_string()));
    assert_eq!(initial_token(Some("  ".into()), Some("b".into())), None);
    assert_eq!(initial_token(None, None), None);
}

#[test]
fn routes_and_params() {
    assert_eq!(unknown_method("nope"), "unknown method: nope");
    let p = "{\"workspaceId\":\"w\",\"cols\":80,\"big\":5000000000,\"on\":true}";
    assert_eq!(parse_string(p, "workspaceId"), Ok("w".to_string()));
    assert_eq!(parse_string(p, "terminalId"), Err("missing or invalid `terminalId`".to_string()));
    assert_eq!(parse_string(p, "cols"), Err("missing or invalid `cols`".to_string()));
    assert_eq!(parse_string("null", "x"), Err("missing `x`".to_string()));
    assert_eq!(parse_string("\"s\"", "x"), Err("missing `x`".to_string()));
    assert_eq!(parse_optional_string(p, "workspaceId"), Some("w".to_string()));
    assert_eq!(parse_optional_string(p, "cols"), None);
    assert_eq!(parse_optional_u32(p, "cols"), Some(80));
    assert_eq!(parse_optional_u32(p, "big"), None);
    assert_eq!(parse_optional_u32(p, "missing"), None);
    assert_eq!(parse_optional_bool(p, "on"), Some(true));
    assert_eq!(parse_optional_bool(p, "cols"), None);
    assert_eq!(narrow_u32(Some(1 << 40)), None);
}

#[test]
fn workspace_store_rules() {
    let mut ws: Registry<String> = Registry::new();
    assert_eq!(ws.insert_if_absent("w1".into(), "/repo".into()), None);
    assert_eq!(workspace_path(&ws, &"w1".to_string()), Ok("/repo".to_string()));
    assert_eq!(workspace_path(&ws, &"w2".to_string()), Err("Unknown workspace".to_string()));
    let mut sessions: Registry<u8> = Registry::new();
    assert!(connect_needs_spawn(&sessions, &"w1".to_string()));
    sessions.insert_if_absent("w1".into(), 1);
    assert!(!connect_needs_spawn(&sessions, &"w1".to_string()));
    let failed = Err("Failed to remove worktree folder".to_string());
    assert_eq!(detach(&mut ws, &"w1".to_string(), failed.clone()), failed);
    assert!(!ws.contains_key(&"w1".to_string()));
}

#[test]
fn file_response_truncates_and_checks_utf8() {
    let r = workspace_file_response("héllo".as_bytes().to_vec()).unwrap();
    assert_eq!(r.content, "héllo");
    assert!(!r.truncated);
    let big = vec![b'a'; MAX_WORKSPACE_FILE_BYTES + 1];
    let r = workspace_file_response(big).unwrap();
    assert_eq!(r.content.len(), MAX_WORKSPACE_FILE_BYTES);
    assert!(r.truncated);
    let exact = vec![b'b'; MAX_WORKSPACE_FILE_BYTES];
    assert!(!workspace_file_response(exact).unwrap().truncated);
    assert_eq!(workspace_file_response(vec![0xff, b'a']).err(), Some("File is not valid UTF-8".to_string()));
}

#[test]
fn paths_must_stay_inside_root() {
    assert_eq!(check_within_root("/ws/repo", "/ws/repo/src/main.rs"), Ok(()));
    assert_eq!(check_within_root("/ws/repo", "/ws/repo"), Ok(()));
    assert_eq!(check_within_root("/ws/repo", "/ws/repository/x"), Err("Invalid file path".to_string()));
    assert_eq!(check_within_root("/ws/repo", "/etc/passwd"), Err("Invalid file path".to_string()));
}

#[test]
fn default_data_directories() {
    assert_eq!(default_data_dir(Some(" /xdg ".into()), Some("/home/u".into())), "/xdg/codex-monitor-web");
    assert_eq!(default_data_dir(Some("  ".into()), Some("/home/u".into())), "/home/u/.local/share/codex-monitor-web");
    assert_eq!(default_data_dir(None, Some("/home/u/".into())), "/home/u/.local/share/codex-monitor-web");
    assert_eq!(default_data_dir(None, None), "./.local/share/codex-monitor-web");
}

#[test]
fn string_param_errors() {
    assert_eq!(string_param(false, None, "id"), Err("missing `id`".to_string()));
    assert_eq!(string_param(true, None, "id"), Err("missing or invalid `id`".to_string()));
    assert_eq!(string_param(true, Some("v".into()), "id"), Ok("v".to_string()));
}
