use codex_monitor_web::dispatch::{
    commit_message_reply, commit_prompt_reply, parse_call, Arg, FixedReply, Handler,
};

fn texts(args: &[Arg]) -> Vec<String> {
    args.iter()
        .map(|a| match a {
            Arg::Text(s) | Arg::Json(s) => s.clone(),
            Arg::MaybeText(Some(s)) | Arg::MaybeJson(Some(s)) => s.clone(),
            Arg::MaybeText(None) | Arg::MaybeJson(None) => "<none>".to_string(),
            Arg::Number(n) => format!("#{n:?}"),
            Arg::Dim(d) => format!("dim {d}"),
            Arg::Flag(b) => format!("flag {b}"),
            Arg::Texts(v) => v.join("|"),
            Arg::MaybeTexts(v) => format!("{v:?}"),
        })
        .collect()
}

#[test]
fn unknown_methods_are_named() {
    assert_eq!(parse_call("nope", "null").err(), Some("unknown method: nope".to_string()));
    assert_eq!(parse_call("", "{}").err(), Some("unknown method: ".to_string()));
}

#[test]
fn fixed_replies() {
    for m in ["ping", "apply_worktree_changes", "menu_set_accelerators", "send_notification_fallback"] {
        let c = parse_call(m, "null").unwrap();
        assert_eq!(c.handler, Handler::Fixed(FixedReply::Acknowledged));
        assert!(c.args.is_empty());
    }
    assert_eq!(parse_call("get_open_app_icon", "null").unwrap().handler, Handler::Fixed(FixedReply::NullValue));
}

#[test]
fn service_methods_are_recognised() {
    let c = parse_call("list_workspaces", "null").unwrap();
    assert_eq!(c.handler, Handler::Service);
    let c = parse_call("connect_workspace", "{\"id\":\"w1\"}").unwrap();
    assert_eq!((c.handler, texts(&c.args)), (Handler::Service, vec!["w1".to_string()]));
    assert_eq!(parse_call("connect_workspace", "{}").err(), Some("missing or invalid `id`".to_string()));
    assert_eq!(parse_call("remove_workspace", "[]").err(), Some("missing `id`".to_string()));
    assert_eq!(parse_call("reveal_item_in_dir", "{\"path\":\"/x\"}").unwrap().handler, Handler::Desktop);
}

#[test]
fn terminal_defaults_and_truncation() {
    let c = parse_call("terminal_open", "{\"workspaceId\":\"w1\",\"terminalId\":\"t1\"}").unwrap();
    assert_eq!(c.handler, Handler::TerminalOpen);
    assert_eq!(texts(&c.args), vec!["w1", "t1", "dim 120", "dim 40"]);
    let c = parse_call("terminal_resize", "{\"workspaceId\":\"w\",\"terminalId\":\"t\",\"cols\":70000,\"rows\":24}").unwrap();
    assert_eq!(texts(&c.args), vec!["w", "t", "dim 4464", "dim 24"]);
    assert_eq!(
        parse_call("terminal_write", "{\"workspaceId\":\"w\",\"terminalId\":\"t\"}").err(),
        Some("missing or invalid `data`".to_string())
    );
}

#[test]
fn first_failing_parameter_reports() {
    assert_eq!(
        parse_call("resume_thread", "{\"threadId\":5}").err(),
        Some("missing or invalid `workspaceId`".to_string())
    );
    assert_eq!(
        parse_call("resume_thread", "{\"workspaceId\":\"w\",\"threadId\":5}").err(),
        Some("missing or invalid `threadId`".to_string())
    );
}

#[test]
fn add_worktree_copies_agents_md_by_default() {
    let c = parse_call("add_worktree", "{\"parentId\":\"p\",\"branch\":\"b\"}").unwrap();
    assert_eq!(texts(&c.args), vec!["p", "b", "<none>", "flag true"]);
    let c = parse_call("add_worktree", "{\"parentId\":\"p\",\"branch\":\"b\",\"name\":\"n\",\"copyAgentsMd\":false}").unwrap();
    assert_eq!(texts(&c.args), vec!["p", "b", "n", "flag false"]);
}

#[test]
fn member_parameters() {
    assert_eq!(
        parse_call("start_review", "{\"workspaceId\":\"w\",\"threadId\":\"t\"}").err(),
        Some("missing `target`".to_string())
    );
    let c = parse_call("start_review", "{\"workspaceId\":\"w\",\"threadId\":\"t\",\"target\":{\"kind\":\"x\"}}").unwrap();
    assert_eq!(texts(&c.args), vec!["w", "t", "{\"kind\":\"x\"}", "<none>"]);
    let c = parse_call("update_app_settings", "{}").unwrap();
    assert_eq!(texts(&c.args), vec!["null"]);
}

#[test]
fn request_ids_must_be_numbers_or_strings() {
    let ok = parse_call("respond_to_server_request", "{\"workspaceId\":\"w\",\"requestId\":7,\"result\":{}}").unwrap();
    assert_eq!(texts(&ok.args), vec!["w", "7", "{}"]);
    assert!(parse_call("respond_to_server_request", "{\"workspaceId\":\"w\",\"requestId\":\"r\",\"result\":1}").is_ok());
    assert_eq!(
        parse_call("respond_to_server_request", "{\"workspaceId\":\"w\",\"requestId\":true,\"result\":1}").err(),
        Some("missing requestId".to_string())
    );
    assert_eq!(
        parse_call("respond_to_server_request", "{\"workspaceId\":\"w\",\"requestId\":1}").err(),
        Some("missing `result`".to_string())
    );
}

#[test]
fn numbers_and_lists() {
    assert_eq!(
        parse_call("get_github_pull_request_diff", "{\"workspaceId\":\"w\"}").err(),
        Some("missing prNumber".to_string())
    );
    let c = parse_call("get_github_pull_request_diff", "{\"workspaceId\":\"w\",\"prNumber\":12}").unwrap();
    assert_eq!(texts(&c.args), vec!["w", "#Some(12)"]);
    let c = parse_call("remember_approval_rule", "{\"workspaceId\":\"w\",\"command\":[\"git\",3,\"push\"]}").unwrap();
    assert_eq!(texts(&c.args), vec!["w", "git|push"]);
    assert_eq!(
        parse_call("remember_approval_rule", "{\"workspaceId\":\"w\"}").err(),
        Some("missing `command`".to_string())
    );
    let c = parse_call("file_read", "{\"scope\":\"global\"}").unwrap();
    assert_eq!(texts(&c.args), vec!["{\"scope\":\"global\"}"]);
}

#[test]
fn commit_replies_refuse_blank_diffs() {
    let msg = Some("No changes to generate commit message for".to_string());
    assert_eq!(commit_prompt_reply("  \n").err(), msg);
    assert_eq!(commit_message_reply("").err(), msg);
    assert!(commit_prompt_reply("diff").unwrap().ends_with("Changes:\ndiff"));
    assert_eq!(
        commit_message_reply("diff --git a/x b/x\n").unwrap(),
        "chore: update x"
    );
}
