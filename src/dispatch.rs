//! The request dispatcher's decisions: which methods the daemon knows, which
//! handler serves each, and which parameters each reads, in which order,
//! with which defaults and which errors. The handlers themselves run in the
//! caller.
use vstd::prelude::*;

use crate::json::{
    is_number_text, items_of, json_is_number, json_is_object, json_items_of, json_member_text, json_str_of,
    member_text,
    str_of,
};
use crate::rpc::{
    member_bool, member_str, member_u32, missing_msg, parse_optional_bool, parse_optional_string,
    parse_optional_u32, parse_string, string_param_of, unknown_method, unknown_method_msg,
};
use crate::prompts::{
    build_commit_message_prompt, changed_files, commit_message_for, commit_prompt, heuristic_commit_message,
};
use crate::text::{blank, is_blank, push_all, text_of};

verus! {

/// A reply that needs no handler.
#[derive(Clone, Copy, Debug, PartialEq, Eq)]
pub enum FixedReply {
    /// `{"ok":true}`.
    Acknowledged,
    /// JSON `null`.
    NullValue,
}

/// What serves a known method.
#[derive(Clone, Copy, Debug, PartialEq, Eq)]
pub enum Handler {
    /// A fixed reply.
    Fixed(FixedReply),
    TerminalOpen,
    TerminalWrite,
    TerminalResize,
    TerminalClose,
    ListWorkspaceFiles,
    ReadWorkspaceFile,
    GenerateRunMetadata,
    CodexDoctor,
    /// The prompt asking for a commit message for the workspace's diff.
    CommitMessagePrompt,
    /// A commit message guessed from the workspace's diff.
    CommitMessage,
    /// Opening a path in the desktop's file manager or another application.
    Desktop,
    /// The workspace service: workspaces, worktrees, agent sessions, git,
    /// files under policy, prompts, settings and usage.
    Service,
}

/// How one parameter is read from a request's parameters.
#[derive(Clone, Copy, Debug, PartialEq, Eq)]
pub enum Kind {
    /// A required string member; its error names the member.
    Str,
    /// An optional string member.
    OptStr,
    /// An optional member that is a number fitting a `u32`.
    OptU32,
    /// A terminal dimension: a number fitting a `u32`, else the default, cut to 16 bits.
    Dim(u32),
    /// A required number fitting a `u32`; the error is "missing" and the name.
    NeedU32,
    /// A boolean member, else the default.
    BoolOr(bool),
    /// A required array member; its string items are kept.
    StrList,
    /// An optional array member; its string items are kept.
    OptStrList,
    /// A required member of any kind, as JSON text.
    Member,
    /// An optional member of any kind, as JSON text.
    OptMember,
    /// A member of any kind as JSON text, `null` when absent.
    Settings,
    /// A member that must be a number or a string, as JSON text.
    RequestId,
    /// The parameters as a whole, as JSON text.
    Whole,
}

/// One parameter as read.
pub enum Arg {
    Text(String),
    MaybeText(Option<String>),
    Number(Option<u32>),
    Dim(u16),
    Flag(bool),
    Json(String),
    MaybeJson(Option<String>),
    Texts(Vec<String>),
    MaybeTexts(Option<Vec<String>>),
}

/// The value of a parameter as read.
pub enum ArgView {
    Text(Seq<char>),
    MaybeText(Option<Seq<char>>),
    Number(Option<u32>),
    Dim(u16),
    Flag(bool),
    Json(Seq<char>),
    MaybeJson(Option<Seq<char>>),
    Texts(Seq<Seq<char>>),
    MaybeTexts(Option<Seq<Seq<char>>>),
}

/// The texts of a list of strings.
pub open spec fn texts_view(v: Vec<String>) -> Seq<Seq<char>> {
    v@.map_values(|s: String| s@)
}

impl Arg {
    /// The value of the parameter.
    pub open spec fn view(&self) -> ArgView {
        match self {
            Arg::Text(s) => ArgView::Text(s@),
            Arg::MaybeText(o) => ArgView::MaybeText(text_of(*o)),
            Arg::Number(n) => ArgView::Number(*n),
            Arg::Dim(d) => ArgView::Dim(*d),
            Arg::Flag(b) => ArgView::Flag(*b),
            Arg::Json(s) => ArgView::Json(s@),
            Arg::MaybeJson(o) => ArgView::MaybeJson(text_of(*o)),
            Arg::Texts(v) => ArgView::Texts(texts_view(*v)),
            Arg::MaybeTexts(o) => ArgView::MaybeTexts(
                match o {
                    Some(v) => Some(texts_view(*v)),
                    None => None,
                },
            ),
        }
    }
}

/// The table entries with their keys as text.
pub open spec fn entries_view(v: Seq<(Kind, &'static str)>) -> Seq<(Kind, Seq<char>)> {
    v.map_values(|e: (Kind, &'static str)| (e.0, e.1@))
}

/// A table entry with its keys as text.
pub open spec fn entry_view(r: Option<(Handler, Vec<(Kind, &'static str)>)>) -> Option<
    (Handler, Seq<(Kind, Seq<char>)>),
> {
    match r {
        Some((h, v)) => Some((h, entries_view(v@))),
        None => None,
    }
}

/// Methods of the table, part 1.
pub open spec fn table_part_1(m: Seq<char>) -> Option<(Handler, Seq<(Kind, Seq<char>)>)> {
    if m == "ping"@ {
        Some((Handler::Fixed(FixedReply::Acknowledged), seq![]))
    } else if m == "list_workspaces"@ {
        Some((Handler::Service, seq![]))
    } else if m == "is_workspace_path_dir"@ {
        Some((Handler::Service, seq![(Kind::Str, "path"@)]))
    } else if m == "add_workspace"@ {
        Some((Handler::Service, seq![(Kind::Str, "path"@), (Kind::OptStr, "codex_bin"@)]))
    } else if m == "add_worktree"@ {
        Some((Handler::Service, seq![(Kind::Str, "parentId"@), (Kind::Str, "branch"@), (Kind::OptStr, "name"@), (Kind::BoolOr(true), "copyAgentsMd"@)]))
    } else if m == "worktree_setup_status"@ {
        Some((Handler::Service, seq![(Kind::Str, "workspaceId"@)]))
    } else if m == "worktree_setup_mark_ran"@ {
        Some((Handler::Service, seq![(Kind::Str, "workspaceId"@)]))
    } else if m == "connect_workspace"@ {
        Some((Handler::Service, seq![(Kind::Str, "id"@)]))
    } else if m == "remove_workspace"@ {
        Some((Handler::Service, seq![(Kind::Str, "id"@)]))
    } else if m == "remove_worktree"@ {
        Some((Handler::Service, seq![(Kind::Str, "id"@)]))
    } else if m == "rename_worktree"@ {
        Some((Handler::Service, seq![(Kind::Str, "id"@), (Kind::Str, "branch"@)]))
    } else if m == "rename_worktree_upstream"@ {
        Some((Handler::Service, seq![(Kind::Str, "id"@), (Kind::Str, "oldBranch"@), (Kind::Str, "newBranch"@)]))
    } else if m == "update_workspace_settings"@ {
        Some((Handler::Service, seq![(Kind::Str, "id"@), (Kind::Settings, "settings"@)]))
    } else if m == "update_workspace_codex_bin"@ {
        Some((Handler::Service, seq![(Kind::Str, "id"@), (Kind::OptStr, "codex_bin"@)]))
    } else if m == "list_workspace_files"@ {
        Some((Handler::ListWorkspaceFiles, seq![(Kind::Str, "workspaceId"@)]))
    } else {
        None
    }
}

/// Methods of the table, part 2.
pub open spec fn table_part_2(m: Seq<char>) -> Option<(Handler, Seq<(Kind, Seq<char>)>)> {
    if m == "read_workspace_file"@ {
        Some((Handler::ReadWorkspaceFile, seq![(Kind::Str, "workspaceId"@), (Kind::Str, "path"@)]))
    } else if m == "file_read"@ {
        Some((Handler::Service, seq![(Kind::Whole, ""@)]))
    } else if m == "file_write"@ {
        Some((Handler::Service, seq![(Kind::Whole, ""@)]))
    } else if m == "get_app_settings"@ {
        Some((Handler::Service, seq![]))
    } else if m == "update_app_settings"@ {
        Some((Handler::Service, seq![(Kind::Settings, "settings"@)]))
    } else if m == "get_codex_config_path"@ {
        Some((Handler::Service, seq![]))
    } else if m == "get_config_model"@ {
        Some((Handler::Service, seq![(Kind::Str, "workspaceId"@)]))
    } else if m == "start_thread"@ {
        Some((Handler::Service, seq![(Kind::Str, "workspaceId"@)]))
    } else if m == "resume_thread"@ {
        Some((Handler::Service, seq![(Kind::Str, "workspaceId"@), (Kind::Str, "threadId"@)]))
    } else if m == "fork_thread"@ {
        Some((Handler::Service, seq![(Kind::Str, "workspaceId"@), (Kind::Str, "threadId"@)]))
    } else if m == "list_threads"@ {
        Some((Handler::Service, seq![(Kind::Str, "workspaceId"@), (Kind::OptStr, "cursor"@), (Kind::OptU32, "limit"@), (Kind::OptStr, "sortKey"@)]))
    } else if m == "list_mcp_server_status"@ {
        Some((Handler::Service, seq![(Kind::Str, "workspaceId"@), (Kind::OptStr, "cursor"@), (Kind::OptU32, "limit"@)]))
    } else if m == "archive_thread"@ {
        Some((Handler::Service, seq![(Kind::Str, "workspaceId"@), (Kind::Str, "threadId"@)]))
    } else if m == "compact_thread"@ {
        Some((Handler::Service, seq![(Kind::Str, "workspaceId"@), (Kind::Str, "threadId"@)]))
    } else if m == "set_thread_name"@ {
        Some((Handler::Service, seq![(Kind::Str, "workspaceId"@), (Kind::Str, "threadId"@), (Kind::Str, "name"@)]))
    } else {
        None
    }
}

/// Methods of the table, part 3.
pub open spec fn table_part_3(m: Seq<char>) -> Option<(Handler, Seq<(Kind, Seq<char>)>)> {
    if m == "send_user_message"@ {
        Some((Handler::Service, seq![(Kind::Str, "workspaceId"@), (Kind::Str, "threadId"@), (Kind::Str, "text"@), (Kind::OptStr, "model"@), (Kind::OptStr, "effort"@), (Kind::OptStr, "accessMode"@), (Kind::OptStrList, "images"@), (Kind::OptMember, "collaborationMode"@)]))
    } else if m == "turn_interrupt"@ {
        Some((Handler::Service, seq![(Kind::Str, "workspaceId"@), (Kind::Str, "threadId"@), (Kind::Str, "turnId"@)]))
    } else if m == "start_review"@ {
        Some((Handler::Service, seq![(Kind::Str, "workspaceId"@), (Kind::Str, "threadId"@), (Kind::Member, "target"@), (Kind::OptStr, "delivery"@)]))
    } else if m == "model_list"@ {
        Some((Handler::Service, seq![(Kind::Str, "workspaceId"@)]))
    } else if m == "collaboration_mode_list"@ {
        Some((Handler::Service, seq![(Kind::Str, "workspaceId"@)]))
    } else if m == "account_rate_limits"@ {
        Some((Handler::Service, seq![(Kind::Str, "workspaceId"@)]))
    } else if m == "account_read"@ {
        Some((Handler::Service, seq![(Kind::Str, "workspaceId"@)]))
    } else if m == "codex_login"@ {
        Some((Handler::Service, seq![(Kind::Str, "workspaceId"@)]))
    } else if m == "codex_login_cancel"@ {
        Some((Handler::Service, seq![(Kind::Str, "workspaceId"@)]))
    } else if m == "skills_list"@ {
        Some((Handler::Service, seq![(Kind::Str, "workspaceId"@)]))
    } else if m == "apps_list"@ {
        Some((Handler::Service, seq![(Kind::Str, "workspaceId"@), (Kind::OptStr, "cursor"@), (Kind::OptU32, "limit"@)]))
    } else if m == "respond_to_server_request"@ {
        Some((Handler::Service, seq![(Kind::Str, "workspaceId"@), (Kind::RequestId, "requestId"@), (Kind::Member, "result"@)]))
    } else if m == "remember_approval_rule"@ {
        Some((Handler::Service, seq![(Kind::Str, "workspaceId"@), (Kind::StrList, "command"@)]))
    } else if m == "add_clone"@ {
        Some((Handler::Service, seq![(Kind::Str, "sourceWorkspaceId"@), (Kind::Str, "copiesFolder"@), (Kind::Str, "copyName"@)]))
    } else if m == "apply_worktree_changes"@ {
        Some((Handler::Fixed(FixedReply::Acknowledged), seq![]))
    } else {
        None
    }
}

/// Methods of the table, part 4.
pub open spec fn table_part_4(m: Seq<char>) -> Option<(Handler, Seq<(Kind, Seq<char>)>)> {
    if m == "open_workspace_in"@ {
        Some((Handler::Desktop, seq![(Kind::Str, "workspaceId"@), (Kind::Member, "target"@)]))
    } else if m == "reveal_item_in_dir"@ {
        Some((Handler::Desktop, seq![(Kind::Str, "path"@)]))
    } else if m == "get_open_app_icon"@ {
        Some((Handler::Fixed(FixedReply::NullValue), seq![]))
    } else if m == "get_git_status"@ {
        Some((Handler::Service, seq![(Kind::Str, "workspaceId"@)]))
    } else if m == "list_git_roots"@ {
        Some((Handler::Service, seq![(Kind::Str, "workspaceId"@), (Kind::OptU32, "depth"@)]))
    } else if m == "get_git_diffs"@ {
        Some((Handler::Service, seq![(Kind::Str, "workspaceId"@)]))
    } else if m == "get_git_log"@ {
        Some((Handler::Service, seq![(Kind::Str, "workspaceId"@), (Kind::OptU32, "limit"@)]))
    } else if m == "get_git_commit_diff"@ {
        Some((Handler::Service, seq![(Kind::Str, "workspaceId"@), (Kind::Str, "sha"@)]))
    } else if m == "get_git_remote"@ {
        Some((Handler::Service, seq![(Kind::Str, "workspaceId"@)]))
    } else if m == "stage_git_file"@ {
        Some((Handler::Service, seq![(Kind::Str, "workspaceId"@), (Kind::Str, "path"@)]))
    } else if m == "stage_git_all"@ {
        Some((Handler::Service, seq![(Kind::Str, "workspaceId"@)]))
    } else if m == "unstage_git_file"@ {
        Some((Handler::Service, seq![(Kind::Str, "workspaceId"@), (Kind::Str, "path"@)]))
    } else if m == "revert_git_file"@ {
        Some((Handler::Service, seq![(Kind::Str, "workspaceId"@), (Kind::Str, "path"@)]))
    } else if m == "revert_git_all"@ {
        Some((Handler::Service, seq![(Kind::Str, "workspaceId"@)]))
    } else if m == "commit_git"@ {
        Some((Handler::Service, seq![(Kind::Str, "workspaceId"@), (Kind::Str, "message"@)]))
    } else {
        None
    }
}

/// Methods of the table, part 5.
pub open spec fn table_part_5(m: Seq<char>) -> Option<(Handler, Seq<(Kind, Seq<char>)>)> {
    if m == "push_git"@ {
        Some((Handler::Service, seq![(Kind::Str, "workspaceId"@)]))
    } else if m == "pull_git"@ {
        Some((Handler::Service, seq![(Kind::Str, "workspaceId"@)]))
    } else if m == "fetch_git"@ {
        Some((Handler::Service, seq![(Kind::Str, "workspaceId"@)]))
    } else if m == "sync_git"@ {
        Some((Handler::Service, seq![(Kind::Str, "workspaceId"@)]))
    } else if m == "get_github_issues"@ {
        Some((Handler::Service, seq![(Kind::Str, "workspaceId"@)]))
    } else if m == "get_github_pull_requests"@ {
        Some((Handler::Service, seq![(Kind::Str, "workspaceId"@)]))
    } else if m == "get_github_pull_request_diff"@ {
        Some((Handler::Service, seq![(Kind::Str, "workspaceId"@), (Kind::NeedU32, "prNumber"@)]))
    } else if m == "get_github_pull_request_comments"@ {
        Some((Handler::Service, seq![(Kind::Str, "workspaceId"@), (Kind::NeedU32, "prNumber"@)]))
    } else if m == "local_usage_snapshot"@ {
        Some((Handler::Service, seq![(Kind::OptU32, "days"@), (Kind::OptStr, "workspacePath"@)]))
    } else if m == "prompts_list"@ {
        Some((Handler::Service, seq![(Kind::Str, "workspaceId"@)]))
    } else if m == "prompts_workspace_dir"@ {
        Some((Handler::Service, seq![(Kind::Str, "workspaceId"@)]))
    } else if m == "prompts_global_dir"@ {
        Some((Handler::Service, seq![(Kind::Str, "workspaceId"@)]))
    } else if m == "prompts_create"@ {
        Some((Handler::Service, seq![(Kind::Str, "workspaceId"@), (Kind::Str, "scope"@), (Kind::Str, "name"@), (Kind::OptStr, "description"@), (Kind::OptStr, "argumentHint"@), (Kind::Str, "content"@)]))
    } else if m == "prompts_update"@ {
        Some((Handler::Service, seq![(Kind::Str, "workspaceId"@), (Kind::Str, "path"@), (Kind::Str, "name"@), (Kind::OptStr, "description"@), (Kind::OptStr, "argumentHint"@), (Kind::Str, "content"@)]))
    } else if m == "prompts_delete"@ {
        Some((Handler::Service, seq![(Kind::Str, "workspaceId"@), (Kind::Str, "path"@)]))
    } else {
        None
    }
}

/// Methods of the table, part 6.
pub open spec fn table_part_6(m: Seq<char>) -> Option<(Handler, Seq<(Kind, Seq<char>)>)> {
    if m == "prompts_move"@ {
        Some((Handler::Service, seq![(Kind::Str, "workspaceId"@), (Kind::Str, "path"@), (Kind::Str, "scope"@)]))
    } else if m == "list_git_branches"@ {
        Some((Handler::Service, seq![(Kind::Str, "workspaceId"@)]))
    } else if m == "checkout_git_branch"@ {
        Some((Handler::Service, seq![(Kind::Str, "workspaceId"@), (Kind::Str, "name"@)]))
    } else if m == "create_git_branch"@ {
        Some((Handler::Service, seq![(Kind::Str, "workspaceId"@), (Kind::Str, "name"@)]))
    } else if m == "terminal_open"@ {
        Some((Handler::TerminalOpen, seq![(Kind::Str, "workspaceId"@), (Kind::Str, "terminalId"@), (Kind::Dim(120), "cols"@), (Kind::Dim(40), "rows"@)]))
    } else if m == "terminal_write"@ {
        Some((Handler::TerminalWrite, seq![(Kind::Str, "workspaceId"@), (Kind::Str, "terminalId"@), (Kind::Str, "data"@)]))
    } else if m == "terminal_resize"@ {
        Some((Handler::TerminalResize, seq![(Kind::Str, "workspaceId"@), (Kind::Str, "terminalId"@), (Kind::Dim(120), "cols"@), (Kind::Dim(40), "rows"@)]))
    } else if m == "terminal_close"@ {
        Some((Handler::TerminalClose, seq![(Kind::Str, "workspaceId"@), (Kind::Str, "terminalId"@)]))
    } else if m == "get_commit_message_prompt"@ {
        Some((Handler::CommitMessagePrompt, seq![(Kind::Str, "workspaceId"@)]))
    } else if m == "generate_commit_message"@ {
        Some((Handler::CommitMessage, seq![(Kind::Str, "workspaceId"@)]))
    } else if m == "menu_set_accelerators"@ {
        Some((Handler::Fixed(FixedReply::Acknowledged), seq![]))
    } else if m == "codex_doctor"@ {
        Some((Handler::CodexDoctor, seq![(Kind::OptStr, "codexBin"@), (Kind::OptStr, "codexArgs"@)]))
    } else if m == "generate_run_metadata"@ {
        Some((Handler::GenerateRunMetadata, seq![(Kind::Str, "prompt"@)]))
    } else if m == "send_notification_fallback"@ {
        Some((Handler::Fixed(FixedReply::Acknowledged), seq![]))
    } else {
        None
    }
}

fn table_part_1_exec(m: &String) -> (r: Option<(Handler, Vec<(Kind, &'static str)>)>)
    ensures
        entry_view(r) == table_part_1(m@),
{
    if *m == "ping".to_owned() {
        let mut v: Vec<(Kind, &'static str)> = Vec::new();
        assert(entries_view(v@) =~= seq![]);
        Some((Handler::Fixed(FixedReply::Acknowledged), v))
    } else if *m == "list_workspaces".to_owned() {
        let mut v: Vec<(Kind, &'static str)> = Vec::new();
        assert(entries_view(v@) =~= seq![]);
        Some((Handler::Service, v))
    } else if *m == "is_workspace_path_dir".to_owned() {
        let mut v: Vec<(Kind, &'static str)> = Vec::new();
        v.push((Kind::Str, "path"));
        assert(entries_view(v@) =~= seq![(Kind::Str, "path"@)]);
        Some((Handler::Service, v))
    } else if *m == "add_workspace".to_owned() {
        let mut v: Vec<(Kind, &'static str)> = Vec::new();
        v.push((Kind::Str, "path"));
        v.push((Kind::OptStr, "codex_bin"));
        assert(entries_view(v@) =~= seq![(Kind::Str, "path"@), (Kind::OptStr, "codex_bin"@)]);
        Some((Handler::Service, v))
    } else if *m == "add_worktree".to_owned() {
        let mut v: Vec<(Kind, &'static str)> = Vec::new();
        v.push((Kind::Str, "parentId"));
        v.push((Kind::Str, "branch"));
        v.push((Kind::OptStr, "name"));
        v.push((Kind::BoolOr(true), "copyAgentsMd"));
        assert(entries_view(v@) =~= seq![(Kind::Str, "parentId"@), (Kind::Str, "branch"@), (Kind::OptStr, "name"@), (Kind::BoolOr(true), "copyAgentsMd"@)]);
        Some((Handler::Service, v))
    } else if *m == "worktree_setup_status".to_owned() {
        let mut v: Vec<(Kind, &'static str)> = Vec::new();
        v.push((Kind::Str, "workspaceId"));
        assert(entries_view(v@) =~= seq![(Kind::Str, "workspaceId"@)]);
        Some((Handler::Service, v))
    } else if *m == "worktree_setup_mark_ran".to_owned() {
        let mut v: Vec<(Kind, &'static str)> = Vec::new();
        v.push((Kind::Str, "workspaceId"));
        assert(entries_view(v@) =~= seq![(Kind::Str, "workspaceId"@)]);
        Some((Handler::Service, v))
    } else if *m == "connect_workspace".to_owned() {
        let mut v: Vec<(Kind, &'static str)> = Vec::new();
        v.push((Kind::Str, "id"));
        assert(entries_view(v@) =~= seq![(Kind::Str, "id"@)]);
        Some((Handler::Service, v))
    } else if *m == "remove_workspace".to_owned() {
        let mut v: Vec<(Kind, &'static str)> = Vec::new();
        v.push((Kind::Str, "id"));
        assert(entries_view(v@) =~= seq![(Kind::Str, "id"@)]);
        Some((Handler::Service, v))
    } else if *m == "remove_worktree".to_owned() {
        let mut v: Vec<(Kind, &'static str)> = Vec::new();
        v.push((Kind::Str, "id"));
        assert(entries_view(v@) =~= seq![(Kind::Str, "id"@)]);
        Some((Handler::Service, v))
    } else if *m == "rename_worktree".to_owned() {
        let mut v: Vec<(Kind, &'static str)> = Vec::new();
        v.push((Kind::Str, "id"));
        v.push((Kind::Str, "branch"));
        assert(entries_view(v@) =~= seq![(Kind::Str, "id"@), (Kind::Str, "branch"@)]);
        Some((Handler::Service, v))
    } else if *m == "rename_worktree_upstream".to_owned() {
        let mut v: Vec<(Kind, &'static str)> = Vec::new();
        v.push((Kind::Str, "id"));
        v.push((Kind::Str, "oldBranch"));
        v.push((Kind::Str, "newBranch"));
        assert(entries_view(v@) =~= seq![(Kind::Str, "id"@), (Kind::Str, "oldBranch"@), (Kind::Str, "newBranch"@)]);
        Some((Handler::Service, v))
    } else if *m == "update_workspace_settings".to_owned() {
        let mut v: Vec<(Kind, &'static str)> = Vec::new();
        v.push((Kind::Str, "id"));
        v.push((Kind::Settings, "settings"));
        assert(entries_view(v@) =~= seq![(Kind::Str, "id"@), (Kind::Settings, "settings"@)]);
        Some((Handler::Service, v))
    } else if *m == "update_workspace_codex_bin".to_owned() {
        let mut v: Vec<(Kind, &'static str)> = Vec::new();
        v.push((Kind::Str, "id"));
        v.push((Kind::OptStr, "codex_bin"));
        assert(entries_view(v@) =~= seq![(Kind::Str, "id"@), (Kind::OptStr, "codex_bin"@)]);
        Some((Handler::Service, v))
    } else if *m == "list_workspace_files".to_owned() {
        let mut v: Vec<(Kind, &'static str)> = Vec::new();
        v.push((Kind::Str, "workspaceId"));
        assert(entries_view(v@) =~= seq![(Kind::Str, "workspaceId"@)]);
        Some((Handler::ListWorkspaceFiles, v))
    } else {
        None
    }
}

fn table_part_2_exec(m: &String) -> (r: Option<(Handler, Vec<(Kind, &'static str)>)>)
    ensures
        entry_view(r) == table_part_2(m@),
{
    if *m == "read_workspace_file".to_owned() {
        let mut v: Vec<(Kind, &'static str)> = Vec::new();
        v.push((Kind::Str, "workspaceId"));
        v.push((Kind::Str, "path"));
        assert(entries_view(v@) =~= seq![(Kind::Str, "workspaceId"@), (Kind::Str, "path"@)]);
        Some((Handler::ReadWorkspaceFile, v))
    } else if *m == "file_read".to_owned() {
        let mut v: Vec<(Kind, &'static str)> = Vec::new();
        v.push((Kind::Whole, ""));
        assert(entries_view(v@) =~= seq![(Kind::Whole, ""@)]);
        Some((Handler::Service, v))
    } else if *m == "file_write".to_owned() {
        let mut v: Vec<(Kind, &'static str)> = Vec::new();
        v.push((Kind::Whole, ""));
        assert(entries_view(v@) =~= seq![(Kind::Whole, ""@)]);
        Some((Handler::Service, v))
    } else if *m == "get_app_settings".to_owned() {
        let mut v: Vec<(Kind, &'static str)> = Vec::new();
        assert(entries_view(v@) =~= seq![]);
        Some((Handler::Service, v))
    } else if *m == "update_app_settings".to_owned() {
        let mut v: Vec<(Kind, &'static str)> = Vec::new();
        v.push((Kind::Settings, "settings"));
        assert(entries_view(v@) =~= seq![(Kind::Settings, "settings"@)]);
        Some((Handler::Service, v))
    } else if *m == "get_codex_config_path".to_owned() {
        let mut v: Vec<(Kind, &'static str)> = Vec::new();
        assert(entries_view(v@) =~= seq![]);
        Some((Handler::Service, v))
    } else if *m == "get_config_model".to_owned() {
        let mut v: Vec<(Kind, &'static str)> = Vec::new();
        v.push((Kind::Str, "workspaceId"));
        assert(entries_view(v@) =~= seq![(Kind::Str, "workspaceId"@)]);
        Some((Handler::Service, v))
    } else if *m == "start_thread".to_owned() {
        let mut v: Vec<(Kind, &'static str)> = Vec::new();
        v.push((Kind::Str, "workspaceId"));
        assert(entries_view(v@) =~= seq![(Kind::Str, "workspaceId"@)]);
        Some((Handler::Service, v))
    } else if *m == "resume_thread".to_owned() {
        let mut v: Vec<(Kind, &'static str)> = Vec::new();
        v.push((Kind::Str, "workspaceId"));
        v.push((Kind::Str, "threadId"));
        assert(entries_view(v@) =~= seq![(Kind::Str, "workspaceId"@), (Kind::Str, "threadId"@)]);
        Some((Handler::Service, v))
    } else if *m == "fork_thread".to_owned() {
        let mut v: Vec<(Kind, &'static str)> = Vec::new();
        v.push((Kind::Str, "workspaceId"));
        v.push((Kind::Str, "threadId"));
        assert(entries_view(v@) =~= seq![(Kind::Str, "workspaceId"@), (Kind::Str, "threadId"@)]);
        Some((Handler::Service, v))
    } else if *m == "list_threads".to_owned() {
        let mut v: Vec<(Kind, &'static str)> = Vec::new();
        v.push((Kind::Str, "workspaceId"));
        v.push((Kind::OptStr, "cursor"));
        v.push((Kind::OptU32, "limit"));
        v.push((Kind::OptStr, "sortKey"));
        assert(entries_view(v@) =~= seq![(Kind::Str, "workspaceId"@), (Kind::OptStr, "cursor"@), (Kind::OptU32, "limit"@), (Kind::OptStr, "sortKey"@)]);
        Some((Handler::Service, v))
    } else if *m == "list_mcp_server_status".to_owned() {
        let mut v: Vec<(Kind, &'static str)> = Vec::new();
        v.push((Kind::Str, "workspaceId"));
        v.push((Kind::OptStr, "cursor"));
        v.push((Kind::OptU32, "limit"));
        assert(entries_view(v@) =~= seq![(Kind::Str, "workspaceId"@), (Kind::OptStr, "cursor"@), (Kind::OptU32, "limit"@)]);
        Some((Handler::Service, v))
    } else if *m == "archive_thread".to_owned() {
        let mut v: Vec<(Kind, &'static str)> = Vec::new();
        v.push((Kind::Str, "workspaceId"));
        v.push((Kind::Str, "threadId"));
        assert(entries_view(v@) =~= seq![(Kind::Str, "workspaceId"@), (Kind::Str, "threadId"@)]);
        Some((Handler::Service, v))
    } else if *m == "compact_thread".to_owned() {
        let mut v: Vec<(Kind, &'static str)> = Vec::new();
        v.push((Kind::Str, "workspaceId"));
        v.push((Kind::Str, "threadId"));
        assert(entries_view(v@) =~= seq![(Kind::Str, "workspaceId"@), (Kind::Str, "threadId"@)]);
        Some((Handler::Service, v))
    } else if *m == "set_thread_name".to_owned() {
        let mut v: Vec<(Kind, &'static str)> = Vec::new();
        v.push((Kind::Str, "workspaceId"));
        v.push((Kind::Str, "threadId"));
        v.push((Kind::Str, "name"));
        assert(entries_view(v@) =~= seq![(Kind::Str, "workspaceId"@), (Kind::Str, "threadId"@), (Kind::Str, "name"@)]);
        Some((Handler::Service, v))
    } else {
        None
    }
}

fn table_part_3_exec(m: &String) -> (r: Option<(Handler, Vec<(Kind, &'static str)>)>)
    ensures
        entry_view(r) == table_part_3(m@),
{
    if *m == "send_user_message".to_owned() {
        let mut v: Vec<(Kind, &'static str)> = Vec::new();
        v.push((Kind::Str, "workspaceId"));
        v.push((Kind::Str, "threadId"));
        v.push((Kind::Str, "text"));
        v.push((Kind::OptStr, "model"));
        v.push((Kind::OptStr, "effort"));
        v.push((Kind::OptStr, "accessMode"));
        v.push((Kind::OptStrList, "images"));
        v.push((Kind::OptMember, "collaborationMode"));
        assert(entries_view(v@) =~= seq![(Kind::Str, "workspaceId"@), (Kind::Str, "threadId"@), (Kind::Str, "text"@), (Kind::OptStr, "model"@), (Kind::OptStr, "effort"@), (Kind::OptStr, "accessMode"@), (Kind::OptStrList, "images"@), (Kind::OptMember, "collaborationMode"@)]);
        Some((Handler::Service, v))
    } else if *m == "turn_interrupt".to_owned() {
        let mut v: Vec<(Kind, &'static str)> = Vec::new();
        v.push((Kind::Str, "workspaceId"));
        v.push((Kind::Str, "threadId"));
        v.push((Kind::Str, "turnId"));
        assert(entries_view(v@) =~= seq![(Kind::Str, "workspaceId"@), (Kind::Str, "threadId"@), (Kind::Str, "turnId"@)]);
        Some((Handler::Service, v))
    } else if *m == "start_review".to_owned() {
        let mut v: Vec<(Kind, &'static str)> = Vec::new();
        v.push((Kind::Str, "workspaceId"));
        v.push((Kind::Str, "threadId"));
        v.push((Kind::Member, "target"));
        v.push((Kind::OptStr, "delivery"));
        assert(entries_view(v@) =~= seq![(Kind::Str, "workspaceId"@), (Kind::Str, "threadId"@), (Kind::Member, "target"@), (Kind::OptStr, "delivery"@)]);
        Some((Handler::Service, v))
    } else if *m == "model_list".to_owned() {
        let mut v: Vec<(Kind, &'static str)> = Vec::new();
        v.push((Kind::Str, "workspaceId"));
        assert(entries_view(v@) =~= seq![(Kind::Str, "workspaceId"@)]);
        Some((Handler::Service, v))
    } else if *m == "collaboration_mode_list".to_owned() {
        let mut v: Vec<(Kind, &'static str)> = Vec::new();
        v.push((Kind::Str, "workspaceId"));
        assert(entries_view(v@) =~= seq![(Kind::Str, "workspaceId"@)]);
        Some((Handler::Service, v))
    } else if *m == "account_rate_limits".to_owned() {
        let mut v: Vec<(Kind, &'static str)> = Vec::new();
        v.push((Kind::Str, "workspaceId"));
        assert(entries_view(v@) =~= seq![(Kind::Str, "workspaceId"@)]);
        Some((Handler::Service, v))
    } else if *m == "account_read".to_owned() {
        let mut v: Vec<(Kind, &'static str)> = Vec::new();
        v.push((Kind::Str, "workspaceId"));
        assert(entries_view(v@) =~= seq![(Kind::Str, "workspaceId"@)]);
        Some((Handler::Service, v))
    } else if *m == "codex_login".to_owned() {
        let mut v: Vec<(Kind, &'static str)> = Vec::new();
        v.push((Kind::Str, "workspaceId"));
        assert(entries_view(v@) =~= seq![(Kind::Str, "workspaceId"@)]);
        Some((Handler::Service, v))
    } else if *m == "codex_login_cancel".to_owned() {
        let mut v: Vec<(Kind, &'static str)> = Vec::new();
        v.push((Kind::Str, "workspaceId"));
        assert(entries_view(v@) =~= seq![(Kind::Str, "workspaceId"@)]);
        Some((Handler::Service, v))
    } else if *m == "skills_list".to_owned() {
        let mut v: Vec<(Kind, &'static str)> = Vec::new();
        v.push((Kind::Str, "workspaceId"));
        assert(entries_view(v@) =~= seq![(Kind::Str, "workspaceId"@)]);
        Some((Handler::Service, v))
    } else if *m == "apps_list".to_owned() {
        let mut v: Vec<(Kind, &'static str)> = Vec::new();
        v.push((Kind::Str, "workspaceId"));
        v.push((Kind::OptStr, "cursor"));
        v.push((Kind::OptU32, "limit"));
        assert(entries_view(v@) =~= seq![(Kind::Str, "workspaceId"@), (Kind::OptStr, "cursor"@), (Kind::OptU32, "limit"@)]);
        Some((Handler::Service, v))
    } else if *m == "respond_to_server_request".to_owned() {
        let mut v: Vec<(Kind, &'static str)> = Vec::new();
        v.push((Kind::Str, "workspaceId"));
        v.push((Kind::RequestId, "requestId"));
        v.push((Kind::Member, "result"));
        assert(entries_view(v@) =~= seq![(Kind::Str, "workspaceId"@), (Kind::RequestId, "requestId"@), (Kind::Member, "result"@)]);
        Some((Handler::Service, v))
    } else if *m == "remember_approval_rule".to_owned() {
        let mut v: Vec<(Kind, &'static str)> = Vec::new();
        v.push((Kind::Str, "workspaceId"));
        v.push((Kind::StrList, "command"));
        assert(entries_view(v@) =~= seq![(Kind::Str, "workspaceId"@), (Kind::StrList, "command"@)]);
        Some((Handler::Service, v))
    } else if *m == "add_clone".to_owned() {
        let mut v: Vec<(Kind, &'static str)> = Vec::new();
        v.push((Kind::Str, "sourceWorkspaceId"));
        v.push((Kind::Str, "copiesFolder"));
        v.push((Kind::Str, "copyName"));
        assert(entries_view(v@) =~= seq![(Kind::Str, "sourceWorkspaceId"@), (Kind::Str, "copiesFolder"@), (Kind::Str, "copyName"@)]);
        Some((Handler::Service, v))
    } else if *m == "apply_worktree_changes".to_owned() {
        let mut v: Vec<(Kind, &'static str)> = Vec::new();
        assert(entries_view(v@) =~= seq![]);
        Some((Handler::Fixed(FixedReply::Acknowledged), v))
    } else {
        None
    }
}

fn table_part_4_exec(m: &String) -> (r: Option<(Handler, Vec<(Kind, &'static str)>)>)
    ensures
        entry_view(r) == table_part_4(m@),
{
    if *m == "open_workspace_in".to_owned() {
        let mut v: Vec<(Kind, &'static str)> = Vec::new();
        v.push((Kind::Str, "workspaceId"));
        v.push((Kind::Member, "target"));
        assert(entries_view(v@) =~= seq![(Kind::Str, "workspaceId"@), (Kind::Member, "target"@)]);
        Some((Handler::Desktop, v))
    } else if *m == "reveal_item_in_dir".to_owned() {
        let mut v: Vec<(Kind, &'static str)> = Vec::new();
        v.push((Kind::Str, "path"));
        assert(entries_view(v@) =~= seq![(Kind::Str, "path"@)]);
        Some((Handler::Desktop, v))
    } else if *m == "get_open_app_icon".to_owned() {
        let mut v: Vec<(Kind, &'static str)> = Vec::new();
        assert(entries_view(v@) =~= seq![]);
        Some((Handler::Fixed(FixedReply::NullValue), v))
    } else if *m == "get_git_status".to_owned() {
        let mut v: Vec<(Kind, &'static str)> = Vec::new();
        v.push((Kind::Str, "workspaceId"));
        assert(entries_view(v@) =~= seq![(Kind::Str, "workspaceId"@)]);
        Some((Handler::Service, v))
    } else if *m == "list_git_roots".to_owned() {
        let mut v: Vec<(Kind, &'static str)> = Vec::new();
        v.push((Kind::Str, "workspaceId"));
        v.push((Kind::OptU32, "depth"));
        assert(entries_view(v@) =~= seq![(Kind::Str, "workspaceId"@), (Kind::OptU32, "depth"@)]);
        Some((Handler::Service, v))
    } else if *m == "get_git_diffs".to_owned() {
        let mut v: Vec<(Kind, &'static str)> = Vec::new();
        v.push((Kind::Str, "workspaceId"));
        assert(entries_view(v@) =~= seq![(Kind::Str, "workspaceId"@)]);
        Some((Handler::Service, v))
    } else if *m == "get_git_log".to_owned() {
        let mut v: Vec<(Kind, &'static str)> = Vec::new();
        v.push((Kind::Str, "workspaceId"));
        v.push((Kind::OptU32, "limit"));
        assert(entries_view(v@) =~= seq![(Kind::Str, "workspaceId"@), (Kind::OptU32, "limit"@)]);
        Some((Handler::Service, v))
    } else if *m == "get_git_commit_diff".to_owned() {
        let mut v: Vec<(Kind, &'static str)> = Vec::new();
        v.push((Kind::Str, "workspaceId"));
        v.push((Kind::Str, "sha"));
        assert(entries_view(v@) =~= seq![(Kind::Str, "workspaceId"@), (Kind::Str, "sha"@)]);
        Some((Handler::Service, v))
    } else if *m == "get_git_remote".to_owned() {
        let mut v: Vec<(Kind, &'static str)> = Vec::new();
        v.push((Kind::Str, "workspaceId"));
        assert(entries_view(v@) =~= seq![(Kind::Str, "workspaceId"@)]);
        Some((Handler::Service, v))
    } else if *m == "stage_git_file".to_owned() {
        let mut v: Vec<(Kind, &'static str)> = Vec::new();
        v.push((Kind::Str, "workspaceId"));
        v.push((Kind::Str, "path"));
        assert(entries_view(v@) =~= seq![(Kind::Str, "workspaceId"@), (Kind::Str, "path"@)]);
        Some((Handler::Service, v))
    } else if *m == "stage_git_all".to_owned() {
        let mut v: Vec<(Kind, &'static str)> = Vec::new();
        v.push((Kind::Str, "workspaceId"));
        assert(entries_view(v@) =~= seq![(Kind::Str, "workspaceId"@)]);
        Some((Handler::Service, v))
    } else if *m == "unstage_git_file".to_owned() {
        let mut v: Vec<(Kind, &'static str)> = Vec::new();
        v.push((Kind::Str, "workspaceId"));
        v.push((Kind::Str, "path"));
        assert(entries_view(v@) =~= seq![(Kind::Str, "workspaceId"@), (Kind::Str, "path"@)]);
        Some((Handler::Service, v))
    } else if *m == "revert_git_file".to_owned() {
        let mut v: Vec<(Kind, &'static str)> = Vec::new();
        v.push((Kind::Str, "workspaceId"));
        v.push((Kind::Str, "path"));
        assert(entries_view(v@) =~= seq![(Kind::Str, "workspaceId"@), (Kind::Str, "path"@)]);
        Some((Handler::Service, v))
    } else if *m == "revert_git_all".to_owned() {
        let mut v: Vec<(Kind, &'static str)> = Vec::new();
        v.push((Kind::Str, "workspaceId"));
        assert(entries_view(v@) =~= seq![(Kind::Str, "workspaceId"@)]);
        Some((Handler::Service, v))
    } else if *m == "commit_git".to_owned() {
        let mut v: Vec<(Kind, &'static str)> = Vec::new();
        v.push((Kind::Str, "workspaceId"));
        v.push((Kind::Str, "message"));
        assert(entries_view(v@) =~= seq![(Kind::Str, "workspaceId"@), (Kind::Str, "message"@)]);
        Some((Handler::Service, v))
    } else {
        None
    }
}

fn table_part_5_exec(m: &String) -> (r: Option<(Handler, Vec<(Kind, &'static str)>)>)
    ensures
        entry_view(r) == table_part_5(m@),
{
    if *m == "push_git".to_owned() {
        let mut v: Vec<(Kind, &'static str)> = Vec::new();
        v.push((Kind::Str, "workspaceId"));
        assert(entries_view(v@) =~= seq![(Kind::Str, "workspaceId"@)]);
        Some((Handler::Service, v))
    } else if *m == "pull_git".to_owned() {
        let mut v: Vec<(Kind, &'static str)> = Vec::new();
        v.push((Kind::Str, "workspaceId"));
        assert(entries_view(v@) =~= seq![(Kind::Str, "workspaceId"@)]);
        Some((Handler::Service, v))
    } else if *m == "fetch_git".to_owned() {
        let mut v: Vec<(Kind, &'static str)> = Vec::new();
        v.push((Kind::Str, "workspaceId"));
        assert(entries_view(v@) =~= seq![(Kind::Str, "workspaceId"@)]);
        Some((Handler::Service, v))
    } else if *m == "sync_git".to_owned() {
        let mut v: Vec<(Kind, &'static str)> = Vec::new();
        v.push((Kind::Str, "workspaceId"));
        assert(entries_view(v@) =~= seq![(Kind::Str, "workspaceId"@)]);
        Some((Handler::Service, v))
    } else if *m == "get_github_issues".to_owned() {
        let mut v: Vec<(Kind, &'static str)> = Vec::new();
        v.push((Kind::Str, "workspaceId"));
        assert(entries_view(v@) =~= seq![(Kind::Str, "workspaceId"@)]);
        Some((Handler::Service, v))
    } else if *m == "get_github_pull_requests".to_owned() {
        let mut v: Vec<(Kind, &'static str)> = Vec::new();
        v.push((Kind::Str, "workspaceId"));
        assert(entries_view(v@) =~= seq![(Kind::Str, "workspaceId"@)]);
        Some((Handler::Service, v))
    } else if *m == "get_github_pull_request_diff".to_owned() {
        let mut v: Vec<(Kind, &'static str)> = Vec::new();
        v.push((Kind::Str, "workspaceId"));
        v.push((Kind::NeedU32, "prNumber"));
        assert(entries_view(v@) =~= seq![(Kind::Str, "workspaceId"@), (Kind::NeedU32, "prNumber"@)]);
        Some((Handler::Service, v))
    } else if *m == "get_github_pull_request_comments".to_owned() {
        let mut v: Vec<(Kind, &'static str)> = Vec::new();
        v.push((Kind::Str, "workspaceId"));
        v.push((Kind::NeedU32, "prNumber"));
        assert(entries_view(v@) =~= seq![(Kind::Str, "workspaceId"@), (Kind::NeedU32, "prNumber"@)]);
        Some((Handler::Service, v))
    } else if *m == "local_usage_snapshot".to_owned() {
        let mut v: Vec<(Kind, &'static str)> = Vec::new();
        v.push((Kind::OptU32, "days"));
        v.push((Kind::OptStr, "workspacePath"));
        assert(entries_view(v@) =~= seq![(Kind::OptU32, "days"@), (Kind::OptStr, "workspacePath"@)]);
        Some((Handler::Service, v))
    } else if *m == "prompts_list".to_owned() {
        let mut v: Vec<(Kind, &'static str)> = Vec::new();
        v.push((Kind::Str, "workspaceId"));
        assert(entries_view(v@) =~= seq![(Kind::Str, "workspaceId"@)]);
        Some((Handler::Service, v))
    } else if *m == "prompts_workspace_dir".to_owned() {
        let mut v: Vec<(Kind, &'static str)> = Vec::new();
        v.push((Kind::Str, "workspaceId"));
        assert(entries_view(v@) =~= seq![(Kind::Str, "workspaceId"@)]);
        Some((Handler::Service, v))
    } else if *m == "prompts_global_dir".to_owned() {
        let mut v: Vec<(Kind, &'static str)> = Vec::new();
        v.push((Kind::Str, "workspaceId"));
        assert(entries_view(v@) =~= seq![(Kind::Str, "workspaceId"@)]);
        Some((Handler::Service, v))
    } else if *m == "prompts_create".to_owned() {
        let mut v: Vec<(Kind, &'static str)> = Vec::new();
        v.push((Kind::Str, "workspaceId"));
        v.push((Kind::Str, "scope"));
        v.push((Kind::Str, "name"));
        v.push((Kind::OptStr, "description"));
        v.push((Kind::OptStr, "argumentHint"));
        v.push((Kind::Str, "content"));
        assert(entries_view(v@) =~= seq![(Kind::Str, "workspaceId"@), (Kind::Str, "scope"@), (Kind::Str, "name"@), (Kind::OptStr, "description"@), (Kind::OptStr, "argumentHint"@), (Kind::Str, "content"@)]);
        Some((Handler::Service, v))
    } else if *m == "prompts_update".to_owned() {
        let mut v: Vec<(Kind, &'static str)> = Vec::new();
        v.push((Kind::Str, "workspaceId"));
        v.push((Kind::Str, "path"));
        v.push((Kind::Str, "name"));
        v.push((Kind::OptStr, "description"));
        v.push((Kind::OptStr, "argumentHint"));
        v.push((Kind::Str, "content"));
        assert(entries_view(v@) =~= seq![(Kind::Str, "workspaceId"@), (Kind::Str, "path"@), (Kind::Str, "name"@), (Kind::OptStr, "description"@), (Kind::OptStr, "argumentHint"@), (Kind::Str, "content"@)]);
        Some((Handler::Service, v))
    } else if *m == "prompts_delete".to_owned() {
        let mut v: Vec<(Kind, &'static str)> = Vec::new();
        v.push((Kind::Str, "workspaceId"));
        v.push((Kind::Str, "path"));
        assert(entries_view(v@) =~= seq![(Kind::Str, "workspaceId"@), (Kind::Str, "path"@)]);
        Some((Handler::Service, v))
    } else {
        None
    }
}

fn table_part_6_exec(m: &String) -> (r: Option<(Handler, Vec<(Kind, &'static str)>)>)
    ensures
        entry_view(r) == table_part_6(m@),
{
    if *m == "prompts_move".to_owned() {
        let mut v: Vec<(Kind, &'static str)> = Vec::new();
        v.push((Kind::Str, "workspaceId"));
        v.push((Kind::Str, "path"));
        v.push((Kind::Str, "scope"));
        assert(entries_view(v@) =~= seq![(Kind::Str, "workspaceId"@), (Kind::Str, "path"@), (Kind::Str, "scope"@)]);
        Some((Handler::Service, v))
    } else if *m == "list_git_branches".to_owned() {
        let mut v: Vec<(Kind, &'static str)> = Vec::new();
        v.push((Kind::Str, "workspaceId"));
        assert(entries_view(v@) =~= seq![(Kind::Str, "workspaceId"@)]);
        Some((Handler::Service, v))
    } else if *m == "checkout_git_branch".to_owned() {
        let mut v: Vec<(Kind, &'static str)> = Vec::new();
        v.push((Kind::Str, "workspaceId"));
        v.push((Kind::Str, "name"));
        assert(entries_view(v@) =~= seq![(Kind::Str, "workspaceId"@), (Kind::Str, "name"@)]);
        Some((Handler::Service, v))
    } else if *m == "create_git_branch".to_owned() {
        let mut v: Vec<(Kind, &'static str)> = Vec::new();
        v.push((Kind::Str, "workspaceId"));
        v.push((Kind::Str, "name"));
        assert(entries_view(v@) =~= seq![(Kind::Str, "workspaceId"@), (Kind::Str, "name"@)]);
        Some((Handler::Service, v))
    } else if *m == "terminal_open".to_owned() {
        let mut v: Vec<(Kind, &'static str)> = Vec::new();
        v.push((Kind::Str, "workspaceId"));
        v.push((Kind::Str, "terminalId"));
        v.push((Kind::Dim(120), "cols"));
        v.push((Kind::Dim(40), "rows"));
        assert(entries_view(v@) =~= seq![(Kind::Str, "workspaceId"@), (Kind::Str, "terminalId"@), (Kind::Dim(120), "cols"@), (Kind::Dim(40), "rows"@)]);
        Some((Handler::TerminalOpen, v))
    } else if *m == "terminal_write".to_owned() {
        let mut v: Vec<(Kind, &'static str)> = Vec::new();
        v.push((Kind::Str, "workspaceId"));
        v.push((Kind::Str, "terminalId"));
        v.push((Kind::Str, "data"));
        assert(entries_view(v@) =~= seq![(Kind::Str, "workspaceId"@), (Kind::Str, "terminalId"@), (Kind::Str, "data"@)]);
        Some((Handler::TerminalWrite, v))
    } else if *m == "terminal_resize".to_owned() {
        let mut v: Vec<(Kind, &'static str)> = Vec::new();
        v.push((Kind::Str, "workspaceId"));
        v.push((Kind::Str, "terminalId"));
        v.push((Kind::Dim(120), "cols"));
        v.push((Kind::Dim(40), "rows"));
        assert(entries_view(v@) =~= seq![(Kind::Str, "workspaceId"@), (Kind::Str, "terminalId"@), (Kind::Dim(120), "cols"@), (Kind::Dim(40), "rows"@)]);
        Some((Handler::TerminalResize, v))
    } else if *m == "terminal_close".to_owned() {
        let mut v: Vec<(Kind, &'static str)> = Vec::new();
        v.push((Kind::Str, "workspaceId"));
        v.push((Kind::Str, "terminalId"));
        assert(entries_view(v@) =~= seq![(Kind::Str, "workspaceId"@), (Kind::Str, "terminalId"@)]);
        Some((Handler::TerminalClose, v))
    } else if *m == "get_commit_message_prompt".to_owned() {
        let mut v: Vec<(Kind, &'static str)> = Vec::new();
        v.push((Kind::Str, "workspaceId"));
        assert(entries_view(v@) =~= seq![(Kind::Str, "workspaceId"@)]);
        Some((Handler::CommitMessagePrompt, v))
    } else if *m == "generate_commit_message".to_owned() {
        let mut v: Vec<(Kind, &'static str)> = Vec::new();
        v.push((Kind::Str, "workspaceId"));
        assert(entries_view(v@) =~= seq![(Kind::Str, "workspaceId"@)]);
        Some((Handler::CommitMessage, v))
    } else if *m == "menu_set_accelerators".to_owned() {
        let mut v: Vec<(Kind, &'static str)> = Vec::new();
        assert(entries_view(v@) =~= seq![]);
        Some((Handler::Fixed(FixedReply::Acknowledged), v))
    } else if *m == "codex_doctor".to_owned() {
        let mut v: Vec<(Kind, &'static str)> = Vec::new();
        v.push((Kind::OptStr, "codexBin"));
        v.push((Kind::OptStr, "codexArgs"));
        assert(entries_view(v@) =~= seq![(Kind::OptStr, "codexBin"@), (Kind::OptStr, "codexArgs"@)]);
        Some((Handler::CodexDoctor, v))
    } else if *m == "generate_run_metadata".to_owned() {
        let mut v: Vec<(Kind, &'static str)> = Vec::new();
        v.push((Kind::Str, "prompt"));
        assert(entries_view(v@) =~= seq![(Kind::Str, "prompt"@)]);
        Some((Handler::GenerateRunMetadata, v))
    } else if *m == "send_notification_fallback".to_owned() {
        let mut v: Vec<(Kind, &'static str)> = Vec::new();
        assert(entries_view(v@) =~= seq![]);
        Some((Handler::Fixed(FixedReply::Acknowledged), v))
    } else {
        None
    }
}

/// The handler and the parameters, in the order they are read, of each
/// method the daemon knows; `None` for any other name.
pub open spec fn method_table(m: Seq<char>) -> Option<(Handler, Seq<(Kind, Seq<char>)>)> {
    if table_part_1(m) is Some {
        table_part_1(m)
    } else if table_part_2(m) is Some {
        table_part_2(m)
    } else if table_part_3(m) is Some {
        table_part_3(m)
    } else if table_part_4(m) is Some {
        table_part_4(m)
    } else if table_part_5(m) is Some {
        table_part_5(m)
    } else {
        table_part_6(m)
    }
}

/// The table entry of a method.
fn method_entry(m: &String) -> (r: Option<(Handler, Vec<(Kind, &'static str)>)>)
    ensures
        entry_view(r) == method_table(m@),
{
    if let Some(e) = table_part_1_exec(m) {
        return Some(e);
    }
    if let Some(e) = table_part_2_exec(m) {
        return Some(e);
    }
    if let Some(e) = table_part_3_exec(m) {
        return Some(e);
    }
    if let Some(e) = table_part_4_exec(m) {
        return Some(e);
    }
    if let Some(e) = table_part_5_exec(m) {
        return Some(e);
    }
    table_part_6_exec(m)
}
/// The strings among JSON items, in order, as their contents.
pub open spec fn strings_in(items: Seq<Seq<char>>) -> Seq<Seq<char>>
    decreases items.len(),
{
    if items.len() == 0 {
        seq![]
    } else {
        strings_in(items.drop_last()) + match json_str_of(items.last()) {
            Some(s) => seq![s],
            None => seq![],
        }
    }
}

/// The string items of the array member `key` of the parameters `p`, when
/// that member is an array.
pub open spec fn member_strs(p: Seq<char>, key: Seq<char>) -> Option<Seq<Seq<char>>> {
    match json_member_text(p, key) {
        Some(t) => match json_items_of(t) {
            Some(items) => Some(strings_in(items)),
            None => None,
        },
        None => None,
    }
}

/// Reads one parameter of kind `k` under `key` from the parameters `p`.
pub open spec fn read_param_of(p: Seq<char>, k: Kind, key: Seq<char>) -> Result<ArgView, Seq<char>> {
    match k {
        Kind::Str => match string_param_of(json_is_object(p), member_str(p, key), key) {
            Ok(s) => Ok(ArgView::Text(s)),
            Err(e) => Err(e),
        },
        Kind::OptStr => Ok(ArgView::MaybeText(member_str(p, key))),
        Kind::OptU32 => Ok(ArgView::Number(member_u32(p, key))),
        Kind::Dim(d) => Ok(
            ArgView::Dim(
                (match member_u32(p, key) {
                    Some(v) => v,
                    None => d,
                }) as u16,
            ),
        ),
        Kind::NeedU32 => match member_u32(p, key) {
            Some(v) => Ok(ArgView::Number(Some(v))),
            None => Err("missing "@ + key),
        },
        Kind::BoolOr(b) => Ok(
            ArgView::Flag(
                match member_bool(p, key) {
                    Some(x) => x,
                    None => b,
                },
            ),
        ),
        Kind::StrList => match member_strs(p, key) {
            Some(v) => Ok(ArgView::Texts(v)),
            None => Err(missing_msg(key)),
        },
        Kind::OptStrList => Ok(ArgView::MaybeTexts(member_strs(p, key))),
        Kind::Member => match json_member_text(p, key) {
            Some(t) => Ok(ArgView::Json(t)),
            None => Err(missing_msg(key)),
        },
        Kind::OptMember => Ok(ArgView::MaybeJson(json_member_text(p, key))),
        Kind::Settings => Ok(
            ArgView::Json(
                match json_member_text(p, key) {
                    Some(t) => t,
                    None => "null"@,
                },
            ),
        ),
        Kind::RequestId => match json_member_text(p, key) {
            Some(t) => if json_is_number(t) || json_str_of(t) is Some {
                Ok(ArgView::Json(t))
            } else {
                Err("missing requestId"@)
            },
            None => Err("missing requestId"@),
        },
        Kind::Whole => Ok(ArgView::Json(p)),
    }
}

/// Reads the parameters `ps[i..]` in order; the first failure is the result.
pub open spec fn read_params_from(p: Seq<char>, ps: Seq<(Kind, Seq<char>)>, i: int) -> Result<
    Seq<ArgView>,
    Seq<char>,
>
    decreases ps.len() - i,
{
    if i < 0 || i >= ps.len() {
        Ok(seq![])
    } else {
        match read_param_of(p, ps[i].0, ps[i].1) {
            Err(e) => Err(e),
            Ok(a) => match read_params_from(p, ps, i + 1) {
                Err(e) => Err(e),
                Ok(rest) => Ok(seq![a] + rest),
            },
        }
    }
}

/// `r` with `pre` put in front of its values.
pub open spec fn with_prefix(pre: Seq<ArgView>, r: Result<Seq<ArgView>, Seq<char>>) -> Result<
    Seq<ArgView>,
    Seq<char>,
> {
    match r {
        Ok(rest) => Ok(pre + rest),
        Err(e) => Err(e),
    }
}

/// What a request with method `m` and parameters `p` (JSON text) calls: its
/// handler and its parameters as read, or the error of the first parameter
/// that cannot be read, or the unknown-method error for a name the daemon
/// does not know.
pub open spec fn call_of(m: Seq<char>, p: Seq<char>) -> Result<(Handler, Seq<ArgView>), Seq<char>> {
    match method_table(m) {
        None => Err(unknown_method_msg(m)),
        Some((h, ps)) => match read_params_from(p, ps, 0) {
            Ok(args) => Ok((h, args)),
            Err(e) => Err(e),
        },
    }
}

/// A decoded call: the handler and its parameters in table order.
pub struct Call {
    pub handler: Handler,
    pub args: Vec<Arg>,
}

impl Call {
    /// The handler and the values of the parameters.
    pub open spec fn view(&self) -> (Handler, Seq<ArgView>) {
        (self.handler, self.args@.map_values(|a: Arg| a.view()))
    }
}

/// The string items of JSON items, as their contents.
fn strings_from(items: &Vec<String>) -> (r: Vec<String>)
    ensures
        texts_view(r) == strings_in(texts_view(*items)),
{
    let ghost views = texts_view(*items);
    let mut out: Vec<String> = Vec::new();
    let mut i: usize = 0;
    while i < items.len()
        invariant
            i <= items@.len(),
            views == texts_view(*items),
            texts_view(out) == strings_in(views.subrange(0, i as int)),
        decreases items@.len() - i,
    {
        let ghost prev = texts_view(out);
        let got = str_of(items[i].as_str());
        let ghost sub = views.subrange(0, i + 1);
        assert(sub.drop_last() =~= views.subrange(0, i as int));
        assert(sub.last() == items@[i as int]@);
        match got {
            Some(s) => {
                out.push(s);
                assert(texts_view(out) =~= prev + seq![texts_view(out).last()]);
            },
            None => {},
        }
        i = i + 1;
    }
    assert(views.subrange(0, items@.len() as int) =~= views);
    out
}

/// The string items of the array member `key` of the parameters.
fn read_strs(p: &str, key: &str) -> (r: Option<Vec<String>>)
    ensures
        match r {
            Some(v) => member_strs(p@, key@) == Some(texts_view(v)),
            None => member_strs(p@, key@) is None,
        },
{
    match member_text(p, key) {
        Some(t) => match items_of(t.as_str()) {
            Some(items) => Some(strings_from(&items)),
            None => None,
        },
        None => None,
    }
}

/// The outcome of a read, as values.
pub open spec fn read_view(r: Result<Arg, String>) -> Result<ArgView, Seq<char>> {
    match r {
        Ok(a) => Ok(a.view()),
        Err(e) => Err(e@),
    }
}

/// Reads one parameter of kind `k` under `key` from the parameters `p`.
pub fn read_param(p: &str, k: Kind, key: &str) -> (r: Result<Arg, String>)
    ensures
        read_view(r) == read_param_of(p@, k, key@),
{
    match k {
        Kind::Str => match parse_string(p, key) {
            Ok(s) => Ok(Arg::Text(s)),
            Err(e) => Err(e),
        },
        Kind::OptStr => Ok(Arg::MaybeText(parse_optional_string(p, key))),
        Kind::OptU32 => Ok(Arg::Number(parse_optional_u32(p, key))),
        Kind::Dim(d) => {
            let v = match parse_optional_u32(p, key) {
                Some(v) => v,
                None => d,
            };
            Ok(Arg::Dim(v as u16))
        },
        Kind::NeedU32 => match parse_optional_u32(p, key) {
            Some(v) => Ok(Arg::Number(Some(v))),
            None => {
                let mut m = "missing ".to_owned();
                push_all(&mut m, key);
                Err(m)
            },
        },
        Kind::BoolOr(b) => Ok(
            Arg::Flag(
                match parse_optional_bool(p, key) {
                    Some(x) => x,
                    None => b,
                },
            ),
        ),
        Kind::StrList => match read_strs(p, key) {
            Some(v) => Ok(Arg::Texts(v)),
            None => {
                let mut m = "missing `".to_owned();
                push_all(&mut m, key);
                push_all(&mut m, "`");
                Err(m)
            },
        },
        Kind::OptStrList => {
            let r = read_strs(p, key);
            Ok(Arg::MaybeTexts(r))
        },
        Kind::Member => match member_text(p, key) {
            Some(t) => Ok(Arg::Json(t)),
            None => {
                let mut m = "missing `".to_owned();
                push_all(&mut m, key);
                push_all(&mut m, "`");
                Err(m)
            },
        },
        Kind::OptMember => Ok(Arg::MaybeJson(member_text(p, key))),
        Kind::Settings => match member_text(p, key) {
            Some(t) => Ok(Arg::Json(t)),
            None => Ok(Arg::Json("null".to_owned())),
        },
        Kind::RequestId => match member_text(p, key) {
            Some(t) => {
                if is_number_text(t.as_str()) || str_of(t.as_str()).is_some() {
                    Ok(Arg::Json(t))
                } else {
                    Err("missing requestId".to_owned())
                }
            },
            None => Err("missing requestId".to_owned()),
        },
        Kind::Whole => Ok(Arg::Json(p.to_owned())),
    }
}

/// Decodes a request into the call it makes: the handler of its method and
/// its parameters as that method reads them, or the error the method
/// reports. A name the daemon does not know is an error naming it.
pub fn parse_call(method: &str, params: &str) -> (r: Result<Call, String>)
    ensures
        match r {
            Ok(c) => call_of(method@, params@) == Ok::<(Handler, Seq<ArgView>), Seq<char>>(c.view()),
            Err(e) => call_of(method@, params@) == Err::<(Handler, Seq<ArgView>), Seq<char>>(e@),
        },
{
    let (handler, ps) = match method_entry(&method.to_owned()) {
        Some(e) => e,
        None => return Err(unknown_method(method)),
    };
    let ghost pv = entries_view(ps@);
    let mut args: Vec<Arg> = Vec::new();
    let mut i: usize = 0;
    assert(args@.map_values(|a: Arg| a.view()) =~= Seq::<ArgView>::empty());
    assert(with_prefix(Seq::<ArgView>::empty(), read_params_from(params@, pv, 0)) =~= read_params_from(
        params@,
        pv,
        0,
    )) by {
        match read_params_from(params@, pv, 0) {
            Ok(rest) => {
                assert(Seq::<ArgView>::empty() + rest =~= rest);
            },
            Err(_) => {},
        }
    }
    while i < ps.len()
        invariant
            pv == entries_view(ps@),
            method_table(method@) == Some((handler, pv)),
            i <= ps@.len(),
            read_params_from(params@, pv, 0) == with_prefix(
                args@.map_values(|a: Arg| a.view()),
                read_params_from(params@, pv, i as int),
            ),
        decreases ps@.len() - i,
    {
        let (k, key) = ps[i];
        assert(pv[i as int] == (k, key@));
        let ghost prev = args@.map_values(|a: Arg| a.view());
        match read_param(params, k, key) {
            Ok(a) => {
                let ghost av = a.view();
                args.push(a);
                proof {
                    assert(args@.map_values(|a: Arg| a.view()) =~= prev.push(av));
                    match read_params_from(params@, pv, i + 1) {
                        Ok(rest) => {
                            assert(prev + (seq![av] + rest) =~= prev.push(av) + rest);
                        },
                        Err(_) => {},
                    }
                }
            },
            Err(e) => {
                assert(read_params_from(params@, pv, i as int) == Err::<Seq<ArgView>, Seq<char>>(e@));
                return Err(e);
            },
        }
        i = i + 1;
    }
    assert(read_params_from(params@, pv, i as int) == Ok::<Seq<ArgView>, Seq<char>>(seq![]));
    assert(args@.map_values(|a: Arg| a.view()) + Seq::<ArgView>::empty() =~= args@.map_values(
        |a: Arg| a.view(),
    ));
    Ok(Call { handler, args })
}

/// The error for a commit-message request on a workspace without changes.
pub open spec fn no_changes_msg() -> Seq<char> {
    "No changes to generate commit message for"@
}

/// The reply to a request for the commit-message prompt, given the
/// workspace's diff: refused when the diff is blank.
pub fn commit_prompt_reply(diff: &str) -> (r: Result<String, String>)
    ensures
        match r {
            Ok(s) => !is_blank(diff@) && s@ == commit_prompt(diff@),
            Err(e) => is_blank(diff@) && e@ == no_changes_msg(),
        },
{
    if blank(diff) {
        return Err("No changes to generate commit message for".to_owned());
    }
    Ok(build_commit_message_prompt(diff))
}

/// The reply to a request for a guessed commit message, given the
/// workspace's diff: refused when the diff is blank.
pub fn commit_message_reply(diff: &str) -> (r: Result<String, String>)
    ensures
        match r {
            Ok(s) => !is_blank(diff@) && s@ == commit_message_for(changed_files(diff@)),
            Err(e) => is_blank(diff@) && e@ == no_changes_msg(),
        },
{
    if blank(diff) {
        return Err("No changes to generate commit message for".to_owned());
    }
    Ok(heuristic_commit_message(diff))
}

} // verus!
