//! The daemon's command line: its usage text and how its arguments are read.
use vstd::prelude::*;

use crate::text::{blank, chars_of, is_blank, push_all, string_of, text_of, trim_chars, trimmed};

verus! {

/// The address the daemon listens on unless told otherwise.
pub const DEFAULT_LISTEN_ADDR: &'static str = "127.0.0.1:4732";

/// The usage text of the daemon's command line.
pub open spec fn usage_text() -> Seq<char> {
    "USAGE:\n  codex-monitor-web [--listen <addr>] [--data-dir <path>] [--token <token>]\n\nOPTIONS:\n  --listen <addr>        Bind address (default: 127.0.0.1:4732)\n  --data-dir <path>      Data dir holding workspaces.json/settings.json\n  --token <token>        Optional shared token required by clients\n  -h, --help             Show this help\n"@
}

/// The usage text of the daemon's command line.
pub fn usage() -> (r: String)
    ensures
        r@ == usage_text(),
{
    "USAGE:\n  codex-monitor-web [--listen <addr>] [--data-dir <path>] [--token <token>]\n\nOPTIONS:\n  --listen <addr>        Bind address (default: 127.0.0.1:4732)\n  --data-dir <path>      Data dir holding workspaces.json/settings.json\n  --token <token>        Optional shared token required by clients\n  -h, --help             Show this help\n".to_owned()
}

/// The shared secret the environment sets: the first of the two variables
/// that is set, trimmed, unless that leaves it empty.
pub open spec fn env_secret(web: Option<Seq<char>>, daemon: Option<Seq<char>>) -> Option<Seq<char>> {
    let first = match web {
        Some(w) => Some(w),
        None => daemon,
    };
    match first {
        Some(t) => if trimmed(t).len() > 0 {
            Some(trimmed(t))
        } else {
            None
        },
        None => None,
    }
}

/// The shared secret the environment sets, from the values of
/// `CODEX_MONITOR_WEB_TOKEN` and `CODEX_MONITOR_DAEMON_TOKEN`.
pub fn initial_token(web: Option<String>, daemon: Option<String>) -> (r: Option<String>)
    ensures
        text_of(r) == env_secret(text_of(web), text_of(daemon)),
{
    let first = match web {
        Some(w) => Some(w),
        None => daemon,
    };
    match first {
        Some(t) => {
            let v = trim_chars(&chars_of(t.as_str()));
            if v.len() > 0 {
                Some(string_of(&v))
            } else {
                None
            }
        },
        None => None,
    }
}

/// What the daemon's settings are.
pub struct DaemonConfig {
    /// The address to listen on, as given.
    pub listen: String,
    /// The shared secret clients must present, if any.
    pub token: Option<String>,
    /// The directory holding the daemon's data files.
    pub data_dir: String,
}

/// What the command line asks for.
pub enum Invocation {
    /// Print the usage text and stop.
    Help,
    /// Run with these settings.
    Run(DaemonConfig),
}

/// The settings read so far: address, secret, data directory.
pub type Settings = (Seq<char>, Option<Seq<char>>, Option<Seq<char>>);

/// Reads the arguments from index `i` on, given the settings so far: the
/// error, `None` for a help request, or the settings.
pub open spec fn parsed_from(args: Seq<Seq<char>>, i: int, so_far: Settings) -> Result<
    Option<Settings>,
    Seq<char>,
>
    decreases args.len() - i,
{
    if i < 0 || i >= args.len() {
        Ok(Some(so_far))
    } else {
        let a = args[i];
        if a == "-h"@ || a == "--help"@ {
            Ok(None)
        } else if a == "--listen"@ {
            if i + 1 >= args.len() {
                Err("--listen requires a value"@)
            } else {
                parsed_from(args, i + 2, (args[i + 1], so_far.1, so_far.2))
            }
        } else if a == "--token"@ {
            if i + 1 >= args.len() {
                Err("--token requires a value"@)
            } else if is_blank(args[i + 1]) {
                Err("--token requires a non-empty value"@)
            } else {
                parsed_from(args, i + 2, (so_far.0, Some(trimmed(args[i + 1])), so_far.2))
            }
        } else if a == "--data-dir"@ {
            if i + 1 >= args.len() {
                Err("--data-dir requires a value"@)
            } else if is_blank(args[i + 1]) {
                Err("--data-dir requires a non-empty value"@)
            } else {
                parsed_from(args, i + 2, (so_far.0, so_far.1, Some(trimmed(args[i + 1]))))
            }
        } else {
            Err("Unknown argument: "@ + a)
        }
    }
}

/// The text of each argument.
pub open spec fn arg_texts(args: Seq<String>) -> Seq<Seq<char>> {
    args.map_values(|a: String| a@)
}

/// Reads the daemon's arguments (without the program name). `token` is the
/// secret the environment sets; `default_data_dir` is used when no data
/// directory is given.
pub fn parse_args(args: &Vec<String>, token: Option<String>, default_data_dir: String) -> (r: Result<Invocation, String>)
    ensures
        match parsed_from(arg_texts(args@), 0, ("127.0.0.1:4732"@, text_of(token), None)) {
            Err(e) => r matches Err(m) && m@ == e,
            Ok(None) => r matches Ok(Invocation::Help),
            Ok(Some(s)) => r matches Ok(Invocation::Run(c)) && c.listen@ == s.0 && text_of(c.token) == s.1
                && c.data_dir@ == (match s.2 {
                Some(d) => d,
                None => default_data_dir@,
            }),
        },
{
    let ghost texts = arg_texts(args@);
    let mut listen = DEFAULT_LISTEN_ADDR.to_owned();
    let mut secret = token;
    let mut data_dir: Option<String> = None;
    let mut i: usize = 0;
    assert(listen@ == "127.0.0.1:4732"@);
    while i < args.len()
        invariant
            texts == arg_texts(args@),
            i <= args@.len() + 1,
            parsed_from(texts, 0, ("127.0.0.1:4732"@, text_of(token), None)) == parsed_from(
                texts,
                i as int,
                (listen@, text_of(secret), text_of(data_dir)),
            ),
        decreases args@.len() + 1 - i,
    {
        let a = &args[i];
        assert(texts[i as int] == a@);
        if *a == "-h".to_owned() || *a == "--help".to_owned() {
            return Ok(Invocation::Help);
        } else if *a == "--listen".to_owned() {
            if i + 1 >= args.len() {
                return Err("--listen requires a value".to_owned());
            }
            listen = args[i + 1].clone();
            assert(texts[i + 1] == listen@);
        } else if *a == "--token".to_owned() {
            if i + 1 >= args.len() {
                return Err("--token requires a value".to_owned());
            }
            assert(texts[i + 1] == args@[i + 1]@);
            let v = trim_chars(&chars_of(args[i + 1].as_str()));
            if blank(args[i + 1].as_str()) {
                return Err("--token requires a non-empty value".to_owned());
            }
            secret = Some(string_of(&v));
        } else if *a == "--data-dir".to_owned() {
            if i + 1 >= args.len() {
                return Err("--data-dir requires a value".to_owned());
            }
            assert(texts[i + 1] == args@[i + 1]@);
            let v = trim_chars(&chars_of(args[i + 1].as_str()));
            if blank(args[i + 1].as_str()) {
                return Err("--data-dir requires a non-empty value".to_owned());
            }
            data_dir = Some(string_of(&v));
        } else {
            let mut m = "Unknown argument: ".to_owned();
            push_all(&mut m, a.as_str());
            return Err(m);
        }
        i = i + 2;
    }
    Ok(
        Invocation::Run(
            DaemonConfig {
                listen,
                token: secret,
                data_dir: match data_dir {
                    Some(d) => d,
                    None => default_data_dir,
                },
            },
        ),
    )
}

/// The path `rel` joined onto `base`, as `std::path::PathBuf::join` forms it.
pub uninterp spec fn path_joined(base: Seq<char>, rel: Seq<char>) -> Seq<char>;

/// Relies on `std::path::PathBuf::join`: `rel` appended to `base` with one
/// separator (or `rel` alone when it is absolute).
#[verifier::external_body]
fn join_path(base: &str, rel: &str) -> (r: String)
    ensures
        r@ == path_joined(base@, rel@),
{
    std::path::PathBuf::from(base).join(rel).to_string_lossy().into_owned()
}

/// The data directory used when none is given: under `XDG_DATA_HOME` when
/// that is set and not blank, else under `HOME` (or the current directory).
pub open spec fn default_dir_of(xdg: Option<Seq<char>>, home: Option<Seq<char>>) -> Seq<char> {
    let app = "codex-monitor-web"@;
    match xdg {
        Some(x) if trimmed(x).len() > 0 => path_joined(trimmed(x), app),
        _ => {
            let h = match home {
                Some(h) => h,
                None => "."@,
            };
            path_joined(path_joined(path_joined(h, ".local"@), "share"@), app)
        },
    }
}

/// The data directory used when none is given, from the values of
/// `XDG_DATA_HOME` and `HOME`.
pub fn default_data_dir(xdg: Option<String>, home: Option<String>) -> (r: String)
    ensures
        r@ == default_dir_of(text_of(xdg), text_of(home)),
{
    if let Some(x) = &xdg {
        let t = trim_chars(&chars_of(x.as_str()));
        if t.len() > 0 {
            return join_path(string_of(&t).as_str(), "codex-monitor-web");
        }
    }
    let h = match home {
        Some(h) => h,
        None => ".".to_owned(),
    };
    let local = join_path(h.as_str(), ".local");
    let share = join_path(local.as_str(), "share");
    join_path(share.as_str(), "codex-monitor-web")
}

} // verus!
