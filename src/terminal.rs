//! The decisions of the terminal multiplexer: keys, sizes, shell settings,
//! which errors mean a terminal is gone, and the terminal registry with its
//! open, lookup, eviction and close rules.
//!
//! The pseudo-terminals themselves are opened, written and killed by the
//! caller; the registry holds whatever handle the caller keeps for each.
use vstd::prelude::*;

use crate::registry::Registry;
use crate::text::{
    blank, chars_of, is_blank, lower_ascii, lower_ascii_chars, occurs, occurs_in, push_all,
};

verus! {

/// The registry key of terminal `t` of workspace `ws`.
pub open spec fn key_of(ws: Seq<char>, t: Seq<char>) -> Seq<char> {
    ws + seq![':'] + t
}

/// The registry key of a terminal: the workspace id, a colon, the terminal id.
pub fn terminal_key(workspace_id: &str, terminal_id: &str) -> (r: String)
    ensures
        r@ == key_of(workspace_id@, terminal_id@),
{
    let mut k = String::new();
    push_all(&mut k, workspace_id);
    k.push(':');
    push_all(&mut k, terminal_id);
    k
}

/// Fragments of an error message (in lower case) that mean the terminal's
/// device or process is gone.
pub open spec fn closed_signatures() -> Seq<Seq<char>> {
    seq![
        "broken pipe"@,
        "input/output error"@,
        "os error 5"@,
        "eio"@,
        "io error"@,
        "not connected"@,
        "closed"@,
    ]
}

/// Whether `m`, read without regard to ASCII case, holds one of the closed signatures.
pub open spec fn is_closed_message(m: Seq<char>) -> bool {
    exists|k: int| 0 <= k < closed_signatures().len() && occurs_in(lower_ascii(m), #[trigger] closed_signatures()[k])
}

/// Whether an error from a terminal's device means the terminal is gone.
pub fn is_terminal_closed_error(message: &str) -> (r: bool)
    ensures
        r == is_closed_message(message@),
{
    let lower = lower_ascii_chars(&chars_of(message));
    let ghost sigs = closed_signatures();
    let a = occurs(&lower, &chars_of("broken pipe"));
    let b = occurs(&lower, &chars_of("input/output error"));
    let c = occurs(&lower, &chars_of("os error 5"));
    let d = occurs(&lower, &chars_of("eio"));
    let e = occurs(&lower, &chars_of("io error"));
    let f = occurs(&lower, &chars_of("not connected"));
    let g = occurs(&lower, &chars_of("closed"));
    proof {
        assert(sigs[0] == "broken pipe"@);
        assert(sigs[1] == "input/output error"@);
        assert(sigs[2] == "os error 5"@);
        assert(sigs[3] == "eio"@);
        assert(sigs[4] == "io error"@);
        assert(sigs[5] == "not connected"@);
        assert(sigs[6] == "closed"@);
        if is_closed_message(message@) {
            let k = choose|k: int| 0 <= k < sigs.len() && occurs_in(lower_ascii(message@), #[trigger] sigs[k]);
            assert(k == 0 || k == 1 || k == 2 || k == 3 || k == 4 || k == 5 || k == 6);
        }
    }
    a || b || c || d || e || f || g
}

/// The size a pseudo-terminal is given along one axis: at least 2.
pub fn pty_dimension(n: u16) -> (r: u16)
    ensures
        r == if n < 2 { 2 } else { n },
{
    if n < 2 {
        2
    } else {
        n
    }
}

/// The shell a terminal runs: the one the environment names, else zsh.
pub fn shell_path(shell: Option<String>) -> (r: String)
    ensures
        r@ == match shell {
            Some(s) => s@,
            None => "/bin/zsh"@,
        },
{
    match shell {
        Some(s) => s,
        None => "/bin/zsh".to_owned(),
    }
}

/// The locale used when the environment names none that is UTF-8.
pub open spec fn fallback_locale() -> Seq<char> {
    "en_US.UTF-8"@
}

/// Whether a locale name says UTF-8 (in any ASCII case, with or without the dash).
pub open spec fn is_utf8_locale(l: Seq<char>) -> bool {
    occurs_in(lower_ascii(l), "utf-8"@) || occurs_in(lower_ascii(l), "utf8"@)
}

/// The locale a shell is started with: `LC_ALL`, else `LANG`, else the
/// fallback; a choice that is not UTF-8 is replaced by the fallback.
pub open spec fn chosen_locale(lc_all: Option<Seq<char>>, lang: Option<Seq<char>>) -> Seq<char> {
    let candidate = match lc_all {
        Some(l) => l,
        None => match lang {
            Some(l) => l,
            None => fallback_locale(),
        },
    };
    if is_utf8_locale(candidate) {
        candidate
    } else {
        fallback_locale()
    }
}

/// The locale a shell is started with, from the values of `LC_ALL` and `LANG`.
/// No character outside ASCII lowers to a letter of "utf", so folding ASCII
/// case alone finds every spelling that full lower-casing would.
pub fn resolve_locale(lc_all: Option<String>, lang: Option<String>) -> (r: String)
    ensures
        r@ == chosen_locale(
            match lc_all {
                Some(l) => Some(l@),
                None => None,
            },
            match lang {
                Some(l) => Some(l@),
                None => None,
            },
        ),
{
    let candidate = match lc_all {
        Some(l) => l,
        None => match lang {
            Some(l) => l,
            None => "en_US.UTF-8".to_owned(),
        },
    };
    let lower = lower_ascii_chars(&chars_of(candidate.as_str()));
    if occurs(&lower, &chars_of("utf-8")) || occurs(&lower, &chars_of("utf8")) {
        candidate
    } else {
        "en_US.UTF-8".to_owned()
    }
}

/// The error for an open request without a terminal id.
pub open spec fn id_required_msg() -> Seq<char> {
    "Terminal id is required"@
}

/// The error for a request on a terminal that is not open.
pub open spec fn not_found_msg() -> Seq<char> {
    "Terminal session not found"@
}

/// What an open request finds: an error, or whether the terminal is open already.
pub open spec fn open_status_of<S>(m: Map<Seq<char>, S>, ws: Seq<char>, t: Seq<char>) -> Result<
    bool,
    Seq<char>,
> {
    if is_blank(t) {
        Err(id_required_msg())
    } else {
        Ok(m.contains_key(key_of(ws, t)))
    }
}

/// The registry after a session is offered under `k`: the first one stays.
pub open spec fn registered<S>(m: Map<Seq<char>, S>, k: Seq<char>, s: S) -> Map<Seq<char>, S> {
    if m.contains_key(k) {
        m
    } else {
        m.insert(k, s)
    }
}

/// The session a lookup under `k` finds, or the not-found error.
pub open spec fn lookup_of<S>(m: Map<Seq<char>, S>, k: Seq<char>) -> Result<S, Seq<char>> {
    if m.contains_key(k) {
        Ok(m[k])
    } else {
        Err(not_found_msg())
    }
}

/// The registry after an operation on the terminal under `k` ended with
/// `error`: a terminal whose error says it is gone leaves the registry.
pub open spec fn settled<S>(m: Map<Seq<char>, S>, k: Seq<char>, error: Option<Seq<char>>) -> Map<
    Seq<char>,
    S,
> {
    match error {
        Some(e) => if is_closed_message(e) {
            m.remove(k)
        } else {
            m
        },
        None => m,
    }
}

/// The message of a failed outcome.
pub open spec fn error_of(outcome: Result<(), String>) -> Option<Seq<char>> {
    match outcome {
        Ok(_) => None,
        Err(e) => Some(e@),
    }
}

/// The live terminals, each under the key of its workspace and terminal id,
/// holding the caller's handle of type `S`.
///
/// A terminal leaves the registry when it is closed, or when a write or a
/// resize fails with an error that says it is gone. A reader that reaches
/// the end of the terminal's stream only announces the exit: the entry
/// stays until one of those two happens.
pub struct TerminalRegistry<S> {
    sessions: Registry<S>,
}

impl<S> View for TerminalRegistry<S> {
    type V = Map<Seq<char>, S>;

    closed spec fn view(&self) -> Map<Seq<char>, S> {
        self.sessions@
    }
}

impl<S> TerminalRegistry<S> {
    /// The registry's own invariant holds.
    pub closed spec fn wf(&self) -> bool {
        self.sessions.wf()
    }

    /// No terminal is open.
    pub fn new() -> (r: Self)
        ensures
            r.wf(),
            r@ == Map::<Seq<char>, S>::empty(),
    {
        TerminalRegistry { sessions: Registry::new() }
    }

    /// Checks an open request: an error for a blank terminal id, else whether
    /// the terminal is open already (then the request succeeds at once and
    /// nothing is spawned).
    pub fn open_status(&self, workspace_id: &str, terminal_id: &str) -> (r: Result<bool, String>)
        requires
            self.wf(),
        ensures
            match r {
                Ok(b) => open_status_of(self@, workspace_id@, terminal_id@) == Ok::<bool, Seq<char>>(b),
                Err(e) => open_status_of(self@, workspace_id@, terminal_id@) == Err::<bool, Seq<char>>(e@),
            },
    {
        if blank(terminal_id) {
            return Err("Terminal id is required".to_owned());
        }
        let key = terminal_key(workspace_id, terminal_id);
        Ok(self.sessions.contains_key(&key))
    }

    /// Registers a newly spawned session. If another open of the same
    /// terminal won the race, that one stays and `session` is handed back
    /// for the caller to shut down.
    pub fn register(&mut self, workspace_id: &str, terminal_id: &str, session: S) -> (r: Option<S>)
        requires
            old(self).wf(),
        ensures
            final(self).wf(),
            final(self)@ == registered(old(self)@, key_of(workspace_id@, terminal_id@), session),
            r == (if old(self)@.contains_key(key_of(workspace_id@, terminal_id@)) {
                Some(session)
            } else {
                None
            }),
    {
        let key = terminal_key(workspace_id, terminal_id);
        self.sessions.insert_if_absent(key, session)
    }

    /// The session of an open terminal, for a write or a resize.
    pub fn session(&self, workspace_id: &str, terminal_id: &str) -> (r: Result<&S, String>)
        requires
            self.wf(),
        ensures
            match r {
                Ok(s) => lookup_of(self@, key_of(workspace_id@, terminal_id@)) == Ok::<S, Seq<char>>(*s),
                Err(e) => lookup_of(self@, key_of(workspace_id@, terminal_id@)) == Err::<S, Seq<char>>(e@),
            },
    {
        let key = terminal_key(workspace_id, terminal_id);
        match self.sessions.get(&key) {
            Some(s) => Ok(s),
            None => Err("Terminal session not found".to_owned()),
        }
    }

    /// Records how a write or resize ended and hands the outcome back. A
    /// failure whose message says the terminal is gone evicts it, so later
    /// requests fail as not found.
    pub fn settle(&mut self, workspace_id: &str, terminal_id: &str, outcome: Result<(), String>) -> (r: Result<(), String>)
        requires
            old(self).wf(),
        ensures
            final(self).wf(),
            r == outcome,
            final(self)@ == settled(old(self)@, key_of(workspace_id@, terminal_id@), error_of(outcome)),
    {
        if let Err(e) = &outcome {
            if is_terminal_closed_error(e.as_str()) {
                let key = terminal_key(workspace_id, terminal_id);
                let _ = self.sessions.remove(&key);
            }
        }
        outcome
    }

    /// Takes an open terminal out of the registry so that its process can be
    /// killed; fails as not found when it is not open.
    pub fn close(&mut self, workspace_id: &str, terminal_id: &str) -> (r: Result<S, String>)
        requires
            old(self).wf(),
        ensures
            final(self).wf(),
            final(self)@ == old(self)@.remove(key_of(workspace_id@, terminal_id@)),
            match r {
                Ok(s) => lookup_of(old(self)@, key_of(workspace_id@, terminal_id@)) == Ok::<S, Seq<char>>(s),
                Err(e) => lookup_of(old(self)@, key_of(workspace_id@, terminal_id@)) == Err::<S, Seq<char>>(e@),
            },
    {
        let key = terminal_key(workspace_id, terminal_id);
        match self.sessions.remove(&key) {
            Some(s) => Ok(s),
            None => Err("Terminal session not found".to_owned()),
        }
    }
}

/// Opening a terminal that is open already spawns nothing: the request is
/// answered from the registry, and a session offered under the same key is
/// refused, so the registry keeps the session of the first open.
pub proof fn lemma_open_idempotent<S>(m: Map<Seq<char>, S>, ws: Seq<char>, t: Seq<char>, first: S, again: S)
    requires
        !is_blank(t),
    ensures
        open_status_of(registered(m, key_of(ws, t), first), ws, t) == Ok::<bool, Seq<char>>(true),
        registered(registered(m, key_of(ws, t), first), key_of(ws, t), again) == registered(m, key_of(ws, t), first),
        registered(m, key_of(ws, t), first)[key_of(ws, t)] == (if m.contains_key(key_of(ws, t)) {
            m[key_of(ws, t)]
        } else {
            first
        }),
{
}

/// Two opens of one terminal that both spawned converge to one session: the
/// first to register stays and the other is refused.
pub proof fn lemma_opens_converge<S>(m: Map<Seq<char>, S>, k: Seq<char>, first: S, second: S)
    requires
        !m.contains_key(k),
    ensures
        registered(registered(m, k, first), k, second) == m.insert(k, first),
        registered(registered(m, k, first), k, second)[k] == first,
{
}

/// A write or resize that fails because the terminal is gone removes it, and
/// the next request on it fails as not found instead of with the device error.
pub proof fn lemma_closed_session_evicted<S>(m: Map<Seq<char>, S>, k: Seq<char>, e: Seq<char>)
    requires
        is_closed_message(e),
    ensures
        !settled(m, k, Some(e)).contains_key(k),
        lookup_of(settled(m, k, Some(e)), k) == Err::<S, Seq<char>>(not_found_msg()),
{
}

/// After a close, the terminal is gone: requests on it fail as not found.
pub proof fn lemma_closed_terminal_not_found<S>(m: Map<Seq<char>, S>, k: Seq<char>)
    ensures
        lookup_of(m.remove(k), k) == Err::<S, Seq<char>>(not_found_msg()),
{
}

} // verus!
