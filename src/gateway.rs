//! The protocol engine of one client connection: framing of requests,
//! replies and notifications, and the authentication check in front of the
//! request handlers.
//!
//! Each inbound frame is one JSON object `{id?, method, params?}`. Blank or
//! malformed frames are dropped without a reply; a request without an id
//! never gets one. Until a connection has authenticated, the only request
//! it may make is `auth`.
use vstd::prelude::*;

use vstd::utf8::{decode_utf8, valid_utf8};

use crate::json::{
    is_json, json_member_text, json_quoted, json_str_of, json_u64_of, json_valid, member_text, quote,
    str_of, u64_of,
};
use crate::text::{
    blank, chars_of, decimal, decimal_text, is_blank, push_all, string_of, text_of, trim_chars, trimmed,
    utf8_string,
};

verus! {

/// How many events the event bus keeps for subscribers that fall behind;
/// a subscriber further behind skips the events it missed.
pub const EVENT_HISTORY: usize = 2048;

/// A decoded request frame.
pub struct Request {
    /// The id to answer under; a request without one gets no reply.
    pub id: Option<u64>,
    /// The method name; empty when the frame names none.
    pub method: String,
    /// The parameters as compact JSON text; `null` when the frame has none.
    pub params: String,
}

/// The id of the request in the frame text `line`: its member `id`, when
/// that is a number fitting a `u64`.
pub open spec fn frame_id(line: Seq<char>) -> Option<u64> {
    match json_member_text(line, "id"@) {
        Some(m) => json_u64_of(m),
        None => None,
    }
}

/// The method named in the frame text `line`: its string member `method`,
/// or the empty text.
pub open spec fn frame_method(line: Seq<char>) -> Seq<char> {
    match json_member_text(line, "method"@) {
        Some(m) => match json_str_of(m) {
            Some(s) => s,
            None => seq![],
        },
        None => seq![],
    }
}

/// The parameters in the frame text `line`: its member `params`, or `null`.
pub open spec fn frame_params(line: Seq<char>) -> Seq<char> {
    match json_member_text(line, "params"@) {
        Some(m) => m,
        None => "null"@,
    }
}

/// Whether a frame is decoded at all: it is not blank and its trimmed text is JSON.
pub open spec fn decodable(frame: Seq<char>) -> bool {
    !is_blank(frame) && is_json(trimmed(frame))
}

/// Decodes one inbound frame. Surrounding white space is ignored; a blank
/// frame or one that is not JSON is dropped (`None`).
pub fn decode_request(frame: &str) -> (r: Option<Request>)
    ensures
        r is Some <==> decodable(frame@),
        r matches Some(q) ==> q.id == frame_id(trimmed(frame@)) && q.method@ == frame_method(
            trimmed(frame@),
        ) && q.params@ == frame_params(trimmed(frame@)),
{
    if blank(frame) {
        return None;
    }
    let line = string_of(&trim_chars(&chars_of(frame)));
    if !json_valid(line.as_str()) {
        return None;
    }
    let id = match member_text(line.as_str(), "id") {
        Some(m) => u64_of(m.as_str()),
        None => None,
    };
    let method = match member_text(line.as_str(), "method") {
        Some(m) => match str_of(m.as_str()) {
            Some(s) => s,
            None => String::new(),
        },
        None => String::new(),
    };
    let params = match member_text(line.as_str(), "params") {
        Some(m) => m,
        None => "null".to_owned(),
    };
    Some(Request { id, method, params })
}

/// The token an `auth` request carries in its parameters `params` (JSON
/// text): the parameters themselves when they are a string, else their
/// string member `token`.
pub open spec fn auth_token_of(params: Seq<char>) -> Option<Seq<char>> {
    match json_str_of(params) {
        Some(s) => Some(s),
        None => match json_member_text(params, "token"@) {
            Some(m) => json_str_of(m),
            None => None,
        },
    }
}

/// The token an `auth` request carries in its parameters (JSON text).
pub fn parse_auth_token(params: &str) -> (r: Option<String>)
    ensures
        text_of(r) == auth_token_of(params@),
{
    match str_of(params) {
        Some(s) => Some(s),
        None => match member_text(params, "token") {
            Some(m) => str_of(m.as_str()),
            None => None,
        },
    }
}

/// The reply frame that reports `message` as the error of request `id`.
pub open spec fn error_frame(id: u64, message: Seq<char>) -> Seq<char> {
    "{\"id\":"@ + decimal(id as nat) + ",\"error\":{\"message\":"@ + json_quoted(message) + "}}"@
}

/// The reply frame that carries `result` (JSON text) as the result of request `id`.
pub open spec fn result_frame(id: u64, result: Seq<char>) -> Seq<char> {
    "{\"id\":"@ + decimal(id as nat) + ",\"result\":"@ + result + "}"@
}

/// The JSON text of a plain success result.
pub open spec fn ok_result() -> Seq<char> {
    "{\"ok\":true}"@
}

/// The error reply to request `id`, if it has an id.
pub open spec fn error_reply(id: Option<u64>, message: Seq<char>) -> Option<Seq<char>> {
    match id {
        Some(i) => Some(error_frame(i, message)),
        None => None,
    }
}

/// The reply carrying `result` to request `id`, if it has an id.
pub open spec fn result_reply(id: Option<u64>, result: Seq<char>) -> Option<Seq<char>> {
    match id {
        Some(i) => Some(result_frame(i, result)),
        None => None,
    }
}

/// The error reply to request `id`, or `None` when the request has no id.
pub fn build_error_response(id: Option<u64>, message: &str) -> (r: Option<String>)
    ensures
        text_of(r) == error_reply(id, message@),
{
    match id {
        Some(i) => {
            let mut out = "{\"id\":".to_owned();
            push_all(&mut out, decimal_text(i).as_str());
            push_all(&mut out, ",\"error\":{\"message\":");
            push_all(&mut out, quote(message).as_str());
            push_all(&mut out, "}}");
            Some(out)
        },
        None => None,
    }
}

/// The reply carrying `result`, already written as JSON text, to request `id`.
pub fn build_result_text_response(id: Option<u64>, result: &str) -> (r: Option<String>)
    ensures
        text_of(r) == result_reply(id, result@),
{
    match id {
        Some(i) => {
            let mut out = "{\"id\":".to_owned();
            push_all(&mut out, decimal_text(i).as_str());
            push_all(&mut out, ",\"result\":");
            push_all(&mut out, result);
            push_all(&mut out, "}");
            Some(out)
        },
        None => None,
    }
}

/// The text of an optional token, or the empty text when there is none.
pub open spec fn text_or_empty(o: Option<Seq<char>>) -> Seq<char> {
    match o {
        Some(t) => t,
        None => Seq::empty(),
    }
}

/// The view of an optional string.
pub open spec fn opt_view(o: Option<&String>) -> Option<Seq<char>> {
    match o {
        Some(s) => Some(s@),
        None => None,
    }
}

/// Whether a token offered when connecting opens the connection: always
/// without a secret, else only the secret itself.
pub open spec fn token_opens(secret: Option<Seq<char>>, offered: Option<Seq<char>>) -> bool {
    match secret {
        Some(s) => offered == Some(s),
        None => true,
    }
}

/// Whether the connection is authenticated after a request, given whether
/// it was before.
pub open spec fn next_authed(
    authed: bool,
    method: Seq<char>,
    token: Option<Seq<char>>,
    secret: Option<Seq<char>>,
) -> bool {
    authed || (method == "auth"@ && text_or_empty(token) == text_or_empty(secret))
}

/// The error an unauthenticated connection gets for a request, if refused.
pub open spec fn refusal(
    authed: bool,
    method: Seq<char>,
    token: Option<Seq<char>>,
    secret: Option<Seq<char>>,
) -> Option<Seq<char>> {
    if authed {
        None
    } else if method != "auth"@ {
        Some("unauthorized"@)
    } else if text_or_empty(token) != text_or_empty(secret) {
        Some("invalid token"@)
    } else {
        None
    }
}

/// Whether a token offered out of band opens a connection (or a file
/// request): always without a secret, else only the secret itself.
pub fn token_accepted(secret: Option<&String>, offered: Option<&String>) -> (r: bool)
    ensures
        r == token_opens(opt_view(secret), opt_view(offered)),
{
    match secret {
        Some(s) => match offered {
            Some(o) => *o == *s,
            None => false,
        },
        None => true,
    }
}

/// The decision on one request.
pub enum Verdict {
    /// The connection is authenticated: the request goes to its handler.
    Pass,
    /// The request is refused; the error reply, if the request has an id.
    Refuse(Option<String>),
    /// The request authenticated the connection; the success reply, if the
    /// request has an id. The connection now receives events.
    Welcome(Option<String>),
}

/// One client connection's authentication state.
pub struct Connection {
    authenticated: bool,
}

impl Connection {
    /// Whether the connection is authenticated.
    pub closed spec fn authed(&self) -> bool {
        self.authenticated
    }

    /// A new connection, authenticated when no secret is set or the secret
    /// was offered when connecting.
    pub fn new(secret: Option<&String>, offered: Option<&String>) -> (r: Connection)
        ensures
            r.authed() == token_opens(opt_view(secret), opt_view(offered)),
    {
        Connection { authenticated: token_accepted(secret, offered) }
    }

    /// Whether the connection is authenticated.
    pub fn is_authenticated(&self) -> (r: bool)
        ensures
            r == self.authed(),
    {
        self.authenticated
    }

    /// Decides on a request with the given id and method; `token` is the
    /// token it carries, consulted only for `auth`.
    pub fn judge(&mut self, id: Option<u64>, method: &String, token: Option<String>, secret: Option<&String>) -> (r: Verdict)
        ensures
            final(self).authed() == next_authed(old(self).authed(), method@, text_of(token), opt_view(secret)),
            old(self).authed() ==> r is Pass,
            match r {
                Verdict::Pass => old(self).authed(),
                Verdict::Refuse(reply) => refusal(old(self).authed(), method@, text_of(token), opt_view(secret))
                    matches Some(m) && text_of(reply) == error_reply(id, m),
                Verdict::Welcome(reply) => !old(self).authed() && final(self).authed()
                    && text_of(reply) == result_reply(id, ok_result()),
            },
    {
        if self.authenticated {
            return Verdict::Pass;
        }
        if *method != "auth".to_owned() {
            return Verdict::Refuse(build_error_response(id, "unauthorized"));
        }
        let expected = match secret {
            Some(s) => s.clone(),
            None => String::new(),
        };
        let provided = match &token {
            Some(t) => t.clone(),
            None => String::new(),
        };
        if expected != provided {
            return Verdict::Refuse(build_error_response(id, "invalid token"));
        }
        self.authenticated = true;
        Verdict::Welcome(build_result_text_response(id, "{\"ok\":true}"))
    }
}

/// What a connection does with one inbound frame.
pub enum Action {
    /// Nothing: the frame was blank or not JSON.
    Ignore,
    /// The request was refused; the error reply, if it has an id.
    Reply(Option<String>),
    /// The connection authenticated; send the reply, if any, then subscribe
    /// it to the event bus.
    Subscribe(Option<String>),
    /// Run the request's handler and answer under its id.
    Dispatch(Request),
}

impl Connection {
    /// Takes one inbound frame through decoding and the authentication check.
    pub fn receive(&mut self, frame: &str, secret: Option<&String>) -> (r: Action)
        ensures
            (r is Ignore) <==> !decodable(frame@),
            !decodable(frame@) ==> final(self).authed() == old(self).authed(),
            decodable(frame@) ==> final(self).authed() == next_authed(
                old(self).authed(),
                frame_method(trimmed(frame@)),
                offered_token(trimmed(frame@)),
                opt_view(secret),
            ),
            decodable(frame@) && old(self).authed() ==> (r matches Action::Dispatch(q) && q.id
                == frame_id(trimmed(frame@)) && q.method@ == frame_method(trimmed(frame@))
                && q.params@ == frame_params(trimmed(frame@))),
            decodable(frame@) && !old(self).authed() ==> match refusal(
                false,
                frame_method(trimmed(frame@)),
                offered_token(trimmed(frame@)),
                opt_view(secret),
            ) {
                Some(e) => r matches Action::Reply(x) && text_of(x) == error_reply(
                    frame_id(trimmed(frame@)),
                    e,
                ),
                None => r matches Action::Subscribe(x) && text_of(x) == result_reply(
                    frame_id(trimmed(frame@)),
                    ok_result(),
                ),
            },
    {
        let request = match decode_request(frame) {
            Some(q) => q,
            None => return Action::Ignore,
        };
        let token = if request.method == "auth".to_owned() {
            parse_auth_token(request.params.as_str())
        } else {
            None
        };
        match self.judge(request.id, &request.method, token, secret) {
            Verdict::Pass => Action::Dispatch(request),
            Verdict::Refuse(reply) => Action::Reply(reply),
            Verdict::Welcome(reply) => Action::Subscribe(reply),
        }
    }
}

/// The token that a request in the frame text `line` offers: only an
/// `auth` request's parameters are read for one.
pub open spec fn offered_token(line: Seq<char>) -> Option<Seq<char>> {
    if frame_method(line) == "auth"@ {
        auth_token_of(frame_params(line))
    } else {
        None
    }
}

/// Before a connection authenticates, no request but `auth` gets through:
/// each other one is refused as "unauthorized" and leaves the connection
/// unauthenticated. Once authenticated, a connection stays so whatever it
/// receives, and is never asked to authenticate again.
pub proof fn lemma_auth_guard(
    authed: bool,
    method: Seq<char>,
    token: Option<Seq<char>>,
    secret: Option<Seq<char>>,
)
    ensures
        !authed && method != "auth"@ ==> refusal(authed, method, token, secret) == Some("unauthorized"@)
            && !next_authed(authed, method, token, secret),
        authed ==> next_authed(authed, method, token, secret) && refusal(authed, method, token, secret) is None,
{
}

/// The state after a run of requests, each a method and the token it carries.
pub open spec fn authed_after(
    authed: bool,
    requests: Seq<(Seq<char>, Option<Seq<char>>)>,
    secret: Option<Seq<char>>,
) -> bool
    decreases requests.len(),
{
    if requests.len() == 0 {
        authed
    } else {
        authed_after(
            next_authed(authed, requests[0].0, requests[0].1, secret),
            requests.drop_first(),
            secret,
        )
    }
}

/// A run of requests none of which is `auth` leaves an unauthenticated
/// connection unauthenticated; an authenticated one stays authenticated
/// through any run.
pub proof fn lemma_auth_guard_runs(
    authed: bool,
    requests: Seq<(Seq<char>, Option<Seq<char>>)>,
    secret: Option<Seq<char>>,
)
    ensures
        !authed && (forall|i: int| 0 <= i < requests.len() ==> requests[i].0 != "auth"@) ==> !authed_after(
            authed,
            requests,
            secret,
        ),
        authed ==> authed_after(authed, requests, secret),
    decreases requests.len(),
{
    if requests.len() > 0 {
        let rest = requests.drop_first();
        if !authed && (forall|i: int| 0 <= i < requests.len() ==> requests[i].0 != "auth"@) {
            assert forall|i: int| 0 <= i < rest.len() implies rest[i].0 != "auth"@ by {
                assert(rest[i] == requests[i + 1]);
            }
        }
        lemma_auth_guard_runs(next_authed(authed, requests[0].0, requests[0].1, secret), rest, secret);
    }
}

/// A message as the transport delivers it.
pub enum Inbound {
    Text(String),
    Binary(Vec<u8>),
    /// The peer closes the connection.
    Close,
    /// A ping or pong.
    Control,
}

/// What a connection does with a transport message.
pub enum Intake {
    /// Handle this text as a frame.
    Frame(String),
    /// Drop the message.
    Skip,
    /// Tear the connection down.
    Stop,
}

/// Text messages are frames; binary ones are frames when they are UTF-8
/// and are dropped otherwise; pings and pongs are dropped; a close ends
/// the connection.
pub fn intake(message: Inbound) -> (r: Intake)
    ensures
        match message {
            Inbound::Text(t) => r matches Intake::Frame(f) && f@ == t@,
            Inbound::Binary(b) => if valid_utf8(b@) {
                r matches Intake::Frame(f) && f@ == decode_utf8(b@)
            } else {
                r is Skip
            },
            Inbound::Close => r is Stop,
            Inbound::Control => r is Skip,
        },
{
    match message {
        Inbound::Text(t) => Intake::Frame(t),
        Inbound::Binary(b) => match utf8_string(b) {
            Some(t) => Intake::Frame(t),
            None => Intake::Skip,
        },
        Inbound::Close => Intake::Stop,
        Inbound::Control => Intake::Skip,
    }
}

} // verus!
