//! Events that the daemon broadcasts to every authenticated connection, and
//! how a connection's forwarder turns what its subscription yields into
//! notification frames.
use vstd::prelude::*;

use crate::json::{json_quoted, quote};
use crate::text::push_all;

verus! {

/// One event on the bus.
pub enum DaemonEvent {
    /// An event of an agent session: its payload as JSON text.
    AppServer(String),
    /// Text a terminal wrote.
    TerminalOutput { workspace_id: String, terminal_id: String, data: String },
    /// A terminal's reader reached the end of its stream.
    TerminalExit { workspace_id: String, terminal_id: String },
}

/// The notification frame of terminal output.
pub open spec fn output_frame(ws: Seq<char>, t: Seq<char>, data: Seq<char>) -> Seq<char> {
    "{\"method\":\"terminal-output\",\"params\":{\"workspaceId\":"@ + json_quoted(ws)
        + ",\"terminalId\":"@ + json_quoted(t) + ",\"data\":"@ + json_quoted(data) + "}}"@
}

/// The notification frame of a terminal's exit.
pub open spec fn exit_frame(ws: Seq<char>, t: Seq<char>) -> Seq<char> {
    "{\"method\":\"terminal-exit\",\"params\":{\"workspaceId\":"@ + json_quoted(ws)
        + ",\"terminalId\":"@ + json_quoted(t) + "}}"@
}

/// The notification frame of an agent-session event whose JSON text is `payload`.
pub open spec fn agent_frame(payload: Seq<char>) -> Seq<char> {
    "{\"method\":\"app-server-event\",\"params\":"@ + payload + "}"@
}

/// The notification frame of an event.
pub fn build_event_notification(event: &DaemonEvent) -> (r: Option<String>)
    ensures
        match event {
            DaemonEvent::TerminalOutput { workspace_id, terminal_id, data } => r is Some
                && r->0@ == output_frame(workspace_id@, terminal_id@, data@),
            DaemonEvent::TerminalExit { workspace_id, terminal_id } => r is Some && r->0@
                == exit_frame(workspace_id@, terminal_id@),
            DaemonEvent::AppServer(payload) => r is Some && r->0@ == agent_frame(payload@),
        },
{
    match event {
        DaemonEvent::AppServer(payload) => {
            let mut out = "{\"method\":\"app-server-event\",\"params\":".to_owned();
            push_all(&mut out, payload.as_str());
            push_all(&mut out, "}");
            Some(out)
        },
        DaemonEvent::TerminalOutput { workspace_id, terminal_id, data } => {
            let mut out = "{\"method\":\"terminal-output\",\"params\":{\"workspaceId\":".to_owned();
            push_all(&mut out, quote(workspace_id.as_str()).as_str());
            push_all(&mut out, ",\"terminalId\":");
            push_all(&mut out, quote(terminal_id.as_str()).as_str());
            push_all(&mut out, ",\"data\":");
            push_all(&mut out, quote(data.as_str()).as_str());
            push_all(&mut out, "}}");
            assert(out@ =~= output_frame(workspace_id@, terminal_id@, data@));
            Some(out)
        },
        DaemonEvent::TerminalExit { workspace_id, terminal_id } => {
            let mut out = "{\"method\":\"terminal-exit\",\"params\":{\"workspaceId\":".to_owned();
            push_all(&mut out, quote(workspace_id.as_str()).as_str());
            push_all(&mut out, ",\"terminalId\":");
            push_all(&mut out, quote(terminal_id.as_str()).as_str());
            push_all(&mut out, "}}");
            Some(out)
        },
    }
}

/// What a connection's subscription to the bus yielded.
pub enum Delivery<'a> {
    /// The next event.
    Event(&'a DaemonEvent),
    /// The subscriber fell more than the bus's history behind; the events
    /// it missed are gone.
    Lagged,
    /// The bus is closed.
    Closed,
}

/// What the forwarder does next.
pub enum Forward {
    /// Queue this frame for the client.
    Send(String),
    /// Nothing to send; wait for the next delivery.
    Skip,
    /// Stop forwarding.
    Stop,
}

/// The forwarder's decision on one delivery. Falling behind is not an
/// error: the missed events are skipped and forwarding goes on, so a slow
/// client never holds up the producers.
pub fn forward_step(delivery: Delivery) -> (r: Forward)
    ensures
        match delivery {
            Delivery::Event(DaemonEvent::TerminalOutput { workspace_id, terminal_id, data }) => r
                matches Forward::Send(f) && f@ == output_frame(workspace_id@, terminal_id@, data@),
            Delivery::Event(DaemonEvent::TerminalExit { workspace_id, terminal_id }) => r
                matches Forward::Send(f) && f@ == exit_frame(workspace_id@, terminal_id@),
            Delivery::Event(DaemonEvent::AppServer(payload)) => r matches Forward::Send(f) && f@
                == agent_frame(payload@),
            Delivery::Lagged => r is Skip,
            Delivery::Closed => r is Stop,
        },
{
    match delivery {
        Delivery::Event(event) => match build_event_notification(event) {
            Some(frame) => Forward::Send(frame),
            None => Forward::Skip,
        },
        Delivery::Lagged => Forward::Skip,
        Delivery::Closed => Forward::Stop,
    }
}

} // verus!
