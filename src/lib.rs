//! The core of a daemon that lets remote clients drive coding-agent
//! workspaces over one authenticated connection: the registries of its
//! state store, the connection protocol with its authentication check and
//! event notifications, and the terminal multiplexer's rules together with
//! its incremental UTF-8 decoder.
//!
//! Everything here is plain computation with proved contracts; sockets,
//! pseudo-terminals, threads and files are driven by the caller.
use vstd::prelude::*;

pub mod text;
pub mod config;
pub mod dispatch;
pub mod events;
pub mod files;
pub mod gateway;
pub mod json;
pub mod prompts;
pub mod registry;
pub mod rpc;
pub mod store;
pub mod terminal;
pub mod utf8;

verus! {

} // verus!
