//! A host-driven facade over an LLM agent loop.
//!
//! The host makes an [`agent::EmbeddedAgent`], registers tools, and starts a run with a prompt.
//! Whoever drives the agent loop hands each of its events to the agent, which queues them as
//! JSON lines until the host polls, keeps the conversation, counts tokens and routes the host's
//! answers to the tool calls that wait for them.

use vstd::prelude::*;

pub mod agent;
pub mod call_laws;
pub mod channels;
pub mod config;
pub mod cost;
pub mod events;
pub mod json;
pub mod laws;
pub mod messages;
pub mod parked;
pub mod run;
pub mod session;
pub mod text;
pub mod tools;
pub mod wire_laws;

verus! {

/// The version of the library.
pub fn version() -> (version: String)
    ensures
        version@ == "0.1.0"@,
{
    "0.1.0".to_owned()
}

} // verus!
