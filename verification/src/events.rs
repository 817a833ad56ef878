//! What the supervisor tells the embedding application.

use vstd::prelude::*;
use vstd::string::*;

verus! {

/// Whether the worker's transport is open, and why not where it is known.
#[derive(Debug)]
pub struct SidecarStatusEvent {
    pub connected: bool,
    pub error: Option<String>,
}

impl SidecarStatusEvent {
    /// The event for a transport that has just opened.
    pub fn up() -> (e: SidecarStatusEvent)
        ensures
            e.connected,
            e.error is None,
    {
        SidecarStatusEvent { connected: true, error: None }
    }

    /// The event for a transport that has closed.
    pub fn down() -> (e: SidecarStatusEvent)
        ensures
            !e.connected,
            e.error is None,
    {
        SidecarStatusEvent { connected: false, error: None }
    }

    /// The event for a worker that could not be started.
    pub fn failed(reason: String) -> (e: SidecarStatusEvent)
        ensures
            !e.connected,
            e.error == Some(reason),
    {
        SidecarStatusEvent { connected: false, error: Some(reason) }
    }

    /// The name under which status events are published.
    pub fn topic() -> (t: &'static str)
        ensures
            t@ == "sidecar:status"@,
    {
        "sidecar:status"
    }
}

} // verus!
