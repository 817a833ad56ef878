//! A JSON-RPC transport core for a supervised worker process: message
//! framing, request/response correlation and the supervisor's state rules.

pub mod events;
pub mod ipc;
pub mod json;
pub mod pending;
pub mod sidecar;
pub mod transport;
