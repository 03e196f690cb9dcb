//! Datagrams: best-effort, low-latency, no delivery guarantee.

use vstd::prelude::*;

verus! {

/// A high-frequency, drop-tolerant message (mouse moves, typing).
#[derive(Debug, Clone)]
pub struct Datagram {
    /// Schema id.
    pub schema: String,
    /// Optional event name.
    pub event: Option<String>,
    /// Payload.
    pub payload: serde_json::Value,
}

} // verus!
