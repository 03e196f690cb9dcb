//! State messages and presence.

use vstd::prelude::*;

verus! {

/// A state message: only the latest value for a `state_key` matters.
#[derive(Debug, Clone)]
pub struct State {
    /// State key (`cursor`, `typing:user-42`).
    pub state_key: String,
    /// Optional human-readable name.
    pub name: Option<String>,
    /// The current state payload.
    pub value: serde_json::Value,
    /// Optional TTL in milliseconds.
    pub ttl_ms: Option<u32>,
    /// Optional source subject (user, device, connection).
    pub subject: Option<String>,
    /// Update time (ms since epoch).
    pub updated_at: i64,
}

/// Presence: a special kind of state.
#[derive(Debug, Clone)]
pub struct Presence {
    /// Subject the entry describes.
    pub subject: String,
    /// Status (`online`, `away`, `busy`, `offline`).
    pub status: String,
    /// Owning session id.
    pub session_id: Option<String>,
    /// Owning connection id.
    pub connection_id: Option<String>,
    /// Presence TTL in milliseconds.
    pub ttl_ms: Option<u32>,
    /// Free-form metadata.
    pub metadata: Option<serde_json::Value>,
    /// Update time.
    pub updated_at: i64,
}

} // verus!
