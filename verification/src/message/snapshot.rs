//! Snapshots: the state of a topic at an offset, used to re-initialize
//! a client after resume.

use vstd::prelude::*;

verus! {

/// A snapshot of a topic's state at a given offset.
#[derive(Debug, Clone)]
pub struct Snapshot {
    /// Topic the snapshot belongs to.
    pub topic: String,
    /// Snapshot id.
    pub snapshot_id: String,
    /// Offset at which the snapshot was taken.
    pub base_offset: i64,
    /// Snapshot schema id.
    pub schema: String,
    /// Snapshot payload.
    pub payload: serde_json::Value,
    /// Creation time (ms since epoch).
    pub created_at: i64,
    /// Expiration time (ms since epoch).
    pub expires_at: Option<i64>,
    /// Optional checksum.
    pub checksum: Option<String>,
}

} // verus!
