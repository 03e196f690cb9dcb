//! Stored snapshots: a topic's latest payload at an offset, as a
//! snapshot store keeps it.

use bytes::Bytes;
use vstd::prelude::*;

verus! {

/// A snapshot as a store keeps it.
#[derive(Debug, Clone)]
pub struct StoredSnapshot {
    /// Snapshot id.
    pub snapshot_id: String,
    /// Topic the snapshot belongs to.
    pub topic: String,
    /// Offset of the entry the snapshot was taken from.
    pub base_offset: i64,
    /// The entry's payload.
    pub payload: Bytes,
    /// Creation time (ms since epoch).
    pub created_at: i64,
    /// Expiry time (ms since epoch), if the snapshot expires.
    pub expires_at: Option<i64>,
}

} // verus!
