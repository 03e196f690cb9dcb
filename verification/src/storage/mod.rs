//! Storage: key encodings and the in-memory offset and dedupe stores.

pub mod encode;
pub mod offset;
pub mod shard_map;
pub mod dedupe;
pub mod dedupe_bytes;
pub mod snapshot;

pub use dedupe::{DedupeStore, MemoryDedupeStore};
pub use encode::{
    SEP, dedupe_key, dedupe_prefix, log_key, log_prefix, log_range_end, log_range_start, offset_key,
    offset_prefix, snapshot_key, snapshot_prefix,
};
pub use offset::{MemoryOffsetStore, OffsetStore};
pub use snapshot::StoredSnapshot;
