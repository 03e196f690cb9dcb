//! Stream segments: a continuous ordered data stream. Segments of one
//! stream share a `stream_id`; order is kept within a stream.

use vstd::prelude::*;

verus! {

/// A segment of a continuous data stream (tokens, file chunks, audio).
#[derive(Debug, Clone)]
pub struct StreamSegment {
    /// Stream id, shared by all segments of a stream.
    pub stream_id: String,
    /// Monotonic sequence within the stream.
    pub seq: u64,
    /// Whether this is the final segment.
    pub final_segment: bool,
    /// Schema id.
    pub schema: String,
    /// Segment payload.
    pub payload: serde_json::Value,
}

} // verus!
