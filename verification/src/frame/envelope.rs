//! The `Frame` envelope: the single container for everything sent on a
//! Rift/1 wire.

use bytes::Bytes;
use vstd::prelude::*;
use crate::frame::types::{Codec, FrameFlags, FrameType, Priority};

verus! {

/// A single frame exchanged between client and server.
#[derive(Debug, Clone)]
pub struct Frame {
    /// Protocol version.
    pub version: u16,
    /// Monotonically increasing frame id within the current connection.
    pub frame_id: u64,
    /// Frame category (control, data, ack, flow, error).
    pub frame_type: FrameType,
    /// Bit flags.
    pub flags: FrameFlags,
    /// Payload encoding.
    pub codec: Codec,
    /// Current logical session.
    pub session_id: Option<String>,
    /// Stream identifier.
    pub stream_id: Option<String>,
    /// Topic.
    pub topic: Option<String>,
    /// Event name.
    pub event: Option<String>,
    /// Globally unique message id.
    pub message_id: Option<String>,
    /// Request/response correlation id.
    pub correlation_id: Option<String>,
    /// Distributed-trace id.
    pub trace_id: Option<String>,
    /// Sender timestamp (ms since epoch).
    pub timestamp: i64,
    /// Time-to-live in milliseconds.
    pub ttl_ms: Option<u32>,
    /// Priority.
    pub priority: Option<Priority>,
    /// Business or control payload.
    pub payload: Option<Bytes>,
}

/// The default frame, except for its type: version 0, id 0, no flag,
/// JSON codec, no optional field, timestamp 0.
pub open spec fn blank_frame(r: Frame, t: FrameType) -> bool {
    &&& r.version == 0
    &&& r.frame_id == 0
    &&& r.frame_type == t
    &&& r.flags.0 == 0
    &&& r.codec == Codec::Json
    &&& r.session_id is None
    &&& r.stream_id is None
    &&& r.topic is None
    &&& r.event is None
    &&& r.message_id is None
    &&& r.correlation_id is None
    &&& r.trace_id is None
    &&& r.timestamp == 0
    &&& r.ttl_ms is None
    &&& r.priority is None
    &&& r.payload is None
}

impl Default for Frame {
    /// A control frame with every field empty or zero and the JSON codec.
    fn default() -> (r: Frame)
        ensures
            blank_frame(r, FrameType::Control),
    {
        Frame::blank(FrameType::Control)
    }
}

impl Frame {
    fn blank(t: FrameType) -> (r: Frame)
        ensures
            blank_frame(r, t),
    {
        Frame {
            version: 0,
            frame_id: 0,
            frame_type: t,
            flags: FrameFlags::empty(),
            codec: Codec::Json,
            session_id: None,
            stream_id: None,
            topic: None,
            event: None,
            message_id: None,
            correlation_id: None,
            trace_id: None,
            timestamp: 0,
            ttl_ms: None,
            priority: None,
            payload: None,
        }
    }

    /// A minimal control frame.
    pub fn control() -> (r: Frame)
        ensures
            blank_frame(r, FrameType::Control),
    {
        Frame::blank(FrameType::Control)
    }

    /// A minimal data frame.
    pub fn data() -> (r: Frame)
        ensures
            blank_frame(r, FrameType::Data),
    {
        Frame::blank(FrameType::Data)
    }

    /// A minimal ack frame.
    pub fn ack() -> (r: Frame)
        ensures
            blank_frame(r, FrameType::Ack),
    {
        Frame::blank(FrameType::Ack)
    }

    /// A minimal flow frame.
    pub fn flow() -> (r: Frame)
        ensures
            blank_frame(r, FrameType::Flow),
    {
        Frame::blank(FrameType::Flow)
    }

    /// A minimal error frame.
    pub fn error() -> (r: Frame)
        ensures
            blank_frame(r, FrameType::Error),
    {
        Frame::blank(FrameType::Error)
    }

    /// Whether the frame requires acknowledgement.
    pub fn requires_ack(&self) -> (r: bool)
        ensures
            r == FrameFlags::has(self.flags.0, FrameFlags::REQUIRES_ACK),
    {
        self.flags.contains(FrameFlags::REQUIRES_ACK)
    }

    /// Whether the frame is a replay.
    pub fn is_replay(&self) -> (r: bool)
        ensures
            r == FrameFlags::has(self.flags.0, FrameFlags::REPLAYED),
    {
        self.flags.contains(FrameFlags::REPLAYED)
    }

    /// Marks the frame as a replay; no other field changes.
    pub fn mark_replay(&mut self)
        ensures
            final(self).flags.0 == old(self).flags.0 | FrameFlags::REPLAYED,
            *final(self) == (Frame { flags: final(self).flags, ..*old(self) }),
    {
        self.flags.set(FrameFlags::REPLAYED);
    }

    /// Whether the frame carries a snapshot.
    pub fn is_snapshot(&self) -> (r: bool)
        ensures
            r == FrameFlags::has(self.flags.0, FrameFlags::SNAPSHOT),
    {
        self.flags.contains(FrameFlags::SNAPSHOT)
    }

    /// Marks the frame as a snapshot; no other field changes.
    pub fn mark_snapshot(&mut self)
        ensures
            final(self).flags.0 == old(self).flags.0 | FrameFlags::SNAPSHOT,
            *final(self) == (Frame { flags: final(self).flags, ..*old(self) }),
    {
        self.flags.set(FrameFlags::SNAPSHOT);
    }
}

/// After marking a frame as a replay (or a snapshot) it is one, and
/// every flag it had before is still set.
pub proof fn lemma_mark_keeps_flags(bits: u16, other: u16)
    ensures
        FrameFlags::has(bits | FrameFlags::REPLAYED, FrameFlags::REPLAYED),
        FrameFlags::has(bits | FrameFlags::SNAPSHOT, FrameFlags::SNAPSHOT),
        FrameFlags::has(bits, other) ==> FrameFlags::has(bits | FrameFlags::REPLAYED, other),
        FrameFlags::has(bits, other) ==> FrameFlags::has(bits | FrameFlags::SNAPSHOT, other),
{
    crate::frame::types::lemma_flags_set_clear(bits, FrameFlags::REPLAYED, other);
    crate::frame::types::lemma_flags_set_clear(bits, FrameFlags::SNAPSHOT, other);
}

} // verus!
