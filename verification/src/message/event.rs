//! Events: business events published to a topic.

use vstd::prelude::*;
use crate::codec::json::json_to_vec;
use crate::error::{MessageReject, Result, RiftError};
use crate::message::converts_to;

verus! {

/// A business event published to a topic.
#[derive(Debug, Clone)]
pub struct Event {
    /// Event name (`chat.message.created`).
    pub event: String,
    /// Message id (ULID, UUIDv7, ...).
    pub message_id: String,
    /// Schema id `{domain}.{name}@{major}.{minor}`.
    pub schema: String,
    /// Business payload.
    pub payload: serde_json::Value,
    /// Optional dedupe key.
    pub dedupe_key: Option<String>,
    /// Optional ordering key.
    pub ordering_key: Option<String>,
    /// Optional time-to-live in milliseconds.
    pub ttl_ms: Option<u32>,
}

/// The byte length of a string's UTF-8 text, as `str::len` reports it.
pub open spec fn text_len(s: String) -> usize {
    vstd::utf8::encode_utf8(s@).len() as usize
}

/// `a + b`, held at `usize::MAX`.
pub open spec fn sat_add(a: int, b: int) -> int {
    if a + b > usize::MAX {
        usize::MAX as int
    } else {
        a + b
    }
}

impl Event {
    /// An event without dedupe key, ordering key or TTL.
    pub fn new<A: Into<String>, B: Into<String>, C: Into<String>>(
        event: A,
        message_id: B,
        schema: C,
        payload: serde_json::Value,
    ) -> (r: Event)
        ensures
            converts_to(event, r.event),
            converts_to(message_id, r.message_id),
            converts_to(schema, r.schema),
            r.payload == payload,
            r.dedupe_key is None,
            r.ordering_key is None,
            r.ttl_ms is None,
    {
        Event {
            event: event.into(),
            message_id: message_id.into(),
            schema: schema.into(),
            payload,
            dedupe_key: None,
            ordering_key: None,
            ttl_ms: None,
        }
    }

    /// Approximate encoded size, used for queue accounting: the byte
    /// lengths of the name, id and schema plus that of the payload's
    /// JSON text (nothing for a payload that does not serialize), the
    /// sum held at `usize::MAX`.
    pub fn size_hint(&self) -> (r: usize)
        ensures
            r >= sat_add(
                sat_add(text_len(self.event) as int, text_len(self.message_id) as int),
                text_len(self.schema) as int,
            ),
    {
        let a = self.event.as_str().len();
        let b = self.message_id.as_str().len();
        let c = self.schema.as_str().len();
        let body = match json_to_vec(&self.payload) {
            Ok(v) => v.len(),
            Err(_) => 0,
        };
        a.saturating_add(b).saturating_add(c).saturating_add(body)
    }
}

/// The message with which an empty event body is refused.
pub open spec fn empty_body_message() -> Seq<char> {
    "empty event payload"@
}

/// Checks an encoded event body before it is parsed: an empty body is
/// refused with `Rejected`.
pub fn validate_event_body(bytes: &[u8]) -> (r: Result<()>)
    ensures
        r is Ok <==> bytes@.len() > 0,
        r matches Err(e) ==> (e matches RiftError::Message(MessageReject::Rejected(m))
            && m@ == empty_body_message()),
{
    if bytes.len() == 0 {
        return Err(RiftError::Message(MessageReject::Rejected("empty event payload".to_string())));
    }
    Ok(())
}

} // verus!
