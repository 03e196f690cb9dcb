//! Commands and their replies.

use vstd::prelude::*;
use crate::error::{MessageReject, Result, RiftError};
use crate::message::converts_to;

verus! {

/// A request-style command sent to the server or a peer.
#[derive(Debug, Clone)]
pub struct Command {
    /// Command name.
    pub command: String,
    /// Correlation id linking the command to its reply.
    pub correlation_id: String,
    /// Request timeout in milliseconds.
    pub timeout_ms: u32,
    /// Optional idempotency key.
    pub idempotency_key: Option<String>,
    /// Request payload.
    pub payload: serde_json::Value,
    /// Schema id.
    pub schema: String,
}

impl Command {
    /// A command without idempotency key.
    pub fn new<A: Into<String>, B: Into<String>, C: Into<String>>(
        command: A,
        correlation_id: B,
        timeout_ms: u32,
        schema: C,
        payload: serde_json::Value,
    ) -> (r: Command)
        ensures
            converts_to(command, r.command),
            converts_to(correlation_id, r.correlation_id),
            converts_to(schema, r.schema),
            r.timeout_ms == timeout_ms,
            r.idempotency_key is None,
            r.payload == payload,
    {
        Command {
            command: command.into(),
            correlation_id: correlation_id.into(),
            timeout_ms,
            idempotency_key: None,
            payload,
            schema: schema.into(),
        }
    }
}

/// The message with which a command without correlation id is refused.
pub open spec fn missing_correlation_message() -> Seq<char> {
    "command requires correlation_id"@
}

/// Checks what a command must carry on the wire: a correlation id.
/// Fails with `Rejected` when it is empty.
pub fn validate_command(c: &Command) -> (r: Result<()>)
    ensures
        r is Ok <==> c.correlation_id@.len() > 0,
        r matches Err(e) ==> (e matches RiftError::Message(MessageReject::Rejected(m))
            && m@ == missing_correlation_message()),
{
    if c.correlation_id.as_str().is_empty() {
        return Err(
            RiftError::Message(MessageReject::Rejected("command requires correlation_id".to_string())),
        );
    }
    Ok(())
}

/// Reply status.
#[derive(Debug, Clone, Copy, PartialEq, Eq, Structural)]
pub enum ReplyStatus {
    /// The command succeeded (`ok` on the wire).
    Success,
    Error,
    Timeout,
    Rejected,
}

/// A structured error inside a reply.
#[derive(Debug, Clone)]
pub struct ReplyError {
    pub code: String,
    pub message: String,
}

/// The reply to a command.
#[derive(Debug, Clone)]
pub struct Reply {
    /// Correlation id of the originating command.
    pub correlation_id: String,
    /// Status.
    pub status: ReplyStatus,
    /// Optional response payload.
    pub payload: Option<serde_json::Value>,
    /// Optional structured error.
    pub error: Option<ReplyError>,
    /// Server time (ms since epoch).
    pub server_time: i64,
}

impl Reply {
    /// A successful reply carrying `payload`.
    pub fn ok<A: Into<String>>(correlation_id: A, payload: serde_json::Value) -> (r: Reply)
        ensures
            converts_to(correlation_id, r.correlation_id),
            r.status == ReplyStatus::Success,
            r.payload == Some(payload),
            r.error is None,
            r.server_time == 0,
    {
        Reply {
            correlation_id: correlation_id.into(),
            status: ReplyStatus::Success,
            payload: Some(payload),
            error: None,
            server_time: 0,
        }
    }

    /// A failed reply carrying an error `code` and `message`.
    pub fn error<A: Into<String>, B: Into<String>, C: Into<String>>(
        correlation_id: A,
        code: B,
        message: C,
    ) -> (r: Reply)
        ensures
            converts_to(correlation_id, r.correlation_id),
            r.status == ReplyStatus::Error,
            r.payload is None,
            r.error matches Some(e) && converts_to(code, e.code) && converts_to(message, e.message),
            r.server_time == 0,
    {
        Reply {
            correlation_id: correlation_id.into(),
            status: ReplyStatus::Error,
            payload: None,
            error: Some(ReplyError { code: code.into(), message: message.into() }),
            server_time: 0,
        }
    }
}

} // verus!
