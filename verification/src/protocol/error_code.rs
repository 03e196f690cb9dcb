//! Structured, machine-readable error codes.

use vstd::prelude::*;

verus! {

/// Stable, machine-readable error code returned in an error frame.
#[derive(Debug, Clone, Copy, PartialEq, Eq, Hash, Structural)]
pub enum ErrorCode {
    /// Protocol version unsupported.
    ProtocolVersionUnsupported,
    /// Protocol frame invalid.
    ProtocolFrameInvalid,
    /// Protocol codec unsupported.
    ProtocolCodecUnsupported,
    /// Protocol payload too large.
    ProtocolPayloadTooLarge,
    /// Protocol required field missing.
    ProtocolRequiredFieldMissing,
    /// Protocol schema mismatch.
    ProtocolSchemaMismatch,
    /// Protocol order violation.
    ProtocolOrderViolation,
    /// Auth required.
    AuthRequired,
    /// Auth invalid.
    AuthInvalid,
    /// Auth expired.
    AuthExpired,
    /// Auth revoked.
    AuthRevoked,
    /// Permission denied.
    PermissionDenied,
    /// Topic forbidden.
    TopicForbidden,
    /// Session not found.
    SessionNotFound,
    /// Session expired.
    SessionExpired,
    /// Session conflict.
    SessionConflict,
    /// Resume rejected.
    ResumeRejected,
    /// Replay offset expired.
    ReplayOffsetExpired,
    /// Snapshot required.
    SnapshotRequired,
    /// Topic not found.
    TopicNotFound,
    /// Topic closed.
    TopicClosed,
    /// Topic overloaded.
    TopicOverloaded,
    /// Topic subscriber limit.
    TopicSubscriberLimit,
    /// Topic publisher limit.
    TopicPublisherLimit,
    /// Topic rate limited.
    TopicRateLimited,
    /// Message duplicate.
    MessageDuplicate,
    /// Message expired.
    MessageExpired,
    /// Message rejected.
    MessageRejected,
    /// Message too large.
    MessageTooLarge,
    /// Message ack timeout.
    MessageAckTimeout,
    /// Message delivery failed.
    MessageDeliveryFailed,
    /// System overloaded.
    SystemOverloaded,
    /// System maintenance.
    SystemMaintenance,
    /// System shard moved.
    SystemShardMoved,
    /// System region unavailable.
    SystemRegionUnavailable,
    /// System internal.
    SystemInternal,
}

/// The wire identifier of each error code.
pub open spec fn error_code_str(c: ErrorCode) -> Seq<char> {
    match c {
        ErrorCode::ProtocolVersionUnsupported => "RIFT_PROTOCOL_VERSION_UNSUPPORTED"@,
        ErrorCode::ProtocolFrameInvalid => "RIFT_PROTOCOL_FRAME_INVALID"@,
        ErrorCode::ProtocolCodecUnsupported => "RIFT_PROTOCOL_CODEC_UNSUPPORTED"@,
        ErrorCode::ProtocolPayloadTooLarge => "RIFT_PROTOCOL_PAYLOAD_TOO_LARGE"@,
        ErrorCode::ProtocolRequiredFieldMissing => "RIFT_PROTOCOL_REQUIRED_FIELD_MISSING"@,
        ErrorCode::ProtocolSchemaMismatch => "RIFT_PROTOCOL_SCHEMA_MISMATCH"@,
        ErrorCode::ProtocolOrderViolation => "RIFT_PROTOCOL_ORDER_VIOLATION"@,
        ErrorCode::AuthRequired => "RIFT_AUTH_REQUIRED"@,
        ErrorCode::AuthInvalid => "RIFT_AUTH_INVALID"@,
        ErrorCode::AuthExpired => "RIFT_AUTH_EXPIRED"@,
        ErrorCode::AuthRevoked => "RIFT_AUTH_REVOKED"@,
        ErrorCode::PermissionDenied => "RIFT_PERMISSION_DENIED"@,
        ErrorCode::TopicForbidden => "RIFT_TOPIC_FORBIDDEN"@,
        ErrorCode::SessionNotFound => "RIFT_SESSION_NOT_FOUND"@,
        ErrorCode::SessionExpired => "RIFT_SESSION_EXPIRED"@,
        ErrorCode::SessionConflict => "RIFT_SESSION_CONFLICT"@,
        ErrorCode::ResumeRejected => "RIFT_RESUME_REJECTED"@,
        ErrorCode::ReplayOffsetExpired => "RIFT_REPLAY_OFFSET_EXPIRED"@,
        ErrorCode::SnapshotRequired => "RIFT_SNAPSHOT_REQUIRED"@,
        ErrorCode::TopicNotFound => "RIFT_TOPIC_NOT_FOUND"@,
        ErrorCode::TopicClosed => "RIFT_TOPIC_CLOSED"@,
        ErrorCode::TopicOverloaded => "RIFT_TOPIC_OVERLOADED"@,
        ErrorCode::TopicSubscriberLimit => "RIFT_TOPIC_SUBSCRIBER_LIMIT"@,
        ErrorCode::TopicPublisherLimit => "RIFT_TOPIC_PUBLISHER_LIMIT"@,
        ErrorCode::TopicRateLimited => "RIFT_TOPIC_RATE_LIMITED"@,
        ErrorCode::MessageDuplicate => "RIFT_MESSAGE_DUPLICATE"@,
        ErrorCode::MessageExpired => "RIFT_MESSAGE_EXPIRED"@,
        ErrorCode::MessageRejected => "RIFT_MESSAGE_REJECTED"@,
        ErrorCode::MessageTooLarge => "RIFT_MESSAGE_TOO_LARGE"@,
        ErrorCode::MessageAckTimeout => "RIFT_MESSAGE_ACK_TIMEOUT"@,
        ErrorCode::MessageDeliveryFailed => "RIFT_MESSAGE_DELIVERY_FAILED"@,
        ErrorCode::SystemOverloaded => "RIFT_SYSTEM_OVERLOADED"@,
        ErrorCode::SystemMaintenance => "RIFT_SYSTEM_MAINTENANCE"@,
        ErrorCode::SystemShardMoved => "RIFT_SYSTEM_SHARD_MOVED"@,
        ErrorCode::SystemRegionUnavailable => "RIFT_SYSTEM_REGION_UNAVAILABLE"@,
        ErrorCode::SystemInternal => "RIFT_SYSTEM_INTERNAL"@,
    }
}

/// Whether an error code is generally safe to retry.
pub open spec fn error_code_retryable(c: ErrorCode) -> bool {
    c == ErrorCode::SystemOverloaded
        || c == ErrorCode::SystemShardMoved
        || c == ErrorCode::SystemRegionUnavailable
        || c == ErrorCode::TopicOverloaded
        || c == ErrorCode::TopicRateLimited
        || c == ErrorCode::ReplayOffsetExpired
        || c == ErrorCode::MessageDeliveryFailed
        || c == ErrorCode::MessageAckTimeout
}

impl ErrorCode {
    /// Stable string identifier sent on the wire.
    pub fn as_str(self) -> (r: &'static str)
        ensures
            r@ == error_code_str(self),
    {
        proof {
            reveal_strlit("RIFT_PROTOCOL_VERSION_UNSUPPORTED");
            reveal_strlit("RIFT_PROTOCOL_FRAME_INVALID");
            reveal_strlit("RIFT_PROTOCOL_CODEC_UNSUPPORTED");
            reveal_strlit("RIFT_PROTOCOL_PAYLOAD_TOO_LARGE");
            reveal_strlit("RIFT_PROTOCOL_REQUIRED_FIELD_MISSING");
            reveal_strlit("RIFT_PROTOCOL_SCHEMA_MISMATCH");
            reveal_strlit("RIFT_PROTOCOL_ORDER_VIOLATION");
            reveal_strlit("RIFT_AUTH_REQUIRED");
            reveal_strlit("RIFT_AUTH_INVALID");
            reveal_strlit("RIFT_AUTH_EXPIRED");
            reveal_strlit("RIFT_AUTH_REVOKED");
            reveal_strlit("RIFT_PERMISSION_DENIED");
            reveal_strlit("RIFT_TOPIC_FORBIDDEN");
            reveal_strlit("RIFT_SESSION_NOT_FOUND");
            reveal_strlit("RIFT_SESSION_EXPIRED");
            reveal_strlit("RIFT_SESSION_CONFLICT");
            reveal_strlit("RIFT_RESUME_REJECTED");
            reveal_strlit("RIFT_REPLAY_OFFSET_EXPIRED");
            reveal_strlit("RIFT_SNAPSHOT_REQUIRED");
            reveal_strlit("RIFT_TOPIC_NOT_FOUND");
            reveal_strlit("RIFT_TOPIC_CLOSED");
            reveal_strlit("RIFT_TOPIC_OVERLOADED");
            reveal_strlit("RIFT_TOPIC_SUBSCRIBER_LIMIT");
            reveal_strlit("RIFT_TOPIC_PUBLISHER_LIMIT");
            reveal_strlit("RIFT_TOPIC_RATE_LIMITED");
            reveal_strlit("RIFT_MESSAGE_DUPLICATE");
            reveal_strlit("RIFT_MESSAGE_EXPIRED");
            reveal_strlit("RIFT_MESSAGE_REJECTED");
            reveal_strlit("RIFT_MESSAGE_TOO_LARGE");
            reveal_strlit("RIFT_MESSAGE_ACK_TIMEOUT");
            reveal_strlit("RIFT_MESSAGE_DELIVERY_FAILED");
            reveal_strlit("RIFT_SYSTEM_OVERLOADED");
            reveal_strlit("RIFT_SYSTEM_MAINTENANCE");
            reveal_strlit("RIFT_SYSTEM_SHARD_MOVED");
            reveal_strlit("RIFT_SYSTEM_REGION_UNAVAILABLE");
            reveal_strlit("RIFT_SYSTEM_INTERNAL");
        }
        match self {
            ErrorCode::ProtocolVersionUnsupported => "RIFT_PROTOCOL_VERSION_UNSUPPORTED",
            ErrorCode::ProtocolFrameInvalid => "RIFT_PROTOCOL_FRAME_INVALID",
            ErrorCode::ProtocolCodecUnsupported => "RIFT_PROTOCOL_CODEC_UNSUPPORTED",
            ErrorCode::ProtocolPayloadTooLarge => "RIFT_PROTOCOL_PAYLOAD_TOO_LARGE",
            ErrorCode::ProtocolRequiredFieldMissing => "RIFT_PROTOCOL_REQUIRED_FIELD_MISSING",
            ErrorCode::ProtocolSchemaMismatch => "RIFT_PROTOCOL_SCHEMA_MISMATCH",
            ErrorCode::ProtocolOrderViolation => "RIFT_PROTOCOL_ORDER_VIOLATION",
            ErrorCode::AuthRequired => "RIFT_AUTH_REQUIRED",
            ErrorCode::AuthInvalid => "RIFT_AUTH_INVALID",
            ErrorCode::AuthExpired => "RIFT_AUTH_EXPIRED",
            ErrorCode::AuthRevoked => "RIFT_AUTH_REVOKED",
            ErrorCode::PermissionDenied => "RIFT_PERMISSION_DENIED",
            ErrorCode::TopicForbidden => "RIFT_TOPIC_FORBIDDEN",
            ErrorCode::SessionNotFound => "RIFT_SESSION_NOT_FOUND",
            ErrorCode::SessionExpired => "RIFT_SESSION_EXPIRED",
            ErrorCode::SessionConflict => "RIFT_SESSION_CONFLICT",
            ErrorCode::ResumeRejected => "RIFT_RESUME_REJECTED",
            ErrorCode::ReplayOffsetExpired => "RIFT_REPLAY_OFFSET_EXPIRED",
            ErrorCode::SnapshotRequired => "RIFT_SNAPSHOT_REQUIRED",
            ErrorCode::TopicNotFound => "RIFT_TOPIC_NOT_FOUND",
            ErrorCode::TopicClosed => "RIFT_TOPIC_CLOSED",
            ErrorCode::TopicOverloaded => "RIFT_TOPIC_OVERLOADED",
            ErrorCode::TopicSubscriberLimit => "RIFT_TOPIC_SUBSCRIBER_LIMIT",
            ErrorCode::TopicPublisherLimit => "RIFT_TOPIC_PUBLISHER_LIMIT",
            ErrorCode::TopicRateLimited => "RIFT_TOPIC_RATE_LIMITED",
            ErrorCode::MessageDuplicate => "RIFT_MESSAGE_DUPLICATE",
            ErrorCode::MessageExpired => "RIFT_MESSAGE_EXPIRED",
            ErrorCode::MessageRejected => "RIFT_MESSAGE_REJECTED",
            ErrorCode::MessageTooLarge => "RIFT_MESSAGE_TOO_LARGE",
            ErrorCode::MessageAckTimeout => "RIFT_MESSAGE_ACK_TIMEOUT",
            ErrorCode::MessageDeliveryFailed => "RIFT_MESSAGE_DELIVERY_FAILED",
            ErrorCode::SystemOverloaded => "RIFT_SYSTEM_OVERLOADED",
            ErrorCode::SystemMaintenance => "RIFT_SYSTEM_MAINTENANCE",
            ErrorCode::SystemShardMoved => "RIFT_SYSTEM_SHARD_MOVED",
            ErrorCode::SystemRegionUnavailable => "RIFT_SYSTEM_REGION_UNAVAILABLE",
            ErrorCode::SystemInternal => "RIFT_SYSTEM_INTERNAL",
        }
    }

    /// Whether the error is generally safe to retry: system overload,
    /// shard moves, unavailable regions, topic overload and rate limits,
    /// expired replay offsets, failed deliveries and ack timeouts.
    pub fn is_retryable(self) -> (r: bool)
        ensures
            r == error_code_retryable(self),
    {
        match self {
            ErrorCode::SystemOverloaded
            | ErrorCode::SystemShardMoved
            | ErrorCode::SystemRegionUnavailable
            | ErrorCode::TopicOverloaded
            | ErrorCode::TopicRateLimited
            | ErrorCode::ReplayOffsetExpired
            | ErrorCode::MessageDeliveryFailed
            | ErrorCode::MessageAckTimeout => true,
            _ => false,
        }
    }
}

/// The `RIFT_` prefix shared by every wire identifier.
pub open spec fn rift_prefix() -> Seq<char> {
    seq!['R', 'I', 'F', 'T', '_']
}

/// Every error code's wire identifier is non-empty and starts with
/// `RIFT_`.
pub proof fn lemma_error_code_str_prefix(c: ErrorCode)
    ensures
        error_code_str(c).len() > 5,
        error_code_str(c).subrange(0, 5) == rift_prefix(),
{

    match c {
        ErrorCode::ProtocolVersionUnsupported => {
            reveal_strlit("RIFT_PROTOCOL_VERSION_UNSUPPORTED");
            assert(error_code_str(c).subrange(0, 5) =~= rift_prefix());
        },
        ErrorCode::ProtocolFrameInvalid => {
            reveal_strlit("RIFT_PROTOCOL_FRAME_INVALID");
            assert(error_code_str(c).subrange(0, 5) =~= rift_prefix());
        },
        ErrorCode::ProtocolCodecUnsupported => {
            reveal_strlit("RIFT_PROTOCOL_CODEC_UNSUPPORTED");
            assert(error_code_str(c).subrange(0, 5) =~= rift_prefix());
        },
        ErrorCode::ProtocolPayloadTooLarge => {
            reveal_strlit("RIFT_PROTOCOL_PAYLOAD_TOO_LARGE");
            assert(error_code_str(c).subrange(0, 5) =~= rift_prefix());
        },
        ErrorCode::ProtocolRequiredFieldMissing => {
            reveal_strlit("RIFT_PROTOCOL_REQUIRED_FIELD_MISSING");
            assert(error_code_str(c).subrange(0, 5) =~= rift_prefix());
        },
        ErrorCode::ProtocolSchemaMismatch => {
            reveal_strlit("RIFT_PROTOCOL_SCHEMA_MISMATCH");
            assert(error_code_str(c).subrange(0, 5) =~= rift_prefix());
        },
        ErrorCode::ProtocolOrderViolation => {
            reveal_strlit("RIFT_PROTOCOL_ORDER_VIOLATION");
            assert(error_code_str(c).subrange(0, 5) =~= rift_prefix());
        },
        ErrorCode::AuthRequired => {
            reveal_strlit("RIFT_AUTH_REQUIRED");
            assert(error_code_str(c).subrange(0, 5) =~= rift_prefix());
        },
        ErrorCode::AuthInvalid => {
            reveal_strlit("RIFT_AUTH_INVALID");
            assert(error_code_str(c).subrange(0, 5) =~= rift_prefix());
        },
        ErrorCode::AuthExpired => {
            reveal_strlit("RIFT_AUTH_EXPIRED");
            assert(error_code_str(c).subrange(0, 5) =~= rift_prefix());
        },
        ErrorCode::AuthRevoked => {
            reveal_strlit("RIFT_AUTH_REVOKED");
            assert(error_code_str(c).subrange(0, 5) =~= rift_prefix());
        },
        ErrorCode::PermissionDenied => {
            reveal_strlit("RIFT_PERMISSION_DENIED");
            assert(error_code_str(c).subrange(0, 5) =~= rift_prefix());
        },
        ErrorCode::TopicForbidden => {
            reveal_strlit("RIFT_TOPIC_FORBIDDEN");
            assert(error_code_str(c).subrange(0, 5) =~= rift_prefix());
        },
        ErrorCode::SessionNotFound => {
            reveal_strlit("RIFT_SESSION_NOT_FOUND");
            assert(error_code_str(c).subrange(0, 5) =~= rift_prefix());
        },
        ErrorCode::SessionExpired => {
            reveal_strlit("RIFT_SESSION_EXPIRED");
            assert(error_code_str(c).subrange(0, 5) =~= rift_prefix());
        },
        ErrorCode::SessionConflict => {
            reveal_strlit("RIFT_SESSION_CONFLICT");
            assert(error_code_str(c).subrange(0, 5) =~= rift_prefix());
        },
        ErrorCode::ResumeRejected => {
            reveal_strlit("RIFT_RESUME_REJECTED");
            assert(error_code_str(c).subrange(0, 5) =~= rift_prefix());
        },
        ErrorCode::ReplayOffsetExpired => {
            reveal_strlit("RIFT_REPLAY_OFFSET_EXPIRED");
            assert(error_code_str(c).subrange(0, 5) =~= rift_prefix());
        },
        ErrorCode::SnapshotRequired => {
            reveal_strlit("RIFT_SNAPSHOT_REQUIRED");
            assert(error_code_str(c).subrange(0, 5) =~= rift_prefix());
        },
        ErrorCode::TopicNotFound => {
            reveal_strlit("RIFT_TOPIC_NOT_FOUND");
            assert(error_code_str(c).subrange(0, 5) =~= rift_prefix());
        },
        ErrorCode::TopicClosed => {
            reveal_strlit("RIFT_TOPIC_CLOSED");
            assert(error_code_str(c).subrange(0, 5) =~= rift_prefix());
        },
        ErrorCode::TopicOverloaded => {
            reveal_strlit("RIFT_TOPIC_OVERLOADED");
            assert(error_code_str(c).subrange(0, 5) =~= rift_prefix());
        },
        ErrorCode::TopicSubscriberLimit => {
            reveal_strlit("RIFT_TOPIC_SUBSCRIBER_LIMIT");
            assert(error_code_str(c).subrange(0, 5) =~= rift_prefix());
        },
        ErrorCode::TopicPublisherLimit => {
            reveal_strlit("RIFT_TOPIC_PUBLISHER_LIMIT");
            assert(error_code_str(c).subrange(0, 5) =~= rift_prefix());
        },
        ErrorCode::TopicRateLimited => {
            reveal_strlit("RIFT_TOPIC_RATE_LIMITED");
            assert(error_code_str(c).subrange(0, 5) =~= rift_prefix());
        },
        ErrorCode::MessageDuplicate => {
            reveal_strlit("RIFT_MESSAGE_DUPLICATE");
            assert(error_code_str(c).subrange(0, 5) =~= rift_prefix());
        },
        ErrorCode::MessageExpired => {
            reveal_strlit("RIFT_MESSAGE_EXPIRED");
            assert(error_code_str(c).subrange(0, 5) =~= rift_prefix());
        },
        ErrorCode::MessageRejected => {
            reveal_strlit("RIFT_MESSAGE_REJECTED");
            assert(error_code_str(c).subrange(0, 5) =~= rift_prefix());
        },
        ErrorCode::MessageTooLarge => {
            reveal_strlit("RIFT_MESSAGE_TOO_LARGE");
            assert(error_code_str(c).subrange(0, 5) =~= rift_prefix());
        },
        ErrorCode::MessageAckTimeout => {
            reveal_strlit("RIFT_MESSAGE_ACK_TIMEOUT");
            assert(error_code_str(c).subrange(0, 5) =~= rift_prefix());
        },
        ErrorCode::MessageDeliveryFailed => {
            reveal_strlit("RIFT_MESSAGE_DELIVERY_FAILED");
            assert(error_code_str(c).subrange(0, 5) =~= rift_prefix());
        },
        ErrorCode::SystemOverloaded => {
            reveal_strlit("RIFT_SYSTEM_OVERLOADED");
            assert(error_code_str(c).subrange(0, 5) =~= rift_prefix());
        },
        ErrorCode::SystemMaintenance => {
            reveal_strlit("RIFT_SYSTEM_MAINTENANCE");
            assert(error_code_str(c).subrange(0, 5) =~= rift_prefix());
        },
        ErrorCode::SystemShardMoved => {
            reveal_strlit("RIFT_SYSTEM_SHARD_MOVED");
            assert(error_code_str(c).subrange(0, 5) =~= rift_prefix());
        },
        ErrorCode::SystemRegionUnavailable => {
            reveal_strlit("RIFT_SYSTEM_REGION_UNAVAILABLE");
            assert(error_code_str(c).subrange(0, 5) =~= rift_prefix());
        },
        ErrorCode::SystemInternal => {
            reveal_strlit("RIFT_SYSTEM_INTERNAL");
            assert(error_code_str(c).subrange(0, 5) =~= rift_prefix());
        },
    }
}

/// No two error codes share a wire identifier.
#[verifier::rlimit(100)]
pub proof fn lemma_error_code_str_distinct(c: ErrorCode, d: ErrorCode)
    ensures
        c != d ==> error_code_str(c) != error_code_str(d),
{
    reveal_strlit("RIFT_PROTOCOL_VERSION_UNSUPPORTED");
    assert("RIFT_PROTOCOL_VERSION_UNSUPPORTED"@ =~= seq!['R', 'I', 'F', 'T', '_', 'P', 'R', 'O', 'T', 'O', 'C', 'O', 'L', '_', 'V', 'E', 'R', 'S', 'I', 'O', 'N', '_', 'U', 'N', 'S', 'U', 'P', 'P', 'O', 'R', 'T', 'E', 'D']);
    reveal_strlit("RIFT_PROTOCOL_FRAME_INVALID");
    assert("RIFT_PROTOCOL_FRAME_INVALID"@ =~= seq!['R', 'I', 'F', 'T', '_', 'P', 'R', 'O', 'T', 'O', 'C', 'O', 'L', '_', 'F', 'R', 'A', 'M', 'E', '_', 'I', 'N', 'V', 'A', 'L', 'I', 'D']);
    reveal_strlit("RIFT_PROTOCOL_CODEC_UNSUPPORTED");
    assert("RIFT_PROTOCOL_CODEC_UNSUPPORTED"@ =~= seq!['R', 'I', 'F', 'T', '_', 'P', 'R', 'O', 'T', 'O', 'C', 'O', 'L', '_', 'C', 'O', 'D', 'E', 'C', '_', 'U', 'N', 'S', 'U', 'P', 'P', 'O', 'R', 'T', 'E', 'D']);
    reveal_strlit("RIFT_PROTOCOL_PAYLOAD_TOO_LARGE");
    assert("RIFT_PROTOCOL_PAYLOAD_TOO_LARGE"@ =~= seq!['R', 'I', 'F', 'T', '_', 'P', 'R', 'O', 'T', 'O', 'C', 'O', 'L', '_', 'P', 'A', 'Y', 'L', 'O', 'A', 'D', '_', 'T', 'O', 'O', '_', 'L', 'A', 'R', 'G', 'E']);
    reveal_strlit("RIFT_PROTOCOL_REQUIRED_FIELD_MISSING");
    assert("RIFT_PROTOCOL_REQUIRED_FIELD_MISSING"@ =~= seq!['R', 'I', 'F', 'T', '_', 'P', 'R', 'O', 'T', 'O', 'C', 'O', 'L', '_', 'R', 'E', 'Q', 'U', 'I', 'R', 'E', 'D', '_', 'F', 'I', 'E', 'L', 'D', '_', 'M', 'I', 'S', 'S', 'I', 'N', 'G']);
    reveal_strlit("RIFT_PROTOCOL_SCHEMA_MISMATCH");
    assert("RIFT_PROTOCOL_SCHEMA_MISMATCH"@ =~= seq!['R', 'I', 'F', 'T', '_', 'P', 'R', 'O', 'T', 'O', 'C', 'O', 'L', '_', 'S', 'C', 'H', 'E', 'M', 'A', '_', 'M', 'I', 'S', 'M', 'A', 'T', 'C', 'H']);
    reveal_strlit("RIFT_PROTOCOL_ORDER_VIOLATION");
    assert("RIFT_PROTOCOL_ORDER_VIOLATION"@ =~= seq!['R', 'I', 'F', 'T', '_', 'P', 'R', 'O', 'T', 'O', 'C', 'O', 'L', '_', 'O', 'R', 'D', 'E', 'R', '_', 'V', 'I', 'O', 'L', 'A', 'T', 'I', 'O', 'N']);
    reveal_strlit("RIFT_AUTH_REQUIRED");
    assert("RIFT_AUTH_REQUIRED"@ =~= seq!['R', 'I', 'F', 'T', '_', 'A', 'U', 'T', 'H', '_', 'R', 'E', 'Q', 'U', 'I', 'R', 'E', 'D']);
    reveal_strlit("RIFT_AUTH_INVALID");
    assert("RIFT_AUTH_INVALID"@ =~= seq!['R', 'I', 'F', 'T', '_', 'A', 'U', 'T', 'H', '_', 'I', 'N', 'V', 'A', 'L', 'I', 'D']);
    reveal_strlit("RIFT_AUTH_EXPIRED");
    assert("RIFT_AUTH_EXPIRED"@ =~= seq!['R', 'I', 'F', 'T', '_', 'A', 'U', 'T', 'H', '_', 'E', 'X', 'P', 'I', 'R', 'E', 'D']);
    reveal_strlit("RIFT_AUTH_REVOKED");
    assert("RIFT_AUTH_REVOKED"@ =~= seq!['R', 'I', 'F', 'T', '_', 'A', 'U', 'T', 'H', '_', 'R', 'E', 'V', 'O', 'K', 'E', 'D']);
    reveal_strlit("RIFT_PERMISSION_DENIED");
    assert("RIFT_PERMISSION_DENIED"@ =~= seq!['R', 'I', 'F', 'T', '_', 'P', 'E', 'R', 'M', 'I', 'S', 'S', 'I', 'O', 'N', '_', 'D', 'E', 'N', 'I', 'E', 'D']);
    reveal_strlit("RIFT_TOPIC_FORBIDDEN");
    assert("RIFT_TOPIC_FORBIDDEN"@ =~= seq!['R', 'I', 'F', 'T', '_', 'T', 'O', 'P', 'I', 'C', '_', 'F', 'O', 'R', 'B', 'I', 'D', 'D', 'E', 'N']);
    reveal_strlit("RIFT_SESSION_NOT_FOUND");
    assert("RIFT_SESSION_NOT_FOUND"@ =~= seq!['R', 'I', 'F', 'T', '_', 'S', 'E', 'S', 'S', 'I', 'O', 'N', '_', 'N', 'O', 'T', '_', 'F', 'O', 'U', 'N', 'D']);
    reveal_strlit("RIFT_SESSION_EXPIRED");
    assert("RIFT_SESSION_EXPIRED"@ =~= seq!['R', 'I', 'F', 'T', '_', 'S', 'E', 'S', 'S', 'I', 'O', 'N', '_', 'E', 'X', 'P', 'I', 'R', 'E', 'D']);
    reveal_strlit("RIFT_SESSION_CONFLICT");
    assert("RIFT_SESSION_CONFLICT"@ =~= seq!['R', 'I', 'F', 'T', '_', 'S', 'E', 'S', 'S', 'I', 'O', 'N', '_', 'C', 'O', 'N', 'F', 'L', 'I', 'C', 'T']);
    reveal_strlit("RIFT_RESUME_REJECTED");
    assert("RIFT_RESUME_REJECTED"@ =~= seq!['R', 'I', 'F', 'T', '_', 'R', 'E', 'S', 'U', 'M', 'E', '_', 'R', 'E', 'J', 'E', 'C', 'T', 'E', 'D']);
    reveal_strlit("RIFT_REPLAY_OFFSET_EXPIRED");
    assert("RIFT_REPLAY_OFFSET_EXPIRED"@ =~= seq!['R', 'I', 'F', 'T', '_', 'R', 'E', 'P', 'L', 'A', 'Y', '_', 'O', 'F', 'F', 'S', 'E', 'T', '_', 'E', 'X', 'P', 'I', 'R', 'E', 'D']);
    reveal_strlit("RIFT_SNAPSHOT_REQUIRED");
    assert("RIFT_SNAPSHOT_REQUIRED"@ =~= seq!['R', 'I', 'F', 'T', '_', 'S', 'N', 'A', 'P', 'S', 'H', 'O', 'T', '_', 'R', 'E', 'Q', 'U', 'I', 'R', 'E', 'D']);
    reveal_strlit("RIFT_TOPIC_NOT_FOUND");
    assert("RIFT_TOPIC_NOT_FOUND"@ =~= seq!['R', 'I', 'F', 'T', '_', 'T', 'O', 'P', 'I', 'C', '_', 'N', 'O', 'T', '_', 'F', 'O', 'U', 'N', 'D']);
    reveal_strlit("RIFT_TOPIC_CLOSED");
    assert("RIFT_TOPIC_CLOSED"@ =~= seq!['R', 'I', 'F', 'T', '_', 'T', 'O', 'P', 'I', 'C', '_', 'C', 'L', 'O', 'S', 'E', 'D']);
    reveal_strlit("RIFT_TOPIC_OVERLOADED");
    assert("RIFT_TOPIC_OVERLOADED"@ =~= seq!['R', 'I', 'F', 'T', '_', 'T', 'O', 'P', 'I', 'C', '_', 'O', 'V', 'E', 'R', 'L', 'O', 'A', 'D', 'E', 'D']);
    reveal_strlit("RIFT_TOPIC_SUBSCRIBER_LIMIT");
    assert("RIFT_TOPIC_SUBSCRIBER_LIMIT"@ =~= seq!['R', 'I', 'F', 'T', '_', 'T', 'O', 'P', 'I', 'C', '_', 'S', 'U', 'B', 'S', 'C', 'R', 'I', 'B', 'E', 'R', '_', 'L', 'I', 'M', 'I', 'T']);
    reveal_strlit("RIFT_TOPIC_PUBLISHER_LIMIT");
    assert("RIFT_TOPIC_PUBLISHER_LIMIT"@ =~= seq!['R', 'I', 'F', 'T', '_', 'T', 'O', 'P', 'I', 'C', '_', 'P', 'U', 'B', 'L', 'I', 'S', 'H', 'E', 'R', '_', 'L', 'I', 'M', 'I', 'T']);
    reveal_strlit("RIFT_TOPIC_RATE_LIMITED");
    assert("RIFT_TOPIC_RATE_LIMITED"@ =~= seq!['R', 'I', 'F', 'T', '_', 'T', 'O', 'P', 'I', 'C', '_', 'R', 'A', 'T', 'E', '_', 'L', 'I', 'M', 'I', 'T', 'E', 'D']);
    reveal_strlit("RIFT_MESSAGE_DUPLICATE");
    assert("RIFT_MESSAGE_DUPLICATE"@ =~= seq!['R', 'I', 'F', 'T', '_', 'M', 'E', 'S', 'S', 'A', 'G', 'E', '_', 'D', 'U', 'P', 'L', 'I', 'C', 'A', 'T', 'E']);
    reveal_strlit("RIFT_MESSAGE_EXPIRED");
    assert("RIFT_MESSAGE_EXPIRED"@ =~= seq!['R', 'I', 'F', 'T', '_', 'M', 'E', 'S', 'S', 'A', 'G', 'E', '_', 'E', 'X', 'P', 'I', 'R', 'E', 'D']);
    reveal_strlit("RIFT_MESSAGE_REJECTED");
    assert("RIFT_MESSAGE_REJECTED"@ =~= seq!['R', 'I', 'F', 'T', '_', 'M', 'E', 'S', 'S', 'A', 'G', 'E', '_', 'R', 'E', 'J', 'E', 'C', 'T', 'E', 'D']);
    reveal_strlit("RIFT_MESSAGE_TOO_LARGE");
    assert("RIFT_MESSAGE_TOO_LARGE"@ =~= seq!['R', 'I', 'F', 'T', '_', 'M', 'E', 'S', 'S', 'A', 'G', 'E', '_', 'T', 'O', 'O', '_', 'L', 'A', 'R', 'G', 'E']);
    reveal_strlit("RIFT_MESSAGE_ACK_TIMEOUT");
    assert("RIFT_MESSAGE_ACK_TIMEOUT"@ =~= seq!['R', 'I', 'F', 'T', '_', 'M', 'E', 'S', 'S', 'A', 'G', 'E', '_', 'A', 'C', 'K', '_', 'T', 'I', 'M', 'E', 'O', 'U', 'T']);
    reveal_strlit("RIFT_MESSAGE_DELIVERY_FAILED");
    assert("RIFT_MESSAGE_DELIVERY_FAILED"@ =~= seq!['R', 'I', 'F', 'T', '_', 'M', 'E', 'S', 'S', 'A', 'G', 'E', '_', 'D', 'E', 'L', 'I', 'V', 'E', 'R', 'Y', '_', 'F', 'A', 'I', 'L', 'E', 'D']);
    reveal_strlit("RIFT_SYSTEM_OVERLOADED");
    assert("RIFT_SYSTEM_OVERLOADED"@ =~= seq!['R', 'I', 'F', 'T', '_', 'S', 'Y', 'S', 'T', 'E', 'M', '_', 'O', 'V', 'E', 'R', 'L', 'O', 'A', 'D', 'E', 'D']);
    reveal_strlit("RIFT_SYSTEM_MAINTENANCE");
    assert("RIFT_SYSTEM_MAINTENANCE"@ =~= seq!['R', 'I', 'F', 'T', '_', 'S', 'Y', 'S', 'T', 'E', 'M', '_', 'M', 'A', 'I', 'N', 'T', 'E', 'N', 'A', 'N', 'C', 'E']);
    reveal_strlit("RIFT_SYSTEM_SHARD_MOVED");
    assert("RIFT_SYSTEM_SHARD_MOVED"@ =~= seq!['R', 'I', 'F', 'T', '_', 'S', 'Y', 'S', 'T', 'E', 'M', '_', 'S', 'H', 'A', 'R', 'D', '_', 'M', 'O', 'V', 'E', 'D']);
    reveal_strlit("RIFT_SYSTEM_REGION_UNAVAILABLE");
    assert("RIFT_SYSTEM_REGION_UNAVAILABLE"@ =~= seq!['R', 'I', 'F', 'T', '_', 'S', 'Y', 'S', 'T', 'E', 'M', '_', 'R', 'E', 'G', 'I', 'O', 'N', '_', 'U', 'N', 'A', 'V', 'A', 'I', 'L', 'A', 'B', 'L', 'E']);
    reveal_strlit("RIFT_SYSTEM_INTERNAL");
    assert("RIFT_SYSTEM_INTERNAL"@ =~= seq!['R', 'I', 'F', 'T', '_', 'S', 'Y', 'S', 'T', 'E', 'M', '_', 'I', 'N', 'T', 'E', 'R', 'N', 'A', 'L']);
}

} // verus!
