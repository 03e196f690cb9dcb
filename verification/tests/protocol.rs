use std::time::Duration;

use rifts::frame::Codec;
use rifts::protocol::close::CloseCode;
use rifts::protocol::error_code::ErrorCode;
use rifts::protocol::heartbeat::HeartbeatPolicy;
use rifts::protocol::hello::{AuthMode, Hello};
use rifts::protocol::version::{encoded_version, negotiate_major};

#[test]
fn close_round_trip() {
    for c in [
        CloseCode::Normal,
        CloseCode::Draining,
        CloseCode::ProtocolError,
        CloseCode::UnsupportedCodec,
        CloseCode::AuthFailed,
        CloseCode::AuthExpired,
        CloseCode::PermissionRevoked,
        CloseCode::SessionConflict,
        CloseCode::RateLimited,
        CloseCode::PayloadTooLarge,
        CloseCode::SlowConsumer,
        CloseCode::ServerOverloaded,
        CloseCode::ShardMoved,
        CloseCode::IdleTimeout,
        CloseCode::ClientUpgradeRequired,
        CloseCode::PolicyViolation,
    ] {
        assert_eq!(CloseCode::from_u16(c.as_u16()), Some(c));
    }
}

#[test]
fn unknown() {
    assert_eq!(CloseCode::from_u16(0), None);
    assert_eq!(CloseCode::from_u16(9999), None);
}

#[test]
fn close_code_values_and_names() {
    assert_eq!(CloseCode::Normal.as_u16(), 1000);
    assert_eq!(CloseCode::PolicyViolation.as_u16(), 1015);
    assert_eq!(CloseCode::from_u16(1011), Some(CloseCode::ServerOverloaded));
    assert_eq!(CloseCode::from_u16(999), None);
    assert_eq!(CloseCode::from_u16(1016), None);
    assert_eq!(CloseCode::SlowConsumer.name(), "slow_consumer");
    assert_eq!(CloseCode::ClientUpgradeRequired.name(), "client_upgrade_required");
}

#[test]
fn str_round_trip() {
    for c in [
        ErrorCode::ProtocolVersionUnsupported,
        ErrorCode::AuthInvalid,
        ErrorCode::SessionConflict,
        ErrorCode::TopicNotFound,
        ErrorCode::MessageDuplicate,
        ErrorCode::SystemInternal,
    ] {
        assert!(!c.as_str().is_empty());
        assert!(c.as_str().starts_with("RIFT_"));
    }
}

#[test]
fn retryable() {
    assert!(ErrorCode::SystemOverloaded.is_retryable());
    assert!(!ErrorCode::AuthInvalid.is_retryable());
    assert!(!ErrorCode::ProtocolFrameInvalid.is_retryable());
}

#[test]
fn error_code_strings() {
    assert_eq!(ErrorCode::AuthInvalid.as_str(), "RIFT_AUTH_INVALID");
    assert_eq!(ErrorCode::ReplayOffsetExpired.as_str(), "RIFT_REPLAY_OFFSET_EXPIRED");
    assert!(ErrorCode::MessageAckTimeout.is_retryable());
    assert!(ErrorCode::ReplayOffsetExpired.is_retryable());
    assert!(!ErrorCode::SessionExpired.is_retryable());
}

#[test]
fn defaults() {
    let h = HeartbeatPolicy::default();
    assert_eq!(h.ping_interval, Duration::from_millis(25_000));
    assert_eq!(h.pong_timeout, Duration::from_millis(10_000));
}

#[test]
fn hello_minimal() {
    let h = Hello::new(vec![Codec::Json, Codec::Cbor]);
    assert_eq!(h.protocol, "rift");
    assert!(!h.codecs.is_empty());
}

#[test]
fn hello_defaults_and_auth_names() {
    let h = Hello::new(vec![Codec::Cbor]);
    assert_eq!(h.version, 0x0100);
    assert_eq!(h.codecs, vec![Codec::Cbor]);
    assert!(h.client_id.is_none());
    assert!(h.last_offsets.is_empty());
    assert_eq!(AuthMode::SignedChallenge.name(), "signed_challenge");
    assert_eq!(AuthMode::Mtls.name(), "mtls");
}

#[test]
fn encoded_is_major_minor() {
    assert_eq!(encoded_version(), 0x0100);
}

#[test]
fn negotiate_accepts_self() {
    assert_eq!(negotiate_major(1), Some(1));
}

#[test]
fn negotiate_rejects_other() {
    assert_eq!(negotiate_major(0), None);
    assert_eq!(negotiate_major(2), None);
    assert_eq!(negotiate_major(99), None);
}

#[test]
fn error_code_identifiers_are_distinct() {
    let all = [
        ErrorCode::ProtocolVersionUnsupported,
        ErrorCode::ProtocolFrameInvalid,
        ErrorCode::ProtocolCodecUnsupported,
        ErrorCode::ProtocolPayloadTooLarge,
        ErrorCode::ProtocolRequiredFieldMissing,
        ErrorCode::ProtocolSchemaMismatch,
        ErrorCode::ProtocolOrderViolation,
        ErrorCode::AuthRequired,
        ErrorCode::AuthInvalid,
        ErrorCode::AuthExpired,
        ErrorCode::AuthRevoked,
        ErrorCode::PermissionDenied,
        ErrorCode::TopicForbidden,
        ErrorCode::SessionNotFound,
        ErrorCode::SessionExpired,
        ErrorCode::SessionConflict,
        ErrorCode::ResumeRejected,
        ErrorCode::ReplayOffsetExpired,
        ErrorCode::SnapshotRequired,
        ErrorCode::TopicNotFound,
        ErrorCode::TopicClosed,
        ErrorCode::TopicOverloaded,
        ErrorCode::TopicSubscriberLimit,
        ErrorCode::TopicPublisherLimit,
        ErrorCode::TopicRateLimited,
        ErrorCode::MessageDuplicate,
        ErrorCode::MessageExpired,
        ErrorCode::MessageRejected,
        ErrorCode::MessageTooLarge,
        ErrorCode::MessageAckTimeout,
        ErrorCode::MessageDeliveryFailed,
        ErrorCode::SystemOverloaded,
        ErrorCode::SystemMaintenance,
        ErrorCode::SystemShardMoved,
        ErrorCode::SystemRegionUnavailable,
        ErrorCode::SystemInternal,
    ];
    let mut seen = std::collections::HashSet::new();
    for c in all {
        assert!(c.as_str().starts_with("RIFT_"));
        assert!(seen.insert(c.as_str()));
    }
    assert_eq!(seen.len(), all.len());
}

#[test]
fn close_code_names_are_distinct_snake_case() {
    let mut seen = std::collections::HashSet::new();
    for v in 1000u16..=1015 {
        let name = CloseCode::from_u16(v).unwrap().name();
        assert!(!name.is_empty());
        assert!(name.chars().all(|ch| ch.is_ascii_lowercase() || ch == '_'));
        assert!(seen.insert(name));
    }
    assert_eq!(seen.len(), 16);
    assert_eq!(CloseCode::SlowConsumer.name(), "slow_consumer");
}
