//! Server configuration. Defaults follow the recommended values for an
//! ordinary web application.

use std::time::Duration;
use vstd::prelude::*;
use crate::protocol::heartbeat::HeartbeatPolicy;
use crate::time::duration_millis;
use crate::topic::ordering::OrderingPolicy;
use crate::topic::retention::RetentionPolicy;

verus! {

/// Server-side configuration.
#[derive(Debug, Clone)]
pub struct ServerConfig {
    /// Maximum payload size in bytes.
    pub max_payload_bytes: usize,
    /// Maximum number of topic subscriptions per connection.
    pub max_topics_per_connection: usize,
    /// Maximum per-connection outbound send queue size in bytes.
    pub max_send_queue_bytes: usize,
    /// Heartbeat policy.
    pub heartbeat: HeartbeatPolicy,
    /// A connection with no traffic within this window is closed.
    pub idle_timeout: Duration,
    /// Base reconnect interval for client guidance.
    pub reconnect_base_ms: u32,
    /// Maximum reconnect interval for client guidance.
    pub reconnect_max_ms: u32,
    /// How long offsets are kept for replay.
    pub replay_window: Duration,
    /// How long a dedupe key is remembered.
    pub dedupe_window: Duration,
    /// Failed authentication attempts before the connection is closed.
    pub max_auth_failures: u32,
    /// Codecs offered during negotiation; empty offers every codec.
    pub codec_offer: Vec<CodecOffer>,
    /// Profile applied when a topic is created on first subscribe.
    pub default_topic_profile: DefaultTopicProfile,
}

/// Codecs offered to the client during hello negotiation.
#[derive(Debug, Clone, Copy, PartialEq, Eq, Structural)]
pub enum CodecOffer {
    /// JSON.
    Json,
    /// CBOR.
    Cbor,
}

/// Profile applied to a topic created on demand.
#[derive(Debug, Clone)]
pub struct DefaultTopicProfile {
    /// Retention policy.
    pub retention: RetentionPolicy,
    /// Ordering policy.
    pub ordering: OrderingPolicy,
    /// Maximum number of subscribers.
    pub max_subscribers: usize,
    /// Maximum number of publishers.
    pub max_publishers: usize,
    /// Whether replay is supported.
    pub replay_enabled: bool,
    /// Whether snapshots are supported.
    pub snapshot_enabled: bool,
}

impl Default for DefaultTopicProfile {
    /// Latest-value retention, topic ordering, 10 000 subscribers and
    /// publishers, replay and snapshots enabled.
    fn default() -> (r: DefaultTopicProfile)
        ensures
            r.retention is Latest,
            r.ordering == OrderingPolicy::Topic,
            r.max_subscribers == 10_000,
            r.max_publishers == 10_000,
            r.replay_enabled,
            r.snapshot_enabled,
    {
        DefaultTopicProfile {
            retention: RetentionPolicy::Latest,
            ordering: OrderingPolicy::Topic,
            max_subscribers: 10_000,
            max_publishers: 10_000,
            replay_enabled: true,
            snapshot_enabled: true,
        }
    }
}

impl Default for ServerConfig {
    /// 64 KiB payloads, 128 topics per connection, a 1 MiB send queue,
    /// the default heartbeat, 300 s idle timeout, reconnect guidance from
    /// 500 ms to 15 s, 300 s replay window, 60 s dedupe window, three
    /// authentication failures, every codec offered, the default topic
    /// profile.
    fn default() -> (r: ServerConfig)
        ensures
            r.max_payload_bytes == 65_536,
            r.max_topics_per_connection == 128,
            r.max_send_queue_bytes == 1_048_576,
            duration_millis(r.heartbeat.ping_interval) == 25_000,
            duration_millis(r.heartbeat.pong_timeout) == 10_000,
            r.heartbeat.max_missed_pongs == 2,
            duration_millis(r.idle_timeout) == 300_000,
            r.reconnect_base_ms == 500,
            r.reconnect_max_ms == 15_000,
            duration_millis(r.replay_window) == 300_000,
            duration_millis(r.dedupe_window) == 60_000,
            r.max_auth_failures == 3,
            r.codec_offer@ == Seq::<CodecOffer>::empty(),
            r.default_topic_profile.max_subscribers == 10_000,
            r.default_topic_profile.replay_enabled,
    {
        ServerConfig {
            max_payload_bytes: 65_536,
            max_topics_per_connection: 128,
            max_send_queue_bytes: 1_048_576,
            heartbeat: HeartbeatPolicy::default(),
            idle_timeout: Duration::from_secs(300),
            reconnect_base_ms: 500,
            reconnect_max_ms: 15_000,
            replay_window: Duration::from_secs(300),
            dedupe_window: Duration::from_secs(60),
            max_auth_failures: 3,
            codec_offer: Vec::new(),
            default_topic_profile: DefaultTopicProfile::default(),
        }
    }
}

} // verus!
