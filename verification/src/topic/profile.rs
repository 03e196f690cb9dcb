//! Topic profile: the policy of a single topic.

use std::time::Duration;
use vstd::prelude::*;
use crate::time::duration_millis;
use crate::topic::ordering::OrderingPolicy;
use crate::topic::retention::RetentionPolicy;

verus! {

/// The policy of a single topic.
#[derive(Debug, Clone)]
pub struct TopicProfile {
    /// Profile name (human-readable).
    pub name: String,
    /// Retention policy.
    pub retention: RetentionPolicy,
    /// Ordering policy.
    pub ordering: OrderingPolicy,
    /// Maximum number of subscribers.
    pub max_subscribers: usize,
    /// Maximum number of concurrent publishers.
    pub max_publishers: usize,
    /// Per-publisher rate limit (messages per second); `None` = no limit.
    pub rate_limit_per_publisher: Option<u32>,
    /// Per-topic total rate limit (messages per second); `None` = no limit.
    pub rate_limit_total: Option<u32>,
    /// Whether replay is supported.
    pub replay_enabled: bool,
    /// Whether snapshots are supported.
    pub snapshot_enabled: bool,
    /// How long messages remain replayable.
    pub replay_window: Duration,
}

impl Default for TopicProfile {
    /// The `default` profile: latest-value retention, topic ordering,
    /// 10 000 subscribers and publishers, no rate limit, replay and
    /// snapshots enabled, a 300 s replay window.
    fn default() -> (r: TopicProfile)
        ensures
            r.name@ == "default"@,
            r.retention is Latest,
            r.ordering == OrderingPolicy::Topic,
            r.max_subscribers == 10_000,
            r.max_publishers == 10_000,
            r.rate_limit_per_publisher is None,
            r.rate_limit_total is None,
            r.replay_enabled,
            r.snapshot_enabled,
            duration_millis(r.replay_window) == 300_000,
    {
        proof {
            reveal_strlit("default");
        }
        TopicProfile {
            name: "default".to_owned(),
            retention: RetentionPolicy::Latest,
            ordering: OrderingPolicy::Topic,
            max_subscribers: 10_000,
            max_publishers: 10_000,
            rate_limit_per_publisher: None,
            rate_limit_total: None,
            replay_enabled: true,
            snapshot_enabled: true,
            replay_window: Duration::from_secs(300),
        }
    }
}

} // verus!
