//! Retention policy.

use std::time::Duration;
use vstd::prelude::*;

verus! {

/// How long messages on a topic are kept.
#[derive(Debug, Clone, Copy, PartialEq, Eq)]
pub enum RetentionPolicy {
    /// No retention: messages are not kept after fanout.
    NoRetention,
    /// Retain for at most this duration.
    Ttl(Duration),
    /// Retain at most this many messages.
    Count(usize),
    /// Retain at most this many bytes.
    Size(usize),
    /// External durable storage controls retention.
    Durable,
    /// Only the latest value per state key is kept.
    Latest,
}

impl Default for RetentionPolicy {
    /// `Latest`.
    fn default() -> (r: RetentionPolicy)
        ensures
            r is Latest,
    {
        RetentionPolicy::Latest
    }
}

} // verus!
