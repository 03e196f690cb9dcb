//! Process-wide metrics counters: in-memory atomic counters mirroring
//! what an exporter would publish.

use std::sync::atomic::AtomicU64;
use std::sync::atomic::Ordering;
use vstd::prelude::*;

verus! {

/// All process-wide metrics.
#[derive(Debug)]
pub struct Metrics {
    /// Open connections.
    pub active_connections: AtomicU64,
    /// Connections opened.
    pub connection_open_total: AtomicU64,
    /// Connections closed.
    pub connection_close_total: AtomicU64,
    /// Reconnects.
    pub reconnect_total: AtomicU64,
    /// Successful resumes.
    pub resume_success_total: AtomicU64,
    /// Failed resumes.
    pub resume_failed_total: AtomicU64,
    /// Heartbeat timeouts.
    pub heartbeat_timeout_total: AtomicU64,
    /// Messages received.
    pub messages_in_total: AtomicU64,
    /// Messages sent.
    pub messages_out_total: AtomicU64,
    /// Messages dropped.
    pub messages_dropped_total: AtomicU64,
    /// Messages replayed.
    pub messages_replayed_total: AtomicU64,
    /// Messages expired.
    pub messages_expired_total: AtomicU64,
    /// Ack timeouts.
    pub ack_timeout_total: AtomicU64,
    /// Duplicates.
    pub duplicate_total: AtomicU64,
    /// Send queue depth.
    pub send_queue_depth: AtomicU64,
    /// Receive queue depth.
    pub recv_queue_depth: AtomicU64,
    /// Slow consumers.
    pub slow_consumer_total: AtomicU64,
    /// Flow pauses.
    pub flow_pause_total: AtomicU64,
    /// Flow resumes.
    pub flow_resume_total: AtomicU64,
    /// Volatile drops.
    pub volatile_drop_total: AtomicU64,
    /// State coalescings.
    pub state_coalesce_total: AtomicU64,
}

impl Metrics {
    /// Every counter at zero.
    pub fn new() -> Metrics {
        Metrics {
            active_connections: AtomicU64::new(0),
            connection_open_total: AtomicU64::new(0),
            connection_close_total: AtomicU64::new(0),
            reconnect_total: AtomicU64::new(0),
            resume_success_total: AtomicU64::new(0),
            resume_failed_total: AtomicU64::new(0),
            heartbeat_timeout_total: AtomicU64::new(0),
            messages_in_total: AtomicU64::new(0),
            messages_out_total: AtomicU64::new(0),
            messages_dropped_total: AtomicU64::new(0),
            messages_replayed_total: AtomicU64::new(0),
            messages_expired_total: AtomicU64::new(0),
            ack_timeout_total: AtomicU64::new(0),
            duplicate_total: AtomicU64::new(0),
            send_queue_depth: AtomicU64::new(0),
            recv_queue_depth: AtomicU64::new(0),
            slow_consumer_total: AtomicU64::new(0),
            flow_pause_total: AtomicU64::new(0),
            flow_resume_total: AtomicU64::new(0),
            volatile_drop_total: AtomicU64::new(0),
            state_coalesce_total: AtomicU64::new(0),
        }
    }

    /// Adds one to `counter`.
    pub fn inc(&self, counter: &AtomicU64) {
        counter.fetch_add(1, Ordering::Relaxed);
    }

    /// Adds `n` to `counter`.
    pub fn add(&self, counter: &AtomicU64, n: u64) {
        counter.fetch_add(n, Ordering::Relaxed);
    }
}

impl Default for Metrics {
    /// Every counter at zero.
    fn default() -> Metrics {
        Metrics::new()
    }
}

} // verus!
