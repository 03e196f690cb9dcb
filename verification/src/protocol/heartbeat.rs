//! Heartbeat policy.

use std::time::Duration;
use vstd::prelude::*;
use crate::time::duration_millis;

verus! {

/// Heartbeat configuration sent to the client during `ready`.
#[derive(Debug, Clone, Copy)]
pub struct HeartbeatPolicy {
    /// Server expects a ping at least this often.
    pub ping_interval: Duration,
    /// If a pong is not received within this window, the connection is
    /// considered degraded.
    pub pong_timeout: Duration,
    /// How many consecutive missed pongs before the connection is closed.
    pub max_missed_pongs: u32,
    /// Idle connection timeout.
    pub idle_timeout: Duration,
    /// Client-side jitter for heartbeat distribution.
    pub jitter: Duration,
}

impl Default for HeartbeatPolicy {
    /// Defaults for ordinary web applications: ping every 25 s, pong
    /// within 10 s, two missed pongs, 300 s idle timeout, 2.5 s jitter.
    fn default() -> (r: HeartbeatPolicy)
        ensures
            duration_millis(r.ping_interval) == 25_000,
            duration_millis(r.pong_timeout) == 10_000,
            r.max_missed_pongs == 2,
            duration_millis(r.idle_timeout) == 300_000,
            duration_millis(r.jitter) == 2_500,
    {
        HeartbeatPolicy {
            ping_interval: Duration::from_millis(25_000),
            pong_timeout: Duration::from_millis(10_000),
            max_missed_pongs: 2,
            idle_timeout: Duration::from_secs(300),
            jitter: Duration::from_millis(2_500),
        }
    }
}

} // verus!
