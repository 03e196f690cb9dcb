//! How a topic's log in Redis (a sorted set scored by offset) is trimmed
//! to its retention policy after each append.

use vstd::prelude::*;
use crate::topic::retention::RetentionPolicy;

verus! {

/// The trimming command sent after an append.
#[derive(Debug, Clone, Copy, PartialEq, Eq, Structural)]
pub enum LogTrim {
    /// Delete the whole log (`DEL`).
    DeleteAll,
    /// Remove the entries ranked `start..=stop`, negative ranks counting
    /// from the newest (`ZREMRANGEBYRANK`).
    RemoveRanks { start: i64, stop: i64 },
}

/// The trim for each policy: no retention deletes the log; a positive
/// count `n` removes all but the newest `n` entries; latest-only removes
/// all but the newest; the other policies keep everything.
pub open spec fn trim_for(retention: RetentionPolicy) -> Option<LogTrim> {
    match retention {
        RetentionPolicy::NoRetention => Some(LogTrim::DeleteAll),
        RetentionPolicy::Count(n) => if n > 0 {
            Some(LogTrim::RemoveRanks { start: 0, stop: -((n as i64) + 1) as i64 })
        } else {
            None
        },
        RetentionPolicy::Latest => Some(LogTrim::RemoveRanks { start: 0, stop: -2i64 }),
        _ => None,
    }
}

/// The trimming command that enforces `retention` after an append, if
/// any.
pub fn log_trim(retention: &RetentionPolicy) -> (r: Option<LogTrim>)
    requires
        retention matches RetentionPolicy::Count(n) ==> n as i64 != i64::MAX,
    ensures
        r == trim_for(*retention),
{
    match retention {
        RetentionPolicy::NoRetention => Some(LogTrim::DeleteAll),
        RetentionPolicy::Count(n) => {
            if *n > 0 {
                let k = *n as i64;
                Some(LogTrim::RemoveRanks { start: 0, stop: -(k + 1) })
            } else {
                None
            }
        },
        RetentionPolicy::Latest => Some(LogTrim::RemoveRanks { start: 0, stop: -2 }),
        _ => None,
    }
}

} // verus!
