//! Time: what the library states of `std::time::Duration`, and the
//! wall clock.

use std::time::Duration;
use std::time::SystemTime;
use vstd::prelude::*;

verus! {

/// What `Duration::as_millis` returns for `d`: the whole milliseconds
/// in the duration.
pub uninterp spec fn duration_millis(d: Duration) -> nat;

/// `Duration::from_millis(ms)` is a duration of exactly `ms`
/// milliseconds (std documents it as such).
pub assume_specification[ Duration::from_millis ](millis: u64) -> (d: Duration)
    ensures
        duration_millis(d) == millis,
;

/// `Duration::from_secs(s)` is a duration of exactly `s` seconds, that
/// is `1000 * s` whole milliseconds (std documents it as such).
pub assume_specification[ Duration::from_secs ](secs: u64) -> (d: Duration)
    ensures
        duration_millis(d) == 1000 * secs,
;

/// `Duration::as_millis` returns the whole milliseconds of the duration.
pub assume_specification[ Duration::as_millis ](d: &Duration) -> (r: u128)
    ensures
        r == duration_millis(*d),
;

/// `Duration::as_secs` returns the whole seconds of the duration, that
/// is its whole milliseconds divided by 1000, rounded down.
pub assume_specification[ Duration::as_secs ](d: &Duration) -> (r: u64)
    ensures
        r == duration_millis(*d) / 1000,
;

/// `Duration` is `Copy`: its `clone` returns the same duration.
pub assume_specification[ <Duration as Clone>::clone ](d: &Duration) -> (r: Duration)
    ensures
        r == *d,
;

#[verifier::external_type_specification]
#[verifier::external_body]
pub struct ExSystemTime(SystemTime);

/// `SystemTime::now()`: the current wall-clock time. Nothing is stated
/// of the value: it depends on the machine's clock.
#[verifier::external_body]
fn system_now() -> SystemTime {
    SystemTime::now()
}

/// `SystemTime::duration_since(UNIX_EPOCH)`, with the error (a clock set
/// before 1970) turned into `None`. Nothing is stated of the duration: it
/// depends on the clock reading.
#[verifier::external_body]
fn since_unix_epoch(t: SystemTime) -> Option<Duration> {
    match t.duration_since(std::time::UNIX_EPOCH) {
        Ok(d) => Some(d),
        Err(_) => None,
    }
}

/// Milliseconds since the Unix epoch from a duration since the epoch;
/// `0` when the clock reads before the epoch.
pub fn epoch_millis(since_epoch: Option<Duration>) -> (r: i64)
    ensures
        since_epoch is None ==> r == 0,
        since_epoch matches Some(d) ==> r == duration_millis(d) as i64,
{
    match since_epoch {
        Some(d) => {
            let ms: u128 = d.as_millis();
            ms as i64
        },
        None => 0,
    }
}

/// Whether `ms` is a reading the clock can give: the whole milliseconds
/// of some duration since the epoch (as an `i64`), or 0 for a clock set
/// before the epoch.
pub open spec fn clock_reading(ms: i64) -> bool {
    ms == 0 || exists|d: Duration| ms == #[trigger] duration_millis(d) as i64
}

/// The current time in milliseconds since the Unix epoch; 0 when the
/// clock reads before the epoch.
pub fn now_ms() -> (r: i64)
    ensures
        clock_reading(r),
{
    let since = since_unix_epoch(system_now());
    let r = epoch_millis(since);
    proof {
        if let Some(d) = since {
            assert(r == duration_millis(d) as i64);
        }
    }
    r
}

} // verus!
