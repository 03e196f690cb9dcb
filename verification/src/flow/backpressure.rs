//! Per-connection backpressure.

use vstd::prelude::*;
use crate::frame::types::Priority;

verus! {

/// Backpressure strategy applied when the send queue is full.
#[derive(Debug, Clone, Copy, PartialEq, Eq, Structural)]
pub enum BackpressureStrategy {
    /// Wait until the queue drains (the default).
    Pause,
    /// Drop the lowest-priority messages first.
    DropVolatile,
    /// Collapse state messages by `state_key`, keeping the latest only.
    CoalesceState,
    /// Lower delivery frequency.
    Downgrade,
    /// Disconnect the slow consumer.
    Disconnect,
    /// Switch to snapshot polling.
    SnapshotLater,
}

impl Default for BackpressureStrategy {
    /// `Pause`.
    fn default() -> (r: BackpressureStrategy)
        ensures
            r == BackpressureStrategy::Pause,
    {
        BackpressureStrategy::Pause
    }
}

/// What the caller should do with a message offered to the queue.
#[derive(Debug, Clone, Copy, PartialEq, Eq, Structural)]
pub enum BackpressureAction {
    /// The message was accepted into the queue.
    Accept,
    /// Pause until capacity is available.
    Pause,
    /// Drop messages marked `Volatile` or `Background`.
    DropVolatile,
    /// Coalesce state messages by key.
    CoalesceState,
    /// Downgrade the connection.
    Downgrade,
    /// Disconnect the client.
    Disconnect,
    /// Switch to snapshot polling.
    SnapshotLater,
}

/// The abstract state of a controller: its capacity, the queued byte
/// count, the strategy in effect and the event counters.
#[derive(Debug, Clone, Copy, PartialEq, Eq)]
pub struct BackpressureView {
    /// Queue capacity in bytes.
    pub max_bytes: usize,
    /// Bytes currently queued.
    pub current_bytes: usize,
    /// Strategy in effect.
    pub strategy: BackpressureStrategy,
    /// Times backpressure was applied.
    pub applied: usize,
    /// Messages dropped.
    pub dropped: usize,
    /// Slow-consumer disconnects.
    pub slow_consumer: usize,
    /// Flow-pause events.
    pub flow_pause: usize,
    /// Flow-resume events.
    pub flow_resume: usize,
    /// Volatile drops.
    pub volatile_drop: usize,
    /// State coalescings.
    pub state_coalesce: usize,
}

/// A counter increment that wraps around at `usize::MAX`, as the
/// counters are atomic counters.
pub open spec fn bump(x: usize) -> usize {
    if x == usize::MAX {
        0
    } else {
        (x + 1) as usize
    }
}

/// The high-water mark: 90% of the capacity, rounded down.
pub open spec fn high_water(max_bytes: usize) -> int {
    (max_bytes * 9) / 10
}

/// The state after offering `payload` bytes to the queue, and the
/// action the caller must take. A payload that fits is accepted and
/// queued; otherwise the queue is unchanged, the `applied` counter and
/// the counter of the strategy's event (if it has one) advance, and the
/// action is the strategy's.
pub open spec fn enqueue_step(s: BackpressureView, payload: usize) -> (
    BackpressureView,
    BackpressureAction,
) {
    if s.current_bytes + payload <= s.max_bytes {
        (
            BackpressureView { current_bytes: (s.current_bytes + payload) as usize, ..s },
            BackpressureAction::Accept,
        )
    } else {
        let s1 = BackpressureView { applied: bump(s.applied), ..s };
        match s.strategy {
            BackpressureStrategy::Pause => (
                BackpressureView { flow_pause: bump(s.flow_pause), ..s1 },
                BackpressureAction::Pause,
            ),
            BackpressureStrategy::DropVolatile => (
                BackpressureView { volatile_drop: bump(s.volatile_drop), ..s1 },
                BackpressureAction::DropVolatile,
            ),
            BackpressureStrategy::CoalesceState => (
                BackpressureView { state_coalesce: bump(s.state_coalesce), ..s1 },
                BackpressureAction::CoalesceState,
            ),
            BackpressureStrategy::Downgrade => (s1, BackpressureAction::Downgrade),
            BackpressureStrategy::Disconnect => (
                BackpressureView { slow_consumer: bump(s.slow_consumer), ..s1 },
                BackpressureAction::Disconnect,
            ),
            BackpressureStrategy::SnapshotLater => (s1, BackpressureAction::SnapshotLater),
        }
    }
}

/// The state after `bytes` have been written out: the queued count
/// drops by `bytes` (wrapping below zero, as an atomic subtraction
/// does), and a flow-resume event is counted when the count crosses
/// below the high-water mark.
pub open spec fn release_step(s: BackpressureView, bytes: usize) -> BackpressureView {
    let prev = s.current_bytes;
    let next = vstd::wrapping::usize_specs::wrapping_sub(prev, bytes);
    let crossed = prev >= high_water(s.max_bytes) && (if prev >= bytes {
        prev - bytes
    } else {
        0
    }) < high_water(s.max_bytes);
    BackpressureView {
        current_bytes: next,
        flow_resume: if crossed {
            bump(s.flow_resume)
        } else {
            s.flow_resume
        },
        ..s
    }
}

/// State of a single connection's outbound queue.
pub struct BackpressureController {
    max_bytes: usize,
    current_bytes: usize,
    strategy: BackpressureStrategy,
    applied: usize,
    dropped: usize,
    slow_consumer: usize,
    flow_pause: usize,
    flow_resume: usize,
    volatile_drop: usize,
    state_coalesce: usize,
}

impl View for BackpressureController {
    type V = BackpressureView;

    closed spec fn view(&self) -> BackpressureView {
        BackpressureView {
            max_bytes: self.max_bytes,
            current_bytes: self.current_bytes,
            strategy: self.strategy,
            applied: self.applied,
            dropped: self.dropped,
            slow_consumer: self.slow_consumer,
            flow_pause: self.flow_pause,
            flow_resume: self.flow_resume,
            volatile_drop: self.volatile_drop,
            state_coalesce: self.state_coalesce,
        }
    }
}

fn wrapping_inc(x: usize) -> (r: usize)
    ensures
        r == bump(x),
{
    if x == usize::MAX {
        0
    } else {
        x + 1
    }
}

impl BackpressureController {
    /// A controller with the given capacity in bytes, an empty queue,
    /// the default strategy and every counter at zero.
    pub fn new(max_bytes: usize) -> (r: BackpressureController)
        ensures
            r@ == (BackpressureView {
                max_bytes,
                current_bytes: 0,
                strategy: BackpressureStrategy::Pause,
                applied: 0,
                dropped: 0,
                slow_consumer: 0,
                flow_pause: 0,
                flow_resume: 0,
                volatile_drop: 0,
                state_coalesce: 0,
            }),
    {
        BackpressureController {
            max_bytes,
            current_bytes: 0,
            strategy: BackpressureStrategy::default(),
            applied: 0,
            dropped: 0,
            slow_consumer: 0,
            flow_pause: 0,
            flow_resume: 0,
            volatile_drop: 0,
            state_coalesce: 0,
        }
    }

    /// The capacity in bytes.
    pub fn max_bytes(&self) -> (r: usize)
        ensures
            r == self@.max_bytes,
    {
        self.max_bytes
    }

    /// The bytes currently queued.
    pub fn current_bytes(&self) -> (r: usize)
        ensures
            r == self@.current_bytes,
    {
        self.current_bytes
    }

    /// The strategy in effect.
    pub fn strategy(&self) -> (r: BackpressureStrategy)
        ensures
            r == self@.strategy,
    {
        self.strategy
    }

    /// Sets the strategy; nothing else changes.
    pub fn set_strategy(&mut self, s: BackpressureStrategy)
        ensures
            final(self)@ == (BackpressureView { strategy: s, ..old(self)@ }),
    {
        self.strategy = s;
    }

    /// How much room is left in the queue (zero when over capacity).
    pub fn available(&self) -> (r: usize)
        ensures
            r == (if self@.max_bytes >= self@.current_bytes {
                self@.max_bytes - self@.current_bytes
            } else {
                0
            }),
    {
        self.max_bytes.saturating_sub(self.current_bytes)
    }

    /// Whether the queue is at or above the high-water mark (90% of the
    /// capacity).
    pub fn is_overloaded(&self) -> (r: bool)
        requires
            self@.max_bytes * 9 <= usize::MAX,
        ensures
            r == (self@.current_bytes >= high_water(self@.max_bytes)),
    {
        self.current_bytes >= (self.max_bytes * 9) / 10
    }

    /// Offers `payload_bytes` to the queue and returns what the caller
    /// must do: `Accept` when the payload fits (and it is then queued),
    /// otherwise the action of the current strategy.
    pub fn try_enqueue(&mut self, payload_bytes: usize) -> (r: BackpressureAction)
        requires
            old(self)@.current_bytes + payload_bytes <= usize::MAX,
        ensures
            (final(self)@, r) == enqueue_step(old(self)@, payload_bytes),
    {
        let prev = self.current_bytes;
        if prev + payload_bytes <= self.max_bytes {
            self.current_bytes = prev + payload_bytes;
            return BackpressureAction::Accept;
        }
        self.record_applied();
        match self.strategy() {
            BackpressureStrategy::Pause => {
                self.flow_pause = wrapping_inc(self.flow_pause);
                BackpressureAction::Pause
            },
            BackpressureStrategy::DropVolatile => {
                self.volatile_drop = wrapping_inc(self.volatile_drop);
                BackpressureAction::DropVolatile
            },
            BackpressureStrategy::CoalesceState => {
                self.state_coalesce = wrapping_inc(self.state_coalesce);
                BackpressureAction::CoalesceState
            },
            BackpressureStrategy::Downgrade => BackpressureAction::Downgrade,
            BackpressureStrategy::Disconnect => {
                self.slow_consumer = wrapping_inc(self.slow_consumer);
                BackpressureAction::Disconnect
            },
            BackpressureStrategy::SnapshotLater => BackpressureAction::SnapshotLater,
        }
    }

    /// Decrements the queued count after a message has been written,
    /// counting a flow-resume event when the count crosses below the
    /// high-water mark.
    pub fn release(&mut self, bytes: usize)
        requires
            old(self)@.max_bytes * 9 <= usize::MAX,
        ensures
            final(self)@ == release_step(old(self)@, bytes),
    {
        let prev = self.current_bytes;
        self.current_bytes = prev.wrapping_sub(bytes);
        let hw = (self.max_bytes * 9) / 10;
        if prev >= hw && prev.saturating_sub(bytes) < hw {
            self.flow_resume = wrapping_inc(self.flow_resume);
        }
    }

    /// Records that a backpressure decision was applied.
    pub fn record_applied(&mut self)
        ensures
            final(self)@ == (BackpressureView { applied: bump(old(self)@.applied), ..old(self)@ }),
    {
        self.applied = wrapping_inc(self.applied);
    }

    /// Records that a message was dropped.
    pub fn record_dropped(&mut self)
        ensures
            final(self)@ == (BackpressureView { dropped: bump(old(self)@.dropped), ..old(self)@ }),
    {
        self.dropped = wrapping_inc(self.dropped);
    }

    /// Times backpressure was applied.
    pub fn applied(&self) -> (r: usize)
        ensures
            r == self@.applied,
    {
        self.applied
    }

    /// Messages dropped.
    pub fn dropped(&self) -> (r: usize)
        ensures
            r == self@.dropped,
    {
        self.dropped
    }

    /// Slow-consumer disconnects.
    pub fn slow_consumer_count(&self) -> (r: usize)
        ensures
            r == self@.slow_consumer,
    {
        self.slow_consumer
    }

    /// Flow-pause events.
    pub fn flow_pause_count(&self) -> (r: usize)
        ensures
            r == self@.flow_pause,
    {
        self.flow_pause
    }

    /// Flow-resume events.
    pub fn flow_resume_count(&self) -> (r: usize)
        ensures
            r == self@.flow_resume,
    {
        self.flow_resume
    }

    /// Volatile drops.
    pub fn volatile_drop_count(&self) -> (r: usize)
        ensures
            r == self@.volatile_drop,
    {
        self.volatile_drop
    }

    /// State coalescings.
    pub fn state_coalesce_count(&self) -> (r: usize)
        ensures
            r == self@.state_coalesce,
    {
        self.state_coalesce
    }
}

/// Whether a message of priority `p` may be dropped under
/// `DropVolatile`: exactly the `Volatile` and `Background` priorities.
pub fn is_volatile(p: Option<Priority>) -> (r: bool)
    ensures
        r == (p == Some(Priority::Volatile) || p == Some(Priority::Background)),
{
    match p {
        Some(Priority::Volatile) | Some(Priority::Background) => true,
        _ => false,
    }
}

/// Queue accounting: an offer that fits is queued in full and nothing
/// else changes; an offer that does not fit leaves the queued bytes,
/// capacity and strategy as they were; an accepted offer keeps the
/// queue within its capacity; and releasing the bytes of an accepted
/// offer restores the queued count.
pub proof fn lemma_enqueue_accounting(s: BackpressureView, payload: usize)
    requires
        s.current_bytes + payload <= usize::MAX,
    ensures
        ({
            let (t, a) = enqueue_step(s, payload);
            &&& a == BackpressureAction::Accept <==> s.current_bytes + payload <= s.max_bytes
            &&& a == BackpressureAction::Accept ==> t.current_bytes == s.current_bytes + payload
                && t.current_bytes <= t.max_bytes
            &&& a != BackpressureAction::Accept ==> t.current_bytes == s.current_bytes
                && t.applied == bump(s.applied)
            &&& t.max_bytes == s.max_bytes && t.strategy == s.strategy
            &&& a == BackpressureAction::Accept ==> release_step(t, payload).current_bytes
                == s.current_bytes
        }),
{
}

/// Under the `Disconnect` strategy a rejected offer asks for a
/// disconnect and counts one more slow consumer; under `Pause` it asks
/// for a pause and counts one more flow pause.
pub proof fn lemma_rejected_offer_follows_strategy(s: BackpressureView, payload: usize)
    requires
        s.current_bytes + payload > s.max_bytes,
    ensures
        s.strategy == BackpressureStrategy::Disconnect ==> enqueue_step(s, payload).1
            == BackpressureAction::Disconnect && enqueue_step(s, payload).0.slow_consumer == bump(
            s.slow_consumer,
        ),
        s.strategy == BackpressureStrategy::Pause ==> enqueue_step(s, payload).1
            == BackpressureAction::Pause && enqueue_step(s, payload).0.flow_pause == bump(
            s.flow_pause,
        ),
{
}

} // verus!
