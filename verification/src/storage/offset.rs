//! Per-topic monotonic offsets: the first offset allocated on a topic is
//! 1, then 2, 3, and so on; the head is the highest offset allocated so
//! far, or 0.

use vstd::prelude::*;
use crate::storage::shard_map::{
    CounterMap,
    counter_entries,
    counters_get,
    counters_insert,
    counters_new,
    counters_remove,
};

verus! {

/// The next offset of `topic` given the per-topic counters: the stored
/// counter, or 1 for a topic never allocated.
pub open spec fn next_offset(m: Map<Seq<char>, i64>, topic: Seq<char>) -> i64 {
    if m.contains_key(topic) {
        m[topic]
    } else {
        1
    }
}

/// The head offset of `topic`: one less than its counter, or 0 for a
/// topic never allocated.
pub open spec fn head_offset(m: Map<Seq<char>, i64>, topic: Seq<char>) -> int {
    if m.contains_key(topic) {
        m[topic] - 1
    } else {
        0
    }
}

/// The counter after handing out `x`: one more, wrapping around at
/// `i64::MAX` as an atomic counter does.
pub open spec fn counter_after(x: i64) -> i64 {
    vstd::wrapping::i64_specs::wrapping_add(x, 1)
}

/// Whether the head of `topic` can be read without the counter falling
/// below `i64::MIN`.
pub open spec fn head_readable(m: Map<Seq<char>, i64>, topic: Seq<char>) -> bool {
    m.contains_key(topic) ==> m[topic] > i64::MIN
}

/// Per-topic offset allocation, for stores to implement.
pub trait OffsetStore {
    /// Whether the head of `topic` can be read.
    spec fn can_read_head(&self, topic: Seq<char>) -> bool;

    /// Allocate the next offset for `topic` and return it.
    fn allocate(&mut self, topic: &str) -> i64;

    /// The highest allocated offset for `topic`, or 0.
    fn head(&self, topic: &str) -> i64
        requires
            self.can_read_head(topic@),
    ;

    /// Forget `topic`: its next allocation starts again from 1.
    fn remove(&mut self, topic: &str);
}

pub(crate) fn allocate_in(m: &mut CounterMap, topic: &str) -> (r: i64)
    ensures
        r == next_offset(counter_entries(*old(m)), topic@),
        counter_entries(*final(m)) == counter_entries(*old(m)).insert(topic@, counter_after(r)),
{
    let next = match counters_get(m, topic) {
        Some(c) => c,
        None => 1,
    };
    counters_insert(m, topic.to_owned(), next.wrapping_add(1));
    next
}

pub(crate) fn head_in(m: &CounterMap, topic: &str) -> (r: i64)
    requires
        head_readable(counter_entries(*m), topic@),
    ensures
        r == head_offset(counter_entries(*m), topic@),
{
    match counters_get(m, topic) {
        Some(c) => c - 1,
        None => 0,
    }
}

/// In-memory offset store backed by a concurrent map from topic names
/// to the next offset to hand out.
pub struct MemoryOffsetStore {
    inner: CounterMap,
}

impl View for MemoryOffsetStore {
    type V = Map<Seq<char>, i64>;

    /// The next offset to hand out, per allocated topic.
    closed spec fn view(&self) -> Map<Seq<char>, i64> {
        counter_entries(self.inner)
    }
}

impl MemoryOffsetStore {
    /// An empty store.
    pub fn new() -> (r: MemoryOffsetStore)
        ensures
            r@ == Map::<Seq<char>, i64>::empty(),
    {
        MemoryOffsetStore { inner: counters_new() }
    }
}

impl OffsetStore for MemoryOffsetStore {
    open spec fn can_read_head(&self, topic: Seq<char>) -> bool {
        head_readable(self@, topic)
    }

    /// Hands out the topic's next offset (1 for a new topic) and advances
    /// its counter.
    fn allocate(&mut self, topic: &str) -> (r: i64)
        ensures
            r == next_offset(old(self)@, topic@),
            final(self)@ == old(self)@.insert(topic@, counter_after(r)),
    {
        allocate_in(&mut self.inner, topic)
    }

    /// The highest offset handed out on `topic`, or 0.
    fn head(&self, topic: &str) -> (r: i64)
        ensures
            r == head_offset(self@, topic@),
    {
        head_in(&self.inner, topic)
    }

    /// Forgets `topic`.
    fn remove(&mut self, topic: &str)
        ensures
            final(self)@ == old(self)@.remove(topic@),
    {
        counters_remove(&mut self.inner, topic)
    }
}

/// Offset laws: the first allocation on a topic is 1; after an
/// allocation below `i64::MAX` the head is the offset just handed out
/// and the next allocation is strictly greater; removing a topic resets
/// it (head 0, next allocation 1); and no topic's counter moves when
/// another topic is allocated or removed.
pub proof fn lemma_offset_laws(m: Map<Seq<char>, i64>, topic: Seq<char>, other: Seq<char>)
    ensures
        !m.contains_key(topic) ==> next_offset(m, topic) == 1 && head_offset(m, topic) == 0,
        next_offset(m, topic) < i64::MAX ==> ({
            let x = next_offset(m, topic);
            let m2 = m.insert(topic, counter_after(x));
            &&& head_readable(m2, topic)
            &&& head_offset(m2, topic) == x
            &&& next_offset(m2, topic) == x + 1
        }),
        head_offset(m.remove(topic), topic) == 0,
        next_offset(m.remove(topic), topic) == 1,
        other != topic ==> next_offset(m.insert(topic, counter_after(next_offset(m, topic))), other)
            == next_offset(m, other),
        other != topic ==> next_offset(m.remove(topic), other) == next_offset(m, other),
{
}

} // verus!
