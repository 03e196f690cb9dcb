//! Per-topic monotonic offset cursor for the broker.

use vstd::prelude::*;
use crate::storage::offset::{
    allocate_in,
    counter_after,
    head_in,
    head_offset,
    head_readable,
    next_offset,
};
use crate::storage::shard_map::{
    CounterMap,
    counter_entries,
    counters_get,
    counters_new,
    counters_remove,
};

verus! {

/// Per-topic monotonic offset allocator: a concurrent map from topic
/// names to the next offset to hand out.
pub struct OffsetStore {
    inner: CounterMap,
}

impl View for OffsetStore {
    type V = Map<Seq<char>, i64>;

    /// The next offset to hand out, per allocated topic.
    closed spec fn view(&self) -> Map<Seq<char>, i64> {
        counter_entries(self.inner)
    }
}

impl OffsetStore {
    /// An empty store.
    pub fn new() -> (r: OffsetStore)
        ensures
            r@ == Map::<Seq<char>, i64>::empty(),
    {
        OffsetStore { inner: counters_new() }
    }

    /// Hands out the topic's next offset (1 for a new topic) and advances
    /// its counter.
    pub fn allocate(&mut self, topic: &str) -> (r: i64)
        ensures
            r == next_offset(old(self)@, topic@),
            final(self)@ == old(self)@.insert(topic@, counter_after(r)),
    {
        allocate_in(&mut self.inner, topic)
    }

    /// The highest offset handed out on `topic`, or 0.
    pub fn head(&self, topic: &str) -> (r: i64)
        requires
            head_readable(self@, topic@),
        ensures
            r == head_offset(self@, topic@),
    {
        head_in(&self.inner, topic)
    }

    /// The next offset `topic` will hand out, if it has handed out any.
    pub fn next_of(&self, topic: &str) -> (r: Option<i64>)
        ensures
            r == (if self@.contains_key(topic@) {
                Some(self@[topic@])
            } else {
                None
            }),
    {
        counters_get(&self.inner, topic)
    }

    /// Forgets `topic`: its next allocation starts again from 1.
    pub fn remove(&mut self, topic: &str)
        ensures
            final(self)@ == old(self)@.remove(topic@),
    {
        counters_remove(&mut self.inner, topic)
    }
}

} // verus!
