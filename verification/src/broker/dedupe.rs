//! Time-window message deduplication for the broker, scoped per topic.

use std::time::Duration;
use vstd::prelude::*;
use crate::storage::dedupe::{
    check_now,
    check_until,
    is_live,
    live_records,
    record_step,
    sweep_until,
    lemma_dedupe_counts,
    window_millis,
    window_ms,
};
use crate::storage::shard_map::{ExpiryMap, expiry_entries, expiries_len, expiries_new};
use crate::time::now_ms;

verus! {

/// In-memory deduplication store: each `(topic, dedupe_key)` pair maps
/// to the time its record expires.
pub struct DedupeStore {
    inner: ExpiryMap,
}

impl DedupeStore {
    /// A store holds finitely many records.
    #[verifier::type_invariant]
    spec fn finite_records(self) -> bool {
        expiry_entries(self.inner).dom().finite()
    }
}

impl View for DedupeStore {
    type V = Map<(Seq<char>, Seq<char>), i64>;

    /// The expiry time of each recorded `(topic, key)` pair.
    closed spec fn view(&self) -> Map<(Seq<char>, Seq<char>), i64> {
        expiry_entries(self.inner)
    }
}

impl DedupeStore {
    /// An empty store.
    pub fn new() -> (r: DedupeStore)
        ensures
            r@.dom().finite(),
            r@ == Map::<(Seq<char>, Seq<char>), i64>::empty(),
    {
        DedupeStore { inner: expiries_new() }
    }

    /// Whether `key` under `topic` is fresh (no live record at the clock
    /// reading), in which case it is recorded until the reading plus
    /// `window` (held at the `i64` bounds should that sum leave them);
    /// `false` for a duplicate within the window.
    pub fn check_and_record(&mut self, topic: &str, key: &str, window: Duration) -> (r: bool)
        ensures
            exists|now: i64, expires: i64|
                {
                    &&& call_ensures(now_ms, (), now)
                    &&& (i64::MIN <= now + window_millis(window) <= i64::MAX ==> expires == now
                        + window_millis(window))
                    &&& r == !is_live(old(self)@, (topic@, key@), now)
                    &&& final(self)@ == record_step(old(self)@, (topic@, key@), now, expires)
                },
            final(self)@.dom().finite(),
    {
        proof {
            use_type_invariant(&*self);
        }
        let mut records = expiries_new();
        std::mem::swap(&mut records, &mut self.inner);
        let ghost before = expiry_entries(records);
        let (fresh, now, expires) = check_now(&mut records, topic, key, window);
        proof {
            lemma_dedupe_counts(before, (topic@, key@), now, expires);
        }
        self.inner = records;
        assert(final(self)@ == record_step(old(self)@, (topic@, key@), now, expires));
        fresh
    }

    /// The check at time `now` with the record lasting `window`.
    pub fn check_and_record_at(&mut self, topic: &str, key: &str, window: Duration, now: i64) -> (r:
        bool)
        requires
            i64::MIN <= now + window_millis(window) <= i64::MAX,
        ensures
            r == !is_live(old(self)@, (topic@, key@), now),
            final(self)@ == record_step(
                old(self)@,
                (topic@, key@),
                now,
                (now + window_millis(window)) as i64,
            ),
            final(self)@.dom().finite(),
    {
        let w = window_ms(window);
        proof {
            use_type_invariant(&*self);
        }
        let mut records = expiries_new();
        std::mem::swap(&mut records, &mut self.inner);
        let ghost before = expiry_entries(records);
        let result = check_until(&mut records, topic, key, now, now + w);
        proof {
            lemma_dedupe_counts(before, (topic@, key@), now, (now + w) as i64);
        }
        self.inner = records;
        result
    }

    /// Removes every record expired at the clock reading and returns how
    /// many were removed.
    pub fn sweep(&mut self) -> (r: usize)
        ensures
            r == old(self)@.len() - final(self)@.len(),
            exists|now: i64| call_ensures(now_ms, (), now) && final(self)@ == live_records(old(self)@, now),
            final(self)@.dom().finite(),
    {
        let now = now_ms();
        proof {
            use_type_invariant(&*self);
        }
        let mut records = expiries_new();
        std::mem::swap(&mut records, &mut self.inner);
        let ghost before = expiry_entries(records);
        let r = sweep_until(&mut records, now);
        proof {
            lemma_dedupe_counts(before, (Seq::empty(), Seq::empty()), now, 0);
        }
        self.inner = records;
        assert(final(self)@ == live_records(old(self)@, now));
        r
    }

    /// Removes every record expired at time `now`; returns how many.
    pub fn sweep_at(&mut self, now: i64) -> (r: usize)
        ensures
            final(self)@ == live_records(old(self)@, now),
            r == old(self)@.len() - final(self)@.len(),
            final(self)@.dom().finite(),
    {
        proof {
            use_type_invariant(&*self);
        }
        let mut records = expiries_new();
        std::mem::swap(&mut records, &mut self.inner);
        let ghost before = expiry_entries(records);
        let result = sweep_until(&mut records, now);
        proof {
            lemma_dedupe_counts(before, (Seq::empty(), Seq::empty()), now, 0);
        }
        self.inner = records;
        result
    }

    /// Number of records, live or expired but not yet swept.
    pub fn len(&self) -> (r: usize)
        ensures
            r == self@.len(),
            self@.dom().finite(),
    {
        proof {
            use_type_invariant(self);
        }
        expiries_len(&self.inner)
    }

    /// Whether there is no record.
    pub fn is_empty(&self) -> (r: bool)
        ensures
            r == (self@.len() == 0),
            self@.dom().finite(),
    {
        proof {
            use_type_invariant(self);
        }
        expiries_len(&self.inner) == 0
    }
}

/// Deduplication laws: a key seen for the first time is fresh and
/// recorded; checking it again before its record expires reports a
/// duplicate and changes nothing; once the record has expired the key is
/// fresh again; keys are scoped per topic; and a sweep keeps exactly the
/// live records.
pub proof fn lemma_dedupe_laws(
    m: Map<(Seq<char>, Seq<char>), i64>,
    topic: Seq<char>,
    other_topic: Seq<char>,
    key: Seq<char>,
    now: i64,
    later: i64,
    expires: i64,
)
    requires
        !m.contains_key((topic, key)),
        now < expires,
    ensures
        !is_live(m, (topic, key), now),
        is_live(record_step(m, (topic, key), now, expires), (topic, key), now),
        later < expires ==> is_live(record_step(m, (topic, key), now, expires), (topic, key), later)
            && record_step(record_step(m, (topic, key), now, expires), (topic, key), later, expires)
            == record_step(m, (topic, key), now, expires),
        later >= expires ==> !is_live(record_step(m, (topic, key), now, expires), (topic, key), later),
        other_topic != topic ==> is_live(
            record_step(m, (topic, key), now, expires),
            (other_topic, key),
            later,
        ) == is_live(m, (other_topic, key), later),
        forall|k: (Seq<char>, Seq<char>)| #[trigger]
            live_records(m, later).contains_key(k) <==> is_live(m, k, later),
{
}

} // verus!
