//! Message deduplication within a time window.
//!
//! A key is recorded with an expiry time the first time it is seen. While
//! the record is live, the same key under the same topic is a duplicate;
//! once the record has expired the key is fresh again and the record is
//! renewed. `sweep` removes expired records.

use std::time::Duration;
use vstd::prelude::*;
use crate::storage::shard_map::{
    ExpiryMap,
    expiry_entries,
    expiries_entries,
    expiries_get,
    expiries_insert,
    expiries_len,
    expiries_new,
    expiries_remove,
};
use crate::time::{duration_millis, now_ms};

verus! {

/// The window in whole milliseconds as the store reads it: the `u128`
/// millisecond count cast to `i64`.
pub open spec fn window_millis(window: Duration) -> i64 {
    (duration_millis(window) as u128) as i64
}

/// Whether the record of `key` is live at time `now`.
pub open spec fn is_live(m: Map<(Seq<char>, Seq<char>), i64>, key: (Seq<char>, Seq<char>), now: i64) -> bool {
    m.contains_key(key) && m[key] > now
}

/// The records after a check of `key` at time `now` with expiry
/// `expires`: unchanged when the key's record is live (a duplicate),
/// otherwise the key recorded with the new expiry.
pub open spec fn record_step(
    m: Map<(Seq<char>, Seq<char>), i64>,
    key: (Seq<char>, Seq<char>),
    now: i64,
    expires: i64,
) -> Map<(Seq<char>, Seq<char>), i64> {
    if is_live(m, key, now) {
        m
    } else {
        m.insert(key, expires)
    }
}

/// The records still live at time `now`.
pub open spec fn live_records(m: Map<(Seq<char>, Seq<char>), i64>, now: i64) -> Map<
    (Seq<char>, Seq<char>),
    i64,
> {
    Map::new(|k: (Seq<char>, Seq<char>)| m.contains_key(k) && m[k] > now, |k: (Seq<char>, Seq<char>)| m[k])
}

/// A key recorded fresh at reading `t` with a window of `w`
/// milliseconds is kept by a sweep at reading `now` exactly when
/// `now < t + w`: a zero window makes it expire at once. Every other
/// record is kept exactly when its expiry is after `now`.
pub proof fn lemma_sweep_after_record(
    m: Map<(Seq<char>, Seq<char>), i64>,
    key: (Seq<char>, Seq<char>),
    t: i64,
    w: i64,
    now: i64,
)
    requires
        !is_live(m, key, t),
        i64::MIN <= t + w <= i64::MAX,
    ensures
        live_records(record_step(m, key, t, (t + w) as i64), now).contains_key(key) <==> now < t + w,
        forall|k: (Seq<char>, Seq<char>)|
            k != key ==> (#[trigger] live_records(record_step(m, key, t, (t + w) as i64), now).contains_key(k)
                <==> m.contains_key(k) && m[k] > now),
{
}

/// The records expired at time `now`.
pub open spec fn expired_keys(m: Map<(Seq<char>, Seq<char>), i64>, now: i64) -> Set<(Seq<char>, Seq<char>)> {
    m.dom().filter(|k: (Seq<char>, Seq<char>)| m[k] <= now)
}

/// Counting laws of a finite record map: a check keeps it finite and
/// grows it by one record exactly when the key had none; a sweep keeps
/// it finite and removes exactly the expired records.
pub proof fn lemma_dedupe_counts(
    m: Map<(Seq<char>, Seq<char>), i64>,
    key: (Seq<char>, Seq<char>),
    now: i64,
    expires: i64,
)
    requires
        m.dom().finite(),
    ensures
        record_step(m, key, now, expires).dom().finite(),
        record_step(m, key, now, expires).len() == m.len() + (if m.contains_key(key) {
            0int
        } else {
            1int
        }),
        live_records(m, now).dom().finite(),
        expired_keys(m, now).finite(),
        m.len() - live_records(m, now).len() == expired_keys(m, now).len(),
{
    let live = live_records(m, now).dom();
    let dead = expired_keys(m, now);
    m.dom().lemma_len_filter(|k: (Seq<char>, Seq<char>)| m[k] > now);
    m.dom().lemma_len_filter(|k: (Seq<char>, Seq<char>)| m[k] <= now);
    assert(live =~= m.dom().filter(|k: (Seq<char>, Seq<char>)| m[k] > now));
    assert(live.disjoint(dead));
    vstd::set_lib::lemma_set_disjoint_lens(live, dead);
    assert(live + dead =~= m.dom());
}

/// Message deduplication, for stores to implement.
pub trait DedupeStore {
    /// Whether `key` under `topic` is fresh (and is then recorded for
    /// `window`), or a duplicate within the window.
    fn check_and_record(&mut self, topic: &str, key: &str, window: Duration) -> bool;

    /// Removes every expired record and returns how many were removed.
    fn sweep(&mut self) -> usize;
}

pub(crate) fn check_until(m: &mut ExpiryMap, topic: &str, key: &str, now: i64, expires: i64) -> (r:
    bool)
    ensures
        r == !is_live(expiry_entries(*old(m)), (topic@, key@), now),
        expiry_entries(*final(m)) == record_step(expiry_entries(*old(m)), (topic@, key@), now, expires),
{
    let k = (topic.to_owned(), key.to_owned());
    match expiries_get(m, &k) {
        Some(v) => {
            if v <= now {
                expiries_insert(m, k, expires);
                true
            } else {
                false
            }
        },
        None => {
            expiries_insert(m, k, expires);
            true
        },
    }
}

pub(crate) fn window_ms(window: Duration) -> (r: i64)
    ensures
        r == window_millis(window),
{
    let ms: u128 = window.as_millis();
    ms as i64
}

/// Reads the clock and checks `key`: returns whether it was fresh,
/// the clock reading and the expiry recorded for a fresh key (the
/// reading plus the window, held at the `i64` bounds should that sum
/// leave them).
pub(crate) fn check_now(m: &mut ExpiryMap, topic: &str, key: &str, window: Duration) -> (r: (
    bool,
    i64,
    i64,
))
    ensures
        call_ensures(now_ms, (), r.1),
        i64::MIN <= r.1 + window_millis(window) <= i64::MAX ==> r.2 == r.1 + window_millis(window),
        r.0 == !is_live(expiry_entries(*old(m)), (topic@, key@), r.1),
        expiry_entries(*final(m)) == record_step(expiry_entries(*old(m)), (topic@, key@), r.1, r.2),
{
    let now = now_ms();
    let w = window_ms(window);
    let expires = if w >= 0 {
        if now <= i64::MAX - w {
            now + w
        } else {
            i64::MAX
        }
    } else {
        if now >= i64::MIN - w {
            now + w
        } else {
            i64::MIN
        }
    };
    let fresh = check_until(m, topic, key, now, expires);
    (fresh, now, expires)
}

pub(crate) fn sweep_until(m: &mut ExpiryMap, now: i64) -> (r: usize)
    ensures
        expiry_entries(*final(m)) == live_records(expiry_entries(*old(m)), now),
        expiry_entries(*final(m)).dom().finite(),
        r == expiry_entries(*old(m)).len() - expiry_entries(*final(m)).len(),
{
    let ghost start = expiry_entries(*m);
    let entries = expiries_entries(m);
    let ghost keys = entries@.map_values(|e: ((String, String), i64)| (e.0.0@, e.0.1@));
    proof {
        assert(start.dom() =~= keys.to_set()) by {
            assert forall|k: (Seq<char>, Seq<char>)| start.dom().contains(k) implies keys.contains(
                k,
            ) by {
                let i = choose|i: int|
                    0 <= i < entries@.len() && (entries@[i].0.0@, entries@[i].0.1@) == k;
                assert(keys[i] == k);
            }
            assert forall|k: (Seq<char>, Seq<char>)| keys.contains(k) implies start.dom().contains(
                k,
            ) by {
                let i = choose|i: int| 0 <= i < keys.len() && keys[i] == k;
                assert(keys[i] == (entries@[i].0.0@, entries@[i].0.1@));
            }
        }
        vstd::seq_lib::seq_to_set_is_finite(keys);
    }
    let mut removed: usize = 0;
    let mut i: usize = 0;
    while i < entries.len()
        invariant
            0 <= i <= entries@.len(),
            keys.len() == entries@.len(),
            forall|j: int| 0 <= j < keys.len() ==> keys[j] == (#[trigger] entries@[j].0.0@, entries@[j].0.1@),
            forall|j: int|
                0 <= j < entries@.len() ==> start.contains_key(keys[j]) && start[keys[j]]
                    == entries@[j].1,
            forall|a: int, b: int| 0 <= a < b < keys.len() ==> keys[a] != keys[b],
            start.dom().finite(),
            expiry_entries(*m).dom().finite(),
            forall|k: (Seq<char>, Seq<char>)|
                #![trigger expiry_entries(*m).contains_key(k)]
                expiry_entries(*m).contains_key(k) ==> start.contains_key(k) && expiry_entries(
                    *m,
                )[k] == start[k],
            forall|k: (Seq<char>, Seq<char>)|
                #![trigger start.contains_key(k)]
                start.contains_key(k) ==> (expiry_entries(*m).contains_key(k) <==> !(start[k] <= now
                    && exists|j: int| 0 <= j < i && keys[j] == k)),
            removed == start.len() - expiry_entries(*m).len(),
            removed <= i,
        decreases entries@.len() - i,
    {
        let expiry = entries[i].1;
        if expiry <= now {
            let ghost before = expiry_entries(*m);
            let gone = expiries_remove(m, &entries[i].0);
            proof {
                vstd::set::axiom_set_remove_len(before.dom(), keys[i as int]);
                assert(before.dom().remove(keys[i as int]) == expiry_entries(*m).dom());
                assert(before.contains_key(keys[i as int])) by {
                    if !before.contains_key(keys[i as int]) {
                        assert(start.contains_key(keys[i as int]));
                        let j = choose|j: int| 0 <= j < i && keys[j] == keys[i as int];
                        assert(keys[j] == keys[i as int]);
                    }
                }
            }
            if gone {
                removed = removed + 1;
            }
        }
        proof {
            assert forall|k: (Seq<char>, Seq<char>)| #[trigger] start.contains_key(k) implies (
            expiry_entries(*m).contains_key(k) <==> !(start[k] <= now && exists|j: int|
                0 <= j < i + 1 && keys[j] == k)) by {
                if k == keys[i as int] {
                    assert(keys[i as int] == k);
                } else {
                    if exists|j: int| 0 <= j < i + 1 && keys[j] == k {
                        let j = choose|j: int| 0 <= j < i + 1 && keys[j] == k;
                        assert(j < i);
                    }
                }
            }
        }
        i = i + 1;
    }
    proof {
        assert forall|k: (Seq<char>, Seq<char>)| #[trigger] start.contains_key(k) implies exists|j: int|
            0 <= j < i && keys[j] == k by {
            let j = choose|j: int| 0 <= j < entries@.len() && (entries@[j].0.0@, entries@[j].0.1@) == k;
            assert(keys[j] == k);
        }
        assert(expiry_entries(*m) =~= live_records(start, now));
    }
    removed
}

/// In-memory deduplication store: a concurrent map from
/// `(topic, key)` pairs to the time their record expires.
pub struct MemoryDedupeStore {
    inner: ExpiryMap,
}

impl MemoryDedupeStore {
    /// A store holds finitely many records.
    #[verifier::type_invariant]
    spec fn finite_records(self) -> bool {
        expiry_entries(self.inner).dom().finite()
    }
}

impl View for MemoryDedupeStore {
    type V = Map<(Seq<char>, Seq<char>), i64>;

    /// The expiry time of each recorded `(topic, key)` pair.
    closed spec fn view(&self) -> Map<(Seq<char>, Seq<char>), i64> {
        expiry_entries(self.inner)
    }
}

impl MemoryDedupeStore {
    /// An empty store.
    pub fn new() -> (r: MemoryDedupeStore)
        ensures
            r@.dom().finite(),
            r@ == Map::<(Seq<char>, Seq<char>), i64>::empty(),
    {
        MemoryDedupeStore { inner: expiries_new() }
    }

    /// The check at time `now` with expiry `expires`: fresh exactly when
    /// the key has no live record, and then recorded until `expires`.
    pub fn check_and_record_until(&mut self, topic: &str, key: &str, now: i64, expires: i64) -> (r:
        bool)
        ensures
            r == !is_live(old(self)@, (topic@, key@), now),
            final(self)@ == record_step(old(self)@, (topic@, key@), now, expires),
            final(self)@.dom().finite(),
    {
        proof {
            use_type_invariant(&*self);
        }
        let mut records = expiries_new();
        std::mem::swap(&mut records, &mut self.inner);
        let ghost before = expiry_entries(records);
        let result = check_until(&mut records, topic, key, now, expires);
        proof {
            lemma_dedupe_counts(before, (topic@, key@), now, expires);
        }
        self.inner = records;
        result
    }

    /// The check at time `now` with the record lasting `window`.
    pub fn check_and_record_at(&mut self, topic: &str, key: &str, window: Duration, now: i64) -> (r:
        bool)
        requires
            i64::MIN <= now + window_millis(window) <= i64::MAX,
        ensures
            r == !is_live(old(self)@, (topic@, key@), now),
            final(self)@ == record_step(
                old(self)@,
                (topic@, key@),
                now,
                (now + window_millis(window)) as i64,
            ),
            final(self)@.dom().finite(),
    {
        let w = window_ms(window);
        proof {
            use_type_invariant(&*self);
        }
        let mut records = expiries_new();
        std::mem::swap(&mut records, &mut self.inner);
        let ghost before = expiry_entries(records);
        let result = check_until(&mut records, topic, key, now, now + w);
        proof {
            lemma_dedupe_counts(before, (topic@, key@), now, (now + w) as i64);
        }
        self.inner = records;
        result
    }

    /// Removes every record expired at time `now`; returns how many.
    pub fn sweep_at(&mut self, now: i64) -> (r: usize)
        ensures
            final(self)@ == live_records(old(self)@, now),
            r == old(self)@.len() - final(self)@.len(),
            final(self)@.dom().finite(),
    {
        proof {
            use_type_invariant(&*self);
        }
        let mut records = expiries_new();
        std::mem::swap(&mut records, &mut self.inner);
        let ghost before = expiry_entries(records);
        let result = sweep_until(&mut records, now);
        proof {
            lemma_dedupe_counts(before, (Seq::empty(), Seq::empty()), now, 0);
        }
        self.inner = records;
        result
    }
}

impl DedupeStore for MemoryDedupeStore {
    /// Fresh exactly when the key has no live record at the clock reading;
    /// a fresh key is recorded until the reading plus `window` (held at
    /// the `i64` bounds should that sum leave them).
    fn check_and_record(&mut self, topic: &str, key: &str, window: Duration) -> (r: bool)
        ensures
            exists|now: i64, expires: i64|
                {
                    &&& call_ensures(now_ms, (), now)
                    &&& (i64::MIN <= now + window_millis(window) <= i64::MAX ==> expires == now
                        + window_millis(window))
                    &&& r == !is_live(old(self)@, (topic@, key@), now)
                    &&& final(self)@ == record_step(old(self)@, (topic@, key@), now, expires)
                },
            final(self)@.dom().finite(),
    {
        proof {
            use_type_invariant(&*self);
        }
        let mut records = expiries_new();
        std::mem::swap(&mut records, &mut self.inner);
        let ghost before = expiry_entries(records);
        let (fresh, now, expires) = check_now(&mut records, topic, key, window);
        proof {
            lemma_dedupe_counts(before, (topic@, key@), now, expires);
        }
        self.inner = records;
        assert(final(self)@ == record_step(old(self)@, (topic@, key@), now, expires));
        fresh
    }

    /// Removes every record expired at the clock reading; returns how
    /// many.
    fn sweep(&mut self) -> (r: usize)
        ensures
            r == old(self)@.len() - final(self)@.len(),
            exists|now: i64| call_ensures(now_ms, (), now) && final(self)@ == live_records(old(self)@, now),
            final(self)@.dom().finite(),
    {
        let now = now_ms();
        proof {
            use_type_invariant(&*self);
        }
        let mut records = expiries_new();
        std::mem::swap(&mut records, &mut self.inner);
        let ghost before = expiry_entries(records);
        let r = sweep_until(&mut records, now);
        proof {
            lemma_dedupe_counts(before, (Seq::empty(), Seq::empty()), now, 0);
        }
        self.inner = records;
        assert(final(self)@ == live_records(old(self)@, now));
        r
    }
}

} // verus!
