//! What the library states of `dashmap::DashMap`, the concurrent map
//! behind the offset and dedupe stores: a name for the contents of each
//! map it uses, and one wrapper for each method the stores call.

use dashmap::DashMap;
use vstd::prelude::*;

verus! {

#[verifier::external_type_specification]
#[verifier::external_body]
#[verifier::reject_recursive_types(K)]
#[verifier::reject_recursive_types(V)]
#[verifier::reject_recursive_types(S)]
pub struct ExDashMap<K, V, S>(DashMap<K, V, S>);

/// A concurrent map from topic names to counters.
pub type CounterMap = DashMap<String, i64>;

/// A concurrent map from `(topic, key)` pairs to expiry times.
pub type ExpiryMap = DashMap<(String, String), i64>;

/// The entries of an expiry map copied out.
pub type ExpiryList = Vec<((String, String), i64)>;

/// What a map from topic names to counters holds.
pub uninterp spec fn counter_entries(m: DashMap<String, i64>) -> Map<Seq<char>, i64>;

/// What a map from `(topic, key)` pairs to expiry times holds.
pub uninterp spec fn expiry_entries(m: DashMap<(String, String), i64>) -> Map<
    (Seq<char>, Seq<char>),
    i64,
>;

/// No counter.
pub open spec fn no_counters() -> Map<Seq<char>, i64> {
    Map::empty()
}

/// No expiry time.
pub open spec fn no_expiries() -> Map<(Seq<char>, Seq<char>), i64> {
    Map::empty()
}

/// `DashMap::new()` for counters: an empty map.
#[verifier::external_body]
pub(crate) fn counters_new() -> (fresh: CounterMap)
    ensures
        counter_entries(fresh) == no_counters(),
{
    DashMap::new()
}

/// `DashMap::get` on counters: the value stored under `topic`, if any
/// (the guard it returns is read and dropped at once).
#[verifier::external_body]
pub(crate) fn counters_get(m: &CounterMap, topic: &str) -> (r: Option<i64>)
    ensures
        r == (if counter_entries(*m).contains_key(topic@) {
            Some(counter_entries(*m)[topic@])
        } else {
            None::<i64>
        }),
{
    match m.get(topic) {
        Some(entry) => Some(*entry.value()),
        None => None,
    }
}

/// `DashMap::insert` on counters: `topic` now maps to `value`, every
/// other entry unchanged.
#[verifier::external_body]
pub(crate) fn counters_insert(m: &mut CounterMap, topic: String, value: i64)
    ensures
        counter_entries(*final(m)) == counter_entries(*old(m)).insert(topic@, value),
{
    m.insert(topic, value);
}

/// `DashMap::remove` on counters: `topic` no longer has an entry, every
/// other entry unchanged.
#[verifier::external_body]
pub(crate) fn counters_remove(m: &mut CounterMap, topic: &str)
    ensures
        counter_entries(*final(m)) == counter_entries(*old(m)).remove(topic@),
{
    m.remove(topic);
}

/// `DashMap::new()` for expiry times: an empty map.
#[verifier::external_body]
pub(crate) fn expiries_new() -> (r: ExpiryMap)
    ensures
        expiry_entries(r) == no_expiries(),
{
    DashMap::new()
}

/// `DashMap::get` on expiry times: the expiry stored under `key`, if any.
#[verifier::external_body]
pub(crate) fn expiries_get(m: &ExpiryMap, key: &(String, String)) -> (r:
    Option<i64>)
    ensures
        r == (if expiry_entries(*m).contains_key((key.0@, key.1@)) {
            Some(expiry_entries(*m)[(key.0@, key.1@)])
        } else {
            None::<i64>
        }),
{
    match m.get(key) {
        Some(entry) => Some(*entry.value()),
        None => None,
    }
}

/// `DashMap::insert` on expiry times: `key` now maps to `value`, every
/// other entry unchanged.
#[verifier::external_body]
pub(crate) fn expiries_insert(m: &mut ExpiryMap, key: (String, String), value: i64)
    ensures
        expiry_entries(*final(m)) == expiry_entries(*old(m)).insert((key.0@, key.1@), value),
{
    m.insert(key, value);
}

/// `DashMap::remove` on expiry times: `key` no longer has an entry,
/// every other entry unchanged; the result says whether it had one.
#[verifier::external_body]
pub(crate) fn expiries_remove(m: &mut ExpiryMap, key: &(String, String)) -> (r:
    bool)
    ensures
        expiry_entries(*final(m)) == expiry_entries(*old(m)).remove((key.0@, key.1@)),
        r == expiry_entries(*old(m)).contains_key((key.0@, key.1@)),
{
    m.remove(key).is_some()
}

/// `DashMap::len` on expiry times: the number of entries.
#[verifier::external_body]
pub(crate) fn expiries_len(m: &ExpiryMap) -> (r: usize)
    ensures
        r == expiry_entries(*m).len(),
{
    m.len()
}

/// `DashMap::iter` on expiry times, each entry copied out: every entry
/// of the map exactly once, in the map's (unspecified) order.
#[verifier::external_body]
pub(crate) fn expiries_entries(m: &ExpiryMap) -> (r: ExpiryList)
    ensures
        forall|i: int|
            0 <= i < r@.len() ==> expiry_entries(*m).contains_key((r@[i].0.0@, r@[i].0.1@))
                && expiry_entries(*m)[(r@[i].0.0@, r@[i].0.1@)] == r@[i].1,
        forall|i: int|
            #![trigger r@[i]]
            forall|j: int|
                #![trigger r@[j]]
                0 <= i < j < r@.len() ==> (r@[i].0.0@, r@[i].0.1@) != (r@[j].0.0@, r@[j].0.1@),
        forall|k: (Seq<char>, Seq<char>)|
            #[trigger] expiry_entries(*m).contains_key(k) ==> exists|i: int|
                0 <= i < r@.len() && (r@[i].0.0@, r@[i].0.1@) == k,
{
    m.iter().map(|entry| (entry.key().clone(), *entry.value())).collect()
}

} // verus!
