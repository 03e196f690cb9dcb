//! Fanout engine: hands a published frame to every subscriber of a
//! topic. Subscriptions are kept twice, grouped by topic in the order
//! they were made and indexed by id, and the two indexes agree.

use std::sync::Arc;

use bytes::Bytes;
use dashmap::DashMap;
use vstd::prelude::*;
use crate::handle::share;
use crate::payload::bytes_content;


verus! {

/// Identifies a single (connection, topic) subscription.
#[derive(Debug, Clone, Copy, PartialEq, Eq, Hash, Structural)]
pub struct SubscriptionId(pub u64);

/// What a subscriber wants to receive.
#[derive(Debug, Clone, Copy, PartialEq, Eq, Structural)]
pub enum SubscribeIntent {
    /// New messages after subscription.
    Live,
    /// From a specific offset.
    Replay { from: i64 },
    /// Snapshot then live.
    SnapshotThenLive,
    /// Only the latest state.
    Latest,
    /// System notices only.
    Passive,
    /// Temporary; cleaned up on disconnect.
    Ephemeral,
}

/// A registered subscription.
#[derive(Debug, Clone)]
pub struct Subscription {
    /// Unique subscription id.
    pub id: SubscriptionId,
    /// Topic name.
    pub topic: String,
    /// What the subscriber wants.
    pub intent: SubscribeIntent,
    /// Whether the subscription has been told to stop.
    pub cancelled: bool,
}

/// Errors a sink can report when handed a frame.
#[derive(Debug)]
pub enum FanoutError {
    /// The sink has been closed and should be removed.
    Closed,
    /// The sink's send queue is full.
    Backpressured { queue_bytes: usize, max_bytes: usize },
}

/// A connection as the fanout engine sees it: something serialized
/// frames can be handed to, with an identifier. The engine does not
/// know the transport.
pub trait FanoutSink: Send + Sync {
    /// Hands a serialized frame to the sink.
    fn deliver(&self, frame: Bytes) -> Result<(), FanoutError>;

    /// The sink's identifier.
    fn id(&self) -> u64;
}

/// Connection handle used by the fanout engine.
pub type ConnectionSink = Arc<dyn FanoutSink>;

/// A subscription as a topic's list holds it.
pub type TopicEntry = (SubscriptionId, ConnectionSink);

/// Topic name to the subscriptions on it, in subscription order.
pub type TopicMap = DashMap<String, Vec<(SubscriptionId, ConnectionSink)>>;

/// Subscription id to its topic and sink.
pub type IdMap = DashMap<SubscriptionId, (String, ConnectionSink)>;

/// What a topic map holds: each topic's subscriptions, id and sink, in
/// subscription order.
pub uninterp spec fn topic_entries(m: TopicMap) -> Map<Seq<char>, Seq<TopicEntry>>;

/// What an id map holds: each subscription's topic and sink.
pub uninterp spec fn id_records(m: IdMap) -> Map<SubscriptionId, (Seq<char>, ConnectionSink)>;

/// The ids of a list of subscriptions, in order.
pub open spec fn ids_of(s: Seq<TopicEntry>) -> Seq<SubscriptionId> {
    Seq::new(s.len(), |i: int| s[i].0)
}

/// The ids subscribed to each topic, in subscription order.
pub open spec fn topic_lists(m: TopicMap) -> Map<Seq<char>, Seq<SubscriptionId>> {
    topic_entries(m).map_values(|l: Seq<TopicEntry>| ids_of(l))
}

/// Each subscription's topic.
pub open spec fn id_entries(m: IdMap) -> Map<SubscriptionId, Seq<char>> {
    id_records(m).map_values(|e: (Seq<char>, ConnectionSink)| e.0)
}

/// Each subscription's sink.
pub open spec fn id_sinks(m: IdMap) -> Map<SubscriptionId, ConnectionSink> {
    id_records(m).map_values(|e: (Seq<char>, ConnectionSink)| e.1)
}

/// No topic.
pub open spec fn no_topics() -> Map<Seq<char>, Seq<SubscriptionId>> {
    Map::empty()
}

/// No topic's subscriptions.
pub open spec fn no_topic_entries() -> Map<Seq<char>, Seq<TopicEntry>> {
    Map::empty()
}

/// No subscription's record.
pub open spec fn no_id_records() -> Map<SubscriptionId, (Seq<char>, ConnectionSink)> {
    Map::empty()
}

/// No subscription.
pub open spec fn no_ids() -> Map<SubscriptionId, Seq<char>> {
    Map::empty()
}

/// `DashMap::new()` for topics: an empty map.
#[verifier::external_body]
fn topics_new() -> (r: TopicMap)
    ensures
        topic_entries(r) == no_topic_entries(),
{
    DashMap::new()
}

/// `DashMap::get` for topics: a copy of the list stored under `topic`,
/// if any (the guard it returns is read and dropped at once).
#[verifier::external_body]
fn topics_get(m: &TopicMap, topic: &str) -> (r: Option<Vec<TopicEntry>>)
    ensures
        r is Some <==> topic_entries(*m).contains_key(topic@),
        r matches Some(v) ==> v@ == topic_entries(*m)[topic@],
{
    match m.get(topic) {
        Some(entry) => Some(entry.value().clone()),
        None => None,
    }
}

/// `DashMap::insert` for topics: `topic` now maps to `list`, every
/// other entry unchanged.
#[verifier::external_body]
fn topics_insert(m: &mut TopicMap, topic: String, list: Vec<TopicEntry>)
    ensures
        topic_entries(*final(m)) == topic_entries(*old(m)).insert(topic@, list@),
{
    m.insert(topic, list);
}

/// `DashMap::new()` for ids: an empty map.
#[verifier::external_body]
fn ids_new() -> (r: IdMap)
    ensures
        id_records(r) == no_id_records(),
{
    DashMap::new()
}

/// `DashMap::insert` for ids: `id` now maps to `entry`, every other
/// entry unchanged.
#[verifier::external_body]
fn ids_insert(m: &mut IdMap, id: SubscriptionId, entry: (String, ConnectionSink))
    ensures
        id_records(*final(m)).remove(id) == id_records(*old(m)).remove(id),
        id_records(*final(m)).contains_key(id),
        id_records(*final(m))[id].0 == entry.0@,
        id_records(*final(m))[id].1 == entry.1,
{
    m.insert(id, entry);
}

/// `DashMap::remove` for ids: the entry under `id`, if any, taken out;
/// every other entry unchanged.
#[verifier::external_body]
fn ids_remove(m: &mut IdMap, id: SubscriptionId) -> (r: Option<(String, ConnectionSink)>)
    ensures
        id_records(*final(m)) == id_records(*old(m)).remove(id),
        r is Some <==> id_records(*old(m)).contains_key(id),
        r matches Some(e) ==> (e.0@, e.1) == id_records(*old(m))[id],
{
    match m.remove(&id) {
        Some((_, entry)) => Some(entry),
        None => None,
    }
}

/// `DashMap::len` for ids: the number of entries.
#[verifier::external_body]
fn ids_len(m: &IdMap) -> (r: usize)
    ensures
        r == id_records(*m).len(),
{
    m.len()
}

/// `DashMap::iter` for ids, each id copied out with its sink: every
/// entry of the map exactly once, in the map's (unspecified) order.
#[verifier::external_body]
fn ids_sinks(m: &IdMap) -> (r: Vec<TopicEntry>)
    ensures
        forall|i: int|
            0 <= i < r@.len() ==> id_records(*m).contains_key(#[trigger] r@[i].0) && r@[i].1
                == id_records(*m)[r@[i].0].1,
        forall|i: int|
            #![trigger r@[i]]
            forall|j: int| #![trigger r@[j]] 0 <= i < j < r@.len() ==> r@[i].0 != r@[j].0,
        forall|id: SubscriptionId|
            #[trigger] id_records(*m).contains_key(id) ==> exists|i: int|
                0 <= i < r@.len() && r@[i].0 == id,
{
    m.iter().map(|entry| (*entry.key(), entry.value().1.clone())).collect()
}

/// The abstract state of a fanout engine: each subscription's topic
/// and sink, each topic's subscriptions in order, and the last id
/// handed out.
pub struct FanoutView {
    pub subs: Map<SubscriptionId, Seq<char>>,
    pub sinks: Map<SubscriptionId, ConnectionSink>,
    pub lists: Map<Seq<char>, Seq<SubscriptionId>>,
    pub seq: u64,
}

/// The agreement of the two indexes: every id in a topic's list is
/// registered with that topic, and no registered id is above the last
/// one handed out.
pub open spec fn fanout_wf(v: FanoutView) -> bool {
    &&& v.subs.dom().finite()
    &&& v.sinks.dom() == v.subs.dom()
    &&& forall|id: SubscriptionId| #[trigger] v.subs.contains_key(id) ==> id.0 <= v.seq
    &&& forall|t: Seq<char>, id: SubscriptionId|
        v.lists.contains_key(t) && #[trigger] v.lists[t].contains(id) ==> v.subs.contains_key(id)
            && v.subs[id] == t
}

/// The subscriptions on `t`: its list, or none.
pub open spec fn list_of(v: FanoutView, t: Seq<char>) -> Seq<SubscriptionId> {
    if v.lists.contains_key(t) {
        v.lists[t]
    } else {
        Seq::empty()
    }
}

/// `s` without `id`, order kept.
pub open spec fn without(s: Seq<SubscriptionId>, id: SubscriptionId) -> Seq<SubscriptionId>
    decreases s.len(),
{
    if s.len() == 0 {
        s
    } else if s.last() == id {
        without(s.drop_last(), id)
    } else {
        without(s.drop_last(), id).push(s.last())
    }
}

/// The ids and topics after a subscription to `t`, and its id: the
/// next id, registered with `t` and appended to `t`'s list (the new
/// subscription's sink is registered beside it by `subscribe`).
pub open spec fn subscribe_step(v: FanoutView, t: Seq<char>) -> (FanoutView, SubscriptionId) {
    let id = SubscriptionId((v.seq + 1) as u64);
    (
        FanoutView {
            subs: v.subs.insert(id, t),
            sinks: v.sinks,
            lists: v.lists.insert(t, list_of(v, t).push(id)),
            seq: (v.seq + 1) as u64,
        },
        id,
    )
}

/// The state after removing subscription `id`, and its topic: an
/// unknown id changes nothing; a registered one leaves the id index and
/// its topic's list.
pub open spec fn unsubscribe_step(v: FanoutView, id: SubscriptionId) -> (
    FanoutView,
    Option<Seq<char>>,
) {
    if v.subs.contains_key(id) {
        let t = v.subs[id];
        (
            FanoutView {
                subs: v.subs.remove(id),
                sinks: v.sinks.remove(id),
                lists: if v.lists.contains_key(t) {
                    v.lists.insert(t, without(v.lists[t], id))
                } else {
                    v.lists
                },
                seq: v.seq,
            },
            Some(t),
        )
    } else {
        (v, None)
    }
}

/// The state after removing the subscriptions `ids` in order, and the
/// topics of those that were registered, in the same order.
pub open spec fn unsubscribe_all_step(v: FanoutView, ids: Seq<SubscriptionId>) -> (
    FanoutView,
    Seq<Seq<char>>,
)
    decreases ids.len(),
{
    if ids.len() == 0 {
        (v, Seq::empty())
    } else {
        let (v1, topics) = unsubscribe_all_step(v, ids.drop_last());
        let (v2, t) = unsubscribe_step(v1, ids.last());
        match t {
            Some(t) => (v2, topics.push(t)),
            None => (v2, topics),
        }
    }
}

/// The text of each string, in order.
pub open spec fn texts(s: Seq<String>) -> Seq<Seq<char>> {
    Seq::new(s.len(), |i: int| s[i]@)
}

proof fn lemma_without_subset(s: Seq<SubscriptionId>, id: SubscriptionId, x: SubscriptionId)
    requires
        without(s, id).contains(x),
    ensures
        s.contains(x),
        x != id,
    decreases s.len(),
{
    if s.len() > 0 {
        let w = without(s.drop_last(), id);
        if s.last() == id {
            lemma_without_subset(s.drop_last(), id, x);
        } else if x == s.last() {
        } else {
            let k = choose|k: int| 0 <= k < without(s, id).len() && without(s, id)[k] == x;
            assert(w.contains(x)) by {
                assert(w[k] == x);
            }
            lemma_without_subset(s.drop_last(), id, x);
        }
        if !(x == s.last()) {
            let j = choose|j: int| 0 <= j < s.drop_last().len() && s.drop_last()[j] == x;
            assert(s[j] == x);
        }
    }
}

proof fn lemma_without_absent(s: Seq<SubscriptionId>, id: SubscriptionId)
    requires
        !s.contains(id),
    ensures
        without(s, id) == s,
    decreases s.len(),
{
    if s.len() > 0 {
        assert(!s.drop_last().contains(id)) by {
            if s.drop_last().contains(id) {
                let j = choose|j: int| 0 <= j < s.drop_last().len() && s.drop_last()[j] == id;
                assert(s[j] == id);
            }
        }
        lemma_without_absent(s.drop_last(), id);
        assert(s.last() != id) by {
            assert(s[s.len() - 1] == s.last());
        }
        assert(s.drop_last().push(s.last()) =~= s);
    }
}

/// The sixteen bytes of a fresh random (version 4) UUID: random but for
/// the version nibble (4, the high half of byte 6) and the variant bits
/// (`10`, the top of byte 8) that `Uuid::new_v4` sets.
#[verifier::external_body]
fn random_uuid_bytes() -> (r: [u8; 16])
    ensures
        r@[6] >> 4u8 == 4u8,
        r@[8] >> 6u8 == 2u8,
{
    *uuid::Uuid::new_v4().as_bytes()
}

/// The little-endian value of the first eight bytes of `b`.
pub open spec fn le_u64_value(b: Seq<u8>) -> int {
    b[0] + 256 * (b[1] + 256 * (b[2] + 256 * (b[3] + 256 * (b[4] + 256 * (b[5] + 256 * (b[6]
        + 256 * b[7]))))))
}

/// A fresh sink identifier: the first eight bytes of a random UUID read
/// as a little-endian integer.
pub fn new_sink_id() -> (r: u64)
    ensures
        exists|b: Seq<u8>|
            b.len() == 16 && b[6] >> 4u8 == 4u8 && b[8] >> 6u8 == 2u8 && r == le_u64_value(b),
{
    let b = random_uuid_bytes();
    let v: u64 = (b[0] as u64) + 256 * ((b[1] as u64) + 256 * ((b[2] as u64) + 256 * ((b[3] as u64)
        + 256 * ((b[4] as u64) + 256 * ((b[5] as u64) + 256 * ((b[6] as u64) + 256 * (b[7] as u64)))))));
    assert(v == le_u64_value(b@));
    v
}

/// Fanout laws: subscribing hands out an id that no subscription had
/// and adds one subscription to the topic and to the total; removing
/// that subscription again gives back its topic and restores the set of
/// subscriptions and every topic's list; removing an unknown id changes
/// nothing.
pub proof fn lemma_fanout_laws(v: FanoutView, t: Seq<char>, other: SubscriptionId)
    requires
        fanout_wf(v),
        v.seq < u64::MAX,
    ensures
        ({
            let (v1, id) = subscribe_step(v, t);
            let (v2, back) = unsubscribe_step(v1, id);
            &&& !v.subs.contains_key(id)
            &&& v1.subs.len() == v.subs.len() + 1
            &&& list_of(v1, t).len() == list_of(v, t).len() + 1
            &&& back == Some(t)
            &&& v2.subs == v.subs
            &&& v2.sinks == v.sinks
            &&& forall|t2: Seq<char>| #[trigger] list_of(v2, t2) == list_of(v, t2)
        }),
        !v.subs.contains_key(other) ==> unsubscribe_step(v, other).0 == v && unsubscribe_step(
            v,
            other,
        ).1 is None,
{
    let (v1, id) = subscribe_step(v, t);
    let (v2, back) = unsubscribe_step(v1, id);
    assert(!v.subs.contains_key(id));
    assert(!v.sinks.contains_key(id));
    assert(!list_of(v, t).contains(id)) by {
        if list_of(v, t).contains(id) {
            assert(v.lists.contains_key(t) && v.lists[t].contains(id));
        }
    }
    assert(v1.subs.dom() =~= v.subs.dom().insert(id));
    assert(v1.lists[t].drop_last() =~= list_of(v, t));
    lemma_without_absent(list_of(v, t), id);
    assert(v2.subs =~= v.subs);
    assert(v2.sinks =~= v.sinks);
    assert forall|t2: Seq<char>| #[trigger] list_of(v2, t2) == list_of(v, t2) by {
        if t2 == t {
            assert(list_of(v2, t2) == without(v1.lists[t], id));
        }
    }
}

/// The number of `true` answers.
pub open spec fn accepted_count(answers: Seq<bool>) -> nat
    decreases answers.len(),
{
    if answers.len() == 0 {
        0
    } else {
        accepted_count(answers.drop_last()) + if answers.last() {
            1nat
        } else {
            0nat
        }
    }
}

proof fn lemma_accepted_count_bound(answers: Seq<bool>)
    ensures
        accepted_count(answers) <= answers.len(),
    decreases answers.len(),
{
    if answers.len() > 0 {
        lemma_accepted_count_bound(answers.drop_last());
    }
}

/// Counts the sinks that accepted a frame, given each sink's answer.
pub fn count_accepted(answers: &Vec<bool>) -> (r: usize)
    ensures
        r == accepted_count(answers@),
{
    let mut n: usize = 0;
    let mut i: usize = 0;
    while i < answers.len()
        invariant
            i <= answers@.len(),
            n == accepted_count(answers@.take(i as int)),
            n <= i,
        decreases answers.len() - i,
    {
        assert(answers@.take(i as int + 1).drop_last() =~= answers@.take(i as int));
        if answers[i] {
            n = n + 1;
        }
        i = i + 1;
    }
    assert(answers@.take(answers.len() as int) =~= answers@);
    n
}

/// The subscriptions whose sink answered `sink_id`, in the order asked.
pub open spec fn reporting(answers: Seq<(SubscriptionId, u64)>, sink_id: u64) -> Seq<SubscriptionId>
    decreases answers.len(),
{
    if answers.len() == 0 {
        Seq::empty()
    } else if answers.last().1 == sink_id {
        reporting(answers.drop_last(), sink_id).push(answers.last().0)
    } else {
        reporting(answers.drop_last(), sink_id)
    }
}

/// The subscriptions whose sink reported `sink_id`, given each
/// subscription's answer, in order.
pub fn ids_reporting(answers: &Vec<(SubscriptionId, u64)>, sink_id: u64) -> (r: Vec<SubscriptionId>)
    ensures
        r@ == reporting(answers@, sink_id),
{
    let mut out: Vec<SubscriptionId> = Vec::new();
    let mut i: usize = 0;
    while i < answers.len()
        invariant
            i <= answers@.len(),
            out@ == reporting(answers@.take(i as int), sink_id),
        decreases answers.len() - i,
    {
        assert(answers@.take(i as int + 1).drop_last() =~= answers@.take(i as int));
        let (id, reported) = answers[i];
        if reported == sink_id {
            out.push(id);
        }
        i = i + 1;
    }
    assert(answers@.take(answers.len() as int) =~= answers@);
    out
}

proof fn lemma_lists_after_insert(a: TopicMap, b: TopicMap, t: Seq<char>, l: Seq<TopicEntry>)
    requires
        topic_entries(b) == topic_entries(a).insert(t, l),
    ensures
        topic_lists(b) == topic_lists(a).insert(t, ids_of(l)),
{
    assert(topic_lists(b) =~= topic_lists(a).insert(t, ids_of(l)));
}

proof fn lemma_ids_after_insert(a: IdMap, b: IdMap, id: SubscriptionId)
    requires
        id_records(b).remove(id) == id_records(a).remove(id),
        id_records(b).contains_key(id),
    ensures
        id_entries(b) == id_entries(a).insert(id, id_records(b)[id].0),
        id_sinks(b).remove(id) == id_sinks(a).remove(id),
        id_sinks(b).contains_key(id),
        id_sinks(b)[id] == id_records(b)[id].1,
{
    assert forall|x: SubscriptionId| x != id implies #[trigger] id_records(b).contains_key(x)
        == id_records(a).contains_key(x) && (id_records(a).contains_key(x) ==> id_records(b)[x]
        == id_records(a)[x]) by {
        assert(id_records(b).remove(id).contains_key(x) == id_records(b).contains_key(x));
        assert(id_records(a).remove(id).contains_key(x) == id_records(a).contains_key(x));
        if id_records(a).contains_key(x) {
            assert(id_records(b).remove(id)[x] == id_records(b)[x]);
            assert(id_records(a).remove(id)[x] == id_records(a)[x]);
        }
    }
    assert(id_entries(b) =~= id_entries(a).insert(id, id_records(b)[id].0));
    assert(id_sinks(b).remove(id) =~= id_sinks(a).remove(id));
}

proof fn lemma_ids_after_remove(a: IdMap, b: IdMap, id: SubscriptionId)
    requires
        id_records(b) == id_records(a).remove(id),
    ensures
        id_entries(b) == id_entries(a).remove(id),
        id_sinks(b) == id_sinks(a).remove(id),
{
    assert(id_entries(b) =~= id_entries(a).remove(id));
    assert(id_sinks(b) =~= id_sinks(a).remove(id));
}

proof fn lemma_ids_dom(m: IdMap)
    ensures
        id_entries(m).dom() == id_records(m).dom(),
        id_sinks(m).dom() == id_records(m).dom(),
{
    assert(id_entries(m).dom() =~= id_records(m).dom());
    assert(id_sinks(m).dom() =~= id_records(m).dom());
}

/// Hands `frame` to `sink`; whether the sink accepted it. What a sink
/// answers is up to the sink.
pub fn hand_frame(sink: &ConnectionSink, frame: Bytes) -> bool {
    sink.deliver(frame).is_ok()
}

/// The sink registered in `sinks` under `id` was handed a frame with
/// the bytes `frame` and answered: it accepted it exactly when
/// `accepted`.
pub open spec fn sink_answered(
    sinks: Map<SubscriptionId, ConnectionSink>,
    id: SubscriptionId,
    frame: Seq<u8>,
    accepted: bool,
) -> bool {
    exists|f: Bytes| bytes_content(f) == frame && #[trigger] call_ensures(hand_frame, (&sinks[id], f), accepted)
}

/// In-process fanout engine: subscriptions grouped by topic and indexed
/// by id.
pub struct FanoutEngine {
    by_topic: TopicMap,
    by_id: IdMap,
    seq: u64,
}

impl View for FanoutEngine {
    type V = FanoutView;

    closed spec fn view(&self) -> FanoutView {
        FanoutView {
            subs: id_entries(self.by_id),
            sinks: id_sinks(self.by_id),
            lists: topic_lists(self.by_topic),
            seq: self.seq,
        }
    }
}

impl FanoutEngine {
    /// The sink a topic's list holds for a subscription is the one the
    /// id index holds for it.
    #[verifier::type_invariant]
    spec fn sinks_agree(self) -> bool {
        forall|t: Seq<char>, k: int|
            #![trigger topic_entries(self.by_topic)[t][k]]
            topic_entries(self.by_topic).contains_key(t) && 0 <= k < topic_entries(self.by_topic)[t].len()
                && id_records(self.by_id).contains_key(topic_entries(self.by_topic)[t][k].0)
                ==> topic_entries(self.by_topic)[t][k].1 == id_records(
                self.by_id,
            )[topic_entries(self.by_topic)[t][k].0].1
    }
}

/// The state of an engine without subscriptions.
pub open spec fn empty_fanout() -> FanoutView {
    FanoutView {
        subs: no_ids(),
        sinks: Map::<SubscriptionId, ConnectionSink>::empty(),
        lists: no_topics(),
        seq: 0,
    }
}

pub(crate) fn with_sink<A, S: ?Sized>(a: A, sink: Arc<S>) -> (r: (A, Arc<S>))
    ensures
        r.0 == a,
        r.1 == sink,
{
    (a, sink)
}

fn retain_others(list: &Vec<TopicEntry>, id: SubscriptionId) -> (r: Vec<TopicEntry>)
    ensures
        ids_of(r@) == without(ids_of(list@), id),
        forall|k: int| 0 <= k < r@.len() ==> exists|j: int| 0 <= j < list@.len() && #[trigger] r@[k] == list@[j],
{
    let mut out: Vec<TopicEntry> = Vec::new();
    let mut i: usize = 0;
    while i < list.len()
        invariant
            i <= list.len(),
            ids_of(out@) == without(ids_of(list@).take(i as int), id),
            forall|k: int| 0 <= k < out@.len() ==> exists|j: int| 0 <= j < list@.len() && #[trigger] out@[k] == list@[j],
        decreases list.len() - i,
    {
        let sid = list[i].0;
        let ghost before = out@;
        if sid != id {
            let sink = share(&list[i].1);
            let e = with_sink(sid, sink);
            assert(e == list@[i as int]);
            out.push(e);
            assert(ids_of(out@) =~= ids_of(before).push(sid));
            assert forall|k: int| 0 <= k < out@.len() implies exists|j: int|
                0 <= j < list@.len() && #[trigger] out@[k] == list@[j] by {
                if k < before.len() {
                    assert(out@[k] == before[k]);
                } else {
                    assert(out@[k] == list@[i as int]);
                }
            }
        }
        assert(ids_of(list@).take(i as int + 1).drop_last() =~= ids_of(list@).take(i as int));
        i = i + 1;
    }
    assert(ids_of(list@).take(list.len() as int) =~= ids_of(list@));
    out
}

impl FanoutEngine {
    /// An engine without subscriptions.
    pub fn new() -> (r: FanoutEngine)
        ensures
            r@ == empty_fanout(),
            fanout_wf(r@),
    {
        let r = FanoutEngine { by_topic: topics_new(), by_id: ids_new(), seq: 0 };
        proof {
            assert(r@.subs =~= no_ids());
            assert(r@.sinks =~= Map::<SubscriptionId, ConnectionSink>::empty());
            assert(r@.lists =~= no_topics());
        }
        r
    }

    /// Subscribes `sink` to `topic` and returns the new subscription's
    /// id: the next one in sequence, registered with `sink` and appended
    /// to the topic's list.
    pub fn subscribe(&mut self, topic: &str, intent: SubscribeIntent, sink: ConnectionSink) -> (r:
        SubscriptionId)
        requires
            fanout_wf(old(self)@),
            old(self)@.seq < u64::MAX,
        ensures
            final(self)@.subs == subscribe_step(old(self)@, topic@).0.subs,
            final(self)@.lists == subscribe_step(old(self)@, topic@).0.lists,
            final(self)@.seq == subscribe_step(old(self)@, topic@).0.seq,
            r == subscribe_step(old(self)@, topic@).1,
            final(self)@.sinks.contains_key(r),
            final(self)@.sinks[r] == sink,
            final(self)@.sinks.remove(r) == old(self)@.sinks,
            fanout_wf(final(self)@),
    {
        proof {
            use_type_invariant(&*self);
        }
        let ghost v = self@;
        let ghost old_ids = self.by_id;
        let ghost old_topics = self.by_topic;
        let mut by_topic = topics_new();
        std::mem::swap(&mut by_topic, &mut self.by_topic);
        let mut by_id = ids_new();
        std::mem::swap(&mut by_id, &mut self.by_id);
        self.seq = self.seq + 1;
        let id = SubscriptionId(self.seq);
        let mut list = match topics_get(&by_topic, topic) {
            Some(l) => l,
            None => Vec::new(),
        };
        let ghost before = list@;
        let pushed = share(&sink);
        let e = with_sink(id, pushed);
        list.push(e);
        assert(ids_of(list@) =~= list_of(v, topic@).push(id)) by {
            assert(ids_of(list@) =~= ids_of(before).push(id));
        }
        topics_insert(&mut by_topic, topic.to_owned(), list);
        let entry = with_sink(topic.to_owned(), sink);
        ids_insert(&mut by_id, id, entry);
        proof {
            lemma_ids_after_insert(old_ids, by_id, id);
            lemma_lists_after_insert(old_topics, by_topic, topic@, list@);
            lemma_ids_dom(old_ids);
            lemma_ids_dom(by_id);
            assert(!id_records(old_ids).contains_key(id)) by {
                if id_records(old_ids).contains_key(id) {
                    assert(v.subs.contains_key(id));
                }
            }
            let te = topic_entries(by_topic);
            let ir = id_records(by_id);
            assert forall|t: Seq<char>, k: int|
                te.contains_key(t) && 0 <= k < te[t].len() && ir.contains_key(#[trigger] te[t][k].0)
                    implies te[t][k].1 == ir[te[t][k].0].1 by {
                if t == topic@ && k == before.len() {
                    assert(te[t][k] == e);
                    assert(ir[id].1 == entry.1);
                } else {
                    let x = te[t][k].0;
                    if t == topic@ {
                        assert(te[t][k] == topic_entries(old_topics)[t][k]);
                    } else {
                        assert(te[t][k] == topic_entries(old_topics)[t][k]);
                    }
                    if x == id {
                        assert(ids_of(topic_entries(old_topics)[t])[k] == x);
                        assert(v.lists[t].contains(x));
                        assert(false);
                    }
                    assert(topic_entries(old_topics)[t][k] == te[t][k]);
                    assert(id_records(by_id).remove(id)[x] == id_records(old_ids).remove(id)[x]);
                    assert(id_records(by_id).remove(id).contains_key(x));
                    assert(id_records(old_ids).contains_key(x));
                    assert(ir[x] == id_records(old_ids)[x]);
                }
            }
        }
        self.by_id = by_id;
        self.by_topic = by_topic;
        proof {
            let w = self@;
            assert(w.subs == v.subs.insert(id, topic@));
            assert(w.sinks.dom() =~= w.subs.dom());
            assert forall|t: Seq<char>, x: SubscriptionId|
                w.lists.contains_key(t) && #[trigger] w.lists[t].contains(x) implies w.subs.contains_key(x)
                && w.subs[x] == t by {
                if t == topic@ {
                    if x != id {
                        let k = choose|k: int| 0 <= k < w.lists[t].len() && w.lists[t][k] == x;
                        assert(list_of(v, t)[k] == x);
                        assert(v.lists.contains_key(t) && v.lists[t].contains(x));
                    }
                } else {
                    assert(v.lists[t].contains(x));
                    assert(v.subs.contains_key(x));
                }
            }
        }
        id
    }

    /// Removes subscription `id`; returns its topic when it existed.
    /// Every other subscription keeps its topic, sink and place.
    pub fn unsubscribe(&mut self, id: SubscriptionId) -> (r: Option<String>)
        requires
            fanout_wf(old(self)@),
        ensures
            final(self)@ == unsubscribe_step(old(self)@, id).0,
            r is Some <==> unsubscribe_step(old(self)@, id).1 is Some,
            r matches Some(t) ==> unsubscribe_step(old(self)@, id).1 == Some(t@),
            fanout_wf(final(self)@),
    {
        proof {
            use_type_invariant(&*self);
        }
        let ghost v = self@;
        let ghost old_ids = self.by_id;
        let ghost old_topics = self.by_topic;
        let mut by_id = ids_new();
        std::mem::swap(&mut by_id, &mut self.by_id);
        let removed = ids_remove(&mut by_id, id);
        self.by_id = by_id;
        match removed {
            Some(entry) => {
                let topic = entry.0;
                let mut by_topic = topics_new();
                std::mem::swap(&mut by_topic, &mut self.by_topic);
                let ghost kept_list: Seq<TopicEntry> = Seq::empty();
                match topics_get(&by_topic, topic.as_str()) {
                    Some(list) => {
                        let kept = retain_others(&list, id);
                        proof {
                            kept_list = kept@;
                        }
                        topics_insert(&mut by_topic, topic.clone(), kept);
                        proof {
                            lemma_lists_after_insert(old_topics, by_topic, topic@, kept_list);
                        }
                    },
                    None => {},
                }
                proof {
                    lemma_ids_after_remove(old_ids, self.by_id, id);
                    lemma_ids_dom(old_ids);
                    lemma_ids_dom(self.by_id);
                    let te = topic_entries(by_topic);
                    let ir = id_records(self.by_id);
                    let te0 = topic_entries(old_topics);
                    let ir0 = id_records(old_ids);
                    assert forall|t: Seq<char>, k: int|
                        te.contains_key(t) && 0 <= k < te[t].len() && ir.contains_key(#[trigger] te[t][k].0)
                            implies te[t][k].1 == ir[te[t][k].0].1 by {
                        if t == topic@ && te0.contains_key(t) {
                            let j = choose|j: int| 0 <= j < te0[t].len() && te[t][k] == te0[t][j];
                            assert(te0[t][j] == te[t][k]);
                        } else {
                            assert(te[t][k] == te0[t][k]);
                        }
                    }
                }
                self.by_topic = by_topic;
                proof {
                    let w = self@;
                    assert(w.subs == v.subs.remove(id));
                    assert(w.sinks == v.sinks.remove(id));
                    assert(w == unsubscribe_step(v, id).0);
                    assert(w.sinks.dom() =~= w.subs.dom());
                    assert forall|t: Seq<char>, x: SubscriptionId|
                        w.lists.contains_key(t) && #[trigger] w.lists[t].contains(x) implies w.subs.contains_key(x)
                        && w.subs[x] == t by {
                        if t == topic@ && v.lists.contains_key(t) {
                            lemma_without_subset(v.lists[t], id, x);
                        } else {
                            assert(v.lists[t].contains(x));
                            assert(v.subs[x] == t);
                        }
                    }
                }
                Some(topic)
            },
            None => {
                assert(self@.subs =~= v.subs);
                assert(self@.sinks =~= v.sinks);
                None
            },
        }
    }

    /// Removes the subscriptions `ids` in order; returns the topics of
    /// those that existed, in the same order.
    pub fn unsubscribe_all(&mut self, ids: &Vec<SubscriptionId>) -> (r: Vec<String>)
        requires
            fanout_wf(old(self)@),
        ensures
            final(self)@ == unsubscribe_all_step(old(self)@, ids@).0,
            texts(r@) == unsubscribe_all_step(old(self)@, ids@).1,
            fanout_wf(final(self)@),
    {
        let ghost v = self@;
        let mut topics: Vec<String> = Vec::new();
        let mut i: usize = 0;
        while i < ids.len()
            invariant
                i <= ids.len(),
                fanout_wf(self@),
                self@ == unsubscribe_all_step(v, ids@.take(i as int)).0,
                texts(topics@) == unsubscribe_all_step(v, ids@.take(i as int)).1,
            decreases ids.len() - i,
        {
            assert(ids@.take(i as int + 1).drop_last() =~= ids@.take(i as int));
            let ghost before = topics@;
            match self.unsubscribe(ids[i]) {
                Some(t) => {
                    topics.push(t);
                    assert(texts(topics@) =~= texts(before).push(t@));
                },
                None => {},
            }
            i = i + 1;
        }
        assert(ids@.take(ids.len() as int) =~= ids@);
        topics
    }

    /// Removes every subscription whose sink reports the identifier
    /// `sink_id`; returns their topics. Each registered subscription's
    /// sink (the one the view's `sinks` holds for it) is asked for its
    /// identifier once; the subscriptions whose answer is `sink_id` are
    /// removed in the order asked, as `unsubscribe_all` removes them.
    /// What a sink answers is up to the sink.
    pub fn drop_sink(&mut self, sink_id: u64) -> (r: Vec<String>)
        requires
            fanout_wf(old(self)@),
        ensures
            exists|answers: Seq<(SubscriptionId, u64)>|
                {
                    &&& forall|i: int|
                        0 <= i < answers.len() ==> old(self)@.subs.contains_key(#[trigger] answers[i].0)
                    &&& forall|i: int, j: int|
                        0 <= i < j < answers.len() ==> #[trigger] answers[i].0 != #[trigger] answers[j].0
                    &&& forall|id: SubscriptionId|
                        #[trigger] old(self)@.subs.contains_key(id) ==> exists|i: int|
                            0 <= i < answers.len() && answers[i].0 == id
                    &&& final(self)@ == unsubscribe_all_step(old(self)@, reporting(answers, sink_id)).0
                    &&& texts(r@) == unsubscribe_all_step(old(self)@, reporting(answers, sink_id)).1
                },
            fanout_wf(final(self)@),
    {
        let ghost v = self@;
        let entries = ids_sinks(&self.by_id);
        let mut answers: Vec<(SubscriptionId, u64)> = Vec::new();
        let mut i: usize = 0;
        while i < entries.len()
            invariant
                i <= entries.len(),
                answers@.len() == i,
                forall|k: int| 0 <= k < i ==> (#[trigger] answers@[k]).0 == entries@[k].0,
            decreases entries.len() - i,
        {
            let id = entries[i].0;
            let reported = entries[i].1.id();
            answers.push((id, reported));
            i = i + 1;
        }
        let ghost a = answers@;
        assert forall|k: int| 0 <= k < a.len() implies v.subs.contains_key(#[trigger] a[k].0) by {
            assert(a[k].0 == entries@[k].0);
        }
        assert forall|x: int, y: int| 0 <= x < y < a.len() implies #[trigger] a[x].0 != #[trigger] a[y].0 by {
            assert(a[x].0 == entries@[x].0);
            assert(a[y].0 == entries@[y].0);
            assert(entries@[x].0 != entries@[y].0);
        }
        assert forall|id: SubscriptionId| #[trigger] v.subs.contains_key(id) implies exists|k: int|
            0 <= k < a.len() && a[k].0 == id by {
            let k = choose|k: int| 0 <= k < entries@.len() && entries@[k].0 == id;
            assert(a[k].0 == id);
        }
        let ids = ids_reporting(&answers, sink_id);
        self.unsubscribe_all(&ids)
    }

    /// The subscriptions on `topic`, each with its registered sink, in
    /// subscription order.
    pub fn topic_sinks(&self, topic: &str) -> (r: Vec<TopicEntry>)
        ensures
            ids_of(r@) == list_of(self@, topic@),
            forall|k: int|
                0 <= k < r@.len() && self@.sinks.contains_key(#[trigger] r@[k].0) ==> r@[k].1
                    == self@.sinks[r@[k].0],
    {
        proof {
            use_type_invariant(self);
        }
        match topics_get(&self.by_topic, topic) {
            Some(list) => {
                proof {
                    assert forall|k: int|
                        0 <= k < list@.len() && self@.sinks.contains_key(#[trigger] list@[k].0) implies list@[k].1
                        == self@.sinks[list@[k].0] by {
                        assert(list@[k] == topic_entries(self.by_topic)[topic@][k]);
                    }
                }
                list
            },
            None => {
                assert(ids_of(Seq::<TopicEntry>::empty()) =~= Seq::<SubscriptionId>::empty());
                Vec::new()
            },
        }
    }

    /// Hands `frame` to every subscriber of `topic`, in subscription
    /// order (each subscription's registered sink, as `topic_sinks`
    /// lists them), and returns how many accepted it: one answer per
    /// subscriber, each the answer that subscriber's sink gave when
    /// handed the frame, each counted once. Whether a sink accepts is up
    /// to the sink.
    pub fn deliver(&self, topic: &str, frame: Bytes) -> (r: usize)
        ensures
            r <= list_of(self@, topic@).len(),
            exists|answers: Seq<bool>|
                answers.len() == list_of(self@, topic@).len() && r == #[trigger] accepted_count(
                    answers,
                ),
            exists|answers: Seq<bool>|
                {
                    &&& answers.len() == list_of(self@, topic@).len()
                    &&& r == accepted_count(answers)
                    &&& forall|i: int|
                        0 <= i < answers.len() && self@.sinks.contains_key(
                            #[trigger] list_of(self@, topic@)[i],
                        ) ==> sink_answered(
                            self@.sinks,
                            list_of(self@, topic@)[i],
                            bytes_content(frame),
                            answers[i],
                        )
                },
    {
        let list = self.topic_sinks(topic);
        let ghost sinks = self@.sinks;
        let mut answers: Vec<bool> = Vec::new();
        let mut i: usize = 0;
        while i < list.len()
            invariant
                i <= list.len(),
                answers@.len() == i,
                sinks == self@.sinks,
                forall|k: int|
                    0 <= k < list@.len() && sinks.contains_key(#[trigger] list@[k].0) ==> list@[k].1
                        == sinks[list@[k].0],
                forall|k: int|
                    0 <= k < i && sinks.contains_key(#[trigger] list@[k].0) ==> sink_answered(
                        sinks,
                        list@[k].0,
                        bytes_content(frame),
                        answers@[k],
                    ),
            decreases list.len() - i,
        {
            let f = frame.clone();
            let accepted = hand_frame(&list[i].1, f);
            proof {
                if sinks.contains_key(list@[i as int].0) {
                    assert(call_ensures(hand_frame, (&sinks[list@[i as int].0], f), accepted));
                }
            }
            answers.push(accepted);
            i = i + 1;
        }
        assert(ids_of(list@).len() == list@.len());
        let ok = count_accepted(&answers);
        proof {
            lemma_accepted_count_bound(answers@);
            assert forall|k: int|
                0 <= k < answers@.len() && self@.sinks.contains_key(
                    #[trigger] list_of(self@, topic@)[k],
                ) implies sink_answered(
                self@.sinks,
                list_of(self@, topic@)[k],
                bytes_content(frame),
                answers@[k],
            ) by {
                assert(ids_of(list@)[k] == list@[k].0);
            }
        }
        ok
    }

    /// The id handed out last; 0 before any subscription.
    pub fn last_id(&self) -> (r: u64)
        ensures
            r == self@.seq,
    {
        self.seq
    }

    /// Total number of registered subscriptions.
    pub fn subscription_count(&self) -> (r: usize)
        ensures
            r == self@.subs.len(),
    {
        proof {
            lemma_ids_dom(self.by_id);
        }
        ids_len(&self.by_id)
    }

    /// Number of subscriptions on `topic`.
    pub fn topic_subscriber_count(&self, topic: &str) -> (r: usize)
        ensures
            r == list_of(self@, topic@).len(),
    {
        match topics_get(&self.by_topic, topic) {
            Some(list) => {
                assert(ids_of(list@).len() == list@.len());
                list.len()
            },
            None => 0,
        }
    }
}

impl Default for FanoutEngine {
    /// An engine without subscriptions.
    fn default() -> (r: FanoutEngine)
        ensures
            r@ == empty_fanout(),
            fanout_wf(r@),
    {
        FanoutEngine::new()
    }
}

} // verus!
