//! Offset tracking: the last processed offset per topic, which drives
//! resume decisions.

use vstd::prelude::*;
use vstd::hash_map::StringHashMap;
use crate::session::session::SessionId;

verus! {

/// The map from topic names to offsets held by a list of pairs.
pub open spec fn pairs_map(s: Seq<(Seq<char>, i64)>) -> Map<Seq<char>, i64>
    decreases s.len(),
{
    if s.len() == 0 {
        Map::empty()
    } else {
        pairs_map(s.drop_last()).insert(s.last().0, s.last().1)
    }
}

/// No topic name occurs twice.
pub open spec fn keys_distinct(s: Seq<(Seq<char>, i64)>) -> bool {
    forall|i: int, j: int| 0 <= i < j < s.len() ==> s[i].0 != s[j].0
}

/// The position of `k` in a list of pairs without repeated names.
pub open spec fn key_index(s: Seq<(Seq<char>, i64)>, k: Seq<char>) -> int {
    choose|i: int| 0 <= i < s.len() && s[i].0 == k
}

/// The pairs after setting the offset of `k` to `v`: the pair of `k`
/// is updated where it stands, or a new pair is appended.
pub open spec fn pairs_insert(s: Seq<(Seq<char>, i64)>, k: Seq<char>, v: i64) -> Seq<
    (Seq<char>, i64),
> {
    if exists|i: int| 0 <= i < s.len() && s[i].0 == k {
        s.update(key_index(s, k), (k, v))
    } else {
        s.push((k, v))
    }
}

proof fn lemma_pairs_map_lookup(s: Seq<(Seq<char>, i64)>, k: Seq<char>)
    requires
        keys_distinct(s),
    ensures
        pairs_map(s).contains_key(k) <==> exists|i: int| 0 <= i < s.len() && s[i].0 == k,
        forall|i: int| 0 <= i < s.len() && s[i].0 == k ==> pairs_map(s)[k] == s[i].1,
    decreases s.len(),
{
    if s.len() > 0 {
        let t = s.drop_last();
        lemma_pairs_map_lookup(t, k);
        if exists|i: int| 0 <= i < s.len() && s[i].0 == k {
            let i = choose|i: int| 0 <= i < s.len() && s[i].0 == k;
            if i < s.len() - 1 {
                assert(t[i] == s[i]);
            }
        }
        if pairs_map(s).contains_key(k) {
            if s.last().0 != k {
                let i = choose|i: int| 0 <= i < t.len() && t[i].0 == k;
                assert(s[i] == t[i]);
            } else {
                assert(s[s.len() - 1].0 == k);
            }
        }
        assert forall|i: int| 0 <= i < s.len() && s[i].0 == k implies pairs_map(s)[k]
            == s[i].1 by {
            if i < s.len() - 1 {
                assert(t[i] == s[i]);
                assert(s[i].0 != s[s.len() - 1].0);
            }
        }
        assert forall|i: int| 0 <= i < t.len() && t[i].0 == k implies 0 <= i < s.len() && s[i].0
            == k by {
            assert(t[i] == s[i]);
        }
    }
}

proof fn lemma_pairs_map_update(s: Seq<(Seq<char>, i64)>, i: int, k: Seq<char>, v: i64)
    requires
        keys_distinct(s),
        0 <= i < s.len(),
        s[i].0 == k,
    ensures
        keys_distinct(s.update(i, (k, v))),
        pairs_map(s.update(i, (k, v))) == pairs_map(s).insert(k, v),
{
    let u = s.update(i, (k, v));
    assert forall|k2: Seq<char>| #[trigger]
        pairs_map(u).contains_key(k2) == pairs_map(s).insert(k, v).contains_key(k2) && (
        pairs_map(u).contains_key(k2) ==> pairs_map(u)[k2] == pairs_map(s).insert(k, v)[k2]) by {
        lemma_pairs_map_lookup(s, k2);
        lemma_pairs_map_lookup(u, k2);
        if k2 == k {
            assert(u[i].0 == k2);
        } else if pairs_map(s).contains_key(k2) {
            let j = choose|j: int| 0 <= j < s.len() && s[j].0 == k2;
            assert(u[j] == s[j]);
        } else if pairs_map(u).contains_key(k2) {
            let j = choose|j: int| 0 <= j < u.len() && u[j].0 == k2;
            assert(u[j] == s[j]);
        }
    }
    assert(pairs_map(u) =~= pairs_map(s).insert(k, v));
}

proof fn lemma_pairs_map_push(s: Seq<(Seq<char>, i64)>, k: Seq<char>, v: i64)
    requires
        keys_distinct(s),
        forall|i: int| 0 <= i < s.len() ==> s[i].0 != k,
    ensures
        keys_distinct(s.push((k, v))),
        pairs_map(s.push((k, v))) == pairs_map(s).insert(k, v),
{
    assert(s.push((k, v)).drop_last() == s);
}

/// Offsets per topic name: the last processed offset of a session, or
/// the head offset of each topic. Iteration follows insertion order.
pub struct TopicOffsets {
    entries: Vec<(String, i64)>,
}

impl TopicOffsets {
    /// The pairs in iteration order, names by their characters.
    pub closed spec fn pairs(&self) -> Seq<(Seq<char>, i64)> {
        self.entries@.map_values(|e: (String, i64)| (e.0@, e.1))
    }

    /// No topic name occurs twice.
    pub closed spec fn wf(&self) -> bool {
        keys_distinct(self.pairs())
    }

    /// An empty map.
    pub fn new() -> (r: TopicOffsets)
        ensures
            r.wf(),
            r.pairs() == Seq::<(Seq<char>, i64)>::empty(),
            r@ == Map::<Seq<char>, i64>::empty(),
    {
        let r = TopicOffsets { entries: Vec::new() };
        assert(r.pairs() =~= Seq::<(Seq<char>, i64)>::empty());
        r
    }

    /// Number of topics.
    pub fn len(&self) -> (r: usize)
        ensures
            r == self.pairs().len(),
    {
        self.entries.len()
    }

    /// Whether no topic has an offset.
    pub fn is_empty(&self) -> (r: bool)
        ensures
            r == (self.pairs().len() == 0),
    {
        self.entries.len() == 0
    }

    /// The pair at position `i` of the iteration order.
    pub fn entry_at(&self, i: usize) -> (r: (&String, i64))
        requires
            i < self.pairs().len(),
        ensures
            r.0@ == self.pairs()[i as int].0,
            r.1 == self.pairs()[i as int].1,
    {
        (&self.entries[i].0, self.entries[i].1)
    }

    fn find(&self, key: &String) -> (r: Option<usize>)
        requires
            self.wf(),
        ensures
            match r {
                Some(i) => i < self.pairs().len() && self.pairs()[i as int].0 == key@,
                None => forall|i: int| 0 <= i < self.pairs().len() ==> self.pairs()[i].0 != key@,
            },
    {
        let mut i: usize = 0;
        while i < self.entries.len()
            invariant
                0 <= i <= self.entries@.len(),
                self.pairs().len() == self.entries@.len(),
                forall|j: int| 0 <= j < i ==> self.pairs()[j].0 != key@,
            decreases self.entries@.len() - i,
        {
            if self.entries[i].0 == *key {
                return Some(i);
            }
            i = i + 1;
        }
        None
    }

    /// The offset of `topic`, if it has one.
    pub fn get(&self, topic: &str) -> (r: Option<&i64>)
        requires
            self.wf(),
        ensures
            match r {
                Some(v) => self@.contains_key(topic@) && *v == self@[topic@],
                None => !self@.contains_key(topic@),
            },
    {
        let key = topic.to_owned();
        proof {
            lemma_pairs_map_lookup(self.pairs(), topic@);
        }
        match self.find(&key) {
            Some(i) => Some(&self.entries[i].1),
            None => None,
        }
    }

    /// Sets the offset of `topic`.
    pub fn insert(&mut self, topic: String, offset: i64)
        requires
            old(self).wf(),
        ensures
            final(self).wf(),
            final(self)@ == old(self)@.insert(topic@, offset),
            final(self).pairs() == pairs_insert(old(self).pairs(), topic@, offset),
    {
        let ghost k = topic@;
        let ghost s = self.pairs();
        match self.find(&topic) {
            Some(i) => {
                self.entries.set(i, (topic, offset));
                proof {
                    lemma_pairs_map_update(s, i as int, k, offset);
                    assert(keys_distinct(s));
                    assert(exists|j: int| 0 <= j < s.len() && s[j].0 == k);
                    let c = key_index(s, k);
                    assert(c == i as int) by {
                        if c != i as int {
                            assert(s[c].0 == s[i as int].0);
                        }
                    }
                    assert(self.pairs() =~= s.update(i as int, (k, offset)));
                }
            },
            None => {
                self.entries.push((topic, offset));
                proof {
                    lemma_pairs_map_push(s, k, offset);
                    assert(self.pairs() =~= s.push((k, offset)));
                }
            },
        }
    }

    /// Removes the offset of `topic`, if any.
    pub fn remove(&mut self, topic: &str)
        requires
            old(self).wf(),
        ensures
            final(self).wf(),
            final(self)@ == old(self)@.remove(topic@),
    {
        let key = topic.to_owned();
        let ghost s = self.pairs();
        match self.find(&key) {
            Some(i) => {
                self.entries.remove(i);
                proof {
                    let t = self.pairs();
                    assert(t =~= s.remove(i as int));
                    assert(keys_distinct(t)) by {
                        assert forall|a: int, b: int| 0 <= a < b < t.len() implies t[a].0
                            != t[b].0 by {
                            let a2 = if a < i { a } else { a + 1 };
                            let b2 = if b < i { b } else { b + 1 };
                            assert(t[a] == s[a2]);
                            assert(t[b] == s[b2]);
                        }
                    }
                    assert forall|k2: Seq<char>| #[trigger]
                        pairs_map(t).contains_key(k2) == pairs_map(s).remove(
                            topic@,
                        ).contains_key(k2) && (pairs_map(t).contains_key(k2) ==> pairs_map(t)[k2]
                            == pairs_map(s)[k2]) by {
                        lemma_pairs_map_lookup(s, k2);
                        lemma_pairs_map_lookup(t, k2);
                        if pairs_map(t).contains_key(k2) {
                            let j = choose|j: int| 0 <= j < t.len() && t[j].0 == k2;
                            let j2 = if j < i { j } else { j + 1 };
                            assert(t[j] == s[j2]);
                        }
                        if pairs_map(s).contains_key(k2) && k2 != topic@ {
                            let j = choose|j: int| 0 <= j < s.len() && s[j].0 == k2;
                            assert(j != i);
                            let j2 = if j < i { j } else { j - 1 };
                            assert(t[j2] == s[j]);
                        }
                    }
                    assert(pairs_map(t) =~= pairs_map(s).remove(topic@));
                }
            },
            None => {
                proof {
                    lemma_pairs_map_lookup(s, topic@);
                    assert(pairs_map(s) =~= pairs_map(s).remove(topic@));
                }
            },
        }
    }
}

impl View for TopicOffsets {
    type V = Map<Seq<char>, i64>;

    closed spec fn view(&self) -> Map<Seq<char>, i64> {
        pairs_map(self.pairs())
    }
}

impl Clone for TopicOffsets {
    /// A copy with the same pairs in the same order.
    fn clone(&self) -> (r: TopicOffsets)
        ensures
            r.pairs() == self.pairs(),
            r@ == self@,
            r.wf() == self.wf(),
    {
        let mut entries: Vec<(String, i64)> = Vec::new();
        let mut i: usize = 0;
        while i < self.entries.len()
            invariant
                0 <= i <= self.entries@.len(),
                entries@.len() == i,
                forall|j: int| 0 <= j < i ==> entries@[j].0@ == self.entries@[j].0@ && entries@[j].1
                    == self.entries@[j].1,
            decreases self.entries@.len() - i,
        {
            entries.push((self.entries[i].0.clone(), self.entries[i].1));
            i = i + 1;
        }
        let r = TopicOffsets { entries };
        assert(r.pairs() =~= self.pairs());
        r
    }
}


/// Per-session offset tracker: the last offset each session processed
/// on each topic.
pub struct OffsetTracker {
    inner: StringHashMap<TopicOffsets>,
}

impl View for OffsetTracker {
    type V = Map<Seq<char>, Map<Seq<char>, i64>>;

    closed spec fn view(&self) -> Map<Seq<char>, Map<Seq<char>, i64>> {
        Map::new(|k: Seq<char>| self.inner@.contains_key(k), |k: Seq<char>| self.inner@[k]@)
    }
}

impl OffsetTracker {
    /// Every per-session map is well formed.
    pub closed spec fn wf(&self) -> bool {
        forall|k: Seq<char>| #[trigger] self.inner@.contains_key(k) ==> self.inner@[k].wf()
    }

    /// An empty tracker.
    pub fn new() -> (r: OffsetTracker)
        ensures
            r.wf(),
            r@ == Map::<Seq<char>, Map<Seq<char>, i64>>::empty(),
    {
        let r = OffsetTracker { inner: StringHashMap::new() };
        assert(r@ =~= Map::<Seq<char>, Map<Seq<char>, i64>>::empty());
        r
    }

    /// Records the latest offset `session` has processed on `topic`.
    pub fn record(&mut self, session: &SessionId, topic: &str, offset: i64)
        requires
            old(self).wf(),
        ensures
            final(self).wf(),
            final(self)@ == old(self)@.insert(
                session.0@,
                (if old(self)@.contains_key(session.0@) {
                    old(self)@[session.0@]
                } else {
                    Map::empty()
                }).insert(topic@, offset),
            ),
    {
        let mut m = match self.inner.get(session.as_str()) {
            Some(existing) => existing.clone(),
            None => TopicOffsets::new(),
        };
        m.insert(topic.to_owned(), offset);
        self.inner.insert(session.0.clone(), m);
        proof {
            let expected = old(self)@.insert(
                session.0@,
                (if old(self)@.contains_key(session.0@) {
                    old(self)@[session.0@]
                } else {
                    Map::empty()
                }).insert(topic@, offset),
            );
            assert(self@ =~= expected);
        }
    }

    /// The last recorded offset of `session` on `topic`.
    pub fn get(&self, session: &SessionId, topic: &str) -> (r: Option<i64>)
        requires
            self.wf(),
        ensures
            r == (if self@.contains_key(session.0@) && self@[session.0@].contains_key(topic@) {
                Some(self@[session.0@][topic@])
            } else {
                None::<i64>
            }),
    {
        match self.inner.get(session.as_str()) {
            Some(m) => match m.get(topic) {
                Some(v) => Some(*v),
                None => None,
            },
            None => None,
        }
    }

    /// All recorded offsets of `session` (empty for an unknown session).
    pub fn snapshot(&self, session: &SessionId) -> (r: TopicOffsets)
        requires
            self.wf(),
        ensures
            r.wf(),
            r@ == (if self@.contains_key(session.0@) {
                self@[session.0@]
            } else {
                Map::empty()
            }),
    {
        match self.inner.get(session.as_str()) {
            Some(m) => m.clone(),
            None => TopicOffsets::new(),
        }
    }

    /// Drops everything recorded for `session`.
    pub fn forget(&mut self, session: &SessionId)
        requires
            old(self).wf(),
        ensures
            final(self).wf(),
            final(self)@ == old(self)@.remove(session.0@),
    {
        self.inner.remove(session.as_str());
        assert(self@ =~= old(self)@.remove(session.0@));
    }
}

/// Resume decision.
#[derive(Debug, Clone, Copy, PartialEq, Eq, Structural)]
pub enum ResumeDecision {
    /// Every topic is caught up.
    FullResume,
    /// Some topic is more than one offset behind.
    PartialResume,
    /// Some topic is behind, none by more than one offset.
    Replaying,
    /// Some topic is unknown to the server.
    SnapshotRequired,
    /// The client sent no offsets.
    ColdStart,
    /// The client is ahead of the server on some topic.
    Rejected,
}

/// Scanning the client's pairs in order, the verdict of the first topic
/// that the server does not know (`SnapshotRequired`) or on which the
/// client is ahead (`Rejected`), if any.
pub open spec fn first_problem(last: Seq<(Seq<char>, i64)>, heads: Map<Seq<char>, i64>) -> Option<
    ResumeDecision,
>
    decreases last.len(),
{
    if last.len() == 0 {
        None
    } else if !heads.contains_key(last[0].0) {
        Some(ResumeDecision::SnapshotRequired)
    } else if last[0].1 > heads[last[0].0] {
        Some(ResumeDecision::Rejected)
    } else {
        first_problem(last.drop_first(), heads)
    }
}

/// The client is behind the server on at least one topic.
pub open spec fn any_behind(last: Seq<(Seq<char>, i64)>, heads: Map<Seq<char>, i64>) -> bool {
    exists|i: int| 0 <= i < last.len() && last[i].1 < heads[last[i].0]
}

/// On every topic the client is at most one offset behind.
pub open spec fn all_within_one(last: Seq<(Seq<char>, i64)>, heads: Map<Seq<char>, i64>) -> bool {
    forall|i: int| 0 <= i < last.len() ==> last[i].1 >= heads[last[i].0] - 1
}

/// The resume decision for the client's offsets `last` (in iteration
/// order) against the server's head offsets `heads`: a cold start
/// without offsets; else the verdict of the first unknown or ahead
/// topic; else replaying when behind on some topic by at most one
/// offset everywhere, a partial resume when further behind somewhere,
/// and a full resume when caught up everywhere.
pub open spec fn resume_decision(last: Seq<(Seq<char>, i64)>, heads: Map<Seq<char>, i64>) -> ResumeDecision {
    if last.len() == 0 {
        ResumeDecision::ColdStart
    } else if first_problem(last, heads) is Some {
        first_problem(last, heads).unwrap()
    } else if any_behind(last, heads) && all_within_one(last, heads) {
        ResumeDecision::Replaying
    } else if any_behind(last, heads) {
        ResumeDecision::PartialResume
    } else {
        ResumeDecision::FullResume
    }
}

proof fn lemma_first_problem_skip(last: Seq<(Seq<char>, i64)>, heads: Map<Seq<char>, i64>, i: int)
    requires
        0 <= i <= last.len(),
        forall|j: int|
            0 <= j < i ==> heads.contains_key(#[trigger] last[j].0) && last[j].1 <= heads[last[j].0],
    ensures
        first_problem(last, heads) == first_problem(last.subrange(i, last.len() as int), heads),
    decreases i,
{
    if i > 0 {
        let d = last.drop_first();
        assert forall|j: int| 0 <= j < i - 1 implies heads.contains_key(#[trigger] d[j].0)
            && d[j].1 <= heads[d[j].0] by {
            assert(d[j] == last[j + 1]);
        }
        lemma_first_problem_skip(d, heads, i - 1);
        assert(d.subrange(i - 1, d.len() as int) == last.subrange(i, last.len() as int));
        assert(heads.contains_key(last[0].0) && last[0].1 <= heads[last[0].0]);
    } else {
        assert(last.subrange(0, last.len() as int) == last);
    }
}

/// The client names `last[i].0`, which the server does not know.
pub open spec fn topic_missing(last: Seq<(Seq<char>, i64)>, heads: Map<Seq<char>, i64>, i: int) -> bool {
    0 <= i < last.len() && !heads.contains_key(last[i].0)
}

/// The client is ahead of the server on `last[i].0`.
pub open spec fn topic_ahead(last: Seq<(Seq<char>, i64)>, heads: Map<Seq<char>, i64>, i: int) -> bool {
    0 <= i < last.len() && heads.contains_key(last[i].0) && last[i].1 > heads[last[i].0]
}

/// Topic `last[i].0` is no problem: the server knows it and the client
/// is not ahead on it.
pub open spec fn topic_ok(last: Seq<(Seq<char>, i64)>, heads: Map<Seq<char>, i64>, i: int) -> bool {
    !topic_missing(last, heads, i) && !topic_ahead(last, heads, i)
}

proof fn lemma_first_problem_cases(last: Seq<(Seq<char>, i64)>, heads: Map<Seq<char>, i64>)
    ensures
        first_problem(last, heads) is None <==> (forall|i: int| #[trigger] topic_ok(last, heads, i)),
        first_problem(last, heads) == Some(ResumeDecision::SnapshotRequired) ==> exists|i: int|
            #[trigger] topic_missing(last, heads, i),
        first_problem(last, heads) == Some(ResumeDecision::Rejected) ==> exists|i: int|
            #[trigger] topic_ahead(last, heads, i),
        first_problem(last, heads) is Some ==> first_problem(last, heads) == Some(
            ResumeDecision::SnapshotRequired,
        ) || first_problem(last, heads) == Some(ResumeDecision::Rejected),
    decreases last.len(),
{
    if last.len() == 0 {
        assert forall|i: int| #[trigger] topic_ok(last, heads, i) by {}
    } else if topic_missing(last, heads, 0) {
        assert(!topic_ok(last, heads, 0));
    } else if topic_ahead(last, heads, 0) {
        assert(!topic_ok(last, heads, 0));
    } else {
        let d = last.drop_first();
        lemma_first_problem_cases(d, heads);
        assert(first_problem(last, heads) == first_problem(d, heads));
        assert forall|i: int| #![trigger topic_missing(d, heads, i)] #![trigger topic_ahead(d, heads, i)]
            0 <= i < d.len() implies topic_missing(d, heads, i) == topic_missing(last, heads, i + 1)
            && topic_ahead(d, heads, i) == topic_ahead(last, heads, i + 1) by {
            assert(d[i] == last[i + 1]);
        }
        if first_problem(d, heads) is None {
            assert forall|i: int| #[trigger] topic_ok(last, heads, i) by {
                if 0 < i < last.len() {
                    assert(topic_ok(d, heads, i - 1));
                }
            }
        } else {
            if first_problem(d, heads) == Some(ResumeDecision::SnapshotRequired) {
                let j = choose|j: int| #[trigger] topic_missing(d, heads, j);
                assert(topic_missing(last, heads, j + 1));
                assert(!topic_ok(last, heads, j + 1));
            }
            if first_problem(d, heads) == Some(ResumeDecision::Rejected) {
                let j = choose|j: int| #[trigger] topic_ahead(d, heads, j);
                assert(topic_ahead(last, heads, j + 1));
                assert(!topic_ok(last, heads, j + 1));
            }
        }
    }
}

/// Problem topics decide the outcome: when some topic the client names
/// is unknown to the server or the client is ahead on it, the decision
/// is `SnapshotRequired` or `Rejected`; with only unknown topics it is
/// `SnapshotRequired`, with only topics the client is ahead on it is
/// `Rejected`; and without problem topics it is a resume or replay.
pub proof fn lemma_decide_problems(last: Seq<(Seq<char>, i64)>, heads: Map<Seq<char>, i64>)
    requires
        last.len() > 0,
    ensures
        (exists|i: int| #[trigger] topic_missing(last, heads, i)) || (exists|i: int|
            #[trigger] topic_ahead(last, heads, i)) ==> resume_decision(last, heads)
            == ResumeDecision::SnapshotRequired || resume_decision(last, heads)
            == ResumeDecision::Rejected,
        (exists|i: int| #[trigger] topic_missing(last, heads, i)) && !(exists|i: int|
            #[trigger] topic_ahead(last, heads, i)) ==> resume_decision(last, heads)
            == ResumeDecision::SnapshotRequired,
        !(exists|i: int| #[trigger] topic_missing(last, heads, i)) && (exists|i: int|
            #[trigger] topic_ahead(last, heads, i)) ==> resume_decision(last, heads)
            == ResumeDecision::Rejected,
        !(exists|i: int| #[trigger] topic_missing(last, heads, i)) && !(exists|i: int|
            #[trigger] topic_ahead(last, heads, i)) ==> resume_decision(last, heads)
            != ResumeDecision::SnapshotRequired && resume_decision(last, heads)
            != ResumeDecision::Rejected && resume_decision(last, heads) != ResumeDecision::ColdStart,
{
    lemma_first_problem_cases(last, heads);
    let fp = first_problem(last, heads);
    let m = exists|i: int| #[trigger] topic_missing(last, heads, i);
    let a = exists|i: int| #[trigger] topic_ahead(last, heads, i);
    if m {
        let i = choose|i: int| #[trigger] topic_missing(last, heads, i);
        assert(!topic_ok(last, heads, i));
        assert(fp is Some);
    }
    if a {
        let i = choose|i: int| #[trigger] topic_ahead(last, heads, i);
        assert(topic_ahead(last, heads, i));
        assert(!topic_ok(last, heads, i));
        assert(fp is Some);
    }
    if fp is Some {
        assert(resume_decision(last, heads) == fp.unwrap());
        assert(fp == Some(ResumeDecision::SnapshotRequired) || fp == Some(ResumeDecision::Rejected));
    } else {
        assert(resume_decision(last, heads) != ResumeDecision::SnapshotRequired);
        assert(resume_decision(last, heads) != ResumeDecision::Rejected);
    }
}

/// Decide what to do with a resume attempt given the client's last
/// offsets and the server's current head offset per topic.
pub fn decide(last_offsets: &TopicOffsets, topic_offsets: &TopicOffsets) -> (r: ResumeDecision)
    requires
        topic_offsets.wf(),
        forall|i: int|
            0 <= i < last_offsets.pairs().len() && topic_offsets@.contains_key(
                #[trigger] last_offsets.pairs()[i].0,
            ) && topic_offsets@[last_offsets.pairs()[i].0] == i64::MIN ==> last_offsets.pairs()[i].1
                != i64::MIN,
    ensures
        r == resume_decision(last_offsets.pairs(), topic_offsets@),
{
    let ghost last = last_offsets.pairs();
    let ghost heads = topic_offsets@;
    if last_offsets.is_empty() {
        return ResumeDecision::ColdStart;
    }
    let mut all_within = true;
    let mut behind = false;
    let n = last_offsets.len();
    let mut i: usize = 0;
    while i < n
        invariant
            n == last.len(),
            0 <= i <= n,
            last == last_offsets.pairs(),
            heads == topic_offsets@,
            topic_offsets.wf(),
            forall|k: int|
                0 <= k < last.len() && heads.contains_key(#[trigger] last[k].0) && heads[last[k].0]
                    == i64::MIN ==> last[k].1 != i64::MIN,
            forall|j: int|
                0 <= j < i ==> heads.contains_key(#[trigger] last[j].0) && last[j].1 <= heads[last[j].0],
            behind == exists|j: int| 0 <= j < i && last[j].1 < heads[last[j].0],
            all_within == forall|j: int| 0 <= j < i ==> last[j].1 >= heads[last[j].0] - 1,
        decreases n - i,
    {
        let (topic, offset) = last_offsets.entry_at(i);
        proof {
            lemma_first_problem_skip(last, heads, i as int);
            assert(last.subrange(i as int, last.len() as int)[0] == last[i as int]);
        }
        match topic_offsets.get(topic.as_str()) {
            None => {
                return ResumeDecision::SnapshotRequired;
            },
            Some(head) => {
                let h = *head;
                if offset > h {
                    return ResumeDecision::Rejected;
                }
                if offset < h {
                    behind = true;
                }
                if offset < h - 1 {
                    all_within = false;
                }
            },
        }
        i = i + 1;
    }
    proof {
        lemma_first_problem_skip(last, heads, n as int);
    }
    if behind && all_within {
        ResumeDecision::Replaying
    } else if behind {
        ResumeDecision::PartialResume
    } else {
        ResumeDecision::FullResume
    }
}

/// When the server knows every topic the client names and the client is
/// ahead nowhere, the decision is a full resume exactly when the client
/// is caught up everywhere, and otherwise replaying or a partial resume.
pub proof fn lemma_decide_known_topics(last: Seq<(Seq<char>, i64)>, heads: Map<Seq<char>, i64>)
    requires
        last.len() > 0,
        forall|i: int|
            0 <= i < last.len() ==> heads.contains_key(#[trigger] last[i].0) && last[i].1
                <= heads[last[i].0],
    ensures
        resume_decision(last, heads) == ResumeDecision::FullResume <==> (forall|i: int|
            0 <= i < last.len() ==> #[trigger] last[i].1 == heads[last[i].0]),
        resume_decision(last, heads) == ResumeDecision::FullResume || resume_decision(last, heads)
            == ResumeDecision::Replaying || resume_decision(last, heads)
            == ResumeDecision::PartialResume,
{
    lemma_first_problem_skip(last, heads, last.len() as int);
    assert(last.subrange(last.len() as int, last.len() as int).len() == 0);
}

/// When the server knows every topic the client names and the client is
/// ahead nowhere, how far behind the client is decides: replaying
/// exactly when it is behind on some topic and at most one offset behind
/// on every topic; a partial resume exactly when it is more than one
/// offset behind on some topic, wherever that topic comes in its list.
pub proof fn lemma_decide_behind(last: Seq<(Seq<char>, i64)>, heads: Map<Seq<char>, i64>)
    requires
        last.len() > 0,
        forall|i: int|
            0 <= i < last.len() ==> heads.contains_key(#[trigger] last[i].0) && last[i].1
                <= heads[last[i].0],
    ensures
        resume_decision(last, heads) == ResumeDecision::Replaying <==> (exists|i: int|
            0 <= i < last.len() && #[trigger] last[i].1 < heads[last[i].0]) && (forall|i: int|
            0 <= i < last.len() ==> #[trigger] last[i].1 + 1 >= heads[last[i].0]),
        resume_decision(last, heads) == ResumeDecision::PartialResume <==> exists|i: int|
            0 <= i < last.len() && #[trigger] last[i].1 + 1 < heads[last[i].0],
        forall|i: int|
            0 <= i < last.len() && #[trigger] last[i].1 + 1 < heads[last[i].0] ==> resume_decision(
                last,
                heads,
            ) == ResumeDecision::PartialResume,
{
    lemma_first_problem_skip(last, heads, last.len() as int);
    assert(last.subrange(last.len() as int, last.len() as int).len() == 0);
    if exists|i: int| 0 <= i < last.len() && #[trigger] last[i].1 + 1 < heads[last[i].0] {
        let i = choose|i: int| 0 <= i < last.len() && #[trigger] last[i].1 + 1 < heads[last[i].0];
        assert(last[i].1 < heads[last[i].0]);
        assert(any_behind(last, heads));
        assert(!all_within_one(last, heads));
    }
}

/// A client ahead of the server on the first topic it names is rejected,
/// and a first topic unknown to the server asks for a snapshot.
pub proof fn lemma_decide_first_topic(last: Seq<(Seq<char>, i64)>, heads: Map<Seq<char>, i64>)
    requires
        last.len() > 0,
    ensures
        !heads.contains_key(last[0].0) ==> resume_decision(last, heads)
            == ResumeDecision::SnapshotRequired,
        heads.contains_key(last[0].0) && last[0].1 > heads[last[0].0] ==> resume_decision(
            last,
            heads,
        ) == ResumeDecision::Rejected,
{
}

} // verus!
