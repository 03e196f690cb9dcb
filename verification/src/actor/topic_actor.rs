//! One topic's state: publishing (validation, deduplication, offset
//! allocation, the log append) and the subscribers a published payload
//! goes to.

use std::time::Duration;

use vstd::prelude::*;
use crate::broker::dedupe::DedupeStore;
use crate::broker::fanout::{with_sink, ConnectionSink, SubscribeIntent, SubscriptionId};
use crate::broker::offset_store::OffsetStore;
use crate::error::{FrameReject, RiftError};
use crate::frame::envelope::Frame;
use crate::handle::share;
use crate::storage::dedupe::{is_live, record_step, window_millis};
use crate::message::MessageClass;
use crate::payload::{bytes_content, bytes_from_vec};
use crate::storage::offset::{counter_after, head_offset, head_readable, next_offset};
use crate::topic::log::{
    entries_in_range, entry_views, opt_text, retained, LogEntry, LogEntryView, TopicLog,
};
use crate::topic::retention::RetentionPolicy;

verus! {

/// The result of a publish: the offset the message got, and whether it
/// was a duplicate within the deduplication window.
#[derive(Debug, Clone, Copy, PartialEq, Eq, Structural)]
pub struct PublishOutcome {
    pub offset: i64,
    pub duplicate: bool,
}

/// The log entry a publish of `frame` at `offset` appends: the frame's
/// session, message id, event name (also its class, `event` when it
/// names none), payload (empty when it carries none) and timestamp.
pub open spec fn published_entry(frame: Frame, offset: i64) -> LogEntryView {
    LogEntryView {
        offset,
        publisher_session: opt_text(frame.session_id),
        message_id: frame.message_id->0@,
        class: match frame.event {
            Some(e) => e@,
            None => "event"@,
        },
        event: opt_text(frame.event),
        payload: match frame.payload {
            Some(p) => bytes_content(p),
            None => Seq::empty(),
        },
        timestamp: frame.timestamp,
    }
}

/// The entry for a publish of `frame` (which carries `message_id`) at
/// `offset`.
fn entry_for(frame: &Frame, message_id: &String, offset: i64) -> (r: LogEntry)
    requires
        frame.message_id == Some(*message_id),
    ensures
        r@ == published_entry(*frame, offset),
{
    let class = match &frame.event {
        Some(e) => e.clone(),
        None => {
            proof {
                reveal_strlit("event");
            }
            MessageClass::Event.as_str().to_owned()
        },
    };
    let event = match &frame.event {
        Some(e) => Some(e.clone()),
        None => None,
    };
    let publisher_session = match &frame.session_id {
        Some(s) => Some(s.clone()),
        None => None,
    };
    let payload = match &frame.payload {
        Some(p) => p.clone(),
        None => bytes_from_vec(Vec::new()),
    };
    LogEntry {
        offset,
        publisher_session,
        message_id: message_id.clone(),
        class,
        event,
        payload,
        timestamp: frame.timestamp,
    }
}

/// Publishes `frame` on `topic` at time `now`. A frame without a topic
/// or without a message id is refused with `RequiredFieldMissing`, and
/// nothing changes. Otherwise the message id is checked against the
/// deduplication window (a fresh id is recorded until `now + window`),
/// the topic's next offset is allocated and the message is appended to
/// the topic's log under `retention`, duplicate or not.
pub fn publish_step(
    topic: &str,
    offsets: &mut OffsetStore,
    dedupe: &mut DedupeStore,
    log: &mut TopicLog,
    retention: &RetentionPolicy,
    window: Duration,
    now: i64,
    frame: &Frame,
) -> (r: Result<PublishOutcome, RiftError>)
    requires
        frame.topic is Some && frame.message_id is Some ==> i64::MIN <= now + window_millis(window)
            <= i64::MAX,
    ensures
        frame.topic is None ==> (r matches Err(RiftError::Frame(FrameReject::RequiredFieldMissing(f)))
            && f@ == "topic"@),
        frame.topic is Some && frame.message_id is None ==> (r matches Err(
            RiftError::Frame(FrameReject::RequiredFieldMissing(f)),
        ) && f@ == "message_id"@),
        frame.topic is None || frame.message_id is None ==> final(offsets)@ == old(offsets)@
            && final(dedupe)@ == old(dedupe)@ && final(log)@ == old(log)@,
        frame.topic is Some && frame.message_id is Some ==> ({
            let id = frame.message_id->0;
            &&& r matches Ok(o)
            &&& r->Ok_0.duplicate == is_live(old(dedupe)@, (topic@, id@), now)
            &&& r->Ok_0.offset == next_offset(old(offsets)@, topic@)
            &&& final(offsets)@ == old(offsets)@.insert(topic@, counter_after(r->Ok_0.offset))
            &&& final(dedupe)@ == record_step(
                old(dedupe)@,
                (topic@, id@),
                now,
                (now + window_millis(window)) as i64,
            )
            &&& final(log)@ == retained(
                old(log)@.push(published_entry(*frame, r->Ok_0.offset)),
                *retention,
            )
        }),
{
    if frame.topic.is_none() {
        return Err(RiftError::Frame(FrameReject::RequiredFieldMissing("topic")));
    }
    let message_id = match &frame.message_id {
        Some(m) => m,
        None => {
            return Err(RiftError::Frame(FrameReject::RequiredFieldMissing("message_id")));
        },
    };
    let fresh = dedupe.check_and_record_at(topic, message_id.as_str(), window, now);
    let offset = offsets.allocate(topic);
    let entry = entry_for(frame, message_id, offset);
    log.append(entry, retention);
    Ok(PublishOutcome { offset, duplicate: !fresh })
}

/// A subscriber as the table records it: its subscription id, the id
/// its sink reports, and its intent.
pub type SubscriberEntry = (SubscriptionId, u64, SubscribeIntent);

/// The abstract state of a subscriber table: the subscribers in the
/// order they subscribed, and the next subscription id.
pub struct SubscribersView {
    pub entries: Seq<SubscriberEntry>,
    pub next: u64,
}

/// The ids of the entries, in order.
pub open spec fn entry_ids(es: Seq<SubscriberEntry>) -> Seq<SubscriptionId> {
    Seq::new(es.len(), |i: int| es[i].0)
}

/// The entries not matching `drop`, in order.
pub open spec fn entries_without(es: Seq<SubscriberEntry>, drop: spec_fn(SubscriberEntry) -> bool) -> Seq<
    SubscriberEntry,
>
    decreases es.len(),
{
    if es.len() == 0 {
        Seq::empty()
    } else if drop(es.last()) {
        entries_without(es.drop_last(), drop)
    } else {
        entries_without(es.drop_last(), drop).push(es.last())
    }
}

/// The sinks `ss` (one per entry of `es`, in the same order) of the
/// entries not matching `drop`, in order.
pub open spec fn sinks_kept(
    es: Seq<SubscriberEntry>,
    ss: Seq<(SubscriptionId, ConnectionSink)>,
    drop: spec_fn(SubscriberEntry) -> bool,
) -> Seq<(SubscriptionId, ConnectionSink)>
    decreases es.len(),
{
    if es.len() == 0 || ss.len() == 0 {
        Seq::empty()
    } else if drop(es.last()) {
        sinks_kept(es.drop_last(), ss.drop_last(), drop)
    } else {
        sinks_kept(es.drop_last(), ss.drop_last(), drop).push(ss.last())
    }
}

/// A topic's subscribers with their sinks, and the next id to hand out.
pub struct TopicSubscribers {
    entries: Vec<SubscriberEntry>,
    sinks: Vec<(SubscriptionId, ConnectionSink)>,
    next: u64,
}

impl View for TopicSubscribers {
    type V = SubscribersView;

    closed spec fn view(&self) -> SubscribersView {
        SubscribersView { entries: self.entries@, next: self.next }
    }
}

impl TopicSubscribers {
    /// The sinks, one per subscriber and with its id, in the same order.
    pub closed spec fn sink_handles(&self) -> Seq<(SubscriptionId, ConnectionSink)> {
        self.sinks@
    }

    /// One sink per subscriber, under the subscriber's id.
    pub closed spec fn wf(&self) -> bool {
        &&& self.entries@.len() == self.sinks@.len()
        &&& forall|i: int| 0 <= i < self.entries@.len() ==> #[trigger] self.sinks@[i].0 == self.entries@[i].0
    }

    /// No subscriber; the first id handed out is 1.
    pub fn new() -> (r: TopicSubscribers)
        ensures
            r.wf(),
            r@.entries == Seq::<SubscriberEntry>::empty(),
            r@.next == 1,
    {
        TopicSubscribers { entries: Vec::new(), sinks: Vec::new(), next: 1 }
    }

    /// Adds a subscriber with `sink` (reporting `sink_id`) and `intent`;
    /// returns its id, the next in sequence.
    pub fn subscribe(&mut self, sink: ConnectionSink, sink_id: u64, intent: SubscribeIntent) -> (r:
        SubscriptionId)
        requires
            old(self).wf(),
            old(self)@.next < u64::MAX,
        ensures
            final(self).wf(),
            r.0 == old(self)@.next,
            final(self)@.entries == old(self)@.entries.push((r, sink_id, intent)),
            final(self)@.next == old(self)@.next + 1,
            final(self).sink_handles().drop_last() == old(self).sink_handles(),
            final(self).sink_handles().len() == old(self).sink_handles().len() + 1,
            final(self).sink_handles().last().0 == r,
            final(self).sink_handles().last().1 == sink,
    {
        let id = SubscriptionId(self.next);
        self.next = self.next + 1;
        self.entries.push((id, sink_id, intent));
        let pair = with_sink(id, sink);
        self.sinks.push(pair);
        id
    }

    fn keep_where(&mut self, id: SubscriptionId, by_id: bool, sink_id: u64)
        requires
            old(self).wf(),
        ensures
            final(self).wf(),
            final(self)@.next == old(self)@.next,
            by_id ==> final(self)@.entries == entries_without(
                old(self)@.entries,
                |e: SubscriberEntry| e.0 == id,
            ),
            !by_id ==> final(self)@.entries == entries_without(
                old(self)@.entries,
                |e: SubscriberEntry| e.1 == sink_id,
            ),
            by_id ==> final(self).sink_handles() == sinks_kept(
                old(self)@.entries,
                old(self).sink_handles(),
                |e: SubscriberEntry| e.0 == id,
            ),
            !by_id ==> final(self).sink_handles() == sinks_kept(
                old(self)@.entries,
                old(self).sink_handles(),
                |e: SubscriberEntry| e.1 == sink_id,
            ),
    {
        let ghost drop = if by_id {
            |e: SubscriberEntry| e.0 == id
        } else {
            |e: SubscriberEntry| e.1 == sink_id
        };
        let mut kept: Vec<SubscriberEntry> = Vec::new();
        let mut kept_sinks: Vec<(SubscriptionId, ConnectionSink)> = Vec::new();
        let mut i: usize = 0;
        while i < self.entries.len()
            invariant
                self.wf(),
                i <= self.entries@.len(),
                kept@.len() == kept_sinks@.len(),
                forall|j: int| 0 <= j < kept@.len() ==> #[trigger] kept_sinks@[j].0 == kept@[j].0,
                kept@ == entries_without(self.entries@.take(i as int), drop),
                kept_sinks@ == sinks_kept(self.entries@.take(i as int), self.sinks@.take(i as int), drop),
                drop == (if by_id {
                    |e: SubscriberEntry| e.0 == id
                } else {
                    |e: SubscriberEntry| e.1 == sink_id
                }),
            decreases self.entries@.len() - i,
        {
            let e = self.entries[i];
            assert(self.entries@.take(i as int + 1).drop_last() =~= self.entries@.take(i as int));
            assert(self.sinks@.take(i as int + 1).drop_last() =~= self.sinks@.take(i as int));
            assert(self.sinks@.take(i as int + 1).last() == self.sinks@[i as int]);
            assert(self.entries@.take(i as int + 1).last() == self.entries@[i as int]);
            let dropped = if by_id {
                e.0 == id
            } else {
                e.1 == sink_id
            };
            assert(dropped == drop(e));
            if !dropped {
                kept.push(e);
                let s = share(&self.sinks[i].1);
                let pair = with_sink(e.0, s);
                assert(pair == self.sinks@[i as int]);
                kept_sinks.push(pair);
            }
            i = i + 1;
        }
        assert(self.entries@.take(self.entries@.len() as int) =~= self.entries@);
        assert(self.sinks@.take(self.sinks@.len() as int) =~= self.sinks@);
        self.entries = kept;
        self.sinks = kept_sinks;
    }

    /// Removes subscription `id`; whether it was there.
    pub fn unsubscribe(&mut self, id: SubscriptionId) -> (r: bool)
        requires
            old(self).wf(),
        ensures
            final(self).wf(),
            r == entry_ids(old(self)@.entries).contains(id),
            final(self)@.entries == entries_without(old(self)@.entries, |e: SubscriberEntry| e.0 == id),
            final(self).sink_handles() == sinks_kept(
                old(self)@.entries,
                old(self).sink_handles(),
                |e: SubscriberEntry| e.0 == id,
            ),
            final(self)@.next == old(self)@.next,
    {
        let mut found = false;
        let mut i: usize = 0;
        while i < self.entries.len()
            invariant
                i <= self.entries@.len(),
                found == exists|j: int| 0 <= j < i && self.entries@[j].0 == id,
            decreases self.entries@.len() - i,
        {
            if self.entries[i].0 == id {
                found = true;
            }
            i = i + 1;
        }
        proof {
            let ids = entry_ids(self.entries@);
            if found {
                let j = choose|j: int| 0 <= j < i && self.entries@[j].0 == id;
                assert(ids[j] == id);
            }
            if ids.contains(id) {
                let j = choose|j: int| 0 <= j < ids.len() && ids[j] == id;
                assert(self.entries@[j].0 == id);
            }
        }
        self.keep_where(id, true, 0);
        found
    }

    /// Removes every subscriber whose sink reports `sink_id`; returns how
    /// many were removed.
    pub fn drop_sink(&mut self, sink_id: u64) -> (r: usize)
        requires
            old(self).wf(),
        ensures
            final(self).wf(),
            final(self)@.entries == entries_without(
                old(self)@.entries,
                |e: SubscriberEntry| e.1 == sink_id,
            ),
            final(self).sink_handles() == sinks_kept(
                old(self)@.entries,
                old(self).sink_handles(),
                |e: SubscriberEntry| e.1 == sink_id,
            ),
            r == old(self)@.entries.len() - final(self)@.entries.len(),
            final(self)@.next == old(self)@.next,
    {
        let before = self.entries.len();
        self.keep_where(SubscriptionId(0), false, sink_id);
        proof {
            lemma_entries_without_len(old(self)@.entries, |e: SubscriberEntry| e.1 == sink_id);
        }
        before - self.entries.len()
    }

    /// The subscriptions a published payload goes to: none for a
    /// duplicate, else every subscriber in order.
    pub fn delivery_targets(&self, duplicate: bool) -> (r: Vec<SubscriptionId>)
        ensures
            duplicate ==> r@.len() == 0,
            !duplicate ==> r@ == entry_ids(self@.entries),
    {
        let mut out: Vec<SubscriptionId> = Vec::new();
        if duplicate {
            return out;
        }
        let mut i: usize = 0;
        while i < self.entries.len()
            invariant
                i <= self.entries@.len(),
                out@ == entry_ids(self.entries@.take(i as int)),
            decreases self.entries@.len() - i,
        {
            out.push(self.entries[i].0);
            assert(out@ =~= entry_ids(self.entries@.take(i as int + 1)));
            i = i + 1;
        }
        assert(self.entries@.take(self.entries@.len() as int) =~= self.entries@);
        out
    }

    /// The sinks a published payload goes to: none for a duplicate, else
    /// every subscriber's sink in order.
    pub fn delivery_sinks(&self, duplicate: bool) -> (r: Vec<(SubscriptionId, ConnectionSink)>)
        ensures
            duplicate ==> r@.len() == 0,
            !duplicate ==> r@ == self.sink_handles(),
    {
        let mut out: Vec<(SubscriptionId, ConnectionSink)> = Vec::new();
        if duplicate {
            return out;
        }
        let mut i: usize = 0;
        while i < self.sinks.len()
            invariant
                i <= self.sinks@.len(),
                out@ == self.sinks@.take(i as int),
            decreases self.sinks@.len() - i,
        {
            let s = share(&self.sinks[i].1);
            let pair = with_sink(self.sinks[i].0, s);
            out.push(pair);
            assert(out@ =~= self.sinks@.take(i as int + 1));
            i = i + 1;
        }
        assert(self.sinks@.take(self.sinks@.len() as int) =~= self.sinks@);
        out
    }

    /// The id the next subscriber will get.
    pub fn next_id(&self) -> (r: u64)
        ensures
            r == self@.next,
    {
        self.next
    }

    /// The number of subscribers.
    pub fn len(&self) -> (r: usize)
        ensures
            r == self@.entries.len(),
    {
        self.entries.len()
    }
}

/// A topic actor's own state: its topic, its retention policy, its log,
/// its subscribers and its deduplication window. The offset and
/// deduplication stores are shared between topics and handed in by the
/// caller.
pub struct TopicActor {
    pub topic_name: String,
    pub retention: RetentionPolicy,
    pub log: TopicLog,
    pub subscribers: TopicSubscribers,
    pub dedupe_window: Duration,
}

impl TopicActor {
    /// An actor for `topic_name` with an empty log and no subscribers.
    pub fn new(topic_name: String, retention: RetentionPolicy, dedupe_window: Duration) -> (r: TopicActor)
        ensures
            r.topic_name@ == topic_name@,
            r.retention == retention,
            r.log@ == Seq::<LogEntryView>::empty(),
            r.dedupe_window == dedupe_window,
            r.subscribers.wf(),
            r.subscribers@.entries == Seq::<SubscriberEntry>::empty(),
            r.subscribers@.next == 1,
    {
        TopicActor {
            topic_name,
            retention,
            log: TopicLog::new(),
            subscribers: TopicSubscribers::new(),
            dedupe_window,
        }
    }

    /// Handles a publish at time `now`: [`publish_step`] on this actor's
    /// topic, log, retention and window, then the deliveries to make,
    /// each subscriber's sink under its id, in subscription order; none
    /// for a duplicate or a refused frame. The subscribers are unchanged.
    pub fn handle_publish(
        &mut self,
        offsets: &mut OffsetStore,
        dedupe: &mut DedupeStore,
        now: i64,
        frame: &Frame,
    ) -> (r: (Result<PublishOutcome, RiftError>, Vec<(SubscriptionId, ConnectionSink)>))
        requires
            frame.topic is Some && frame.message_id is Some ==> i64::MIN <= now + window_millis(
                old(self).dedupe_window,
            ) <= i64::MAX,
        ensures
            frame.topic is None ==> (r.0 matches Err(RiftError::Frame(FrameReject::RequiredFieldMissing(f)))
                && f@ == "topic"@),
            frame.topic is Some && frame.message_id is None ==> (r.0 matches Err(
                RiftError::Frame(FrameReject::RequiredFieldMissing(f)),
            ) && f@ == "message_id"@),
            frame.topic is None || frame.message_id is None ==> final(offsets)@ == old(offsets)@
                && final(dedupe)@ == old(dedupe)@ && final(self).log@ == old(self).log@,
            frame.topic is Some && frame.message_id is Some ==> ({
                let id = frame.message_id->0;
                let topic = old(self).topic_name@;
                &&& r.0 matches Ok(o)
                &&& r.0->Ok_0.duplicate == is_live(old(dedupe)@, (topic, id@), now)
                &&& r.0->Ok_0.offset == next_offset(old(offsets)@, topic)
                &&& final(offsets)@ == old(offsets)@.insert(topic, counter_after(r.0->Ok_0.offset))
                &&& final(dedupe)@ == record_step(
                    old(dedupe)@,
                    (topic, id@),
                    now,
                    (now + window_millis(old(self).dedupe_window)) as i64,
                )
                &&& final(self).log@ == retained(
                    old(self).log@.push(published_entry(*frame, r.0->Ok_0.offset)),
                    old(self).retention,
                )
            }),
            final(self).topic_name == old(self).topic_name,
            final(self).retention == old(self).retention,
            final(self).dedupe_window == old(self).dedupe_window,
            final(self).subscribers == old(self).subscribers,
            r.0 is Err ==> r.1@.len() == 0,
            r.0 matches Ok(o) && o.duplicate ==> r.1@.len() == 0,
            r.0 matches Ok(o) && !o.duplicate ==> r.1@ == old(self).subscribers.sink_handles(),
    {
        let outcome = publish_step(
            self.topic_name.as_str(),
            offsets,
            dedupe,
            &mut self.log,
            &self.retention,
            self.dedupe_window,
            now,
            frame,
        );
        let deliveries = match &outcome {
            Ok(o) => self.subscribers.delivery_sinks(o.duplicate),
            Err(_) => Vec::new(),
        };
        (outcome, deliveries)
    }

    /// The head offset of this actor's topic in `offsets`: the highest
    /// offset handed out, or 0.
    pub fn head_offset(&self, offsets: &OffsetStore) -> (r: i64)
        requires
            head_readable(offsets@, self.topic_name@),
        ensures
            r == head_offset(offsets@, self.topic_name@),
    {
        offsets.head(self.topic_name.as_str())
    }

    /// The logged entries with an offset in `from..=to`, in log order.
    pub fn replay(&self, from: i64, to: i64) -> (r: Vec<LogEntry>)
        ensures
            entry_views(r@) == entries_in_range(self.log@, from, to),
    {
        self.log.range(from, to)
    }
}

proof fn lemma_entries_without_len(es: Seq<SubscriberEntry>, drop: spec_fn(SubscriberEntry) -> bool)
    ensures
        entries_without(es, drop).len() <= es.len(),
    decreases es.len(),
{
    if es.len() > 0 {
        lemma_entries_without_len(es.drop_last(), drop);
    }
}

} // verus!
