use std::sync::Arc;
use std::time::Duration;

use bytes::Bytes;
use rifts::actor::{publish_step, TopicActor, TopicSubscribers};
use rifts::broker::dedupe::DedupeStore;
use rifts::broker::fanout::{FanoutError, FanoutSink, SubscribeIntent, SubscriptionId};
use rifts::broker::offset_store::OffsetStore;
use rifts::error::{FrameReject, RiftError};
use rifts::frame::envelope::Frame;
use rifts::topic::log::TopicLog;
use rifts::topic::RetentionPolicy;

struct NamedSink(u64);

impl FanoutSink for NamedSink {
    fn deliver(&self, _frame: Bytes) -> Result<(), FanoutError> {
        Ok(())
    }
    fn id(&self) -> u64 {
        self.0
    }
}

fn frame(topic: Option<&str>, message_id: Option<&str>) -> Frame {
    let mut f = Frame::data();
    f.topic = topic.map(|t| t.to_string());
    f.message_id = message_id.map(|m| m.to_string());
    f
}

fn missing_field(r: &Result<rifts::actor::PublishOutcome, RiftError>) -> Option<&'static str> {
    match r {
        Err(RiftError::Frame(FrameReject::RequiredFieldMissing(f))) => Some(f),
        _ => None,
    }
}

#[test]
fn publish_without_topic_is_refused() {
    let mut offsets = OffsetStore::new();
    let mut dedupe = DedupeStore::new();
    let mut log = TopicLog::new();
    let r = publish_step("t", &mut offsets, &mut dedupe, &mut log, &RetentionPolicy::Durable, Duration::from_secs(60), 1_000, &frame(None, Some("m1")));
    assert_eq!(missing_field(&r), Some("topic"));
    assert_eq!(offsets.head("t"), 0);
    assert_eq!(dedupe.len(), 0);
    assert_eq!(log.len(), 0);
}

#[test]
fn publish_without_message_id_is_refused() {
    let mut offsets = OffsetStore::new();
    let mut dedupe = DedupeStore::new();
    let mut log = TopicLog::new();
    let r = publish_step("t", &mut offsets, &mut dedupe, &mut log, &RetentionPolicy::Durable, Duration::from_secs(60), 1_000, &frame(Some("t"), None));
    assert_eq!(missing_field(&r), Some("message_id"));
    assert_eq!(offsets.head("t"), 0);
    assert_eq!(dedupe.len(), 0);
}

#[test]
fn publish_fresh_then_duplicate() {
    let mut offsets = OffsetStore::new();
    let mut dedupe = DedupeStore::new();
    let mut log = TopicLog::new();
    let w = Duration::from_secs(60);
    let f = frame(Some("t"), Some("m1"));
    let a = publish_step("t", &mut offsets, &mut dedupe, &mut log, &RetentionPolicy::Durable, w, 1_000, &f).unwrap();
    assert_eq!(a.offset, 1);
    assert!(!a.duplicate);
    let b = publish_step("t", &mut offsets, &mut dedupe, &mut log, &RetentionPolicy::Durable, w, 2_000, &f).unwrap();
    assert_eq!(b.offset, 2);
    assert!(b.duplicate);
    let c = publish_step("t", &mut offsets, &mut dedupe, &mut log, &RetentionPolicy::Durable, w, 2_000, &frame(Some("t"), Some("m2"))).unwrap();
    assert_eq!(c.offset, 3);
    assert!(!c.duplicate);
    assert_eq!(offsets.head("t"), 3);
}

#[test]
fn publish_after_window_is_fresh_again() {
    let mut offsets = OffsetStore::new();
    let mut dedupe = DedupeStore::new();
    let mut log = TopicLog::new();
    let w = Duration::from_millis(100);
    let f = frame(Some("t"), Some("m1"));
    assert!(!publish_step("t", &mut offsets, &mut dedupe, &mut log, &RetentionPolicy::Durable, w, 1_000, &f).unwrap().duplicate);
    assert!(!publish_step("t", &mut offsets, &mut dedupe, &mut log, &RetentionPolicy::Durable, w, 1_100, &f).unwrap().duplicate);
}

#[test]
fn subscribers_ids_in_sequence() {
    let mut subs = TopicSubscribers::new();
    let a = subs.subscribe(Arc::new(NamedSink(7)), 7, SubscribeIntent::Live);
    let b = subs.subscribe(Arc::new(NamedSink(8)), 8, SubscribeIntent::Replay { from: 3 });
    assert_eq!(a, SubscriptionId(1));
    assert_eq!(b, SubscriptionId(2));
    assert_eq!(subs.len(), 2);
    assert_eq!(subs.delivery_targets(false), vec![a, b]);
    assert!(subs.delivery_targets(true).is_empty());
}

#[test]
fn subscribers_unsubscribe() {
    let mut subs = TopicSubscribers::new();
    let a = subs.subscribe(Arc::new(NamedSink(7)), 7, SubscribeIntent::Live);
    let b = subs.subscribe(Arc::new(NamedSink(8)), 8, SubscribeIntent::Live);
    assert!(subs.unsubscribe(a));
    assert!(!subs.unsubscribe(a));
    assert_eq!(subs.delivery_targets(false), vec![b]);
    let c = subs.subscribe(Arc::new(NamedSink(9)), 9, SubscribeIntent::Live);
    assert_eq!(c, SubscriptionId(3));
}

#[test]
fn subscribers_drop_sink() {
    let mut subs = TopicSubscribers::new();
    subs.subscribe(Arc::new(NamedSink(7)), 7, SubscribeIntent::Live);
    let b = subs.subscribe(Arc::new(NamedSink(8)), 8, SubscribeIntent::Live);
    subs.subscribe(Arc::new(NamedSink(7)), 7, SubscribeIntent::Live);
    assert_eq!(subs.drop_sink(7), 2);
    assert_eq!(subs.delivery_targets(false), vec![b]);
    assert_eq!(subs.drop_sink(7), 0);
    let sinks = subs.delivery_sinks(false);
    assert_eq!(sinks.len(), 1);
    assert_eq!(sinks[0].0, b);
    assert_eq!(sinks[0].1.id(), 8);
}

#[test]
fn actor_publish_routes_to_subscribers() {
    let mut actor = TopicActor::new("room/1".to_string(), RetentionPolicy::Durable, Duration::from_secs(60));
    actor.subscribers.subscribe(Arc::new(NamedSink(1)), 1, SubscribeIntent::Live);
    actor.subscribers.subscribe(Arc::new(NamedSink(2)), 2, SubscribeIntent::Live);
    let mut offsets = OffsetStore::new();
    let mut dedupe = DedupeStore::new();
    let mut log = TopicLog::new();
    let f = frame(Some("room/1"), Some("m1"));
    let (r, deliveries) = actor.handle_publish(&mut offsets, &mut dedupe, 1_000, &f);
    let o = r.unwrap();
    assert_eq!(o.offset, 1);
    assert!(!o.duplicate);
    assert_eq!(deliveries.len(), 2);
    assert_eq!(deliveries[0].1.id(), 1);
    assert_eq!(deliveries[1].1.id(), 2);
    let (r2, again) = actor.handle_publish(&mut offsets, &mut dedupe, 1_500, &f);
    assert!(r2.unwrap().duplicate);
    assert!(again.is_empty());
    let (r3, none) = actor.handle_publish(&mut offsets, &mut dedupe, 1_500, &frame(None, Some("m2")));
    assert!(r3.is_err());
    assert!(none.is_empty());
}

#[test]
fn publish_appends_duplicates_too() {
    let mut offsets = OffsetStore::new();
    let mut dedupe = DedupeStore::new();
    let mut log = TopicLog::new();
    let w = Duration::from_secs(60);
    let mut f = frame(Some("t"), Some("m1"));
    f.payload = Some(Bytes::from_static(b"hello"));
    f.session_id = Some("s1".to_string());
    f.timestamp = 77;
    publish_step("t", &mut offsets, &mut dedupe, &mut log, &RetentionPolicy::Durable, w, 1_000, &f).unwrap();
    let d = publish_step("t", &mut offsets, &mut dedupe, &mut log, &RetentionPolicy::Durable, w, 1_001, &f).unwrap();
    assert!(d.duplicate);
    assert_eq!(log.len(), 2);
    let all = log.range(i64::MIN, i64::MAX);
    assert_eq!(all[0].offset, 1);
    assert_eq!(all[1].offset, 2);
    assert_eq!(all[1].message_id, "m1");
    assert_eq!(all[1].class, "event");
    assert_eq!(all[1].event, None);
    assert_eq!(all[1].publisher_session, Some("s1".to_string()));
    assert_eq!(&all[1].payload[..], b"hello");
    assert_eq!(all[1].timestamp, 77);
    f.event = Some("chat".to_string());
    f.message_id = Some("m2".to_string());
    publish_step("t", &mut offsets, &mut dedupe, &mut log, &RetentionPolicy::Durable, w, 1_002, &f).unwrap();
    let last = log.latest().unwrap();
    assert_eq!(last.class, "chat");
    assert_eq!(last.event, Some("chat".to_string()));
}

#[test]
fn publish_trims_log_to_retention() {
    let mut offsets = OffsetStore::new();
    let mut dedupe = DedupeStore::new();
    let w = Duration::from_secs(60);
    let mut count = TopicLog::new();
    let mut latest = TopicLog::new();
    let mut none = TopicLog::new();
    for i in 0..5 {
        let f = frame(Some("t"), Some(&format!("m{i}")));
        publish_step("t", &mut offsets, &mut dedupe, &mut count, &RetentionPolicy::Count(3), w, 0, &f).unwrap();
        publish_step("u", &mut offsets, &mut dedupe, &mut latest, &RetentionPolicy::Latest, w, 0, &f).unwrap();
        publish_step("v", &mut offsets, &mut dedupe, &mut none, &RetentionPolicy::NoRetention, w, 0, &f).unwrap();
    }
    let kept: Vec<i64> = count.range(i64::MIN, i64::MAX).iter().map(|e| e.offset).collect();
    assert_eq!(kept, vec![3, 4, 5]);
    assert_eq!(latest.len(), 1);
    assert_eq!(latest.latest().unwrap().offset, 5);
    assert_eq!(none.len(), 0);
    assert!(none.latest().is_none());
    let mid: Vec<i64> = count.range(4, 4).iter().map(|e| e.offset).collect();
    assert_eq!(mid, vec![4]);
}

#[test]
fn actor_replay_and_head() {
    let mut actor = TopicActor::new("room/1".to_string(), RetentionPolicy::Durable, Duration::from_secs(60));
    let mut offsets = OffsetStore::new();
    let mut dedupe = DedupeStore::new();
    for m in ["a", "b", "c"] {
        let (r, _) = actor.handle_publish(&mut offsets, &mut dedupe, 0, &frame(Some("room/1"), Some(m)));
        r.unwrap();
    }
    assert_eq!(actor.head_offset(&offsets), 3);
    let offs: Vec<i64> = actor.replay(2, 3).iter().map(|e| e.offset).collect();
    assert_eq!(offs, vec![2, 3]);
    assert_eq!(actor.log.len(), 3);
    assert_eq!(offsets.next_of("room/1"), Some(4));
    assert_eq!(offsets.next_of("other"), None);
}

#[test]
fn subscribers_removal_keeps_other_sinks() {
    let mut subs = TopicSubscribers::new();
    let a = subs.subscribe(Arc::new(NamedSink(7)), 7, SubscribeIntent::Live);
    subs.subscribe(Arc::new(NamedSink(8)), 8, SubscribeIntent::Live);
    subs.subscribe(Arc::new(NamedSink(9)), 9, SubscribeIntent::Live);
    subs.unsubscribe(a);
    let sinks = subs.delivery_sinks(false);
    let ids: Vec<u64> = sinks.iter().map(|(_, s)| s.id()).collect();
    assert_eq!(ids, vec![8, 9]);
    subs.drop_sink(8);
    let sinks = subs.delivery_sinks(false);
    assert_eq!(sinks.len(), 1);
    assert_eq!(sinks[0].1.id(), 9);
}

#[test]
fn refused_publish_ignores_window() {
    let mut offsets = OffsetStore::new();
    let mut dedupe = DedupeStore::new();
    let mut log = TopicLog::new();
    let r = publish_step("t", &mut offsets, &mut dedupe, &mut log, &RetentionPolicy::Durable, Duration::MAX, i64::MAX, &frame(Some("t"), None));
    assert_eq!(missing_field(&r), Some("message_id"));
    assert_eq!(log.len(), 0);
    assert_eq!(dedupe.len(), 0);
}
