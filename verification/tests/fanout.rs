use std::sync::atomic::{AtomicU64, Ordering};
use std::sync::{Arc, Mutex};

use bytes::Bytes;
use rifts::broker::fanout::{
    ids_reporting, new_sink_id, FanoutEngine, FanoutError, FanoutSink, SubscribeIntent,
    SubscriptionId,
};

/// A sink that counts deliveries and records the frames.
struct CountingSink {
    id: u64,
    delivered: AtomicU64,
    log: Mutex<Vec<Vec<u8>>>,
}

impl CountingSink {
    fn new(id: u64) -> Self {
        CountingSink { id, delivered: AtomicU64::new(0), log: Mutex::new(Vec::new()) }
    }
    fn count(&self) -> u64 {
        self.delivered.load(Ordering::SeqCst)
    }
    fn messages(&self) -> Vec<Vec<u8>> {
        self.log.lock().unwrap().clone()
    }
}

impl FanoutSink for CountingSink {
    fn deliver(&self, frame: Bytes) -> Result<(), FanoutError> {
        self.delivered.fetch_add(1, Ordering::SeqCst);
        self.log.lock().unwrap().push(frame.to_vec());
        Ok(())
    }
    fn id(&self) -> u64 {
        self.id
    }
}

/// A sink that refuses every frame.
struct ClosedSink;

impl FanoutSink for ClosedSink {
    fn deliver(&self, _frame: Bytes) -> Result<(), FanoutError> {
        Err(FanoutError::Closed)
    }
    fn id(&self) -> u64 {
        99
    }
}

#[test]
fn subscribe_and_fanout() {
    let mut fan = FanoutEngine::new();
    let s1 = Arc::new(CountingSink::new(1));
    let s2 = Arc::new(CountingSink::new(2));
    let s3 = Arc::new(CountingSink::new(3));
    fan.subscribe("t", SubscribeIntent::Live, s1.clone());
    fan.subscribe("t", SubscribeIntent::Live, s2.clone());
    fan.subscribe("other", SubscribeIntent::Live, s3.clone());

    let frame = Bytes::from_static(b"hi");
    let n = fan.deliver("t", frame);
    assert_eq!(n, 2);
    assert_eq!(s1.count(), 1);
    assert_eq!(s2.count(), 1);
    assert_eq!(s3.count(), 0);
}

#[test]
fn unsubscribe_returns_topic() {
    let mut fan = FanoutEngine::new();
    let s = Arc::new(CountingSink::new(1));
    let id = fan.subscribe("t", SubscribeIntent::Live, s.clone());
    let topic = fan.unsubscribe(id);
    assert_eq!(topic, Some("t".to_string()));
    assert_eq!(fan.deliver("t", Bytes::from_static(b"x")), 0);
}

#[test]
fn drop_sink_returns_topics() {
    let mut fan = FanoutEngine::new();
    let s1 = Arc::new(CountingSink::new(7));
    let s2 = Arc::new(CountingSink::new(7));
    fan.subscribe("t", SubscribeIntent::Live, s1.clone());
    fan.subscribe("u", SubscribeIntent::Live, s2.clone());
    let topics = fan.drop_sink(7);
    assert_eq!(topics.len(), 2);
    assert!(topics.contains(&"t".to_string()));
    assert!(topics.contains(&"u".to_string()));
    assert_eq!(fan.subscription_count(), 0);
}

#[test]
fn topic_subscriber_count() {
    let mut fan = FanoutEngine::new();
    let s = Arc::new(CountingSink::new(1));
    fan.subscribe("t", SubscribeIntent::Live, s.clone());
    fan.subscribe("t", SubscribeIntent::Live, s.clone());
    assert_eq!(fan.topic_subscriber_count("t"), 2);
}

#[test]
fn deliver_records_payload() {
    let mut fan = FanoutEngine::new();
    let s = Arc::new(CountingSink::new(1));
    fan.subscribe("t", SubscribeIntent::Live, s.clone());
    fan.deliver("t", Bytes::from_static(b"abc"));
    assert_eq!(s.messages(), vec![b"abc".to_vec()]);
}

#[test]
fn sink_id_is_unique() {
    let a = new_sink_id();
    let b = new_sink_id();
    assert_ne!(a, b);
}

#[test]
fn sink_id_carries_uuid_version() {
    let id = new_sink_id();
    // Byte 6 of a version 4 UUID has 4 in its high nibble.
    assert_eq!((id >> 52) & 0xf, 4);
}

#[test]
fn ids_are_sequential_and_unsubscribe_restores_counts() {
    let mut fan = FanoutEngine::new();
    let s = Arc::new(CountingSink::new(1));
    let a = fan.subscribe("t", SubscribeIntent::Live, s.clone());
    let b = fan.subscribe("u", SubscribeIntent::Replay { from: 3 }, s.clone());
    assert_eq!(a, SubscriptionId(1));
    assert_eq!(b, SubscriptionId(2));
    assert_eq!(fan.subscription_count(), 2);
    assert_eq!(fan.unsubscribe(b), Some("u".to_string()));
    assert_eq!(fan.unsubscribe(b), None);
    assert_eq!(fan.subscription_count(), 1);
    assert_eq!(fan.topic_subscriber_count("u"), 0);
    assert_eq!(fan.topic_subscriber_count("t"), 1);
}

#[test]
fn refused_deliveries_are_not_counted() {
    let mut fan = FanoutEngine::default();
    let good = Arc::new(CountingSink::new(1));
    fan.subscribe("t", SubscribeIntent::Live, good.clone());
    fan.subscribe("t", SubscribeIntent::Live, Arc::new(ClosedSink));
    assert_eq!(fan.deliver("t", Bytes::from_static(b"x")), 1);
    assert_eq!(fan.deliver("nobody", Bytes::from_static(b"x")), 0);
}

#[test]
fn unsubscribe_all_in_order() {
    let mut fan = FanoutEngine::new();
    let s = Arc::new(CountingSink::new(1));
    let a = fan.subscribe("t", SubscribeIntent::Live, s.clone());
    let b = fan.subscribe("u", SubscribeIntent::Live, s.clone());
    let topics = fan.unsubscribe_all(&vec![b, SubscriptionId(42), a]);
    assert_eq!(topics, vec!["u".to_string(), "t".to_string()]);
    assert_eq!(fan.subscription_count(), 0);
}

#[test]
fn count_accepted_counts_true_answers() {
    assert_eq!(rifts::broker::fanout::count_accepted(&vec![true, false, true]), 2);
    assert_eq!(rifts::broker::fanout::count_accepted(&vec![]), 0);
}

#[test]
fn touch_records_a_clock_reading() {
    let mut s = rifts::session::Session::new_at(rifts::session::SessionId::new(), rifts::session::ClientId::new("c"), 5);
    s.touch();
    assert!(s.last_active > 5);
    assert!(rifts::time::now_ms() > 0);
}

#[test]
fn ids_reporting_keeps_matching_in_order() {
    let answers = vec![
        (SubscriptionId(1), 7),
        (SubscriptionId(2), 8),
        (SubscriptionId(3), 7),
    ];
    assert_eq!(ids_reporting(&answers, 7), vec![SubscriptionId(1), SubscriptionId(3)]);
    assert!(ids_reporting(&answers, 9).is_empty());
}

#[test]
fn drop_sink_keeps_other_sinks() {
    let mut fan = FanoutEngine::new();
    let s1 = Arc::new(CountingSink::new(7));
    let s2 = Arc::new(CountingSink::new(8));
    fan.subscribe("t", SubscribeIntent::Live, s1.clone());
    fan.subscribe("t", SubscribeIntent::Live, s2.clone());
    let topics = fan.drop_sink(7);
    assert_eq!(topics, vec!["t".to_string()]);
    assert_eq!(fan.subscription_count(), 1);
    assert_eq!(fan.deliver("t", Bytes::from_static(b"x")), 1);
    assert_eq!(s2.count(), 1);
    assert_eq!(s1.count(), 0);
}

#[test]
fn topic_sinks_keep_their_subscriptions() {
    let mut fan = FanoutEngine::new();
    let s1 = Arc::new(CountingSink::new(1));
    let s2 = Arc::new(CountingSink::new(2));
    let s3 = Arc::new(CountingSink::new(3));
    let a = fan.subscribe("t", SubscribeIntent::Live, s1.clone());
    let b = fan.subscribe("t", SubscribeIntent::Live, s2.clone());
    let c = fan.subscribe("t", SubscribeIntent::Live, s3.clone());
    fan.unsubscribe(a);
    let sinks = fan.topic_sinks("t");
    let got: Vec<(SubscriptionId, u64)> = sinks.iter().map(|(id, s)| (*id, s.id())).collect();
    assert_eq!(got, vec![(b, 2), (c, 3)]);
    fan.deliver("t", Bytes::from_static(b"z"));
    assert_eq!((s1.count(), s2.count(), s3.count()), (0, 1, 1));
    assert!(fan.topic_sinks("none").is_empty());
}
