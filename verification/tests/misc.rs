use std::sync::atomic::Ordering;

use rifts::metrics::Metrics;
use rifts::topic::ordering::OrderingPolicy;
use rifts::topic::retention::RetentionPolicy;
use rifts::trace::TraceContext;

#[test]
fn inc_and_add() {
    let m = Metrics::new();
    m.inc(&m.connection_open_total);
    m.inc(&m.connection_open_total);
    m.add(&m.messages_in_total, 7);
    assert_eq!(m.connection_open_total.load(Ordering::Relaxed), 2);
    assert_eq!(m.messages_in_total.load(Ordering::Relaxed), 7);
}

#[test]
fn default_is_topic() {
    assert_eq!(OrderingPolicy::default(), OrderingPolicy::Topic);
}

#[test]
fn default_is_latest() {
    assert_eq!(RetentionPolicy::default(), RetentionPolicy::Latest);
}

#[test]
fn root_then_child() {
    let r = TraceContext::new_root();
    assert!(r.trace_id.is_some());
    assert!(r.span_id.is_some());
    let c = r.child();
    assert_eq!(c.trace_id, r.trace_id);
    assert_eq!(c.parent_span_id, r.span_id);
    assert_ne!(c.span_id, r.span_id);
}
