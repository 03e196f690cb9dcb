use std::time::Duration;

use rifts::broker::{DedupeStore, OffsetStore};

#[test]
fn fresh_then_duplicate() {
    let mut d = DedupeStore::new();
    assert!(d.check_and_record("t", "k", Duration::from_secs(60)));
    assert!(!d.check_and_record("t", "k", Duration::from_secs(60)));
}

#[test]
fn dedupe_per_topic() {
    let mut d = DedupeStore::new();
    assert!(d.check_and_record("t1", "k", Duration::from_secs(60)));
    assert!(d.check_and_record("t2", "k", Duration::from_secs(60)));
}

#[test]
fn sweep_drops_expired() {
    let mut d = DedupeStore::new();
    // A zero window recorded at time 0: the record expired long ago.
    d.check_and_record_at("t", "k", Duration::from_millis(0), 0);
    assert_eq!(d.sweep(), 1);
}

#[test]
fn alloc_monotonic() {
    let mut s = OffsetStore::new();
    assert_eq!(s.allocate("t"), 1);
    assert_eq!(s.allocate("t"), 2);
    assert_eq!(s.allocate("t"), 3);
    assert_eq!(s.head("t"), 3);
}

#[test]
fn offset_store_per_topic() {
    let mut s = OffsetStore::new();
    s.allocate("a");
    s.allocate("a");
    s.allocate("b");
    assert_eq!(s.head("a"), 2);
    assert_eq!(s.head("b"), 1);
}

#[test]
fn offset_store_remove_restarts_numbering() {
    let mut s = OffsetStore::new();
    s.allocate("t");
    s.allocate("t");
    s.remove("t");
    assert_eq!(s.head("t"), 0);
    assert_eq!(s.allocate("t"), 1);
}

#[test]
fn dedupe_window_boundaries() {
    let mut d = DedupeStore::new();
    assert!(d.check_and_record_at("t", "k", Duration::from_millis(100), 1000));
    assert!(!d.check_and_record_at("t", "k", Duration::from_millis(100), 1099));
    assert!(d.check_and_record_at("t", "k", Duration::from_millis(100), 1100));
    assert_eq!(d.len(), 1);
    assert!(!d.is_empty());
    assert_eq!(d.sweep_at(1199), 0);
    assert_eq!(d.sweep_at(1200), 1);
    assert!(d.is_empty());
}
