use std::time::Duration;
use rifts::storage::dedupe_bytes::{
    expired_dedupe_keys, expiry_of_value, key_has_text_topic, stored_record_is_live,
};

use rifts::storage::{
    dedupe_key, dedupe_prefix, log_key, log_prefix, log_range_end, log_range_start, offset_key,
    offset_prefix, snapshot_key, snapshot_prefix, DedupeStore, MemoryDedupeStore,
    MemoryOffsetStore, OffsetStore, SEP,
};

fn check_fresh_then_duplicate(store: &mut dyn DedupeStore) {
    let w = Duration::from_secs(60);
    assert!(store.check_and_record("t", "k", w));
    assert!(!store.check_and_record("t", "k", w));
}

fn check_different_topics(store: &mut dyn DedupeStore) {
    let w = Duration::from_secs(60);
    assert!(store.check_and_record("t1", "k", w));
    assert!(store.check_and_record("t2", "k", w));
}

fn check_alloc_and_head(store: &mut dyn OffsetStore) {
    assert_eq!(store.allocate("t"), 1);
    assert_eq!(store.allocate("t"), 2);
    assert_eq!(store.head("t"), 2);
}

fn check_remove(store: &mut dyn OffsetStore) {
    store.allocate("t");
    store.allocate("t");
    store.remove("t");
    assert_eq!(store.head("t"), 0);
}

#[test]
fn offset_key_has_separator() {
    let k = offset_key("room/5");
    assert!(k.windows(2).any(|w| w == [b'/', b'5']));
    assert!(k.contains(&SEP));
}

#[test]
fn log_key_sort_order() {
    let k1 = log_key("t", 9);
    let k2 = log_key("t", 10);
    let k3 = log_key("t", 100);
    assert!(k1 < k2);
    assert!(k2 < k3);
}

#[test]
fn log_key_topic_isolation() {
    let k_a = log_prefix("room/5");
    let k_b = log_prefix("room/50");
    let room5_key = log_key("room/5", 1);
    assert!(room5_key.starts_with(&k_a));
    assert!(!room5_key.starts_with(&k_b));
}

#[test]
fn dedupe_prefix_isolation() {
    let p = dedupe_prefix("t");
    let k = dedupe_key("t", "msg-1");
    assert!(k.starts_with(&p));
}

#[test]
fn snapshot_key_round_trip() {
    let k = snapshot_key("room/1", "snap-abc");
    let p = snapshot_prefix("room/1");
    assert!(k.starts_with(&p));
}

#[test]
fn memory_fresh_then_duplicate() {
    check_fresh_then_duplicate(&mut MemoryDedupeStore::new());
}

#[test]
fn memory_different_topics() {
    check_different_topics(&mut MemoryDedupeStore::new());
}

#[test]
fn memory_sweep_removes_expired() {
    let mut d = MemoryDedupeStore::new();
    d.check_and_record("t", "k", Duration::from_millis(0));
    // Force the record to have expired long ago.
    d.check_and_record_until("t", "k", i64::MAX, 0);
    let removed = d.sweep();
    assert_eq!(removed, 1);
}

#[test]
fn memory_alloc_and_head() {
    check_alloc_and_head(&mut MemoryOffsetStore::new());
}

#[test]
fn memory_remove() {
    check_remove(&mut MemoryOffsetStore::new());
}

#[test]
fn key_layouts_exact() {
    assert_eq!(offset_key("t"), b"t\x00head".to_vec());
    assert_eq!(offset_prefix("t"), b"t\x00".to_vec());
    assert_eq!(log_key("t", 42), b"t\x0000000000000000000042".to_vec());
    assert_eq!(log_prefix("t"), b"t\x00".to_vec());
    assert_eq!(dedupe_key("t", "m"), b"t\x00m\x00".to_vec());
    assert_eq!(snapshot_key("t", "s"), b"t\x00s".to_vec());
}

#[test]
fn log_range_bounds_bracket_keys() {
    let start = log_range_start("t", 5);
    let end = log_range_end("t", 7);
    assert_eq!(start, log_key("t", 5));
    assert_eq!(end, b"t\x0000000000000000000007\xff".to_vec());
    for o in 5..=7 {
        let k = log_key("t", o);
        assert!(start <= k && k < end);
    }
    assert!(log_key("t", 8) >= end);
}

#[test]
fn memory_dedupe_expiry_makes_key_fresh_again() {
    let mut d = MemoryDedupeStore::new();
    assert!(d.check_and_record_until("t", "k", 100, 200));
    assert!(!d.check_and_record_until("t", "k", 150, 300));
    assert!(d.check_and_record_until("t", "k", 200, 300));
    assert_eq!(d.sweep_at(299), 0);
    assert_eq!(d.sweep_at(300), 1);
}

#[test]
fn memory_offsets_per_topic() {
    let mut s = MemoryOffsetStore::new();
    s.allocate("a");
    s.allocate("a");
    s.allocate("b");
    assert_eq!(s.head("a"), 2);
    assert_eq!(s.head("b"), 1);
    assert_eq!(s.head("c"), 0);
}

#[test]
fn expired_dedupe_keys_selects_expired_records() {
    let key = |t: &[u8], m: &[u8]| {
        let mut k = t.to_vec();
        k.push(0);
        k.extend_from_slice(m);
        k.push(0);
        k
    };
    let entries = vec![
        (key(b"room", b"a"), 100i64.to_be_bytes().to_vec()),
        (key(b"room", b"b"), 300i64.to_be_bytes().to_vec()),
        (key(b"other", b"c"), 200i64.to_be_bytes().to_vec()),
        (key(b"room", b"d"), vec![0, 0, 0]),
        (key(&[0xff, 0xfe], b"e"), 0i64.to_be_bytes().to_vec()),
        (b"noseparator".to_vec(), 0i64.to_be_bytes().to_vec()),
        (key(b"room", b"f"), (-5i64).to_be_bytes().to_vec()),
    ];
    let swept = expired_dedupe_keys(&entries, 200);
    assert_eq!(swept, vec![key(b"room", b"a"), key(b"other", b"c"), key(b"room", b"f")]);
    assert!(expired_dedupe_keys(&entries, i64::MIN).is_empty());
    assert_eq!(expiry_of_value(&(-5i64).to_be_bytes().to_vec()), -5);
    assert_eq!(expiry_of_value(&i64::MIN.to_be_bytes().to_vec()), i64::MIN);
    assert_eq!(expiry_of_value(&vec![0, 0, 0, 0, 0, 0, 1, 2, 99]), 258);
    assert!(key_has_text_topic(&key(b"", b"x")));
    assert!(!key_has_text_topic(&vec![0xff, 0]));
}

#[test]
fn stored_record_liveness() {
    assert!(!stored_record_is_live(&None, 100));
    assert!(!stored_record_is_live(&Some(vec![1, 2, 3]), 100));
    assert!(stored_record_is_live(&Some(101i64.to_be_bytes().to_vec()), 100));
    assert!(!stored_record_is_live(&Some(100i64.to_be_bytes().to_vec()), 100));
    assert!(!stored_record_is_live(&Some((-1i64).to_be_bytes().to_vec()), 0));
}
