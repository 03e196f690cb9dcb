use std::time::Duration;
use rifts::redis::snapshot::capture_latest;
use rifts::topic::log::{LogEntry, TopicLog};

use bytes::Bytes;
use rifts::redis::keys::{
    dedupe_member_key, fanout_channel_pattern, fanout_topic_of_channel, namespaced_key, topic_key,
    ttl_secs,
};
use rifts::redis::retention::{log_trim, LogTrim};
use rifts::redis::snapshot::{
    base64_decode, base64_encode, capture_snapshot, expires_at_for, optional_decimal,
    snapshot_from_fields, snapshot_id_for, snapshot_record,
};
use rifts::text::{decimal_text, parse_i64};
use rifts::topic::RetentionPolicy;

#[test]
fn key_space() {
    assert_eq!(namespaced_key("rift", "offsets"), "rift:offsets");
    assert_eq!(topic_key("rift", "log", "room/1"), "rift:log:room/1");
    assert_eq!(dedupe_member_key("rift", "t", "m-1"), "rift:dedupe:t:m-1");
    assert_eq!(fanout_channel_pattern("rift"), "rift:fanout:*");
}

#[test]
fn channel_topic_extraction() {
    assert_eq!(fanout_topic_of_channel("rift", "rift:fanout:room/1"), "room/1");
    assert_eq!(fanout_topic_of_channel("rift", "other:fanout:room/1"), "other:fanout:room/1");
    assert_eq!(fanout_topic_of_channel("rift", "rift:fan"), "rift:fan");
    assert_eq!(fanout_topic_of_channel("rift", "rift:fanout:"), "");
    assert_eq!(fanout_topic_of_channel("é", "é:fanout:ü"), "ü");
}

#[test]
fn ttl_is_at_least_one_second() {
    assert_eq!(ttl_secs(Duration::from_millis(0)), 1);
    assert_eq!(ttl_secs(Duration::from_millis(999)), 1);
    assert_eq!(ttl_secs(Duration::from_secs(60)), 60);
    assert_eq!(ttl_secs(Duration::from_millis(2500)), 2);
}

#[test]
fn retention_trims() {
    assert_eq!(log_trim(&RetentionPolicy::NoRetention), Some(LogTrim::DeleteAll));
    assert_eq!(
        log_trim(&RetentionPolicy::Count(10)),
        Some(LogTrim::RemoveRanks { start: 0, stop: -11 })
    );
    assert_eq!(log_trim(&RetentionPolicy::Count(0)), None);
    assert_eq!(log_trim(&RetentionPolicy::Latest), Some(LogTrim::RemoveRanks { start: 0, stop: -2 }));
    assert_eq!(log_trim(&RetentionPolicy::Durable), None);
    assert_eq!(log_trim(&RetentionPolicy::Size(5)), None);
    assert_eq!(log_trim(&RetentionPolicy::Ttl(Duration::from_secs(1))), None);
}

#[test]
fn decimal_text_and_parse() {
    assert_eq!(decimal_text(0), "0");
    assert_eq!(decimal_text(42), "42");
    assert_eq!(decimal_text(-7), "-7");
    assert_eq!(decimal_text(i64::MIN), i64::MIN.to_string());
    assert_eq!(decimal_text(i64::MAX), i64::MAX.to_string());
    assert_eq!(parse_i64("42"), Some(42));
    assert_eq!(parse_i64("+42"), Some(42));
    assert_eq!(parse_i64("-42"), Some(-42));
    assert_eq!(parse_i64("-9223372036854775808"), Some(i64::MIN));
    assert_eq!(parse_i64("9223372036854775807"), Some(i64::MAX));
    assert_eq!(parse_i64("9223372036854775808"), None);
    assert_eq!(parse_i64("-9223372036854775809"), None);
    assert_eq!(parse_i64(""), None);
    assert_eq!(parse_i64("-"), None);
    assert_eq!(parse_i64("+-1"), None);
    assert_eq!(parse_i64("1x"), None);
    assert_eq!(parse_i64("007"), Some(7));
    for s in ["0", "-1", "+5", "123456789012", "x", "--1", " 1"] {
        assert_eq!(parse_i64(s), s.parse::<i64>().ok(), "{s}");
    }
}

#[test]
fn hex_payload_round_trip() {
    let b = Bytes::from_static(&[0x00, 0x0f, 0xa5, 0xff]);
    let t = base64_encode(&b);
    assert_eq!(t, "000fa5ff");
    assert_eq!(base64_decode(&t), b);
    assert_eq!(base64_decode("AB"), Bytes::from_static(&[0xab]));
    assert_eq!(base64_decode("+a"), Bytes::from_static(&[0x0a]));
    assert_eq!(base64_decode("zz0"), Bytes::new());
    assert_eq!(base64_decode("zz01"), Bytes::from_static(&[0x01]));
}

#[test]
fn snapshot_id_and_expiry() {
    assert_eq!(snapshot_id_for(42), "snap-42");
    assert_eq!(snapshot_id_for(-1), "snap--1");
    assert_eq!(expires_at_for(1000, Some(Duration::from_millis(500))), Some(1500));
    assert_eq!(expires_at_for(1000, None), None);
    assert_eq!(optional_decimal(Some(2000)), "2000");
    assert_eq!(optional_decimal(None), "");
}

fn record(expires: &str) -> Vec<String> {
    vec![
        "snap-42".to_string(),
        "room/1".to_string(),
        "42".to_string(),
        "6869".to_string(),
        "1000".to_string(),
        expires.to_string(),
    ]
}

#[test]
fn snapshot_record_read_back() {
    let s = snapshot_from_fields(&record("2000"), 1500).unwrap();
    assert_eq!(s.snapshot_id, "snap-42");
    assert_eq!(s.topic, "room/1");
    assert_eq!(s.base_offset, 42);
    assert_eq!(s.payload, Bytes::from_static(b"hi"));
    assert_eq!(s.created_at, 1000);
    assert_eq!(s.expires_at, Some(2000));
    assert!(snapshot_from_fields(&record("2000"), 2001).is_none());
    let forever = snapshot_from_fields(&record(""), i64::MAX).unwrap();
    assert_eq!(forever.expires_at, None);
    let mut bad = record("x");
    bad[2] = "nope".to_string();
    let s = snapshot_from_fields(&bad, 0).unwrap();
    assert_eq!(s.base_offset, 0);
    assert_eq!(s.expires_at, None);
    let mut no_id = record("");
    no_id[0] = String::new();
    assert!(snapshot_from_fields(&no_id, 0).is_none());
    assert!(snapshot_from_fields(&record("")[..5].to_vec(), 0).is_none());
}

#[test]
fn captured_snapshot_fields() {
    let s = capture_snapshot("room/1", 42, Bytes::from_static(b"\x00\xffhi"), Some(Duration::from_secs(5)), 1_000);
    assert_eq!(s.snapshot_id, "snap-42");
    assert_eq!(s.topic, "room/1");
    assert_eq!(s.base_offset, 42);
    assert_eq!(&s.payload[..], b"\x00\xffhi");
    assert_eq!(s.created_at, 1_000);
    assert_eq!(s.expires_at, Some(6_000));
    let n = capture_snapshot("t", -3, Bytes::new(), None, 7);
    assert_eq!(n.snapshot_id, "snap--3");
    assert_eq!(n.expires_at, None);
}

#[test]
fn snapshot_record_reads_back() {
    let s = capture_snapshot("room/1", 42, Bytes::from_static(b"\x00\xffhi"), Some(Duration::from_secs(5)), 1_000);
    let record = snapshot_record(&s);
    assert_eq!(
        record,
        vec![
            "snap-42".to_string(),
            "room/1".to_string(),
            "42".to_string(),
            "00ff6869".to_string(),
            "1000".to_string(),
            "6000".to_string(),
        ]
    );
    let back = snapshot_from_fields(&record, 2_000).unwrap();
    assert_eq!(back.snapshot_id, s.snapshot_id);
    assert_eq!(back.topic, s.topic);
    assert_eq!(back.base_offset, s.base_offset);
    assert_eq!(back.payload, s.payload);
    assert_eq!(back.created_at, s.created_at);
    assert_eq!(back.expires_at, s.expires_at);
    assert!(snapshot_from_fields(&record, 6_001).is_none());
    let n = capture_snapshot("t", 1, Bytes::from_static(b"x"), None, 7);
    let back = snapshot_from_fields(&snapshot_record(&n), i64::MAX).unwrap();
    assert_eq!(back.expires_at, None);
    assert_eq!(back.payload, n.payload);
}

#[test]
fn capture_latest_takes_newest_entry() {
    let mut log = TopicLog::new();
    assert!(capture_latest(&log, "t", None, 5).is_none());
    for (o, p) in [(1i64, b"a"), (2, b"b")] {
        log.append(
            LogEntry {
                offset: o,
                publisher_session: None,
                message_id: format!("m{o}"),
                class: "event".to_string(),
                event: None,
                payload: Bytes::from_static(p),
                timestamp: 0,
            },
            &RetentionPolicy::Durable,
        );
    }
    let s = capture_latest(&log, "t", Some(Duration::from_millis(10)), 5).unwrap();
    assert_eq!(s.snapshot_id, "snap-2");
    assert_eq!(s.base_offset, 2);
    assert_eq!(&s.payload[..], b"b");
    assert_eq!(s.expires_at, Some(15));
}
