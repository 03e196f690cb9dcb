use rifts::error::{RiftError, SessionReject};
use rifts::session::{
    decide, ClientId, OffsetTracker, ResumeDecision, ResumeManager, ResumeOutcome, Session,
    SessionId, SessionState, TopicOffsets,
};

fn offsets(pairs: &[(&str, i64)]) -> TopicOffsets {
    let mut m = TopicOffsets::new();
    for (t, o) in pairs {
        m.insert(t.to_string(), *o);
    }
    m
}

#[test]
fn record_and_read() {
    let mut t = OffsetTracker::new();
    let s = SessionId::new();
    t.record(&s, "room/1", 10);
    t.record(&s, "room/2", 5);
    assert_eq!(t.get(&s, "room/1"), Some(10));
    let snap = t.snapshot(&s);
    assert_eq!(snap.get("room/1"), Some(&10));
    assert_eq!(snap.get("room/2"), Some(&5));
    t.forget(&s);
    assert!(t.snapshot(&s).is_empty());
}

#[test]
fn decide_cold_start_when_empty() {
    let d = decide(&TopicOffsets::new(), &TopicOffsets::new());
    assert_eq!(d, ResumeDecision::ColdStart);
}

#[test]
fn decide_rejected_when_client_ahead() {
    let last = offsets(&[("t", 100)]);
    let head = offsets(&[("t", 50)]);
    assert_eq!(decide(&last, &head), ResumeDecision::Rejected);
}

#[test]
fn decide_replaying_when_slightly_behind() {
    let last = offsets(&[("t", 9)]);
    let head = offsets(&[("t", 10)]);
    assert_eq!(decide(&last, &head), ResumeDecision::Replaying);
}

#[test]
fn decide_partial_when_far_behind() {
    let last = offsets(&[("t", 1)]);
    let head = offsets(&[("t", 100)]);
    assert_eq!(decide(&last, &head), ResumeDecision::PartialResume);
}

#[test]
fn decide_snapshot_when_topic_missing() {
    let last = offsets(&[("t", 1)]);
    let head = TopicOffsets::new();
    assert_eq!(decide(&last, &head), ResumeDecision::SnapshotRequired);
}

#[test]
fn decide_full_resume_when_caught_up() {
    let last = offsets(&[("a", 5), ("b", 7)]);
    let head = offsets(&[("a", 5), ("b", 7)]);
    assert_eq!(decide(&last, &head), ResumeDecision::FullResume);
}

#[test]
fn decide_first_problem_wins() {
    // A topic missing on the server comes before one the client is ahead on.
    let last = offsets(&[("gone", 1), ("t", 100)]);
    let head = offsets(&[("t", 50)]);
    assert_eq!(decide(&last, &head), ResumeDecision::SnapshotRequired);
    let last = offsets(&[("t", 100), ("gone", 1)]);
    assert_eq!(decide(&last, &head), ResumeDecision::Rejected);
}

#[test]
fn epoch_mismatch_rejected() {
    let m = ResumeManager::new();
    let mut s = Session::new(SessionId::new(), ClientId::new("c"));
    s.bump_epoch(); // server at epoch 2
    let last = offsets(&[("t", 1)]);
    let head = offsets(&[("t", 5)]);
    let r = m.evaluate(&s, 1, &last, &head);
    assert!(matches!(r, Err(RiftError::Session(SessionReject::Conflict { .. }))));
}

#[test]
fn happy_resume() {
    let m = ResumeManager::new();
    let s = Session::new(SessionId::new(), ClientId::new("c"));
    let last = offsets(&[("t", 4)]);
    let head = offsets(&[("t", 5)]);
    let r = m.evaluate(&s, s.current_epoch(), &last, &head).unwrap();
    assert_eq!(r, ResumeOutcome::Replaying);
}

#[test]
fn closed_session_resume_expired() {
    let m = ResumeManager::new();
    let mut s = Session::new(SessionId::new(), ClientId::new("c"));
    s.set_state(SessionState::Closed);
    let r = m.evaluate(&s, s.current_epoch(), &TopicOffsets::new(), &TopicOffsets::new());
    assert!(matches!(r, Err(RiftError::Session(SessionReject::Expired))));
}

#[test]
fn session_lifecycle() {
    let mut s = Session::new(SessionId::new(), ClientId::new("c1"));
    assert_eq!(s.state(), SessionState::Open);
    s.set_state(SessionState::Ready);
    assert_eq!(s.state(), SessionState::Ready);
    assert_eq!(s.current_epoch(), 1);
    assert_eq!(s.bump_epoch(), 2);
    s.set_state(SessionState::Closed);
    assert!(!s.is_alive());
}

#[test]
fn session_id_is_unique() {
    let a = SessionId::new();
    let b = SessionId::new();
    assert_ne!(a, b);
}

#[test]
fn session_id_is_ulid_text() {
    let a = SessionId::new();
    assert_eq!(a.as_str().len(), 26);
    assert!(a.as_str().chars().all(|c| "0123456789ABCDEFGHJKMNPQRSTVWXYZ".contains(c)));
}

#[test]
fn session_idle_time() {
    let mut s = Session::new_at(SessionId::new(), ClientId::new("c"), 1000);
    assert_eq!(s.idle_at(1500).as_millis(), 500);
    s.touch_at(1400);
    assert_eq!(s.idle_at(1500).as_millis(), 100);
    assert_eq!(s.idle_at(1000).as_millis(), 0);
}

#[test]
fn topic_offsets_insert_replaces_and_remove() {
    let mut m = TopicOffsets::new();
    m.insert("a".to_string(), 1);
    m.insert("a".to_string(), 2);
    assert_eq!(m.len(), 1);
    assert_eq!(m.get("a"), Some(&2));
    m.remove("a");
    assert!(m.is_empty());
    assert_eq!(m.get("a"), None);
}

#[test]
fn decide_rejected_with_head_at_minimum() {
    let last = offsets(&[("t", 5)]);
    let head = offsets(&[("t", i64::MIN)]);
    assert_eq!(decide(&last, &head), ResumeDecision::Rejected);
}

#[test]
fn crockford_encoding_matches_ulid_text() {
    let text = "01D39ZY06FGSCTVN4T2V9PKHFZ";
    let bits = ulid::Ulid::from_string(text).unwrap().0;
    assert_eq!(rifts::session::session::crockford_encode(bits, 26), text);
    assert_eq!(rifts::session::session::crockford_encode(0, 26), "0".repeat(26));
    assert_eq!(rifts::session::session::crockford_encode(31, 2), "0Z");
    assert_eq!(SessionId::new().as_str().len(), 26);
}
