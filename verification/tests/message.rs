use rifts::error::{MessageReject, RiftError};
use rifts::message::command::{validate_command, Command, Reply, ReplyStatus};
use rifts::message::event::{validate_event_body, Event};
use rifts::message::{DeliveryMode, Message, MessageClass};
use serde_json::Value;

fn obj(k: &str, v: Value) -> Value {
    let mut m = serde_json::Map::new();
    m.insert(k.to_string(), v);
    Value::Object(m)
}

#[test]
fn command_requires_correlation_id() {
    let c = Command {
        command: "x".into(),
        correlation_id: "".into(),
        timeout_ms: 100,
        idempotency_key: None,
        payload: Value::Null,
        schema: "x@1.0".into(),
    };
    assert!(validate_command(&c).is_err());
}

#[test]
fn command_with_correlation_id_is_valid() {
    let c = Command::new("room.create", "corr-1", 5000, "room.create@1.0", obj("name", Value::from("general")));
    assert_eq!(c.correlation_id, "corr-1");
    assert_eq!(c.timeout_ms, 5000);
    assert!(c.idempotency_key.is_none());
    assert!(validate_command(&c).is_ok());
}

#[test]
fn missing_correlation_message() {
    let c = Command::new("x", "", 100, "x@1.0", Value::Null);
    match validate_command(&c) {
        Err(RiftError::Message(MessageReject::Rejected(m))) => {
            assert_eq!(m, "command requires correlation_id")
        }
        _ => panic!("expected Rejected"),
    }
}

#[test]
fn reply_ok_and_error() {
    let ok = Reply::ok("c1", obj("id", Value::from(7)));
    assert_eq!(ok.status, ReplyStatus::Success);
    let err = Reply::error("c1", "RIFT_AUTH_INVALID", "bad token");
    assert_eq!(err.status, ReplyStatus::Error);
    let e = err.error.unwrap();
    assert_eq!(e.code, "RIFT_AUTH_INVALID");
    assert_eq!(e.message, "bad token");
    assert!(err.payload.is_none());
}

#[test]
fn decode_empty_fails() {
    let r = validate_event_body(&[]);
    assert!(r.is_err());
    assert!(validate_event_body(b"{}").is_ok());
}

#[test]
fn event_new_and_size_hint() {
    let e = Event::new("chat.message.created", "01HZZZZZZZZZZZZZZZZZZZZZZ", "chat.message.created@1.0", obj("text", Value::from("hi")));
    assert!(e.dedupe_key.is_none() && e.ordering_key.is_none() && e.ttl_ms.is_none());
    // 20 + 25 + 24 bytes of text, plus `{"text":"hi"}`.
    assert_eq!(e.size_hint(), 20 + 25 + 24 + 13);
}

#[test]
fn class_names_and_default_delivery() {
    assert_eq!(MessageClass::Event.as_str(), "event");
    assert_eq!(MessageClass::Snapshot.as_str(), "snapshot");
    assert_eq!(DeliveryMode::default_for(MessageClass::State), DeliveryMode::LatestOnly);
    assert_eq!(DeliveryMode::default_for(MessageClass::Datagram), DeliveryMode::BestEffort);
    assert_eq!(DeliveryMode::default_for(MessageClass::Stream), DeliveryMode::DurableOrdered);
    assert_eq!(DeliveryMode::default_for(MessageClass::Command), DeliveryMode::AtLeastOnce);
}

#[test]
fn message_class_of_variant() {
    let m = Message::System { event: "ping".into(), payload: Value::Null };
    assert_eq!(m.class(), MessageClass::System);
    let e = Event::new("a", "b", "c", Value::Null);
    assert_eq!(Message::Event(e).class(), MessageClass::Event);
}
