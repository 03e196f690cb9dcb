use std::sync::Arc;

use rifts::codec::{negotiate, CborCodec, Codec, JsonCodec};
use rifts::error::{FrameReject, RiftError};
use rifts::frame::Codec as FrameCodec;
use serde_json::Value;

fn sample() -> Value {
    let mut m = serde_json::Map::new();
    m.insert("name".to_string(), Value::String("rift".to_string()));
    m.insert("count".to_string(), Value::from(42u32));
    Value::Object(m)
}

fn server() -> Vec<Arc<dyn Codec>> {
    vec![Arc::new(CborCodec), Arc::new(JsonCodec)]
}

#[test]
fn cbor_round_trip() {
    let c = CborCodec;
    let s = sample();
    let bytes = c.encode_value(&s).unwrap();
    let back = c.decode_value(&bytes).unwrap();
    assert_eq!(back, s);
}

#[test]
fn cbor_frame_codec_tag() {
    assert_eq!(CborCodec.frame_codec(), FrameCodec::Cbor);
}

#[test]
fn json_round_trip() {
    let c = JsonCodec;
    let s = sample();
    let bytes = c.encode_value(&s).unwrap();
    let back = c.decode_value(&bytes).unwrap();
    assert_eq!(back, s);
}

#[test]
fn json_frame_codec_tag() {
    assert_eq!(JsonCodec.frame_codec(), FrameCodec::Json);
}

#[test]
fn json_encoding_is_compact_text() {
    let bytes = JsonCodec.encode_value(&sample()).unwrap();
    assert_eq!(&bytes[..], br#"{"count":42,"name":"rift"}"#);
}

#[test]
fn decode_errors_are_reported() {
    assert!(matches!(JsonCodec.decode_value(b""), Err(RiftError::SerdeJson(_))));
    assert!(matches!(CborCodec.decode_value(b""), Err(RiftError::CborDe(_))));
    assert!(matches!(JsonCodec.decode_value(b"{"), Err(RiftError::SerdeJson(_))));
}

#[test]
fn negotiate_follows_client_preference() {
    let s = server();
    let c = negotiate::<dyn Codec>(&s, &[FrameCodec::Json, FrameCodec::Cbor]).unwrap();
    assert_eq!(c.frame_codec(), FrameCodec::Json);
    let c = negotiate::<dyn Codec>(&s, &[FrameCodec::Cbor]).unwrap();
    assert_eq!(c.frame_codec(), FrameCodec::Cbor);
}

#[test]
fn negotiate_skips_unsupported_preferences() {
    let s: Vec<Arc<dyn Codec>> = vec![Arc::new(CborCodec)];
    let c = negotiate::<dyn Codec>(&s, &[FrameCodec::Json, FrameCodec::Cbor]).unwrap();
    assert_eq!(c.frame_codec(), FrameCodec::Cbor);
}

#[test]
fn negotiate_fails_with_offer_listed() {
    let s: Vec<Arc<dyn Codec>> = vec![Arc::new(CborCodec)];
    match negotiate::<dyn Codec>(&s, &[FrameCodec::Json]) {
        Err(RiftError::Frame(FrameReject::CodecUnsupported(m))) => {
            assert_eq!(m, "client offered [Json]")
        }
        _ => panic!("expected CodecUnsupported"),
    }
    let none: Vec<Arc<dyn Codec>> = Vec::new();
    match negotiate::<dyn Codec>(&none, &[FrameCodec::Json, FrameCodec::Cbor]) {
        Err(RiftError::Frame(FrameReject::CodecUnsupported(m))) => {
            assert_eq!(m, "client offered [Json, Cbor]")
        }
        _ => panic!("expected CodecUnsupported"),
    }
    match negotiate::<dyn Codec>(&s, &[]) {
        Err(RiftError::Frame(FrameReject::CodecUnsupported(m))) => {
            assert_eq!(m, "client offered []")
        }
        _ => panic!("expected CodecUnsupported"),
    }
}

#[test]
fn json_encoding_sorts_keys_and_decodes_back() {
    let v: serde_json::Value = serde_json::from_str("{ \"b\": 1, \"a\": [true, null] }").unwrap();
    let b = JsonCodec.encode_value(&v).unwrap();
    assert_eq!(&b[..], br#"{"a":[true,null],"b":1}"#);
    assert_eq!(JsonCodec.decode_value(&b).unwrap(), v);
    assert_eq!(JsonCodec.decode_value(b"[1,2]").unwrap(), serde_json::Value::Array(vec![1.into(), 2.into()]));
}

#[test]
fn cbor_encoding_bytes() {
    let one: serde_json::Value = 1.into();
    assert_eq!(&CborCodec.encode_value(&one).unwrap()[..], &[0x01]);
    let a: serde_json::Value = "a".into();
    assert_eq!(&CborCodec.encode_value(&a).unwrap()[..], &[0x61, 0x61]);
    assert_eq!(CborCodec.decode_value(&[0x61, 0x61]).unwrap(), a);
    assert_eq!(CborCodec.decode_value(&[0x82, 0x01, 0x02]).unwrap(), serde_json::Value::Array(vec![1.into(), 2.into()]));
}
