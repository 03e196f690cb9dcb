use std::io;

use rifts::error::{FrameReject, MessageReject, RiftError, SessionReject};

fn boom() -> io::Error {
    io::Error::new(io::ErrorKind::Other, "boom")
}

#[test]
fn constructors_keep_messages() {
    match RiftError::other(boom()) {
        RiftError::Other(b) => assert_eq!(b.0, "boom"),
        e => panic!("unexpected {e:?}"),
    }
    match RiftError::from_cbor_ser(boom()) {
        RiftError::Cbor(b) => assert_eq!(b.0, "boom"),
        e => panic!("unexpected {e:?}"),
    }
    match RiftError::from_cbor_de(boom()) {
        RiftError::CborDe(b) => assert_eq!(b.0, "boom"),
        e => panic!("unexpected {e:?}"),
    }
    match RiftError::from_websocket(boom()) {
        RiftError::WebSocket(b) => assert_eq!(b.0, "boom"),
        e => panic!("unexpected {e:?}"),
    }
    let j = serde_json::from_slice::<serde_json::Value>(b"").unwrap_err();
    let text = j.to_string();
    match RiftError::from_serde_json(j) {
        RiftError::SerdeJson(b) => assert_eq!(b.0, text),
        e => panic!("unexpected {e:?}"),
    }
}

#[test]
fn layer_errors_convert() {
    assert!(matches!(
        RiftError::from(FrameReject::CodecUnsupported("x".into())),
        RiftError::Frame(FrameReject::CodecUnsupported(_))
    ));
    assert!(matches!(RiftError::from(SessionReject::Expired), RiftError::Session(SessionReject::Expired)));
    assert!(matches!(
        RiftError::from(MessageReject::Rejected("r".into())),
        RiftError::Message(MessageReject::Rejected(_))
    ));
    assert!(matches!(RiftError::from(boom()), RiftError::Io(_)));
}
