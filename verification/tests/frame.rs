use rifts::frame::{Codec, Frame, FrameFlags, FrameType, Priority};

#[test]
fn types_flag_round_trip() {
    let mut f = FrameFlags::empty();
    f.set(FrameFlags::COMPRESSED);
    f.set(FrameFlags::REQUIRES_ACK);
    assert!(f.contains(FrameFlags::COMPRESSED));
    assert!(f.contains(FrameFlags::REQUIRES_ACK));
    assert!(!f.contains(FrameFlags::ENCRYPTED));
    assert_eq!(f.bits(), FrameFlags::COMPRESSED | FrameFlags::REQUIRES_ACK);
}

#[test]
fn types_priority_default() {
    assert_eq!(Priority::default(), Priority::Normal);
}

#[test]
fn types_frame_type_tag() {
    for t in [
        FrameType::Control,
        FrameType::Data,
        FrameType::Ack,
        FrameType::Flow,
        FrameType::Error,
    ] {
        assert_eq!(FrameType::from_tag(t.tag()), Some(t));
    }
    assert_eq!(FrameType::from_tag(b'X'), None);
}

#[test]
fn types_codec_tag() {
    assert_eq!(Codec::from_tag(Codec::Json.tag()), Some(Codec::Json));
    assert_eq!(Codec::from_tag(Codec::Cbor.tag()), Some(Codec::Cbor));
    assert_eq!(Codec::from_tag(b'?'), None);
}

#[test]
fn envelope_flag_round_trip() {
    let mut f = FrameFlags::empty();
    f.set(FrameFlags::COMPRESSED);
    f.set(FrameFlags::REQUIRES_ACK);
    assert!(f.contains(FrameFlags::COMPRESSED));
    assert!(f.contains(FrameFlags::REQUIRES_ACK));
    assert!(!f.contains(FrameFlags::ENCRYPTED));
    assert_eq!(f.bits(), FrameFlags::COMPRESSED | FrameFlags::REQUIRES_ACK);
}

#[test]
fn envelope_priority_default() {
    assert_eq!(Priority::default(), Priority::Normal);
}

#[test]
fn envelope_frame_type_tag() {
    for t in [
        FrameType::Control,
        FrameType::Data,
        FrameType::Ack,
        FrameType::Flow,
        FrameType::Error,
    ] {
        assert_eq!(FrameType::from_tag(t.tag()), Some(t));
    }
    assert_eq!(FrameType::from_tag(b'X'), None);
}

#[test]
fn envelope_codec_tag() {
    assert_eq!(Codec::from_tag(Codec::Json.tag()), Some(Codec::Json));
    assert_eq!(Codec::from_tag(Codec::Cbor.tag()), Some(Codec::Cbor));
    assert_eq!(Codec::from_tag(b'?'), None);
}

#[test]
fn frame_constructors() {
    assert_eq!(Frame::control().frame_type, FrameType::Control);
    assert_eq!(Frame::data().frame_type, FrameType::Data);
    assert_eq!(Frame::ack().frame_type, FrameType::Ack);
    assert_eq!(Frame::flow().frame_type, FrameType::Flow);
    assert_eq!(Frame::error().frame_type, FrameType::Error);
}

#[test]
fn tags_are_ascii_letters() {
    assert_eq!(FrameType::Control.tag(), b'C');
    assert_eq!(FrameType::Data.tag(), b'D');
    assert_eq!(FrameType::Ack.tag(), b'A');
    assert_eq!(FrameType::Flow.tag(), b'F');
    assert_eq!(FrameType::Error.tag(), b'E');
    assert_eq!(Codec::Json.tag(), b'J');
    assert_eq!(Codec::Cbor.tag(), b'B');
    assert_eq!(FrameType::Flow.name(), "flow");
    assert_eq!(Codec::Cbor.name(), "cbor");
}

#[test]
fn priority_levels_round_trip() {
    for v in 0u8..=5 {
        let p = Priority::from_u8(v).unwrap();
        assert_eq!(p.as_u8(), v);
    }
    assert_eq!(Priority::from_u8(6), None);
    assert_eq!(Priority::from_u8(255), None);
    assert_eq!(Priority::Critical.as_u8(), 5);
    assert_eq!(Priority::Background.name(), "background");
    assert!(Priority::Low < Priority::High);
}

#[test]
fn flags_clear_and_without() {
    let f = FrameFlags::from_bits(FrameFlags::REPLAYED | FrameFlags::TRACE);
    let g = f.without(FrameFlags::REPLAYED);
    assert!(!g.contains(FrameFlags::REPLAYED));
    assert!(g.contains(FrameFlags::TRACE));
    assert_eq!(g.bits(), FrameFlags::TRACE);
    let h = g.with(FrameFlags::REPLAYED);
    assert_eq!(h.bits(), f.bits());
    let mut k = h;
    k.clear(FrameFlags::TRACE);
    assert_eq!(k.bits(), FrameFlags::REPLAYED);
    assert_eq!(FrameFlags::default().bits(), 0);
    assert!(FrameFlags::empty().contains(0));
}

#[test]
fn frame_marks() {
    let mut f = Frame::data();
    assert!(!f.is_replay());
    assert!(!f.is_snapshot());
    assert!(!f.requires_ack());
    f.mark_replay();
    assert!(f.is_replay());
    assert!(!f.is_snapshot());
    f.mark_snapshot();
    assert!(f.is_replay());
    assert!(f.is_snapshot());
    assert_eq!(f.flags.bits(), FrameFlags::REPLAYED | FrameFlags::SNAPSHOT);
    assert_eq!(f.frame_type, FrameType::Data);
    let d = Frame::default();
    assert_eq!(d.frame_type, FrameType::Control);
    assert_eq!(d.codec, Codec::Json);
    assert!(d.payload.is_none());
}

#[test]
fn flags_text() {
    assert_eq!(FrameFlags::empty().to_text(), "none");
    let f = FrameFlags::from_bits(FrameFlags::TRACE | FrameFlags::COMPRESSED);
    assert_eq!(f.to_text(), "compressed|trace");
    let f = FrameFlags::from_bits(FrameFlags::REQUIRES_ACK);
    assert_eq!(f.to_text(), "requires_ack");
    let all = FrameFlags::from_bits(0x3ff);
    assert_eq!(
        all.to_text(),
        "compressed|encrypted|fragmented|final_fragment|requires_ack|replayed|snapshot|degraded|duplicate|trace"
    );
    // Bits outside the known flags are not shown.
    assert_eq!(FrameFlags::from_bits(0x8000).to_text(), "none");
}

#[test]
fn priority_order_follows_level() {
    let all = [
        Priority::Background,
        Priority::Volatile,
        Priority::Low,
        Priority::Normal,
        Priority::High,
        Priority::Critical,
    ];
    for p in all {
        for q in all {
            assert_eq!(p < q, p.as_u8() < q.as_u8());
            assert_eq!(p.cmp(&q), p.as_u8().cmp(&q.as_u8()));
        }
    }
    assert_eq!(all.iter().max(), Some(&Priority::Critical));
}
