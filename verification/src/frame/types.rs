//! Frame-level primitives: `FrameType`, `Codec`, `Priority` and
//! `FrameFlags`.

use std::cmp::Ordering;

use vstd::prelude::*;
use vstd::std_specs::cmp::{PartialOrdSpec, PartialOrdSpecImpl};
use vstd::string::StringExecFns;

verus! {

/// Frame category.
#[derive(Debug, Clone, Copy, PartialEq, Eq, Hash, Structural)]
pub enum FrameType {
    /// hello, welcome, ready, ping, pong, subscribe, unsubscribe, resume.
    Control,
    /// event, state, command, reply, datagram.
    Data,
    /// Acknowledgement of a previously sent frame.
    Ack,
    /// Flow-control, backpressure, window or degradation notice.
    Flow,
    /// Protocol, permission, business or system error.
    Error,
}

/// The one-byte tag of each frame type: the ASCII letters
/// `C`, `D`, `A`, `F`, `E`.
pub open spec fn frame_type_tag(t: FrameType) -> u8 {
    match t {
        FrameType::Control => 67u8,
        FrameType::Data => 68u8,
        FrameType::Ack => 65u8,
        FrameType::Flow => 70u8,
        FrameType::Error => 69u8,
    }
}

/// The frame type whose tag is `tag`, if any.
pub open spec fn frame_type_of_tag(tag: u8) -> Option<FrameType> {
    if tag == 67u8 {
        Some(FrameType::Control)
    } else if tag == 68u8 {
        Some(FrameType::Data)
    } else if tag == 65u8 {
        Some(FrameType::Ack)
    } else if tag == 70u8 {
        Some(FrameType::Flow)
    } else if tag == 69u8 {
        Some(FrameType::Error)
    } else {
        None
    }
}

/// The lower-case display name of each frame type.
pub open spec fn frame_type_name(t: FrameType) -> Seq<char> {
    match t {
        FrameType::Control => "control"@,
        FrameType::Data => "data"@,
        FrameType::Ack => "ack"@,
        FrameType::Flow => "flow"@,
        FrameType::Error => "error"@,
    }
}

impl FrameType {
    /// Short single-letter tag used in compact encodings.
    pub fn tag(self) -> (r: u8)
        ensures
            r == frame_type_tag(self),
    {
        match self {
            FrameType::Control => 67u8,
            FrameType::Data => 68u8,
            FrameType::Ack => 65u8,
            FrameType::Flow => 70u8,
            FrameType::Error => 69u8,
        }
    }

    /// The frame type with the given tag; `None` for any other byte.
    pub fn from_tag(tag: u8) -> (r: Option<FrameType>)
        ensures
            r == frame_type_of_tag(tag),
    {
        match tag {
            67u8 => Some(FrameType::Control),
            68u8 => Some(FrameType::Data),
            65u8 => Some(FrameType::Ack),
            70u8 => Some(FrameType::Flow),
            69u8 => Some(FrameType::Error),
            _ => None,
        }
    }

    /// The lower-case name used when a frame type is displayed.
    pub fn name(self) -> (r: &'static str)
        ensures
            r@ == frame_type_name(self),
    {
        proof {
            reveal_strlit("control");
            reveal_strlit("data");
            reveal_strlit("ack");
            reveal_strlit("flow");
            reveal_strlit("error");
        }
        match self {
            FrameType::Control => "control",
            FrameType::Data => "data",
            FrameType::Ack => "ack",
            FrameType::Flow => "flow",
            FrameType::Error => "error",
        }
    }
}

/// Decoding the tag of a frame type gives that frame type back, and a
/// byte is decoded exactly when it is the tag of some frame type.
pub proof fn lemma_frame_type_tag_round_trip(t: FrameType, tag: u8)
    ensures
        frame_type_of_tag(frame_type_tag(t)) == Some(t),
        frame_type_of_tag(tag) matches Some(u) ==> frame_type_tag(u) == tag,
{
}

/// Encoding of a frame payload.
#[derive(Debug, Clone, Copy, PartialEq, Eq, Hash, Structural)]
pub enum Codec {
    /// JSON: debug and development only.
    Json,
    /// CBOR: the default binary codec.
    Cbor,
}

/// The one-byte tag of each codec: `J` for JSON, `B` for CBOR.
pub open spec fn codec_tag(c: Codec) -> u8 {
    match c {
        Codec::Json => 74u8,
        Codec::Cbor => 66u8,
    }
}

/// The codec whose tag is `tag`, if any.
pub open spec fn codec_of_tag(tag: u8) -> Option<Codec> {
    if tag == 74u8 {
        Some(Codec::Json)
    } else if tag == 66u8 {
        Some(Codec::Cbor)
    } else {
        None
    }
}

/// The name of each codec.
pub open spec fn codec_name(c: Codec) -> Seq<char> {
    match c {
        Codec::Json => "json"@,
        Codec::Cbor => "cbor"@,
    }
}

impl Codec {
    /// Tag byte of this codec.
    pub fn tag(self) -> (r: u8)
        ensures
            r == codec_tag(self),
    {
        match self {
            Codec::Json => 74u8,
            Codec::Cbor => 66u8,
        }
    }

    /// The codec with the given tag; `None` for any other byte.
    pub fn from_tag(tag: u8) -> (r: Option<Codec>)
        ensures
            r == codec_of_tag(tag),
    {
        match tag {
            74u8 => Some(Codec::Json),
            66u8 => Some(Codec::Cbor),
            _ => None,
        }
    }

    /// The codec's name, also used when it is displayed.
    pub fn name(self) -> (r: &'static str)
        ensures
            r@ == codec_name(self),
    {
        proof {
            reveal_strlit("json");
            reveal_strlit("cbor");
        }
        match self {
            Codec::Json => "json",
            Codec::Cbor => "cbor",
        }
    }
}

/// Decoding the tag of a codec gives that codec back, and a byte is
/// decoded exactly when it is the tag of some codec.
pub proof fn lemma_codec_tag_round_trip(c: Codec, tag: u8)
    ensures
        codec_of_tag(codec_tag(c)) == Some(c),
        codec_of_tag(tag) matches Some(d) ==> codec_tag(d) == tag,
{
}

/// Message priority. Orders transmission and decides what is dropped
/// under backpressure.
#[derive(Debug, Clone, Copy, PartialEq, Eq, Hash, Ord, Structural)]
pub enum Priority {
    /// Level 0.
    Background,
    /// Level 1.
    Volatile,
    /// Level 2.
    Low,
    /// Level 3, the default.
    Normal,
    /// Level 4.
    High,
    /// Level 5.
    Critical,
}

/// The numeric level of each priority, from 0 (background) to
/// 5 (critical).
pub open spec fn priority_level(p: Priority) -> u8 {
    match p {
        Priority::Background => 0u8,
        Priority::Volatile => 1u8,
        Priority::Low => 2u8,
        Priority::Normal => 3u8,
        Priority::High => 4u8,
        Priority::Critical => 5u8,
    }
}

/// The priority with the given level, if the level is at most 5.
pub open spec fn priority_of_level(v: u8) -> Option<Priority> {
    if v == 0 {
        Some(Priority::Background)
    } else if v == 1 {
        Some(Priority::Volatile)
    } else if v == 2 {
        Some(Priority::Low)
    } else if v == 3 {
        Some(Priority::Normal)
    } else if v == 4 {
        Some(Priority::High)
    } else if v == 5 {
        Some(Priority::Critical)
    } else {
        None
    }
}

/// The lower-case display name of each priority.
pub open spec fn priority_name(p: Priority) -> Seq<char> {
    match p {
        Priority::Background => "background"@,
        Priority::Volatile => "volatile"@,
        Priority::Low => "low"@,
        Priority::Normal => "normal"@,
        Priority::High => "high"@,
        Priority::Critical => "critical"@,
    }
}

impl Priority {
    /// The priority with level `v`; `None` when `v > 5`.
    pub fn from_u8(v: u8) -> (r: Option<Priority>)
        ensures
            r == priority_of_level(v),
            r is Some <==> v <= 5,
    {
        match v {
            0u8 => Some(Priority::Background),
            1u8 => Some(Priority::Volatile),
            2u8 => Some(Priority::Low),
            3u8 => Some(Priority::Normal),
            4u8 => Some(Priority::High),
            5u8 => Some(Priority::Critical),
            _ => None,
        }
    }

    /// The numeric level of this priority.
    pub fn as_u8(self) -> (r: u8)
        ensures
            r == priority_level(self),
            r <= 5,
    {
        match self {
            Priority::Background => 0u8,
            Priority::Volatile => 1u8,
            Priority::Low => 2u8,
            Priority::Normal => 3u8,
            Priority::High => 4u8,
            Priority::Critical => 5u8,
        }
    }

    /// The lower-case name used when a priority is displayed.
    pub fn name(self) -> (r: &'static str)
        ensures
            r@ == priority_name(self),
    {
        proof {
            reveal_strlit("background");
            reveal_strlit("volatile");
            reveal_strlit("low");
            reveal_strlit("normal");
            reveal_strlit("high");
            reveal_strlit("critical");
        }
        match self {
            Priority::Background => "background",
            Priority::Volatile => "volatile",
            Priority::Low => "low",
            Priority::Normal => "normal",
            Priority::High => "high",
            Priority::Critical => "critical",
        }
    }
}

impl Default for Priority {
    /// The default priority is `Normal`.
    fn default() -> (r: Priority)
        ensures
            r == Priority::Normal,
    {
        Priority::Normal
    }
}

/// Priorities compare by level: the lower level is the lower priority.
pub open spec fn priority_order(p: Priority, q: Priority) -> Option<Ordering> {
    if priority_level(p) < priority_level(q) {
        Some(Ordering::Less)
    } else if priority_level(p) == priority_level(q) {
        Some(Ordering::Equal)
    } else {
        Some(Ordering::Greater)
    }
}

impl PartialOrd for Priority {
    fn partial_cmp(&self, other: &Priority) -> (r: Option<Ordering>) {
        let a = self.as_u8();
        let b = other.as_u8();
        if a < b {
            Some(Ordering::Less)
        } else if a == b {
            Some(Ordering::Equal)
        } else {
            Some(Ordering::Greater)
        }
    }
}

impl PartialOrdSpecImpl for Priority {
    open spec fn obeys_partial_cmp_spec() -> bool {
        true
    }

    open spec fn partial_cmp_spec(&self, other: &Priority) -> Option<Ordering> {
        priority_order(*self, *other)
    }
}

/// `<` on priorities is `<` on their levels, and priorities of equal
/// level are the same priority.
pub proof fn lemma_priority_order_by_level(p: Priority, q: Priority)
    ensures
        (PartialOrdSpec::partial_cmp_spec(&p, &q) == Some(Ordering::Less)) == (priority_level(p) < priority_level(q)),
        (PartialOrdSpec::partial_cmp_spec(&p, &q) == Some(Ordering::Equal)) == (p == q),
{
}

/// A priority's level converts back to the same priority, a level in
/// 0 through 5 names the priority it came from, and no two priorities
/// share a level.
pub proof fn lemma_priority_level_round_trip(p: Priority, q: Priority, v: u8)
    ensures
        priority_of_level(priority_level(p)) == Some(p),
        priority_of_level(v) matches Some(r) ==> priority_level(r) == v,
        priority_level(p) == priority_level(q) ==> p == q,
{
}

/// Bit flags on a frame, stored as a `u16` bitset.
#[derive(Debug, Clone, Copy, PartialEq, Eq, Hash, Structural)]
pub struct FrameFlags(pub u16);

impl FrameFlags {
    /// Payload is compressed.
    pub const COMPRESSED: u16 = 1;
    /// Payload is encrypted.
    pub const ENCRYPTED: u16 = 2;
    /// Frame is one fragment of a larger message.
    pub const FRAGMENTED: u16 = 4;
    /// Frame is the final fragment.
    pub const FINAL_FRAGMENT: u16 = 8;
    /// Receiver must acknowledge the frame.
    pub const REQUIRES_ACK: u16 = 16;
    /// Frame is a replay.
    pub const REPLAYED: u16 = 32;
    /// Frame carries a snapshot.
    pub const SNAPSHOT: u16 = 64;
    /// Delivery is degraded.
    pub const DEGRADED: u16 = 128;
    /// Frame is a known duplicate.
    pub const DUPLICATE: u16 = 256;
    /// Frame carries trace context.
    pub const TRACE: u16 = 512;

    /// Whether every bit of `flag` is set in `bits`.
    pub open spec fn has(bits: u16, flag: u16) -> bool {
        bits & flag == flag
    }

    /// No flag set.
    pub fn empty() -> (r: FrameFlags)
        ensures
            r.0 == 0,
    {
        FrameFlags(0)
    }

    /// The flags with exactly the given bits.
    pub fn from_bits(bits: u16) -> (r: FrameFlags)
        ensures
            r.0 == bits,
    {
        FrameFlags(bits)
    }

    /// The raw bits.
    pub fn bits(self) -> (r: u16)
        ensures
            r == self.0,
    {
        self.0
    }

    /// Whether every bit of `flag` is set.
    pub fn contains(self, flag: u16) -> (r: bool)
        ensures
            r == FrameFlags::has(self.0, flag),
    {
        self.0 & flag == flag
    }

    /// Sets every bit of `flag`.
    pub fn set(&mut self, flag: u16)
        ensures
            final(self).0 == old(self).0 | flag,
    {
        self.0 = self.0 | flag;
    }

    /// Clears every bit of `flag`.
    pub fn clear(&mut self, flag: u16)
        ensures
            final(self).0 == old(self).0 & !flag,
    {
        self.0 = self.0 & !flag;
    }

    /// These flags with every bit of `flag` set.
    pub fn with(self, flag: u16) -> (r: FrameFlags)
        ensures
            r.0 == self.0 | flag,
    {
        let mut f = self;
        f.set(flag);
        f
    }

    /// These flags with every bit of `flag` cleared.
    pub fn without(self, flag: u16) -> (r: FrameFlags)
        ensures
            r.0 == self.0 & !flag,
    {
        let mut f = self;
        f.clear(flag);
        f
    }
}

/// The name of the `k`-th flag, in the order flags are listed.
pub open spec fn flag_name(k: int) -> Seq<char> {
    if k == 0 {
        "compressed"@
    } else if k == 1 {
        "encrypted"@
    } else if k == 2 {
        "fragmented"@
    } else if k == 3 {
        "final_fragment"@
    } else if k == 4 {
        "requires_ack"@
    } else if k == 5 {
        "replayed"@
    } else if k == 6 {
        "snapshot"@
    } else if k == 7 {
        "degraded"@
    } else if k == 8 {
        "duplicate"@
    } else {
        "trace"@
    }
}

/// The bit of the `k`-th flag: bit `k`.
pub open spec fn flag_bit(k: int) -> u16 {
    if k == 0 {
        1u16
    } else if k == 1 {
        2u16
    } else if k == 2 {
        4u16
    } else if k == 3 {
        8u16
    } else if k == 4 {
        16u16
    } else if k == 5 {
        32u16
    } else if k == 6 {
        64u16
    } else if k == 7 {
        128u16
    } else if k == 8 {
        256u16
    } else {
        512u16
    }
}

/// The names of the flags among the first `k` that are set in `bits`,
/// in order.
pub open spec fn set_flag_names(bits: u16, k: int) -> Seq<Seq<char>>
    decreases k,
{
    if k <= 0 {
        Seq::empty()
    } else if FrameFlags::has(bits, flag_bit(k - 1)) {
        set_flag_names(bits, k - 1).push(flag_name(k - 1))
    } else {
        set_flag_names(bits, k - 1)
    }
}

/// The names joined by `|`.
pub open spec fn bar_joined(names: Seq<Seq<char>>) -> Seq<char>
    decreases names.len(),
{
    if names.len() == 0 {
        Seq::empty()
    } else if names.len() == 1 {
        names[0]
    } else {
        bar_joined(names.drop_last()) + "|"@ + names.last()
    }
}

/// How flags are displayed: the names of the set flags joined by `|`,
/// or `none`.
pub open spec fn flags_text(bits: u16) -> Seq<char> {
    if set_flag_names(bits, 10).len() == 0 {
        "none"@
    } else {
        bar_joined(set_flag_names(bits, 10))
    }
}

fn flag_at(k: usize) -> (r: (&'static str, u16))
    requires
        k < 10,
    ensures
        r.0@ == flag_name(k as int),
        r.1 == flag_bit(k as int),
{
    match k {
        0 => ("compressed", FrameFlags::COMPRESSED),
        1 => ("encrypted", FrameFlags::ENCRYPTED),
        2 => ("fragmented", FrameFlags::FRAGMENTED),
        3 => ("final_fragment", FrameFlags::FINAL_FRAGMENT),
        4 => ("requires_ack", FrameFlags::REQUIRES_ACK),
        5 => ("replayed", FrameFlags::REPLAYED),
        6 => ("snapshot", FrameFlags::SNAPSHOT),
        7 => ("degraded", FrameFlags::DEGRADED),
        8 => ("duplicate", FrameFlags::DUPLICATE),
        _ => ("trace", FrameFlags::TRACE),
    }
}

impl FrameFlags {
    /// The flags as displayed: the names of the set flags, in a fixed
    /// order, joined by `|`; `none` when no flag is set.
    pub fn to_text(self) -> (r: String)
        ensures
            r@ == flags_text(self.0),
    {
        let mut s = String::new();
        let mut first = true;
        let mut k: usize = 0;
        while k < 10
            invariant
                k <= 10,
                s@ == bar_joined(set_flag_names(self.0, k as int)),
                first == (set_flag_names(self.0, k as int).len() == 0),
            decreases 10 - k,
        {
            let (name, flag) = flag_at(k);
            if self.contains(flag) {
                let ghost names = set_flag_names(self.0, k as int);
                if !first {
                    s.append("|");
                }
                first = false;
                s.append(name);
                proof {
                    let next = set_flag_names(self.0, k as int + 1);
                    assert(next == names.push(flag_name(k as int)));
                    assert(next.drop_last() =~= names);
                    assert(s@ =~= bar_joined(next));
                }
            }
            k = k + 1;
        }
        if first {
            s.append("none");
            assert(s@ =~= "none"@);
        }
        s
    }
}

impl Default for FrameFlags {
    /// No flag set.
    fn default() -> (r: FrameFlags)
        ensures
            r.0 == 0,
    {
        FrameFlags(0)
    }
}

/// Setting a flag makes it present and keeps every flag that was
/// present; clearing a non-empty single-bit flag makes it absent and
/// keeps every flag that shares no bit with it.
pub proof fn lemma_flags_set_clear(bits: u16, flag: u16, other: u16)
    ensures
        FrameFlags::has(bits | flag, flag),
        FrameFlags::has(bits, other) ==> FrameFlags::has(bits | flag, other),
        flag != 0 ==> !FrameFlags::has(bits & !flag, flag),
        FrameFlags::has(bits, other) && other & flag == 0 ==> FrameFlags::has(bits & !flag, other),
{
    assert(FrameFlags::has(bits | flag, flag)) by (bit_vector);
    assert(FrameFlags::has(bits, other) ==> FrameFlags::has(bits | flag, other)) by (bit_vector);
    assert(flag != 0 ==> !FrameFlags::has(bits & !flag, flag)) by (bit_vector);
    assert(FrameFlags::has(bits, other) && other & flag == 0 ==> FrameFlags::has(
        bits & !flag,
        other,
    )) by (bit_vector);
}

/// Clearing a flag undoes setting it when the flag was absent before,
/// and setting undoes clearing when it was present before.
pub proof fn lemma_flags_set_clear_inverse(bits: u16, flag: u16)
    ensures
        bits & flag == 0 ==> (bits | flag) & !flag == bits,
        FrameFlags::has(bits, flag) ==> (bits & !flag) | flag == bits,
{
    assert(bits & flag == 0 ==> (bits | flag) & !flag == bits) by (bit_vector);
    assert(FrameFlags::has(bits, flag) ==> (bits & !flag) | flag == bits) by (bit_vector);
}

} // verus!
