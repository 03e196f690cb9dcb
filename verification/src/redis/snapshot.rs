//! The record a snapshot is stored as in Redis: a hash whose fields are
//! text (`snapshot_id`, `topic`, `base_offset`, `payload` as lowercase
//! hex, `created_at`, `expires_at`, empty when the snapshot does not
//! expire).

use std::time::Duration;

use bytes::Bytes;
use vstd::prelude::*;
use vstd::string::{StringExecFns, StringSliceAdditionalSpecFns};
use crate::payload::{bytes_as_slice, bytes_content, bytes_from_vec};
use crate::storage::snapshot::StoredSnapshot;
use crate::text::{decimal_text, int_text, lemma_decimal_round_trip, parse_i64, parsed_i64};
use crate::time::duration_millis;
use crate::topic::log::TopicLog;

verus! {

/// The lowercase hex digit of `d`.
pub open spec fn hex_digit(d: int) -> char {
    if d < 10 {
        ((d + 48) as u8) as char
    } else {
        ((d + 87) as u8) as char
    }
}

/// Each byte as two lowercase hex digits, high nibble first.
pub open spec fn hex_text(b: Seq<u8>) -> Seq<char>
    decreases b.len(),
{
    if b.len() == 0 {
        Seq::empty()
    } else {
        hex_text(b.drop_last()) + seq![hex_digit(b.last() as int / 16), hex_digit(b.last() as int % 16)]
    }
}

fn nibble_str(d: u8) -> (r: &'static str)
    requires
        d < 16,
    ensures
        r@ == seq![hex_digit(d as int)],
{
    proof {
        reveal_strlit("0");
        reveal_strlit("1");
        reveal_strlit("2");
        reveal_strlit("3");
        reveal_strlit("4");
        reveal_strlit("5");
        reveal_strlit("6");
        reveal_strlit("7");
        reveal_strlit("8");
        reveal_strlit("9");
        reveal_strlit("a");
        reveal_strlit("b");
        reveal_strlit("c");
        reveal_strlit("d");
        reveal_strlit("e");
        reveal_strlit("f");
    }
    match d {
        0 => "0",
        1 => "1",
        2 => "2",
        3 => "3",
        4 => "4",
        5 => "5",
        6 => "6",
        7 => "7",
        8 => "8",
        9 => "9",
        10 => "a",
        11 => "b",
        12 => "c",
        13 => "d",
        14 => "e",
        _ => "f",
    }
}

/// The payload text of a stored snapshot: each byte as two lowercase
/// hex digits.
pub fn base64_encode(data: &Bytes) -> (r: String)
    ensures
        r@ == hex_text(bytes_content(*data)),
{
    let b = bytes_as_slice(data);
    let mut s = String::new();
    let mut i: usize = 0;
    while i < b.len()
        invariant
            i <= b@.len(),
            s@ == hex_text(b@.take(i as int)),
        decreases b.len() - i,
    {
        let x = b[i];
        s.append(nibble_str(x / 16));
        s.append(nibble_str(x % 16));
        proof {
            assert(b@.take(i as int + 1).drop_last() =~= b@.take(i as int));
            assert(s@ =~= hex_text(b@.take(i as int + 1)));
        }
        i = i + 1;
    }
    assert(b@.take(b@.len() as int) =~= b@);
    s
}

/// The value of a hex digit byte, either case.
pub open spec fn hex_value(c: u8) -> Option<int> {
    if 48 <= c <= 57 {
        Some(c - 48)
    } else if 97 <= c <= 102 {
        Some(c - 87)
    } else if 65 <= c <= 70 {
        Some(c - 55)
    } else {
        None
    }
}

/// The byte two characters of hex denote as `u8::from_str_radix(.., 16)`
/// reads them: two hex digits, or `+` and one hex digit.
pub open spec fn hex_pair(c0: u8, c1: u8) -> Option<u8> {
    if c0 == 43u8 {
        match hex_value(c1) {
            Some(v) => Some(v as u8),
            None => None,
        }
    } else {
        match (hex_value(c0), hex_value(c1)) {
            (Some(a), Some(b)) => Some((16 * a + b) as u8),
            _ => None,
        }
    }
}

/// The bytes read back from payload text: each complete pair of
/// characters that denotes a byte gives it; other pairs and a trailing
/// odd character are skipped.
pub open spec fn hex_decoded(b: Seq<u8>) -> Seq<u8>
    decreases b.len(),
{
    if b.len() < 2 {
        Seq::empty()
    } else {
        match hex_pair(b[0], b[1]) {
            Some(v) => seq![v] + hex_decoded(b.skip(2)),
            None => hex_decoded(b.skip(2)),
        }
    }
}

/// Whether the text can be cut into pairs of characters: every even
/// byte index up to the last complete pair, and the end of that pair,
/// fall on character boundaries.
pub open spec fn pairs_on_boundaries(b: Seq<u8>) -> bool {
    forall|i: int|
        0 <= i && i % 2 == 0 && i + 2 <= b.len() ==> #[trigger] vstd::utf8::is_char_boundary(b, i)
            && vstd::utf8::is_char_boundary(b, i + 2)
}

fn hex_value_of(c: u8) -> (r: Option<u8>)
    ensures
        match hex_value(c) {
            Some(v) => r == Some(v as u8),
            None => r is None,
        },
{
    if 48u8 <= c && c <= 57u8 {
        Some(c - 48u8)
    } else if 97u8 <= c && c <= 102u8 {
        Some(c - 87u8)
    } else if 65u8 <= c && c <= 70u8 {
        Some(c - 55u8)
    } else {
        None
    }
}

fn hex_pair_of(c0: u8, c1: u8) -> (r: Option<u8>)
    ensures
        r == hex_pair(c0, c1),
{
    if c0 == 43u8 {
        hex_value_of(c1)
    } else {
        match (hex_value_of(c0), hex_value_of(c1)) {
            (Some(a), Some(b)) => Some(16 * a + b),
            _ => None,
        }
    }
}

/// The payload read back from its stored text.
pub fn base64_decode(hex: &str) -> (r: Bytes)
    requires
        pairs_on_boundaries(hex.spec_bytes()),
    ensures
        bytes_content(r) == hex_decoded(hex.spec_bytes()),
{
    let b = hex.as_bytes();
    let mut out: Vec<u8> = Vec::new();
    let mut i: usize = 0;
    assert(b@.skip(0) =~= b@);
    assert(out@ + hex_decoded(b@) =~= hex_decoded(b@));
    while i < b.len() && b.len() - i >= 2
        invariant
            i <= b@.len(),
            i % 2 == 0,
            hex_decoded(b@) == out@ + hex_decoded(b@.skip(i as int)),
        decreases b.len() - i,
    {
        let ghost rest = b@.skip(i as int);
        assert(rest.skip(2) =~= b@.skip(i as int + 2));
        assert(rest[0] == b@[i as int] && rest[1] == b@[i as int + 1]);
        match hex_pair_of(b[i], b[i + 1]) {
            Some(v) => {
                out.push(v);
                assert(hex_decoded(b@) =~= out@ + hex_decoded(b@.skip(i as int + 2)));
            },
            None => {},
        }
        i = i + 2;
    }
    assert(hex_decoded(b@.skip(i as int)) =~= Seq::<u8>::empty());
    assert(out@ =~= hex_decoded(b@));
    bytes_from_vec(out)
}

/// The id of the snapshot taken at `offset`: `snap-{offset}`.
pub fn snapshot_id_for(offset: i64) -> (r: String)
    ensures
        r@ == "snap-"@ + int_text(offset as int),
{
    let mut s = String::from_str("snap-");
    let d = decimal_text(offset);
    s.append(d.as_str());
    s
}

/// When a snapshot taken at `now` with time-to-live `ttl` expires: `now`
/// plus the TTL's whole milliseconds; never without a TTL.
pub fn expires_at_for(now: i64, ttl: Option<Duration>) -> (r: Option<i64>)
    requires
        ttl matches Some(d) ==> i64::MIN <= now + ((duration_millis(d) as u128) as i64) <= i64::MAX,
    ensures
        match ttl {
            Some(d) => r == Some((now + ((duration_millis(d) as u128) as i64)) as i64),
            None => r is None,
        },
{
    match ttl {
        Some(d) => {
            let ms = d.as_millis() as i64;
            Some(now + ms)
        },
        None => None,
    }
}

/// The text stored for an optional time: its decimal text, or empty.
pub fn optional_decimal(v: Option<i64>) -> (r: String)
    ensures
        r@ == (match v {
            Some(x) => int_text(x as int),
            None => Seq::empty(),
        }),
{
    match v {
        Some(x) => decimal_text(x),
        None => String::new(),
    }
}

/// The number a stored field holds, or 0 when it holds none.
pub open spec fn field_number(b: Seq<u8>) -> i64 {
    match parsed_i64(b) {
        Some(v) => v,
        None => 0,
    }
}

/// The snapshot a stored record describes, read at time `now`: none
/// when the record has fewer than six fields or no id, or when it has
/// expired (`now` past its expiry); numbers that do not parse read as 0,
/// and an expiry that does not parse as no expiry.
pub fn snapshot_from_fields(fields: &Vec<String>, now: i64) -> (r: Option<StoredSnapshot>)
    requires
        fields@.len() >= 6 && fields@[0]@.len() > 0 ==> pairs_on_boundaries(
            vstd::utf8::encode_utf8(fields@[3]@),
        ),
    ensures
        fields@.len() < 6 || fields@[0]@.len() == 0 ==> r is None,
        fields@.len() >= 6 && fields@[0]@.len() > 0 ==> {
            let expires = optional_field(fields@[5]@);
            match r {
                None => expires matches Some(e) && now > e,
                Some(s) => {
                    &&& !(expires matches Some(e) && now > e)
                    &&& s.snapshot_id@ == fields@[0]@
                    &&& s.topic@ == fields@[1]@
                    &&& s.base_offset == field_number(vstd::utf8::encode_utf8(fields@[2]@))
                    &&& bytes_content(s.payload) == hex_decoded(vstd::utf8::encode_utf8(fields@[3]@))
                    &&& s.created_at == field_number(vstd::utf8::encode_utf8(fields@[4]@))
                    &&& s.expires_at == expires
                },
            }
        },
{
    if fields.len() < 6 || fields[0].as_str().is_empty() {
        return None;
    }
    let snapshot_id = fields[0].clone();
    let topic = fields[1].clone();
    let base_offset = match parse_i64(fields[2].as_str()) {
        Some(v) => v,
        None => 0,
    };
    let payload = base64_decode(fields[3].as_str());
    let created_at = match parse_i64(fields[4].as_str()) {
        Some(v) => v,
        None => 0,
    };
    let expires_at = if fields[5].as_str().is_empty() {
        None
    } else {
        parse_i64(fields[5].as_str())
    };
    if let Some(exp) = expires_at {
        if now > exp {
            return None;
        }
    }
    Some(StoredSnapshot { snapshot_id, topic, base_offset, payload, created_at, expires_at })
}

proof fn lemma_hex_digit(d: int)
    requires
        0 <= d < 16,
    ensures
        hex_value(hex_digit(d) as u8) == Some(d),
        hex_digit(d) as u8 != 43u8,
        '\0' <= hex_digit(d) <= '\u{7f}',
{
}

proof fn lemma_hex_text_shape(b: Seq<u8>)
    ensures
        hex_text(b).len() == 2 * b.len(),
        forall|k: int|
            0 <= k < b.len() ==> hex_text(b)[2 * k] == hex_digit(#[trigger] b[k] as int / 16)
                && hex_text(b)[2 * k + 1] == hex_digit(b[k] as int % 16),
    decreases b.len(),
{
    if b.len() > 0 {
        let p = b.drop_last();
        lemma_hex_text_shape(p);
        assert forall|k: int| 0 <= k < b.len() implies hex_text(b)[2 * k] == hex_digit(
            #[trigger] b[k] as int / 16,
        ) && hex_text(b)[2 * k + 1] == hex_digit(b[k] as int % 16) by {
            if k < p.len() {
                assert(b[k] == p[k]);
            }
        }
    }
}

proof fn lemma_pairs_decode(bytes: Seq<u8>, b: Seq<u8>)
    requires
        bytes.len() == 2 * b.len(),
        forall|k: int| 0 <= k < b.len() ==> hex_pair(bytes[2 * k], bytes[2 * k + 1]) == Some(#[trigger] b[k]),
    ensures
        hex_decoded(bytes) == b,
    decreases b.len(),
{
    if b.len() > 0 {
        let rest = bytes.skip(2);
        let tail = b.drop_first();
        assert forall|k: int| 0 <= k < tail.len() implies hex_pair(rest[2 * k], rest[2 * k + 1]) == Some(
            #[trigger] tail[k],
        ) by {
            assert(tail[k] == b[k + 1]);
            assert(rest[2 * k] == bytes[2 * (k + 1)]);
            assert(rest[2 * k + 1] == bytes[2 * (k + 1) + 1]);
        }
        lemma_pairs_decode(rest, tail);
        assert(hex_pair(bytes[0], bytes[1]) == Some(b[0]));
        assert(seq![b[0]] + tail =~= b);
    } else {
        assert(hex_decoded(bytes) =~= b);
    }
}

/// Payload text reads back as the payload, and can be cut into pairs.
pub proof fn lemma_hex_round_trip(p: Seq<u8>)
    ensures
        hex_decoded(vstd::utf8::encode_utf8(hex_text(p))) == p,
        pairs_on_boundaries(vstd::utf8::encode_utf8(hex_text(p))),
{
    let t = hex_text(p);
    lemma_hex_text_shape(p);
    assert(vstd::utf8::is_ascii_chars(t)) by {
        assert forall|i: int| 0 <= i < t.len() implies '\0' <= #[trigger] t[i] <= '\u{7f}' by {
            let k = i / 2;
            assert(0 <= k < p.len());
            lemma_hex_digit(p[k] as int / 16);
            lemma_hex_digit(p[k] as int % 16);
            if i % 2 == 0 {
                assert(i == 2 * k);
            } else {
                assert(i == 2 * k + 1);
            }
        }
    }
    vstd::utf8::is_ascii_chars_encode_utf8(t);
    let bytes = vstd::utf8::encode_utf8(t);
    assert forall|k: int| 0 <= k < p.len() implies hex_pair(bytes[2 * k], bytes[2 * k + 1]) == Some(
        #[trigger] p[k],
    ) by {
        lemma_hex_digit(p[k] as int / 16);
        lemma_hex_digit(p[k] as int % 16);
        assert(bytes[2 * k] == t[2 * k] as u8);
        assert(bytes[2 * k + 1] == t[2 * k + 1] as u8);
        assert(16 * (p[k] as int / 16) + p[k] as int % 16 == p[k]);
    }
    lemma_pairs_decode(bytes, p);
    vstd::utf8::encode_utf8_valid_utf8(t);
    vstd::utf8::is_char_boundary_start_end_of_seq(bytes);
    assert forall|i: int| 0 <= i && i % 2 == 0 && i + 2 <= bytes.len() implies #[trigger] vstd::utf8::is_char_boundary(
        bytes,
        i,
    ) && vstd::utf8::is_char_boundary(bytes, i + 2) by {
        vstd::utf8::is_char_boundary_iff_not_is_continuation_byte(bytes, i);
        assert(bytes[i] == t[i] as u8);
        if i + 2 < bytes.len() {
            vstd::utf8::is_char_boundary_iff_not_is_continuation_byte(bytes, i + 2);
            assert(bytes[i + 2] == t[i + 2] as u8);
        }
    }
}

/// The text of an optional time read back: empty text is no time.
pub open spec fn optional_field(text: Seq<char>) -> Option<i64> {
    if text.len() == 0 {
        None
    } else {
        parsed_i64(vstd::utf8::encode_utf8(text))
    }
}

/// The text stored for an optional time.
pub open spec fn optional_text(v: Option<i64>) -> Seq<char> {
    match v {
        Some(x) => int_text(x as int),
        None => Seq::empty(),
    }
}

/// A snapshot record reads back as written: the offset and creation
/// time stored as decimal text read back as the same numbers, the
/// payload stored as hex reads back as the same bytes (and the text can
/// be cut into pairs), and the expiry stored as text or left empty reads
/// back as the same optional time.
pub proof fn lemma_snapshot_record_round_trip(
    base_offset: i64,
    payload: Seq<u8>,
    created_at: i64,
    expires_at: Option<i64>,
)
    ensures
        field_number(vstd::utf8::encode_utf8(int_text(base_offset as int))) == base_offset,
        field_number(vstd::utf8::encode_utf8(int_text(created_at as int))) == created_at,
        hex_decoded(vstd::utf8::encode_utf8(hex_text(payload))) == payload,
        pairs_on_boundaries(vstd::utf8::encode_utf8(hex_text(payload))),
        optional_field(optional_text(expires_at)) == expires_at,
{
    lemma_decimal_round_trip(base_offset);
    lemma_decimal_round_trip(created_at);
    lemma_hex_round_trip(payload);
    match expires_at {
        Some(x) => lemma_decimal_round_trip(x),
        None => {},
    }
}

/// The snapshot of the entry at `offset` with `payload`, taken at `now`
/// on `topic` with time-to-live `ttl`: id `snap-{offset}`, created at
/// `now`, expiring `ttl` after `now` if a TTL is given.
pub fn capture_snapshot(topic: &str, offset: i64, payload: Bytes, ttl: Option<Duration>, now: i64) -> (r:
    StoredSnapshot)
    requires
        ttl matches Some(d) ==> i64::MIN <= now + ((duration_millis(d) as u128) as i64) <= i64::MAX,
    ensures
        r.snapshot_id@ == "snap-"@ + int_text(offset as int),
        r.topic@ == topic@,
        r.base_offset == offset,
        bytes_content(r.payload) == bytes_content(payload),
        r.created_at == now,
        match ttl {
            Some(d) => r.expires_at == Some((now + ((duration_millis(d) as u128) as i64)) as i64),
            None => r.expires_at is None,
        },
{
    let snapshot_id = snapshot_id_for(offset);
    let expires_at = expires_at_for(now, ttl);
    StoredSnapshot {
        snapshot_id,
        topic: topic.to_owned(),
        base_offset: offset,
        payload,
        created_at: now,
        expires_at,
    }
}

/// The snapshot of the newest entry of `log`, taken at `now` on `topic`
/// with time-to-live `ttl`: none when the log is empty; otherwise
/// [`capture_snapshot`] of that entry's offset and payload.
pub fn capture_latest(log: &TopicLog, topic: &str, ttl: Option<Duration>, now: i64) -> (r: Option<
    StoredSnapshot,
>)
    requires
        ttl matches Some(d) ==> i64::MIN <= now + ((duration_millis(d) as u128) as i64) <= i64::MAX,
    ensures
        r is None <==> log@.len() == 0,
        r matches Some(s) ==> {
            &&& s.snapshot_id@ == "snap-"@ + int_text(log@.last().offset as int)
            &&& s.topic@ == topic@
            &&& s.base_offset == log@.last().offset
            &&& bytes_content(s.payload) == log@.last().payload
            &&& s.created_at == now
            &&& match ttl {
                Some(d) => s.expires_at == Some((now + ((duration_millis(d) as u128) as i64)) as i64),
                None => s.expires_at is None,
            }
        },
{
    match log.latest() {
        Some(e) => Some(capture_snapshot(topic, e.offset, e.payload, ttl, now)),
        None => None,
    }
}

/// The six texts a snapshot is stored as, in field order: id, topic,
/// offset, payload hex, creation time, expiry (empty for none).
pub open spec fn record_texts(s: StoredSnapshot) -> Seq<Seq<char>> {
    seq![
        s.snapshot_id@,
        s.topic@,
        int_text(s.base_offset as int),
        hex_text(bytes_content(s.payload)),
        int_text(s.created_at as int),
        optional_text(s.expires_at),
    ]
}

/// The record `s` is stored as: [`record_texts`] of `s`.
pub fn snapshot_record(s: &StoredSnapshot) -> (r: Vec<String>)
    ensures
        r@.len() == 6,
        forall|i: int| 0 <= i < 6 ==> #[trigger] r@[i]@ == record_texts(*s)[i],
{
    let mut r: Vec<String> = Vec::new();
    r.push(s.snapshot_id.clone());
    r.push(s.topic.clone());
    r.push(decimal_text(s.base_offset));
    r.push(base64_encode(&s.payload));
    r.push(decimal_text(s.created_at));
    r.push(optional_decimal(s.expires_at));
    r
}

/// A stored snapshot reads back as itself: when the record holds the
/// texts of `s`, `s` has an id and has not expired at `now`, the record
/// meets the reader's requirement and every field reads back as the one
/// written (id, topic, offset, payload bytes, creation time, expiry).
pub proof fn lemma_snapshot_reads_back(s: StoredSnapshot, now: i64)
    requires
        s.snapshot_id@.len() > 0,
        !(s.expires_at matches Some(e) && now > e),
    ensures
        ({
            let f = record_texts(s);
            &&& f.len() == 6
            &&& f[0].len() > 0
            &&& pairs_on_boundaries(vstd::utf8::encode_utf8(f[3]))
            &&& !(optional_field(f[5]) matches Some(e) && now > e)
            &&& f[0] == s.snapshot_id@
            &&& f[1] == s.topic@
            &&& field_number(vstd::utf8::encode_utf8(f[2])) == s.base_offset
            &&& hex_decoded(vstd::utf8::encode_utf8(f[3])) == bytes_content(s.payload)
            &&& field_number(vstd::utf8::encode_utf8(f[4])) == s.created_at
            &&& optional_field(f[5]) == s.expires_at
        }),
{
    lemma_snapshot_record_round_trip(s.base_offset, bytes_content(s.payload), s.created_at, s.expires_at);
}

} // verus!
