//! Key encodings for storage backends.
//!
//! Every store uses a two-level namespace `<topic>\x00<sub_key>`. The
//! `\x00` separator keeps topics apart: scanning `room/5\x00` never
//! matches a key of `room/50`.

use vstd::prelude::*;
use vstd::string::StringSliceAdditionalSpecFns;

verus! {

/// Separator between topic name and sub-key.
pub const SEP: u8 = 0;

/// `10` raised to `w`.
pub open spec fn pow10(w: nat) -> nat
    decreases w,
{
    if w == 0 {
        1
    } else {
        10 * pow10((w - 1) as nat)
    }
}

/// The ASCII bytes of the `width` least significant decimal digits of
/// `n`, most significant first (leading zeros included).
pub open spec fn decimal_digits(n: nat, width: nat) -> Seq<u8>
    decreases width,
{
    if width == 0 {
        Seq::empty()
    } else {
        decimal_digits(n / 10, (width - 1) as nat).push((48 + n % 10) as u8)
    }
}

/// An offset rendered zero-padded to twenty characters, the sign
/// counting as one of them (the `{:020}` rendering of an `i64`).
pub open spec fn padded_offset(offset: i64) -> Seq<u8> {
    if offset >= 0 {
        decimal_digits(offset as nat, 20)
    } else {
        seq![45u8] + decimal_digits((-offset) as nat, 19)
    }
}

/// The bytes of a topic name followed by the separator.
pub open spec fn topic_prefix(topic: Seq<u8>) -> Seq<u8> {
    topic.push(SEP)
}

/// The bytes of `head`.
pub open spec fn head_suffix() -> Seq<u8> {
    seq![104u8, 101u8, 97u8, 100u8]
}

/// `<topic>\x00head`.
pub open spec fn offset_key_bytes(topic: Seq<u8>) -> Seq<u8> {
    topic_prefix(topic) + head_suffix()
}

/// `<topic>\x00<offset:020>`.
pub open spec fn log_key_bytes(topic: Seq<u8>, offset: i64) -> Seq<u8> {
    topic_prefix(topic) + padded_offset(offset)
}

/// The log key of `to` followed by the byte `0xFF`.
pub open spec fn log_range_end_bytes(topic: Seq<u8>, to: i64) -> Seq<u8> {
    log_key_bytes(topic, to).push(255u8)
}

/// `<topic>\x00<message_id>\x00`.
pub open spec fn dedupe_key_bytes(topic: Seq<u8>, message_id: Seq<u8>) -> Seq<u8> {
    topic_prefix(topic) + message_id.push(SEP)
}

/// `<topic>\x00<snapshot_id>`.
pub open spec fn snapshot_key_bytes(topic: Seq<u8>, snapshot_id: Seq<u8>) -> Seq<u8> {
    topic_prefix(topic) + snapshot_id
}

/// Whether `p` is a prefix of `s`.
pub open spec fn is_prefix(p: Seq<u8>, s: Seq<u8>) -> bool {
    p.len() <= s.len() && s.subrange(0, p.len() as int) == p
}

/// Lexicographic order on byte strings, the order of `Vec<u8>`.
pub open spec fn bytes_lt(a: Seq<u8>, b: Seq<u8>) -> bool
    decreases a.len(),
{
    if a.len() == 0 {
        b.len() > 0
    } else if b.len() == 0 {
        false
    } else if a[0] != b[0] {
        a[0] < b[0]
    } else {
        bytes_lt(a.drop_first(), b.drop_first())
    }
}

/// Lexicographic less-or-equal on byte strings.
pub open spec fn bytes_le(a: Seq<u8>, b: Seq<u8>) -> bool {
    bytes_lt(a, b) || a == b
}

fn append_bytes(out: &mut Vec<u8>, bytes: &[u8])
    ensures
        final(out)@ == old(out)@ + bytes@,
{
    let ghost start = out@;
    let mut i: usize = 0;
    while i < bytes.len()
        invariant
            0 <= i <= bytes@.len(),
            out@ == start + bytes@.subrange(0, i as int),
        decreases bytes@.len() - i,
    {
        out.push(bytes[i]);
        i = i + 1;
        assert(bytes@.subrange(0, i as int) == bytes@.subrange(0, i - 1 as int).push(
            bytes@[i - 1],
        ));
    }
    assert(bytes@.subrange(0, bytes@.len() as int) == bytes@);
}

fn push_digits(out: &mut Vec<u8>, n: u64, width: usize)
    ensures
        final(out)@ == old(out)@ + decimal_digits(n as nat, width as nat),
    decreases width,
{
    if width > 0 {
        push_digits(out, n / 10, width - 1);
        let d: u8 = (n % 10) as u8;
        out.push(48u8 + d);
        proof {
            let ghost rest = decimal_digits((n / 10) as nat, (width - 1) as nat);
            assert(decimal_digits(n as nat, width as nat) == rest.push(
                (48 + (n as nat) % 10) as u8,
            ));
        }
    }
}

fn push_padded_offset(out: &mut Vec<u8>, offset: i64)
    ensures
        final(out)@ == old(out)@ + padded_offset(offset),
{
    if offset >= 0 {
        push_digits(out, offset as u64, 20);
    } else {
        let ghost start = out@;
        out.push(45u8);
        let wide: i128 = offset as i128;
        let mag: u64 = (0i128 - wide) as u64;
        push_digits(out, mag, 19);
        assert(out@ == start + (seq![45u8] + decimal_digits((-offset) as nat, 19)));
    }
}

fn push_topic_prefix(out: &mut Vec<u8>, topic: &str)
    ensures
        final(out)@ == old(out)@ + topic_prefix(topic.spec_bytes()),
{
    let ghost start = out@;
    append_bytes(out, topic.as_bytes());
    out.push(SEP);
    assert(out@ == start + topic_prefix(topic.spec_bytes()));
}

/// Key for a topic's current head offset: `<topic>\x00head`.
pub fn offset_key(topic: &str) -> (k: Vec<u8>)
    ensures
        k@ == offset_key_bytes(topic.spec_bytes()),
{
    let mut k: Vec<u8> = Vec::new();
    push_topic_prefix(&mut k, topic);
    k.push(104u8);
    k.push(101u8);
    k.push(97u8);
    k.push(100u8);
    assert(k@ == offset_key_bytes(topic.spec_bytes()));
    k
}

/// Prefix for scanning all offset entries of a topic.
pub fn offset_prefix(topic: &str) -> (k: Vec<u8>)
    ensures
        k@ == topic_prefix(topic.spec_bytes()),
{
    let mut k: Vec<u8> = Vec::new();
    push_topic_prefix(&mut k, topic);
    assert(k@ == topic_prefix(topic.spec_bytes()));
    k
}

/// Key for a single log entry, sorted by offset:
/// `<topic>\x00<offset:020>`.
pub fn log_key(topic: &str, offset: i64) -> (k: Vec<u8>)
    ensures
        k@ == log_key_bytes(topic.spec_bytes(), offset),
{
    let mut k: Vec<u8> = Vec::new();
    push_topic_prefix(&mut k, topic);
    push_padded_offset(&mut k, offset);
    assert(k@ == log_key_bytes(topic.spec_bytes(), offset));
    k
}

/// Prefix for scanning all log entries of a topic.
pub fn log_prefix(topic: &str) -> (k: Vec<u8>)
    ensures
        k@ == topic_prefix(topic.spec_bytes()),
{
    offset_prefix(topic)
}

/// Inclusive start key of a replay range.
pub fn log_range_start(topic: &str, from: i64) -> (k: Vec<u8>)
    ensures
        k@ == log_key_bytes(topic.spec_bytes(), from),
{
    log_key(topic, from)
}

/// Exclusive end key of a replay range: a byte past the padded offset,
/// so that a scan up to it includes offset `to` but not `to + 1`.
pub fn log_range_end(topic: &str, to: i64) -> (k: Vec<u8>)
    ensures
        k@ == log_range_end_bytes(topic.spec_bytes(), to),
{
    let mut k = log_key(topic, to);
    k.push(255u8);
    k
}

/// Key for a single dedupe entry: `<topic>\x00<message_id>\x00`.
pub fn dedupe_key(topic: &str, message_id: &str) -> (k: Vec<u8>)
    ensures
        k@ == dedupe_key_bytes(topic.spec_bytes(), message_id.spec_bytes()),
{
    let mut k: Vec<u8> = Vec::new();
    push_topic_prefix(&mut k, topic);
    append_bytes(&mut k, message_id.as_bytes());
    k.push(SEP);
    assert(k@ == dedupe_key_bytes(topic.spec_bytes(), message_id.spec_bytes()));
    k
}

/// Prefix for scanning all dedupe entries of a topic.
pub fn dedupe_prefix(topic: &str) -> (k: Vec<u8>)
    ensures
        k@ == topic_prefix(topic.spec_bytes()),
{
    offset_prefix(topic)
}

/// Key for a single snapshot entry: `<topic>\x00<snapshot_id>`.
pub fn snapshot_key(topic: &str, snapshot_id: &str) -> (k: Vec<u8>)
    ensures
        k@ == snapshot_key_bytes(topic.spec_bytes(), snapshot_id.spec_bytes()),
{
    let mut k: Vec<u8> = Vec::new();
    push_topic_prefix(&mut k, topic);
    append_bytes(&mut k, snapshot_id.as_bytes());
    assert(k@ == snapshot_key_bytes(topic.spec_bytes(), snapshot_id.spec_bytes()));
    k
}

/// Prefix for scanning all snapshots of a topic.
pub fn snapshot_prefix(topic: &str) -> (k: Vec<u8>)
    ensures
        k@ == topic_prefix(topic.spec_bytes()),
{
    offset_prefix(topic)
}

// ── Order of byte strings ────────────────────────────────────

proof fn lemma_decimal_digits_len(n: nat, w: nat)
    ensures
        decimal_digits(n, w).len() == w,
    decreases w,
{
    if w > 0 {
        lemma_decimal_digits_len(n / 10, (w - 1) as nat);
    }
}

proof fn lemma_bytes_lt_irreflexive(a: Seq<u8>)
    ensures
        !bytes_lt(a, a),
    decreases a.len(),
{
    if a.len() > 0 {
        lemma_bytes_lt_irreflexive(a.drop_first());
    }
}

proof fn lemma_bytes_lt_asymmetric(a: Seq<u8>, b: Seq<u8>)
    ensures
        bytes_lt(a, b) ==> !bytes_lt(b, a),
    decreases a.len(),
{
    if a.len() > 0 && b.len() > 0 && a[0] == b[0] {
        lemma_bytes_lt_asymmetric(a.drop_first(), b.drop_first());
    }
}

proof fn lemma_bytes_lt_common_prefix(p: Seq<u8>, a: Seq<u8>, b: Seq<u8>)
    ensures
        bytes_lt(p + a, p + b) == bytes_lt(a, b),
    decreases p.len(),
{
    if p.len() == 0 {
        assert(p + a == a);
        assert(p + b == b);
    } else {
        assert((p + a).drop_first() == p.drop_first() + a);
        assert((p + b).drop_first() == p.drop_first() + b);
        lemma_bytes_lt_common_prefix(p.drop_first(), a, b);
    }
}

proof fn lemma_bytes_lt_push(a: Seq<u8>, b: Seq<u8>, x: u8, y: u8)
    requires
        a.len() == b.len(),
    ensures
        bytes_lt(a.push(x), b.push(y)) == (bytes_lt(a, b) || (a == b && x < y)),
    decreases a.len(),
{
    if a.len() == 0 {
        assert(a == b);
        assert(a.push(x)[0] == x);
        assert(b.push(y)[0] == y);
        assert(a.push(x).drop_first() == Seq::<u8>::empty());
        assert(b.push(y).drop_first() == Seq::<u8>::empty());
        assert(!bytes_lt(Seq::<u8>::empty(), Seq::<u8>::empty()));
        assert(!bytes_lt(a, b));
    } else {
        assert(a.push(x)[0] == a[0]);
        assert(b.push(y)[0] == b[0]);
        if a[0] != b[0] {
            assert(a != b);
        }
        assert(a.push(x).drop_first() == a.drop_first().push(x));
        assert(b.push(y).drop_first() == b.drop_first().push(y));
        lemma_bytes_lt_push(a.drop_first(), b.drop_first(), x, y);
        if a[0] == b[0] {
            assert(a == b <==> a.drop_first() == b.drop_first()) by {
                if a.drop_first() == b.drop_first() {
                    assert(a == seq![a[0]] + a.drop_first());
                    assert(b == seq![b[0]] + b.drop_first());
                }
            }
        }
    }
}

proof fn lemma_bytes_lt_extend(a: Seq<u8>, b: Seq<u8>, z: Seq<u8>)
    requires
        a.len() == b.len(),
        z.len() > 0,
    ensures
        bytes_lt(a, b + z) == (bytes_lt(a, b) || a == b),
    decreases a.len(),
{
    if a.len() == 0 {
        assert(a == b);
    } else {
        assert((b + z).drop_first() == b.drop_first() + z);
        assert((b + z)[0] == b[0]);
        lemma_bytes_lt_extend(a.drop_first(), b.drop_first(), z);
        if a[0] == b[0] {
            assert(a == b <==> a.drop_first() == b.drop_first()) by {
                if a.drop_first() == b.drop_first() {
                    assert(a == seq![a[0]] + a.drop_first());
                    assert(b == seq![b[0]] + b.drop_first());
                }
            }
        }
    }
}

proof fn lemma_decimal_digits_order(n: nat, m: nat, w: nat)
    requires
        n < m,
        m < pow10(w),
    ensures
        bytes_lt(decimal_digits(n, w), decimal_digits(m, w)),
    decreases w,
{
    if w > 0 {
        let w1 = (w - 1) as nat;
        assert(m / 10 < pow10(w1)) by (nonlinear_arith)
            requires
                m < pow10(w),
                pow10(w) == 10 * pow10(w1),
        ;
        assert(n / 10 <= m / 10) by (nonlinear_arith)
            requires
                n < m,
        ;
        lemma_decimal_digits_len(n / 10, w1);
        lemma_decimal_digits_len(m / 10, w1);
        let dn = (48 + n % 10) as u8;
        let dm = (48 + m % 10) as u8;
        lemma_bytes_lt_push(decimal_digits(n / 10, w1), decimal_digits(m / 10, w1), dn, dm);
        if n / 10 < m / 10 {
            lemma_decimal_digits_order(n / 10, m / 10, w1);
        } else {
            assert(n % 10 < m % 10) by (nonlinear_arith)
                requires
                    n < m,
                    n / 10 == m / 10,
            ;
        }
    } else {
        assert(false);
    }
}

proof fn lemma_pow10_20()
    ensures
        pow10(20) == 100000000000000000000nat,
        pow10(19) == 10000000000000000000nat,
{
    reveal_with_fuel(pow10, 21);
}

/// For offsets of one sign-free range, the padded renderings of two
/// offsets compare as the offsets do.
proof fn lemma_padded_offset_order(a: i64, b: i64)
    requires
        0 <= a,
        0 <= b,
    ensures
        a < b <==> bytes_lt(padded_offset(a), padded_offset(b)),
        a == b <==> padded_offset(a) == padded_offset(b),
{
    lemma_pow10_20();
    if a < b {
        lemma_decimal_digits_order(a as nat, b as nat, 20);
        lemma_bytes_lt_irreflexive(padded_offset(a));
        lemma_bytes_lt_asymmetric(padded_offset(a), padded_offset(b));
    } else if b < a {
        lemma_decimal_digits_order(b as nat, a as nat, 20);
        lemma_bytes_lt_irreflexive(padded_offset(b));
        lemma_bytes_lt_asymmetric(padded_offset(b), padded_offset(a));
    } else {
        lemma_bytes_lt_irreflexive(padded_offset(a));
    }
}

/// Log keys of one topic sort as their offsets do, for non-negative
/// offsets: a smaller offset has a strictly smaller key.
pub proof fn lemma_log_key_order(topic: Seq<u8>, a: i64, b: i64)
    requires
        0 <= a < b,
    ensures
        bytes_lt(log_key_bytes(topic, a), log_key_bytes(topic, b)),
{
    lemma_padded_offset_order(a, b);
    lemma_bytes_lt_common_prefix(topic_prefix(topic), padded_offset(a), padded_offset(b));
}

/// A replay range `[log_range_start(from), log_range_end(to))` holds the
/// log key of a non-negative offset exactly when the offset lies in
/// `from..=to`.
pub proof fn lemma_log_range_contains(topic: Seq<u8>, from: i64, to: i64, offset: i64)
    requires
        0 <= from,
        0 <= to,
        0 <= offset,
    ensures
        (bytes_le(log_key_bytes(topic, from), log_key_bytes(topic, offset)) && bytes_lt(
            log_key_bytes(topic, offset),
            log_range_end_bytes(topic, to),
        )) <==> (from <= offset && offset <= to),
{
    let p = topic_prefix(topic);
    lemma_padded_offset_order(from, offset);
    lemma_padded_offset_order(offset, to);
    lemma_bytes_lt_common_prefix(p, padded_offset(from), padded_offset(offset));
    assert(log_range_end_bytes(topic, to) == p + padded_offset(to).push(255u8));
    assert(padded_offset(to).push(255u8) == padded_offset(to) + seq![255u8]);
    lemma_bytes_lt_common_prefix(p, padded_offset(offset), padded_offset(to).push(255u8));
    lemma_pow10_20();
    lemma_decimal_digits_len(offset as nat, 20);
    lemma_decimal_digits_len(to as nat, 20);
    lemma_bytes_lt_extend(padded_offset(offset), padded_offset(to), seq![255u8]);
    assert(log_key_bytes(topic, from) == log_key_bytes(topic, offset) <==> padded_offset(from)
        == padded_offset(offset)) by {
        if log_key_bytes(topic, from) == log_key_bytes(topic, offset) {
            assert(padded_offset(from) == log_key_bytes(topic, from).subrange(
                p.len() as int,
                log_key_bytes(topic, from).len() as int,
            ));
            assert(padded_offset(offset) == log_key_bytes(topic, offset).subrange(
                p.len() as int,
                log_key_bytes(topic, offset).len() as int,
            ));
        }
    }
}

proof fn lemma_prefix_isolation(a: Seq<u8>, b: Seq<u8>, s: Seq<u8>)
    requires
        !a.contains(SEP),
        !b.contains(SEP),
    ensures
        is_prefix(topic_prefix(b), topic_prefix(a) + s) <==> a == b,
{
    let x = topic_prefix(a) + s;
    let y = topic_prefix(b);
    if a == b {
        assert(x.subrange(0, y.len() as int) == y);
    }
    if is_prefix(y, x) {
        assert(x.subrange(0, y.len() as int)[b.len() as int] == y[b.len() as int]);
        if b.len() < a.len() {
            assert(x[b.len() as int] == a[b.len() as int]);
            assert(a.contains(SEP));
        } else if b.len() > a.len() {
            assert(x.subrange(0, y.len() as int)[a.len() as int] == y[a.len() as int]);
            assert(b[a.len() as int] == SEP);
            assert(b.contains(SEP));
        } else {
            assert forall|i: int| 0 <= i < a.len() implies a[i] == b[i] by {
                assert(x.subrange(0, y.len() as int)[i] == y[i]);
            }
            assert(a == b);
        }
    }
}

/// Topic isolation: for topic names without a NUL byte, the scan prefix
/// of `other` is a prefix of a key of `topic` (offset, log, dedupe or
/// snapshot key) exactly when the two names are the same bytes; in
/// particular every key of a topic starts with its own scan prefix.
pub proof fn lemma_key_topic_isolation(
    topic: Seq<u8>,
    other: Seq<u8>,
    offset: i64,
    message_id: Seq<u8>,
    snapshot_id: Seq<u8>,
)
    requires
        !topic.contains(SEP),
        !other.contains(SEP),
    ensures
        is_prefix(topic_prefix(other), offset_key_bytes(topic)) <==> topic == other,
        is_prefix(topic_prefix(other), log_key_bytes(topic, offset)) <==> topic == other,
        is_prefix(topic_prefix(other), log_range_end_bytes(topic, offset)) <==> topic == other,
        is_prefix(topic_prefix(other), dedupe_key_bytes(topic, message_id)) <==> topic == other,
        is_prefix(topic_prefix(other), snapshot_key_bytes(topic, snapshot_id)) <==> topic
            == other,
{
    lemma_prefix_isolation(topic, other, head_suffix());
    lemma_prefix_isolation(topic, other, padded_offset(offset));
    lemma_prefix_isolation(topic, other, padded_offset(offset).push(255u8));
    assert(log_range_end_bytes(topic, offset) == topic_prefix(topic) + padded_offset(
        offset,
    ).push(255u8));
    lemma_prefix_isolation(topic, other, message_id.push(SEP));
    lemma_prefix_isolation(topic, other, snapshot_id);
}

} // verus!
