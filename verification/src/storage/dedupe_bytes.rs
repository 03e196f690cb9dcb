//! Deduplication records as a byte-keyed store holds them: the key is
//! `<topic>\x00<message_id>\x00`, the value the expiry time as a
//! big-endian `i64` in its first eight bytes. A sweep removes the
//! records whose expiry has passed, among the keys whose topic part
//! (the bytes before the first separator) is UTF-8 text.

use vstd::prelude::*;
use crate::storage::encode::SEP;

verus! {

/// The unsigned number the bytes `b` spell, most significant first.
pub open spec fn be_unsigned(b: Seq<u8>) -> int
    decreases b.len(),
{
    if b.len() == 0 {
        0
    } else {
        be_unsigned(b.drop_last()) * 256 + b.last()
    }
}

/// The `i64` the first eight bytes of `b` spell, big-endian, in two's
/// complement.
pub open spec fn be_i64(b: Seq<u8>) -> int {
    let u = be_unsigned(b.take(8));
    if u >= 0x8000_0000_0000_0000 {
        u - 0x1_0000_0000_0000_0000
    } else {
        u
    }
}

/// No separator in `s`.
pub open spec fn sep_free(s: Seq<u8>) -> bool {
    forall|j: int| 0 <= j < s.len() ==> s[j] != SEP
}

/// The key has a separator, and the bytes before the first one are
/// UTF-8 text: the key belongs to a topic.
pub open spec fn has_text_topic(k: Seq<u8>) -> bool {
    exists|p: int|
        0 <= p < k.len() && k[p] == SEP && sep_free(#[trigger] k.take(p)) && vstd::utf8::valid_utf8(
            k.take(p),
        )
}

/// The record `(key, value)` is swept at time `now`: its key belongs to
/// a topic, its value holds an expiry, and the expiry is not after `now`.
pub open spec fn swept_at(e: (Seq<u8>, Seq<u8>), now: i64) -> bool {
    &&& has_text_topic(e.0)
    &&& e.1.len() >= 8
    &&& be_i64(e.1) <= now
}

/// The keys of the records swept at `now`, in the order given.
pub open spec fn swept_keys(es: Seq<(Seq<u8>, Seq<u8>)>, now: i64) -> Seq<Seq<u8>>
    decreases es.len(),
{
    if es.len() == 0 {
        Seq::empty()
    } else if swept_at(es.last(), now) {
        swept_keys(es.drop_last(), now).push(es.last().0)
    } else {
        swept_keys(es.drop_last(), now)
    }
}

/// The records as byte sequences.
pub open spec fn record_views(es: Seq<(Vec<u8>, Vec<u8>)>) -> Seq<(Seq<u8>, Seq<u8>)> {
    Seq::new(es.len(), |i: int| (es[i].0@, es[i].1@))
}

/// The keys as byte sequences.
pub open spec fn key_views(ks: Seq<Vec<u8>>) -> Seq<Seq<u8>> {
    Seq::new(ks.len(), |i: int| ks[i]@)
}

/// Whether `b` is UTF-8 text, by `std::str::from_utf8`, which accepts
/// exactly the well-formed UTF-8 byte sequences.
#[verifier::external_body]
fn utf8_text(b: &[u8]) -> (r: bool)
    ensures
        r == vstd::utf8::valid_utf8(b@),
{
    std::str::from_utf8(b).is_ok()
}

proof fn lemma_pow_step(u: int, bound: int, b: int)
    requires
        0 <= u < bound,
        0 <= b < 256,
    ensures
        0 <= u * 256 + b < bound * 256,
{
    assert(u * 256 + b < bound * 256) by (nonlinear_arith)
        requires
            u < bound,
            b < 256,
    ;
    assert(0 <= u * 256) by (nonlinear_arith)
        requires
            0 <= u,
    ;
}

/// The expiry a record's value holds: its first eight bytes as a
/// big-endian `i64`.
pub fn expiry_of_value(v: &Vec<u8>) -> (r: i64)
    requires
        v@.len() >= 8,
    ensures
        r == be_i64(v@),
{
    let mut u: u64 = 0;
    let mut i: usize = 0;
    let ghost mut bound: int = 1;
    while i < 8
        invariant
            i <= 8,
            v@.len() >= 8,
            u == be_unsigned(v@.take(i as int)),
            0 <= u < bound,
            bound == (if i == 0 {
                1int
            } else if i == 1 {
                0x100int
            } else if i == 2 {
                0x1_0000int
            } else if i == 3 {
                0x100_0000int
            } else if i == 4 {
                0x1_0000_0000int
            } else if i == 5 {
                0x100_0000_0000int
            } else if i == 6 {
                0x1_0000_0000_0000int
            } else if i == 7 {
                0x100_0000_0000_0000int
            } else {
                0x1_0000_0000_0000_0000int
            }),
        decreases 8 - i,
    {
        let b = v[i];
        proof {
            lemma_pow_step(u as int, bound, b as int);
            assert(v@.take(i as int + 1).drop_last() =~= v@.take(i as int));
            bound = bound * 256;
        }
        u = u * 256 + b as u64;
        i = i + 1;
    }
    if u >= 0x8000_0000_0000_0000u64 {
        let low: u64 = u - 0x8000_0000_0000_0000u64;
        (low as i64) + i64::MIN
    } else {
        u as i64
    }
}

/// Whether the stored value `value` makes its key a duplicate at time
/// `now`: it holds an expiry (eight bytes or more) after `now`. No value,
/// or one too short to hold an expiry, leaves the key fresh.
pub fn stored_record_is_live(value: &Option<Vec<u8>>, now: i64) -> (r: bool)
    ensures
        r == (value matches Some(v) && v@.len() >= 8 && be_i64(v@) > now),
{
    match value {
        Some(v) => v.len() >= 8 && expiry_of_value(v) > now,
        None => false,
    }
}

/// Whether `k` belongs to a topic: it has a separator and the bytes
/// before the first one are UTF-8 text.
pub fn key_has_text_topic(k: &Vec<u8>) -> (r: bool)
    ensures
        r == has_text_topic(k@),
{
    let mut p: usize = 0;
    while p < k.len() && k[p] != SEP
        invariant
            p <= k@.len(),
            sep_free(k@.take(p as int)),
        decreases k@.len() - p,
    {
        assert(k@.take(p as int + 1).drop_last() =~= k@.take(p as int));
        p = p + 1;
    }
    if p == k.len() {
        proof {
            assert(k@.take(p as int) =~= k@);
            if has_text_topic(k@) {
                let q = choose|q: int|
                    0 <= q < k@.len() && k@[q] == SEP && sep_free(#[trigger] k@.take(q))
                        && vstd::utf8::valid_utf8(k@.take(q));
                assert(k@.take(p as int)[q] == k@[q]);
            }
        }
        return false;
    }
    let mut prefix: Vec<u8> = Vec::new();
    let mut j: usize = 0;
    while j < p
        invariant
            j <= p,
            p < k@.len(),
            prefix@ == k@.take(j as int),
        decreases p - j,
    {
        prefix.push(k[j]);
        assert(prefix@ =~= k@.take(j as int + 1));
        j = j + 1;
    }
    let ok = utf8_text(prefix.as_slice());
    proof {
        let pp = p as int;
        assert(k@[pp] == SEP);
        if has_text_topic(k@) {
            let q = choose|q: int|
                0 <= q < k@.len() && k@[q] == SEP && sep_free(#[trigger] k@.take(q))
                    && vstd::utf8::valid_utf8(k@.take(q));
            if q < pp {
                assert(k@.take(pp)[q] == k@[q]);
            }
            if q > pp {
                assert(k@.take(q)[pp] == k@[pp]);
            }
            assert(q == pp);
        }
        if ok {
            assert(sep_free(k@.take(pp)));
        }
    }
    ok
}

/// The keys of the records swept at time `now`, in the order given: the
/// keys that belong to a topic, whose value holds an expiry (eight bytes
/// or more) not after `now`.
pub fn expired_dedupe_keys(entries: &Vec<(Vec<u8>, Vec<u8>)>, now: i64) -> (r: Vec<Vec<u8>>)
    ensures
        key_views(r@) == swept_keys(record_views(entries@), now),
{
    let mut out: Vec<Vec<u8>> = Vec::new();
    let mut i: usize = 0;
    while i < entries.len()
        invariant
            i <= entries@.len(),
            key_views(out@) == swept_keys(record_views(entries@).take(i as int), now),
        decreases entries@.len() - i,
    {
        let ghost es = record_views(entries@);
        assert(es.take(i as int + 1).drop_last() =~= es.take(i as int));
        assert(es.take(i as int + 1).last() == es[i as int]);
        let k = &entries[i].0;
        let v = &entries[i].1;
        let topical = key_has_text_topic(k);
        let expired = if topical && v.len() >= 8 {
            expiry_of_value(v) <= now
        } else {
            false
        };
        if expired {
            let ghost before = out@;
            let kc = k.clone();
            assert(kc@ =~= k@);
            out.push(kc);
            assert(key_views(out@) =~= key_views(before).push(k@));
        }
        i = i + 1;
    }
    assert(record_views(entries@).take(entries@.len() as int) =~= record_views(entries@));
    out
}

} // verus!
