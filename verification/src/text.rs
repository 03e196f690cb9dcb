//! Decimal text of integers, written and read as `std` does.

use vstd::prelude::*;
use vstd::string::StringExecFns;
use vstd::string::StringSliceAdditionalSpecFns;

verus! {

/// The character of a decimal digit.
pub open spec fn digit_char(d: int) -> char {
    if d == 0 {
        '0'
    } else if d == 1 {
        '1'
    } else if d == 2 {
        '2'
    } else if d == 3 {
        '3'
    } else if d == 4 {
        '4'
    } else if d == 5 {
        '5'
    } else if d == 6 {
        '6'
    } else if d == 7 {
        '7'
    } else if d == 8 {
        '8'
    } else {
        '9'
    }
}

/// The decimal digits of `n`, most significant first, without leading
/// zeros (`0` for zero).
pub open spec fn nat_text(n: nat) -> Seq<char>
    decreases n,
{
    if n < 10 {
        seq![digit_char(n as int)]
    } else {
        nat_text(n / 10).push(digit_char((n % 10) as int))
    }
}

/// How `{}` prints an integer: its digits, after a `-` when negative.
pub open spec fn int_text(v: int) -> Seq<char> {
    if v < 0 {
        seq!['-'] + nat_text((-v) as nat)
    } else {
        nat_text(v as nat)
    }
}

fn digit_str(d: u64) -> (r: &'static str)
    requires
        d < 10,
    ensures
        r@ == seq![digit_char(d as int)],
{
    proof {
        reveal_strlit("0");
        reveal_strlit("1");
        reveal_strlit("2");
        reveal_strlit("3");
        reveal_strlit("4");
        reveal_strlit("5");
        reveal_strlit("6");
        reveal_strlit("7");
        reveal_strlit("8");
        reveal_strlit("9");
    }
    match d {
        0 => "0",
        1 => "1",
        2 => "2",
        3 => "3",
        4 => "4",
        5 => "5",
        6 => "6",
        7 => "7",
        8 => "8",
        _ => "9",
    }
}

fn push_digits(s: &mut String, n: u64)
    ensures
        final(s)@ == old(s)@ + nat_text(n as nat),
    decreases n,
{
    if n >= 10 {
        push_digits(s, n / 10);
    }
    s.append(digit_str(n % 10));
    proof {
        if n >= 10 {
            assert(nat_text(n as nat) == nat_text((n / 10) as nat).push(digit_char((n % 10) as int)));
        }
    }
    assert(s@ =~= old(s)@ + nat_text(n as nat));
}

/// The decimal text of `v`, as `v.to_string()` gives it.
pub fn decimal_text(v: i64) -> (r: String)
    ensures
        r@ == int_text(v as int),
{
    let mut s = String::new();
    if v < 0 {
        s.append("-");
        let m: u64 = (0i128 - (v as i128)) as u64;
        push_digits(&mut s, m);
        proof {
            reveal_strlit("-");
        }
    } else {
        push_digits(&mut s, v as u64);
    }
    assert(s@ =~= int_text(v as int));
    s
}

/// Whether `b` is an ASCII decimal digit.
pub open spec fn is_digit_byte(b: u8) -> bool {
    48 <= b <= 57
}

/// The value of a run of ASCII decimal digits, most significant first.
pub open spec fn digits_value(b: Seq<u8>) -> int
    decreases b.len(),
{
    if b.len() == 0 {
        0
    } else {
        digits_value(b.drop_last()) * 10 + (b.last() - 48)
    }
}

/// The digits after an optional sign.
pub open spec fn unsigned_part(b: Seq<u8>) -> Seq<u8> {
    if b.len() > 0 && (b[0] == 43u8 || b[0] == 45u8) {
        b.drop_first()
    } else {
        b
    }
}

/// What `str::parse::<i64>` gives for text with the bytes `b`: an
/// optional `+` or `-`, then one or more ASCII digits, whose value must
/// fit in an `i64`; anything else is refused.
pub open spec fn parsed_i64(b: Seq<u8>) -> Option<i64> {
    let body = unsigned_part(b);
    let neg = b.len() > 0 && b[0] == 45u8;
    let v = if neg {
        -digits_value(body)
    } else {
        digits_value(body)
    };
    if body.len() == 0 || !(forall|i: int| 0 <= i < body.len() ==> is_digit_byte(#[trigger] body[i])) {
        None
    } else if i64::MIN <= v <= i64::MAX {
        Some(v as i64)
    } else {
        None
    }
}

proof fn lemma_digits_value_nonneg(b: Seq<u8>)
    requires
        forall|i: int| 0 <= i < b.len() ==> is_digit_byte(#[trigger] b[i]),
    ensures
        digits_value(b) >= 0,
    decreases b.len(),
{
    if b.len() > 0 {
        lemma_digits_value_nonneg(b.drop_last());
    }
}

proof fn lemma_digits_value_grows(b: Seq<u8>, k: int)
    requires
        0 <= k <= b.len(),
        forall|i: int| 0 <= i < b.len() ==> is_digit_byte(#[trigger] b[i]),
    ensures
        digits_value(b.take(k)) <= digits_value(b),
        digits_value(b.take(k)) >= 0,
    decreases b.len() - k,
{
    if k < b.len() {
        lemma_digits_value_grows(b, k + 1);
        assert(b.take(k + 1).drop_last() =~= b.take(k));
        assert(b.take(k + 1).last() == b[k]);
    } else {
        assert(b.take(k) =~= b);
        lemma_digits_value_nonneg(b);
    }
}

/// Reads a decimal `i64` as `str::parse::<i64>` does.
pub fn parse_i64(s: &str) -> (r: Option<i64>)
    ensures
        r == parsed_i64(s.spec_bytes()),
{
    let b = s.as_bytes();
    let n = b.len();
    let ghost bytes = b@;
    let mut start: usize = 0;
    let mut neg = false;
    if n > 0 && (b[0] == 43u8 || b[0] == 45u8) {
        start = 1;
        neg = b[0] == 45u8;
    }
    let ghost body = unsigned_part(bytes);
    assert(body =~= bytes.subrange(start as int, n as int));
    if start == n {
        return None;
    }
    // The magnitude's bound: 2^63 for a negative number, 2^63 - 1 else.
    let limit: u64 = if neg {
        9223372036854775808u64
    } else {
        9223372036854775807u64
    };
    let mut acc: u64 = 0;
    let mut over = false;
    let mut i: usize = start;
    while i < n
        invariant
            start <= i <= n,
            bytes == b@,
            bytes == s.spec_bytes(),
            body == unsigned_part(bytes),
            neg == (bytes.len() > 0 && bytes[0] == 45u8),
            limit >= 9,
            limit == (if neg { 9223372036854775808u64 } else { 9223372036854775807u64 }),
            n == b@.len(),
            body == bytes.subrange(start as int, n as int),
            forall|j: int| start <= j < i ==> is_digit_byte(#[trigger] bytes[j]),
            !over ==> acc == digits_value(body.take(i - start)) && acc <= limit,
            over ==> digits_value(body.take(i - start)) > limit,
        decreases n - i,
    {
        let c = b[i];
        if c < 48u8 || c > 57u8 {
            assert(!is_digit_byte(body[i - start]));
            return None;
        }
        let ghost k = i - start;
        assert(body.take(k + 1).drop_last() =~= body.take(k));
        assert(body.take(k + 1).last() == c);
        if !over {
            let d = (c - 48u8) as u64;
            if acc > (limit - d) / 10 {
                over = true;
                assert(acc * 10 + d > limit) by (nonlinear_arith)
                    requires
                        acc > (limit - d) / 10,
                        d <= 9,
                        limit >= 9,
                ;
            } else {
                assert(acc * 10 + d <= limit) by (nonlinear_arith)
                    requires
                        acc <= (limit - d) / 10,
                        d <= 9,
                        limit >= 9,
                ;
                acc = acc * 10 + d;
            }
        } else {
            proof {
                lemma_digits_value_grows(body.take(k + 1), k);
                assert(body.take(k + 1).take(k) =~= body.take(k));
            }
        }
        i = i + 1;
    }
    assert(body.take(n - start) =~= body);
    assert forall|j: int| 0 <= j < body.len() implies is_digit_byte(#[trigger] body[j]) by {
        assert(body[j] == bytes[start + j]);
    }
    if over {
        return None;
    }
    if neg {
        let v: i128 = 0i128 - (acc as i128);
        Some(v as i64)
    } else {
        Some(acc as i64)
    }
}

/// The bytes of a run of ASCII characters, one per character.
pub open spec fn ascii_bytes(s: Seq<char>) -> Seq<u8> {
    Seq::new(s.len(), |i: int| s[i] as u8)
}

/// Whether every character is an ASCII decimal digit.
pub open spec fn all_digit_chars(s: Seq<char>) -> bool {
    forall|i: int| 0 <= i < s.len() ==> '0' <= #[trigger] s[i] <= '9'
}

proof fn lemma_digit_char(d: int)
    requires
        0 <= d <= 9,
    ensures
        digit_char(d) as u8 == 48 + d,
        '0' <= digit_char(d) <= '9',
{
}

proof fn lemma_nat_text(n: nat)
    ensures
        nat_text(n).len() > 0,
        all_digit_chars(nat_text(n)),
        digits_value(ascii_bytes(nat_text(n))) == n,
    decreases n,
{
    if n < 10 {
        lemma_digit_char(n as int);
        assert(ascii_bytes(nat_text(n)).drop_last() =~= Seq::<u8>::empty());
        assert(ascii_bytes(nat_text(n)).last() == 48 + n);
        assert(digits_value(Seq::<u8>::empty()) == 0);
    } else {
        lemma_digit_char((n % 10) as int);
        lemma_nat_text(n / 10);
        let p = nat_text(n / 10);
        let t = nat_text(n);
        assert(t == p.push(digit_char((n % 10) as int)));
        assert(ascii_bytes(t).drop_last() =~= ascii_bytes(p));
        assert(ascii_bytes(t).last() == 48 + n % 10);
        assert(digits_value(ascii_bytes(t)) == (n / 10) * 10 + n % 10);
        assert((n / 10) * 10 + n % 10 == n) by (nonlinear_arith);
        assert forall|i: int| 0 <= i < t.len() implies '0' <= #[trigger] t[i] <= '9' by {
            if i < p.len() {
                assert(t[i] == p[i]);
            }
        }
    }
}

/// Whether the text is plain ASCII.
proof fn lemma_int_text_ascii(v: int)
    ensures
        vstd::utf8::is_ascii_chars(int_text(v)),
        vstd::utf8::encode_utf8(int_text(v)) == ascii_bytes(int_text(v)),
{
    let t = int_text(v);
    if v < 0 {
        lemma_nat_text((-v) as nat);
        assert forall|i: int| 0 <= i < t.len() implies '\0' <= #[trigger] t[i] <= '\u{7f}' by {
            if i > 0 {
                assert(t[i] == nat_text((-v) as nat)[i - 1]);
            }
        }
    } else {
        lemma_nat_text(v as nat);
    }
    vstd::utf8::is_ascii_chars_encode_utf8(t);
    assert(vstd::utf8::encode_utf8(t) =~= ascii_bytes(t));
}

/// Reading back the decimal text of an `i64` gives the number.
pub proof fn lemma_decimal_round_trip(v: i64)
    ensures
        parsed_i64(vstd::utf8::encode_utf8(int_text(v as int))) == Some(v),
        int_text(v as int).len() > 0,
{
    lemma_int_text_ascii(v as int);
    let t = int_text(v as int);
    let b = ascii_bytes(t);
    if v < 0 {
        let m = (-v) as nat;
        lemma_nat_text(m);
        let body = ascii_bytes(nat_text(m));
        assert(b[0] == 45u8);
        assert(b.drop_first() =~= body);
        assert(unsigned_part(b) == body);
        assert forall|i: int| 0 <= i < body.len() implies is_digit_byte(#[trigger] body[i]) by {
            assert('0' <= nat_text(m)[i] <= '9');
        }
    } else {
        lemma_nat_text(v as nat);
        assert('0' <= t[0] <= '9');
        assert(unsigned_part(b) == b);
        assert forall|i: int| 0 <= i < b.len() implies is_digit_byte(#[trigger] b[i]) by {
            assert('0' <= t[i] <= '9');
        }
    }
}

} // verus!
