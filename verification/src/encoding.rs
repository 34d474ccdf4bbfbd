//! Text encodings used when talking to the API: decimal numbers and the
//! `application/x-www-form-urlencoded` serialization of name/value pairs.

use vstd::prelude::*;
use vstd::utf8::encode_utf8;

verus! {

/// The decimal digit character for a value below ten.
pub open spec fn digit_char(d: nat) -> char {
    if d == 0 { '0' }
    else if d == 1 { '1' }
    else if d == 2 { '2' }
    else if d == 3 { '3' }
    else if d == 4 { '4' }
    else if d == 5 { '5' }
    else if d == 6 { '6' }
    else if d == 7 { '7' }
    else if d == 8 { '8' }
    else { '9' }
}

/// The shortest decimal representation of `n`, without sign or leading zeros.
pub open spec fn decimal(n: nat) -> Seq<char>
    decreases n,
{
    if n < 10 {
        seq![digit_char(n)]
    } else {
        decimal(n / 10).push(digit_char(n % 10))
    }
}

fn digit_str(d: u64) -> (r: &'static str)
    requires
        d < 10,
    ensures
        r@ == seq![digit_char(d as nat)],
{
    proof {
        reveal_strlit("0");
        reveal_strlit("1");
        reveal_strlit("2");
        reveal_strlit("3");
        reveal_strlit("4");
        reveal_strlit("5");
        reveal_strlit("6");
        reveal_strlit("7");
        reveal_strlit("8");
        reveal_strlit("9");
    }
    if d == 0 { "0" }
    else if d == 1 { "1" }
    else if d == 2 { "2" }
    else if d == 3 { "3" }
    else if d == 4 { "4" }
    else if d == 5 { "5" }
    else if d == 6 { "6" }
    else if d == 7 { "7" }
    else if d == 8 { "8" }
    else { "9" }
}

/// Formats `n` in decimal, as `n.to_string()` does.
pub fn decimal_string(n: u64) -> (r: String)
    ensures
        r@ == decimal(n as nat),
    decreases n,
{
    if n < 10 {
        String::from_str(digit_str(n))
    } else {
        let mut s = decimal_string(n / 10);
        s.append(digit_str(n % 10));
        s
    }
}

/// The value of a string of decimal digits, read most significant first.
pub open spec fn digits_value(s: Seq<char>) -> nat
    decreases s.len(),
{
    if s.len() == 0 {
        0
    } else {
        digits_value(s.drop_last()) * 10 + ((s.last() as nat) - ('0' as nat)) as nat
    }
}

pub open spec fn is_digit(c: char) -> bool {
    '0' <= c && c <= '9'
}

pub open spec fn all_digits(s: Seq<char>) -> bool {
    forall|i: int| 0 <= i < s.len() ==> is_digit(#[trigger] s[i])
}

/// What `str::parse::<u64>` gives back: an optional `+` sign followed by at
/// least one decimal digit, with a value that fits in a `u64`.
pub open spec fn parse_u64_spec(s: Seq<char>) -> Option<u64> {
    let d = if s.len() > 0 && s[0] == '+' { s.drop_first() } else { s };
    if d.len() > 0 && all_digits(d) && digits_value(d) <= u64::MAX {
        Some(digits_value(d) as u64)
    } else {
        None
    }
}

/// Parses an unsigned decimal number the way `str::parse::<u64>` does.
pub fn parse_u64(s: &str) -> (r: Option<u64>)
    ensures
        r == parse_u64_spec(s@),
{
    let len = s.unicode_len();
    let mut start: usize = 0;
    if len > 0 && s.get_char(0) == '+' {
        start = 1;
    }
    let ghost d = if s@.len() > 0 && s@[0] == '+' { s@.drop_first() } else { s@ };
    assert(d =~= s@.subrange(start as int, len as int));
    if start == len {
        return None;
    }
    let mut value: u64 = 0;
    let mut i: usize = start;
    while i < len
        invariant
            start <= i <= len,
            len == s@.len(),
            start < len,
            d == (if s@.len() > 0 && s@[0] == '+' { s@.drop_first() } else { s@ }),
            d =~= s@.subrange(start as int, len as int),
            all_digits(s@.subrange(start as int, i as int)),
            value as nat == digits_value(s@.subrange(start as int, i as int)),
        decreases len - i,
    {
        let c = s.get_char(i);
        let ghost prefix = s@.subrange(start as int, (i + 1) as int);
        assert(prefix.drop_last() =~= s@.subrange(start as int, i as int));
        assert(prefix.last() == c);
        assert(d[(i - start) as int] == c);
        if c < '0' || c > '9' {
            assert(!is_digit(d[(i - start) as int]));
            return None;
        }
        let digit: u64 = (c as u64) - ('0' as u64);
        if value > (u64::MAX - digit) / 10 {
            proof {
                assert(digits_value(prefix) > u64::MAX);
                assert(d.subrange(0, (i + 1 - start) as int) =~= prefix);
                if all_digits(d) {
                    lemma_digits_value_prefix_bound(d, (i + 1 - start) as int);
                }
            }
            return None;
        }
        value = value * 10 + digit;
        i = i + 1;
        assert(all_digits(s@.subrange(start as int, i as int))) by {
            assert forall|j: int| 0 <= j < prefix.len() implies is_digit(#[trigger] prefix[j]) by {
                if j < prefix.len() - 1 {
                    assert(prefix[j] == prefix.drop_last()[j]);
                }
            }
        }
    }
    assert(s@.subrange(start as int, len as int) =~= d);
    Some(value)
}

/// A number read from a prefix of digits never exceeds the number read from
/// the whole string.
proof fn lemma_digits_value_prefix_bound(s: Seq<char>, k: int)
    requires
        0 <= k <= s.len(),
        all_digits(s),
    ensures
        digits_value(s.subrange(0, k)) <= digits_value(s),
    decreases s.len() - k,
{
    if k < s.len() {
        lemma_digits_value_prefix_bound(s, k + 1);
        assert(s.subrange(0, k + 1).drop_last() =~= s.subrange(0, k));
        assert(is_digit(s[k]));
    } else {
        assert(s.subrange(0, k) =~= s);
    }
}

/// Bytes that the form serializer copies unchanged: ASCII letters and digits
/// and the four marks `*`, `-`, `.` and `_`.
pub open spec fn byte_unchanged(b: u8) -> bool {
    ||| b == 0x2a
    ||| b == 0x2d
    ||| b == 0x2e
    ||| b == 0x5f
    ||| 0x30 <= b <= 0x39
    ||| 0x41 <= b <= 0x5a
    ||| 0x61 <= b <= 0x7a
}

/// The upper-case hexadecimal digit for a value below sixteen.
pub open spec fn hex_upper(d: nat) -> char {
    if d < 10 {
        digit_char(d)
    } else if d == 10 { 'A' }
    else if d == 11 { 'B' }
    else if d == 12 { 'C' }
    else if d == 13 { 'D' }
    else if d == 14 { 'E' }
    else { 'F' }
}

/// How one byte is written: unchanged, `+` for a space, else `%XX`.
pub open spec fn serialize_byte(b: u8) -> Seq<char> {
    if byte_unchanged(b) {
        seq![b as char]
    } else if b == 0x20 {
        seq!['+']
    } else {
        seq!['%', hex_upper((b / 16) as nat), hex_upper((b % 16) as nat)]
    }
}

/// The `application/x-www-form-urlencoded` byte serializer.
pub open spec fn byte_serialize(bytes: Seq<u8>) -> Seq<char>
    decreases bytes.len(),
{
    if bytes.len() == 0 {
        seq![]
    } else {
        serialize_byte(bytes[0]) + byte_serialize(bytes.drop_first())
    }
}

/// A name or a value as it appears in a form: its UTF-8 bytes, serialized.
pub open spec fn encode_component(s: Seq<char>) -> Seq<char> {
    byte_serialize(encode_utf8(s))
}

/// One `name=value` pair.
pub open spec fn encode_pair(pair: (Seq<char>, Seq<char>)) -> Seq<char> {
    encode_component(pair.0) + seq!['='] + encode_component(pair.1)
}

/// The serialization of a list of pairs: each pair encoded, joined by `&`.
pub open spec fn form_urlencoded(pairs: Seq<(Seq<char>, Seq<char>)>) -> Seq<char>
    decreases pairs.len(),
{
    if pairs.len() == 0 {
        seq![]
    } else if pairs.len() == 1 {
        encode_pair(pairs[0])
    } else {
        form_urlencoded(pairs.drop_last()) + seq!['&'] + encode_pair(pairs.last())
    }
}

/// Serializes name/value pairs with `url::form_urlencoded::Serializer`
/// (`Serializer::new(String::new()).extend_pairs(..).finish()`).
///
/// Trusted: the contract states the crate's documented serializer (the
/// WHATWG `application/x-www-form-urlencoded` serializer with UTF-8): each
/// name and value is byte-serialized, joined by `=`, and pairs by `&`.
#[verifier::external_body]
pub(crate) fn form_urlencode(pairs: &Vec<(String, String)>) -> (r: String)
    ensures
        r@ == form_urlencoded(pairs.deep_view()),
{
    url::form_urlencoded::Serializer::new(String::new()).extend_pairs(pairs.iter()).finish()
}

/// A number written in decimal reads back as the same number: what
/// `decimal_string` writes, `parse_u64` parses to the value written.
pub proof fn lemma_decimal_parses_back(n: u64)
    ensures
        parse_u64_spec(decimal(n as nat)) == Some(n),
{
    lemma_decimal_digits(n as nat);
    let s = decimal(n as nat);
    assert(is_digit(s[0]));
}

proof fn lemma_digit_char(d: nat)
    requires
        d < 10,
    ensures
        is_digit(digit_char(d)),
        (digit_char(d) as nat) - ('0' as nat) == d,
{
}

proof fn lemma_decimal_digits(n: nat)
    ensures
        decimal(n).len() > 0,
        all_digits(decimal(n)),
        digits_value(decimal(n)) == n,
    decreases n,
{
    lemma_digit_char((n % 10) as nat);
    if n < 10 {
        let t = decimal(n);
        assert(t.drop_last() =~= Seq::<char>::empty());
        assert(t.last() == digit_char(n));
        assert(digits_value(t) == digits_value(t.drop_last()) * 10 + ((t.last() as nat) - ('0' as nat)) as nat);
    } else {
        lemma_decimal_digits(n / 10);
        let s = decimal(n / 10);
        let t = s.push(digit_char(n % 10));
        assert(t.drop_last() =~= s);
        assert(t.last() == digit_char(n % 10));
        assert(decimal(n) == t);
        assert(digits_value(t) == digits_value(s) * 10 + ((t.last() as nat) - ('0' as nat)) as nat);
        assert forall|i: int| 0 <= i < t.len() implies is_digit(#[trigger] t[i]) by {
            if i < s.len() {
                assert(t[i] == s[i]);
            }
        }
    }
}

/// Names and values in a form never contain `&` or `=`: the encoded pairs
/// split back at their separators.
pub proof fn lemma_component_has_no_separator(s: Seq<char>)
    ensures
        forall|i: int| 0 <= i < encode_component(s).len() ==>
            #[trigger] encode_component(s)[i] != '&' && encode_component(s)[i] != '=',
{
    lemma_byte_serialize_has_no_separator(encode_utf8(s));
}

proof fn lemma_byte_serialize_has_no_separator(b: Seq<u8>)
    ensures
        forall|i: int| 0 <= i < byte_serialize(b).len() ==>
            #[trigger] byte_serialize(b)[i] != '&' && byte_serialize(b)[i] != '=',
    decreases b.len(),
{
    if b.len() > 0 {
        lemma_byte_serialize_has_no_separator(b.drop_first());
        let head = serialize_byte(b[0]);
        let tail = byte_serialize(b.drop_first());
        assert forall|i: int| 0 <= i < head.len() implies #[trigger] head[i] != '&' && head[i] != '=' by {
            if byte_unchanged(b[0]) {
                assert(head[i] == b[0] as char);
            }
        }
        assert forall|i: int| 0 <= i < byte_serialize(b).len() implies
            #[trigger] byte_serialize(b)[i] != '&' && byte_serialize(b)[i] != '=' by {
            if i < head.len() {
                assert(byte_serialize(b)[i] == head[i]);
            } else {
                assert(byte_serialize(b)[i] == tail[i - head.len()]);
            }
        }
    }
}

} // verus!
