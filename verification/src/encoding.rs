//! Percent-encoding of file names for enclosure URLs.
//!
//! A name's UTF-8 bytes are encoded one by one: ASCII letters, digits, `.`
//! and `_` pass through, every other byte becomes `%` followed by two
//! upper-case hex digits.  This keeps conventional file names readable while
//! spaces and symbols are escaped.  A decoding spec and a round-trip proof
//! show that no information is lost.

use vstd::prelude::*;
use vstd::utf8::encode_utf8;

verus! {

/// A byte that passes through unescaped: an ASCII letter, digit, `.` (0x2E)
/// or `_` (0x5F).
pub open spec fn is_kept_byte(b: u8) -> bool {
    (0x61 <= b <= 0x7A) || (0x41 <= b <= 0x5A) || (0x30 <= b <= 0x39) || b == 0x2E || b == 0x5F
}

/// The upper-case hex digit character for a value below sixteen.
pub open spec fn hex_upper_char(d: int) -> char {
    if d == 0 {
        '0'
    } else if d == 1 {
        '1'
    } else if d == 2 {
        '2'
    } else if d == 3 {
        '3'
    } else if d == 4 {
        '4'
    } else if d == 5 {
        '5'
    } else if d == 6 {
        '6'
    } else if d == 7 {
        '7'
    } else if d == 8 {
        '8'
    } else if d == 9 {
        '9'
    } else if d == 10 {
        'A'
    } else if d == 11 {
        'B'
    } else if d == 12 {
        'C'
    } else if d == 13 {
        'D'
    } else if d == 14 {
        'E'
    } else {
        'F'
    }
}

/// The three characters of an escaped byte: `%` and two upper-case hex digits.
pub open spec fn escaped_byte(b: u8) -> Seq<char> {
    seq!['%', hex_upper_char(b as int / 16), hex_upper_char(b as int % 16)]
}

/// One byte of the encoding: kept as its own character, or escaped.
pub open spec fn encoded_byte(b: u8) -> Seq<char> {
    if is_kept_byte(b) {
        seq![b as char]
    } else {
        escaped_byte(b)
    }
}

/// The percent-encoding of a byte sequence.
pub open spec fn percent_encoded(bs: Seq<u8>) -> Seq<char>
    decreases bs.len(),
{
    if bs.len() == 0 {
        seq![]
    } else {
        encoded_byte(bs.first()) + percent_encoded(bs.drop_first())
    }
}

/// The percent-encoding of a name, over its UTF-8 bytes.
pub open spec fn percent_encoded_name(s: Seq<char>) -> Seq<char> {
    percent_encoded(encode_utf8(s))
}

/// An upper-case hex digit character.
pub open spec fn is_hex_upper(c: char) -> bool {
    ('0' <= c <= '9') || ('A' <= c <= 'F')
}

/// The value of an upper-case hex digit character.
pub open spec fn hex_val(c: char) -> int {
    if '0' <= c <= '9' {
        c as int - '0' as int
    } else {
        c as int - 'A' as int + 10
    }
}

/// The bytes named by a percent-encoded character sequence: each `%` with
/// two hex digits yields one byte, every other character stands for itself.
pub open spec fn percent_decoded(s: Seq<char>) -> Seq<u8>
    decreases s.len(),
{
    if s.len() == 0 {
        seq![]
    } else if s.first() == '%' && s.len() >= 3 && is_hex_upper(s[1]) && is_hex_upper(s[2]) {
        seq![(hex_val(s[1]) * 16 + hex_val(s[2])) as u8] + percent_decoded(
            s.subrange(3, s.len() as int),
        )
    } else {
        seq![s.first() as u8] + percent_decoded(s.drop_first())
    }
}

/// Relies on `percent_encoding::percent_encode_byte`: the `%XX` form of a
/// byte, with upper-case hex digits.
#[verifier::external_body]
fn percent_escape_byte(b: u8) -> (r: &'static str)
    ensures
        r@ == escaped_byte(b),
{
    percent_encoding::percent_encode_byte(b)
}

proof fn lemma_percent_encoded_snoc(bs: Seq<u8>, b: u8)
    ensures
        percent_encoded(bs.push(b)) == percent_encoded(bs) + encoded_byte(b),
    decreases bs.len(),
{
    if bs.len() == 0 {
        assert(bs.push(b).drop_first() =~= bs);
        assert(percent_encoded(bs.push(b)) =~= percent_encoded(bs) + encoded_byte(b));
    } else {
        assert(bs.push(b).first() == bs.first());
        assert(bs.push(b).drop_first() =~= bs.drop_first().push(b));
        lemma_percent_encoded_snoc(bs.drop_first(), b);
        assert(percent_encoded(bs.push(b)) =~= percent_encoded(bs) + encoded_byte(b));
    }
}

fn is_kept_byte_exec(b: u8) -> (r: bool)
    ensures
        r == is_kept_byte(b),
{
    (0x61 <= b && b <= 0x7A) || (0x41 <= b && b <= 0x5A) || (0x30 <= b && b <= 0x39) || b == 0x2E
        || b == 0x5F
}

/// Percent-encodes a name for use as a URL path segment.
pub fn percent_encode_name(s: &str) -> (r: String)
    ensures
        r@ == percent_encoded_name(s@),
{
    let bytes = s.as_bytes_vec();
    let mut r = String::new();
    let mut i: usize = 0;
    while i < bytes.len()
        invariant
            bytes@ == encode_utf8(s@),
            i <= bytes@.len(),
            r@ =~= percent_encoded(bytes@.subrange(0, i as int)),
        decreases bytes@.len() - i,
    {
        let b = bytes[i];
        if is_kept_byte_exec(b) {
            crate::text::push_char(&mut r, b as char);
        } else {
            let esc = percent_escape_byte(b);
            r.append(esc);
        }
        proof {
            let pre = bytes@.subrange(0, i as int);
            lemma_percent_encoded_snoc(pre, bytes@[i as int]);
            assert(bytes@.subrange(0, i as int + 1) =~= pre.push(bytes@[i as int]));
        }
        i = i + 1;
    }
    assert(bytes@.subrange(0, bytes@.len() as int) =~= bytes@);
    r
}

proof fn lemma_hex_digit_round_trip(d: int)
    requires
        0 <= d < 16,
    ensures
        is_hex_upper(hex_upper_char(d)),
        hex_val(hex_upper_char(d)) == d,
{
}

proof fn lemma_escaped_byte_decodes(b: u8, tail: Seq<char>)
    ensures
        percent_decoded(escaped_byte(b) + tail) == seq![b] + percent_decoded(tail),
{
    let s = escaped_byte(b) + tail;
    lemma_hex_digit_round_trip(b as int / 16);
    lemma_hex_digit_round_trip(b as int % 16);
    assert(s.first() == '%');
    assert(s.len() >= 3);
    assert(s[1] == hex_upper_char(b as int / 16));
    assert(s[2] == hex_upper_char(b as int % 16));
    assert(hex_val(s[1]) * 16 + hex_val(s[2]) == b as int);
    assert(s.subrange(3, s.len() as int) =~= tail);
    assert(percent_decoded(s) =~= seq![b] + percent_decoded(tail));
}

proof fn lemma_kept_byte_decodes(b: u8, tail: Seq<char>)
    requires
        is_kept_byte(b),
    ensures
        percent_decoded(seq![b as char] + tail) == seq![b] + percent_decoded(tail),
{
    let s = seq![b as char] + tail;
    assert(s.first() == b as char);
    assert((b as char) != '%');
    assert(s.drop_first() =~= tail);
    assert(s.first() as u8 == b);
    assert(percent_decoded(s) =~= seq![b] + percent_decoded(tail));
}

/// Decoding a percent-encoded byte sequence yields the bytes back: the
/// encoding loses nothing.
pub proof fn lemma_percent_decode_encode(bs: Seq<u8>)
    ensures
        percent_decoded(percent_encoded(bs)) == bs,
    decreases bs.len(),
{
    if bs.len() == 0 {
        assert(percent_decoded(percent_encoded(bs)) =~= bs);
    } else {
        let b = bs.first();
        let tail = percent_encoded(bs.drop_first());
        lemma_percent_decode_encode(bs.drop_first());
        if is_kept_byte(b) {
            lemma_kept_byte_decodes(b, tail);
        } else {
            lemma_escaped_byte_decodes(b, tail);
        }
        assert(percent_decoded(percent_encoded(bs)) =~= bs);
    }
}

/// Round trip: percent-encoding a file name and decoding the produced path
/// segment yields the original name back, for any name at all.
pub proof fn lemma_name_round_trip(s: Seq<char>)
    ensures
        percent_decoded(percent_encoded_name(s)) == encode_utf8(s),
        vstd::utf8::decode_utf8(percent_decoded(percent_encoded_name(s))) == s,
{
    lemma_percent_decode_encode(encode_utf8(s));
    broadcast use vstd::utf8::encode_utf8_decode_utf8;

}

} // verus!
