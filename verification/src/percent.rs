//! Percent-encoding of text in URLs.
use crate::text;
use vstd::prelude::*;
use vstd::utf8::*;

verus! {

/// Whether a byte stands for itself in an encoded text: an ASCII letter or
/// digit, or one of `-`, `.`, `_` and `~`.
pub open spec fn unreserved(b: u8) -> bool {
    ||| 0x30 <= b <= 0x39
    ||| 0x41 <= b <= 0x5a
    ||| 0x61 <= b <= 0x7a
    ||| b == 0x2d
    ||| b == 0x2e
    ||| b == 0x5f
    ||| b == 0x7e
}

/// The upper-case hexadecimal digit for a number below sixteen.
pub open spec fn hex_digit(n: int) -> u8 {
    if n < 10 {
        (0x30 + n) as u8
    } else {
        (0x41 + n - 10) as u8
    }
}

/// The number that a hexadecimal digit of either case stands for.
pub open spec fn hex_value(b: u8) -> Option<int> {
    if 0x30 <= b <= 0x39 {
        Some(b - 0x30)
    } else if 0x41 <= b <= 0x46 {
        Some(b - 0x41 + 10)
    } else if 0x61 <= b <= 0x66 {
        Some(b - 0x61 + 10)
    } else {
        None
    }
}

/// How one byte is encoded: as itself, or as `%` and two hexadecimal digits.
pub open spec fn escaped_byte(b: u8) -> Seq<u8> {
    if unreserved(b) {
        seq![b]
    } else {
        seq![0x25u8, hex_digit(b as int / 16), hex_digit(b as int % 16)]
    }
}

/// `bytes`, each encoded.
pub open spec fn escaped(bytes: Seq<u8>) -> Seq<u8>
    decreases bytes.len(),
{
    if bytes.len() == 0 {
        Seq::empty()
    } else {
        escaped_byte(bytes[0]) + escaped(bytes.skip(1))
    }
}

/// Whether `bytes` begins with `%` and two hexadecimal digits.
pub open spec fn begins_escape(bytes: Seq<u8>) -> bool {
    bytes.len() >= 3 && bytes[0] == 0x25 && hex_value(bytes[1]) is Some && hex_value(
        bytes[2],
    ) is Some
}

/// `bytes` with every `%` and two hexadecimal digits replaced by the byte that
/// they stand for, all else as it is.
pub open spec fn unescaped(bytes: Seq<u8>) -> Seq<u8>
    decreases bytes.len(),
{
    if bytes.len() == 0 {
        Seq::empty()
    } else if begins_escape(bytes) {
        seq![(hex_value(bytes[1])->0 * 16 + hex_value(bytes[2])->0) as u8] + unescaped(
            bytes.skip(3),
        )
    } else {
        seq![bytes[0]] + unescaped(bytes.skip(1))
    }
}

/// The percent-encoded form of a text.
pub open spec fn url_encoded(s: Seq<char>) -> Seq<char> {
    decode_utf8(escaped(encode_utf8(s)))
}

/// The text that a percent-encoded text stands for, where its bytes are UTF-8.
pub open spec fn url_decoded(s: Seq<char>) -> Option<Seq<char>> {
    let bytes = unescaped(encode_utf8(s));
    if valid_utf8(bytes) {
        Some(decode_utf8(bytes))
    } else {
        None
    }
}

/// The text that a percent-encoded text stands for, or the encoded text itself
/// where that is none.
pub open spec fn decoded_or_raw(s: Seq<char>) -> Seq<char> {
    match url_decoded(s) {
        Some(t) => t,
        None => s,
    }
}

/// `urlencoding::encode` keeps ASCII letters, digits and `-`, `.`, `_`, `~`,
/// and writes every other byte of the UTF-8 form as `%` and two upper-case
/// hexadecimal digits.
#[verifier::external_body]
fn encode(s: &str) -> (encoded: String)
    ensures
        encoded@ == url_encoded(s@),
{
    urlencoding::encode(s).into_owned()
}

/// `urlencoding::decode` replaces every `%` with two hexadecimal digits behind
/// it by that byte, leaves all else, and fails where the bytes are not UTF-8.
#[verifier::external_body]
fn decode(s: &str) -> (decoded: Option<String>)
    ensures
        text::optional(decoded) == url_decoded(s@),
{
    urlencoding::decode(s).ok().map(|t| t.into_owned())
}

/// The percent-encoded form of `s`.
pub fn percent_encode(s: &str) -> (encoded: String)
    ensures
        encoded@ == url_encoded(s@),
{
    encode(s)
}

/// The text that `raw` encodes, or `raw` itself where it does not decode.
pub fn percent_decode(raw: &str) -> (decoded: String)
    ensures
        decoded@ == decoded_or_raw(raw@),
{
    match decode(raw) {
        Some(t) => t,
        None => raw.to_owned(),
    }
}

proof fn lemma_escaped_is_ascii(bytes: Seq<u8>)
    ensures
        forall|i: int|
            0 <= i < escaped(bytes).len() ==> unreserved(#[trigger] escaped(bytes)[i]) || escaped(
                bytes,
            )[i] == 0x25,
        valid_utf8(escaped(bytes)),
    decreases bytes.len(),
{
    if bytes.len() > 0 {
        lemma_escaped_is_ascii(bytes.skip(1));
        let e = escaped_byte(bytes[0]);
        assert forall|i: int| 0 <= i < escaped(bytes).len() implies unreserved(
            #[trigger] escaped(bytes)[i],
        ) || escaped(bytes)[i] == 0x25 by {
            if i >= e.len() {
                assert(escaped(bytes)[i] == escaped(bytes.skip(1))[i - e.len()]);
            } else {
                assert(escaped(bytes)[i] == e[i]);
            }
        }
        lemma_ascii_valid(e);
        valid_utf8_concat(e, escaped(bytes.skip(1)));
    }
}

proof fn lemma_ascii_valid(bytes: Seq<u8>)
    requires
        forall|i: int| 0 <= i < bytes.len() ==> #[trigger] bytes[i] < 0x80,
    ensures
        valid_utf8(bytes),
    decreases bytes.len(),
{
    if bytes.len() > 0 {
        let b = bytes[0];
        assert((b & 0x7f) as u32 == b as u32) by (bit_vector)
            requires
                b < 0x80,
        ;
        lemma_ascii_valid(pop_first_scalar(bytes));
    }
}

proof fn lemma_unescaped_escaped(bytes: Seq<u8>)
    ensures
        unescaped(escaped(bytes)) == bytes,
    decreases bytes.len(),
{
    if bytes.len() > 0 {
        let b = bytes[0];
        let rest = bytes.skip(1);
        lemma_unescaped_escaped(rest);
        let e = escaped(bytes);
        if unreserved(b) {
            assert(e.skip(1) == escaped(rest));
        } else {
            assert(e.skip(3) == escaped(rest));
            assert(hex_value(hex_digit(b as int / 16)) == Some(b as int / 16));
            assert(hex_value(hex_digit(b as int % 16)) == Some(b as int % 16));
            assert((b as int / 16) * 16 + b as int % 16 == b);
        }
        assert(seq![b] + rest == bytes);
    } else {
        assert(unescaped(escaped(bytes)) == bytes);
    }
}

/// Decoding gives back what was encoded.
pub proof fn law_decode_encode(s: Seq<char>)
    ensures
        url_decoded(url_encoded(s)) == Some(s),
        decoded_or_raw(url_encoded(s)) == s,
{
    let bytes = encode_utf8(s);
    lemma_escaped_is_ascii(bytes);
    decode_utf8_encode_utf8(escaped(bytes));
    lemma_unescaped_escaped(bytes);
    encode_utf8_valid_utf8(s);
    encode_utf8_decode_utf8(s);
}

proof fn lemma_decode_ascii(bytes: Seq<u8>)
    requires
        forall|i: int| 0 <= i < bytes.len() ==> #[trigger] bytes[i] < 0x80,
    ensures
        decode_utf8(bytes).len() == bytes.len(),
        forall|i: int| 0 <= i < bytes.len() ==> #[trigger] decode_utf8(bytes)[i] == bytes[i] as char,
    decreases bytes.len(),
{
    lemma_ascii_valid(bytes);
    if bytes.len() > 0 {
        let b = bytes[0];
        assert((b & 0x7f) as u32 == b as u32) by (bit_vector)
            requires
                b < 0x80,
        ;
        let rest = pop_first_scalar(bytes);
        lemma_decode_ascii(rest);
        assert(decode_utf8(bytes) == seq![b as char] + decode_utf8(rest));
    }
}

/// An encoded text holds unreserved ASCII characters and `%` alone, and so none
/// of the characters that divide a URL into parts.
pub proof fn law_encoded_characters(s: Seq<char>)
    ensures
        forall|i: int|
            0 <= i < url_encoded(s).len() ==> ({
                let c = #[trigger] url_encoded(s)[i];
                (c as u32) < 128 && (unreserved(c as u8) || c == '%')
            }),
{
    let bytes = escaped(encode_utf8(s));
    lemma_escaped_is_ascii(encode_utf8(s));
    lemma_decode_ascii(bytes);
    assert forall|i: int| 0 <= i < url_encoded(s).len() implies ({
        let c = #[trigger] url_encoded(s)[i];
        (c as u32) < 128 && (unreserved(c as u8) || c == '%')
    }) by {
        assert(unreserved(bytes[i]) || bytes[i] == 0x25);
    }
}

proof fn lemma_wide_bytes(v: u32)
    requires
        is_scalar(v),
    ensures
        v == 0x25 || forall|i: int|
            0 <= i < encode_scalar(v).len() ==> #[trigger] encode_scalar(v)[i] != 0x25,
{
    if has_width_1_encoding(v) {
        assert((v & 0x7f) as u8 == v) by (bit_vector)
            requires
                v <= 0x7f,
        ;
    } else {
        assert(forall|x: u8| #[trigger] (0x80 | x) != 0x25) by (bit_vector);
        assert(forall|x: u8| #[trigger] (0xC0 | x) != 0x25) by (bit_vector);
        assert(forall|x: u8| #[trigger] (0xE0 | x) != 0x25) by (bit_vector);
        assert(forall|x: u8| #[trigger] (0xF0 | x) != 0x25) by (bit_vector);
    }
}

proof fn lemma_no_percent_byte(s: Seq<char>)
    requires
        forall|i: int| 0 <= i < s.len() ==> #[trigger] s[i] != '%',
    ensures
        forall|i: int| 0 <= i < encode_utf8(s).len() ==> #[trigger] encode_utf8(s)[i] != 0x25,
    decreases s.len(),
{
    if s.len() > 0 {
        lemma_no_percent_byte(s.drop_first());
        let c = s[0];
        char_is_scalar(c);
        char_u32_cast(c, c as u32);
        assert(c as u32 != 0x25);
        lemma_wide_bytes(c as u32);
        let first = encode_scalar(s[0] as u32);
        let rest = encode_utf8(s.drop_first());
        assert(encode_utf8(s) == first + rest);
        assert forall|i: int| 0 <= i < encode_utf8(s).len() implies #[trigger] encode_utf8(s)[i]
            != 0x25 by {
            if i < first.len() {
                assert(encode_utf8(s)[i] == first[i]);
            } else {
                assert(encode_utf8(s)[i] == rest[i - first.len()]);
            }
        }
    }
}

proof fn lemma_unescaped_plain(bytes: Seq<u8>)
    requires
        forall|i: int| 0 <= i < bytes.len() ==> #[trigger] bytes[i] != 0x25,
    ensures
        unescaped(bytes) == bytes,
    decreases bytes.len(),
{
    if bytes.len() > 0 {
        lemma_unescaped_plain(bytes.skip(1));
        assert(seq![bytes[0]] + bytes.skip(1) == bytes);
    }
}

/// A text without `%` decodes to itself.
pub proof fn law_decode_plain(s: Seq<char>)
    requires
        forall|i: int| 0 <= i < s.len() ==> #[trigger] s[i] != '%',
    ensures
        url_decoded(s) == Some(s),
        decoded_or_raw(s) == s,
{
    lemma_no_percent_byte(s);
    lemma_unescaped_plain(encode_utf8(s));
    encode_utf8_valid_utf8(s);
    encode_utf8_decode_utf8(s);
}

/// An encoded text that stands for no text is left as it is, and any other is
/// decoded.
pub proof fn law_undecodable_text_stays(s: Seq<char>)
    ensures
        !valid_utf8(unescaped(encode_utf8(s))) ==> decoded_or_raw(s) == s,
        valid_utf8(unescaped(encode_utf8(s))) ==> encode_utf8(decoded_or_raw(s)) == unescaped(
            encode_utf8(s),
        ),
{
    if valid_utf8(unescaped(encode_utf8(s))) {
        decode_utf8_encode_utf8(unescaped(encode_utf8(s)));
    }
}

} // verus!
