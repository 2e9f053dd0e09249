//! Percent-encoding of text for use as one segment of a URL path.
//!
//! The encoding is defined here over the UTF-8 bytes of the text; the bytes
//! themselves are encoded by the `urlencoding` crate.

use vstd::prelude::*;
use vstd::utf8::encode_utf8;

verus! {

/// Whether a byte stands for itself in a path segment: an ASCII letter or
/// digit, or one of `-`, `.`, `_`, `~`.
pub open spec fn is_unreserved(byte: u8) -> bool {
    ||| 0x30 <= byte <= 0x39
    ||| 0x41 <= byte <= 0x5A
    ||| 0x61 <= byte <= 0x7A
    ||| byte == 0x2D
    ||| byte == 0x2E
    ||| byte == 0x5F
    ||| byte == 0x7E
}

/// The upper-case hexadecimal digit for a value below sixteen.
pub open spec fn hex_digit(nibble: u8) -> char {
    if nibble < 10 {
        (0x30 + nibble) as u8 as char
    } else {
        (0x41 + nibble - 10) as u8 as char
    }
}

/// What one byte becomes: itself where it is unreserved, else `%` and its
/// two hexadecimal digits.
pub open spec fn escaped_byte(byte: u8) -> Seq<char> {
    if is_unreserved(byte) {
        seq![byte as char]
    } else {
        seq!['%', hex_digit(byte / 16), hex_digit(byte % 16)]
    }
}

/// The percent-encoding of a byte string: each byte's escape, in order.
pub open spec fn percent_encoded(bytes: Seq<u8>) -> Seq<char>
    decreases bytes.len(),
{
    if bytes.len() == 0 {
        Seq::empty()
    } else {
        escaped_byte(bytes[0]) + percent_encoded(bytes.drop_first())
    }
}

/// The percent-encoding of a text: that of its UTF-8 bytes.
pub open spec fn url_encoded(text: Seq<char>) -> Seq<char> {
    percent_encoded(encode_utf8(text))
}

/// Calls `urlencoding::encode`. The contract restates that crate's rule:
/// every byte of the text's UTF-8 form is kept if it is an ASCII letter, a
/// digit or one of `-`, `.`, `_`, `~`, and is otherwise replaced by `%` and
/// two upper-case hexadecimal digits. This is taken on trust from the crate.
#[verifier::external_body]
pub(crate) fn url_encode(text: &str) -> (encoded: String)
    ensures
        encoded@ == url_encoded(text@),
{
    urlencoding::encode(text).into_owned()
}

/// Encoding distributes over concatenation of byte strings.
pub proof fn lemma_percent_encoded_concat(left: Seq<u8>, right: Seq<u8>)
    ensures
        percent_encoded(left + right) == percent_encoded(left) + percent_encoded(right),
    decreases left.len(),
{
    if left.len() == 0 {
        assert(left + right =~= right);
        assert(percent_encoded(left) + percent_encoded(right) =~= percent_encoded(right));
    } else {
        lemma_percent_encoded_concat(left.drop_first(), right);
        assert((left + right).drop_first() =~= left.drop_first() + right);
        assert((left + right)[0] == left[0]);
        assert(percent_encoded(left + right) =~= escaped_byte(left[0]) + (percent_encoded(
            left.drop_first(),
        ) + percent_encoded(right)));
    }
}

/// A text that starts with `#` encodes to `%23` followed by the encoding of
/// the rest.
pub proof fn lemma_hash_is_escaped(rest: Seq<char>)
    ensures
        url_encoded(seq!['#'] + rest) == seq!['%', '2', '3'] + url_encoded(rest),
{
    let text = seq!['#'] + rest;
    assert(text.drop_first() =~= rest);
    assert(text[0] == '#');
    let scalar = '#' as u32;
    assert(scalar == 0x23);
    assert((scalar & 0x7F) as u8 == 0x23u8) by (bit_vector)
        requires
            scalar == 0x23,
    ;
    let bytes = encode_utf8(text);
    assert(bytes =~= seq![0x23u8] + encode_utf8(rest));
    lemma_percent_encoded_concat(seq![0x23u8], encode_utf8(rest));
    assert(seq![0x23u8].drop_first() =~= Seq::<u8>::empty());
    assert(percent_encoded(Seq::<u8>::empty()) =~= Seq::<char>::empty());
    assert(percent_encoded(seq![0x23u8]) =~= escaped_byte(0x23u8));
    assert(hex_digit(2) == '2');
    assert(hex_digit(3) == '3');
    assert(escaped_byte(0x23u8) =~= seq!['%', '2', '3']);
}

} // verus!
