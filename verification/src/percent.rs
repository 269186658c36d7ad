//! URL percent-encoding of byte sequences, as used for the text path of a
//! `data:` URI, together with its decoder and the round-trip law.

use vstd::prelude::*;

verus! {

/// Bytes that percent-encoding leaves as they are: the ASCII alphanumerics
/// and `-`, `.`, `_`, `~`.
pub open spec fn is_url_unreserved_byte(b: u8) -> bool {
    ||| 0x30 <= b <= 0x39  // '0'..='9'
    ||| 0x41 <= b <= 0x5a  // 'A'..='Z'
    ||| 0x61 <= b <= 0x7a  // 'a'..='z'
    ||| b == 0x2d  // '-'
    ||| b == 0x2e  // '.'
    ||| b == 0x5f  // '_'
    ||| b == 0x7e  // '~'
}

/// The uppercase hexadecimal digit with the given value below 16.
pub open spec fn hex_upper(v: u8) -> char {
    if v == 0 {
        '0'
    } else if v == 1 {
        '1'
    } else if v == 2 {
        '2'
    } else if v == 3 {
        '3'
    } else if v == 4 {
        '4'
    } else if v == 5 {
        '5'
    } else if v == 6 {
        '6'
    } else if v == 7 {
        '7'
    } else if v == 8 {
        '8'
    } else if v == 9 {
        '9'
    } else if v == 10 {
        'A'
    } else if v == 11 {
        'B'
    } else if v == 12 {
        'C'
    } else if v == 13 {
        'D'
    } else if v == 14 {
        'E'
    } else if v == 15 {
        'F'
    } else {
        '0'
    }
}

/// The value of an uppercase hexadecimal digit; 16 for any other character.
pub open spec fn hex_val(c: char) -> u8 {
    if c == '0' {
        0
    } else if c == '1' {
        1
    } else if c == '2' {
        2
    } else if c == '3' {
        3
    } else if c == '4' {
        4
    } else if c == '5' {
        5
    } else if c == '6' {
        6
    } else if c == '7' {
        7
    } else if c == '8' {
        8
    } else if c == '9' {
        9
    } else if c == 'A' {
        10
    } else if c == 'B' {
        11
    } else if c == 'C' {
        12
    } else if c == 'D' {
        13
    } else if c == 'E' {
        14
    } else if c == 'F' {
        15
    } else {
        16
    }
}

/// The percent-encoding of one byte: an unreserved byte stands for itself,
/// every other byte becomes `%XX` with uppercase hexadecimal digits.
pub open spec fn percent_encode_byte(b: u8) -> Seq<char> {
    if is_url_unreserved_byte(b) {
        seq![b as char]
    } else {
        seq!['%', hex_upper(b >> 4), hex_upper(b & 0x0f)]
    }
}

/// The percent-encoding of a byte sequence, byte by byte.
pub open spec fn spec_percent_encode(bytes: Seq<u8>) -> Seq<char>
    decreases bytes.len(),
{
    if bytes.len() == 0 {
        Seq::empty()
    } else {
        percent_encode_byte(bytes[0]) + spec_percent_encode(bytes.drop_first())
    }
}

/// Percent-decoding: a `%XX` escape stands for the byte with hexadecimal
/// value `XX`, any other character stands for its own code point.
pub open spec fn spec_percent_decode(chars: Seq<char>) -> Seq<u8>
    decreases chars.len(),
{
    if chars.len() == 0 {
        Seq::empty()
    } else if chars[0] == '%' && chars.len() >= 3 {
        seq![(hex_val(chars[1]) << 4) | hex_val(chars[2])] + spec_percent_decode(chars.skip(3))
    } else {
        seq![chars[0] as u8] + spec_percent_decode(chars.skip(1))
    }
}

proof fn lemma_hex_upper_val(v: u8)
    requires
        v < 16,
    ensures
        hex_val(hex_upper(v)) == v,
        hex_upper(v) != '%',
{
}

/// Law: percent-decoding undoes percent-encoding on every byte sequence.
pub proof fn lemma_percent_round_trip(bytes: Seq<u8>)
    ensures
        spec_percent_decode(spec_percent_encode(bytes)) == bytes,
    decreases bytes.len(),
{
    if bytes.len() == 0 {
        assert(spec_percent_decode(spec_percent_encode(bytes)) =~= bytes);
    } else {
        let b = bytes[0];
        let rest = bytes.drop_first();
        let enc = spec_percent_encode(bytes);
        lemma_percent_round_trip(rest);
        if is_url_unreserved_byte(b) {
            assert(enc =~= seq![b as char] + spec_percent_encode(rest));
            assert(b as char != '%');
            assert((b as char) as u8 == b);
            assert(enc.skip(1) =~= spec_percent_encode(rest));
            assert(spec_percent_decode(enc) =~= seq![b] + rest);
            assert(seq![b] + rest =~= bytes);
        } else {
            let hi = b >> 4;
            let lo = b & 0x0f;
            assert((b >> 4) < 16 && (b & 0x0f) < 16 && (((b >> 4) << 4) | (b & 0x0f)) == b)
                by (bit_vector);
            lemma_hex_upper_val(hi);
            lemma_hex_upper_val(lo);
            assert(enc =~= seq!['%', hex_upper(hi), hex_upper(lo)] + spec_percent_encode(rest));
            assert(enc.skip(3) =~= spec_percent_encode(rest));
            assert(spec_percent_decode(enc) =~= seq![b] + rest);
            assert(seq![b] + rest =~= bytes);
        }
    }
}

/// Relies on urlencoding::encode: it percent-encodes every byte of the
/// string's UTF-8 form except the ASCII alphanumerics and `-`, `.`, `_`,
/// `~`, writing each escape as `%XX` with uppercase hexadecimal digits.
#[verifier::external_body]
pub(crate) fn percent_encode_str(s: &str) -> (r: String)
    ensures
        r@ == spec_percent_encode(vstd::utf8::encode_utf8(s@)),
{
    urlencoding::encode(s).into_owned()
}

} // verus!
