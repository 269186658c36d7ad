//! Base64 encoding of byte sequences (RFC 4648, standard alphabet, with
//! padding), as used for the binary path of a `data:` URI, together with its
//! decoder and the round-trip law.

use vstd::prelude::*;

verus! {

/// The base64 character for a 6-bit value: the RFC 4648 standard alphabet.
pub open spec fn b64_char(v: u8) -> char {
    if v == 0 {
        'A'
    } else if v == 1 {
        'B'
    } else if v == 2 {
        'C'
    } else if v == 3 {
        'D'
    } else if v == 4 {
        'E'
    } else if v == 5 {
        'F'
    } else if v == 6 {
        'G'
    } else if v == 7 {
        'H'
    } else if v == 8 {
        'I'
    } else if v == 9 {
        'J'
    } else if v == 10 {
        'K'
    } else if v == 11 {
        'L'
    } else if v == 12 {
        'M'
    } else if v == 13 {
        'N'
    } else if v == 14 {
        'O'
    } else if v == 15 {
        'P'
    } else if v == 16 {
        'Q'
    } else if v == 17 {
        'R'
    } else if v == 18 {
        'S'
    } else if v == 19 {
        'T'
    } else if v == 20 {
        'U'
    } else if v == 21 {
        'V'
    } else if v == 22 {
        'W'
    } else if v == 23 {
        'X'
    } else if v == 24 {
        'Y'
    } else if v == 25 {
        'Z'
    } else if v == 26 {
        'a'
    } else if v == 27 {
        'b'
    } else if v == 28 {
        'c'
    } else if v == 29 {
        'd'
    } else if v == 30 {
        'e'
    } else if v == 31 {
        'f'
    } else if v == 32 {
        'g'
    } else if v == 33 {
        'h'
    } else if v == 34 {
        'i'
    } else if v == 35 {
        'j'
    } else if v == 36 {
        'k'
    } else if v == 37 {
        'l'
    } else if v == 38 {
        'm'
    } else if v == 39 {
        'n'
    } else if v == 40 {
        'o'
    } else if v == 41 {
        'p'
    } else if v == 42 {
        'q'
    } else if v == 43 {
        'r'
    } else if v == 44 {
        's'
    } else if v == 45 {
        't'
    } else if v == 46 {
        'u'
    } else if v == 47 {
        'v'
    } else if v == 48 {
        'w'
    } else if v == 49 {
        'x'
    } else if v == 50 {
        'y'
    } else if v == 51 {
        'z'
    } else if v == 52 {
        '0'
    } else if v == 53 {
        '1'
    } else if v == 54 {
        '2'
    } else if v == 55 {
        '3'
    } else if v == 56 {
        '4'
    } else if v == 57 {
        '5'
    } else if v == 58 {
        '6'
    } else if v == 59 {
        '7'
    } else if v == 60 {
        '8'
    } else if v == 61 {
        '9'
    } else if v == 62 {
        '+'
    } else if v == 63 {
        '/'
    } else {
        'A'
    }
}

/// The 6-bit value of a base64 character; 64 for any other character.
pub open spec fn b64_val(c: char) -> u8 {
    if c == 'A' {
        0
    } else if c == 'B' {
        1
    } else if c == 'C' {
        2
    } else if c == 'D' {
        3
    } else if c == 'E' {
        4
    } else if c == 'F' {
        5
    } else if c == 'G' {
        6
    } else if c == 'H' {
        7
    } else if c == 'I' {
        8
    } else if c == 'J' {
        9
    } else if c == 'K' {
        10
    } else if c == 'L' {
        11
    } else if c == 'M' {
        12
    } else if c == 'N' {
        13
    } else if c == 'O' {
        14
    } else if c == 'P' {
        15
    } else if c == 'Q' {
        16
    } else if c == 'R' {
        17
    } else if c == 'S' {
        18
    } else if c == 'T' {
        19
    } else if c == 'U' {
        20
    } else if c == 'V' {
        21
    } else if c == 'W' {
        22
    } else if c == 'X' {
        23
    } else if c == 'Y' {
        24
    } else if c == 'Z' {
        25
    } else if c == 'a' {
        26
    } else if c == 'b' {
        27
    } else if c == 'c' {
        28
    } else if c == 'd' {
        29
    } else if c == 'e' {
        30
    } else if c == 'f' {
        31
    } else if c == 'g' {
        32
    } else if c == 'h' {
        33
    } else if c == 'i' {
        34
    } else if c == 'j' {
        35
    } else if c == 'k' {
        36
    } else if c == 'l' {
        37
    } else if c == 'm' {
        38
    } else if c == 'n' {
        39
    } else if c == 'o' {
        40
    } else if c == 'p' {
        41
    } else if c == 'q' {
        42
    } else if c == 'r' {
        43
    } else if c == 's' {
        44
    } else if c == 't' {
        45
    } else if c == 'u' {
        46
    } else if c == 'v' {
        47
    } else if c == 'w' {
        48
    } else if c == 'x' {
        49
    } else if c == 'y' {
        50
    } else if c == 'z' {
        51
    } else if c == '0' {
        52
    } else if c == '1' {
        53
    } else if c == '2' {
        54
    } else if c == '3' {
        55
    } else if c == '4' {
        56
    } else if c == '5' {
        57
    } else if c == '6' {
        58
    } else if c == '7' {
        59
    } else if c == '8' {
        60
    } else if c == '9' {
        61
    } else if c == '+' {
        62
    } else if c == '/' {
        63
    } else {
        64
    }
}

/// The base64 encoding of a byte sequence: three bytes at a time become four
/// alphabet characters; a final group of one or two bytes is padded with `=`.
pub open spec fn spec_base64_encode(bytes: Seq<u8>) -> Seq<char>
    decreases bytes.len(),
{
    if bytes.len() == 0 {
        Seq::empty()
    } else if bytes.len() == 1 {
        let b0 = bytes[0];
        seq![b64_char(b0 >> 2), b64_char((b0 & 3) << 4), '=', '=']
    } else if bytes.len() == 2 {
        let b0 = bytes[0];
        let b1 = bytes[1];
        seq![
            b64_char(b0 >> 2),
            b64_char(((b0 & 3) << 4) | (b1 >> 4)),
            b64_char((b1 & 15) << 2),
            '=',
        ]
    } else {
        let b0 = bytes[0];
        let b1 = bytes[1];
        let b2 = bytes[2];
        seq![
            b64_char(b0 >> 2),
            b64_char(((b0 & 3) << 4) | (b1 >> 4)),
            b64_char(((b1 & 15) << 2) | (b2 >> 6)),
            b64_char(b2 & 63),
        ] + spec_base64_encode(bytes.skip(3))
    }
}

/// Base64 decoding of a padded encoding: each group of four characters yields
/// three bytes, or fewer in a final group padded with `=`.
pub open spec fn spec_base64_decode(chars: Seq<char>) -> Seq<u8>
    decreases chars.len(),
{
    if chars.len() < 4 {
        Seq::empty()
    } else {
        let v0 = b64_val(chars[0]);
        let v1 = b64_val(chars[1]);
        if chars[2] == '=' {
            seq![(v0 << 2) | (v1 >> 4)]
        } else if chars[3] == '=' {
            let v2 = b64_val(chars[2]);
            seq![(v0 << 2) | (v1 >> 4), (v1 << 4) | (v2 >> 2)]
        } else {
            let v2 = b64_val(chars[2]);
            let v3 = b64_val(chars[3]);
            seq![(v0 << 2) | (v1 >> 4), (v1 << 4) | (v2 >> 2), (v2 << 6) | v3]
                + spec_base64_decode(chars.skip(4))
        }
    }
}

proof fn lemma_b64_val_char(v: u8)
    requires
        v < 64,
    ensures
        b64_val(b64_char(v)) == v,
        b64_char(v) != '=',
{
}

/// Law: base64-decoding undoes base64-encoding on every byte sequence.
pub proof fn lemma_base64_round_trip(bytes: Seq<u8>)
    ensures
        spec_base64_decode(spec_base64_encode(bytes)) == bytes,
    decreases bytes.len(),
{
    if bytes.len() == 0 {
        assert(spec_base64_decode(spec_base64_encode(bytes)) =~= bytes);
    } else if bytes.len() == 1 {
        let b0 = bytes[0];
        assert((b0 >> 2) < 64 && ((b0 & 3) << 4) < 64 && (((b0 >> 2) << 2) | (((b0 & 3) << 4)
            >> 4)) == b0) by (bit_vector);
        lemma_b64_val_char(b0 >> 2);
        lemma_b64_val_char((b0 & 3) << 4);
        assert(spec_base64_decode(spec_base64_encode(bytes)) =~= bytes);
    } else if bytes.len() == 2 {
        let b0 = bytes[0];
        let b1 = bytes[1];
        assert((b0 >> 2) < 64 && (((b0 & 3) << 4) | (b1 >> 4)) < 64 && ((b1 & 15) << 2) < 64)
            by (bit_vector);
        lemma_b64_val_char(b0 >> 2);
        lemma_b64_val_char(((b0 & 3) << 4) | (b1 >> 4));
        lemma_b64_val_char((b1 & 15) << 2);
        assert((((b0 >> 2) << 2) | ((((b0 & 3) << 4) | (b1 >> 4)) >> 4)) == b0 && (((((b0 & 3)
            << 4) | (b1 >> 4)) << 4) | (((b1 & 15) << 2) >> 2)) == b1) by (bit_vector);
        assert(spec_base64_decode(spec_base64_encode(bytes)) =~= bytes);
    } else {
        let b0 = bytes[0];
        let b1 = bytes[1];
        let b2 = bytes[2];
        let rest = bytes.skip(3);
        lemma_base64_round_trip(rest);
        assert((b0 >> 2) < 64 && (((b0 & 3) << 4) | (b1 >> 4)) < 64 && ((((b1 & 15) << 2) | (b2
            >> 6))) < 64 && (b2 & 63) < 64) by (bit_vector);
        lemma_b64_val_char(b0 >> 2);
        lemma_b64_val_char(((b0 & 3) << 4) | (b1 >> 4));
        lemma_b64_val_char(((b1 & 15) << 2) | (b2 >> 6));
        lemma_b64_val_char(b2 & 63);
        assert((((b0 >> 2) << 2) | ((((b0 & 3) << 4) | (b1 >> 4)) >> 4)) == b0 && (((((b0 & 3)
            << 4) | (b1 >> 4)) << 4) | ((((b1 & 15) << 2) | (b2 >> 6)) >> 2)) == b1 && (((((b1
            & 15) << 2) | (b2 >> 6)) << 6) | (b2 & 63)) == b2) by (bit_vector);
        let enc = spec_base64_encode(bytes);
        assert(enc.skip(4) =~= spec_base64_encode(rest));
        assert(spec_base64_decode(enc) =~= seq![b0, b1, b2] + rest);
        assert(seq![b0, b1, b2] + rest =~= bytes);
    }
}

/// Relies on base64's Engine::encode with the general-purpose STANDARD
/// engine: RFC 4648 base64, standard alphabet, with `=` padding.
#[verifier::external_body]
pub(crate) fn base64_encode_bytes(data: &[u8]) -> (r: String)
    ensures
        r@ == spec_base64_encode(data@),
{
    base64::Engine::encode(&base64::engine::general_purpose::STANDARD, data)
}

} // verus!
