//! Percent-encoding of query components, as a model over bytes and chars.
use vstd::prelude::*;
use vstd::utf8::{decode_utf8, encode_scalar, encode_utf8};

verus! {

/// Bytes that a query component may hold as they are: ASCII letters, digits
/// and `-`, `.`, `_`, `~`.
pub open spec fn is_unreserved(b: u8) -> bool {
    ||| 0x30 <= b <= 0x39
    ||| 0x41 <= b <= 0x5A
    ||| 0x61 <= b <= 0x7A
    ||| b == 0x2D
    ||| b == 0x2E
    ||| b == 0x5F
    ||| b == 0x7E
}

/// The upper-case hex digit for a value below 16.
pub open spec fn hex_upper(d: u8) -> char
    recommends
        d < 16,
{
    seq!['0', '1', '2', '3', '4', '5', '6', '7', '8', '9', 'A', 'B', 'C', 'D', 'E', 'F'][d as int]
}

/// The value of a hex digit of either case.
pub open spec fn hex_value(c: char) -> Option<u8> {
    let v = c as u32;
    if 48 <= v <= 57 {
        Some((v - 48) as u8)
    } else if 65 <= v <= 70 {
        Some((v - 55) as u8)
    } else if 97 <= v <= 102 {
        Some((v - 87) as u8)
    } else {
        None
    }
}

/// One byte, percent-encoded.
pub open spec fn encode_byte(b: u8) -> Seq<char> {
    if is_unreserved(b) {
        seq![b as char]
    } else {
        seq!['%', hex_upper(b / 16), hex_upper(b % 16)]
    }
}

/// A byte sequence, percent-encoded byte by byte.
pub open spec fn percent_encode(bytes: Seq<u8>) -> Seq<char>
    decreases bytes.len(),
{
    if bytes.len() == 0 {
        seq![]
    } else {
        encode_byte(bytes[0]) + percent_encode(bytes.drop_first())
    }
}

/// The bytes that a percent-encoded text stands for: `%` and two hex digits
/// give one byte, any other char gives its UTF-8 form.
pub open spec fn percent_decode(s: Seq<char>) -> Seq<u8>
    decreases s.len(),
{
    if s.len() == 0 {
        seq![]
    } else if s.len() >= 3 && s[0] == '%' && hex_value(s[1]) is Some && hex_value(
        s[2],
    ) is Some {
        seq![(hex_value(s[1])->0 * 16 + hex_value(s[2])->0) as u8] + percent_decode(
            s.subrange(3, s.len() as int),
        )
    } else {
        encode_utf8(seq![s[0]]) + percent_decode(s.drop_first())
    }
}

/// The text that percent-decoding `s` and reading the bytes as UTF-8 gives.
pub open spec fn decoded_text(s: Seq<char>) -> Seq<char> {
    decode_utf8(percent_decode(s))
}

/// Percent-encoding of a text: its UTF-8 bytes, each encoded.
pub open spec fn encoded_text(s: Seq<char>) -> Seq<char> {
    percent_encode(encode_utf8(s))
}

/// Whether `c` occurs in `s`.
pub open spec fn holds_char(s: Seq<char>, c: char) -> bool {
    exists|i: int| 0 <= i < s.len() && s[i] == c
}

proof fn lemma_hex_round_trip(d: u8)
    requires
        d < 16,
    ensures
        hex_value(hex_upper(d)) == Some(d),
{
}

proof fn lemma_decode_encoded_byte(b: u8, rest: Seq<char>)
    ensures
        percent_decode(encode_byte(b) + rest) == seq![b] + percent_decode(rest),
{
    let s = encode_byte(b) + rest;
    if is_unreserved(b) {
        assert(s[0] == b as char);
        assert((b as char) as u32 == b as u32);
        assert(b as u32 <= 0x7F);
        assert(((b as u32) & 0x7F) as u8 == b) by (bit_vector)
            requires
                b as u32 <= 0x7F,
        ;
        assert(encode_utf8(seq![s[0]]) =~= encode_scalar(s[0] as u32) + encode_utf8(seq![s[0]].drop_first()));
        assert(encode_utf8(seq![s[0]]) =~= seq![b]);
        assert(s.drop_first() =~= rest);
    } else {
        lemma_hex_round_trip(b / 16);
        lemma_hex_round_trip(b % 16);
        assert(s[0] == '%');
        assert(s[1] == hex_upper(b / 16));
        assert(s[2] == hex_upper(b % 16));
        assert((b / 16) * 16 + b % 16 == b);
        assert(s.subrange(3, s.len() as int) =~= rest);
    }
}

/// Decoding what encoding gave returns the bytes encoded.
pub proof fn lemma_percent_round_trip(bytes: Seq<u8>)
    ensures
        percent_decode(percent_encode(bytes)) == bytes,
    decreases bytes.len(),
{
    if bytes.len() > 0 {
        lemma_decode_encoded_byte(bytes[0], percent_encode(bytes.drop_first()));
        lemma_percent_round_trip(bytes.drop_first());
        assert(bytes =~= seq![bytes[0]] + bytes.drop_first());
    }
}

/// The UTF-8 form of a concatenation is the concatenation of the forms.
pub proof fn lemma_encode_utf8_append(a: Seq<char>, b: Seq<char>)
    ensures
        encode_utf8(a + b) == encode_utf8(a) + encode_utf8(b),
    decreases a.len(),
{
    if a.len() == 0 {
        assert(a + b =~= b);
    } else {
        assert((a + b).drop_first() =~= a.drop_first() + b);
        lemma_encode_utf8_append(a.drop_first(), b);
    }
}

/// Text free of `%` decodes to its own UTF-8 form, whatever follows it.
pub proof fn lemma_decode_plain_prefix(a: Seq<char>, t: Seq<char>)
    requires
        !holds_char(a, '%'),
    ensures
        percent_decode(a + t) == encode_utf8(a) + percent_decode(t),
    decreases a.len(),
{
    if a.len() == 0 {
        assert(a + t =~= t);
    } else {
        let s = a + t;
        assert(s[0] == a[0]);
        assert(s.drop_first() =~= a.drop_first() + t);
        assert(!holds_char(a.drop_first(), '%')) by {
            if holds_char(a.drop_first(), '%') {
                let i = choose|i: int| 0 <= i < a.drop_first().len() && a.drop_first()[i] == '%';
                assert(a[i + 1] == '%');
            }
        }
        lemma_decode_plain_prefix(a.drop_first(), t);
        assert(a =~= seq![a[0]] + a.drop_first());
        lemma_encode_utf8_append(seq![a[0]], a.drop_first());
    }
}

/// Encoded text decodes back to itself.
pub proof fn lemma_text_round_trip(s: Seq<char>)
    ensures
        decoded_text(encoded_text(s)) == s,
{
    lemma_percent_round_trip(encode_utf8(s));
    vstd::utf8::encode_utf8_decode_utf8(s);
}

/// Percent-encoded bytes hold neither `&` nor `#`.
pub proof fn lemma_encoded_lacks(bytes: Seq<u8>, c: char)
    requires
        c == '&' || c == '#',
    ensures
        !holds_char(percent_encode(bytes), c),
    decreases bytes.len(),
{
    if bytes.len() > 0 {
        let e = encode_byte(bytes[0]);
        let r = percent_encode(bytes.drop_first());
        lemma_encoded_lacks(bytes.drop_first(), c);
        assert(!holds_char(e, c)) by {
            if !is_unreserved(bytes[0]) {
                assert(bytes[0] / 16 < 16);
                assert(bytes[0] % 16 < 16);
            }
        }
        if holds_char(e + r, c) {
            let i = choose|i: int| 0 <= i < (e + r).len() && (e + r)[i] == c;
            if i < e.len() {
                assert(e[i] == c);
            } else {
                assert(r[i - e.len()] == c);
            }
        }
    }
}

} // verus!
