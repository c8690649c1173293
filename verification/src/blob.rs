//! Base64 text over bytes, as a mathematical function: the standard alphabet
//! of RFC 4648, padded with `=`. The text is made by the `base64` crate; what
//! is proved here is that it can always be read back.

use vstd::prelude::*;

verus! {

/// The character that stands for a six-bit value in the standard base64
/// alphabet: `A` to `Z`, `a` to `z`, `0` to `9`, `+`, `/`.
pub open spec fn sextet_char(v: nat) -> char
    recommends
        v < 64,
{
    if v < 26 {
        ((65 + v) as u8) as char
    } else if v < 52 {
        ((97 + v - 26) as u8) as char
    } else if v < 62 {
        ((48 + v - 52) as u8) as char
    } else if v == 62 {
        '+'
    } else {
        '/'
    }
}

/// The four characters of three bytes.
pub open spec fn full_group(b0: u8, b1: u8, b2: u8) -> Seq<char> {
    seq![
        sextet_char((b0 / 4) as nat),
        sextet_char(((b0 % 4) * 16 + b1 / 16) as nat),
        sextet_char(((b1 % 16) * 4 + b2 / 64) as nat),
        sextet_char((b2 % 64) as nat),
    ]
}

/// The four characters of two last bytes: three of the alphabet and one `=`.
pub open spec fn pair_group(b0: u8, b1: u8) -> Seq<char> {
    seq![
        sextet_char((b0 / 4) as nat),
        sextet_char(((b0 % 4) * 16 + b1 / 16) as nat),
        sextet_char(((b1 % 16) * 4) as nat),
        '=',
    ]
}

/// The four characters of one last byte: two of the alphabet and `==`.
pub open spec fn single_group(b0: u8) -> Seq<char> {
    seq![sextet_char((b0 / 4) as nat), sextet_char(((b0 % 4) * 16) as nat), '=', '=']
}

/// Bytes as base64 text: standard alphabet, padded with `=` to a multiple of
/// four characters.
pub open spec fn base64_text(bytes: Seq<u8>) -> Seq<char>
    decreases bytes.len(),
{
    if bytes.len() == 0 {
        Seq::empty()
    } else if bytes.len() == 1 {
        single_group(bytes[0])
    } else if bytes.len() == 2 {
        pair_group(bytes[0], bytes[1])
    } else {
        full_group(bytes[0], bytes[1], bytes[2]) + base64_text(bytes.skip(3))
    }
}

/// How many characters the base64 text of `n` bytes has.
pub open spec fn base64_len(n: nat) -> nat {
    4 * ((n + 2) / 3)
}

/// The six-bit value that a character of the alphabet stands for.
pub open spec fn sextet_value(c: char) -> Option<nat> {
    if 'A' <= c && c <= 'Z' {
        Some((c as u8 - 65) as nat)
    } else if 'a' <= c && c <= 'z' {
        Some((c as u8 - 97 + 26) as nat)
    } else if '0' <= c && c <= '9' {
        Some((c as u8 - 48 + 52) as nat)
    } else if c == '+' {
        Some(62)
    } else if c == '/' {
        Some(63)
    } else {
        None
    }
}

/// The bytes that base64 text stands for, or `None` where the text is not
/// well formed: its length is no multiple of four, a character is outside the
/// alphabet, padding stands anywhere but at the end, or the bits that padding
/// leaves unused are not zero.
pub open spec fn base64_bytes(text: Seq<char>) -> Option<Seq<u8>>
    decreases text.len(),
{
    if text.len() == 0 {
        Some(Seq::empty())
    } else if text.len() < 4 {
        None
    } else if text.len() == 4 && text[2] == '=' && text[3] == '=' {
        match (sextet_value(text[0]), sextet_value(text[1])) {
            (Some(v0), Some(v1)) => if v1 % 16 == 0 {
                Some(seq![(v0 * 4 + v1 / 16) as u8])
            } else {
                None
            },
            _ => None,
        }
    } else if text.len() == 4 && text[3] == '=' {
        match (sextet_value(text[0]), sextet_value(text[1]), sextet_value(text[2])) {
            (Some(v0), Some(v1), Some(v2)) => if v2 % 4 == 0 {
                Some(seq![(v0 * 4 + v1 / 16) as u8, ((v1 % 16) * 16 + v2 / 4) as u8])
            } else {
                None
            },
            _ => None,
        }
    } else {
        match (
            sextet_value(text[0]),
            sextet_value(text[1]),
            sextet_value(text[2]),
            sextet_value(text[3]),
            base64_bytes(text.skip(4)),
        ) {
            (Some(v0), Some(v1), Some(v2), Some(v3), Some(rest)) => Some(
                seq![
                    (v0 * 4 + v1 / 16) as u8,
                    ((v1 % 16) * 16 + v2 / 4) as u8,
                    ((v2 % 4) * 64 + v3) as u8,
                ] + rest,
            ),
            _ => None,
        }
    }
}

/// A character of the alphabet stands for the value it was chosen for, and
/// is never the padding character.
pub proof fn lemma_sextet_round_trip(v: nat)
    requires
        v < 64,
    ensures
        sextet_value(sextet_char(v)) == Some(v),
        sextet_char(v) != '=',
{
}

/// The text of `n` bytes has four characters for every three bytes, the last
/// group filled up.
pub proof fn lemma_base64_len(bytes: Seq<u8>)
    ensures
        base64_text(bytes).len() == base64_len(bytes.len()),
    decreases bytes.len(),
{
    if bytes.len() >= 3 {
        lemma_base64_len(bytes.skip(3));
    }
}

/// The six-bit values of a group of bytes are below 64 and put together give
/// the bytes back. A missing byte counts as zero.
proof fn lemma_regroup(b0: u8, b1: u8, b2: u8)
    ensures
        b0 / 4 < 64,
        (b0 % 4) * 16 + b1 / 16 < 64,
        (b1 % 16) * 4 + b2 / 64 < 64,
        b2 % 64 < 64,
        (b0 / 4) * 4 + ((b0 % 4) * 16 + b1 / 16) / 16 == b0,
        (((b0 % 4) * 16 + b1 / 16) % 16) * 16 + ((b1 % 16) * 4 + b2 / 64) / 4 == b1,
        (((b1 % 16) * 4 + b2 / 64) % 4) * 64 + b2 % 64 == b2,
        ((b0 % 4) * 16) % 16 == 0,
        ((b1 % 16) * 4) % 4 == 0,
{
}

/// One last byte reads back from its group.
proof fn lemma_single_group(b0: u8)
    ensures
        base64_bytes(single_group(b0)) == Some(seq![b0]),
{
    let text = single_group(b0);
    let v0 = (b0 / 4) as nat;
    let v1 = ((b0 % 4) * 16) as nat;
    lemma_regroup(b0, 0, 0);
    lemma_sextet_round_trip(v0);
    lemma_sextet_round_trip(v1);
    assert(text.len() == 4 && text[2] == '=' && text[3] == '=');
    assert(sextet_value(text[0]) == Some(v0));
    assert(sextet_value(text[1]) == Some(v1));
    assert(v0 * 4 + v1 / 16 == b0);
    assert(seq![(v0 * 4 + v1 / 16) as u8] =~= seq![b0]);
}

/// Two last bytes read back from their group.
proof fn lemma_pair_group(b0: u8, b1: u8)
    ensures
        base64_bytes(pair_group(b0, b1)) == Some(seq![b0, b1]),
{
    let text = pair_group(b0, b1);
    let v0 = (b0 / 4) as nat;
    let v1 = ((b0 % 4) * 16 + b1 / 16) as nat;
    let v2 = ((b1 % 16) * 4) as nat;
    lemma_regroup(b0, b1, 0);
    lemma_sextet_round_trip(v0);
    lemma_sextet_round_trip(v1);
    lemma_sextet_round_trip(v2);
    assert(text.len() == 4 && text[2] != '=' && text[3] == '=');
    assert(sextet_value(text[0]) == Some(v0));
    assert(sextet_value(text[1]) == Some(v1));
    assert(sextet_value(text[2]) == Some(v2));
    assert(v0 * 4 + v1 / 16 == b0);
    assert((v1 % 16) * 16 + v2 / 4 == b1);
    assert(seq![(v0 * 4 + v1 / 16) as u8, ((v1 % 16) * 16 + v2 / 4) as u8] =~= seq![b0, b1]);
}

/// Three bytes read back from their group, whatever text follows that reads
/// back too.
proof fn lemma_full_group(b0: u8, b1: u8, b2: u8, tail: Seq<char>, rest: Seq<u8>)
    requires
        base64_bytes(tail) == Some(rest),
    ensures
        base64_bytes(full_group(b0, b1, b2) + tail) == Some(seq![b0, b1, b2] + rest),
{
    let text = full_group(b0, b1, b2) + tail;
    let v0 = (b0 / 4) as nat;
    let v1 = ((b0 % 4) * 16 + b1 / 16) as nat;
    let v2 = ((b1 % 16) * 4 + b2 / 64) as nat;
    let v3 = (b2 % 64) as nat;
    lemma_regroup(b0, b1, b2);
    lemma_sextet_round_trip(v0);
    lemma_sextet_round_trip(v1);
    lemma_sextet_round_trip(v2);
    lemma_sextet_round_trip(v3);
    assert(text.len() >= 4);
    assert(text[0] == sextet_char(v0) && text[1] == sextet_char(v1));
    assert(text[2] == sextet_char(v2) && text[3] == sextet_char(v3));
    assert(text.skip(4) =~= tail);
    assert(v0 * 4 + v1 / 16 == b0);
    assert((v1 % 16) * 16 + v2 / 4 == b1);
    assert((v2 % 4) * 64 + v3 == b2);
    assert(seq![
        (v0 * 4 + v1 / 16) as u8,
        ((v1 % 16) * 16 + v2 / 4) as u8,
        ((v2 % 4) * 64 + v3) as u8,
    ] =~= seq![b0, b1, b2]);
}

/// Base64 text reads back as the bytes it was made from.
pub proof fn lemma_base64_round_trip(bytes: Seq<u8>)
    ensures
        base64_bytes(base64_text(bytes)) == Some(bytes),
    decreases bytes.len(),
{
    if bytes.len() == 0 {
    } else if bytes.len() == 1 {
        lemma_single_group(bytes[0]);
        assert(seq![bytes[0]] =~= bytes);
    } else if bytes.len() == 2 {
        lemma_pair_group(bytes[0], bytes[1]);
        assert(seq![bytes[0], bytes[1]] =~= bytes);
    } else {
        let rest = bytes.skip(3);
        lemma_base64_round_trip(rest);
        lemma_full_group(bytes[0], bytes[1], bytes[2], base64_text(rest), rest);
        assert(seq![bytes[0], bytes[1], bytes[2]] + rest =~= bytes);
    }
}

/// Different bytes never share a text.
pub proof fn lemma_base64_injective(a: Seq<u8>, b: Seq<u8>)
    requires
        base64_text(a) == base64_text(b),
    ensures
        a == b,
{
    lemma_base64_round_trip(a);
    lemma_base64_round_trip(b);
}

} // verus!
