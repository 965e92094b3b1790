//! The text codec: a pure transform between byte sequences and text over a
//! custom 64-symbol alphabet, three bytes to four characters, with no
//! padding character. It knows nothing of identifier semantics.

use vstd::prelude::*;

verus! {

/// The six-bit value a character stands for under the identifier alphabet
/// `-0123456789ABCDEFGHIJKLMNOPQRSTUVWXYZ_abcdefghijklmnopqrstuvwxyz`,
/// or 64 when the character is not part of it.
pub open spec fn char_val(c: char) -> u8 {
    let u = c as u32;
    if u == ('-' as u32) {
        0
    } else if ('0' as u32) <= u && u <= ('9' as u32) {
        (u - ('0' as u32) + 1) as u8
    } else if ('A' as u32) <= u && u <= ('Z' as u32) {
        (u - ('A' as u32) + 11) as u8
    } else if u == ('_' as u32) {
        37
    } else if ('a' as u32) <= u && u <= ('z' as u32) {
        (u - ('a' as u32) + 38) as u8
    } else {
        64
    }
}

/// The character that stands for a six-bit value under the identifier
/// alphabet.
pub open spec fn alpha_char(v: u8) -> char {
    if v == 0 {
        '-'
    } else if v <= 10 {
        ((('0' as u32) + (v - 1)) as char)
    } else if v <= 36 {
        ((('A' as u32) + (v - 11)) as char)
    } else if v == 37 {
        '_'
    } else {
        ((('a' as u32) + (v - 38)) as char)
    }
}

/// Whether a character is a symbol of the identifier alphabet.
pub open spec fn is_b64_char(c: char) -> bool {
    char_val(c) < 64
}

/// Whether every character of a sequence is a symbol of the identifier
/// alphabet.
pub open spec fn all_b64_chars(s: Seq<char>) -> bool {
    forall|i: int| 0 <= i < s.len() ==> is_b64_char(#[trigger] s[i])
}

/// First six-bit group of a three-byte block.
pub open spec fn sx0(b0: u8) -> u8 {
    b0 >> 2
}

/// Second six-bit group of a three-byte block.
pub open spec fn sx1(b0: u8, b1: u8) -> u8 {
    ((b0 & 0x03) << 4) | (b1 >> 4)
}

/// Third six-bit group of a three-byte block.
pub open spec fn sx2(b1: u8, b2: u8) -> u8 {
    ((b1 & 0x0F) << 2) | (b2 >> 6)
}

/// Fourth six-bit group of a three-byte block.
pub open spec fn sx3(b2: u8) -> u8 {
    b2 & 0x3F
}

/// The four characters that encode one three-byte block.
pub open spec fn encode3(b0: u8, b1: u8, b2: u8) -> Seq<char> {
    seq![
        alpha_char(sx0(b0)),
        alpha_char(sx1(b0, b1)),
        alpha_char(sx2(b1, b2)),
        alpha_char(sx3(b2)),
    ]
}

/// The text encoding of a byte sequence whose length is a multiple of
/// three: each three-byte block becomes four alphabet characters.
pub open spec fn encode_bytes(b: Seq<u8>) -> Seq<char>
    decreases b.len(),
{
    if b.len() < 3 {
        Seq::empty()
    } else {
        encode3(b[0], b[1], b[2]) + encode_bytes(b.skip(3))
    }
}

/// The three bytes reassembled from one block of four six-bit values.
pub open spec fn decode4(v0: u8, v1: u8, v2: u8, v3: u8) -> Seq<u8> {
    seq![
        (v0 << 2) | (v1 >> 4),
        ((v1 & 0x0F) << 4) | (v2 >> 2),
        ((v2 & 0x03) << 6) | v3,
    ]
}

/// The bytes decoded from a character sequence whose length is a multiple
/// of four: each four-character block yields three bytes of its six-bit
/// values.
pub open spec fn decode_chars(s: Seq<char>) -> Seq<u8>
    decreases s.len(),
{
    if s.len() < 4 {
        Seq::empty()
    } else {
        decode4(char_val(s[0]), char_val(s[1]), char_val(s[2]), char_val(s[3]))
            + decode_chars(s.skip(4))
    }
}

/// `alpha_char` and `char_val` are inverse on six-bit values.
pub proof fn lemma_alpha_char_val(v: u8)
    requires
        v < 64,
    ensures
        char_val(alpha_char(v)) == v,
{
}

/// The six-bit groups of a block are below 64 and reassemble to the block.
proof fn lemma_group_bits(b0: u8, b1: u8, b2: u8)
    by (bit_vector)
    ensures
        sx0(b0) < 64,
        sx1(b0, b1) < 64,
        sx2(b1, b2) < 64,
        sx3(b2) < 64,
        (sx0(b0) << 2) | (sx1(b0, b1) >> 4) == b0,
        ((sx1(b0, b1) & 0x0F) << 4) | (sx2(b1, b2) >> 2) == b1,
        ((sx2(b1, b2) & 0x03) << 6) | sx3(b2) == b2,
{
}

/// Decoding the four characters of one encoded block restores its three
/// bytes, and the four characters are alphabet symbols.
proof fn lemma_decode4_encode3(b0: u8, b1: u8, b2: u8)
    ensures
        decode4(
            char_val(encode3(b0, b1, b2)[0]),
            char_val(encode3(b0, b1, b2)[1]),
            char_val(encode3(b0, b1, b2)[2]),
            char_val(encode3(b0, b1, b2)[3]),
        ) =~= seq![b0, b1, b2],
        forall|i: int| 0 <= i < 4 ==> is_b64_char(#[trigger] encode3(b0, b1, b2)[i]),
{
    lemma_group_bits(b0, b1, b2);
    lemma_alpha_char_val(sx0(b0));
    lemma_alpha_char_val(sx1(b0, b1));
    lemma_alpha_char_val(sx2(b1, b2));
    lemma_alpha_char_val(sx3(b2));
}

/// Encoding a byte sequence whose length is a multiple of three yields
/// four characters per three bytes, all of them alphabet symbols, and
/// decoding them restores the bytes exactly.
pub proof fn lemma_decode_encode(b: Seq<u8>)
    requires
        b.len() % 3 == 0,
    ensures
        encode_bytes(b).len() == b.len() / 3 * 4,
        all_b64_chars(encode_bytes(b)),
        decode_chars(encode_bytes(b)) == b,
    decreases b.len(),
{
    if b.len() == 0 {
        assert(encode_bytes(b) =~= Seq::<char>::empty());
        assert(decode_chars(encode_bytes(b)) =~= b);
    } else {
        assert(b.len() >= 3);
        let e = encode3(b[0], b[1], b[2]);
        let tail = b.skip(3);
        assert(tail.len() % 3 == 0);
        lemma_decode_encode(tail);
        lemma_decode4_encode3(b[0], b[1], b[2]);
        let s = encode_bytes(b);
        assert(s == e + encode_bytes(tail));
        assert(s.skip(4) =~= encode_bytes(tail));
        assert(decode_chars(s) =~= b) by {
            assert(decode_chars(s) == decode4(
                char_val(s[0]),
                char_val(s[1]),
                char_val(s[2]),
                char_val(s[3]),
            ) + decode_chars(s.skip(4)));
            assert(s[0] == e[0] && s[1] == e[1] && s[2] == e[2] && s[3] == e[3]);
        }
    }
}

/// Two different byte sequences of the same block-aligned length never
/// encode to the same text.
pub proof fn lemma_encode_injective(a: Seq<u8>, b: Seq<u8>)
    requires
        a.len() % 3 == 0,
        b.len() % 3 == 0,
        encode_bytes(a) == encode_bytes(b),
    ensures
        a == b,
{
    lemma_decode_encode(a);
    lemma_decode_encode(b);
}

/// Decoding yields three bytes per full four-character block.
pub proof fn lemma_decode_chars_len(s: Seq<char>)
    ensures
        decode_chars(s).len() == s.len() / 4 * 3,
    decreases s.len(),
{
    if s.len() >= 4 {
        lemma_decode_chars_len(s.skip(4));
    }
}

/// Relies on base64's `GeneralPurpose` engine with the custom alphabet
/// `-0123456789ABCDEFGHIJKLMNOPQRSTUVWXYZ_abcdefghijklmnopqrstuvwxyz` and
/// encode padding switched off: each three-byte block becomes the four
/// alphabet symbols of its six-bit groups, with nothing appended.
#[verifier::external_body]
pub(crate) fn b64_encode(bytes: &Vec<u8>) -> (r: String)
    requires
        bytes@.len() % 3 == 0,
    ensures
        r@ == encode_bytes(bytes@),
{
    let alphabet = base64::alphabet::Alphabet::new(
        "-0123456789ABCDEFGHIJKLMNOPQRSTUVWXYZ_abcdefghijklmnopqrstuvwxyz",
    ).unwrap();
    let engine = base64::engine::GeneralPurpose::new(
        &alphabet,
        base64::engine::GeneralPurposeConfig::new().with_encode_padding(false),
    );
    base64::Engine::encode(&engine, bytes)
}

/// Relies on base64's `GeneralPurpose` engine with the same custom
/// alphabet, decoding with padding refused: on input of block-aligned
/// character length it succeeds exactly when every character is an
/// alphabet symbol, and then yields the six-bit values of each block
/// reassembled into three bytes.
#[verifier::external_body]
pub(crate) fn b64_decode(s: &str) -> (r: Option<Vec<u8>>)
    requires
        s@.len() % 4 == 0,
    ensures
        match r {
            Some(v) => all_b64_chars(s@) && v@ == decode_chars(s@),
            None => !all_b64_chars(s@),
        },
{
    let alphabet = base64::alphabet::Alphabet::new(
        "-0123456789ABCDEFGHIJKLMNOPQRSTUVWXYZ_abcdefghijklmnopqrstuvwxyz",
    ).unwrap();
    let engine = base64::engine::GeneralPurpose::new(
        &alphabet,
        base64::engine::GeneralPurposeConfig::new()
            .with_decode_padding_mode(base64::engine::DecodePaddingMode::RequireNone),
    );
    base64::Engine::decode(&engine, s).ok()
}

} // verus!
