//! The parser undoes the serializer: whatever pairs are encoded,
//! decoding the encoded form gives the same pairs back.

use crate::form::{
    decode_pairs, decode_piece, decode_pieces, encode_pairs, encode_pairs_text, escape_byte,
    escape_bytes, hex_digit, hex_value, is_escaped_byte, is_form_literal, lemma_encode_pairs_ascii,
    lemma_escape_bytes_escaped, pair_bytes, percent_decode, replace_plus, unescape, Pair,
};
use crate::text::{
    free_of, lemma_ascii_bytes_decode, lemma_split_append, lemma_split_whole, split,
};
use vstd::prelude::*;
use vstd::utf8::*;

verus! {

/// Replacing `+` goes piece by piece.
pub proof fn lemma_replace_plus_concat(front: Seq<u8>, back: Seq<u8>)
    ensures
        replace_plus(front + back) == replace_plus(front) + replace_plus(back),
{
}

/// The hexadecimal digits that escaping writes are read back as the
/// values that they stand for.
pub proof fn lemma_hex_round_trip(nibble: int)
    requires
        0 <= nibble < 16,
    ensures
        hex_value(hex_digit(nibble)) == Some(nibble),
        hex_digit(nibble) != 0x2B,
        hex_digit(nibble) != 0x25,
        is_form_literal(hex_digit(nibble)),
{
}

/// Unescaping undoes escaping, byte for byte.
pub proof fn lemma_unescape_bytes(bytes: Seq<u8>)
    ensures
        percent_decode(replace_plus(escape_bytes(bytes))) == bytes,
    decreases bytes.len(),
{
    if bytes.len() > 0 {
        let byte = bytes[0];
        let head = escape_byte(byte);
        let tail = escape_bytes(bytes.skip(1));
        lemma_unescape_bytes(bytes.skip(1));
        lemma_replace_plus_concat(head, tail);
        let plain_tail = replace_plus(tail);
        let plain = replace_plus(head) + plain_tail;
        if is_form_literal(byte) {
            assert(plain.skip(1) =~= plain_tail);
        } else if byte == 0x20 {
            assert(plain.skip(1) =~= plain_tail);
        } else {
            lemma_hex_round_trip(byte as int / 16);
            lemma_hex_round_trip(byte as int % 16);
            assert(plain.skip(3) =~= plain_tail);
        }
    }
}

/// Unescaping the escaped UTF-8 bytes of a text gives the text.
pub proof fn lemma_unescape_text(text: Seq<char>)
    ensures
        unescape(escape_bytes(encode_utf8(text))) == text,
{
    lemma_unescape_bytes(encode_utf8(text));
    encode_utf8_valid_utf8(text);
    encode_utf8_decode_utf8(text);
}

/// Escaped bytes hold neither `=` nor `&`.
pub proof fn lemma_escaped_free(bytes: Seq<u8>)
    ensures
        free_of(escape_bytes(bytes), 0x3Du8),
        free_of(escape_bytes(bytes), 0x26u8),
{
    lemma_escape_bytes_escaped(bytes);
    let escaped = escape_bytes(bytes);
    assert forall|i: int| 0 <= i < escaped.len() implies #[trigger] escaped[i] != 0x3Du8 by {
        assert(is_escaped_byte(escaped[i]));
    }
    assert forall|i: int| 0 <= i < escaped.len() implies #[trigger] escaped[i] != 0x26u8 by {
        assert(is_escaped_byte(escaped[i]));
    }
}

/// The piece of a pair is not empty, holds no `&`, and is read back
/// as the pair.
pub proof fn lemma_decode_pair(pair: Pair)
    ensures
        pair_bytes(encode_utf8(pair.0), encode_utf8(pair.1)).len() > 0,
        free_of(pair_bytes(encode_utf8(pair.0), encode_utf8(pair.1)), 0x26u8),
        decode_piece(pair_bytes(encode_utf8(pair.0), encode_utf8(pair.1))) == pair,
{
    let name = escape_bytes(encode_utf8(pair.0));
    let value = escape_bytes(encode_utf8(pair.1));
    let piece = pair_bytes(encode_utf8(pair.0), encode_utf8(pair.1));
    lemma_escaped_free(encode_utf8(pair.0));
    lemma_escaped_free(encode_utf8(pair.1));
    lemma_split_append(name, value, 0x3Du8);
    lemma_split_whole(name, 0x3Du8);
    assert(piece.skip(name.len() as int + 1) =~= value);
    lemma_unescape_text(pair.0);
    lemma_unescape_text(pair.1);
}

/// Decoding undoes encoding: the pairs that the parser reads from the
/// encoded form of any pairs are those pairs.
pub proof fn lemma_decode_encode(pairs: Seq<Pair>)
    ensures
        decode_pairs(encode_pairs(pairs)) == pairs,
    decreases pairs.len(),
{
    if pairs.len() == 0 {
        let pieces = split(Seq::<u8>::empty(), 0x26u8);
        assert(decode_pieces(pieces.drop_last()) =~= Seq::<Pair>::empty());
    } else {
        let front = pairs.drop_last();
        let last = pairs.last();
        let piece = pair_bytes(encode_utf8(last.0), encode_utf8(last.1));
        lemma_decode_encode(front);
        lemma_decode_pair(last);
        let before = encode_pairs(front);
        if before.len() > 0 {
            lemma_split_append(before, piece, 0x26u8);
            let pieces = split(before, 0x26u8).push(piece);
            assert(pieces.drop_last() =~= split(before, 0x26u8));
        } else {
            lemma_split_whole(piece, 0x26u8);
            let pieces = seq![piece];
            assert(decode_pieces(pieces.drop_last()) =~= Seq::<Pair>::empty());
        }
    }
}

/// The UTF-8 bytes of the encoded text are the encoded bytes, so the
/// parser reads from the encoded text the pairs that were encoded.
pub proof fn lemma_decode_encoded_text(pairs: Seq<Pair>)
    ensures
        encode_utf8(encode_pairs_text(pairs)) == encode_pairs(pairs),
        decode_pairs(encode_utf8(encode_pairs_text(pairs))) == pairs,
{
    lemma_encode_pairs_ascii(pairs);
    lemma_ascii_bytes_decode(encode_pairs(pairs));
    lemma_decode_encode(pairs);
}

} // verus!
