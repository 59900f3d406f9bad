//! The `application/x-www-form-urlencoded` syntax.
//!
//! Encoding and decoding are done by the `url` crate. This module
//! states, as spec functions over bytes, what its serializer writes
//! and what its parser reads.

use crate::text::{
    ascii_text, is_ascii_bytes, lemma_ascii_bytes_decode, lemma_same_bytes_same_text, lossy_text,
    split,
};
use url::form_urlencoded::Serializer;
use vstd::prelude::*;
use vstd::string::StringSliceAdditionalSpecFns;
use vstd::utf8::*;

verus! {

/// A name/value pair as specifications see it.
pub type Pair = (Seq<char>, Seq<char>);

/// Bytes that the serializer copies as they are: `*`, `-`, `.`, `_`,
/// digits and ASCII letters.
pub open spec fn is_form_literal(byte: u8) -> bool {
    byte == 0x2A || byte == 0x2D || byte == 0x2E || byte == 0x5F || (0x30 <= byte <= 0x39) || (0x41
        <= byte <= 0x5A) || (0x61 <= byte <= 0x7A)
}

/// The upper-case hexadecimal digit for a value below sixteen.
pub open spec fn hex_digit(nibble: int) -> u8 {
    if nibble < 10 {
        (0x30 + nibble) as u8
    } else {
        (0x41 + nibble - 10) as u8
    }
}

/// What the serializer writes for one byte: the byte itself, `+` for
/// a space, and otherwise `%` with two upper-case hexadecimal digits.
pub open spec fn escape_byte(byte: u8) -> Seq<u8> {
    if is_form_literal(byte) {
        seq![byte]
    } else if byte == 0x20 {
        seq![0x2Bu8]
    } else {
        seq![0x25u8, hex_digit(byte as int / 16), hex_digit(byte as int % 16)]
    }
}

/// What the serializer writes for a byte string.
pub open spec fn escape_bytes(bytes: Seq<u8>) -> Seq<u8>
    decreases bytes.len(),
{
    if bytes.len() == 0 {
        Seq::empty()
    } else {
        escape_byte(bytes[0]) + escape_bytes(bytes.skip(1))
    }
}

/// What the serializer writes for a pair with the given UTF-8 bytes:
/// escaped name, `=`, escaped value.
pub open spec fn pair_bytes(name: Seq<u8>, value: Seq<u8>) -> Seq<u8> {
    escape_bytes(name) + seq![0x3Du8] + escape_bytes(value)
}

/// The serializer's output after one more pair: pairs are separated
/// by `&`, which is written only when something precedes the pair.
pub open spec fn bytes_with_pair(written: Seq<u8>, name: Seq<u8>, value: Seq<u8>) -> Seq<u8> {
    if written.len() > 0 {
        written + seq![0x26u8] + pair_bytes(name, value)
    } else {
        pair_bytes(name, value)
    }
}

/// The encoded form of a sequence of pairs, as bytes.
pub open spec fn encode_pairs(pairs: Seq<Pair>) -> Seq<u8>
    decreases pairs.len(),
{
    if pairs.len() == 0 {
        Seq::empty()
    } else {
        bytes_with_pair(
            encode_pairs(pairs.drop_last()),
            encode_utf8(pairs.last().0),
            encode_utf8(pairs.last().1),
        )
    }
}

/// The encoded form of a sequence of pairs, as text. All of its
/// characters are ASCII.
pub open spec fn encode_pairs_text(pairs: Seq<Pair>) -> Seq<char> {
    ascii_text(encode_pairs(pairs))
}

/// The value of a hexadecimal digit in either case.
pub open spec fn hex_value(byte: u8) -> Option<int> {
    if 0x30 <= byte <= 0x39 {
        Some(byte - 0x30)
    } else if 0x41 <= byte <= 0x46 {
        Some(byte - 0x41 + 10)
    } else if 0x61 <= byte <= 0x66 {
        Some(byte - 0x61 + 10)
    } else {
        None
    }
}

/// Every `+` becomes a space.
pub open spec fn replace_plus(bytes: Seq<u8>) -> Seq<u8> {
    Seq::new(
        bytes.len(),
        |i: int|
            if bytes[i] == 0x2B {
                0x20u8
            } else {
                bytes[i]
            },
    )
}

/// Every `%` that two hexadecimal digits follow becomes, with them,
/// the byte that they spell. Every other byte stays.
pub open spec fn percent_decode(bytes: Seq<u8>) -> Seq<u8>
    decreases bytes.len(),
{
    if bytes.len() == 0 {
        Seq::empty()
    } else if bytes[0] == 0x25 && bytes.len() >= 3 && hex_value(bytes[1]) is Some && hex_value(
        bytes[2],
    ) is Some {
        seq![(hex_value(bytes[1])->Some_0 * 16 + hex_value(bytes[2])->Some_0) as u8]
            + percent_decode(bytes.skip(3))
    } else {
        seq![bytes[0]] + percent_decode(bytes.skip(1))
    }
}

/// The text of an encoded name or value.
pub open spec fn unescape(bytes: Seq<u8>) -> Seq<char> {
    lossy_text(percent_decode(replace_plus(bytes)))
}

/// The pair of one piece: the name ends before the first `=`, and the
/// value is what follows it. A piece without `=` has an empty value.
pub open spec fn decode_piece(piece: Seq<u8>) -> Pair {
    let name = split(piece, 0x3Du8)[0];
    let value = if name.len() < piece.len() {
        piece.skip(name.len() as int + 1)
    } else {
        Seq::empty()
    };
    (unescape(name), unescape(value))
}

/// The pairs of the pieces that are not empty, in their order.
pub open spec fn decode_pieces(pieces: Seq<Seq<u8>>) -> Seq<Pair>
    decreases pieces.len(),
{
    if pieces.len() == 0 {
        Seq::empty()
    } else if pieces.last().len() == 0 {
        decode_pieces(pieces.drop_last())
    } else {
        decode_pieces(pieces.drop_last()).push(decode_piece(pieces.last()))
    }
}

/// The pairs that the parser reads from a byte string: the string is
/// cut at every `&`, and each piece that is not empty gives a pair.
pub open spec fn decode_pairs(input: Seq<u8>) -> Seq<Pair> {
    decode_pieces(split(input, 0x26u8))
}

/// The pairs of a list of owned pairs.
pub open spec fn pairs_of(list: Seq<(String, String)>) -> Seq<Pair> {
    Seq::new(list.len(), |i: int| (list[i].0@, list[i].1@))
}

/// A serializer of the `url` crate that appends to a `String` of its
/// own, starting from the empty string.
#[verifier::external_body]
pub struct FormSerializer {
    inner: Serializer<'static, String>,
}

/// The UTF-8 bytes of the text that a serializer has written so far.
pub uninterp spec fn serializer_bytes(serializer: FormSerializer) -> Seq<u8>;

/// `Serializer::new(String::new())`: a serializer that has written
/// nothing yet.
#[verifier::external_body]
fn serializer_new() -> (serializer: FormSerializer)
    ensures
        serializer_bytes(serializer) == Seq::<u8>::empty(),
{
    FormSerializer { inner: Serializer::new(String::new()) }
}

/// `Serializer::append_pair`: writes `&` unless nothing has been
/// written yet, then the name, `=` and the value, both escaped byte
/// by byte.
#[verifier::external_body]
fn serializer_append_pair(serializer: &mut FormSerializer, name: &str, value: &str)
    ensures
        serializer_bytes(*final(serializer)) == bytes_with_pair(
            serializer_bytes(*old(serializer)),
            name.spec_bytes(),
            value.spec_bytes(),
        ),
{
    serializer.inner.append_pair(name, value);
}

/// `Serializer::finish`: hands out the text written so far. The
/// serializer is consumed, so the call cannot be repeated.
#[verifier::external_body]
fn serializer_finish(serializer: FormSerializer) -> (text: String)
    ensures
        encode_utf8(text@) == serializer_bytes(serializer),
{
    let mut serializer = serializer;
    serializer.inner.finish()
}

/// `url::form_urlencoded::parse`, collected: the pairs of a byte
/// string in `application/x-www-form-urlencoded` syntax.
#[verifier::external_body]
fn parse_pairs(input: &[u8]) -> (list: Vec<(String, String)>)
    ensures
        pairs_of(list@) == decode_pairs(input@),
{
    url::form_urlencoded::parse(input).into_owned().collect()
}

/// The bytes that escaping can write: the literals, which include the
/// hexadecimal digits, `+` and `%`. Neither `&` nor `=` is among them.
pub open spec fn is_escaped_byte(byte: u8) -> bool {
    is_form_literal(byte) || byte == 0x2B || byte == 0x25
}

/// True when every byte of the sequence can come from escaping.
pub open spec fn all_escaped(bytes: Seq<u8>) -> bool {
    forall|i: int| 0 <= i < bytes.len() ==> is_escaped_byte(#[trigger] bytes[i])
}

/// Escaping writes nothing but escaped bytes.
pub proof fn lemma_escape_bytes_escaped(bytes: Seq<u8>)
    ensures
        all_escaped(escape_bytes(bytes)),
    decreases bytes.len(),
{
    if bytes.len() > 0 {
        lemma_escape_bytes_escaped(bytes.skip(1));
        let head = escape_byte(bytes[0]);
        let tail = escape_bytes(bytes.skip(1));
        assert forall|i: int| 0 <= i < head.len() implies is_escaped_byte(#[trigger] head[i]) by {
            let b = bytes[0];
            if !is_form_literal(b) && b != 0x20 {
                assert(0 <= b as int / 16 < 16);
                assert(0 <= b as int % 16 < 16);
            }
        }
        assert forall|i: int| 0 <= i < (head + tail).len() implies is_escaped_byte(
            #[trigger] (head + tail)[i],
        ) by {
            if i < head.len() {
                assert((head + tail)[i] == head[i]);
            } else {
                assert((head + tail)[i] == tail[i - head.len()]);
            }
        }
    }
}

/// The encoded form of pairs is ASCII.
pub proof fn lemma_encode_pairs_ascii(pairs: Seq<Pair>)
    ensures
        is_ascii_bytes(encode_pairs(pairs)),
    decreases pairs.len(),
{
    if pairs.len() > 0 {
        lemma_encode_pairs_ascii(pairs.drop_last());
        let name = escape_bytes(encode_utf8(pairs.last().0));
        let value = escape_bytes(encode_utf8(pairs.last().1));
        lemma_escape_bytes_escaped(encode_utf8(pairs.last().0));
        lemma_escape_bytes_escaped(encode_utf8(pairs.last().1));
        let pair = name + seq![0x3Du8] + value;
        assert forall|i: int| 0 <= i < pair.len() implies #[trigger] pair[i] < 128 by {
            if i < name.len() {
                assert(is_escaped_byte(name[i]));
            } else if i > name.len() {
                assert(is_escaped_byte(value[i - name.len() - 1]));
            }
        }
        let before = encode_pairs(pairs.drop_last());
        let all = encode_pairs(pairs);
        assert forall|i: int| 0 <= i < all.len() implies #[trigger] all[i] < 128 by {
            if before.len() > 0 {
                if i < before.len() {
                    assert(all[i] == before[i]);
                } else if i > before.len() {
                    assert(all[i] == pair[i - before.len() - 1]);
                }
            } else {
                assert(all[i] == pair[i]);
            }
        }
    }
}

/// Appending a pair to the encoded form of `pairs` gives the encoded
/// form of `pairs` with that pair pushed.
pub proof fn lemma_encode_pairs_push(pairs: Seq<Pair>, pair: Pair)
    ensures
        encode_pairs(pairs.push(pair)) == bytes_with_pair(
            encode_pairs(pairs),
            encode_utf8(pair.0),
            encode_utf8(pair.1),
        ),
{
    assert(pairs.push(pair).drop_last() =~= pairs);
}

/// A text whose UTF-8 bytes are the encoded form of `pairs` is their
/// encoded text.
pub proof fn lemma_encoded_text(text: Seq<char>, pairs: Seq<Pair>)
    requires
        encode_utf8(text) == encode_pairs(pairs),
    ensures
        text == encode_pairs_text(pairs),
{
    lemma_encode_pairs_ascii(pairs);
    lemma_ascii_bytes_decode(encode_pairs(pairs));
    lemma_same_bytes_same_text(text, encode_pairs_text(pairs));
}

impl FormSerializer {
    /// The UTF-8 bytes of the text written so far.
    pub open spec fn bytes(self) -> Seq<u8> {
        serializer_bytes(self)
    }

    /// A serializer that has written nothing yet.
    pub fn new() -> (serializer: FormSerializer)
        ensures
            serializer.bytes() == encode_pairs(Seq::empty()),
    {
        serializer_new()
    }

    /// Appends one pair.
    pub fn append_pair(&mut self, name: &str, value: &str)
        ensures
            final(self).bytes() == bytes_with_pair(
                old(self).bytes(),
                encode_utf8(name@),
                encode_utf8(value@),
            ),
    {
        serializer_append_pair(self, name, value)
    }

    /// Ends the serialization and returns the text.
    pub fn finish(self) -> (text: String)
        ensures
            encode_utf8(text@) == self.bytes(),
    {
        serializer_finish(self)
    }
}

/// Reads the pairs of a query string or of a form body.
pub fn parse_query(query: &str) -> (list: Vec<(String, String)>)
    ensures
        pairs_of(list@) == decode_pairs(encode_utf8(query@)),
{
    parse_pairs(query.as_bytes())
}

} // verus!
