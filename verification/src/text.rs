//! Byte strings and text: UTF-8 in both directions, comparing, and
//! cutting at a separator.

use vstd::prelude::*;
use vstd::utf8::*;

verus! {

/// The text that stands for a byte string which is not valid UTF-8:
/// each malformed part is replaced by U+FFFD.
pub uninterp spec fn repaired_text(bytes: Seq<u8>) -> Seq<char>;

/// The text of a byte string, read as UTF-8 and repaired where it is
/// malformed.
pub open spec fn lossy_text(bytes: Seq<u8>) -> Seq<char> {
    if valid_utf8(bytes) {
        decode_utf8(bytes)
    } else {
        repaired_text(bytes)
    }
}

/// `String::from_utf8_lossy`: valid UTF-8 is decoded as it is, and
/// malformed parts are replaced by U+FFFD.
#[verifier::external_body]
pub(crate) fn text_from_utf8_lossy(bytes: &[u8]) -> (text: String)
    ensures
        valid_utf8(bytes@) ==> text@ == decode_utf8(bytes@),
        !valid_utf8(bytes@) ==> text@ == repaired_text(bytes@),
{
    String::from_utf8_lossy(bytes).into_owned()
}

/// The characters that have the code points of the given ASCII bytes.
pub open spec fn ascii_text(bytes: Seq<u8>) -> Seq<char> {
    Seq::new(bytes.len(), |i: int| bytes[i] as char)
}

/// True when every byte is below 128.
pub open spec fn is_ascii_bytes(bytes: Seq<u8>) -> bool {
    forall|i: int| 0 <= i < bytes.len() ==> #[trigger] bytes[i] < 128
}

/// ASCII bytes are valid UTF-8 and decode to the characters with the
/// same code points.
pub proof fn lemma_ascii_bytes_decode(bytes: Seq<u8>)
    requires
        is_ascii_bytes(bytes),
    ensures
        valid_utf8(bytes),
        decode_utf8(bytes) == ascii_text(bytes),
        encode_utf8(ascii_text(bytes)) == bytes,
        is_ascii_chars(ascii_text(bytes)),
{
    let chars = ascii_text(bytes);
    assert(is_ascii_chars(chars));
    is_ascii_chars_encode_utf8(chars);
    assert(encode_utf8(chars) =~= bytes);
    encode_utf8_valid_utf8(chars);
    encode_utf8_decode_utf8(chars);
}

/// Texts with the same UTF-8 bytes are the same text.
pub proof fn lemma_same_bytes_same_text(first: Seq<char>, second: Seq<char>)
    requires
        encode_utf8(first) == encode_utf8(second),
    ensures
        first == second,
{
    encode_utf8_decode_utf8(first);
    encode_utf8_decode_utf8(second);
}

/// Tells whether two texts are equal.
pub fn same_text(first: &str, second: &str) -> (same: bool)
    ensures
        same == (first@ == second@),
{
    let a = first.as_bytes();
    let b = second.as_bytes();
    if a.len() != b.len() {
        return false;
    }
    let mut i: usize = 0;
    while i < a.len()
        invariant
            i <= a.len(),
            a.len() == b.len(),
            a@ == encode_utf8(first@),
            b@ == encode_utf8(second@),
            forall|j: int| 0 <= j < i ==> a@[j] == b@[j],
        decreases a.len() - i,
    {
        if a[i] != b[i] {
            return false;
        }
        i = i + 1;
    }
    proof {
        assert(a@ =~= b@);
        lemma_same_bytes_same_text(first@, second@);
    }
    true
}

/// The pieces into which a separator cuts a sequence. There is one
/// piece more than there are separators; pieces can be empty.
pub open spec fn split<T>(items: Seq<T>, separator: T) -> Seq<Seq<T>>
    decreases items.len(),
{
    if items.len() == 0 {
        seq![Seq::empty()]
    } else {
        let before = split(items.drop_last(), separator);
        if items.last() == separator {
            before.push(Seq::empty())
        } else {
            before.drop_last().push(before.last().push(items.last()))
        }
    }
}

/// True when the separator does not occur in the sequence.
pub open spec fn free_of<T>(items: Seq<T>, separator: T) -> bool {
    forall|i: int| 0 <= i < items.len() ==> #[trigger] items[i] != separator
}

/// A sequence without the separator is its own single piece.
pub proof fn lemma_split_whole<T>(items: Seq<T>, separator: T)
    requires
        free_of(items, separator),
    ensures
        split(items, separator) == seq![items],
    decreases items.len(),
{
    if items.len() > 0 {
        let front = items.drop_last();
        lemma_split_whole(front, separator);
        assert(seq![front].drop_last().push(seq![front].last().push(items.last())) =~= seq![items])
            by {
            assert(front.push(items.last()) =~= items);
        }
    } else {
        assert(items =~= Seq::<T>::empty());
    }
}

/// What follows the last separator is the last piece, and what
/// precedes that separator splits as it does alone.
pub proof fn lemma_split_append<T>(front: Seq<T>, back: Seq<T>, separator: T)
    requires
        free_of(back, separator),
    ensures
        split(front + seq![separator] + back, separator) == split(front, separator).push(back),
    decreases back.len(),
{
    let whole = front + seq![separator] + back;
    if back.len() == 0 {
        assert(whole.drop_last() =~= front);
        assert(back =~= Seq::<T>::empty());
    } else {
        let shorter = back.drop_last();
        lemma_split_append(front, shorter, separator);
        assert(whole.drop_last() =~= front + seq![separator] + shorter);
        assert(shorter.push(back.last()) =~= back);
    }
}

} // verus!
