//! Text helpers: decoding property bytes, measuring and joining strings.
use vstd::prelude::*;
use vstd::utf8::{
    decode_utf8, decode_utf8_encode_utf8, decode_utf8_split, encode_utf8, encode_utf8_decode_utf8,
    encode_utf8_valid_utf8, is_ascii_chars, is_char_boundary,
    is_char_boundary_iff_not_is_continuation_byte, is_char_boundary_start_end_of_seq,
    is_continuation_byte, valid_utf8, valid_utf8_split,
};

verus! {

/// The text that `String::from_utf8_lossy` makes of `bytes`.
pub uninterp spec fn lossy_utf8(bytes: Seq<u8>) -> Seq<char>;

/// The text that `bytes` stand for: what they encode where they are valid UTF-8, and what
/// `String::from_utf8_lossy` makes of them where they are not.
pub open spec fn text_of(bytes: Seq<u8>) -> Seq<char> {
    if valid_utf8(bytes) {
        decode_utf8(bytes)
    } else {
        lossy_utf8(bytes)
    }
}

/// Whether no character of `text` is NUL.
pub open spec fn has_no_nul(text: Seq<char>) -> bool {
    forall|i: int| 0 <= i < text.len() ==> text[i] != '\0'
}

/// Calls `String::from_utf8_lossy` and takes the result over as an owned string.
///
/// Trusted: the text depends on the bytes alone, and bytes that are valid UTF-8 are decoded
/// as they stand. Bytes that are there give text that is there, since each ill-formed stretch is
/// replaced by at least one character, and as that character is not NUL, bytes without NUL give
/// text without NUL. How many characters stand for an ill-formed stretch is not said.
#[verifier::external_body]
pub(crate) fn from_utf8_lossy(bytes: &[u8]) -> (text: String)
    ensures
        text@ == lossy_utf8(bytes@),
        valid_utf8(bytes@) ==> text@ == decode_utf8(bytes@),
        bytes@.len() > 0 ==> text@.len() > 0,
        !bytes@.contains(0u8) ==> has_no_nul(text@),
{
    String::from_utf8_lossy(bytes).into_owned()
}

/// Length of `text` in bytes of UTF-8.
pub fn byte_len(text: &str) -> (len: usize)
    ensures
        len == encode_utf8(text@).len(),
{
    text.as_bytes().len()
}

/// `head` followed by `tail`.
pub fn joined(head: &str, tail: &str) -> (text: String)
    ensures
        text@ == head@ + tail@,
{
    let mut text = head.to_owned();
    text.append(tail);
    text
}

/// The bytes of a text in UTF-8 stand for that text.
pub proof fn encoded_text_is_read_back(text: Seq<char>)
    ensures
        text_of(encode_utf8(text)) == text,
{
    vstd::utf8::encode_utf8_valid_utf8(text);
    vstd::utf8::encode_utf8_decode_utf8(text);
}

/// Bytes that are no UTF-8 stand for what `String::from_utf8_lossy` makes of them.
pub proof fn other_bytes_are_read_lossily(bytes: Seq<u8>)
    requires
        !valid_utf8(bytes),
    ensures
        text_of(bytes) == lossy_utf8(bytes),
{
}

/// A joined text is its head, then its tail, and nothing else.
pub proof fn joined_text_has_both_parts(head: &str, tail: &str, text: String)
    requires
        call_ensures(joined, (head, tail), text),
    ensures
        text@.len() == head@.len() + tail@.len(),
        text@.take(head@.len() as int) == head@,
        text@.skip(head@.len() as int) == tail@,
{
    assert(text@.take(head@.len() as int) =~= head@);
    assert(text@.skip(head@.len() as int) =~= tail@);
}

/// The length of a text is that of its UTF-8 encoding: as many bytes as characters in ASCII, at
/// least as many otherwise.
pub proof fn length_counts_the_bytes(text: &str, len: usize)
    requires
        call_ensures(byte_len, (text,), len),
    ensures
        len >= text@.len(),
        is_ascii_chars(text@) ==> len == text@.len(),
        encode_utf8(text@).len() == len,
{
    encoding_is_not_shorter(text@);
    if is_ascii_chars(text@) {
        vstd::utf8::is_ascii_chars_encode_utf8(text@);
    }
}

/// The encoding of two texts, one after the other, is that of the first, then that of the second.
pub proof fn encodings_follow_each_other(head: Seq<char>, tail: Seq<char>)
    ensures
        encode_utf8(head + tail) == encode_utf8(head) + encode_utf8(tail),
    decreases head.len(),
{
    if head.len() == 0 {
        assert(head + tail =~= tail);
        assert(encode_utf8(head) + encode_utf8(tail) =~= encode_utf8(tail));
    } else {
        encodings_follow_each_other(head.drop_first(), tail);
        assert((head + tail).drop_first() =~= head.drop_first() + tail);
        assert(encode_utf8(head + tail) =~= encode_utf8(head) + encode_utf8(tail));
    }
}

/// A character begins in the encoding of a text exactly where the encoding of a first part of the
/// text ends.
pub proof fn characters_begin_where_parts_end(text: Seq<char>, index: int)
    ensures
        is_char_boundary(encode_utf8(text), index) <==> exists|k: int|
            0 <= k <= text.len() && #[trigger] encode_utf8(text.take(k)).len() == index,
{
    let bytes = encode_utf8(text);
    encode_utf8_valid_utf8(text);
    encode_utf8_decode_utf8(text);
    if is_char_boundary(bytes, index) {
        assert(0 <= index <= bytes.len());
        decode_utf8_split(bytes, index);
        valid_utf8_split(bytes, index);
        let front = bytes.subrange(0, index);
        let head = decode_utf8(front);
        decode_utf8_encode_utf8(front);
        assert(text.take(head.len() as int) =~= head);
        assert(encode_utf8(text.take(head.len() as int)).len() == index);
    }
    assert forall|k: int|
        0 <= k <= text.len() && #[trigger] encode_utf8(text.take(k)).len()
            == index implies is_char_boundary(bytes, index) by {
        let head = text.take(k);
        let tail = text.skip(k);
        assert(head + tail =~= text);
        encodings_follow_each_other(head, tail);
        if encode_utf8(tail).len() == 0 {
            is_char_boundary_start_end_of_seq(bytes);
        } else {
            encode_utf8_valid_utf8(tail);
            assert(bytes[index] == encode_utf8(tail)[0]);
            assert(!is_continuation_byte(encode_utf8(tail)[0]));
            is_char_boundary_iff_not_is_continuation_byte(bytes, index);
        }
    }
}

proof fn encoding_is_not_shorter(text: Seq<char>)
    ensures
        encode_utf8(text).len() >= text.len(),
    decreases text.len(),
{
    if text.len() > 0 {
        encoding_is_not_shorter(text.drop_first());
    }
}

} // verus!
