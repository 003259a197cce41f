//! The framing that stored values are built from: words of 64 bits, least
//! significant byte first, and texts as a length in bytes followed by UTF-8.

use crate::text::text_of_bytes;
use vstd::bytes::*;
use vstd::prelude::*;
use vstd::slice::*;
use vstd::utf8::*;

verus! {

/// The eight bytes of a word.
pub open spec fn word_bytes(word: u64) -> Seq<u8> {
    spec_u64_to_le_bytes(word)
}

/// Whether a text is short enough for its length to be framed.
pub open spec fn text_framed(text: Seq<char>) -> bool {
    encode_utf8(text).len() <= u64::MAX
}

/// The bytes of a text: the length of its UTF-8 form, then that form.
pub open spec fn text_bytes(text: Seq<char>) -> Seq<u8> {
    word_bytes(encode_utf8(text).len() as u64) + encode_utf8(text)
}

/// The word that starts at `at`, with the place where it ends; `None` where
/// fewer than eight bytes are left.
pub open spec fn word_at(bytes: Seq<u8>, at: int) -> Option<(u64, int)> {
    if 0 <= at && at + 8 <= bytes.len() {
        Some((spec_u64_from_le_bytes(bytes.subrange(at, at + 8)), at + 8))
    } else {
        None
    }
}

/// The text that starts at `at`, with the place where it ends; `None` where
/// the length has no room, runs past the end, or frames bytes that are not
/// UTF-8.
pub open spec fn text_at(bytes: Seq<u8>, at: int) -> Option<(Seq<char>, int)> {
    match word_at(bytes, at) {
        Some((len, start)) => if start + len <= bytes.len() && valid_utf8(
            bytes.subrange(start, start + len),
        ) {
            Some((decode_utf8(bytes.subrange(start, start + len)), start + len))
        } else {
            None
        },
        None => None,
    }
}

/// A word that was written at `at` is read back from there.
pub proof fn lemma_word_at(bytes: Seq<u8>, at: int, word: u64)
    requires
        0 <= at,
        at + 8 <= bytes.len(),
        bytes.subrange(at, at + 8) == word_bytes(word),
    ensures
        word_at(bytes, at) == Some((word, at + 8)),
{
    lemma_auto_spec_u64_to_from_le_bytes();
}

/// A text that was written at `at` is read back from there.
pub proof fn lemma_text_at(bytes: Seq<u8>, at: int, text: Seq<char>)
    requires
        text_framed(text),
        0 <= at,
        at + text_bytes(text).len() <= bytes.len(),
        bytes.subrange(at, at + text_bytes(text).len()) == text_bytes(text),
    ensures
        word_bytes(encode_utf8(text).len() as u64).len() == 8,
        text_at(bytes, at) == Some((text, at + text_bytes(text).len())),
{
    lemma_auto_spec_u64_to_from_le_bytes();
    let body = encode_utf8(text);
    let len = body.len() as u64;
    let framed = text_bytes(text);
    assert(word_bytes(len).len() == 8);
    assert(bytes.subrange(at, at + 8) =~= framed.subrange(0, 8));
    assert(framed.subrange(0, 8) =~= word_bytes(len));
    lemma_word_at(bytes, at, len);
    assert(bytes.subrange(at + 8, at + 8 + len) =~= framed.subrange(8, 8 + len));
    assert(framed.subrange(8, 8 + len) =~= body);
    encode_utf8_valid_utf8(text);
    encode_utf8_decode_utf8(text);
}

/// Appends the bytes of a word.
pub fn write_word(out: &mut Vec<u8>, word: u64)
    ensures
        final(out)@ == old(out)@ + word_bytes(word),
{
    let mut bytes = u64_to_le_bytes(word);
    out.append(&mut bytes);
}

/// Appends the bytes of a text.
pub fn write_text(out: &mut Vec<u8>, text: &str)
    ensures
        text_framed(text@),
        final(out)@ == old(out)@ + text_bytes(text@),
{
    let mut body = slice_to_vec(text.as_bytes());
    write_word(out, body.len() as u64);
    out.append(&mut body);
    assert(out@ =~= old(out)@ + text_bytes(text@));
}

/// Reads the word that starts at `at`.
pub fn read_word(bytes: &Vec<u8>, at: usize) -> (out: Option<(u64, usize)>)
    ensures
        match out {
            Some((word, next)) => word_at(bytes@, at as int) == Some((word, next as int)),
            None => word_at(bytes@, at as int) is None,
        },
{
    if at > bytes.len() || bytes.len() - at < 8 {
        return None;
    }
    let word = u64_from_le_bytes(slice_subrange(bytes.as_slice(), at, at + 8));
    Some((word, at + 8))
}

/// Reads the text that starts at `at`.
pub fn read_text(bytes: &Vec<u8>, at: usize) -> (out: Option<(String, usize)>)
    ensures
        match out {
            Some((text, next)) => text_at(bytes@, at as int) == Some((text@, next as int)),
            None => text_at(bytes@, at as int) is None,
        },
{
    let (len, start) = match read_word(bytes, at) {
        Some(framed) => framed,
        None => { return None; },
    };
    if len > (bytes.len() - start) as u64 {
        return None;
    }
    let end = start + len as usize;
    let body = slice_to_vec(slice_subrange(bytes.as_slice(), start, end));
    match text_of_bytes(body) {
        Some(text) => Some((text, end)),
        None => None,
    }
}

} // verus!
