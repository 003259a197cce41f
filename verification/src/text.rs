//! Strings and the bytes that spell them.

use vstd::prelude::*;
use vstd::utf8::*;

verus! {

/// `String::from_utf8`: succeeds exactly on well-formed UTF-8, and the string
/// it gives has the argument as its bytes.
#[verifier::external_body]
pub(crate) fn string_from_utf8(bytes: Vec<u8>) -> (text: Option<String>)
    ensures
        text is Some <==> valid_utf8(bytes@),
        text matches Some(s) ==> encode_utf8(s@) == bytes@,
{
    match String::from_utf8(bytes) {
        Ok(s) => Some(s),
        Err(_) => None,
    }
}

/// The text that `bytes` spell in UTF-8; `None` where they spell none.
pub fn text_of_bytes(bytes: Vec<u8>) -> (text: Option<String>)
    ensures
        match text {
            Some(s) => valid_utf8(bytes@) && s@ == decode_utf8(bytes@),
            None => !valid_utf8(bytes@),
        },
{
    let text = string_from_utf8(bytes);
    proof {
        if text is Some {
            encode_utf8_decode_utf8(text->0@);
        }
    }
    text
}

} // verus!
