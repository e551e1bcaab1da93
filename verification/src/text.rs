//! Bytes and text: the conversions of the standard library between them that
//! this crate relies on, each stated over the UTF-8 encoding, and the framing
//! of a text as a terminated string.
//!
//! The three conversions are calls into the standard library. Their contracts
//! say what its documentation says of them; nothing here proves them.

use vstd::prelude::*;
use vstd::utf8::{decode_utf8, encode_utf8, valid_utf8};

verus! {

/// The text that lossy decoding makes of bytes that are not valid UTF-8: each
/// ill-formed sequence gives way to the replacement character.
pub uninterp spec fn utf8_lossy(bytes: Seq<u8>) -> Seq<char>;

/// What lossy decoding makes of any bytes: valid UTF-8 is decoded as it
/// stands, anything else as [`utf8_lossy`] says.
pub open spec fn lossy_text(bytes: Seq<u8>) -> Seq<char> {
    if valid_utf8(bytes) {
        decode_utf8(bytes)
    } else {
        utf8_lossy(bytes)
    }
}

/// The text that bytes spell, where they are valid UTF-8.
pub open spec fn strict_text(bytes: Seq<u8>) -> Option<Seq<char>> {
    if valid_utf8(bytes) {
        Some(decode_utf8(bytes))
    } else {
        None
    }
}

/// Calls `String::into_bytes`. Trusted: the result holds the bytes of the
/// string, which are the UTF-8 encoding of its characters.
#[verifier::external_body]
pub(crate) fn string_into_bytes(s: String) -> (r: Vec<u8>)
    ensures
        r@ == encode_utf8(s@),
{
    s.into_bytes()
}

/// Calls `String::from_utf8_lossy`. Trusted: bytes that are valid UTF-8 come
/// out as the text they spell. What the call makes of other bytes is given a
/// name, [`utf8_lossy`], and nothing more is claimed of it.
#[verifier::external_body]
pub(crate) fn string_from_utf8_lossy(bytes: &[u8]) -> (r: String)
    ensures
        valid_utf8(bytes@) ==> r@ == decode_utf8(bytes@),
        !valid_utf8(bytes@) ==> r@ == utf8_lossy(bytes@),
{
    String::from_utf8_lossy(bytes).into_owned()
}

/// Calls `core::str::from_utf8`. Trusted: the call succeeds exactly on valid
/// UTF-8, and then gives the text that the bytes spell.
#[verifier::external_body]
pub(crate) fn str_from_utf8(bytes: &[u8]) -> (r: Option<&str>)
    ensures
        match r {
            Some(s) => strict_text(bytes@) == Some(s@),
            None => strict_text(bytes@) is None,
        },
{
    core::str::from_utf8(bytes).ok()
}

/// The bytes of a text as a terminated string: the UTF-8 encoding followed by
/// one zero byte. There is none for a text that has a zero byte inside.
pub open spec fn terminated_bytes(text: Seq<char>) -> Option<Seq<u8>> {
    if encode_utf8(text).contains(0u8) {
        None
    } else {
        Some(encode_utf8(text).push(0u8))
    }
}

/// Makes a terminated string of a text, for a reader that takes the first
/// zero byte as the end. A text with a zero byte inside cannot be handed to
/// such a reader and gives `None`.
pub fn terminated(text: String) -> (r: Option<Vec<u8>>)
    ensures
        r.deep_view() == terminated_bytes(text@),
{
    let mut bytes = string_into_bytes(text);
    let mut i: usize = 0;
    while i < bytes.len()
        invariant
            i <= bytes.len(),
            bytes@ == encode_utf8(text@),
            forall|k: int| 0 <= k < i ==> bytes[k] != 0u8,
        decreases bytes.len() - i,
    {
        if bytes[i] == 0 {
            return None;
        }
        i = i + 1;
    }
    bytes.push(0);
    proof {
        assert(!encode_utf8(text@).contains(0u8));
        assert(bytes.deep_view() =~= encode_utf8(text@).push(0u8));
    }
    Some(bytes)
}

/// Packing a text into bytes and decoding them again, lossily or not, gives
/// the text back.
pub proof fn lemma_text_round_trip(text: Seq<char>)
    ensures
        lossy_text(encode_utf8(text)) == text,
        strict_text(encode_utf8(text)) == Some(text),
{
    vstd::utf8::encode_utf8_valid_utf8(text);
    vstd::utf8::encode_utf8_decode_utf8(text);
}

} // verus!
