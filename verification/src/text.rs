//! Text and the bytes that carry it.

use vstd::prelude::*;
use vstd::utf8::{decode_utf8, encode_utf8, encode_utf8_decode_utf8, encode_utf8_valid_utf8, valid_utf8};

verus! {

/// The text that `String::from_utf8_lossy` makes of bytes that are not
/// well-formed UTF-8, in which ill-formed stretches give way to replacement
/// characters.
pub uninterp spec fn lossy_text(bytes: Seq<u8>) -> Seq<char>;

/// The text read out of a payload. Well-formed UTF-8 is decoded as it
/// stands; anything else is decoded lossily.
pub open spec fn text_of(bytes: Seq<u8>) -> Seq<char> {
    if valid_utf8(bytes) {
        decode_utf8(bytes)
    } else {
        lossy_text(bytes)
    }
}

/// Text that was stored as UTF-8 is read out unchanged.
pub proof fn lemma_text_of_encoding(text: Seq<char>)
    ensures
        text_of(encode_utf8(text)) == text,
{
    encode_utf8_valid_utf8(text);
    encode_utf8_decode_utf8(text);
}

/// Calls `String::from_utf8_lossy` and takes the text it gives as a
/// `String`. Believed, not proved: well-formed UTF-8 comes back as the text
/// it encodes, and other bytes as a text that depends on the bytes alone.
#[verifier::external_body]
pub(crate) fn decode_lossy(bytes: &Vec<u8>) -> (text: String)
    ensures
        valid_utf8(bytes@) ==> text@ == decode_utf8(bytes@),
        !valid_utf8(bytes@) ==> text@ == lossy_text(bytes@),
{
    String::from_utf8_lossy(bytes).into_owned()
}

} // verus!
