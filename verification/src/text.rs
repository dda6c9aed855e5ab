//! Turning the raw bytes of a file into the text buffer of a tab.

use vstd::prelude::*;

verus! {

use vstd::utf8::decode_utf8;
use vstd::utf8::valid_utf8;

/// Relies on `String::from_utf8`: it succeeds exactly when the bytes are
/// valid UTF-8, and then returns the string that decodes them.
#[verifier::external_body]
fn string_from_utf8(bytes: Vec<u8>) -> (r: Option<String>)
    ensures
        r is Some <==> valid_utf8(bytes@),
        r matches Some(s) ==> s@ == decode_utf8(bytes@),
{
    String::from_utf8(bytes).ok()
}

/// The text buffer made from a freshly read file: the bytes decoded as
/// UTF-8, or the empty string when they are not valid UTF-8.
pub fn decode_text(bytes: Vec<u8>) -> (r: String)
    ensures
        valid_utf8(bytes@) ==> r@ == decode_utf8(bytes@),
        !valid_utf8(bytes@) ==> r@ == Seq::<char>::empty(),
{
    match string_from_utf8(bytes) {
        Some(s) => s,
        None => String::new(),
    }
}

} // verus!
