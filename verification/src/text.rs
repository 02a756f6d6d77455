//! Text handling: decoding a request body and normalising an email address.

use vstd::prelude::*;
use vstd::string::*;
use vstd::utf8::*;

verus! {

/// The view of an optional text.
pub open spec fn text_view(text: Option<String>) -> Option<Seq<char>> {
    match text {
        Some(text) => Some(text@),
        None => None,
    }
}

/// The message with which `core::str::Utf8Error` describes why `bytes` is not
/// UTF-8. It is meaningful only where `bytes` is not valid UTF-8.
pub uninterp spec fn utf8_error_message(bytes: Seq<u8>) -> Seq<char>;

/// The result of `str::trim`: the text without its leading and trailing
/// Unicode white space.
pub uninterp spec fn trimmed(text: Seq<char>) -> Seq<char>;

/// The result of `str::to_lowercase`: the text with every character replaced
/// by its Unicode lowercase mapping.
pub uninterp spec fn lowercased(text: Seq<char>) -> Seq<char>;

/// Calls `core::str::from_utf8` and hands back owned values.
///
/// Trusted: the call succeeds exactly on valid UTF-8, the text it returns has
/// the given bytes as its encoding, and the error it returns displays as
/// `utf8_error_message` of the bytes.
#[verifier::external_body]
fn str_from_utf8(bytes: &[u8]) -> (res: Result<String, String>)
    ensures
        res is Ok <==> valid_utf8(bytes@),
        res matches Ok(text) ==> encode_utf8(text@) == bytes@,
        res matches Err(message) ==> message@ == utf8_error_message(bytes@),
{
    match core::str::from_utf8(bytes) {
        Ok(text) => Ok(text.to_owned()),
        Err(error) => Err(error.to_string()),
    }
}

/// Trusted: `str::trim` returns `trimmed` of its argument.
pub assume_specification[ str::trim ](text: &str) -> (res: &str)
    ensures
        res@ == trimmed(text@),
;

/// Trusted: `str::to_lowercase` returns `lowercased` of its argument.
pub assume_specification[ str::to_lowercase ](text: &str) -> (res: String)
    ensures
        res@ == lowercased(text@),
;

/// Interprets a request body as UTF-8 text.
pub fn decode_body(bytes: &[u8]) -> (res: Result<String, String>)
    ensures
        res is Ok <==> valid_utf8(bytes@),
        res matches Ok(text) ==> text@ == decode_utf8(bytes@) && encode_utf8(text@) == bytes@,
        res matches Err(message) ==> message@ == utf8_error_message(bytes@),
{
    let res = str_from_utf8(bytes);
    proof {
        if let Ok(text) = &res {
            encode_utf8_decode_utf8(text@);
        }
    }
    res
}

/// The stored form of an email address: trimmed, then lowercased.
pub open spec fn sanitized_email(email: Seq<char>) -> Seq<char> {
    lowercased(trimmed(email))
}

/// Normalises an email address for storage and comparison.
pub fn sanitize_email(email: &str) -> (res: String)
    ensures
        res@ == sanitized_email(email@),
{
    email.trim().to_lowercase()
}

} // verus!
