//! What the relay needs of HTTP: status codes, header values and bodies.

use vstd::prelude::*;
use vstd::string::*;

verus! {

/// `reqwest::header::HeaderValue`, carried as it is.
#[verifier::external_type_specification]
#[verifier::external_body]
pub struct ExHeaderValue(reqwest::header::HeaderValue);

/// `bytes::Bytes`, carried as it is: the audio is handed on untouched.
#[verifier::external_type_specification]
#[verifier::external_body]
pub struct ExBytes(bytes::Bytes);

/// The bytes that a header value holds.
pub uninterp spec fn header_bytes(value: reqwest::header::HeaderValue) -> Seq<u8>;

/// The header value made from a text of header characters.
pub uninterp spec fn static_header_value(text: Seq<char>) -> reqwest::header::HeaderValue;

/// The standard reason phrase of a status code, where there is one.
pub uninterp spec fn reason_phrase(status: u16) -> Option<Seq<char>>;

/// Whether a status code reports success: 200 to 299.
pub open spec fn is_success(status: u16) -> bool {
    200 <= status < 300
}

/// Whether a status code reports a client or a server error: 400 to 599.
pub open spec fn is_error(status: u16) -> bool {
    400 <= status < 600
}

/// Whether a character may stand in a header value made from text: a tab or
/// a printable ASCII character.
pub open spec fn is_header_char(c: char) -> bool {
    c == '\t' || (' ' <= c && c < '\u{7f}')
}

/// Whether a text can be made into a header value.
pub open spec fn is_header_text(text: Seq<char>) -> bool {
    forall|i: int| 0 <= i < text.len() ==> is_header_char(#[trigger] text[i])
}

/// Tells whether a status code reports success.
pub fn status_is_success(status: u16) -> (success: bool)
    ensures
        success == is_success(status),
{
    200 <= status && status < 300
}

/// Tells whether a status code reports a client or a server error.
pub fn status_is_error(status: u16) -> (error: bool)
    ensures
        error == is_error(status),
{
    400 <= status && status < 600
}

/// `reqwest::header::HeaderValue::from_static`: a header value holding the
/// bytes of `text`, the same value for the same text. The function stops the
/// program on a character that is neither a tab nor printable ASCII, so such
/// text is not admitted.
#[verifier::external_body]
pub(crate) fn static_header(text: &'static str) -> (value: reqwest::header::HeaderValue)
    requires
        is_header_text(text@),
    ensures
        value == static_header_value(text@),
        header_bytes(value) == text.spec_bytes(),
{
    reqwest::header::HeaderValue::from_static(text)
}

/// `reqwest::StatusCode::canonical_reason`, for the status code with this
/// number: the phrase that the standard gives it, `None` where it gives none
/// or where the number is no status code at all.
#[verifier::external_body]
pub(crate) fn canonical_reason(status: u16) -> (phrase: Option<&'static str>)
    ensures
        match phrase {
            Some(text) => reason_phrase(status) == Some(text@),
            None => reason_phrase(status) is None,
        },
{
    match reqwest::StatusCode::from_u16(status) {
        Ok(code) => code.canonical_reason(),
        Err(_) => None,
    }
}

} // verus!
