//! The daemon's address, kept as a `reqwest::Url`.

use vstd::prelude::*;
use vstd::string::*;
use vstd::utf8::encode_utf8;

verus! {

/// `reqwest::Url`, carried as it is: nothing inside it is looked at.
#[verifier::external_type_specification]
#[verifier::external_body]
pub struct ExUrl(reqwest::Url);

/// What a text parses to: the address, if the text is an absolute URL, else
/// the parser's own words for what is wrong with it.
pub uninterp spec fn parsed_url(text: Seq<char>) -> Result<reqwest::Url, Seq<char>>;

/// The outcome of parsing as plain values.
pub open spec fn parse_outcome(parsed: Result<reqwest::Url, String>) -> Result<
    reqwest::Url,
    Seq<char>,
> {
    match parsed {
        Ok(url) => Ok(url),
        Err(reason) => Err(reason@),
    }
}

/// The text that an address is written as.
pub uninterp spec fn url_text(url: reqwest::Url) -> Seq<char>;

/// An address with its path replaced: scheme, host, port, query and fragment
/// stay, the path becomes the percent-encoded `path`.
pub uninterp spec fn url_with_path(url: reqwest::Url, path: Seq<char>) -> reqwest::Url;

/// The longest address, in bytes of its text, in which a path may be
/// replaced.
pub const MAX_URL_LEN: usize = 0x4000_0000;

/// The longest path, in bytes, that may be put into an address.
pub const MAX_PATH_LEN: usize = 0x1000_0000;

/// Whether `path` may be put into `url`: both are short enough.
pub open spec fn fits_path(url: reqwest::Url, path: Seq<char>) -> bool {
    &&& encode_utf8(url_text(url)).len() <= MAX_URL_LEN
    &&& encode_utf8(path).len() <= MAX_PATH_LEN
}

/// `reqwest::Url::parse`: the parsed address, or the text of the error that
/// the parser reports. The same text always gives the same outcome.
#[verifier::external_body]
pub(crate) fn parse_url(text: &str) -> (parsed: Result<reqwest::Url, String>)
    ensures
        parse_outcome(parsed) == parsed_url(text@),
{
    match reqwest::Url::parse(text) {
        Ok(url) => Ok(url),
        Err(error) => Err(error.to_string()),
    }
}

/// `reqwest::Url::as_str`: the serialization of the address.
#[verifier::external_body]
pub(crate) fn url_as_str(url: &reqwest::Url) -> (text: &str)
    ensures
        text@ == url_text(*url),
{
    url.as_str()
}

/// `reqwest::Url::set_path` on a copy of `url`. The method keeps positions in
/// the text as 32-bit numbers and stops the program when the new text
/// outgrows them; an encoded path is at most three times as long as the path
/// plus a leading slash, which the two bounds keep well below that limit.
#[verifier::external_body]
pub(crate) fn replace_path(url: &reqwest::Url, path: &str) -> (out: reqwest::Url)
    requires
        fits_path(*url, path@),
    ensures
        out == url_with_path(*url, path@),
{
    let mut out = url.clone();
    out.set_path(path);
    out
}

} // verus!
