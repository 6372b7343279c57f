use vstd::prelude::*;
use crate::errors::{ApiError, EMPTY_URL_MESSAGE, INVALID_URL_MESSAGE};

verus! {

#[verifier::external_type_specification]
#[verifier::external_body]
pub struct ExParseError(url::ParseError);

/// Whether the URL parser accepts `s` as an absolute URL.
pub uninterp spec fn parses_as_url(s: Seq<char>) -> bool;

/// Relies on url::Url::parse: it succeeds exactly on the inputs it accepts,
/// and which those are depends on the text alone.
#[verifier::external_body]
fn parse_url(s: &str) -> (r: Result<(), url::ParseError>)
    ensures
        r is Ok <==> parses_as_url(s@),
{
    url::Url::parse(s).map(|_| ())
}

/// The characters with Unicode's White_Space property.
pub open spec fn is_space(c: char) -> bool {
    ||| ('\u{9}' <= c && c <= '\u{d}')
    ||| c == ' '
    ||| c == '\u{85}'
    ||| c == '\u{a0}'
    ||| c == '\u{1680}'
    ||| ('\u{2000}' <= c && c <= '\u{200a}')
    ||| c == '\u{2028}'
    ||| c == '\u{2029}'
    ||| c == '\u{202f}'
    ||| c == '\u{205f}'
    ||| c == '\u{3000}'
}

/// A URL that is empty or made of white space only.
pub open spec fn is_blank(s: Seq<char>) -> bool {
    forall|i: int| 0 <= i < s.len() ==> is_space(#[trigger] s[i])
}

/// The verdict on a submitted URL, given whether the parser accepts it.
pub open spec fn url_verdict(s: Seq<char>, parses: bool) -> Result<(), ApiError> {
    if is_blank(s) {
        Err(ApiError::BadRequest(EMPTY_URL_MESSAGE))
    } else if !parses {
        Err(ApiError::BadRequest(INVALID_URL_MESSAGE))
    } else {
        Ok(())
    }
}

/// The verdict on a submitted URL.
pub open spec fn url_check(s: Seq<char>) -> Result<(), ApiError> {
    url_verdict(s, parses_as_url(s))
}

/// Whether `c` is white space.
pub fn is_space_char(c: char) -> (r: bool)
    ensures
        r == is_space(c),
{
    ('\u{9}' <= c && c <= '\u{d}') || c == ' ' || c == '\u{85}' || c == '\u{a0}' || c == '\u{1680}'
        || ('\u{2000}' <= c && c <= '\u{200a}') || c == '\u{2028}' || c == '\u{2029}'
        || c == '\u{202f}' || c == '\u{205f}' || c == '\u{3000}'
}

/// Whether `s` is empty or made of white space only.
pub fn is_blank_str(s: &str) -> (r: bool)
    ensures
        r == is_blank(s@),
{
    let n = s.unicode_len();
    let mut i: usize = 0;
    while i < n
        invariant
            n == s@.len(),
            i <= n,
            forall|j: int| 0 <= j < i ==> is_space(#[trigger] s@[j]),
        decreases n - i,
    {
        if !is_space_char(s.get_char(i)) {
            return false;
        }
        i = i + 1;
    }
    true
}

/// Decides on `url` given whether the parser accepted it: a blank URL is
/// "Url is empty", one that does not parse is "Invalid url".
pub fn check_url(url: &str, parses: bool) -> (r: Result<(), ApiError>)
    ensures
        r == url_verdict(url@, parses),
{
    if is_blank_str(url) {
        Err(ApiError::BadRequest(EMPTY_URL_MESSAGE))
    } else if !parses {
        Err(ApiError::BadRequest(INVALID_URL_MESSAGE))
    } else {
        Ok(())
    }
}

/// Validates a submitted URL: it must not be blank and must parse as an
/// absolute URL.
pub fn validate_url(url: &str) -> (r: Result<(), ApiError>)
    ensures
        r == url_check(url@),
{
    if is_blank_str(url) {
        return Err(ApiError::BadRequest(EMPTY_URL_MESSAGE));
    }
    let parsed = parse_url(url);
    let parses = match parsed {
        Ok(()) => true,
        Err(_) => false,
    };
    check_url(url, parses)
}

} // verus!
