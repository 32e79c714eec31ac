//! One track of an iTunes library, and the step from its `file://`
//! location URL to a file path.
use vstd::prelude::*;

verus! {

/// One track as the iTunes library file lists it.
#[derive(Clone, Debug, PartialEq, Eq)]
pub struct Track {
    pub itunes_id: i64,
    pub bpm: Option<i64>,
    pub comment: Option<String>,
    pub name: String,
    pub location: String,
}

/// The path component of the URL written `s`, when `s` parses as a URL.
pub uninterp spec fn spec_url_path(s: Seq<char>) -> Option<Seq<char>>;

/// The percent-decoding of `s`, when the decoded bytes are well-formed
/// UTF-8.
pub uninterp spec fn spec_percent_decoded(s: Seq<char>) -> Option<Seq<char>>;

/// Relies on url::Url::parse and url::Url::path: parsing either fails or
/// yields a URL, and the path component of a URL is a function of the
/// URL text alone.
#[verifier::external_body]
fn url_path(location: &str) -> (r: Option<String>)
    ensures
        match r {
            Some(p) => spec_url_path(location@) == Some(p@),
            None => spec_url_path(location@) is None,
        },
{
    match url::Url::parse(location) {
        Ok(u) => Some(u.path().to_string()),
        Err(_) => None,
    }
}

/// Relies on percent_encoding::percent_decode_str: every `%` followed by
/// two hexadecimal digits becomes the encoded byte, everything else is
/// kept, and text without `%` comes back unchanged; decoding fails only
/// when the decoded bytes are not UTF-8.
#[verifier::external_body]
fn percent_decoded(input: &str) -> (r: Option<String>)
    ensures
        match r {
            Some(d) => spec_percent_decoded(input@) == Some(d@),
            None => spec_percent_decoded(input@) is None,
        },
        (forall|i: int| 0 <= i < input@.len() ==> input@[i] != '%') ==> r is Some && r->0@
            == input@,
{
    match percent_encoding::percent_decode_str(input).decode_utf8() {
        Ok(c) => Some(c.into_owned()),
        Err(_) => None,
    }
}

/// The file path a location URL points at: the URL's path component,
/// percent-decoded. Nothing when the URL does not parse or the decoded
/// path is not text.
pub fn url_to_path(location: &str) -> (r: Option<String>)
    ensures
        match spec_url_path(location@) {
            None => r is None,
            Some(p) => match spec_percent_decoded(p) {
                None => r is None,
                Some(d) => r is Some && r->0@ == d,
            },
        },
{
    match url_path(location) {
        Some(p) => percent_decoded(p.as_str()),
        None => None,
    }
}

} // verus!
