//! Request addresses, built with the url crate.
use vstd::prelude::*;

use crate::error::BackendError;

verus! {

/// The address `base` with `segments` appended to its path, as the url crate
/// writes it; none where `base` is no address or cannot carry a path.
pub uninterp spec fn url_with_path(base: Seq<char>, segments: Seq<Seq<char>>) -> Option<Seq<char>>;

/// The address `url` with `pairs` appended to its query, as the url crate
/// writes it; none where `url` is no address.
pub uninterp spec fn url_with_query(url: Seq<char>, pairs: Seq<(Seq<char>, Seq<char>)>) -> Option<Seq<char>>;

pub open spec fn text_of(o: Option<String>) -> Option<Seq<char>> {
    match o {
        Some(s) => Some(s@),
        None => None,
    }
}

pub open spec fn texts(v: Seq<&str>) -> Seq<Seq<char>> {
    v.map_values(|s: &str| s@)
}

pub open spec fn pair_texts(v: Seq<(String, String)>) -> Seq<(Seq<char>, Seq<char>)> {
    v.map_values(|p: (String, String)| (p.0@, p.1@))
}

/// Relies on url::Url::parse, Url::path_segments_mut and PathSegmentsMut::extend:
/// the result depends on the texts alone, and there is none where the text
/// is no URL or the URL cannot be a base.
#[verifier::external_body]
fn with_path(base: &str, segments: &Vec<&str>) -> (r: Option<String>)
    ensures
        text_of(r) == url_with_path(base@, texts(segments@)),
{
    let mut url = url::Url::parse(base).ok()?;
    url.path_segments_mut().ok()?.extend(segments.iter());
    Some(url.to_string())
}

/// Relies on url::Url::parse and Url::query_pairs_mut with Serializer::extend_pairs:
/// the result depends on the texts alone, and there is none where the text
/// is no URL.
#[verifier::external_body]
fn with_query(url: &str, pairs: &Vec<(String, String)>) -> (r: Option<String>)
    ensures
        text_of(r) == url_with_query(url@, pair_texts(pairs@)),
{
    let mut url = url::Url::parse(url).ok()?;
    url.query_pairs_mut().extend_pairs(pairs.iter());
    Some(url.to_string())
}

/// The message of the error for a base address that cannot carry a path.
pub open spec fn invalid_base() -> Seq<char> {
    "Invalid base url"@
}

pub open spec fn request_url(
    base: Seq<char>,
    segments: Seq<Seq<char>>,
    pairs: Option<Seq<(Seq<char>, Seq<char>)>>,
) -> Option<Seq<char>> {
    match url_with_path(base, segments) {
        None => None,
        Some(p) => match pairs {
            None => Some(p),
            Some(q) => url_with_query(p, q),
        },
    }
}

/// `base` with `segments` below it and then, if given, the query `pairs`.
pub fn build_request_url(base: &str, segments: &Vec<&str>, pairs: Option<&Vec<(String, String)>>) -> (r: Result<String, BackendError>)
    ensures
        r is Ok <==> request_url(base@, texts(segments@), match pairs { Some(q) => Some(pair_texts(q@)), None => None }) is Some,
        r matches Ok(u) ==> request_url(base@, texts(segments@), match pairs { Some(q) => Some(pair_texts(q@)), None => None }) == Some(u@),
        r matches Err(e) ==> e matches BackendError::Configuration(m) && m@ == invalid_base(),
{
    let path = match with_path(base, segments) {
        Some(p) => p,
        None => return Err(BackendError::Configuration(String::from_str("Invalid base url"))),
    };
    match pairs {
        None => Ok(path),
        Some(q) => match with_query(path.as_str(), q) {
            Some(u) => Ok(u),
            None => Err(BackendError::Configuration(String::from_str("Invalid base url"))),
        },
    }
}

} // verus!
