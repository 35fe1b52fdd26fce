//! Calls into the `url` crate: form encoding of name/value pairs, and the
//! path of an absolute URL.
use vstd::prelude::*;

verus! {

/// The `application/x-www-form-urlencoded` serialization of a list of
/// name/value pairs, as the `url` crate writes it.
pub uninterp spec fn form_urlencoded_of(pairs: Seq<(Seq<char>, Seq<char>)>) -> Seq<char>;

/// The path of a URL as the `url` crate parses it, or `None` where it
/// does not parse.
pub uninterp spec fn url_path_of(s: Seq<char>) -> Option<Seq<char>>;

/// Relies on `form_urlencoded::Serializer` (re-exported by `url`): started
/// on an empty string, `extend_pairs` appends each pair in the order given,
/// and `finish` hands the string back; with no pairs it stays empty, and
/// each pair writes at least its `=`.
#[verifier::external_body]
pub(crate) fn encode_pairs(pairs: &Vec<(String, String)>) -> (r: String)
    ensures
        r@ == form_urlencoded_of(pairs@.map_values(|p: (String, String)| (p.0@, p.1@))),
        pairs@.len() == 0 ==> r@.len() == 0,
        pairs@.len() > 0 ==> r@.len() > 0,
{
    url::form_urlencoded::Serializer::new(String::new()).extend_pairs(pairs.iter()).finish()
}

/// Relies on `url::Url::parse` and `url::Url::path`: the path of the parsed
/// URL, or `None` where parsing fails.
#[verifier::external_body]
pub(crate) fn parse_url_path(s: &str) -> (r: Option<String>)
    ensures
        r.is_some() == url_path_of(s@).is_some(),
        r.is_some() ==> url_path_of(s@) == Some(r.unwrap()@),
{
    match url::Url::parse(s) {
        Ok(u) => Some(u.path().to_string()),
        Err(_) => None,
    }
}

} // verus!
