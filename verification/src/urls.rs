//! Trusted boundary to the `url` crate. Every URL in the library is held as
//! its serialization (a plain `String`); each operation below parses that
//! serialization, applies one `url` crate operation, and serializes again.
//! The results are deterministic functions of the inputs, named by the
//! uninterpreted spec functions beside each wrapper.

use vstd::prelude::*;

use crate::text::string_pairs_view;

verus! {

/// The serialization of `s` parsed as an absolute URL, or `None` when `s` is
/// not one. Stands for what `url::Url::parse` returns.
pub uninterp spec fn norm_url(s: Seq<char>) -> Option<Seq<char>>;

/// The serialization of the URL `base` after its path is replaced by `path`,
/// or `None` when `base` is not an absolute URL. Stands for what
/// `url::Url::set_path` produces.
pub uninterp spec fn with_path(base: Seq<char>, path: Seq<char>) -> Option<Seq<char>>;

/// The serialization of `rel` resolved against the URL `base` by standard
/// relative-URL resolution, or `None` when `base` is not an absolute URL or
/// the resolution fails. Stands for what `url::Url::join` returns.
pub uninterp spec fn joined(base: Seq<char>, rel: Seq<char>) -> Option<Seq<char>>;

/// The serialization of the URL `base` after the ordered `pairs` are appended
/// to its query as percent-encoded parameters (existing parameters kept,
/// duplicate keys repeated), or `None` when `base` is not an absolute URL.
/// Stands for what `url::Url::parse_with_params` returns.
pub uninterp spec fn with_params(base: Seq<char>, pairs: Seq<(Seq<char>, Seq<char>)>) -> Option<
    Seq<char>,
>;

/// The serialization of the URL `base` after its whole query component is set
/// to the pre-encoded string `query`, or `None` when `base` is not an
/// absolute URL. Stands for what `url::Url::set_query` produces.
pub uninterp spec fn with_query(base: Seq<char>, query: Seq<char>) -> Option<Seq<char>>;

/// Relies on `url::Url::parse`: it succeeds exactly on absolute URLs, and
/// its result serializes as a function of the input alone.
#[verifier::external_body]
pub(crate) fn parse_url(s: &str) -> (r: Option<String>)
    ensures
        r is Some <==> norm_url(s@) is Some,
        r matches Some(u) ==> norm_url(s@) == Some(u@),
{
    match url::Url::parse(s) {
        Ok(u) => Some(String::from(u)),
        Err(_) => None,
    }
}

/// Relies on `url::Url::set_path` (after `url::Url::parse` of the base): the
/// path of the parsed base is replaced, percent-encoding the new path.
#[verifier::external_body]
pub(crate) fn url_with_path(base: &str, path: &str) -> (r: Option<String>)
    ensures
        r is Some <==> with_path(base@, path@) is Some,
        r matches Some(u) ==> with_path(base@, path@) == Some(u@),
{
    match url::Url::parse(base) {
        Ok(mut u) => {
            u.set_path(path);
            Some(String::from(u))
        },
        Err(_) => None,
    }
}

/// Relies on `url::Url::join` (after `url::Url::parse` of the base): `rel`
/// is resolved against the base by standard relative-URL resolution, where
/// a trailing slash on the base's path is significant.
#[verifier::external_body]
pub(crate) fn join_url(base: &str, rel: &str) -> (r: Option<String>)
    ensures
        r is Some <==> joined(base@, rel@) is Some,
        r matches Some(u) ==> joined(base@, rel@) == Some(u@),
{
    match url::Url::parse(base) {
        Ok(u) => match u.join(rel) {
            Ok(j) => Some(String::from(j)),
            Err(_) => None,
        },
        Err(_) => None,
    }
}

/// Relies on `url::Url::parse_with_params`: the pairs are appended to the
/// query in order as percent-encoded parameters, keeping what was there.
#[verifier::external_body]
pub(crate) fn url_with_params(base: &str, pairs: &Vec<(String, String)>) -> (r: Option<String>)
    ensures
        r is Some <==> with_params(base@, string_pairs_view(pairs@)) is Some,
        r matches Some(u) ==> with_params(base@, string_pairs_view(pairs@)) == Some(u@),
{
    match url::Url::parse_with_params(base, pairs) {
        Ok(u) => Some(String::from(u)),
        Err(_) => None,
    }
}

/// Relies on `url::Url::set_query` (after `url::Url::parse` of the base):
/// the whole query component is set to the given string, overwriting any
/// query the base carried; the crate strips tabs and newlines from it and
/// percent-encodes the few characters a query may not hold.
#[verifier::external_body]
pub(crate) fn url_with_query(base: &str, query: &str) -> (r: Option<String>)
    ensures
        r is Some <==> with_query(base@, query@) is Some,
        r matches Some(u) ==> with_query(base@, query@) == Some(u@),
{
    match url::Url::parse(base) {
        Ok(mut u) => {
            u.set_query(Some(query));
            Some(String::from(u))
        },
        Err(_) => None,
    }
}

} // verus!
