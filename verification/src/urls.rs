//! URL parsing and resolution, through the `url` crate.
//!
//! The library holds URLs as plain serialized strings; what only the
//! `url` crate can compute — parsing and reference resolution — stands
//! behind the two trusted wrappers here.

use vstd::prelude::*;

verus! {

/// The serialization of `s` parsed as an absolute URL, `None` when `s`
/// is not one.  `url::Url::parse` computes it from its input alone.
pub uninterp spec fn url_norm(s: Seq<char>) -> Option<Seq<char>>;

/// The serialization of the reference `rel` resolved against the
/// absolute URL `base`, `None` when parsing or resolution fails.
/// `url::Url::join` computes it from its inputs alone.
pub uninterp spec fn url_join_norm(base: Seq<char>, rel: Seq<char>) -> Option<Seq<char>>;

/// Relies on `url::Url::parse` and `url::Url::as_str`: parsing succeeds
/// exactly on absolute URLs, `as_str` returns the parsed URL's
/// serialization, and the crate documents that parsing a serialization
/// returns the same URL again, so the serialization is a fixed point.
#[verifier::external_body]
pub(crate) fn parse_url(s: &str) -> (r: Option<String>)
    ensures
        r matches Some(u) ==> url_norm(s@) == Some(u@) && url_norm(u@) == Some(u@),
        r is None <==> url_norm(s@) is None,
{
    match url::Url::parse(s) {
        Ok(u) => Some(String::from(u.as_str())),
        Err(_) => None,
    }
}

/// Relies on `url::Url::parse`, `url::Url::join` and `url::Url::as_str`:
/// the resolved URL's serialization is a function of the two strings.
#[verifier::external_body]
pub(crate) fn join_url(base: &str, rel: &str) -> (r: Option<String>)
    ensures
        r matches Some(u) ==> url_join_norm(base@, rel@) == Some(u@),
        r is None <==> url_join_norm(base@, rel@) is None,
{
    match url::Url::parse(base) {
        Ok(b) => match b.join(rel) {
            Ok(u) => Some(String::from(u.as_str())),
            Err(_) => None,
        },
        Err(_) => None,
    }
}

} // verus!
