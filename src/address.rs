//! Web addresses, parsed and resolved by the URL type that reqwest exports.
//!
//! A URL is carried as its serialization; each operation parses it again.

use vstd::prelude::*;
use crate::text::opt_view;

verus! {

/// The serialization of the URL that `Url::parse` makes of `s`; none where it
/// refuses `s`.
pub uninterp spec fn url_parse_of(s: Seq<char>) -> Option<Seq<char>>;

/// The serialization of `href` resolved by `Url::join` against the URL that
/// `base` parses to; none where either step fails.
pub uninterp spec fn url_join_of(base: Seq<char>, href: Seq<char>) -> Option<Seq<char>>;

/// The host, as `Url::host_str` writes it, of the URL that `s` parses to; none
/// where it has no host or does not parse.
pub uninterp spec fn url_host_of(s: Seq<char>) -> Option<Seq<char>>;

/// The path, as `Url::path` writes it, of the URL that `s` parses to; empty
/// where it does not parse.
pub uninterp spec fn url_path_of(s: Seq<char>) -> Seq<char>;

/// Relies on `Url::parse` to read `s` as an absolute URL; the error is the
/// parser's message.
#[verifier::external_body]
pub(crate) fn parse_url(s: &str) -> (r: Result<String, String>)
    ensures
        match r {
            Ok(t) => url_parse_of(s@) == Some(t@),
            Err(_) => url_parse_of(s@) is None,
        },
{
    match reqwest::Url::parse(s) {
        Ok(u) => Ok(u.to_string()),
        Err(e) => Err(e.to_string()),
    }
}

/// Relies on `Url::parse` and `Url::join` to resolve `href` against `base`.
#[verifier::external_body]
pub(crate) fn join_url(base: &str, href: &str) -> (r: Option<String>)
    ensures
        opt_view(r) == url_join_of(base@, href@),
{
    match reqwest::Url::parse(base) {
        Ok(u) => u.join(href).ok().map(|j| j.to_string()),
        Err(_) => None,
    }
}

/// Relies on `Url::parse` and `Url::host_str` for the host of `s`.
#[verifier::external_body]
pub(crate) fn url_host(s: &str) -> (r: Option<String>)
    ensures
        opt_view(r) == url_host_of(s@),
{
    match reqwest::Url::parse(s) {
        Ok(u) => u.host_str().map(String::from),
        Err(_) => None,
    }
}

/// Relies on `Url::parse` and `Url::path` for the path of `s`.
#[verifier::external_body]
pub(crate) fn url_path(s: &str) -> (r: String)
    ensures
        r@ == url_path_of(s@),
{
    match reqwest::Url::parse(s) {
        Ok(u) => u.path().to_string(),
        Err(_) => String::new(),
    }
}

} // verus!
