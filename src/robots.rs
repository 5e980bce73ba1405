//! The robots.txt gate, read through robotstxt-rs.

use vstd::prelude::*;
use crate::address::{join_url, url_join_of, url_path, url_path_of};
use crate::text::opt_view;

verus! {

/// The identity under which the crawler asks robots.txt for permission.
pub const CRAWLER_AGENT: &'static str = "DataSniffingCaramelo";

/// Where robots.txt lives under an origin.
pub const ROBOTS_PATH: &'static str = "/robots.txt";

/// Whether robotstxt-rs, reading the robots.txt text `content`, lets the
/// user agent `agent` fetch the path `path`.
pub uninterp spec fn robots_allow_of(content: Seq<char>, agent: Seq<char>, path: Seq<char>) -> bool;

/// Relies on robotstxt-rs's `RobotsTxt::parse` and `RobotsTxt::can_fetch` to
/// decide whether `agent` may fetch `path` under `content`.
#[verifier::external_body]
fn robots_can_fetch(content: &str, agent: &str, path: &str) -> (r: bool)
    ensures
        r == robots_allow_of(content@, agent@, path@),
{
    robotstxt_rs::RobotsTxt::parse(content).can_fetch(agent, path)
}

/// Where the robots.txt that governs `url` lives: `/robots.txt` at its origin.
pub fn robots_url(url: &str) -> (r: Option<String>)
    ensures
        opt_view(r) == url_join_of(url@, ROBOTS_PATH@),
{
    join_url(url, ROBOTS_PATH)
}

/// Whether the crawler may fetch `url`, given the text of the robots.txt at its
/// origin, or `None` where that could not be fetched. Where robots.txt could not
/// be fetched the answer is no.
pub fn check_robots(robots_txt: Option<&str>, url: &str) -> (r: bool)
    ensures
        r == match robots_txt {
            Some(t) => robots_allow_of(t@, CRAWLER_AGENT@, url_path_of(url@)),
            None => false,
        },
{
    match robots_txt {
        Some(t) => {
            let path = url_path(url);
            robots_can_fetch(t, CRAWLER_AGENT, path.as_str())
        },
        None => false,
    }
}

} // verus!
