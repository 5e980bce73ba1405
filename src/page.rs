//! What the crawl reads from one fetched page: its text, its links and their scope.

use vstd::prelude::*;
use crate::address::{join_url, url_host, url_host_of, url_join_of};
use crate::html::{document_text, document_text_of, select_attr, selected_attrs_of};
use crate::text::{lower_of, lowercase, opt_view, opt_views_of, views_of};

verus! {

/// The CSS selector of the elements that carry links.
pub const ANCHOR_SELECTOR: &'static str = "a";

/// The attribute that holds a link's target.
pub const HREF_ATTR: &'static str = "href";

/// The lower-cased text of the HTML document `html`.
pub open spec fn page_text_of(html: Seq<char>) -> Seq<char> {
    lower_of(document_text_of(html))
}

/// Each present link target of `hrefs` resolved against `page`, in order,
/// leaving out those that do not resolve.
pub open spec fn resolved_links(page: Seq<char>, hrefs: Seq<Option<Seq<char>>>) -> Seq<Seq<char>>
    decreases hrefs.len(),
{
    if hrefs.len() == 0 {
        Seq::empty()
    } else {
        let rest = resolved_links(page, hrefs.drop_last());
        match hrefs.last() {
            Some(h) => match url_join_of(page, h) {
                Some(u) => rest.push(u),
                None => rest,
            },
            None => rest,
        }
    }
}

/// The absolute links of the HTML document `html`, fetched from `page`, in
/// document order.
pub open spec fn links_of(page: Seq<char>, html: Seq<char>) -> Seq<Seq<char>> {
    resolved_links(page, selected_attrs_of(html, ANCHOR_SELECTOR@, HREF_ATTR@))
}

/// The visible text of a page, lower-cased, its text nodes joined by spaces.
pub fn page_text(html: &str) -> (r: String)
    ensures
        r@ == page_text_of(html@),
{
    let raw = document_text(html);
    lowercase(raw.as_str())
}

/// The links of a page fetched from `page`, resolved against `page` itself.
pub fn page_links(page: &str, html: &str) -> (r: Vec<String>)
    ensures
        views_of(r@) == links_of(page@, html@),
{
    let hrefs = select_attr(html, ANCHOR_SELECTOR, HREF_ATTR);
    let ghost all = opt_views_of(hrefs@);
    let mut r: Vec<String> = Vec::new();
    let mut i: usize = 0;
    while i < hrefs.len()
        invariant
            i <= hrefs@.len(),
            all == opt_views_of(hrefs@),
            views_of(r@) == resolved_links(page@, all.subrange(0, i as int)),
        decreases hrefs@.len() - i,
    {
        assert(all.subrange(0, i + 1).drop_last() =~= all.subrange(0, i as int));
        match &hrefs[i] {
            Some(h) => {
                let joined = join_url(page, h.as_str());
                match joined {
                    Some(u) => {
                        let ghost before = r@;
                        r.push(u);
                        assert(views_of(r@) =~= views_of(before).push(u@));
                    },
                    None => {},
                }
            },
            None => {},
        }
        i = i + 1;
    }
    assert(all.subrange(0, hrefs@.len() as int) =~= all);
    r
}

/// Whether `url` has the host `base_host`: the crawl stays on one site.
pub fn in_scope(url: &str, base_host: &Option<String>) -> (r: bool)
    ensures
        r == (url_host_of(url@) == opt_view(*base_host)),
{
    let host = url_host(url);
    match host {
        Some(a) => match base_host {
            Some(b) => a == *b,
            None => false,
        },
        None => base_host.is_none(),
    }
}

} // verus!
