//! Reading HTML documents, through the scraper crate.

use vstd::prelude::*;
use crate::text::{join_texts, joined, opt_views_of, views_of};

verus! {

/// The text nodes under the root element of the HTML document `html`, in the
/// order that scraper's `ElementRef::text` walks them.
pub uninterp spec fn document_text_nodes_of(html: Seq<char>) -> Seq<Seq<char>>;

/// For each element of the HTML document `html` that the CSS selector `selector`
/// matches, in the order that scraper's `Html::select` yields them, the value of
/// its attribute `attr`. Empty where `selector` is not a valid selector.
pub uninterp spec fn selected_attrs_of(
    html: Seq<char>,
    selector: Seq<char>,
    attr: Seq<char>,
) -> Seq<Option<Seq<char>>>;

/// For each element of the HTML document `html` that the CSS selector `selector`
/// matches, in the order that scraper's `Html::select` yields them, its text
/// nodes. Empty where `selector` is not a valid selector.
pub uninterp spec fn selected_text_nodes_of(html: Seq<char>, selector: Seq<char>) -> Seq<Seq<Seq<char>>>;

/// The text of the HTML document `html`: its text nodes joined by single spaces.
pub open spec fn document_text_of(html: Seq<char>) -> Seq<char> {
    joined(document_text_nodes_of(html), " "@)
}

/// The text of each element of `html` that `selector` matches: its text nodes
/// run together.
pub open spec fn selected_texts_of(html: Seq<char>, selector: Seq<char>) -> Seq<Seq<char>> {
    selected_text_nodes_of(html, selector).map_values(|nodes: Seq<Seq<char>>| joined(nodes, ""@))
}

/// Relies on scraper's `Html::parse_document`, `Html::root_element` and
/// `ElementRef::text` for the text nodes of a document.
#[verifier::external_body]
fn document_text_nodes(html: &str) -> (r: Vec<String>)
    ensures
        views_of(r@) == document_text_nodes_of(html@),
{
    let doc = scraper::Html::parse_document(html);
    doc.root_element().text().map(String::from).collect()
}

/// Relies on scraper's `Html::parse_document`, `Selector::parse`, `Html::select`
/// and `ElementRef::attr` for an attribute of each matching element.
#[verifier::external_body]
pub(crate) fn select_attr(html: &str, selector: &str, attr: &str) -> (r: Vec<Option<String>>)
    ensures
        opt_views_of(r@) == selected_attrs_of(html@, selector@, attr@),
{
    let doc = scraper::Html::parse_document(html);
    match scraper::Selector::parse(selector) {
        Ok(sel) => doc.select(&sel).map(|e| e.attr(attr).map(String::from)).collect(),
        Err(_) => Vec::new(),
    }
}

/// Relies on scraper's `Html::parse_document`, `Selector::parse`, `Html::select`
/// and `ElementRef::text` for the text nodes of each matching element.
#[verifier::external_body]
fn select_text_nodes(html: &str, selector: &str) -> (r: Vec<Vec<String>>)
    ensures
        r@.map_values(|nodes: Vec<String>| views_of(nodes@)) == selected_text_nodes_of(html@, selector@),
{
    let doc = scraper::Html::parse_document(html);
    match scraper::Selector::parse(selector) {
        Ok(sel) => doc.select(&sel).map(|e| e.text().map(String::from).collect()).collect(),
        Err(_) => Vec::new(),
    }
}

/// The text of a document: its text nodes joined by single spaces.
pub fn document_text(html: &str) -> (r: String)
    ensures
        r@ == document_text_of(html@),
{
    let nodes = document_text_nodes(html);
    join_texts(&nodes, " ")
}

/// The text of each element of `html` that `selector` matches.
pub fn select_text(html: &str, selector: &str) -> (r: Vec<String>)
    ensures
        views_of(r@) == selected_texts_of(html@, selector@),
{
    let all = select_text_nodes(html, selector);
    let ghost nodes = all@.map_values(|n: Vec<String>| views_of(n@));
    let mut r: Vec<String> = Vec::new();
    let mut i: usize = 0;
    while i < all.len()
        invariant
            i <= all@.len(),
            nodes == all@.map_values(|n: Vec<String>| views_of(n@)),
            views_of(r@) =~= nodes.subrange(0, i as int).map_values(
                |n: Seq<Seq<char>>| joined(n, ""@),
            ),
        decreases all@.len() - i,
    {
        let t = join_texts(&all[i], "");
        let ghost before = r@;
        r.push(t);
        proof {
            assert(views_of(r@) =~= views_of(before).push(t@));
            assert(nodes.subrange(0, i + 1) =~= nodes.subrange(0, i as int).push(nodes[i as int]));
        }
        i = i + 1;
    }
    proof {
        assert(nodes.subrange(0, all@.len() as int) =~= nodes);
    }
    r
}

} // verus!
