//! Anchor and base-declaration extraction from listing pages, through the
//! select crate. Parsing an HTML document is a pure function of its text, so
//! both extractions are specified through named results.

use vstd::prelude::*;

verus! {

/// The href attributes of the anchor elements of the HTML document with text
/// `doc`, in document order.
pub uninterp spec fn anchor_hrefs_of(doc: Seq<char>) -> Seq<Seq<char>>;

/// The href attribute of the first base element of the HTML document with
/// text `doc`, if the document declares one.
pub uninterp spec fn base_href_of(doc: Seq<char>) -> Option<Seq<char>>;

/// Relies on select's `Document::from` (html5ever parsing), `Document::find`
/// with the `Name("a")` predicate, and `Node::attr`: collects the href
/// attribute of every anchor element, in document order.
#[verifier::external_body]
pub(crate) fn doc_anchor_hrefs(doc: &str) -> (r: Vec<String>)
    ensures
        r.deep_view() == anchor_hrefs_of(doc@),
{
    select::document::Document::from(doc)
        .find(select::predicate::Name("a"))
        .filter_map(|n| n.attr("href"))
        .map(|s| s.to_string())
        .collect()
}

/// Relies on select's `Document::from`, `Document::find` with the
/// `Name("base")` predicate, and `Node::attr`: returns the href attribute of
/// the document's first base element, if any.
#[verifier::external_body]
pub(crate) fn doc_base_href(doc: &str) -> (r: Option<String>)
    ensures
        match r {
            Some(h) => base_href_of(doc@) == Some(h@),
            None => base_href_of(doc@) is None,
        },
{
    select::document::Document::from(doc)
        .find(select::predicate::Name("base"))
        .filter_map(|n| n.attr("href"))
        .next()
        .map(|s| s.to_string())
}

} // verus!
