//! URL parsing and reference resolution, through the url crate. Both are
//! pure functions of their string arguments, so they are specified through
//! named results; the base-resolution and reference-resolution logic on top
//! of them is verified.

use vstd::prelude::*;

use crate::html::{anchor_hrefs_of, base_href_of, doc_anchor_hrefs, doc_base_href};
use crate::MirrorError;

verus! {

/// What parsing the string `s` as an absolute URL yields: the URL's
/// serialization before its path, and its path; or nothing when `s` is not
/// an absolute URL.
pub uninterp spec fn url_parse_of(s: Seq<char>) -> Option<(Seq<char>, Seq<char>)>;

/// What resolving the reference `rel` against the base URL `base` yields:
/// the joined URL's serialization, or nothing when `base` is not an absolute
/// URL or `rel` cannot be resolved against it.
pub uninterp spec fn url_join_of(base: Seq<char>, rel: Seq<char>) -> Option<Seq<char>>;

/// The components of a parsed URL that the crawl reads.
pub(crate) struct UrlParts {
    /// Everything before the path: scheme and authority.
    pub prefix: String,
    /// The URL's path, beginning with a separator.
    pub path: String,
}

/// Relies on url's `Url::parse`; the prefix and path read the parsed URL's
/// serialization before its path, and its path.
#[verifier::external_body]
pub(crate) fn parse_url(s: &str) -> (r: Option<UrlParts>)
    ensures
        match r {
            Some(parts) => url_parse_of(s@) == Some((parts.prefix@, parts.path@)),
            None => url_parse_of(s@) is None,
        },
{
    match url::Url::parse(s) {
        Ok(u) => {
            let prefix = u[..url::Position::BeforePath].to_string();
            let path = u.path().to_string();
            Some(UrlParts { prefix, path })
        },
        Err(_) => None,
    }
}

/// Relies on url's `Url::parse` and `Url::join`: resolves `rel` against
/// `base` and yields the joined URL's serialization.
#[verifier::external_body]
pub(crate) fn join_url(base: &str, rel: &str) -> (r: Option<String>)
    ensures
        match r {
            Some(u) => url_join_of(base@, rel@) == Some(u@),
            None => url_join_of(base@, rel@) is None,
        },
{
    match url::Url::parse(base) {
        Ok(b) => match b.join(rel) {
            Ok(u) => Some(u.as_str().to_string()),
            Err(_) => None,
        },
        Err(_) => None,
    }
}

/// The base URL against which a listing page's references resolve: an
/// explicit, well-formed base declaration in the document wins; with no
/// declaration the base is the page URL's prefix before its path; anything
/// else is a parse failure.
pub open spec fn resolved_base_of(page_url: Seq<char>, doc: Seq<char>) -> Option<Seq<char>> {
    match base_href_of(doc) {
        Some(h) => if url_parse_of(h) is Some {
            Some(h)
        } else {
            None
        },
        None => match url_parse_of(page_url) {
            Some(parts) => Some(parts.0),
            None => None,
        },
    }
}

/// Determines the canonical base URL of the listing page fetched from
/// `page_url` with document text `doc`.
pub fn resolve_base_url(page_url: &str, doc: &str) -> (r: Result<String, MirrorError>)
    ensures
        match r {
            Ok(b) => resolved_base_of(page_url@, doc@) == Some(b@),
            Err(e) => e == MirrorError::Parse && resolved_base_of(page_url@, doc@) is None,
        },
{
    match doc_base_href(doc) {
        Some(h) => match parse_url(h.as_str()) {
            Some(_) => Ok(h),
            None => Err(MirrorError::Parse),
        },
        None => match parse_url(page_url) {
            Some(parts) => Ok(parts.prefix),
            None => Err(MirrorError::Parse),
        },
    }
}

/// The URL at which a wave path is fetched: the path resolved against the
/// crawl's base URL. An unresolvable path is a parse failure.
pub fn wave_page_url(base: &str, path: &str) -> (r: Result<String, MirrorError>)
    ensures
        match r {
            Ok(u) => url_join_of(base@, path@) == Some(u@),
            Err(e) => e == MirrorError::Parse && url_join_of(base@, path@) is None,
        },
{
    match join_url(base, path) {
        Some(u) => Ok(u),
        None => Err(MirrorError::Parse),
    }
}

/// Resolves every anchor reference of a fetched listing page against the
/// page's own URL, yielding the absolute URLs to probe, in document order.
/// A single unresolvable reference fails the page, as a parse failure.
pub fn reference_targets(page_url: &str, doc: &str) -> (r: Result<Vec<String>, MirrorError>)
    ensures
        match r {
            Ok(v) => {
                &&& v@.len() == anchor_hrefs_of(doc@).len()
                &&& forall|i: int|
                    0 <= i < v@.len() ==> url_join_of(page_url@, anchor_hrefs_of(doc@)[i])
                        == Some(#[trigger] v@[i]@)
            },
            Err(e) => {
                &&& e == MirrorError::Parse
                &&& exists|i: int|
                    0 <= i < anchor_hrefs_of(doc@).len() && url_join_of(
                        page_url@,
                        #[trigger] anchor_hrefs_of(doc@)[i],
                    ) is None
            },
        },
{
    let hrefs = doc_anchor_hrefs(doc);
    let mut out: Vec<String> = Vec::new();
    let mut i: usize = 0;
    while i < hrefs.len()
        invariant
            i <= hrefs@.len(),
            hrefs.deep_view() == anchor_hrefs_of(doc@),
            out@.len() == i,
            forall|j: int|
                0 <= j < i ==> url_join_of(page_url@, anchor_hrefs_of(doc@)[j]) == Some(
                    #[trigger] out@[j]@,
                ),
        decreases hrefs@.len() - i,
    {
        assert(hrefs@[i as int]@ == anchor_hrefs_of(doc@)[i as int]);
        match join_url(page_url, hrefs[i].as_str()) {
            Some(u) => {
                out.push(u);
            },
            None => {
                assert(url_join_of(page_url@, anchor_hrefs_of(doc@)[i as int]) is None);
                return Err(MirrorError::Parse);
            },
        }
        i += 1;
    }
    Ok(out)
}

} // verus!
