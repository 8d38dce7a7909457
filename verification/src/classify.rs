//! The link-classification policy: a pure decision function mapping a
//! canonical path to recurse / download / skip, under a configured set of
//! markers.

use vstd::prelude::*;

use crate::strutil::{contains_seq, ends_with_seq, str_contains, str_ends_with};

verus! {

/// What the crawler should do with a discovered path.
#[derive(Clone, Copy, Debug, PartialEq, Eq, Structural)]
pub enum Classification {
    /// A listing page: explore it in a later wave.
    Recurse,
    /// A content file: record it for the download stage.
    Download,
    /// Neither explored nor downloaded.
    Skip,
}

/// The configured markers that drive classification.
///
/// Paths carrying any of the three exclusion markers are skipped outright.
/// Paths under the mirror subtree (`mirror_marker`) hold content files that
/// must be downloaded but never recursed into. Paths under the content
/// directory (`content_dir`) are downloads only when they carry the content
/// name prefix (`content_prefix`).
pub struct CrawlPolicy {
    /// Marker of an index page, e.g. an index filename.
    pub index_marker: String,
    /// First temporary-file marker.
    pub tmp_marker: String,
    /// Second temporary-file marker.
    pub ztmp_marker: String,
    /// Marker of the mirror subtree.
    pub mirror_marker: String,
    /// Marker of the content directory.
    pub content_dir: String,
    /// Filename prefix of content inside the content directory.
    pub content_prefix: String,
}

/// The mathematical content of a `CrawlPolicy`.
pub struct PolicyView {
    pub index_marker: Seq<char>,
    pub tmp_marker: Seq<char>,
    pub ztmp_marker: Seq<char>,
    pub mirror_marker: Seq<char>,
    pub content_dir: Seq<char>,
    pub content_prefix: Seq<char>,
}

impl View for CrawlPolicy {
    type V = PolicyView;

    open spec fn view(&self) -> PolicyView {
        PolicyView {
            index_marker: self.index_marker@,
            tmp_marker: self.tmp_marker@,
            ztmp_marker: self.ztmp_marker@,
            mirror_marker: self.mirror_marker@,
            content_dir: self.content_dir@,
            content_prefix: self.content_prefix@,
        }
    }
}

impl Clone for CrawlPolicy {
    fn clone(&self) -> (r: Self)
        ensures
            r@ == self@,
    {
        CrawlPolicy {
            index_marker: self.index_marker.clone(),
            tmp_marker: self.tmp_marker.clone(),
            ztmp_marker: self.ztmp_marker.clone(),
            mirror_marker: self.mirror_marker.clone(),
            content_dir: self.content_dir.clone(),
            content_prefix: self.content_prefix.clone(),
        }
    }
}

impl CrawlPolicy {
    /// The marker configuration this mirror was built for: an index-page
    /// marker and two temporary-file markers to exclude, the mirror-subtree
    /// marker, and the content directory with its content filename prefix.
    pub fn standard() -> (p: CrawlPolicy)
        ensures
            p@.index_marker == "index.html"@,
            p@.tmp_marker == ".tmp"@,
            p@.ztmp_marker == ".ztmp"@,
            p@.mirror_marker == "gflfastdlv2"@,
            p@.content_dir == "maps/"@,
            p@.content_prefix == "ze_"@,
    {
        CrawlPolicy {
            index_marker: "index.html".to_owned(),
            tmp_marker: ".tmp".to_owned(),
            ztmp_marker: ".ztmp".to_owned(),
            mirror_marker: "gflfastdlv2".to_owned(),
            content_dir: "maps/".to_owned(),
            content_prefix: "ze_".to_owned(),
        }
    }
}

/// A path is excluded when it carries the index marker or either
/// temporary-file marker.
pub open spec fn is_excluded_spec(p: Seq<char>, pol: PolicyView) -> bool {
    ||| contains_seq(p, pol.index_marker)
    ||| contains_seq(p, pol.tmp_marker)
    ||| contains_seq(p, pol.ztmp_marker)
}

/// The classification policy, as a pure function of the path and the
/// configured markers.
///
/// Excluded paths are skipped. A path under the content directory is a
/// download exactly when it carries the content prefix. Any other path under
/// the mirror subtree is a download exactly when it does not look like a
/// directory (no trailing separator). Every other path is recursed into.
pub open spec fn classify_spec(p: Seq<char>, pol: PolicyView) -> Classification {
    if is_excluded_spec(p, pol) {
        Classification::Skip
    } else if contains_seq(p, pol.content_dir) {
        if contains_seq(p, pol.content_prefix) {
            Classification::Download
        } else {
            Classification::Skip
        }
    } else if contains_seq(p, pol.mirror_marker) {
        if ends_with_seq(p, seq!['/']) {
            Classification::Skip
        } else {
            Classification::Download
        }
    } else {
        Classification::Recurse
    }
}

/// Whether `path` carries the index marker or either temporary-file marker.
pub fn is_excluded(path: &str, policy: &CrawlPolicy) -> (b: bool)
    ensures
        b == is_excluded_spec(path@, policy@),
{
    str_contains(path, policy.index_marker.as_str()) || str_contains(
        path,
        policy.tmp_marker.as_str(),
    ) || str_contains(path, policy.ztmp_marker.as_str())
}

/// Classifies `path` under `policy`.
pub fn classify(path: &str, policy: &CrawlPolicy) -> (c: Classification)
    ensures
        c == classify_spec(path@, policy@),
{
    if is_excluded(path, policy) {
        Classification::Skip
    } else if str_contains(path, policy.content_dir.as_str()) {
        if str_contains(path, policy.content_prefix.as_str()) {
            Classification::Download
        } else {
            Classification::Skip
        }
    } else if str_contains(path, policy.mirror_marker.as_str()) {
        let sep = str_ends_with(path, "/");
        proof {
            reveal_strlit("/");
            assert("/"@ =~= seq!['/']);
        }
        if sep {
            Classification::Skip
        } else {
            Classification::Download
        }
    } else {
        Classification::Recurse
    }
}

/// Classification is deterministic: identical path and markers always give
/// the identical result, with no dependence on crawl order or time.
pub proof fn lemma_classify_deterministic(
    p1: Seq<char>,
    pol1: PolicyView,
    p2: Seq<char>,
    pol2: PolicyView,
)
    requires
        p1 == p2,
        pol1 == pol2,
    ensures
        classify_spec(p1, pol1) == classify_spec(p2, pol2),
{
}

/// A path carrying an exclusion marker is never classified as a download.
pub proof fn lemma_excluded_never_download(p: Seq<char>, pol: PolicyView)
    requires
        is_excluded_spec(p, pol),
    ensures
        classify_spec(p, pol) != Classification::Download,
{
}

} // verus!
