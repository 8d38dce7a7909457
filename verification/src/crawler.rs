//! The wave-synchronized crawl engine.
//!
//! `CrawlState` holds the shared discovery state of one crawl: the set of
//! visited paths, the frontier of paths still to explore, and the set of
//! download links found so far. The caller drives the crawl: it takes a wave
//! off the frontier, fetches and probes pages, and feeds every canonicalized
//! reference back through [`CrawlState::consider_link`]. Every state change
//! is specified exactly by a transition function on the ghost model
//! [`CrawlModel`].

use vstd::prelude::*;

use crate::classify::{classify, classify_spec, Classification, CrawlPolicy, PolicyView};
use crate::strutil::{concat_str, drop_last_char, str_eq, vec_contains_str, vec_insert_unique};
use crate::urls::{parse_url, url_parse_of};
use crate::MirrorError;

verus! {

/// The two trailing-separator spellings of a path are treated as one for
/// visitation: `alias_of` is the spelling with the trailing character
/// removed.
pub open spec fn alias_of(p: Seq<char>) -> Seq<char> {
    if p.len() > 0 {
        p.drop_last()
    } else {
        p
    }
}

/// One recorded download link: the origin (scheme and host) and the
/// canonical absolute path on that host.
pub struct DownloadLink {
    /// `scheme://host`.
    pub origin: String,
    /// The absolute path, beginning with a separator.
    pub path: String,
}

/// The mathematical content of a `DownloadLink`.
#[verifier::ext_equal]
pub struct LinkModel {
    pub origin: Seq<char>,
    pub path: Seq<char>,
}

impl LinkModel {
    /// The full URL the link denotes.
    pub open spec fn url(self) -> Seq<char> {
        self.origin + self.path
    }
}

impl DownloadLink {
    pub open spec fn model(&self) -> LinkModel {
        LinkModel { origin: self.origin@, path: self.path@ }
    }

    /// The full URL the link denotes.
    pub open spec fn url_view(&self) -> Seq<char> {
        self.model().url()
    }

    /// Renders the full URL.
    pub fn url(&self) -> (r: String)
        ensures
            r@ == self.url_view(),
    {
        concat_str(self.origin.as_str(), self.path.as_str())
    }
}

impl Clone for DownloadLink {
    fn clone(&self) -> (r: Self)
        ensures
            r.model() == self.model(),
    {
        DownloadLink { origin: self.origin.clone(), path: self.path.clone() }
    }
}

/// The mathematical model of one crawl's discovery state.
#[verifier::ext_equal]
pub struct CrawlModel {
    pub policy: PolicyView,
    /// Paths already explored or scheduled, plus the seeded roots.
    pub visited: Set<Seq<char>>,
    /// Paths waiting to be explored in the next wave, oldest first.
    pub frontier: Seq<Seq<char>>,
    /// Download links recorded so far, in discovery order, unique by URL.
    pub downloads: Seq<LinkModel>,
}

impl CrawlModel {
    /// The state at the start of a crawl: the synthetic root `"/"` and both
    /// trailing-separator spellings of the crawl root's parent are visited,
    /// and the root path forms the first wave.
    pub open spec fn seeded(policy: PolicyView, root_path: Seq<char>, parent_path: Seq<char>) -> CrawlModel {
        CrawlModel {
            policy,
            visited: set!["/"@, parent_path, alias_of(parent_path)],
            frontier: seq![root_path],
            downloads: seq![],
        }
    }

    /// Whether exploring `p` would do new work.
    pub open spec fn is_fresh(self, p: Seq<char>) -> bool {
        !self.visited.contains(p)
    }

    /// Marking `p` explored: both spellings of `p` become visited; an
    /// already-visited `p` changes nothing.
    pub open spec fn begin_step(self, p: Seq<char>) -> CrawlModel {
        if self.visited.contains(p) {
            self
        } else {
            CrawlModel { visited: self.visited.insert(p).insert(alias_of(p)), ..self }
        }
    }

    /// Whether some recorded download already has URL `url`.
    pub open spec fn has_download_url(self, url: Seq<char>) -> bool {
        exists|i: int| 0 <= i < self.downloads.len() && self.downloads[i].url() == url
    }

    /// Recording one canonicalized reference. A visited path contributes
    /// nothing. Otherwise the path is classified: a recurse path joins the
    /// frontier, a download path joins the download set (once per URL), and
    /// a skipped path contributes nothing.
    pub open spec fn link_step(self, scheme: Seq<char>, host: Seq<char>, p: Seq<char>) -> CrawlModel {
        if self.visited.contains(p) {
            self
        } else {
            match classify_spec(p, self.policy) {
                Classification::Recurse => CrawlModel { frontier: self.frontier.push(p), ..self },
                Classification::Download => {
                    let link = LinkModel { origin: scheme + ":"@ + "//"@ + host, path: p };
                    if self.has_download_url(link.url()) {
                        self
                    } else {
                        CrawlModel { downloads: self.downloads.push(link), ..self }
                    }
                },
                Classification::Skip => self,
            }
        }
    }

    /// Taking a wave: the frontier is emptied; nothing else changes.
    pub open spec fn wave_step(self) -> CrawlModel {
        CrawlModel { frontier: seq![], ..self }
    }

    /// Every recorded download is classified as a download.
    pub open spec fn downloads_classified(self) -> bool {
        forall|i: int|
            0 <= i < self.downloads.len() ==> classify_spec(#[trigger] self.downloads[i].path, self.policy)
                == Classification::Download
    }

    /// Every frontier path is classified as a recurse path. This holds of
    /// every frontier formed after the first wave was taken, since from then
    /// on the frontier grows only through `link_step`.
    pub open spec fn frontier_all_recurse(self) -> bool {
        forall|i: int|
            0 <= i < self.frontier.len() ==> classify_spec(#[trigger] self.frontier[i], self.policy)
                == Classification::Recurse
    }
}

/// The visited set is a superset of the seeds and of every dispatched wave
/// member, throughout the crawl: seeding puts in the synthetic root and both
/// spellings of the crawl root's parent; marking a wave member visited adds
/// the member and its spelling alias; and no step ever removes a visited
/// path.
pub proof fn lemma_visited_superset(
    pol: PolicyView,
    root: Seq<char>,
    parent: Seq<char>,
    m: CrawlModel,
    p: Seq<char>,
    scheme: Seq<char>,
    host: Seq<char>,
    q: Seq<char>,
)
    ensures
        CrawlModel::seeded(pol, root, parent).visited.contains("/"@),
        CrawlModel::seeded(pol, root, parent).visited.contains(parent),
        CrawlModel::seeded(pol, root, parent).visited.contains(alias_of(parent)),
        m.begin_step(p).visited.contains(p),
        m.is_fresh(p) ==> m.begin_step(p).visited.contains(alias_of(p)),
        m.visited.subset_of(m.begin_step(p).visited),
        m.link_step(scheme, host, q).visited == m.visited,
        m.wave_step().visited == m.visited,
{
}

/// Well-formedness guarantees that every recorded download is
/// download-classified.
pub proof fn lemma_wf_downloads_classified(s: &CrawlState)
    requires
        s.wf(),
    ensures
        s@.downloads_classified(),
{
}

/// A download link never reappears in a later frontier: once the first wave
/// has been taken, every frontier path classifies as recurse while every
/// recorded download path classifies as download.
pub proof fn lemma_downloads_frontier_disjoint(m: CrawlModel)
    requires
        m.downloads_classified(),
        m.frontier_all_recurse(),
    ensures
        forall|i: int, j: int|
            0 <= i < m.downloads.len() && 0 <= j < m.frontier.len() ==> #[trigger] m.downloads[i].path
                != #[trigger] m.frontier[j],
{
}

/// `link_step` keeps `downloads_classified` and `frontier_all_recurse`:
/// the frontier gains only recurse paths and the download set gains only
/// download paths.
pub proof fn lemma_link_step_preserves(m: CrawlModel, scheme: Seq<char>, host: Seq<char>, p: Seq<char>)
    ensures
        m.downloads_classified() ==> m.link_step(scheme, host, p).downloads_classified(),
        m.frontier_all_recurse() ==> m.link_step(scheme, host, p).frontier_all_recurse(),
{
    let next = m.link_step(scheme, host, p);
    if !m.visited.contains(p) {
        match classify_spec(p, m.policy) {
            Classification::Recurse => {
                assert(forall|i: int|
                    0 <= i < m.frontier.len() ==> next.frontier[i] == m.frontier[i]);
            },
            Classification::Download => {
                if !m.has_download_url((LinkModel { origin: scheme + ":"@ + "//"@ + host, path: p }).url()) {
                    assert(forall|i: int|
                        0 <= i < m.downloads.len() ==> next.downloads[i] == m.downloads[i]);
                }
            },
            Classification::Skip => {},
        }
    }
}

/// The shared discovery state of one crawl.
pub struct CrawlState {
    policy: CrawlPolicy,
    visited: Vec<String>,
    frontier: Vec<String>,
    downloads: Vec<DownloadLink>,
}

impl View for CrawlState {
    type V = CrawlModel;

    closed spec fn view(&self) -> CrawlModel {
        CrawlModel {
            policy: self.policy@,
            visited: self.visited.deep_view().to_set(),
            frontier: self.frontier.deep_view(),
            downloads: self.downloads@.map_values(|l: DownloadLink| l.model()),
        }
    }
}

impl CrawlState {
    /// Well-formedness: visited paths and download URLs are stored without
    /// duplicates, and every recorded download is download-classified.
    /// Constructors establish it and every method preserves it.
    pub closed spec fn wf(&self) -> bool {
        &&& forall|i: int, j: int|
            0 <= i < j < self.visited@.len() ==> self.visited.deep_view()[i]
                != self.visited.deep_view()[j]
        &&& forall|i: int, j: int|
            0 <= i < j < self.downloads@.len() ==> (#[trigger] self.downloads@[i].url_view())
                != (#[trigger] self.downloads@[j].url_view())
        &&& self@.downloads_classified()
    }

    /// Starts a crawl of `root_path`, whose parent directory is
    /// `parent_path`: seeds the visited set with the synthetic root and both
    /// spellings of the parent, and the frontier with the root path.
    pub fn new(policy: CrawlPolicy, root_path: &str, parent_path: &str) -> (s: Self)
        ensures
            s@ == CrawlModel::seeded(policy@, root_path@, parent_path@),
            s.wf(),
    {
        let mut visited: Vec<String> = Vec::new();
        vec_insert_unique(&mut visited, "/".to_owned());
        vec_insert_unique(&mut visited, parent_path.to_owned());
        let alias = drop_last_char(parent_path);
        proof {
            assert(alias@ == alias_of(parent_path@));
        }
        vec_insert_unique(&mut visited, alias);
        let mut frontier: Vec<String> = Vec::new();
        frontier.push(root_path.to_owned());
        let s = CrawlState { policy, visited, frontier, downloads: Vec::new() };
        proof {
            assert(s@.visited =~= CrawlModel::seeded(policy@, root_path@, parent_path@).visited);
            assert(s@.frontier =~= seq![root_path@]);
            assert(s@.downloads =~= Seq::<LinkModel>::empty());
            assert(s@ =~= CrawlModel::seeded(policy@, root_path@, parent_path@));
        }
        s
    }

    /// Takes the current frontier as the next wave, leaving the frontier
    /// empty.
    pub fn take_wave(&mut self) -> (wave: Vec<String>)
        requires
            old(self).wf(),
        ensures
            final(self).wf(),
            wave.deep_view() == old(self)@.frontier,
            final(self)@ == old(self)@.wave_step(),
            final(self)@.frontier_all_recurse(),
    {
        let mut wave: Vec<String> = Vec::new();
        core::mem::swap(&mut wave, &mut self.frontier);
        proof {
            assert(final(self)@ =~= old(self)@.wave_step());
        }
        wave
    }

    /// Marks `path` (in both its spellings) as visited. Returns whether the
    /// path was fresh; exploring an already-visited path is a no-op.
    pub fn begin_path(&mut self, path: &str) -> (fresh: bool)
        requires
            old(self).wf(),
        ensures
            final(self).wf(),
            fresh == old(self)@.is_fresh(path@),
            final(self)@ == old(self)@.begin_step(path@),
    {
        if vec_contains_str(&self.visited, path) {
            proof {
                assert(final(self)@ =~= old(self)@.begin_step(path@));
            }
            return false;
        }
        vec_insert_unique(&mut self.visited, path.to_owned());
        let alias = drop_last_char(path);
        proof {
            assert(alias@ == alias_of(path@));
        }
        vec_insert_unique(&mut self.visited, alias);
        proof {
            assert(final(self)@.visited =~= old(self)@.begin_step(path@).visited);
            assert(final(self)@ =~= old(self)@.begin_step(path@));
        }
        true
    }

    /// Whether some recorded download already has URL `url`.
    fn has_download(&self, url: &str) -> (b: bool)
        ensures
            b == self@.has_download_url(url@),
    {
        let mut i: usize = 0;
        while i < self.downloads.len()
            invariant
                i <= self.downloads@.len(),
                forall|j: int| 0 <= j < i ==> (#[trigger] self@.downloads[j].url()) != url@,
            decreases self.downloads@.len() - i,
        {
            let u = self.downloads[i].url();
            if str_eq(u.as_str(), url) {
                assert(self@.downloads[i as int].url() == url@);
                return true;
            }
            i += 1;
        }
        false
    }

    /// Records one canonicalized reference, discovered on a listing page and
    /// probed to origin `scheme://host` and absolute path `path`: an
    /// unvisited, unexcluded path joins the frontier when it classifies as
    /// recurse, or the download set (once per URL) when it classifies as a
    /// download.
    pub fn consider_link(&mut self, scheme: &str, host: &str, path: &str)
        requires
            old(self).wf(),
        ensures
            final(self).wf(),
            final(self)@ == old(self)@.link_step(scheme@, host@, path@),
    {
        proof {
            lemma_link_step_preserves(old(self)@, scheme@, host@, path@);
        }
        if vec_contains_str(&self.visited, path) {
            proof {
                assert(final(self)@ =~= old(self)@.link_step(scheme@, host@, path@));
            }
            return;
        }
        match classify(path, &self.policy) {
            Classification::Recurse => {
                self.frontier.push(path.to_owned());
                proof {
                    assert(final(self)@.frontier =~= old(self)@.frontier.push(path@));
                    assert(final(self)@ =~= old(self)@.link_step(scheme@, host@, path@));
                }
            },
            Classification::Download => {
                let origin = concat_str(concat_str(scheme, ":").as_str(), concat_str("//", host).as_str());
                let link = DownloadLink { origin, path: path.to_owned() };
                proof {
                    assert(link.model() =~= (LinkModel {
                        origin: scheme@ + ":"@ + "//"@ + host@,
                        path: path@,
                    }));
                }
                let url = link.url();
                if !self.has_download(url.as_str()) {
                    let ghost old_links = self.downloads@;
                    let ghost old_model = self@;
                    self.downloads.push(link);
                    proof {
                        assert(final(self)@.downloads =~= old(self)@.downloads.push(link.model()));
                        assert(final(self)@ =~= old(self)@.link_step(scheme@, host@, path@));
                        assert forall|i: int, j: int|
                            0 <= i < j < self.downloads@.len() implies (
                        #[trigger] self.downloads@[i].url_view()) != (
                        #[trigger] self.downloads@[j].url_view()) by {
                            if j == self.downloads@.len() - 1 {
                                assert(old_model.downloads[i] == old_links[i].model());
                                assert(!old_model.has_download_url(url@));
                                assert(old_model.downloads[i].url() != url@);
                            }
                        }
                    }
                } else {
                    proof {
                        assert(final(self)@ =~= old(self)@.link_step(scheme@, host@, path@));
                    }
                }
            },
            Classification::Skip => {
                proof {
                    assert(final(self)@ =~= old(self)@.link_step(scheme@, host@, path@));
                }
            },
        }
    }

    /// Whether the frontier is empty; the crawl is complete exactly then.
    pub fn frontier_is_empty(&self) -> (b: bool)
        ensures
            b == (self@.frontier.len() == 0),
    {
        self.frontier.len() == 0
    }

    /// The number of paths in the frontier.
    pub fn frontier_len(&self) -> (n: usize)
        ensures
            n == self@.frontier.len(),
    {
        self.frontier.len()
    }

    /// The number of visited paths.
    pub fn visited_count(&self) -> (n: usize)
        requires
            self.wf(),
        ensures
            n == self@.visited.len(),
    {
        proof {
            self.visited.deep_view().unique_seq_to_set();
        }
        self.visited.len()
    }

    /// Whether `path` has been visited.
    pub fn visited_contains(&self, path: &str) -> (b: bool)
        ensures
            b == self@.visited.contains(path@),
    {
        vec_contains_str(&self.visited, path)
    }

    /// The number of download links recorded.
    pub fn download_count(&self) -> (n: usize)
        ensures
            n == self@.downloads.len(),
    {
        self.downloads.len()
    }

    /// The download links recorded so far.
    pub fn downloads(&self) -> (r: &Vec<DownloadLink>)
        ensures
            r@.map_values(|l: DownloadLink| l.model()) == self@.downloads,
    {
        &self.downloads
    }
}

/// Prepares the crawl of `root_url`: derives the root's path and its parent
/// directory's path (the root URL with a relative parent reference appended,
/// normalized by URL parsing), and seeds the crawl state. An unparseable
/// root URL is a parse failure.
pub fn start_crawl(policy: CrawlPolicy, root_url: &str) -> (r: Result<CrawlState, MirrorError>)
    ensures
        match r {
            Ok(s) => {
                &&& s.wf()
                &&& match (url_parse_of(root_url@ + ".."@), url_parse_of(root_url@)) {
                    (Some(parent), Some(root)) => s@ == CrawlModel::seeded(
                        policy@,
                        root.1,
                        parent.1,
                    ),
                    _ => false,
                }
            },
            Err(e) => {
                &&& e == MirrorError::Parse
                &&& (url_parse_of(root_url@ + ".."@) is None || url_parse_of(root_url@) is None)
            },
        },
{
    let parent_url = concat_str(root_url, "..");
    match parse_url(parent_url.as_str()) {
        Some(parent) => match parse_url(root_url) {
            Some(root) => Ok(CrawlState::new(policy, root.path.as_str(), parent.path.as_str())),
            None => Err(MirrorError::Parse),
        },
        None => Err(MirrorError::Parse),
    }
}

} // verus!
