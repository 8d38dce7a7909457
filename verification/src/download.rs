//! The download stage's verified decisions: where a remote path lands
//! locally, and the retry policy of the fetch loop.

use vstd::prelude::*;

use crate::strutil::{concat_str, has_char, last_index_of, lemma_last_index_of, rfind_char, substring_copy};

verus! {

/// Where a download with absolute remote path `p` lands under the local
/// working root `cwd`: the directory is `cwd` followed by everything up to
/// the last separator of `p`, the filename is everything after it. A path
/// without a separator has no target.
pub open spec fn download_target_spec(cwd: Seq<char>, p: Seq<char>) -> Option<(Seq<char>, Seq<char>)> {
    if has_char(p, '/') {
        Some(
            (
                cwd + p.subrange(0, last_index_of(p, '/')),
                p.subrange(last_index_of(p, '/') + 1, p.len() as int),
            ),
        )
    } else {
        None
    }
}

/// Derives the local (directory, filename) pair at which the download with
/// remote path `path` lands, under the working root `cwd`.
pub fn download_target(cwd: &str, path: &str) -> (r: Option<(String, String)>)
    ensures
        match r {
            Some(t) => download_target_spec(cwd@, path@) == Some((t.0@, t.1@)),
            None => download_target_spec(cwd@, path@) is None,
        },
{
    match rfind_char(path, '/') {
        Some(i) => {
            proof {
                lemma_last_index_of(path@, '/');
            }
            let len = path.unicode_len();
            let dir_rel = substring_copy(path, 0, i);
            let dir = concat_str(cwd, dir_rel.as_str());
            let file = substring_copy(path, i + 1, len);
            Some((dir, file))
        },
        None => None,
    }
}

/// What the downloader's fetch loop does next.
#[derive(Clone, Copy, Debug, PartialEq, Eq, Structural)]
pub enum RetryStep {
    /// The body was fetched; this unit of work is finished.
    Done,
    /// A transport failure: wait the fixed interval, then retry the same
    /// fetch.
    RetryAfterDelay,
}

/// The downloader's retry policy: any transport failure is retried after a
/// fixed delay, indefinitely; only a successful fetch finishes the unit of
/// work. No attempt limit exists, by design.
pub fn retry_step(fetch_succeeded: bool) -> (s: RetryStep)
    ensures
        s == (if fetch_succeeded {
            RetryStep::Done
        } else {
            RetryStep::RetryAfterDelay
        }),
{
    if fetch_succeeded {
        RetryStep::Done
    } else {
        RetryStep::RetryAfterDelay
    }
}

} // verus!
