//! Verified core of a directory-listing mirror: a wave-synchronized crawler
//! over a remote listing tree, a pure link-classification policy, local-path
//! derivation for downloads, and corruption-aware decoding of compressed
//! sidecar files.

use vstd::prelude::*;

verus! {

/// The failure taxonomy of the mirror pipeline.
#[derive(Clone, Copy, Debug, PartialEq, Eq, Structural)]
pub enum MirrorError {
    /// A network or HTTP failure.
    Transport,
    /// A malformed URL or an unparseable document.
    Parse,
    /// A corrupt or truncated compressed stream.
    Decode,
    /// A create, write or delete failure on local storage.
    Filesystem,
}

} // verus!

pub mod classify;
pub mod crawler;
pub mod decode;
pub mod download;
pub mod html;
pub mod strutil;
pub mod urls;
