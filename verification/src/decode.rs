//! The decode stage: corruption-aware decoding of compressed sidecar files.
//!
//! The caller scans local storage, reads each sidecar file's bytes, and asks
//! [`plan_decode`] what to do; it then writes the decoded output and settles
//! the file through [`after_write`]. A file is deleted only after its decoded
//! output was written; a corrupt file is recorded in [`CorruptFiles`] and
//! left untouched.

use std::io::Read;

use vstd::prelude::*;

use crate::strutil::{
    ends_with_seq, has_char, last_index_of, lemma_last_index_of, rfind_char, str_ends_with,
    substring_copy, vec_contains_str, vec_insert_unique,
};
use crate::MirrorError;

verus! {

/// What decoding the byte sequence `data` as a compressed sidecar stream
/// yields: the decoded bytes, or nothing when the stream is corrupt or
/// truncated. Concatenated compressed blocks decode into one continuous
/// output; decoding depends on the bytes alone.
pub uninterp spec fn bz2_decoded_of(data: Seq<u8>) -> Option<Seq<u8>>;

/// Relies on bzip2's `MultiBzDecoder` over an in-memory stream, read to its
/// end: concatenated compressed blocks decode transparently into one byte
/// sequence, and a corrupt or truncated stream fails.
#[verifier::external_body]
fn bz2_decode(data: &Vec<u8>) -> (r: Result<Vec<u8>, MirrorError>)
    ensures
        match r {
            Ok(out) => bz2_decoded_of(data@) == Some(out@),
            Err(e) => e == MirrorError::Decode && bz2_decoded_of(data@) is None,
        },
{
    let mut out = Vec::new();
    match bzip2::read::MultiBzDecoder::new(data.as_slice()).read_to_end(&mut out) {
        Ok(_) => Ok(out),
        Err(_) => Err(MirrorError::Decode),
    }
}

/// A compressed sidecar file held in memory, with its decoded output.
pub struct BZ2File {
    /// The compressed bytes, as read from the sidecar file.
    pub compressed: Vec<u8>,
    /// The decoded bytes, filled by `decode_block`.
    pub decoded_block: Vec<u8>,
}

impl BZ2File {
    /// Holds the compressed bytes `data`, ready to decode.
    pub fn new(data: Vec<u8>) -> (s: Self)
        ensures
            s.compressed@ == data@,
            s.decoded_block@ == Seq::<u8>::empty(),
    {
        BZ2File { compressed: data, decoded_block: Vec::new() }
    }

    /// Decodes the compressed bytes, appending the full decoded stream to
    /// `decoded_block`. A corrupt or truncated stream fails and leaves the
    /// decoded block unchanged.
    pub fn decode_block(&mut self) -> (r: Result<(), MirrorError>)
        ensures
            final(self).compressed@ == old(self).compressed@,
            match r {
                Ok(u) => bz2_decoded_of(old(self).compressed@) matches Some(d)
                    && final(self).decoded_block@ == old(self).decoded_block@ + d,
                Err(e) => e == MirrorError::Decode && bz2_decoded_of(old(self).compressed@) is None
                    && final(self).decoded_block@ == old(self).decoded_block@,
            },
    {
        match bz2_decode(&self.compressed) {
            Ok(mut out) => {
                self.decoded_block.append(&mut out);
                Ok(())
            },
            Err(e) => Err(e),
        }
    }
}

/// The set of local file identifiers that failed decode or failed to write
/// their decoded output; accumulated across decode passes and reported at
/// the end of a run.
pub struct CorruptFiles {
    files: Vec<String>,
}

impl View for CorruptFiles {
    type V = Set<Seq<char>>;

    closed spec fn view(&self) -> Set<Seq<char>> {
        self.files.deep_view().to_set()
    }
}

impl CorruptFiles {
    /// Well-formedness: identifiers are stored without duplicates. The
    /// constructor establishes it and every method preserves it.
    pub closed spec fn wf(&self) -> bool {
        forall|i: int, j: int|
            0 <= i < j < self.files@.len() ==> self.files.deep_view()[i] != self.files.deep_view()[j]
    }

    /// An empty set.
    pub fn new() -> (s: Self)
        ensures
            s@ == Set::<Seq<char>>::empty(),
            s.wf(),
    {
        let s = CorruptFiles { files: Vec::new() };
        proof {
            assert(s@ =~= Set::<Seq<char>>::empty());
        }
        s
    }

    /// Records the identifier `id`; recording it twice is a no-op.
    pub fn record(&mut self, id: &str)
        requires
            old(self).wf(),
        ensures
            final(self).wf(),
            final(self)@ == old(self)@.insert(id@),
    {
        vec_insert_unique(&mut self.files, id.to_owned());
    }

    /// Whether `id` has been recorded.
    pub fn contains(&self, id: &str) -> (b: bool)
        ensures
            b == self@.contains(id@),
    {
        vec_contains_str(&self.files, id)
    }

    /// The number of identifiers recorded.
    pub fn count(&self) -> (n: usize)
        requires
            self.wf(),
        ensures
            n == self@.len(),
    {
        proof {
            self.files.deep_view().unique_seq_to_set();
        }
        self.files.len()
    }

    /// The recorded identifiers, for reporting.
    pub fn items(&self) -> (r: &Vec<String>)
        ensures
            r.deep_view().to_set() == self@,
    {
        &self.files
    }
}

/// Whether a file name carries the compressed-sidecar suffix.
pub fn is_sidecar_name(name: &str, suffix: &str) -> (b: bool)
    ensures
        b == ends_with_seq(name@, suffix@),
{
    str_ends_with(name, suffix)
}

/// The path the decoded output of a sidecar file lands at: the sidecar's own
/// path with the suffix removed. A path without the suffix has no output
/// path.
pub fn sidecar_output_path(path: &str, suffix: &str) -> (r: Option<String>)
    ensures
        match r {
            Some(out) => ends_with_seq(path@, suffix@) && out@ == path@.subrange(
                0,
                path@.len() - suffix@.len(),
            ),
            None => !ends_with_seq(path@, suffix@),
        },
{
    if str_ends_with(path, suffix) {
        let plen = path.unicode_len();
        let slen = suffix.unicode_len();
        Some(substring_copy(path, 0, plen - slen))
    } else {
        None
    }
}

/// The final segment of a path: everything after its last separator, or the
/// whole path if it has none.
pub open spec fn file_name_of(p: Seq<char>) -> Seq<char> {
    if has_char(p, '/') {
        p.subrange(last_index_of(p, '/') + 1, p.len() as int)
    } else {
        p
    }
}

/// Decodes one discovered sidecar file, held at local path `file_path` (which
/// carries the sidecar suffix) with compressed bytes `data`. On success the
/// output path (the sidecar path with its suffix removed) and the decoded
/// bytes are returned, and nothing is recorded. On a corrupt or truncated
/// stream the file's name is recorded in `corrupt` and nothing is returned,
/// so the caller writes no output and must leave the source file untouched.
pub fn plan_decode(file_path: &str, suffix: &str, data: Vec<u8>, corrupt: &mut CorruptFiles) -> (r:
    Option<(String, Vec<u8>)>)
    requires
        old(corrupt).wf(),
        ends_with_seq(file_path@, suffix@),
    ensures
        final(corrupt).wf(),
        match r {
            Some(t) => {
                &&& bz2_decoded_of(data@) == Some(t.1@)
                &&& t.0@ == file_path@.subrange(0, file_path@.len() - suffix@.len())
                &&& final(corrupt)@ == old(corrupt)@
            },
            None => {
                &&& bz2_decoded_of(data@) is None
                &&& final(corrupt)@ == old(corrupt)@.insert(file_name_of(file_path@))
            },
        },
{
    match bz2_decode(&data) {
        Ok(out_bytes) => {
            let plen = file_path.unicode_len();
            let slen = suffix.unicode_len();
            let out_path = substring_copy(file_path, 0, plen - slen);
            Some((out_path, out_bytes))
        },
        Err(_) => {
            let plen = file_path.unicode_len();
            let name = match rfind_char(file_path, '/') {
                Some(i) => {
                    proof {
                        lemma_last_index_of(file_path@, '/');
                    }
                    substring_copy(file_path, i + 1, plen)
                },
                None => file_path.to_owned(),
            };
            corrupt.record(name.as_str());
            None
        },
    }
}

/// Settles one decoded sidecar file after its output was written or failed
/// to write: a failed write records the file's full path and forbids
/// deleting the source; only a successful write allows it.
pub fn after_write(corrupt: &mut CorruptFiles, file_path: &str, write_ok: bool) -> (delete_source:
    bool)
    requires
        old(corrupt).wf(),
    ensures
        final(corrupt).wf(),
        delete_source == write_ok,
        write_ok ==> final(corrupt)@ == old(corrupt)@,
        !write_ok ==> final(corrupt)@ == old(corrupt)@.insert(file_path@),
{
    if write_ok {
        true
    } else {
        corrupt.record(file_path);
        false
    }
}

} // verus!
