//! The per-file processing chain and its aggregation.
//!
//! Each discovered file is one independent task: its bytes (or the
//! failure met while reading them) go through compress and build, and
//! the outcome is recorded as one `ProcessedEntry`.  A run contributes
//! exactly one entry per task, whatever happened to the others: a
//! failure is contained in its own entry.

use vstd::prelude::*;

use crate::codec::zstd_compress;
use crate::codec::zstd_decoded;
use crate::paths::check_tar_encodable;
use crate::paths::tar_encodable;

verus! {

/// Why reading a file's bytes failed, as the ingestor reports it.
#[derive(Clone, Copy, Debug, PartialEq, Eq, Structural)]
pub enum ReadError {
    /// The file could not be opened.
    OpenFailed,
    /// A read from the open file failed; partial data is discarded.
    ReadFailed,
}

/// Why one file's task failed, recorded against that file alone.
#[derive(Clone, Copy, Debug, PartialEq, Eq, Structural)]
pub enum FileFailure {
    /// The file could not be opened.
    OpenFailed,
    /// A read from the open file failed.
    ReadFailed,
    /// The codec handed back no compressed bytes.  `build_entry` records
    /// it for completeness of the stage's interface; the codec this
    /// library calls never refuses, so the pipeline never records it.
    CompressError,
    /// The relative path cannot be represented in the container format.
    PathEncodingError,
}

/// One discovered file handed to the pipeline: its path relative to the
/// archived folder's root, and its bytes or the failure met reading them.
pub struct FileInput {
    pub rel_path: Vec<u8>,
    pub contents: Result<Vec<u8>, ReadError>,
}

/// The recorded outcome of one file's task.
///
/// On success the payload holds the file's individually compressed
/// bytes and `size` mirrors the payload length; on failure the payload
/// is empty and `failure` names what went wrong.
pub struct ProcessedEntry {
    pub rel_path: Vec<u8>,
    pub payload: Vec<u8>,
    pub size: u64,
    pub success: bool,
    pub failure: Option<FileFailure>,
}

/// The failure recorded for a file whose bytes could not be read.
pub open spec fn read_failure_of(e: ReadError) -> FileFailure {
    match e {
        ReadError::OpenFailed => FileFailure::OpenFailed,
        ReadError::ReadFailed => FileFailure::ReadFailed,
    }
}

/// The view of a file's read outcome.
pub open spec fn contents_view(c: Result<Vec<u8>, ReadError>) -> Result<Seq<u8>, ReadError> {
    match c {
        Ok(v) => Ok(v@),
        Err(e) => Err(e),
    }
}

/// The view of a file input.
pub open spec fn input_view(f: FileInput) -> (Seq<u8>, Result<Seq<u8>, ReadError>) {
    (f.rel_path@, contents_view(f.contents))
}

/// Internal consistency of one recorded entry: the success flag and the
/// failure record agree, the size mirrors the payload, a failed entry
/// carries no payload, and a successful entry's path is encodable.
pub open spec fn entry_wf(e: ProcessedEntry) -> bool {
    &&& (e.success <==> e.failure is None)
    &&& e.size == e.payload@.len()
    &&& (!e.success ==> e.payload@.len() == 0)
    &&& (e.success ==> tar_encodable(e.rel_path@))
}

/// Internal consistency of a whole run's outcome list.
pub open spec fn results_wf(rs: Seq<ProcessedEntry>) -> bool {
    forall|i: int| 0 <= i < rs.len() ==> entry_wf(#[trigger] rs[i])
}

/// What one recorded entry says about the task it came from: the path
/// is kept; a read failure is recorded as such; a readable file with an
/// encodable path succeeds, with a payload that decodes back to the
/// file's exact bytes; a readable file with an unencodable path is
/// recorded as exactly that.
pub open spec fn entry_matches(
    e: ProcessedEntry,
    rel: Seq<u8>,
    contents: Result<Seq<u8>, ReadError>,
) -> bool {
    &&& entry_wf(e)
    &&& e.rel_path@ == rel
    &&& match contents {
        Err(re) => !e.success && e.failure == Some(read_failure_of(re)),
        Ok(data) => {
            if tar_encodable(rel) {
                &&& e.success
                &&& zstd_decoded(e.payload@) == Some(data)
            } else {
                &&& !e.success
                &&& e.failure == Some(FileFailure::PathEncodingError)
            }
        },
    }
}

/// Records a file whose bytes could not be read.
pub fn failed_entry(rel_path: Vec<u8>, error: ReadError) -> (e: ProcessedEntry)
    ensures
        entry_matches(e, rel_path@, Err(error)),
{
    ProcessedEntry {
        rel_path,
        payload: Vec::new(),
        size: 0,
        success: false,
        failure: Some(
            match error {
                ReadError::OpenFailed => FileFailure::OpenFailed,
                ReadError::ReadFailed => FileFailure::ReadFailed,
            },
        ),
    }
}

/// Turns the codec's outcome for one file into its recorded entry: a
/// codec refusal is recorded as `CompressError`; with compressed bytes
/// in hand, an unencodable path is recorded as `PathEncodingError` and
/// an encodable one yields the successful entry holding those bytes.
pub fn build_entry(rel_path: Vec<u8>, compressed: Option<Vec<u8>>) -> (e: ProcessedEntry)
    ensures
        entry_wf(e),
        e.rel_path@ == rel_path@,
        match compressed {
            None => !e.success && e.failure == Some(FileFailure::CompressError),
            Some(c) => {
                if tar_encodable(rel_path@) {
                    e.success && e.payload@ == c@
                } else {
                    !e.success && e.failure == Some(FileFailure::PathEncodingError)
                }
            },
        },
{
    match compressed {
        None => ProcessedEntry {
            rel_path,
            payload: Vec::new(),
            size: 0,
            success: false,
            failure: Some(FileFailure::CompressError),
        },
        Some(c) => {
            if check_tar_encodable(&rel_path) {
                let size = c.len() as u64;
                ProcessedEntry { rel_path, payload: c, size, success: true, failure: None }
            } else {
                ProcessedEntry {
                    rel_path,
                    payload: Vec::new(),
                    size: 0,
                    success: false,
                    failure: Some(FileFailure::PathEncodingError),
                }
            }
        },
    }
}

/// Processes one file's task: chains the read outcome through compress
/// and build, containing any failure in the returned entry.
pub fn process_file(rel_path: Vec<u8>, contents: Result<Vec<u8>, ReadError>, level: i32) -> (e:
    ProcessedEntry)
    ensures
        entry_matches(e, rel_path@, contents_view(contents)),
{
    match contents {
        Err(re) => failed_entry(rel_path, re),
        Ok(data) => {
            let compressed = zstd_compress(&data, level);
            build_entry(rel_path, compressed)
        },
    }
}

/// Processes every task of a run, in order: one recorded entry per
/// task, no task dropped, none duplicated, each outcome independent of
/// the other tasks'.
pub fn run_pipeline(inputs: Vec<FileInput>, level: i32) -> (r: Vec<ProcessedEntry>)
    ensures
        r@.len() == inputs@.len(),
        forall|i: int|
            0 <= i < inputs@.len() ==> entry_matches(
                #[trigger] r@[i],
                inputs@[i].rel_path@,
                contents_view(inputs@[i].contents),
            ),
        results_wf(r@),
{
    let ghost inputs0 = inputs@;
    let mut rest = inputs;
    let mut out: Vec<ProcessedEntry> = Vec::new();
    while rest.len() > 0
        invariant
            out@.len() + rest@.len() == inputs0.len(),
            rest@ == inputs0.skip(out@.len() as int),
            forall|i: int|
                0 <= i < out@.len() ==> entry_matches(
                    #[trigger] out@[i],
                    inputs0[i].rel_path@,
                    contents_view(inputs0[i].contents),
                ),
        decreases rest@.len(),
    {
        let ghost done = out@.len() as int;
        let fi = rest.remove(0);
        proof {
            assert(fi == inputs0[done]);
            assert(rest@ =~= inputs0.skip(done + 1));
        }
        let e = process_file(fi.rel_path, fi.contents, level);
        out.push(e);
    }
    proof {
        assert(results_wf(out@)) by {
            assert(forall|i: int|
                0 <= i < out@.len() ==> entry_wf(#[trigger] out@[i]));
        }
    }
    out
}

/// The total byte volume of a list of source file sizes.
pub open spec fn sum_of(s: Seq<u64>) -> int
    decreases s.len(),
{
    if s.len() == 0 {
        0
    } else {
        sum_of(s.drop_last()) + s.last()
    }
}

proof fn lemma_sum_take_step(s: Seq<u64>, j: int)
    requires
        0 <= j < s.len(),
    ensures
        sum_of(s.take(j + 1)) == sum_of(s.take(j)) + s[j],
{
    assert(s.take(j + 1).drop_last() =~= s.take(j));
    assert(s.take(j + 1).last() == s[j]);
}

proof fn lemma_sum_take_le(s: Seq<u64>, j: int)
    requires
        0 <= j <= s.len(),
    ensures
        sum_of(s.take(j)) <= sum_of(s),
    decreases s.len() - j,
{
    if j == s.len() {
        assert(s.take(j) =~= s);
    } else {
        lemma_sum_take_step(s, j);
        lemma_sum_take_le(s, j + 1);
    }
}

/// Sums the expected byte volume of a run up front, for the progress
/// display: the exact sum of the source file sizes.
pub fn total_expected_bytes(sizes: &Vec<u64>) -> (t: u64)
    requires
        sum_of(sizes@) <= u64::MAX,
    ensures
        t == sum_of(sizes@),
{
    let mut t: u64 = 0;
    let mut i: usize = 0;
    proof {
        assert(sizes@.take(0) =~= Seq::<u64>::empty());
    }
    while i < sizes.len()
        invariant
            i <= sizes@.len(),
            t == sum_of(sizes@.take(i as int)),
            sum_of(sizes@) <= u64::MAX,
        decreases sizes@.len() - i,
    {
        proof {
            lemma_sum_take_step(sizes@, i as int);
            lemma_sum_take_le(sizes@, i + 1);
            assert(sum_of(sizes@.take(i as int)) + sizes@[i as int] <= u64::MAX);
        }
        t = t + sizes[i];
        i += 1;
    }
    proof {
        assert(sizes@.take(sizes@.len() as int) =~= sizes@);
    }
    t
}

/// Decides `results_wf` on a concrete outcome list, so an unverified
/// caller can test it before handing the list to the writer.
pub fn results_well_formed(rs: &Vec<ProcessedEntry>) -> (b: bool)
    ensures
        b == results_wf(rs@),
{
    let mut i: usize = 0;
    while i < rs.len()
        invariant
            i <= rs@.len(),
            forall|j: int| 0 <= j < i ==> entry_wf(#[trigger] rs@[j]),
        decreases rs@.len() - i,
    {
        let e = &rs[i];
        let flag_ok = e.success == e.failure.is_none();
        let size_ok = e.size == e.payload.len() as u64;
        let payload_ok = e.success || e.payload.len() == 0;
        let path_ok = !e.success || check_tar_encodable(&e.rel_path);
        if !(flag_ok && size_ok && payload_ok && path_ok) {
            return false;
        }
        i += 1;
    }
    true
}

} // verus!
