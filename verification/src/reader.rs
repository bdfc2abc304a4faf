//! Decoding a compressed container back into entries.
//!
//! The reader is the decompression counterpart of the writer: it
//! decodes the container-level compression, lists the entries, and
//! refuses any entry whose path could escape the directory the caller
//! will unpack into.  It does not re-decompress the per-file payloads:
//! each extracted entry still holds the individually compressed bytes,
//! and `decode_payload` turns one back into file content.

use vstd::prelude::*;

use crate::codec::zstd_decoded;
use crate::codec::zstd_decompress;
use crate::container::pairs_view;
use crate::container::tar_list;
use crate::container::tar_parsed;
use crate::paths::check_rel_path;
use crate::paths::is_safe_rel_path;

verus! {

/// An error that aborts the whole read of an archive, as opposed to the
/// per-file failures a run contains.
#[derive(Clone, Copy, Debug, PartialEq, Eq, Structural)]
pub enum ArchiveError {
    /// The container stream is corrupt or truncated.
    DecodeError,
    /// An entry's path could escape the output directory.
    UnsafePathError,
}

/// One entry extracted from an archive: a safe relative path and the
/// entry's payload bytes, still individually compressed.
pub struct ExtractedFile {
    pub rel_path: Vec<u8>,
    pub data: Vec<u8>,
}

/// Every listed path is safe to resolve inside an output directory.
pub open spec fn all_paths_safe(es: Seq<(Seq<u8>, Seq<u8>)>) -> bool {
    forall|i: int| 0 <= i < es.len() ==> is_safe_rel_path((#[trigger] es[i]).0)
}

/// The extracted files carry exactly the listed entries, in order.
pub open spec fn files_match(fs: Seq<ExtractedFile>, es: Seq<(Seq<u8>, Seq<u8>)>) -> bool {
    &&& fs.len() == es.len()
    &&& forall|i: int|
        0 <= i < es.len() ==> ((#[trigger] fs[i]).rel_path@ == es[i].0 && fs[i].data@ == es[i].1)
}

/// Everything reading an archive byte stream may return: decode failure
/// exactly on a stream that does not decode or does not parse; a path
/// refusal exactly when the stream lists an unsafe path; otherwise the
/// listed entries themselves.
pub open spec fn read_result_matches(
    bytes: Seq<u8>,
    r: Result<Seq<ExtractedFile>, ArchiveError>,
) -> bool {
    match zstd_decoded(bytes) {
        None => r == Err::<Seq<ExtractedFile>, ArchiveError>(ArchiveError::DecodeError),
        Some(t) => match tar_parsed(t) {
            None => r == Err::<Seq<ExtractedFile>, ArchiveError>(ArchiveError::DecodeError),
            Some(es) => {
                if all_paths_safe(es) {
                    r matches Ok(fs) && files_match(fs, es)
                } else {
                    r == Err::<Seq<ExtractedFile>, ArchiveError>(ArchiveError::UnsafePathError)
                }
            },
        },
    }
}

/// The view of a concrete read result.
pub open spec fn read_result_view(r: Result<Vec<ExtractedFile>, ArchiveError>) -> Result<
    Seq<ExtractedFile>,
    ArchiveError,
> {
    match r {
        Ok(v) => Ok(v@),
        Err(e) => Err(e),
    }
}

/// Decodes an archive byte stream into its entries.
///
/// Fails with `DecodeError` exactly when the stream is not a compressed
/// well-formed container, and with `UnsafePathError` exactly when some
/// listed entry's path could escape the output directory — in that case
/// nothing is handed out at all.
pub fn read_archive(bytes: &Vec<u8>) -> (r: Result<Vec<ExtractedFile>, ArchiveError>)
    ensures
        read_result_matches(bytes@, read_result_view(r)),
{
    let stream = match zstd_decompress(bytes) {
        Some(t) => t,
        None => {
            return Err(ArchiveError::DecodeError);
        },
    };
    let mut pairs = match tar_list(&stream) {
        Some(es) => es,
        None => {
            return Err(ArchiveError::DecodeError);
        },
    };
    let ghost es = pairs_view(pairs@);
    let mut files: Vec<ExtractedFile> = Vec::new();
    while pairs.len() > 0
        invariant
            zstd_decoded(bytes@) == Some(stream@),
            tar_parsed(stream@) == Some(es),
            files@.len() + pairs@.len() == es.len(),
            pairs_view(pairs@) =~= es.skip(files@.len() as int),
            forall|i: int|
                0 <= i < files@.len() ==> ((#[trigger] files@[i]).rel_path@ == es[i].0
                    && files@[i].data@ == es[i].1 && is_safe_rel_path(es[i].0)),
        decreases pairs@.len(),
    {
        let ghost done = files@.len() as int;
        let ghost prev = pairs@;
        let (rel_path, data) = pairs.remove(0);
        proof {
            assert(pairs_view(prev)[0] == es[done]);
            assert(rel_path@ == es[done].0 && data@ == es[done].1);
            assert(pairs@ =~= prev.skip(1));
            assert(pairs_view(pairs@) =~= es.skip(done + 1)) by {
                assert forall|j: int| 0 <= j < pairs@.len() implies (#[trigger] pairs_view(
                    pairs@,
                )[j]) == es.skip(done + 1)[j] by {
                    assert(pairs@[j] == prev[j + 1]);
                    assert(pairs_view(prev)[j + 1] == es.skip(done)[j + 1]);
                }
            }
        }
        if !check_rel_path(&rel_path) {
            proof {
                assert(0 <= done < es.len());
                assert(!is_safe_rel_path(es[done].0));
                assert(!all_paths_safe(es));
            }
            return Err(ArchiveError::UnsafePathError);
        }
        files.push(ExtractedFile { rel_path, data });
    }
    proof {
        assert(files_match(files@, es));
        assert(all_paths_safe(es)) by {
            assert forall|i: int| 0 <= i < es.len() implies is_safe_rel_path(
                (#[trigger] es[i]).0,
            ) by {
                assert(files@[i].rel_path@ == es[i].0);
            }
        }
    }
    Ok(files)
}

} // verus!
