//! Serializing a run's outcome into one compressed container.
//!
//! The writer appends only the successful entries, in the order the
//! outcome list holds them (failed entries are skipped silently, though
//! they stay in the run's report), finishes the container stream, and
//! compresses the whole stream once more.  Serialization cannot fail:
//! every stage works in memory and the codec accepts every input.

use vstd::prelude::*;

use crate::codec::zstd_compress;
use crate::codec::zstd_decoded;
use crate::container::builder_entries;
use crate::container::tar_append;
use crate::container::tar_finish;
use crate::container::tar_new;
use crate::container::tar_parsed;
use crate::pipeline::results_wf;
use crate::pipeline::ProcessedEntry;

verus! {

/// The (path, payload) pairs of the successful entries of a run, in
/// the order the run holds them.
pub open spec fn successful_entries(rs: Seq<ProcessedEntry>) -> Seq<(Seq<u8>, Seq<u8>)>
    decreases rs.len(),
{
    if rs.len() == 0 {
        Seq::empty()
    } else {
        let rest = successful_entries(rs.drop_last());
        if rs.last().success {
            rest.push((rs.last().rel_path@, rs.last().payload@))
        } else {
            rest
        }
    }
}

/// The archive byte stream `bytes` is a compressed container listing
/// exactly the entries `es`.
pub open spec fn archive_lists(bytes: Seq<u8>, es: Seq<(Seq<u8>, Seq<u8>)>) -> bool {
    match zstd_decoded(bytes) {
        Some(t) => tar_parsed(t) == Some(es),
        None => false,
    }
}

/// Serializes a run's outcome: the returned bytes are a compressed
/// container listing exactly the successful entries, in order.
pub fn write_archive(results: &Vec<ProcessedEntry>, level: i32) -> (r: Vec<u8>)
    requires
        results_wf(results@),
    ensures
        archive_lists(r@, successful_entries(results@)),
{
    let mut sink = tar_new();
    let mut i: usize = 0;
    proof {
        assert(results@.take(0) =~= Seq::<ProcessedEntry>::empty());
    }
    while i < results.len()
        invariant
            i <= results@.len(),
            results_wf(results@),
            builder_entries(sink) == successful_entries(results@.take(i as int)),
        decreases results@.len() - i,
    {
        let e = &results[i];
        if e.success {
            tar_append(&mut sink, &e.rel_path, &e.payload);
        }
        proof {
            assert(results@.take(i + 1).drop_last() =~= results@.take(i as int));
            assert(results@.take(i + 1).last() == results@[i as int]);
        }
        i += 1;
    }
    proof {
        assert(results@.take(results@.len() as int) =~= results@);
    }
    let stream = tar_finish(sink);
    zstd_compress(&stream, level).unwrap()
}

} // verus!
