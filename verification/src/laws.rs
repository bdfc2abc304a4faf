//! The library's laws: what the stage contracts, taken together, promise
//! of a whole run.

use vstd::prelude::*;

use crate::codec::zstd_decoded;
use crate::paths::is_safe_rel_path;
use crate::paths::tar_encodable;
use crate::pipeline::entry_matches;
use crate::pipeline::read_failure_of;
use crate::pipeline::ProcessedEntry;
use crate::pipeline::ReadError;
use crate::reader::all_paths_safe;
use crate::reader::read_result_matches;
use crate::reader::ExtractedFile;
use crate::reader::ArchiveError;
use crate::writer::archive_lists;
use crate::writer::successful_entries;

verus! {

/// When every entry of a run succeeded, the writer's entry list is the
/// whole run, in order.
pub proof fn lemma_successful_all(rs: Seq<ProcessedEntry>)
    requires
        forall|i: int| 0 <= i < rs.len() ==> (#[trigger] rs[i]).success,
    ensures
        successful_entries(rs).len() == rs.len(),
        forall|i: int|
            0 <= i < rs.len() ==> #[trigger] successful_entries(rs)[i] == (
                rs[i].rel_path@,
                rs[i].payload@,
            ),
    decreases rs.len(),
{
    if rs.len() > 0 {
        let dl = rs.drop_last();
        assert forall|i: int| 0 <= i < dl.len() implies (#[trigger] dl[i]).success by {
            assert(dl[i] == rs[i]);
        }
        lemma_successful_all(dl);
        assert forall|i: int|
            0 <= i < rs.len() implies #[trigger] successful_entries(rs)[i] == (
            rs[i].rel_path@,
            rs[i].payload@,
        ) by {
            if i < rs.len() - 1 {
                assert(successful_entries(rs)[i] == successful_entries(dl)[i]);
                assert(dl[i] == rs[i]);
            }
        }
    }
}

/// When exactly one entry of a run failed, the writer's entry list is
/// the rest of the run, in order, with only that entry missing.
pub proof fn lemma_successful_skip_one(rs: Seq<ProcessedEntry>, j: int)
    requires
        0 <= j < rs.len(),
        !rs[j].success,
        forall|i: int| 0 <= i < rs.len() && i != j ==> (#[trigger] rs[i]).success,
    ensures
        successful_entries(rs).len() == rs.len() - 1,
        forall|k: int|
            0 <= k < j ==> #[trigger] successful_entries(rs)[k] == (
                rs[k].rel_path@,
                rs[k].payload@,
            ),
        forall|k: int|
            j <= k < rs.len() - 1 ==> #[trigger] successful_entries(rs)[k] == (
                rs[k + 1].rel_path@,
                rs[k + 1].payload@,
            ),
    decreases rs.len(),
{
    let dl = rs.drop_last();
    if j == rs.len() - 1 {
        assert forall|i: int| 0 <= i < dl.len() implies (#[trigger] dl[i]).success by {
            assert(dl[i] == rs[i]);
        }
        lemma_successful_all(dl);
        assert(successful_entries(rs) == successful_entries(dl));
        assert forall|k: int|
            0 <= k < j implies #[trigger] successful_entries(rs)[k] == (
            rs[k].rel_path@,
            rs[k].payload@,
        ) by {
            assert(dl[k] == rs[k]);
        }
    } else {
        assert forall|i: int| 0 <= i < dl.len() && i != j implies (#[trigger] dl[i]).success by {
            assert(dl[i] == rs[i]);
        }
        assert(dl[j] == rs[j]);
        lemma_successful_skip_one(dl, j);
        assert(rs.last().success);
        assert(successful_entries(rs) == successful_entries(dl).push(
            (rs.last().rel_path@, rs.last().payload@),
        ));
        assert forall|k: int|
            0 <= k < j implies #[trigger] successful_entries(rs)[k] == (
            rs[k].rel_path@,
            rs[k].payload@,
        ) by {
            assert(successful_entries(rs)[k] == successful_entries(dl)[k]);
            assert(dl[k] == rs[k]);
        }
        assert forall|k: int|
            j <= k < rs.len() - 1 implies #[trigger] successful_entries(rs)[k] == (
            rs[k + 1].rel_path@,
            rs[k + 1].payload@,
        ) by {
            if k < rs.len() - 2 {
                assert(successful_entries(rs)[k] == successful_entries(dl)[k]);
                assert(dl[k + 1] == rs[k + 1]);
            } else {
                assert(successful_entries(rs)[k] == (rs.last().rel_path@, rs.last().payload@));
            }
        }
    }
}

/// Round trip: take any folder of readable files whose relative paths
/// the container can represent; serialize the run and read the archive
/// back.  The read cannot fail, yields exactly one entry per file with
/// its relative path, and every payload decodes to the file's exact
/// original bytes.
pub proof fn lemma_round_trip(
    rels: Seq<Seq<u8>>,
    datas: Seq<Seq<u8>>,
    results: Seq<ProcessedEntry>,
    archive: Seq<u8>,
    r: Result<Seq<ExtractedFile>, ArchiveError>,
)
    requires
        rels.len() == datas.len(),
        results.len() == rels.len(),
        forall|i: int|
            0 <= i < results.len() ==> entry_matches(
                #[trigger] results[i],
                rels[i],
                Ok(datas[i]),
            ),
        forall|i: int| 0 <= i < rels.len() ==> tar_encodable(#[trigger] rels[i]),
        archive_lists(archive, successful_entries(results)),
        read_result_matches(archive, r),
    ensures
        r matches Ok(fs) && fs.len() == rels.len() && (forall|i: int|
            0 <= i < rels.len() ==> ((#[trigger] fs[i]).rel_path@ == rels[i] && zstd_decoded(
                fs[i].data@,
            ) == Some(datas[i]))),
{
    assert forall|i: int| 0 <= i < results.len() implies (#[trigger] results[i]).success by {
        assert(entry_matches(results[i], rels[i], Ok(datas[i])));
        assert(tar_encodable(rels[i]));
    }
    let es = successful_entries(results);
    lemma_successful_all(results);
    assert forall|i: int| 0 <= i < es.len() implies is_safe_rel_path((#[trigger] es[i]).0) by {
        assert(entry_matches(results[i], rels[i], Ok(datas[i])));
        assert(es[i] == (results[i].rel_path@, results[i].payload@));
    }
    assert(all_paths_safe(es));
    let t = zstd_decoded(archive).unwrap();
    let fs = r.unwrap();
    assert forall|i: int|
        0 <= i < rels.len() implies ((#[trigger] fs[i]).rel_path@ == rels[i] && zstd_decoded(
        fs[i].data@,
    ) == Some(datas[i])) by {
        assert(es[i] == (results[i].rel_path@, results[i].payload@));
        assert(entry_matches(results[i], rels[i], Ok(datas[i])));
        assert(fs[i].rel_path@ == es[i].0 && fs[i].data@ == es[i].1);
    }
}

/// Isolation: when exactly one file of a run could not be read, and
/// every other file is readable with a representable path, that file
/// alone is recorded as failed, with the read failure named, and the
/// archive's entry list holds exactly the other files, in order.
pub proof fn lemma_isolation(
    rels: Seq<Seq<u8>>,
    contents: Seq<Result<Seq<u8>, ReadError>>,
    results: Seq<ProcessedEntry>,
    j: int,
)
    requires
        rels.len() == contents.len(),
        results.len() == rels.len(),
        0 <= j < results.len(),
        forall|i: int|
            0 <= i < results.len() ==> entry_matches(
                #[trigger] results[i],
                rels[i],
                contents[i],
            ),
        contents[j] is Err,
        forall|i: int|
            0 <= i < results.len() && i != j ==> ((#[trigger] contents[i]) is Ok && tar_encodable(
                rels[i],
            )),
    ensures
        !results[j].success,
        contents[j] matches Err(re) && results[j].failure == Some(read_failure_of(re)),
        successful_entries(results).len() == results.len() - 1,
        forall|k: int|
            0 <= k < j ==> #[trigger] successful_entries(results)[k] == (
                rels[k],
                results[k].payload@,
            ),
        forall|k: int|
            j <= k < results.len() - 1 ==> #[trigger] successful_entries(results)[k] == (
                rels[k + 1],
                results[k + 1].payload@,
            ),
{
    assert(entry_matches(results[j], rels[j], contents[j]));
    assert forall|i: int|
        0 <= i < results.len() && i != j implies (#[trigger] results[i]).success by {
        assert(entry_matches(results[i], rels[i], contents[i]));
        assert(contents[i] is Ok && tar_encodable(rels[i]));
    }
    lemma_successful_skip_one(results, j);
    assert forall|k: int|
        0 <= k < j implies #[trigger] successful_entries(results)[k] == (
        rels[k],
        results[k].payload@,
    ) by {
        assert(entry_matches(results[k], rels[k], contents[k]));
    }
    assert forall|k: int|
        j <= k < results.len() - 1 implies #[trigger] successful_entries(results)[k] == (
        rels[k + 1],
        results[k + 1].payload@,
    ) by {
        assert(entry_matches(results[k + 1], rels[k + 1], contents[k + 1]));
    }
}

/// Idempotence of decompression: reading the same archive bytes twice
/// can only end the same way — the same error, or entry lists that
/// agree path for path and byte for byte.
pub proof fn lemma_extract_deterministic(
    bytes: Seq<u8>,
    r1: Result<Seq<ExtractedFile>, ArchiveError>,
    r2: Result<Seq<ExtractedFile>, ArchiveError>,
)
    requires
        read_result_matches(bytes, r1),
        read_result_matches(bytes, r2),
    ensures
        r1 is Err ==> r1 == r2,
        r1 matches Ok(f1) ==> (r2 matches Ok(f2) && f1.len() == f2.len() && (forall|i: int|
            0 <= i < f1.len() ==> ((#[trigger] f1[i]).rel_path@ == f2[i].rel_path@ && f1[i].data@
                == f2[i].data@))),
{
}

/// When no entry of a run succeeded, the writer's entry list is empty.
pub proof fn lemma_successful_none(rs: Seq<ProcessedEntry>)
    requires
        forall|i: int| 0 <= i < rs.len() ==> !(#[trigger] rs[i]).success,
    ensures
        successful_entries(rs) == Seq::<(Seq<u8>, Seq<u8>)>::empty(),
    decreases rs.len(),
{
    if rs.len() > 0 {
        let dl = rs.drop_last();
        assert forall|i: int| 0 <= i < dl.len() implies !(#[trigger] dl[i]).success by {
            assert(dl[i] == rs[i]);
        }
        lemma_successful_none(dl);
    }
}

/// Best effort: an archive serialized from a run whose every task
/// failed is still valid, and reads back as no entries, without error.
pub proof fn lemma_all_failures_empty_archive(
    results: Seq<ProcessedEntry>,
    bytes: Seq<u8>,
    r: Result<Seq<ExtractedFile>, ArchiveError>,
)
    requires
        forall|i: int| 0 <= i < results.len() ==> !(#[trigger] results[i]).success,
        archive_lists(bytes, successful_entries(results)),
        read_result_matches(bytes, r),
    ensures
        r matches Ok(fs) && fs.len() == 0,
{
    lemma_successful_none(results);
}

/// Empty input: an archive serialized from a run over no files at all
/// reads back as no entries, without error.
pub proof fn lemma_empty_archive(bytes: Seq<u8>, r: Result<Seq<ExtractedFile>, ArchiveError>)
    requires
        archive_lists(bytes, successful_entries(Seq::empty())),
        read_result_matches(bytes, r),
    ensures
        r matches Ok(fs) && fs.len() == 0,
{
    lemma_all_failures_empty_archive(Seq::empty(), bytes, r);
}

/// Two runs over the same unchanged folder: the two archives may differ
/// byte for byte, but reading each yields entry lists that agree path
/// for path, and payloads that decode to the same original contents.
pub proof fn lemma_rebuilds_agree(
    rels: Seq<Seq<u8>>,
    datas: Seq<Seq<u8>>,
    results1: Seq<ProcessedEntry>,
    results2: Seq<ProcessedEntry>,
    archive1: Seq<u8>,
    archive2: Seq<u8>,
    r1: Result<Seq<ExtractedFile>, ArchiveError>,
    r2: Result<Seq<ExtractedFile>, ArchiveError>,
)
    requires
        rels.len() == datas.len(),
        results1.len() == rels.len(),
        results2.len() == rels.len(),
        forall|i: int|
            0 <= i < results1.len() ==> entry_matches(
                #[trigger] results1[i],
                rels[i],
                Ok(datas[i]),
            ),
        forall|i: int|
            0 <= i < results2.len() ==> entry_matches(
                #[trigger] results2[i],
                rels[i],
                Ok(datas[i]),
            ),
        forall|i: int| 0 <= i < rels.len() ==> tar_encodable(#[trigger] rels[i]),
        archive_lists(archive1, successful_entries(results1)),
        archive_lists(archive2, successful_entries(results2)),
        read_result_matches(archive1, r1),
        read_result_matches(archive2, r2),
    ensures
        r1 matches Ok(f1) && r2 matches Ok(f2) && f1.len() == f2.len() && (forall|i: int|
            0 <= i < f1.len() ==> ((#[trigger] f1[i]).rel_path@ == f2[i].rel_path@ && zstd_decoded(
                f1[i].data@,
            ) == zstd_decoded(f2[i].data@))),
{
    lemma_round_trip(rels, datas, results1, archive1, r1);
    lemma_round_trip(rels, datas, results2, archive2, r2);
}

} // verus!
