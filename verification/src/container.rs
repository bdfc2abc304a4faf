//! The sequential entry container, provided by the tar crate.
//!
//! A builder accumulates entries (a relative path and its payload); the
//! finished byte stream parses back to exactly the entries that were
//! appended, in order.  `tar_parsed` names what the tar reader lists
//! from a byte string; the contracts of the writer side promise that
//! built streams parse back to what was put in.

use vstd::prelude::*;

use crate::paths::tar_encodable;

verus! {

/// A tar stream under construction, over an in-memory buffer.  Opaque:
/// everything known of one is phrased through `builder_entries`.
#[verifier::external_body]
pub struct EntrySink {
    inner: tar::Builder<Vec<u8>>,
}

/// The entries appended so far to a sink, each a relative path and a
/// payload, in append order.
pub uninterp spec fn builder_entries(b: EntrySink) -> Seq<(Seq<u8>, Seq<u8>)>;

/// What the tar reader lists from a byte string: `Some` of the entries
/// (path bytes, content bytes) in stream order when the stream is a
/// well-formed container, `None` otherwise.
pub uninterp spec fn tar_parsed(bytes: Seq<u8>) -> Option<Seq<(Seq<u8>, Seq<u8>)>>;

/// The views of a list of concrete (path, payload) pairs.
pub open spec fn pairs_view(s: Seq<(Vec<u8>, Vec<u8>)>) -> Seq<(Seq<u8>, Seq<u8>)> {
    s.map_values(|p: (Vec<u8>, Vec<u8>)| (p.0@, p.1@))
}

/// Relies on `tar::Builder::new`: a fresh builder over an empty byte
/// buffer holds no entries.
#[verifier::external_body]
pub(crate) fn tar_new() -> (r: EntrySink)
    ensures
        builder_entries(r) == Seq::<(Seq<u8>, Seq<u8>)>::empty(),
{
    EntrySink { inner: tar::Builder::new(Vec::new()) }
}

/// Relies on `tar::Header` (GNU) and `tar::Builder::append`: a safe,
/// ASCII, at-most-100-byte path is stored exactly as given in the
/// header's name field, the checksum is set, and the payload follows;
/// none of the calls can fail on such a path with an in-memory buffer.
#[verifier::external_body]
pub(crate) fn tar_append(b: &mut EntrySink, path: &Vec<u8>, data: &Vec<u8>)
    requires
        tar_encodable(path@),
    ensures
        builder_entries(*final(b)) == builder_entries(*old(b)).push((path@, data@)),
{
    let mut h = tar::Header::new_gnu();
    h.set_path(std::str::from_utf8(path).unwrap()).unwrap();
    h.set_size(data.len() as u64);
    h.set_cksum();
    b.inner.append(&h, &data[..]).unwrap();
}

/// Relies on `tar::Builder::into_inner`: it finishes the stream
/// (terminating blocks included) and hands back the buffer, which the
/// tar reader parses back to exactly the appended entries; writing to
/// an in-memory buffer cannot fail.
#[verifier::external_body]
pub(crate) fn tar_finish(b: EntrySink) -> (r: Vec<u8>)
    ensures
        tar_parsed(r@) == Some(builder_entries(b)),
{
    b.inner.into_inner().unwrap()
}

/// Relies on `tar::Archive` and `tar::Entry`: lists each entry's raw
/// stored path bytes and its content bytes, in stream order, as a
/// function of the input bytes alone; `None` on a malformed stream.
#[verifier::external_body]
pub(crate) fn tar_list(bytes: &Vec<u8>) -> (r: Option<Vec<(Vec<u8>, Vec<u8>)>>)
    ensures
        r matches Some(v) ==> tar_parsed(bytes@) == Some(pairs_view(v@)),
        r is None ==> tar_parsed(bytes@) is None,
{
    let mut archive = tar::Archive::new(&bytes[..]);
    let mut out: Vec<(Vec<u8>, Vec<u8>)> = Vec::new();
    for entry in archive.entries().ok()? {
        let mut e = entry.ok()?;
        let path = e.path_bytes().into_owned();
        let mut data = Vec::new();
        std::io::Read::read_to_end(&mut e, &mut data).ok()?;
        out.push((path, data));
    }
    Some(out)
}

} // verus!
