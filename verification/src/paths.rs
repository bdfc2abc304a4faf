//! Relative-path validation.
//!
//! A path is stored inside the container as forward-slash-separated
//! segments relative to the archived folder's root.  The reader accepts
//! only *safe* paths: ones that cannot escape the directory they are
//! unpacked into.  The writer additionally demands that a path fit the
//! container format's name field.

use vstd::prelude::*;

verus! {

/// True when position `i` begins a slash-delimited segment of `p`.
pub open spec fn seg_starts_at(p: Seq<u8>, i: int) -> bool {
    i == 0 || p[i - 1] == 47u8
}

/// True when position `i` ends a slash-delimited segment of `p`.
pub open spec fn seg_ends_at(p: Seq<u8>, i: int) -> bool {
    i == p.len() - 1 || p[i + 1] == 47u8
}

/// A relative path that stays inside the directory it is resolved
/// against: nonempty, no NUL byte, not absolute, no empty segment, no
/// `.` or `..` segment, and no backslash (a separator to some
/// filesystems, so `..\` would escape where `/` is not the only
/// separator).
pub open spec fn is_safe_rel_path(p: Seq<u8>) -> bool {
    &&& p.len() > 0
    &&& p[0] != 47u8
    &&& p[p.len() - 1] != 47u8
    &&& forall|i: int| 0 <= i < p.len() ==> (p[i] != 0u8 && p[i] != 92u8)
    &&& forall|i: int| 0 <= i < p.len() - 1 ==> !(#[trigger] p[i] == 47u8 && p[i + 1] == 47u8)
    &&& forall|i: int|
        0 <= i < p.len() ==> !(#[trigger] p[i] == 46u8 && seg_starts_at(p, i) && seg_ends_at(p, i))
    &&& forall|i: int|
        0 <= i < p.len() - 1 ==> !(#[trigger] p[i] == 46u8 && p[i + 1] == 46u8 && seg_starts_at(p, i)
            && seg_ends_at(p, i + 1))
}

/// A path the archive format can represent exactly: safe, at most 100
/// bytes (the container's name field), and ASCII, so that it is stored
/// and listed byte for byte.
pub open spec fn tar_encodable(p: Seq<u8>) -> bool {
    &&& is_safe_rel_path(p)
    &&& p.len() <= 100
    &&& forall|i: int| 0 <= i < p.len() ==> p[i] < 128u8
}

/// Decides `is_safe_rel_path` on a concrete path.
pub fn check_rel_path(p: &Vec<u8>) -> (b: bool)
    ensures
        b == is_safe_rel_path(p@),
{
    let n = p.len();
    if n == 0 {
        return false;
    }
    if p[0] == 47u8 || p[n - 1] == 47u8 {
        return false;
    }
    let mut i: usize = 0;
    while i < n
        invariant
            n == p@.len(),
            0 < n <= usize::MAX,
            i <= n,
            p@[0] != 47u8,
            p@[n - 1] != 47u8,
            forall|j: int| 0 <= j < i ==> (p@[j] != 0u8 && p@[j] != 92u8),
            forall|j: int| 0 <= j < i && j < n - 1 ==> !(#[trigger] p@[j] == 47u8 && p@[j + 1] == 47u8),
            forall|j: int|
                0 <= j < i ==> !(#[trigger] p@[j] == 46u8 && seg_starts_at(p@, j) && seg_ends_at(p@, j)),
            forall|j: int|
                0 <= j < i && j < n - 1 ==> !(#[trigger] p@[j] == 46u8 && p@[j + 1] == 46u8 && seg_starts_at(
                    p@,
                    j,
                ) && seg_ends_at(p@, j + 1)),
        decreases n - i,
    {
        let c = p[i];
        if c == 0u8 || c == 92u8 {
            return false;
        }
        if c == 47u8 && i + 1 < n && p[i + 1] == 47u8 {
            return false;
        }
        let at_start = i == 0 || p[i - 1] == 47u8;
        if c == 46u8 && at_start {
            if i + 1 == n || p[i + 1] == 47u8 {
                proof {
                    assert(p@[i as int] == 46u8 && seg_starts_at(p@, i as int) && seg_ends_at(
                        p@,
                        i as int,
                    ));
                }
                return false;
            }
            if p[i + 1] == 46u8 && (i + 2 == n || p[i + 2] == 47u8) {
                proof {
                    assert(p@[i as int] == 46u8 && p@[i + 1] == 46u8 && seg_starts_at(
                        p@,
                        i as int,
                    ) && seg_ends_at(p@, i + 1));
                }
                return false;
            }
        }
        i += 1;
    }
    true
}

/// Decides `tar_encodable` on a concrete path.
pub fn check_tar_encodable(p: &Vec<u8>) -> (b: bool)
    ensures
        b == tar_encodable(p@),
{
    if !check_rel_path(p) {
        return false;
    }
    if p.len() > 100 {
        return false;
    }
    let mut i: usize = 0;
    while i < p.len()
        invariant
            i <= p@.len(),
            forall|j: int| 0 <= j < i ==> p@[j] < 128u8,
        decreases p@.len() - i,
    {
        let c = p[i];
        if c >= 128u8 {
            return false;
        }
        i += 1;
    }
    true
}

} // verus!
