//! The traversal primitive: enumerating the non-directory entries under a
//! root, and probing a path's byte length.

use vstd::prelude::*;
use crate::paths::starts_at_root;
use walkdir::WalkDir;

verus! {

/// Relies on walkdir::WalkDir with contents_first: yields every entry under
/// `root` depth-first with a directory's contents before the directory
/// itself, each entry's path formed by joining `root` with the entry's path
/// relative to it, with `/` as the platform's separator; entries that error
/// during enumeration are skipped. Only non-directory entries are kept, as
/// the roots of verification records.
#[verifier::external_body]
pub(crate) fn walk_contents_first(root: &str) -> (entries: Vec<String>)
    ensures
        forall|i: int|
            0 <= i < entries@.len() ==> starts_at_root(root@, (#[trigger] entries@[i])@),
{
    let mut out: Vec<String> = Vec::new();
    let walk = WalkDir::new(root).contents_first(true);
    for entry in walk.into_iter().filter_map(|e| e.ok()) {
        if !entry.file_type().is_dir() {
            out.push(entry.path().to_string_lossy().into_owned());
        }
    }
    out
}

/// Relies on walkdir::WalkDir with max_depth(0) and DirEntry::metadata: the
/// byte length of the entry at `path`, or `None` where the path cannot be
/// stat'ed (not found or inaccessible). Links are followed, so a symbolic
/// link is measured by its target.
#[verifier::external_body]
pub(crate) fn probe_len(path: &str) -> (r: Option<u64>) {
    match WalkDir::new(path).max_depth(0).follow_links(true).into_iter().next() {
        Some(Ok(entry)) => entry.metadata().ok().map(|m| m.len()),
        _ => None,
    }
}

} // verus!
