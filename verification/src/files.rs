//! The file-count helper: how many non-directory entries lie under a root.
//! Presentation layers use it to estimate total work before a run.

use vstd::prelude::*;
use crate::walk::walk_contents_first;

verus! {

/// Counts the non-directory entries under `path`, with the same traversal
/// the verification run uses; what the run will emit one record each for.
pub fn count(path: &str) -> usize {
    let entries = walk_contents_first(path);
    entries.len()
}

} // verus!
