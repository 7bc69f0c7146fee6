//! Storage helpers that decide on what the filesystem reported.

use vstd::prelude::*;

verus! {

/// Whether a probe of a path found a file that already holds data.
///
/// `size` is `None` when the path could not be inspected (it does not exist,
/// or its metadata is unreadable) and `Some(n)` when a file of `n` bytes is
/// there.
pub open spec fn spec_file_exists_with_size(size: Option<u64>) -> bool {
    match size {
        Some(n) => n > 0,
        None => false,
    }
}

/// Tells whether the probed path counts as already downloaded: it exists and
/// is not empty.
pub fn file_exists_with_size(size: Option<u64>) -> (present: bool)
    ensures
        present == spec_file_exists_with_size(size),
{
    match size {
        Some(n) => n > 0,
        None => false,
    }
}

} // verus!
