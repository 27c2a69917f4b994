//! Finding the root of the migrations tree among the ancestors of a directory.

use crate::error::MigrationError;
use vstd::prelude::*;

verus! {

/// The name of the empty file that marks the root of the migrations tree.
pub const ROOT_MARKER: &'static str = ".gen_root";

/// `at` is the place of the nearest marked directory: it is marked, and none
/// before it is.
pub open spec fn is_nearest_marked(marked: Seq<bool>, at: int) -> bool {
    &&& 0 <= at < marked.len()
    &&& marked[at]
    &&& forall|i: int| 0 <= i < at ==> !marked[i]
}

/// Picks the root among a directory and its ancestors.
///
/// `marked` says of each of them whether it holds the root marker, the
/// starting directory first and each one's parent after it, up to the top.
/// Returns the place of the first that is marked, and fails with
/// `RootNotFound` exactly where none is.
pub fn find_root(marked: &Vec<bool>) -> (r: Result<usize, MigrationError>)
    ensures
        match r {
            Ok(at) => is_nearest_marked(marked@, at as int),
            Err(e) => e == MigrationError::RootNotFound && forall|i: int|
                0 <= i < marked.len() ==> !marked[i],
        },
{
    let mut at: usize = 0;
    while at < marked.len()
        invariant
            at <= marked.len(),
            forall|i: int| 0 <= i < at ==> !marked[i],
        decreases marked.len() - at,
    {
        if marked[at] {
            return Ok(at);
        }
        at = at + 1;
    }
    Err(MigrationError::RootNotFound)
}

} // verus!
