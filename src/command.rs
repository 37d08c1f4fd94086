//! The arguments handed to `git update-index`.
use vstd::prelude::*;

verus! {

/// The option of `git update-index` that sets (`skip`) or unsets the bit.
pub open spec fn flag_of(skip: bool) -> Seq<char> {
    if skip { "--skip-worktree"@ } else { "--no-skip-worktree"@ }
}

/// The option of `git update-index` that sets (`skip`) or unsets the bit.
pub fn update_flag(skip: bool) -> (r: &'static str)
    ensures
        r@ == flag_of(skip),
{
    if skip { "--skip-worktree" } else { "--no-skip-worktree" }
}

} // verus!
