//! Values of the command line that the flows read.

use vstd::prelude::*;

verus! {

/// How a name given for removal is held against the worktrees.
#[derive(Copy, Clone, Debug, Eq, PartialEq)]
pub enum RemoveMatchMode {
    /// By branch or by directory name; more than one match is an error.
    Auto,
    /// By branch only.
    Branch,
    /// By directory name only.
    Dir,
}

} // verus!
