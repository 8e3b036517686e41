//! What every file tool asks of a path before it touches anything.

use crate::helpers::fs::in_workspace;
use vstd::prelude::*;

verus! {

/// Whether a tool may touch `path`: it is relative and has no `..` component.
pub fn is_path_in_workspace(path: &str) -> (allowed: bool)
    ensures
        allowed == in_workspace(path@),
{
    crate::helpers::fs::is_path_in_workspace(path)
}

/// What a look at a path found, before a tool decides what to do with it.
#[derive(Debug)]
pub enum PathProbe {
    /// Nothing is there.
    Missing,
    /// Something is there; the flags say whether it is a regular file or a
    /// directory.
    Found { is_file: bool, is_dir: bool },
    /// The look itself failed; the text says why.
    Failed(String),
}

} // verus!
