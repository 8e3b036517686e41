//! Helpers shared by the tools and the session: paths, diffs and the
//! project's context file.

pub mod context;
pub mod diff;
pub mod fs;

pub use diff::{Diff, DiffHunk, DiffLine, DiffOperation, InlineChange};
pub use fs::{is_path_in_workspace, path_to_dirname};
