//! Which tools wait for the user's consent.

use crate::text;
use vstd::prelude::*;

verus! {

/// Whether a tool of this name changes something, and so waits for consent:
/// the tools that create a file, edit a file or run a command.
pub open spec fn mutating(tool_name: Seq<char>) -> bool {
    tool_name == "create_file"@ || tool_name == "edit_file"@ || tool_name == "run_cmd"@
}

/// Whether a call of the tool named `tool_name` must be confirmed.
pub fn needs_confirmation(tool_name: &str) -> (needed: bool)
    ensures
        needed == mutating(tool_name@),
{
    text::str_eq(tool_name, "create_file") || text::str_eq(tool_name, "edit_file") || text::str_eq(
        tool_name,
        "run_cmd",
    )
}

} // verus!
