//! How a tool call is shown when all that is known of it is its name and the
//! text of its arguments.

use crate::json::json_text_member;
use crate::text;
use crate::tools::create_file::line_count;
use crate::tools::tool_call::ToolArguments;
use vstd::prelude::*;

verus! {

/// The arguments as they are shown for the tool named `name`, where
/// `arguments` are the members that the call holds: the path, for a new file
/// with the number of lines, or the command. `None` for a tool that shows
/// none, and where a member that the tool needs is not there.
pub open spec fn shown_members(name: Seq<char>, arguments: ToolArguments) -> Option<Seq<char>> {
    if name == "create_file"@ {
        match (arguments.path, arguments.contents) {
            (Some(p), Some(c)) => Some(
                "path="@ + p@ + ", num_lines="@ + text::decimal(line_count(c@)),
            ),
            _ => None,
        }
    } else if name == "edit_file"@ {
        match (arguments.path, arguments.old_str, arguments.new_str) {
            (Some(p), Some(_), Some(_)) => Some("path="@ + p@),
            _ => None,
        }
    } else if name == "read_dir"@ {
        match arguments.path {
            Some(p) => Some("path="@ + p@),
            None => None,
        }
    } else if name == "run_cmd"@ {
        match arguments.command {
            Some(c) => Some("command=\""@ + c@ + "\""@),
            None => None,
        }
    } else {
        None
    }
}

/// The arguments as they are shown for the tool named `name`, read from the
/// JSON text `arguments`.
pub open spec fn shown_arguments(name: Seq<char>, arguments: Seq<char>) -> Option<Seq<char>> {
    let path = json_text_member(arguments, "path"@);
    if name == "create_file"@ {
        match (path, json_text_member(arguments, "contents"@)) {
            (Some(p), Some(c)) => Some(
                "path="@ + p + ", num_lines="@ + text::decimal(line_count(c)),
            ),
            _ => None,
        }
    } else if name == "edit_file"@ {
        match (
            path,
            json_text_member(arguments, "old_str"@),
            json_text_member(arguments, "new_str"@),
        ) {
            (Some(p), Some(_), Some(_)) => Some("path="@ + p),
            _ => None,
        }
    } else if name == "read_dir"@ {
        match path {
            Some(p) => Some("path="@ + p),
            None => None,
        }
    } else if name == "run_cmd"@ {
        match json_text_member(arguments, "command"@) {
            Some(c) => Some("command=\""@ + c + "\""@),
            None => None,
        }
    } else {
        None
    }
}

/// The tool's name and, in brackets, its arguments as far as they are shown.
pub open spec fn tool_repr(name: Seq<char>, arguments: Seq<char>) -> Seq<char> {
    match shown_arguments(name, arguments) {
        Some(a) => name + " ("@ + a + ")"@,
        None => name,
    }
}

/// How a call of the tool named `tool_name` is shown, where `arguments` are
/// the members that the call holds: the name and, in brackets, the arguments
/// that matter to the user; the name alone where there are none to show.
pub fn repr_of(tool_name: &str, arguments: &ToolArguments) -> (s: String)
    ensures
        s@ == match shown_members(tool_name@, *arguments) {
            Some(a) => tool_name@ + " ("@ + a + ")"@,
            None => tool_name@,
        },
{
    proof {
        crate::tools::tool_call::lemma_tool_names_differ();
    }
    let mut shown: Option<String> = None;
    if text::str_eq(tool_name, "create_file") {
        match (&arguments.path, &arguments.contents) {
            (Some(path), Some(contents)) => {
                let lines = text::decimal_string(
                    crate::tools::create_file::count_lines(contents.as_str()) as u128,
                );
                let head = text::concat3("path=", path.as_str(), ", num_lines=");
                shown = Some(text::concat(head.as_str(), lines.as_str()));
            },
            _ => {},
        }
    } else if text::str_eq(tool_name, "edit_file") {
        match (&arguments.path, &arguments.old_str, &arguments.new_str) {
            (Some(path), Some(_), Some(_)) => {
                shown = Some(text::concat("path=", path.as_str()));
            },
            _ => {},
        }
    } else if text::str_eq(tool_name, "read_dir") {
        match &arguments.path {
            Some(path) => {
                shown = Some(text::concat("path=", path.as_str()));
            },
            None => {},
        }
    } else if text::str_eq(tool_name, "run_cmd") {
        match &arguments.command {
            Some(command) => {
                shown = Some(text::concat3("command=\"", command.as_str(), "\""));
            },
            None => {},
        }
    }
    match shown {
        Some(a) => {
            let head = text::concat3(tool_name, " (", a.as_str());
            text::concat(head.as_str(), ")")
        },
        None => text::owned(tool_name),
    }
}

/// How the call of the tool named `tool_name` with the arguments `args`, a
/// JSON text, is shown: the name and, in brackets, the arguments that matter
/// to the user. Where the arguments cannot be read the name stands alone.
pub fn get_tool_repr(tool_name: &str, args: &str) -> (s: String)
    ensures
        s@ == tool_repr(tool_name@, args@),
{
    let arguments = ToolArguments::read(args);
    repr_of(tool_name, &arguments)
}

} // verus!
