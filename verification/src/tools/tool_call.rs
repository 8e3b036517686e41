//! A tool call in its typed form: which tool, with which arguments.

use crate::domain::message::ToolCall;
use crate::helpers::diff::shows_diff_of;
use crate::json::{json_text_member, text_member};
use crate::text;
use crate::tools::create_file::{CreateFileArgs, CreateFileTool};
use crate::tools::edit_file::{EditFileArgs, EditFileTool};
use crate::tools::read_dir::{ReadDirArgs, ReadDirTool};
use crate::tools::read_file::{ReadFileArgs, ReadFileTool};
use crate::tools::run_cmd::{RunCmdArgs, RunCmdTool};
use vstd::prelude::*;

verus! {

/// A tool call that was understood: one of the five tools, with its
/// arguments.
#[derive(Debug)]
#[allow(inconsistent_fields)]
pub enum AgxToolCall {
    CreateFile { args: CreateFileArgs },
    EditFile { args: EditFileArgs },
    ReadFile { args: ReadFileArgs },
    ReadDir { args: ReadDirArgs },
    RunCmd { args: RunCmdArgs },
}

/// Why a tool call was not understood.
#[derive(Debug)]
pub enum AgxToolCallError {
    /// No tool has this name.
    UnknownTool(String),
    /// The arguments lack what the tool needs; the text says what.
    InvalidArgs(String),
}

/// Why a tool's result could not be handed on.
#[derive(Debug)]
pub enum ToolExecutionError {
    CouldntSerialiseResult(String),
}

/// Why no preview of a tool call could be made.
#[derive(Debug)]
pub struct ToolCallDetailsError(pub String);

/// Whether a tool has this name.
pub open spec fn known_tool(name: Seq<char>) -> bool {
    ||| name == "create_file"@
    ||| name == "edit_file"@
    ||| name == "read_file"@
    ||| name == "read_dir"@
    ||| name == "run_cmd"@
}

/// The members that the arguments of the tool named `name` must hold, each
/// as a string, in the order in which they are looked for.
pub open spec fn required_members(name: Seq<char>) -> Seq<Seq<char>> {
    if name == "create_file"@ {
        seq!["path"@, "contents"@]
    } else if name == "edit_file"@ {
        seq!["path"@, "old_str"@, "new_str"@]
    } else if name == "read_file"@ {
        seq!["path"@]
    } else if name == "read_dir"@ {
        seq!["path"@]
    } else if name == "run_cmd"@ {
        seq!["command"@]
    } else {
        Seq::empty()
    }
}

/// The first of `keys`, from position `from` on, that `arguments` does not
/// hold as a string.
pub open spec fn first_missing(arguments: Seq<char>, keys: Seq<Seq<char>>, from: int) -> Option<
    Seq<char>,
>
    decreases keys.len() - from,
{
    if from < 0 || from >= keys.len() {
        None
    } else if json_text_member(arguments, keys[from]) is None {
        Some(keys[from])
    } else {
        first_missing(arguments, keys, from + 1)
    }
}

impl AgxToolCallError {
    /// What [`AgxToolCallError::message`] returns.
    pub open spec fn message_text(self) -> Seq<char> {
        match self {
            AgxToolCallError::UnknownTool(name) => "unknown tool: "@ + name@,
            AgxToolCallError::InvalidArgs(why) => "invalid arguments: "@ + why@,
        }
    }

    /// The error in words.
    pub fn message(&self) -> (m: String)
        ensures
            m@ == self.message_text(),
    {
        match self {
            AgxToolCallError::UnknownTool(name) => text::concat("unknown tool: ", name.as_str()),
            AgxToolCallError::InvalidArgs(why) => text::concat(
                "invalid arguments: ",
                why.as_str(),
            ),
        }
    }
}

impl ToolExecutionError {
    /// What [`ToolExecutionError::message`] returns.
    pub open spec fn message_text(self) -> Seq<char> {
        match self {
            ToolExecutionError::CouldntSerialiseResult(e) => "couldn't serialise result: "@ + e@,
        }
    }

    /// The error in words.
    pub fn message(&self) -> (m: String)
        ensures
            m@ == self.message_text(),
    {
        match self {
            ToolExecutionError::CouldntSerialiseResult(e) => text::concat(
                "couldn't serialise result: ",
                e.as_str(),
            ),
        }
    }
}

impl ToolCallDetailsError {
    /// The error that says `msg`.
    pub fn new(msg: &str) -> (e: ToolCallDetailsError)
        ensures
            e.0@ == msg@,
    {
        ToolCallDetailsError(text::owned(msg))
    }

    /// What the error says.
    pub fn message(&self) -> (m: &str)
        ensures
            m@ == self.0@,
    {
        self.0.as_str()
    }
}

/// What the tools read from the arguments of a call: each member as the
/// arguments hold it, as a string or not at all.
#[derive(Debug)]
pub struct ToolArguments {
    pub path: Option<String>,
    pub contents: Option<String>,
    pub old_str: Option<String>,
    pub new_str: Option<String>,
    pub command: Option<String>,
}

/// The error that names a member that the arguments lack.
fn missing(key: &str) -> (e: AgxToolCallError)
    ensures
        e matches AgxToolCallError::InvalidArgs(why) && why@ == "missing text field `"@ + key@
            + "`"@,
{
    AgxToolCallError::InvalidArgs(text::concat3("missing text field `", key, "`"))
}

impl ToolArguments {
    /// Whether these are the members that the JSON text `arguments` holds.
    pub open spec fn holds(self, arguments: Seq<char>) -> bool {
        &&& text::opt_view(self.path) == json_text_member(arguments, "path"@)
        &&& text::opt_view(self.contents) == json_text_member(arguments, "contents"@)
        &&& text::opt_view(self.old_str) == json_text_member(arguments, "old_str"@)
        &&& text::opt_view(self.new_str) == json_text_member(arguments, "new_str"@)
        &&& text::opt_view(self.command) == json_text_member(arguments, "command"@)
    }

    /// The first member that the tool named `name` needs and that is not
    /// there; `None` where all are there, and for a name that no tool has.
    pub open spec fn first_absent(self, name: Seq<char>) -> Option<Seq<char>> {
        if name == "create_file"@ {
            if self.path is None {
                Some("path"@)
            } else if self.contents is None {
                Some("contents"@)
            } else {
                None
            }
        } else if name == "edit_file"@ {
            if self.path is None {
                Some("path"@)
            } else if self.old_str is None {
                Some("old_str"@)
            } else if self.new_str is None {
                Some("new_str"@)
            } else {
                None
            }
        } else if name == "read_file"@ || name == "read_dir"@ {
            if self.path is None {
                Some("path"@)
            } else {
                None
            }
        } else if name == "run_cmd"@ {
            if self.command is None {
                Some("command"@)
            } else {
                None
            }
        } else {
            None
        }
    }

    /// The members that the JSON text `arguments` holds.
    pub fn read(arguments: &str) -> (a: ToolArguments)
        ensures
            a.holds(arguments@),
    {
        ToolArguments {
            path: text_member(arguments, "path"),
            contents: text_member(arguments, "contents"),
            old_str: text_member(arguments, "old_str"),
            new_str: text_member(arguments, "new_str"),
            command: text_member(arguments, "command"),
        }
    }
}

/// Where the members are those that the text holds, the first that is not
/// there is the first that the text lacks.
pub proof fn lemma_first_absent(a: ToolArguments, name: Seq<char>, arguments: Seq<char>)
    requires
        a.holds(arguments),
    ensures
        a.first_absent(name) == first_missing(arguments, required_members(name), 0),
{
    reveal_with_fuel(first_missing, 4);
    lemma_tool_names_differ();
}

impl AgxToolCall {
    /// Whether the typed call is the tool named `name` with the members of
    /// `arguments` as its arguments.
    pub open spec fn takes(self, name: Seq<char>, arguments: ToolArguments) -> bool {
        match self {
            AgxToolCall::CreateFile { args } => {
                &&& name == "create_file"@
                &&& arguments.path == Some(args.path)
                &&& arguments.contents == Some(args.contents)
            },
            AgxToolCall::EditFile { args } => {
                &&& name == "edit_file"@
                &&& arguments.path == Some(args.path)
                &&& arguments.old_str == Some(args.old_str)
                &&& arguments.new_str == Some(args.new_str)
            },
            AgxToolCall::ReadFile { args } => {
                &&& name == "read_file"@
                &&& arguments.path == Some(args.path)
            },
            AgxToolCall::ReadDir { args } => {
                &&& name == "read_dir"@
                &&& arguments.path == Some(args.path)
            },
            AgxToolCall::RunCmd { args } => {
                &&& name == "run_cmd"@
                &&& arguments.command == Some(args.command)
            },
        }
    }

    /// Whether the typed call holds what `call` says: it is the tool that
    /// `call` names, and each argument is the string that the arguments of
    /// `call` hold under its name.
    pub open spec fn reads(self, call: ToolCall) -> bool {
        let a = call.arguments@;
        match self {
            AgxToolCall::CreateFile { args } => {
                &&& call.name@ == "create_file"@
                &&& json_text_member(a, "path"@) == Some(args.path@)
                &&& json_text_member(a, "contents"@) == Some(args.contents@)
            },
            AgxToolCall::EditFile { args } => {
                &&& call.name@ == "edit_file"@
                &&& json_text_member(a, "path"@) == Some(args.path@)
                &&& json_text_member(a, "old_str"@) == Some(args.old_str@)
                &&& json_text_member(a, "new_str"@) == Some(args.new_str@)
            },
            AgxToolCall::ReadFile { args } => {
                &&& call.name@ == "read_file"@
                &&& json_text_member(a, "path"@) == Some(args.path@)
            },
            AgxToolCall::ReadDir { args } => {
                &&& call.name@ == "read_dir"@
                &&& json_text_member(a, "path"@) == Some(args.path@)
            },
            AgxToolCall::RunCmd { args } => {
                &&& call.name@ == "run_cmd"@
                &&& json_text_member(a, "command"@) == Some(args.command@)
            },
        }
    }

    /// The typed call of the tool named `name` with the members `arguments`.
    /// A name that no tool has is refused as unknown. For a known tool each
    /// member that the tool needs must be there; the first that is not is
    /// named in the error. Members that the tool does not need are passed
    /// over.
    pub fn from_arguments(name: &str, arguments: ToolArguments) -> (r: Result<
        AgxToolCall,
        AgxToolCallError,
    >)
        ensures
            match r {
                Ok(typed) => typed.takes(name@, arguments) && arguments.first_absent(name@)
                    is None,
                Err(AgxToolCallError::UnknownTool(unknown)) => !known_tool(name@) && unknown@
                    == name@,
                Err(AgxToolCallError::InvalidArgs(why)) => {
                    &&& known_tool(name@)
                    &&& arguments.first_absent(name@) matches Some(key)
                    &&& why@ == "missing text field `"@ + key + "`"@
                },
            },
    {
        proof {
            lemma_tool_names_differ();
        }
        if text::str_eq(name, "create_file") {
            match (arguments.path, arguments.contents) {
                (Some(path), Some(contents)) => Ok(
                    AgxToolCall::CreateFile { args: CreateFileArgs { path, contents } },
                ),
                (None, _) => Err(missing("path")),
                (_, None) => Err(missing("contents")),
            }
        } else if text::str_eq(name, "edit_file") {
            match (arguments.path, arguments.old_str, arguments.new_str) {
                (Some(path), Some(old_str), Some(new_str)) => Ok(
                    AgxToolCall::EditFile { args: EditFileArgs { path, old_str, new_str } },
                ),
                (None, _, _) => Err(missing("path")),
                (_, None, _) => Err(missing("old_str")),
                (_, _, None) => Err(missing("new_str")),
            }
        } else if text::str_eq(name, "read_file") {
            match arguments.path {
                Some(path) => Ok(AgxToolCall::ReadFile { args: ReadFileArgs { path } }),
                None => Err(missing("path")),
            }
        } else if text::str_eq(name, "read_dir") {
            match arguments.path {
                Some(path) => Ok(AgxToolCall::ReadDir { args: ReadDirArgs { path } }),
                None => Err(missing("path")),
            }
        } else if text::str_eq(name, "run_cmd") {
            match arguments.command {
                Some(command) => Ok(AgxToolCall::RunCmd { args: RunCmdArgs { command } }),
                None => Err(missing("command")),
            }
        } else {
            Err(AgxToolCallError::UnknownTool(text::owned(name)))
        }
    }

    /// The typed form of `call`. A name that no tool has is refused as
    /// unknown. For a known tool the arguments must hold each member that
    /// the tool needs as a string; the first that they do not hold is named
    /// in the error.
    pub fn try_from(call: &ToolCall) -> (r: Result<AgxToolCall, AgxToolCallError>)
        ensures
            match r {
                Ok(typed) => typed.reads(*call) && first_missing(
                    call.arguments@,
                    required_members(call.name@),
                    0,
                ) is None,
                Err(AgxToolCallError::UnknownTool(name)) => !known_tool(call.name@) && name@
                    == call.name@,
                Err(AgxToolCallError::InvalidArgs(why)) => {
                    &&& known_tool(call.name@)
                    &&& first_missing(call.arguments@, required_members(call.name@), 0) matches Some(
                        key,
                    )
                    &&& why@ == "missing text field `"@ + key + "`"@
                },
            },
    {
        let arguments = ToolArguments::read(call.arguments.as_str());
        proof {
            lemma_first_absent(arguments, call.name@, call.arguments@);
        }
        AgxToolCall::from_arguments(call.name.as_str(), arguments)
    }

    /// What [`AgxToolCall::repr`] returns.
    pub open spec fn repr_text(self) -> Seq<char> {
        match self {
            AgxToolCall::CreateFile { args } => "create_file: "@ + args.path@,
            AgxToolCall::EditFile { args } => "edit_file: "@ + args.path@,
            AgxToolCall::ReadFile { args } => "read_file: "@ + args.path@,
            AgxToolCall::ReadDir { args } => "read_dir: "@ + args.path@,
            AgxToolCall::RunCmd { args } => "run_cmd: "@ + args.command@,
        }
    }

    /// How the call is shown: the tool's name, a colon, and the path or the
    /// command.
    pub fn repr(&self) -> (s: String)
        ensures
            s@ == self.repr_text(),
    {
        match self {
            AgxToolCall::CreateFile { args } => CreateFileTool::repr(args),
            AgxToolCall::EditFile { args } => EditFileTool::repr(args),
            AgxToolCall::ReadFile { args } => ReadFileTool::repr(args),
            AgxToolCall::ReadDir { args } => ReadDirTool::repr(args),
            AgxToolCall::RunCmd { args } => RunCmdTool::repr(args),
        }
    }

    /// Whether the call changes something: it creates a file, edits one or
    /// runs a command.
    pub open spec fn mutates(self) -> bool {
        self is EditFile || self is CreateFile || self is RunCmd
    }

    /// Whether the call waits for the user's consent: every call that
    /// changes something does, a read never.
    pub fn needs_confirmation(&self) -> (needed: bool)
        ensures
            needed == self.mutates(),
    {
        match self {
            AgxToolCall::EditFile { .. } => true,
            AgxToolCall::CreateFile { .. } => true,
            AgxToolCall::RunCmd { .. } => true,
            _ => false,
        }
    }

    /// What validating the call's arguments gives, before anything is
    /// touched: nothing, or the words of the error.
    pub open spec fn validated(self) -> Result<(), Seq<char>> {
        match self {
            AgxToolCall::CreateFile { args } => CreateFileTool::validated(args),
            AgxToolCall::EditFile { args } => EditFileTool::validated(args),
            AgxToolCall::ReadFile { args } => ReadFileTool::validated(args),
            AgxToolCall::ReadDir { args } => ReadDirTool::validated(args),
            AgxToolCall::RunCmd { args } => crate::tools::run_cmd::validated(args.command@),
        }
    }

    /// Checks the call's arguments as its tool does, before anything is
    /// touched and whatever has been approved. The error comes in words.
    pub fn validate(&self) -> (r: Result<(), String>)
        ensures
            match r {
                Ok(()) => self.validated() is Ok,
                Err(why) => self.validated() == Err::<(), Seq<char>>(why@),
            },
    {
        match self {
            AgxToolCall::CreateFile { args } => match CreateFileTool::validate(args) {
                Ok(()) => Ok(()),
                Err(e) => Err(e.message()),
            },
            AgxToolCall::EditFile { args } => match EditFileTool::validate(args) {
                Ok(()) => Ok(()),
                Err(e) => Err(e.message()),
            },
            AgxToolCall::ReadFile { args } => match ReadFileTool::validate(args) {
                Ok(()) => Ok(()),
                Err(e) => Err(e.message()),
            },
            AgxToolCall::ReadDir { args } => match ReadDirTool::validate(args) {
                Ok(()) => Ok(()),
                Err(e) => Err(e.message()),
            },
            AgxToolCall::RunCmd { args } => match RunCmdTool::validate(args) {
                Ok(()) => Ok(()),
                Err(e) => Err(e.message()),
            },
        }
    }

    /// What is shown before the user is asked. For an edit that is the diff
    /// of the file as a terminal shows it, and `current` holds what the file
    /// holds now; an edit that would change nothing is an error, and every
    /// other edit has a diff to show. A new file is shown whole.
    /// Reads and commands show nothing more than the call.
    pub fn details(&self, current: &str) -> (r: Result<Option<String>, ToolCallDetailsError>)
        ensures
            match *self {
                AgxToolCall::EditFile { args } => {
                    &&& r is Err <==> text::replace_all(current@, args.old_str@, args.new_str@)
                        == current@
                    &&& r matches Err(e) ==> e.0@ == "nothing will change in the file"@
                    &&& match r {
                        Ok(Some(shown)) => shows_diff_of(
                            shown@,
                            current@,
                            text::replace_all(current@, args.old_str@, args.new_str@),
                        ),
                        Ok(None) => false,
                        Err(_) => true,
                    }
                },
                AgxToolCall::CreateFile { args } => r matches Ok(Some(shown)) && shown@
                    == args.contents@,
                _ => r matches Ok(None),
            },
    {
        match self {
            AgxToolCall::EditFile { args } => match EditFileTool::details(args, current) {
                Ok(d) => Ok(d),
                Err(e) => Err(ToolCallDetailsError(e.message())),
            },
            AgxToolCall::CreateFile { args } => Ok(CreateFileTool::details(args)),
            AgxToolCall::ReadFile { args } => Ok(ReadFileTool::details(args)),
            AgxToolCall::ReadDir { args } => Ok(ReadDirTool::details(args)),
            AgxToolCall::RunCmd { args } => Ok(RunCmdTool::details(args)),
        }
    }
}

/// No two tools share a name.
pub proof fn lemma_tool_names_differ()
    ensures
        "create_file"@ != "edit_file"@,
        "create_file"@ != "read_file"@,
        "create_file"@ != "read_dir"@,
        "create_file"@ != "run_cmd"@,
        "edit_file"@ != "read_file"@,
        "edit_file"@ != "read_dir"@,
        "edit_file"@ != "run_cmd"@,
        "read_file"@ != "read_dir"@,
        "read_file"@ != "run_cmd"@,
        "read_dir"@ != "run_cmd"@,
{
    reveal_strlit("create_file");
    reveal_strlit("edit_file");
    reveal_strlit("read_file");
    reveal_strlit("read_dir");
    reveal_strlit("run_cmd");
    assert("create_file"@[0] == 'c');
    assert("edit_file"@[0] == 'e');
    assert("read_file"@[0] == 'r');
    assert("read_dir"@[0] == 'r');
    assert("run_cmd"@[1] == 'u');
    assert("read_file"@[1] == 'e');
    assert("read_dir"@[1] == 'e');
    assert("read_file"@.len() == 9);
    assert("read_dir"@.len() == 8);
}

} // verus!
