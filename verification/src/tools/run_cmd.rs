//! The tool that runs a shell command, and the list of what it never runs.

use crate::text;
use vstd::prelude::*;

verus! {

/// The arguments of a call of `run_cmd`.
#[derive(Debug)]
pub struct RunCmdArgs {
    pub command: String,
}

/// Why a command was not run.
#[derive(Debug)]
pub enum RunCmdError {
    /// The command is empty or white space only.
    CmdIsEmpty,
    /// The command holds the given entry of the deny-list.
    CmdContainsForbiddenPattern(String),
    /// The shell could not be started; the text says why.
    CouldntRunCmd(String),
}

/// The tool itself.
pub struct RunCmdTool;

/// What the shell handed back for a command: whether it ended well, its exit
/// code where it has one, and what it wrote, each as text where it is text.
#[derive(Debug)]
pub struct CommandOutput {
    pub success: bool,
    pub status_code: Option<i32>,
    pub stdout: Option<String>,
    pub stderr: Option<String>,
}

/// What a command left behind.
#[derive(Debug)]
pub struct RunCmdResponse {
    pub success: bool,
    pub status_code: Option<i32>,
    pub stdout: String,
    pub stderr: String,
}

/// The deny-list: a command that holds one of these anywhere is refused.
pub open spec fn blocked_patterns() -> Seq<Seq<char>> {
    seq![
        "rm -rf"@,
        "sudo"@,
        "curl"@,
        "wget"@,
        "dd if="@,
        "mkfs"@,
        "fdisk"@,
        "format"@,
        "deltree"@,
        "rmdir /s"@,
        "nc"@,
        "netcat"@,
        "telnet"@,
        "ssh-keygen"@,
        "passwd"@,
        "useradd"@,
        "userdel"@,
        "chmod 777"@,
        "chown root"@,
        "python -c"@,
        "perl -e"@,
        "ruby -e"@,
        "node -e"@,
    ]
}

/// The first of `patterns`, from position `from` on, that `command` holds.
pub open spec fn first_held(command: Seq<char>, patterns: Seq<Seq<char>>, from: int) -> Option<
    Seq<char>,
>
    decreases patterns.len() - from,
{
    if from < 0 || from >= patterns.len() {
        None
    } else if text::contains(command, patterns[from]) {
        Some(patterns[from])
    } else {
        first_held(command, patterns, from + 1)
    }
}

/// The first entry of the deny-list that `command` holds.
pub open spec fn first_blocked(command: Seq<char>) -> Option<Seq<char>> {
    first_held(command, blocked_patterns(), 0)
}

/// What a [`RunCmdError`] is in contracts.
pub enum RunCmdErrorModel {
    CmdIsEmpty,
    CmdContainsForbiddenPattern(Seq<char>),
    CouldntRunCmd(Seq<char>),
}

impl View for RunCmdError {
    type V = RunCmdErrorModel;

    open spec fn view(&self) -> RunCmdErrorModel {
        match self {
            RunCmdError::CmdIsEmpty => RunCmdErrorModel::CmdIsEmpty,
            RunCmdError::CmdContainsForbiddenPattern(p) =>
                RunCmdErrorModel::CmdContainsForbiddenPattern(p@),
            RunCmdError::CouldntRunCmd(e) => RunCmdErrorModel::CouldntRunCmd(e@),
        }
    }
}

impl RunCmdErrorModel {
    /// The error in words.
    pub open spec fn message_text(self) -> Seq<char> {
        match self {
            RunCmdErrorModel::CmdIsEmpty => "command is empty"@,
            RunCmdErrorModel::CmdContainsForbiddenPattern(p) =>
                "command contains a forbidden pattern: "@ + p,
            RunCmdErrorModel::CouldntRunCmd(e) => "couldn't run command: "@ + e,
        }
    }
}

/// Why a command is not valid, where it is not: it is empty where it is
/// blank, and else forbidden for the first entry of the deny-list that it
/// holds.
pub open spec fn invalid(command: Seq<char>) -> Option<RunCmdErrorModel> {
    if text::is_blank(command) {
        Some(RunCmdErrorModel::CmdIsEmpty)
    } else {
        match first_blocked(command) {
            Some(p) => Some(RunCmdErrorModel::CmdContainsForbiddenPattern(p)),
            None => None,
        }
    }
}

/// What validating a command gives: nothing, or the words of the error.
pub open spec fn validated(command: Seq<char>) -> Result<(), Seq<char>> {
    match invalid(command) {
        Some(e) => Err(e.message_text()),
        None => Ok(()),
    }
}

/// What running a command comes to, where it comes to an error: the command
/// is not valid, or the shell could not be started.
pub open spec fn failure(command: Seq<char>, ran: Result<CommandOutput, String>) -> Option<
    RunCmdErrorModel,
> {
    match invalid(command) {
        Some(e) => Some(e),
        None => match ran {
            Err(why) => Some(RunCmdErrorModel::CouldntRunCmd(why@)),
            Ok(_) => None,
        },
    }
}

/// The character sequences of `v`, in order.
pub open spec fn literals(v: Seq<&'static str>) -> Seq<Seq<char>> {
    v.map_values(|s: &'static str| s@)
}

/// The deny-list, in the order in which it is tried.
pub fn blocked_cmd_patterns() -> (list: Vec<&'static str>)
    ensures
        literals(list@) == blocked_patterns(),
{
    let mut list: Vec<&'static str> = Vec::new();
    list.push("rm -rf");
    list.push("sudo");
    list.push("curl");
    list.push("wget");
    list.push("dd if=");
    list.push("mkfs");
    list.push("fdisk");
    list.push("format");
    list.push("deltree");
    list.push("rmdir /s");
    list.push("nc");
    list.push("netcat");
    list.push("telnet");
    list.push("ssh-keygen");
    list.push("passwd");
    list.push("useradd");
    list.push("userdel");
    list.push("chmod 777");
    list.push("chown root");
    list.push("python -c");
    list.push("perl -e");
    list.push("ruby -e");
    list.push("node -e");
    assert(literals(list@) =~= blocked_patterns());
    list
}

impl RunCmdError {
    /// What [`RunCmdError::message`] returns.
    pub open spec fn message_text(self) -> Seq<char> {
        self@.message_text()
    }

    /// The error in words.
    pub fn message(&self) -> (m: String)
        ensures
            m@ == self.message_text(),
    {
        match self {
            RunCmdError::CmdIsEmpty => text::owned("command is empty"),
            RunCmdError::CmdContainsForbiddenPattern(p) => text::concat(
                "command contains a forbidden pattern: ",
                p.as_str(),
            ),
            RunCmdError::CouldntRunCmd(e) => text::concat("couldn't run command: ", e.as_str()),
        }
    }
}

impl RunCmdTool {
    /// The name under which the model calls the tool.
    pub const NAME: &'static str = "run_cmd";

    /// Checks a command before it is run. A blank command is refused as
    /// empty. Any other is refused where it holds an entry of the deny-list,
    /// for the first such entry in the list's order, whatever the user has
    /// approved. Every other command is accepted.
    pub fn validate(args: &RunCmdArgs) -> (r: Result<(), RunCmdError>)
        ensures
            match r {
                Ok(()) => invalid(args.command@) is None,
                Err(e) => invalid(args.command@) == Some(e@),
            },
    {
        let command = text::to_chars(args.command.as_str());
        if text::blank(&command) {
            return Err(RunCmdError::CmdIsEmpty);
        }
        let list = blocked_cmd_patterns();
        let mut i: usize = 0;
        while i < list.len()
            invariant
                i <= list.len(),
                command@ == args.command@,
                !text::is_blank(args.command@),
                literals(list@) == blocked_patterns(),
                first_blocked(args.command@) == first_held(
                    args.command@,
                    blocked_patterns(),
                    i as int,
                ),
            decreases list.len() - i,
        {
            assert(literals(list@)[i as int] == list@[i as int]@);
            let pattern = text::to_chars(list[i]);
            assert(blocked_patterns()[i as int] == pattern@);
            if text::has(&command, &pattern) {
                assert(first_held(args.command@, blocked_patterns(), i as int) == Some(pattern@));
                return Err(RunCmdError::CmdContainsForbiddenPattern(text::owned(list[i])));
            }
            assert(first_held(args.command@, blocked_patterns(), i as int) == first_held(
                args.command@,
                blocked_patterns(),
                i + 1,
            ));
            i += 1;
        }
        Ok(())
    }

    /// What running a command comes to: `ran` is what the shell handed
    /// back, or why it could not be started. A command that is not valid
    /// is refused whatever `ran` holds. A command that ran gets its
    /// response, also where it ended badly by its own account: that is for
    /// the model to read, and no error here.
    pub fn call(args: &RunCmdArgs, ran: Result<CommandOutput, String>) -> (r: Result<
        RunCmdResponse,
        RunCmdError,
    >)
        ensures
            match r {
                Ok(response) => {
                    &&& failure(args.command@, ran) is None
                    &&& ran matches Ok(output)
                    &&& response.success == output.success
                    &&& response.status_code == output.status_code
                    &&& response.stdout@ == match output.stdout {
                        Some(s) => s@,
                        None => "couldn't get command stdout"@,
                    }
                    &&& response.stderr@ == match output.stderr {
                        Some(s) => s@,
                        None => "couldn't get command stderr"@,
                    }
                },
                Err(e) => failure(args.command@, ran) == Some(e@),
            },
    {
        Self::validate(args)?;
        match ran {
            Err(why) => Err(RunCmdError::CouldntRunCmd(why)),
            Ok(output) => Ok(
                Self::response(output.success, output.status_code, output.stdout, output.stderr),
            ),
        }
    }

    /// How the call is shown: `run_cmd: ` and the command.
    pub fn repr(args: &RunCmdArgs) -> (s: String)
        ensures
            s@ == "run_cmd: "@ + args.command@,
    {
        text::concat("run_cmd: ", args.command.as_str())
    }

    /// What is shown before the user is asked: nothing more than the call.
    pub fn details(_args: &RunCmdArgs) -> (d: Option<String>)
        ensures
            d is None,
    {
        None
    }

    /// The response for a command that ran. Where the bytes that the command
    /// wrote were no text, `stdout` or `stderr` is `None`, and a fixed
    /// sentence stands in its place.
    pub fn response(
        success: bool,
        status_code: Option<i32>,
        stdout: Option<String>,
        stderr: Option<String>,
    ) -> (r: RunCmdResponse)
        ensures
            r.success == success,
            r.status_code == status_code,
            r.stdout@ == match stdout {
                Some(s) => s@,
                None => "couldn't get command stdout"@,
            },
            r.stderr@ == match stderr {
                Some(s) => s@,
                None => "couldn't get command stderr"@,
            },
    {
        let stdout = match stdout {
            Some(s) => s,
            None => text::owned("couldn't get command stdout"),
        };
        let stderr = match stderr {
            Some(s) => s,
            None => text::owned("couldn't get command stderr"),
        };
        RunCmdResponse { success, status_code, stdout, stderr }
    }
}

/// A command that holds an entry of the deny-list is never valid.
/// Validation takes the command alone, so no approval can change that.
pub proof fn lemma_blocked_is_refused(command: Seq<char>, i: int)
    requires
        0 <= i < blocked_patterns().len(),
        text::contains(command, blocked_patterns()[i]),
    ensures
        validated(command) is Err,
{
    lemma_held_from(command, blocked_patterns(), 0, i);
}

/// Where `command` holds the pattern at position `i`, some pattern is found
/// from every position up to `i`.
pub proof fn lemma_held_from(command: Seq<char>, patterns: Seq<Seq<char>>, from: int, i: int)
    requires
        0 <= from <= i < patterns.len(),
        text::contains(command, patterns[i]),
    ensures
        first_held(command, patterns, from) is Some,
    decreases i - from,
{
    if from < i && !text::contains(command, patterns[from]) {
        lemma_held_from(command, patterns, from + 1, i);
    }
}

} // verus!
