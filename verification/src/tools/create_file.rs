//! The tool that creates a file, and what it asks of its arguments first.

use crate::helpers::fs::in_workspace;
use crate::text;
use crate::tools::helpers::fs::{is_path_in_workspace, PathProbe};
use vstd::prelude::*;

verus! {

/// The arguments of a call of `create_file`.
#[derive(Debug)]
pub struct CreateFileArgs {
    pub path: String,
    pub contents: String,
}

/// Why a file was not created.
#[derive(Debug)]
pub enum CreateFileError {
    InvalidInput(String),
    PathNotAllowed,
    CouldntGetMetadata(String),
    AlreadyExists,
    IsADir,
    CouldntCreateDirectory(String),
    CouldntWriteToFile(String),
}

/// The tool itself.
pub struct CreateFileTool;

/// What the tool reports of a file it wrote.
#[derive(Debug)]
pub struct CreateFileResponse {
    pub path: String,
    pub num_bytes_written: usize,
}

/// The number of lines of `s`: one for each line feed, and one more for what
/// follows the last line feed where that is not empty.
pub open spec fn line_count(s: Seq<char>) -> nat
    decreases s.len(),
{
    if s.len() == 0 {
        0
    } else if s.len() == 1 {
        1
    } else if s[s.len() - 2] == '\n' {
        (line_count(s.drop_last()) + 1) as nat
    } else {
        line_count(s.drop_last())
    }
}

/// The number of lines of `contents`.
pub fn count_lines(contents: &str) -> (n: usize)
    ensures
        n == line_count(contents@),
{
    let chars = text::to_chars(contents);
    let mut n: usize = 0;
    let mut i: usize = 0;
    assert(chars@.take(0) == Seq::<char>::empty());
    while i < chars.len()
        invariant
            i <= chars.len(),
            n <= i,
            n == line_count(chars@.take(i as int)),
        decreases chars.len() - i,
    {
        let ghost next = chars@.take(i + 1);
        assert(next.drop_last() == chars@.take(i as int));
        if i == 0 || chars[i - 1] == '\n' {
            assert(i > 0 ==> next[next.len() - 2] == chars@[i - 1]);
            n += 1;
        } else {
            assert(next[next.len() - 2] == chars@[i - 1]);
        }
        i += 1;
    }
    assert(chars@.take(chars.len() as int) == chars@);
    n
}

/// What a [`CreateFileError`] is in contracts.
pub enum CreateFileErrorModel {
    InvalidInput(Seq<char>),
    PathNotAllowed,
    CouldntGetMetadata(Seq<char>),
    AlreadyExists,
    IsADir,
    CouldntCreateDirectory(Seq<char>),
    CouldntWriteToFile(Seq<char>),
}

impl View for CreateFileError {
    type V = CreateFileErrorModel;

    open spec fn view(&self) -> CreateFileErrorModel {
        match self {
            CreateFileError::InvalidInput(m) => CreateFileErrorModel::InvalidInput(m@),
            CreateFileError::PathNotAllowed => CreateFileErrorModel::PathNotAllowed,
            CreateFileError::CouldntGetMetadata(e) => CreateFileErrorModel::CouldntGetMetadata(e@),
            CreateFileError::AlreadyExists => CreateFileErrorModel::AlreadyExists,
            CreateFileError::IsADir => CreateFileErrorModel::IsADir,
            CreateFileError::CouldntCreateDirectory(e) =>
                CreateFileErrorModel::CouldntCreateDirectory(e@),
            CreateFileError::CouldntWriteToFile(e) => CreateFileErrorModel::CouldntWriteToFile(e@),
        }
    }
}

impl CreateFileErrorModel {
    /// The error in words.
    pub open spec fn message_text(self) -> Seq<char> {
        match self {
            CreateFileErrorModel::InvalidInput(m) => "invalid input provided: "@ + m,
            CreateFileErrorModel::PathNotAllowed =>
                "absolute paths and parent directory traversal ('..') are not allowed"@,
            CreateFileErrorModel::CouldntGetMetadata(e) => "couldn't get metadata for path: "@ + e,
            CreateFileErrorModel::AlreadyExists => "file already exists"@,
            CreateFileErrorModel::IsADir => "a directory already exists at this path"@,
            CreateFileErrorModel::CouldntCreateDirectory(e) => "couldn't create directory: "@ + e,
            CreateFileErrorModel::CouldntWriteToFile(e) => "couldn't write to file: "@ + e,
        }
    }
}

impl CreateFileError {
    /// What [`CreateFileError::message`] returns.
    pub open spec fn message_text(self) -> Seq<char> {
        self@.message_text()
    }

    /// The error in words.
    pub fn message(&self) -> (m: String)
        ensures
            m@ == self.message_text(),
    {
        match self {
            CreateFileError::InvalidInput(m) => text::concat(
                "invalid input provided: ",
                m.as_str(),
            ),
            CreateFileError::PathNotAllowed => text::owned(
                "absolute paths and parent directory traversal ('..') are not allowed",
            ),
            CreateFileError::CouldntGetMetadata(e) => text::concat(
                "couldn't get metadata for path: ",
                e.as_str(),
            ),
            CreateFileError::AlreadyExists => text::owned("file already exists"),
            CreateFileError::IsADir => text::owned("a directory already exists at this path"),
            CreateFileError::CouldntCreateDirectory(e) => text::concat(
                "couldn't create directory: ",
                e.as_str(),
            ),
            CreateFileError::CouldntWriteToFile(e) => text::concat(
                "couldn't write to file: ",
                e.as_str(),
            ),
        }
    }
}

impl CreateFileArgs {
    /// How the arguments are shown: the path and the number of lines.
    pub open spec fn shown(self) -> Seq<char> {
        "path="@ + self.path@ + ", num_lines="@ + text::decimal(line_count(self.contents@))
    }

    /// The number of lines of the contents.
    pub fn num_lines(&self) -> (n: usize)
        ensures
            n == line_count(self.contents@),
    {
        count_lines(self.contents.as_str())
    }

    /// The arguments as they are shown in a request for consent.
    pub fn display(&self) -> (s: String)
        ensures
            s@ == self.shown(),
    {
        let lines = text::decimal_string(self.num_lines() as u128);
        let mut s = text::concat3("path=", self.path.as_str(), ", num_lines=");
        s = text::concat(s.as_str(), lines.as_str());
        s
    }
}

impl CreateFileTool {
    /// The name under which the model calls the tool.
    pub const NAME: &'static str = "create_file";

    /// Why the arguments are not valid, where they are not: the path is
    /// empty, or it is absolute or has a `..` component.
    pub open spec fn invalid(args: CreateFileArgs) -> Option<CreateFileErrorModel> {
        if args.path@.len() == 0 {
            Some(CreateFileErrorModel::InvalidInput("path cannot be empty"@))
        } else if !in_workspace(args.path@) {
            Some(CreateFileErrorModel::PathNotAllowed)
        } else {
            None
        }
    }

    /// What validating the arguments gives, before the file system is
    /// looked at: nothing, or the words of the error.
    pub open spec fn validated(args: CreateFileArgs) -> Result<(), Seq<char>> {
        match Self::invalid(args) {
            Some(e) => Err(e.message_text()),
            None => Ok(()),
        }
    }

    /// Why no file is created, where none is, given what was found and done.
    /// The first of these that fails decides: the validation of the
    /// arguments, the look at the path, the making of directories, the
    /// writing.
    pub open spec fn failure(
        args: CreateFileArgs,
        probe: PathProbe,
        made_dirs: Result<(), String>,
        written: Result<(), String>,
    ) -> Option<CreateFileErrorModel> {
        match Self::invalid(args) {
            Some(e) => Some(e),
            None => match probe {
                PathProbe::Failed(why) => Some(CreateFileErrorModel::CouldntGetMetadata(why@)),
                PathProbe::Found { is_file, is_dir } => if is_dir {
                    Some(CreateFileErrorModel::IsADir)
                } else {
                    Some(CreateFileErrorModel::AlreadyExists)
                },
                PathProbe::Missing => match made_dirs {
                    Err(why) => Some(CreateFileErrorModel::CouldntCreateDirectory(why@)),
                    Ok(()) => match written {
                        Err(why) => Some(CreateFileErrorModel::CouldntWriteToFile(why@)),
                        Ok(()) => None,
                    },
                },
            },
        }
    }

    /// Checks the arguments: the path is not empty, is relative and has no
    /// `..` component.
    pub fn validate(args: &CreateFileArgs) -> (r: Result<(), CreateFileError>)
        ensures
            match r {
                Ok(()) => Self::invalid(*args) is None,
                Err(e) => Self::invalid(*args) == Some(e@),
            },
    {
        if args.path.as_str().unicode_len() == 0 {
            return Err(CreateFileError::InvalidInput(text::owned("path cannot be empty")));
        }
        if !is_path_in_workspace(args.path.as_str()) {
            return Err(CreateFileError::PathNotAllowed);
        }
        Ok(())
    }

    /// Decides from a look at the path whether the file may be written:
    /// only where nothing is there yet.
    pub fn check_target(probe: PathProbe) -> (r: Result<(), CreateFileError>)
        ensures
            match probe {
                PathProbe::Missing => r is Ok,
                PathProbe::Found { is_file, is_dir } => if is_dir {
                    r matches Err(CreateFileError::IsADir)
                } else {
                    r matches Err(CreateFileError::AlreadyExists)
                },
                PathProbe::Failed(why) => r matches Err(CreateFileError::CouldntGetMetadata(e))
                    && e@ == why@,
            },
    {
        match probe {
            PathProbe::Missing => Ok(()),
            PathProbe::Found { is_file: _, is_dir } => {
                if is_dir {
                    Err(CreateFileError::IsADir)
                } else {
                    Err(CreateFileError::AlreadyExists)
                }
            },
            PathProbe::Failed(why) => Err(CreateFileError::CouldntGetMetadata(why)),
        }
    }

    /// What creating a file comes to, given what was found and done:
    /// `probe` is the look at the path, `made_dirs` says whether the
    /// directories above the file were made, `written` whether the file was
    /// written, each with the reason where it failed. The first of these
    /// that fails decides, and its error is returned (see
    /// [`CreateFileTool::failure`]). Where all pass the file is reported.
    pub fn call_inner(
        args: &CreateFileArgs,
        probe: PathProbe,
        made_dirs: Result<(), String>,
        written: Result<(), String>,
    ) -> (r: Result<CreateFileResponse, CreateFileError>)
        ensures
            match r {
                Ok(response) => {
                    &&& Self::failure(*args, probe, made_dirs, written) is None
                    &&& response.path@ == args.path@
                    &&& response.num_bytes_written == text::byte_len(args.contents@) as usize
                },
                Err(e) => Self::failure(*args, probe, made_dirs, written) == Some(e@),
            },
    {
        Self::validate(args)?;
        Self::check_target(probe)?;
        match made_dirs {
            Err(why) => {
                return Err(CreateFileError::CouldntCreateDirectory(why));
            },
            Ok(()) => {},
        }
        match written {
            Err(why) => Err(CreateFileError::CouldntWriteToFile(why)),
            Ok(()) => Ok(Self::response(args)),
        }
    }

    /// The report of a file that was written: its path and the number of
    /// bytes of its contents.
    pub fn response(args: &CreateFileArgs) -> (r: CreateFileResponse)
        ensures
            r.path@ == args.path@,
            r.num_bytes_written == text::byte_len(args.contents@) as usize,
    {
        CreateFileResponse {
            path: args.path.clone(),
            num_bytes_written: args.contents.as_str().len(),
        }
    }

    /// How the call is shown: `create_file: ` and the path.
    pub fn repr(args: &CreateFileArgs) -> (s: String)
        ensures
            s@ == "create_file: "@ + args.path@,
    {
        text::concat("create_file: ", args.path.as_str())
    }

    /// What is shown before the user is asked: the contents of the new file.
    pub fn details(args: &CreateFileArgs) -> (d: Option<String>)
        ensures
            d matches Some(s) && s@ == args.contents@,
    {
        Some(args.contents.clone())
    }
}

} // verus!
