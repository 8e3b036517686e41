//! The tool that reads a file.

use crate::helpers::fs::in_workspace;
use crate::text;
use crate::tools::helpers::fs::is_path_in_workspace;
use vstd::prelude::*;

verus! {

/// The arguments of a call of `read_file`.
#[derive(Debug)]
pub struct ReadFileArgs {
    pub path: String,
}

/// Why a file was not read.
#[derive(Debug)]
pub enum ReadFileError {
    InvalidInput(String),
    PathNotAllowed,
    CouldntReadFile(String),
}

/// The tool itself.
pub struct ReadFileTool;

/// What a [`ReadFileError`] is in contracts.
pub enum ReadFileErrorModel {
    InvalidInput(Seq<char>),
    PathNotAllowed,
    CouldntReadFile(Seq<char>),
}

impl View for ReadFileError {
    type V = ReadFileErrorModel;

    open spec fn view(&self) -> ReadFileErrorModel {
        match self {
            ReadFileError::InvalidInput(m) => ReadFileErrorModel::InvalidInput(m@),
            ReadFileError::PathNotAllowed => ReadFileErrorModel::PathNotAllowed,
            ReadFileError::CouldntReadFile(e) => ReadFileErrorModel::CouldntReadFile(e@),
        }
    }
}

impl ReadFileErrorModel {
    /// The error in words.
    pub open spec fn message_text(self) -> Seq<char> {
        match self {
            ReadFileErrorModel::InvalidInput(m) => "invalid input provided: "@ + m,
            ReadFileErrorModel::PathNotAllowed =>
                "absolute paths and parent directory traversal ('..') are not allowed"@,
            ReadFileErrorModel::CouldntReadFile(e) => "couldn't read file: "@ + e,
        }
    }
}

impl ReadFileError {
    /// What [`ReadFileError::message`] returns.
    pub open spec fn message_text(self) -> Seq<char> {
        self@.message_text()
    }

    /// The error in words.
    pub fn message(&self) -> (m: String)
        ensures
            m@ == self.message_text(),
    {
        match self {
            ReadFileError::InvalidInput(m) => text::concat("invalid input provided: ", m.as_str()),
            ReadFileError::PathNotAllowed => text::owned(
                "absolute paths and parent directory traversal ('..') are not allowed",
            ),
            ReadFileError::CouldntReadFile(e) => text::concat("couldn't read file: ", e.as_str()),
        }
    }
}

impl ReadFileTool {
    /// The name under which the model calls the tool.
    pub const NAME: &'static str = "read_file";

    /// Why the arguments are not valid, where they are not: the path is
    /// empty, or it is absolute or has a `..` component.
    pub open spec fn invalid(args: ReadFileArgs) -> Option<ReadFileErrorModel> {
        if args.path@.len() == 0 {
            Some(ReadFileErrorModel::InvalidInput("path cannot be empty"@))
        } else if !in_workspace(args.path@) {
            Some(ReadFileErrorModel::PathNotAllowed)
        } else {
            None
        }
    }

    /// What validating the arguments gives, before the file system is
    /// looked at: nothing, or the words of the error.
    pub open spec fn validated(args: ReadFileArgs) -> Result<(), Seq<char>> {
        match Self::invalid(args) {
            Some(e) => Err(e.message_text()),
            None => Ok(()),
        }
    }

    /// Checks the arguments: the path is not empty, is relative and has no
    /// `..` component.
    pub fn validate(args: &ReadFileArgs) -> (r: Result<(), ReadFileError>)
        ensures
            match r {
                Ok(()) => Self::invalid(*args) is None,
                Err(e) => Self::invalid(*args) == Some(e@),
            },
    {
        if args.path.as_str().unicode_len() == 0 {
            return Err(ReadFileError::InvalidInput(text::owned("path cannot be empty")));
        }
        if !is_path_in_workspace(args.path.as_str()) {
            return Err(ReadFileError::PathNotAllowed);
        }
        Ok(())
    }

    /// How the call is shown: `read_file: ` and the path.
    pub fn repr(args: &ReadFileArgs) -> (s: String)
        ensures
            s@ == "read_file: "@ + args.path@,
    {
        text::concat("read_file: ", args.path.as_str())
    }

    /// What is shown before the call runs: nothing more than the call.
    pub fn details(_args: &ReadFileArgs) -> (d: Option<String>)
        ensures
            d is None,
    {
        None
    }
}

} // verus!
