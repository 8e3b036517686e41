//! The tool that edits a file: every occurrence of one string becomes
//! another.

use crate::helpers::diff::{shows_diff_of, Diff};
use crate::helpers::fs::in_workspace;
use crate::text;
use crate::tools::helpers::fs::{is_path_in_workspace, PathProbe};
use vstd::prelude::*;

verus! {

/// The arguments of a call of `edit_file`.
#[derive(Debug)]
pub struct EditFileArgs {
    pub path: String,
    pub old_str: String,
    pub new_str: String,
}

/// Why a file was not edited.
#[derive(Debug)]
pub enum EditFileError {
    InvalidInput(String),
    PathNotAllowed,
    /// The old string and the new one are the same: nothing was asked for.
    NoChangesRequested,
    CouldntGetMetadata(String),
    NotAFile,
    FileDoesntExist,
    CouldntReadFile(String),
    CouldntWriteToFile(String),
    /// The file does not hold the old string: the edit would leave it as it
    /// is.
    NothingWillChange,
}

/// The tool itself.
pub struct EditFileTool;

/// What the tool reports of a file it wrote.
#[derive(Debug)]
pub struct EditFileResponse {
    pub path: String,
    pub num_bytes_written: usize,
}

/// What an [`EditFileError`] is in contracts.
pub enum EditFileErrorModel {
    InvalidInput(Seq<char>),
    PathNotAllowed,
    NoChangesRequested,
    CouldntGetMetadata(Seq<char>),
    NotAFile,
    FileDoesntExist,
    CouldntReadFile(Seq<char>),
    CouldntWriteToFile(Seq<char>),
    NothingWillChange,
}

impl View for EditFileError {
    type V = EditFileErrorModel;

    open spec fn view(&self) -> EditFileErrorModel {
        match self {
            EditFileError::InvalidInput(m) => EditFileErrorModel::InvalidInput(m@),
            EditFileError::PathNotAllowed => EditFileErrorModel::PathNotAllowed,
            EditFileError::NoChangesRequested => EditFileErrorModel::NoChangesRequested,
            EditFileError::CouldntGetMetadata(e) => EditFileErrorModel::CouldntGetMetadata(e@),
            EditFileError::NotAFile => EditFileErrorModel::NotAFile,
            EditFileError::FileDoesntExist => EditFileErrorModel::FileDoesntExist,
            EditFileError::CouldntReadFile(e) => EditFileErrorModel::CouldntReadFile(e@),
            EditFileError::CouldntWriteToFile(e) => EditFileErrorModel::CouldntWriteToFile(e@),
            EditFileError::NothingWillChange => EditFileErrorModel::NothingWillChange,
        }
    }
}

impl EditFileErrorModel {
    /// The error in words.
    pub open spec fn message_text(self) -> Seq<char> {
        match self {
            EditFileErrorModel::InvalidInput(m) => "invalid input provided: "@ + m,
            EditFileErrorModel::PathNotAllowed =>
                "absolute paths and parent directory traversal ('..') are not allowed"@,
            EditFileErrorModel::NoChangesRequested => "old string and new string are the same"@,
            EditFileErrorModel::CouldntGetMetadata(e) => "couldn't get metadata for file: "@ + e,
            EditFileErrorModel::NotAFile => "provided path is not a file"@,
            EditFileErrorModel::FileDoesntExist => "file doesn't exist"@,
            EditFileErrorModel::CouldntReadFile(e) => "couldn't read file: "@ + e,
            EditFileErrorModel::CouldntWriteToFile(e) => "couldn't write to file: "@ + e,
            EditFileErrorModel::NothingWillChange => "nothing will change in the file"@,
        }
    }
}

impl EditFileError {
    /// What [`EditFileError::message`] returns.
    pub open spec fn message_text(self) -> Seq<char> {
        self@.message_text()
    }

    /// The error in words.
    pub fn message(&self) -> (m: String)
        ensures
            m@ == self.message_text(),
    {
        match self {
            EditFileError::InvalidInput(m) => text::concat("invalid input provided: ", m.as_str()),
            EditFileError::PathNotAllowed => text::owned(
                "absolute paths and parent directory traversal ('..') are not allowed",
            ),
            EditFileError::NoChangesRequested => text::owned(
                "old string and new string are the same",
            ),
            EditFileError::CouldntGetMetadata(e) => text::concat(
                "couldn't get metadata for file: ",
                e.as_str(),
            ),
            EditFileError::NotAFile => text::owned("provided path is not a file"),
            EditFileError::FileDoesntExist => text::owned("file doesn't exist"),
            EditFileError::CouldntReadFile(e) => text::concat("couldn't read file: ", e.as_str()),
            EditFileError::CouldntWriteToFile(e) => text::concat(
                "couldn't write to file: ",
                e.as_str(),
            ),
            EditFileError::NothingWillChange => text::owned("nothing will change in the file"),
        }
    }
}

impl EditFileArgs {
    /// How the arguments are shown: the path.
    pub fn display(&self) -> (s: String)
        ensures
            s@ == "path="@ + self.path@,
    {
        text::concat("path=", self.path.as_str())
    }
}

impl EditFileTool {
    /// The name under which the model calls the tool.
    pub const NAME: &'static str = "edit_file";

    /// Why the arguments are not valid, where they are not. The first of
    /// these decides: the path is empty; the old string is empty; the new
    /// string is the old one; the path is absolute or has a `..` component.
    pub open spec fn invalid(args: EditFileArgs) -> Option<EditFileErrorModel> {
        if args.path@.len() == 0 {
            Some(EditFileErrorModel::InvalidInput("path cannot be empty"@))
        } else if args.old_str@.len() == 0 {
            Some(EditFileErrorModel::InvalidInput("old_str cannot be empty"@))
        } else if args.old_str@ == args.new_str@ {
            Some(EditFileErrorModel::NoChangesRequested)
        } else if !in_workspace(args.path@) {
            Some(EditFileErrorModel::PathNotAllowed)
        } else {
            None
        }
    }

    /// What validating the arguments gives, before the file system is
    /// looked at: nothing, or the words of the error.
    pub open spec fn validated(args: EditFileArgs) -> Result<(), Seq<char>> {
        match Self::invalid(args) {
            Some(e) => Err(e.message_text()),
            None => Ok(()),
        }
    }

    /// Checks the arguments: the path and the old string are not empty, the
    /// new string differs from the old one, and the path is relative and has
    /// no `..` component.
    pub fn validate(args: &EditFileArgs) -> (r: Result<(), EditFileError>)
        ensures
            match r {
                Ok(()) => Self::invalid(*args) is None,
                Err(e) => Self::invalid(*args) == Some(e@),
            },
    {
        if args.path.as_str().unicode_len() == 0 {
            return Err(EditFileError::InvalidInput(text::owned("path cannot be empty")));
        }
        if args.old_str.as_str().unicode_len() == 0 {
            return Err(EditFileError::InvalidInput(text::owned("old_str cannot be empty")));
        }
        if text::str_eq(args.old_str.as_str(), args.new_str.as_str()) {
            return Err(EditFileError::NoChangesRequested);
        }
        if !is_path_in_workspace(args.path.as_str()) {
            return Err(EditFileError::PathNotAllowed);
        }
        Ok(())
    }

    /// Decides from a look at the path whether the file may be edited: only
    /// where a regular file is there.
    pub fn check_target(probe: PathProbe) -> (r: Result<(), EditFileError>)
        ensures
            match probe {
                PathProbe::Missing => r matches Err(EditFileError::FileDoesntExist),
                PathProbe::Found { is_file, is_dir } => if is_file {
                    r is Ok
                } else {
                    r matches Err(EditFileError::NotAFile)
                },
                PathProbe::Failed(why) => r matches Err(EditFileError::CouldntGetMetadata(e))
                    && e@ == why@,
            },
    {
        match probe {
            PathProbe::Missing => Err(EditFileError::FileDoesntExist),
            PathProbe::Found { is_file, is_dir: _ } => {
                if is_file {
                    Ok(())
                } else {
                    Err(EditFileError::NotAFile)
                }
            },
            PathProbe::Failed(why) => Err(EditFileError::CouldntGetMetadata(why)),
        }
    }

    /// The new contents of a file that holds `old_contents`: every
    /// occurrence of the old string replaced by the new one. Where that
    /// leaves the contents as they are, the edit is refused and nothing is
    /// to be written. For valid arguments this is the case exactly where the
    /// file does not hold the old string.
    pub fn apply(args: &EditFileArgs, old_contents: &str) -> (r: Result<String, EditFileError>)
        ensures
            match r {
                Ok(new_contents) => new_contents@ == text::replace_all(
                    old_contents@,
                    args.old_str@,
                    args.new_str@,
                ) && new_contents@ != old_contents@,
                Err(e) => e is NothingWillChange && text::replace_all(
                    old_contents@,
                    args.old_str@,
                    args.new_str@,
                ) == old_contents@,
            },
            args.old_str@.len() > 0 && args.old_str@ != args.new_str@ ==> (r is Err
                <==> !text::contains(old_contents@, args.old_str@)),
    {
        proof {
            if text::contains(old_contents@, args.old_str@) {
                if args.old_str@.len() > 0 && args.old_str@ != args.new_str@ {
                    text::lemma_replace_present(old_contents@, args.old_str@, args.new_str@);
                }
            } else {
                text::lemma_replace_absent(old_contents@, args.old_str@, args.new_str@);
            }
        }
        let old = text::to_chars(old_contents);
        let from = text::to_chars(args.old_str.as_str());
        let to = text::to_chars(args.new_str.as_str());
        let new = text::replaced(&old, &from, &to);
        if text::chars_eq(&old, &new) {
            Err(EditFileError::NothingWillChange)
        } else {
            Ok(text::from_chars(&new))
        }
    }

    /// What an edit comes to before anything is written, given what was
    /// found: `probe` is the look at the path, `contents` what reading the
    /// file gave, or why it could not be read. The first of these that fails
    /// decides: the validation of the arguments, the look at the path, the
    /// reading, and at last the edit itself, which must change something.
    /// Where all pass, the answer holds the old contents and the new.
    pub open spec fn read_outcome(
        args: EditFileArgs,
        probe: PathProbe,
        contents: Result<String, String>,
    ) -> Result<(Seq<char>, Seq<char>), EditFileErrorModel> {
        match Self::invalid(args) {
            Some(e) => Err(e),
            None => match probe {
                PathProbe::Missing => Err(EditFileErrorModel::FileDoesntExist),
                PathProbe::Failed(why) => Err(EditFileErrorModel::CouldntGetMetadata(why@)),
                PathProbe::Found { is_file, is_dir } => if !is_file {
                    Err(EditFileErrorModel::NotAFile)
                } else {
                    match contents {
                        Err(why) => Err(EditFileErrorModel::CouldntReadFile(why@)),
                        Ok(old) => {
                            let new = text::replace_all(old@, args.old_str@, args.new_str@);
                            if new == old@ {
                                Err(EditFileErrorModel::NothingWillChange)
                            } else {
                                Ok((old@, new))
                            }
                        },
                    }
                },
            },
        }
    }

    /// What a whole edit comes to, given also what writing the new contents
    /// gave: the new contents where they were written, or the error that
    /// stopped the edit.
    pub open spec fn outcome(
        args: EditFileArgs,
        probe: PathProbe,
        contents: Result<String, String>,
        written: Result<(), String>,
    ) -> Result<Seq<char>, EditFileErrorModel> {
        match Self::read_outcome(args, probe, contents) {
            Err(e) => Err(e),
            Ok((_, new)) => match written {
                Err(why) => Err(EditFileErrorModel::CouldntWriteToFile(why@)),
                Ok(()) => Ok(new),
            },
        }
    }

    /// Decides what an edit comes to before anything is written, from the
    /// arguments and from what was found at the path.
    pub fn validate_and_read(
        args: &EditFileArgs,
        probe: PathProbe,
        contents: Result<String, String>,
    ) -> (r: Result<(String, String), EditFileError>)
        ensures
            match r {
                Ok((old, new)) => Self::read_outcome(*args, probe, contents) == Ok::<
                    (Seq<char>, Seq<char>),
                    EditFileErrorModel,
                >((old@, new@)),
                Err(e) => Self::read_outcome(*args, probe, contents) == Err::<
                    (Seq<char>, Seq<char>),
                    EditFileErrorModel,
                >(e@),
            },
    {
        Self::validate(args)?;
        Self::check_target(probe)?;
        match contents {
            Err(why) => Err(EditFileError::CouldntReadFile(why)),
            Ok(old) => {
                let new = Self::apply(args, old.as_str())?;
                Ok((old, new))
            },
        }
    }

    /// What a whole edit comes to: what [`EditFileTool::validate_and_read`]
    /// decides and, where that went well, what writing the new contents
    /// gave. `written` says whether the file was written, or why not.
    pub fn call(
        args: &EditFileArgs,
        probe: PathProbe,
        contents: Result<String, String>,
        written: Result<(), String>,
    ) -> (r: Result<EditFileResponse, EditFileError>)
        ensures
            match r {
                Ok(response) => {
                    &&& Self::outcome(*args, probe, contents, written) matches Ok(new)
                    &&& response.path@ == args.path@
                    &&& response.num_bytes_written == text::byte_len(new) as usize
                },
                Err(e) => Self::outcome(*args, probe, contents, written) == Err::<
                    Seq<char>,
                    EditFileErrorModel,
                >(e@),
            },
    {
        let (_, new) = Self::validate_and_read(args, probe, contents)?;
        match written {
            Err(why) => Err(EditFileError::CouldntWriteToFile(why)),
            Ok(()) => Ok(Self::response(args, new.as_str())),
        }
    }

    /// The report of a file that was written: its path and the number of
    /// bytes of its new contents.
    pub fn response(args: &EditFileArgs, new_contents: &str) -> (r: EditFileResponse)
        ensures
            r.path@ == args.path@,
            r.num_bytes_written == text::byte_len(new_contents@) as usize,
    {
        EditFileResponse { path: args.path.clone(), num_bytes_written: new_contents.len() }
    }

    /// How the call is shown: `edit_file: ` and the path.
    pub fn repr(args: &EditFileArgs) -> (s: String)
        ensures
            s@ == "edit_file: "@ + args.path@,
    {
        text::concat("edit_file: ", args.path.as_str())
    }

    /// What is shown before the user is asked: the diff between the file as
    /// it is and as the edit would leave it, as a terminal shows it. An edit
    /// that changes nothing is refused here already; every other edit has a
    /// diff to show, and what is shown is the diff of these two texts (see
    /// [`shows_diff_of`]).
    pub fn details(args: &EditFileArgs, old_contents: &str) -> (r: Result<
        Option<String>,
        EditFileError,
    >)
        ensures
            r is Err <==> text::replace_all(old_contents@, args.old_str@, args.new_str@)
                == old_contents@,
            r matches Err(e) ==> e is NothingWillChange,
            match r {
                Ok(Some(shown)) => shows_diff_of(
                    shown@,
                    old_contents@,
                    text::replace_all(old_contents@, args.old_str@, args.new_str@),
                ),
                Ok(None) => false,
                Err(_) => true,
            },
    {
        let new_contents = Self::apply(args, old_contents)?;
        match Diff::new(old_contents, new_contents.as_str()) {
            Some(diff) => {
                let shown = diff.get_terminal_output();
                assert(shows_diff_of(shown@, old_contents@, new_contents@)) by {
                    assert(diff.hunks@.len() > 0 && diff.shown_in_colour(shown@));
                }
                Ok(Some(shown))
            },
            None => {
                assert(false);
                Ok(None)
            },
        }
    }
}

} // verus!
