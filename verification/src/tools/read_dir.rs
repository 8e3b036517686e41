//! The tool that lists a directory.

use crate::helpers::fs::in_workspace;
use crate::text;
use crate::tools::helpers::fs::is_path_in_workspace;
use vstd::prelude::*;

verus! {

/// What an entry of a directory is.
#[derive(Clone, Copy, Debug, PartialEq, Eq, Structural)]
pub enum EntryKind {
    File,
    Dir,
}

/// One entry of a directory. Only a regular file has a size.
#[derive(Debug)]
pub struct DirEntry {
    pub name: String,
    pub kind: EntryKind,
    pub size: Option<u64>,
}

/// The arguments of a call of `read_dir`.
#[derive(Debug)]
pub struct ReadDirArgs {
    pub path: String,
}

/// Why a directory was not listed.
#[derive(Debug)]
pub enum ReadDirError {
    InvalidInput(String),
    PathNotAllowed,
    CouldntGetMetadata(String),
    PathNotADir,
    CouldntReadDirectory(String),
    CouldntReadEntry(String),
    CouldntGetEntryMetadata(String),
}

/// The tool itself.
pub struct ReadDirTool;

/// What the file system says of something found in a directory.
#[derive(Debug)]
pub struct FoundEntry {
    pub name: String,
    pub is_dir: bool,
    pub is_file: bool,
    pub len: u64,
}

/// The entry for what was found.
pub open spec fn classified(found: FoundEntry) -> DirEntry {
    DirEntry {
        name: found.name,
        kind: if found.is_dir {
            EntryKind::Dir
        } else {
            EntryKind::File
        },
        size: if found.is_file {
            Some(found.len)
        } else {
            None
        },
    }
}

impl EntryKind {
    /// The kind in lower case, as results spell it.
    pub fn name(&self) -> (s: &'static str)
        ensures
            s@ == match *self {
                EntryKind::File => "file"@,
                EntryKind::Dir => "dir"@,
            },
    {
        match self {
            EntryKind::File => "file",
            EntryKind::Dir => "dir",
        }
    }
}

/// What a [`ReadDirError`] is in contracts.
pub enum ReadDirErrorModel {
    InvalidInput(Seq<char>),
    PathNotAllowed,
    CouldntGetMetadata(Seq<char>),
    PathNotADir,
    CouldntReadDirectory(Seq<char>),
    CouldntReadEntry(Seq<char>),
    CouldntGetEntryMetadata(Seq<char>),
}

impl View for ReadDirError {
    type V = ReadDirErrorModel;

    open spec fn view(&self) -> ReadDirErrorModel {
        match self {
            ReadDirError::InvalidInput(m) => ReadDirErrorModel::InvalidInput(m@),
            ReadDirError::PathNotAllowed => ReadDirErrorModel::PathNotAllowed,
            ReadDirError::CouldntGetMetadata(e) => ReadDirErrorModel::CouldntGetMetadata(e@),
            ReadDirError::PathNotADir => ReadDirErrorModel::PathNotADir,
            ReadDirError::CouldntReadDirectory(e) => ReadDirErrorModel::CouldntReadDirectory(e@),
            ReadDirError::CouldntReadEntry(e) => ReadDirErrorModel::CouldntReadEntry(e@),
            ReadDirError::CouldntGetEntryMetadata(e) => ReadDirErrorModel::CouldntGetEntryMetadata(
                e@,
            ),
        }
    }
}

impl ReadDirErrorModel {
    /// The error in words.
    pub open spec fn message_text(self) -> Seq<char> {
        match self {
            ReadDirErrorModel::InvalidInput(m) => "invalid input provided: "@ + m,
            ReadDirErrorModel::PathNotAllowed =>
                "absolute paths and parent directory traversal ('..') are not allowed"@,
            ReadDirErrorModel::CouldntGetMetadata(e) => "couldn't get metadata for path: "@ + e,
            ReadDirErrorModel::PathNotADir => "path is not a directory"@,
            ReadDirErrorModel::CouldntReadDirectory(e) => "couldn't read directory: "@ + e,
            ReadDirErrorModel::CouldntReadEntry(e) => "couldn't read entry: "@ + e,
            ReadDirErrorModel::CouldntGetEntryMetadata(e) => "couldn't get metadata for entry: "@
                + e,
        }
    }
}

impl ReadDirError {
    /// What [`ReadDirError::message`] returns.
    pub open spec fn message_text(self) -> Seq<char> {
        self@.message_text()
    }

    /// The error in words.
    pub fn message(&self) -> (m: String)
        ensures
            m@ == self.message_text(),
    {
        match self {
            ReadDirError::InvalidInput(m) => text::concat("invalid input provided: ", m.as_str()),
            ReadDirError::PathNotAllowed => text::owned(
                "absolute paths and parent directory traversal ('..') are not allowed",
            ),
            ReadDirError::CouldntGetMetadata(e) => text::concat(
                "couldn't get metadata for path: ",
                e.as_str(),
            ),
            ReadDirError::PathNotADir => text::owned("path is not a directory"),
            ReadDirError::CouldntReadDirectory(e) => text::concat(
                "couldn't read directory: ",
                e.as_str(),
            ),
            ReadDirError::CouldntReadEntry(e) => text::concat("couldn't read entry: ", e.as_str()),
            ReadDirError::CouldntGetEntryMetadata(e) => text::concat(
                "couldn't get metadata for entry: ",
                e.as_str(),
            ),
        }
    }
}

impl ReadDirArgs {
    /// How the arguments are shown: the path.
    pub fn display(&self) -> (s: String)
        ensures
            s@ == "path="@ + self.path@,
    {
        text::concat("path=", self.path.as_str())
    }
}

impl ReadDirTool {
    /// The name under which the model calls the tool.
    pub const NAME: &'static str = "read_dir";

    /// Why the arguments are not valid, where they are not: the path is
    /// empty, or it is absolute or has a `..` component.
    pub open spec fn invalid(args: ReadDirArgs) -> Option<ReadDirErrorModel> {
        if args.path@.len() == 0 {
            Some(ReadDirErrorModel::InvalidInput("path cannot be empty"@))
        } else if !in_workspace(args.path@) {
            Some(ReadDirErrorModel::PathNotAllowed)
        } else {
            None
        }
    }

    /// What validating the arguments gives, before the file system is
    /// looked at: nothing, or the words of the error.
    pub open spec fn validated(args: ReadDirArgs) -> Result<(), Seq<char>> {
        match Self::invalid(args) {
            Some(e) => Err(e.message_text()),
            None => Ok(()),
        }
    }

    /// Why a directory is not listed, where it is not: the arguments are
    /// not valid, it could not be told what the path is, or the path is no
    /// directory.
    pub open spec fn failure(args: ReadDirArgs, is_dir: Result<bool, String>) -> Option<
        ReadDirErrorModel,
    > {
        match Self::invalid(args) {
            Some(e) => Some(e),
            None => match is_dir {
                Err(why) => Some(ReadDirErrorModel::CouldntGetMetadata(why@)),
                Ok(false) => Some(ReadDirErrorModel::PathNotADir),
                Ok(true) => None,
            },
        }
    }

    /// Checks the arguments: the path is not empty, is relative and has no
    /// `..` component.
    pub fn validate(args: &ReadDirArgs) -> (r: Result<(), ReadDirError>)
        ensures
            match r {
                Ok(()) => Self::invalid(*args) is None,
                Err(e) => Self::invalid(*args) == Some(e@),
            },
    {
        if args.path.as_str().unicode_len() == 0 {
            return Err(ReadDirError::InvalidInput(text::owned("path cannot be empty")));
        }
        if !is_path_in_workspace(args.path.as_str()) {
            return Err(ReadDirError::PathNotAllowed);
        }
        Ok(())
    }

    /// Whether the path can be listed: only a directory can.
    pub fn check_target(is_dir: bool) -> (r: Result<(), ReadDirError>)
        ensures
            is_dir ==> r is Ok,
            !is_dir ==> r matches Err(ReadDirError::PathNotADir),
    {
        if is_dir {
            Ok(())
        } else {
            Err(ReadDirError::PathNotADir)
        }
    }

    /// The entry for something found in a directory: a directory where the
    /// file system says so, a file in every other case, and with its size in
    /// bytes only where it is a regular file.
    pub fn entry(name: String, is_dir: bool, is_file: bool, len: u64) -> (e: DirEntry)
        ensures
            e.name == name,
            e.kind == if is_dir {
                EntryKind::Dir
            } else {
                EntryKind::File
            },
            e.size == if is_file {
                Some(len)
            } else {
                None::<u64>
            },
    {
        let kind = if is_dir {
            EntryKind::Dir
        } else {
            EntryKind::File
        };
        let size = if is_file {
            Some(len)
        } else {
            None
        };
        DirEntry { name, kind, size }
    }

    /// What listing a directory comes to, given what was found: `is_dir`
    /// says whether the path is a directory, or why that could not be told;
    /// `found` holds what the directory holds, in the order in which it was
    /// read. The arguments are validated first, then the path; where both pass
    /// each thing found becomes an entry, in the same order.
    pub fn call_inner(args: &ReadDirArgs, is_dir: Result<bool, String>, found: &Vec<FoundEntry>) -> (r:
        Result<Vec<DirEntry>, ReadDirError>)
        ensures
            match r {
                Ok(entries) => Self::failure(*args, is_dir) is None && entries@
                    == found@.map_values(|f: FoundEntry| classified(f)),
                Err(e) => Self::failure(*args, is_dir) == Some(e@),
            },
    {
        Self::validate(args)?;
        match is_dir {
            Err(why) => {
                return Err(ReadDirError::CouldntGetMetadata(why));
            },
            Ok(is_dir) => {
                Self::check_target(is_dir)?;
            },
        }
        let mut entries: Vec<DirEntry> = Vec::new();
        let mut i: usize = 0;
        while i < found.len()
            invariant
                i <= found.len(),
                entries@ == found@.take(i as int).map_values(|f: FoundEntry| classified(f)),
            decreases found.len() - i,
        {
            let f = &found[i];
            let e = Self::entry(f.name.clone(), f.is_dir, f.is_file, f.len);
            assert(e == classified(*f));
            entries.push(e);
            assert(found@.take(i + 1).map_values(|f: FoundEntry| classified(f)) =~= found@.take(
                i as int,
            ).map_values(|f: FoundEntry| classified(f)).push(classified(found@[i as int])));
            i += 1;
        }
        assert(found@.take(found.len() as int) == found@);
        Ok(entries)
    }

    /// How the call is shown: `read_dir: ` and the path.
    pub fn repr(args: &ReadDirArgs) -> (s: String)
        ensures
            s@ == "read_dir: "@ + args.path@,
    {
        text::concat("read_dir: ", args.path.as_str())
    }

    /// What is shown before the call runs: nothing more than the call.
    pub fn details(_args: &ReadDirArgs) -> (d: Option<String>)
        ensures
            d is None,
    {
        None
    }
}

} // verus!
