//! What a tool call came to, and how that is told: to the model as the
//! result of the call, to the user as one line on the terminal.

use crate::json::{json_string, quoted};
use crate::text;
use crate::tools::create_file::CreateFileResponse;
use crate::tools::edit_file::EditFileResponse;
use crate::tools::read_dir::{DirEntry, EntryKind};
use crate::tools::run_cmd::RunCmdResponse;
use vstd::prelude::*;

verus! {

/// What a tool call came to.
#[derive(Debug)]
pub enum ToolOutcome {
    /// A command ran; it may have failed by its own account.
    Ran(RunCmdResponse),
    /// A file was read; this is what it holds.
    Read(String),
    /// A file was created.
    Created(CreateFileResponse),
    /// A file was edited.
    Edited(EditFileResponse),
    /// A directory was listed.
    Listed(Vec<DirEntry>),
    /// The tool gave up; this is its error in words.
    Failed(String),
}

/// `true` or `false`, as JSON spells them.
pub open spec fn json_bool(b: bool) -> Seq<char> {
    if b {
        "true"@
    } else {
        "false"@
    }
}

/// The JSON object of a command's response, with `stdout_json` and
/// `stderr_json` as the JSON spellings of what the command wrote.
pub open spec fn command_frame(
    success: bool,
    status_code: Option<i32>,
    stdout_json: Seq<char>,
    stderr_json: Seq<char>,
) -> Seq<char> {
    "{\"success\":"@ + json_bool(success) + ",\"status_code\":"@ + (match status_code {
        Some(code) => text::signed_decimal(code as int),
        None => "null"@,
    }) + ",\"stdout\":"@ + stdout_json + ",\"stderr\":"@ + stderr_json + "}"@
}

/// The JSON object of a command's response.
pub open spec fn command_json(r: RunCmdResponse) -> Seq<char> {
    command_frame(r.success, r.status_code, json_string(r.stdout@), json_string(r.stderr@))
}

/// The JSON object of a written file, with `path_json` as the JSON spelling
/// of its path.
pub open spec fn written_frame(path_json: Seq<char>, num_bytes_written: nat) -> Seq<char> {
    "{\"path\":"@ + path_json + ",\"num_bytes_written\":"@ + text::decimal(num_bytes_written)
        + "}"@
}

/// The JSON object of a written file: its path and the number of bytes.
pub open spec fn written_json(path: Seq<char>, num_bytes_written: nat) -> Seq<char> {
    written_frame(json_string(path), num_bytes_written)
}

/// The JSON object of a directory entry, with `name_json` as the JSON
/// spelling of its name; the size is left out where the entry has none.
pub open spec fn entry_frame(name_json: Seq<char>, kind: EntryKind, size: Option<u64>) -> Seq<
    char,
> {
    "{\"name\":"@ + name_json + ",\"kind\":"@ + (match kind {
        EntryKind::File => "\"file\""@,
        EntryKind::Dir => "\"dir\""@,
    }) + (match size {
        Some(size) => ",\"size\":"@ + text::decimal(size as nat),
        None => Seq::<char>::empty(),
    }) + "}"@
}

/// The JSON object of a directory entry.
pub open spec fn entry_json(e: DirEntry) -> Seq<char> {
    entry_frame(json_string(e.name@), e.kind, e.size)
}

/// The JSON array that holds `items`, each the JSON spelling of a value.
pub open spec fn array_frame(items: Seq<Seq<char>>) -> Seq<char> {
    "["@ + text::join(items, ","@) + "]"@
}

/// The JSON array of a directory's entries.
pub open spec fn listing_json(entries: Seq<DirEntry>) -> Seq<char> {
    array_frame(entries.map_values(|e: DirEntry| entry_json(e)))
}

impl ToolOutcome {
    /// What goes back to the model: the outcome as compact JSON, or `error: `
    /// and the words of the error. A command that ran and failed is no error
    /// here: its response says so.
    pub open spec fn result_text(self) -> Seq<char> {
        match self {
            ToolOutcome::Ran(r) => command_json(r),
            ToolOutcome::Read(contents) => json_string(contents@),
            ToolOutcome::Created(r) => written_json(r.path@, r.num_bytes_written as nat),
            ToolOutcome::Edited(r) => written_json(r.path@, r.num_bytes_written as nat),
            ToolOutcome::Listed(entries) => listing_json(entries@),
            ToolOutcome::Failed(why) => "error: "@ + why@,
        }
    }

    /// What is said after `✓` when the call went well.
    pub open spec fn success_note(self, elapsed_ms: nat) -> Seq<char> {
        match self {
            ToolOutcome::Ran(r) => " (took "@ + text::decimal(elapsed_ms) + " ms"@ + (
            match r.status_code {
                Some(code) => if code != 0 {
                    "; exit code: "@ + text::signed_decimal(code as int)
                } else {
                    Seq::<char>::empty()
                },
                None => Seq::<char>::empty(),
            }) + ")"@,
            ToolOutcome::Read(contents) => " (read "@ + text::decimal(
                text::byte_len(contents@) as usize as nat,
            ) + " bytes)"@,
            ToolOutcome::Created(r) => " (wrote "@ + text::decimal(r.num_bytes_written as nat)
                + " bytes)"@,
            ToolOutcome::Edited(r) => " (wrote "@ + text::decimal(r.num_bytes_written as nat)
                + " bytes)"@,
            ToolOutcome::Listed(entries) => " (read "@ + text::decimal(entries@.len())
                + " entries)"@,
            ToolOutcome::Failed(_) => Seq::<char>::empty(),
        }
    }

    /// The mark and note that close the line of a call on the terminal: a
    /// check mark and what was done, or a cross. A command says how long it
    /// took either way.
    pub open spec fn status_text(self, ran_command: bool, elapsed_ms: nat) -> Seq<char> {
        match self {
            ToolOutcome::Failed(_) => if ran_command {
                "✗ (took "@ + text::decimal(elapsed_ms) + " ms)"@
            } else {
                "✗"@
            },
            _ => "✓"@ + self.success_note(elapsed_ms),
        }
    }

    /// Whether the tool did its work.
    pub fn succeeded(&self) -> (ok: bool)
        ensures
            ok == !(self is Failed),
    {
        match self {
            ToolOutcome::Failed(_) => false,
            _ => true,
        }
    }

    /// The text that goes back to the model as the result of the call.
    pub fn to_result(&self) -> (out: String)
        ensures
            out@ == self.result_text(),
    {
        match self {
            ToolOutcome::Ran(r) => command_to_json(r),
            ToolOutcome::Read(contents) => quoted(contents.as_str()),
            ToolOutcome::Created(r) => written_to_json(r.path.as_str(), r.num_bytes_written),
            ToolOutcome::Edited(r) => written_to_json(r.path.as_str(), r.num_bytes_written),
            ToolOutcome::Listed(entries) => listing_to_json(entries),
            ToolOutcome::Failed(why) => text::concat("error: ", why.as_str()),
        }
    }

    /// The mark and note that close the line of the call on the terminal.
    /// `ran_command` says whether the call ran a command, `elapsed_ms` how
    /// long the call took.
    pub fn status(&self, ran_command: bool, elapsed_ms: u64) -> (out: String)
        ensures
            out@ == self.status_text(ran_command, elapsed_ms as nat),
    {
        let took = text::decimal_string(elapsed_ms as u128);
        match self {
            ToolOutcome::Failed(_) => {
                if ran_command {
                    text::concat3("✗ (took ", took.as_str(), " ms)")
                } else {
                    text::owned("✗")
                }
            },
            ToolOutcome::Ran(r) => {
                let mut out = text::concat3("✓", " (took ", took.as_str());
                out = text::concat(out.as_str(), " ms");
                match r.status_code {
                    Some(code) => {
                        if code != 0 {
                            let shown = text::signed_decimal_string(code as i64);
                            out = text::concat3(out.as_str(), "; exit code: ", shown.as_str());
                        }
                    },
                    None => {},
                }
                let out = text::concat(out.as_str(), ")");
                proof {
                    let note = self.success_note(elapsed_ms as nat);
                    assert(out@ =~= "✓"@ + note);
                }
                out
            },
            ToolOutcome::Read(contents) => {
                let n = text::decimal_string(contents.as_str().len() as u128);
                let out = text::concat3("✓", " (read ", n.as_str());
                let out = text::concat(out.as_str(), " bytes)");
                assert(out@ =~= "✓"@ + self.success_note(elapsed_ms as nat));
                out
            },
            ToolOutcome::Created(r) => {
                let n = text::decimal_string(r.num_bytes_written as u128);
                let out = text::concat3("✓", " (wrote ", n.as_str());
                let out = text::concat(out.as_str(), " bytes)");
                assert(out@ =~= "✓"@ + self.success_note(elapsed_ms as nat));
                out
            },
            ToolOutcome::Edited(r) => {
                let n = text::decimal_string(r.num_bytes_written as u128);
                let out = text::concat3("✓", " (wrote ", n.as_str());
                let out = text::concat(out.as_str(), " bytes)");
                assert(out@ =~= "✓"@ + self.success_note(elapsed_ms as nat));
                out
            },
            ToolOutcome::Listed(entries) => {
                let n = text::decimal_string(entries.len() as u128);
                let out = text::concat3("✓", " (read ", n.as_str());
                let out = text::concat(out.as_str(), " entries)");
                assert(out@ =~= "✓"@ + self.success_note(elapsed_ms as nat));
                out
            },
        }
    }
}

/// The JSON object of a command's response, with `stdout_json` and
/// `stderr_json` as the JSON spellings of what the command wrote.
pub fn frame_command(
    success: bool,
    status_code: Option<i32>,
    stdout_json: &str,
    stderr_json: &str,
) -> (out: String)
    ensures
        out@ == command_frame(success, status_code, stdout_json@, stderr_json@),
{
    let success = if success {
        "true"
    } else {
        "false"
    };
    let code = match status_code {
        Some(code) => text::signed_decimal_string(code as i64),
        None => text::owned("null"),
    };
    let mut out = text::concat3("{\"success\":", success, ",\"status_code\":");
    out = text::concat3(out.as_str(), code.as_str(), ",\"stdout\":");
    out = text::concat3(out.as_str(), stdout_json, ",\"stderr\":");
    out = text::concat3(out.as_str(), stderr_json, "}");
    out
}

/// The JSON object of a written file, with `path_json` as the JSON spelling
/// of its path.
pub fn frame_written(path_json: &str, num_bytes_written: usize) -> (out: String)
    ensures
        out@ == written_frame(path_json@, num_bytes_written as nat),
{
    let n = text::decimal_string(num_bytes_written as u128);
    let mut out = text::concat3("{\"path\":", path_json, ",\"num_bytes_written\":");
    out = text::concat3(out.as_str(), n.as_str(), "}");
    out
}

/// The JSON object of a directory entry, with `name_json` as the JSON
/// spelling of its name.
pub fn frame_entry(name_json: &str, kind: EntryKind, size: Option<u64>) -> (out: String)
    ensures
        out@ == entry_frame(name_json@, kind, size),
{
    let kind = match kind {
        EntryKind::File => "\"file\"",
        EntryKind::Dir => "\"dir\"",
    };
    let mut out = text::concat3("{\"name\":", name_json, ",\"kind\":");
    out = text::concat(out.as_str(), kind);
    match size {
        Some(size) => {
            let n = text::decimal_string(size as u128);
            out = text::concat3(out.as_str(), ",\"size\":", n.as_str());
        },
        None => {
            assert(out@ + Seq::<char>::empty() =~= out@);
        },
    }
    text::concat(out.as_str(), "}")
}

/// The JSON array that holds `items`, each the JSON spelling of a value.
pub fn frame_array(items: &Vec<Vec<char>>) -> (out: String)
    ensures
        out@ == array_frame(text::rows(items@)),
{
    let inner = text::joined(items, &text::to_chars(","));
    let inner = text::from_chars(&inner);
    text::concat3("[", inner.as_str(), "]")
}

/// The JSON object of a command's response.
fn command_to_json(r: &RunCmdResponse) -> (out: String)
    ensures
        out@ == command_json(*r),
{
    let stdout = quoted(r.stdout.as_str());
    let stderr = quoted(r.stderr.as_str());
    frame_command(r.success, r.status_code, stdout.as_str(), stderr.as_str())
}

/// The JSON object of a written file.
fn written_to_json(path: &str, num_bytes_written: usize) -> (out: String)
    ensures
        out@ == written_json(path@, num_bytes_written as nat),
{
    frame_written(quoted(path).as_str(), num_bytes_written)
}

/// The JSON array of a directory's entries.
fn listing_to_json(entries: &Vec<DirEntry>) -> (out: String)
    ensures
        out@ == listing_json(entries@),
{
    let mut rows: Vec<Vec<char>> = Vec::new();
    let mut i: usize = 0;
    while i < entries.len()
        invariant
            i <= entries.len(),
            text::rows(rows@) == entries@.take(i as int).map_values(|e: DirEntry| entry_json(e)),
        decreases entries.len() - i,
    {
        let ghost before = text::rows(rows@);
        let e = &entries[i];
        let row = frame_entry(quoted(e.name.as_str()).as_str(), e.kind, e.size);
        rows.push(text::to_chars(row.as_str()));
        assert(text::rows(rows@) =~= before.push(entry_json(entries@[i as int])));
        assert(entries@.take(i + 1).map_values(|e: DirEntry| entry_json(e)) =~= entries@.take(
            i as int,
        ).map_values(|e: DirEntry| entry_json(e)).push(entry_json(entries@[i as int])));
        i += 1;
    }
    assert(entries@.take(entries.len() as int) == entries@);
    frame_array(&rows)
}

} // verus!
