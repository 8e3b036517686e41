//! The project's context file: what of it is handed to the model.

use crate::text;
use vstd::prelude::*;

verus! {

/// The file that holds a project's context.
pub const AGENTS_CONTEXT_FILE: &'static str = "AGENTS.md";

/// The most bytes that the context file may have.
pub const AGENTS_CONTEXT_FILE_MAX_SIZE: u64 = 51200;

/// Why a context file was not taken.
#[derive(Debug)]
pub enum ContextError {
    /// The file has more bytes than the limit, which is given.
    TooLarge(u64),
    /// The file is no text.
    NotUtf8,
}

impl ContextError {
    /// What [`ContextError::message`] returns.
    pub open spec fn message_text(self) -> Seq<char> {
        match self {
            ContextError::TooLarge(limit) => "file is too large; max size allowed is "@
                + text::decimal(limit as nat) + " bytes"@,
            ContextError::NotUtf8 => "file contents are not valid utf-8"@,
        }
    }

    /// The error in words.
    pub fn message(&self) -> (m: String)
        ensures
            m@ == self.message_text(),
    {
        match self {
            ContextError::TooLarge(limit) => {
                let n = text::decimal_string(*limit as u128);
                text::concat3("file is too large; max size allowed is ", n.as_str(), " bytes")
            },
            ContextError::NotUtf8 => text::owned("file contents are not valid utf-8"),
        }
    }
}

/// `String::from_utf8`: the text that `bytes` spell as UTF-8, or nothing
/// where they are no UTF-8.
#[verifier::external_body]
fn utf8_text(bytes: Vec<u8>) -> (s: Option<String>)
    ensures
        match s {
            Some(t) => vstd::utf8::valid_utf8(bytes@) && t@ == vstd::utf8::decode_utf8(bytes@),
            None => !vstd::utf8::valid_utf8(bytes@),
        },
{
    String::from_utf8(bytes).ok()
}

/// What a context file that holds `bytes` gives the model, with `limit` as
/// the most bytes that it may have. The reader hands over what it read, and
/// stops after one byte more than the limit.
///
/// A file over the limit is refused. An empty file gives nothing. Any other
/// file gives its text, and is refused where it is no text.
pub fn read_file_with_limit(bytes: Vec<u8>, limit: u64) -> (r: Result<Option<String>, ContextError>)
    ensures
        bytes@.len() > limit ==> (r matches Err(ContextError::TooLarge(l)) && l == limit),
        bytes@.len() == 0 ==> r matches Ok(None),
        0 < bytes@.len() <= limit ==> (if vstd::utf8::valid_utf8(bytes@) {
            r matches Ok(Some(t)) && t@ == vstd::utf8::decode_utf8(bytes@)
        } else {
            r matches Err(ContextError::NotUtf8)
        }),
{
    if bytes.len() as u64 > limit {
        return Err(ContextError::TooLarge(limit));
    }
    if bytes.len() == 0 {
        return Ok(None);
    }
    match utf8_text(bytes) {
        Some(t) => Ok(Some(t)),
        None => Err(ContextError::NotUtf8),
    }
}

} // verus!
