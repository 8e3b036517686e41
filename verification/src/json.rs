//! What the library asks of `serde_json`: the text members of an object that
//! arrives as JSON text, and the JSON spelling of a string.

use vstd::prelude::*;

verus! {

/// The value of the member `key` of the JSON object that `document` spells,
/// where that value is a string. `None` stands for every other case: the text
/// is no JSON, the value is no object, it has no such member, or the member
/// holds something else than a string.
pub uninterp spec fn json_text_member(document: Seq<char>, key: Seq<char>) -> Option<Seq<char>>;

/// The JSON string literal that spells `s`: quoted, and escaped where JSON
/// asks for it.
pub uninterp spec fn json_string(s: Seq<char>) -> Seq<char>;

/// Reads `document` with `serde_json::from_str` as a `serde_json::Value`,
/// looks `key` up with `Value::get` and takes the string with
/// `Value::as_str`. The contract only names the outcome: the same document
/// and key always give the same answer.
#[verifier::external_body]
pub(crate) fn text_member(document: &str, key: &str) -> (member: Option<String>)
    ensures
        crate::text::opt_view(member) == json_text_member(document@, key@),
{
    let value = serde_json::from_str::<serde_json::Value>(document).ok()?;
    value.get(key)?.as_str().map(str::to_owned)
}

/// Spells `s` as a JSON string literal with `serde_json::to_string`, which
/// cannot fail on a string. The contract only names the outcome.
#[verifier::external_body]
pub(crate) fn quoted(s: &str) -> (literal: String)
    ensures
        literal@ == json_string(s@),
{
    serde_json::to_string(s).unwrap_or_default()
}

} // verus!
