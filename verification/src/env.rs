//! What the program reads from its environment.

use crate::text;
use vstd::prelude::*;

verus! {

/// The value of the environment variable `key` that must be set; `value` is
/// what the environment holds for it. A variable that is not set is an
/// error that names it.
pub fn get_env_var(key: &str, value: Option<String>) -> (r: Result<String, String>)
    ensures
        match value {
            Some(v) => r == Ok::<String, String>(v),
            None => (r matches Err(e) && e@ == "environment variable \""@ + key@
                + "\" is not set"@),
        },
{
    match value {
        Some(v) => Ok(v),
        None => Err(text::concat3("environment variable \"", key, "\" is not set")),
    }
}

} // verus!
