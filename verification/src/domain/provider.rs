//! The backends that can answer.

use crate::text;
use vstd::prelude::*;

verus! {

/// A backend.
#[derive(Clone, Copy, Debug, PartialEq, Eq, Structural)]
pub enum Provider {
    Anthropic,
    Gemini,
    GitHubCopilot,
    Openrouter,
}

impl Provider {
    /// The backend that `s` names in the configuration, where it names one.
    pub open spec fn named(s: Seq<char>) -> Option<Provider> {
        if s == "anthropic"@ {
            Some(Provider::Anthropic)
        } else if s == "gemini"@ {
            Some(Provider::Gemini)
        } else if s == "openai"@ {
            Some(Provider::GitHubCopilot)
        } else if s == "openrouter"@ {
            Some(Provider::Openrouter)
        } else {
            None
        }
    }

    /// What [`Provider::name`] returns.
    pub open spec fn name_text(self) -> Seq<char> {
        match self {
            Provider::Anthropic => "anthropic"@,
            Provider::Gemini => "gemini"@,
            Provider::GitHubCopilot => "github-copilot"@,
            Provider::Openrouter => "openrouter"@,
        }
    }

    /// The backend that `s` names: `anthropic`, `gemini`, `openai` or
    /// `openrouter`. Every other name is refused.
    pub fn from_str(s: &str) -> (r: Result<Provider, &'static str>)
        ensures
            match r {
                Ok(p) => Provider::named(s@) == Some(p),
                Err(e) => Provider::named(s@) is None && e@
                    == "invalid provider; allowed values: [anthropic, gemini, openai, openrouter]"@,
            },
    {
        if text::str_eq(s, "anthropic") {
            Ok(Provider::Anthropic)
        } else if text::str_eq(s, "gemini") {
            Ok(Provider::Gemini)
        } else if text::str_eq(s, "openai") {
            Ok(Provider::GitHubCopilot)
        } else if text::str_eq(s, "openrouter") {
            Ok(Provider::Openrouter)
        } else {
            Err("invalid provider; allowed values: [anthropic, gemini, openai, openrouter]")
        }
    }

    /// The name under which the backend is shown.
    pub fn name(&self) -> (s: &'static str)
        ensures
            s@ == self.name_text(),
    {
        match self {
            Provider::Anthropic => "anthropic",
            Provider::Gemini => "gemini",
            Provider::GitHubCopilot => "github-copilot",
            Provider::Openrouter => "openrouter",
        }
    }
}

} // verus!
