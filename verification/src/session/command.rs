//! What a line typed at the session's prompt asks for.

use crate::text;
use vstd::prelude::*;

verus! {

/// What the user asks of the session.
#[derive(Debug)]
pub enum SessionCommand {
    /// Nothing was typed.
    Nothing,
    /// Clear the screen.
    Clear,
    /// Show the commands.
    Help,
    /// Start a new conversation.
    NewSession,
    /// Show what has been approved for good.
    Approvals,
    /// Leave.
    Quit,
    /// Anything else is a prompt for the model.
    Prompt(String),
}

impl SessionCommand {
    /// Reads a line. White space round it does not count. The words
    /// `clear`, `/help`, `/new` and `/approvals` are commands; `/quit`,
    /// `/exit`, `bye` and `:q` leave; an empty line asks for nothing; every
    /// other line is a prompt.
    pub fn parse(input: &str) -> (c: SessionCommand)
        ensures
            match c {
                SessionCommand::Nothing => text::trim(input@).len() == 0,
                SessionCommand::Clear => text::trim(input@) == "clear"@,
                SessionCommand::Help => text::trim(input@) == "/help"@,
                SessionCommand::NewSession => text::trim(input@) == "/new"@,
                SessionCommand::Approvals => text::trim(input@) == "/approvals"@,
                SessionCommand::Quit => {
                    ||| text::trim(input@) == "/quit"@
                    ||| text::trim(input@) == "/exit"@
                    ||| text::trim(input@) == "bye"@
                    ||| text::trim(input@) == ":q"@
                },
                SessionCommand::Prompt(p) => {
                    &&& p@ == text::trim(input@)
                    &&& p@.len() > 0
                    &&& p@ != "clear"@
                    &&& p@ != "/help"@
                    &&& p@ != "/new"@
                    &&& p@ != "/approvals"@
                    &&& p@ != "/quit"@
                    &&& p@ != "/exit"@
                    &&& p@ != "bye"@
                    &&& p@ != ":q"@
                },
            },
    {
        let said = text::trimmed(&text::to_chars(input));
        if said.len() == 0 {
            SessionCommand::Nothing
        } else if text::chars_eq(&said, &text::to_chars("clear")) {
            SessionCommand::Clear
        } else if text::chars_eq(&said, &text::to_chars("/help")) {
            SessionCommand::Help
        } else if text::chars_eq(&said, &text::to_chars("/new")) {
            SessionCommand::NewSession
        } else if text::chars_eq(&said, &text::to_chars("/approvals")) {
            SessionCommand::Approvals
        } else if text::chars_eq(&said, &text::to_chars("/quit")) || text::chars_eq(
            &said,
            &text::to_chars("/exit"),
        ) || text::chars_eq(&said, &text::to_chars("bye")) || text::chars_eq(
            &said,
            &text::to_chars(":q"),
        ) {
            SessionCommand::Quit
        } else {
            SessionCommand::Prompt(text::from_chars(&said))
        }
    }
}

} // verus!
