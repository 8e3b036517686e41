//! Consent: what the user has approved for good, and what an answer at the
//! prompt means.

use crate::domain::cmd::{pattern_of, shell_words, split_words, ApprovedCmds, CmdPattern};
use crate::text;
use crate::tools::tool_call::AgxToolCall;
use vstd::prelude::*;

verus! {

/// What the user typed when asked whether a tool call may run.
#[derive(Debug)]
pub enum Answer {
    /// Run it.
    Yes,
    /// Run it, and do not ask again for calls like it.
    Always,
    /// Do not run it.
    No,
    /// Do not run it; tell the model this instead.
    Feedback(String),
}

/// How a tool call came through the question of consent.
#[derive(Debug)]
pub enum Confirmation {
    /// The call needs no consent, or the user gave it for this call.
    Approved,
    /// The call is covered by what the user approved for good.
    AutoApproved,
    /// The user refused the call.
    Rejected,
    /// The user refused the call and said what to do instead.
    FeedbackProvided(String),
}

/// What the user has approved for good in this session.
#[derive(Debug)]
pub struct PermissionRecord {
    /// Whether files may be created and edited without asking.
    pub file_mutations_approved: bool,
    /// The commands that may be run without asking.
    pub approved_commands: ApprovedCmds,
}

impl Answer {
    /// Reads an answer. White space round it does not count. Nothing at all
    /// or `y` is a yes, `a` says always, `n` or `no` is a no, and anything
    /// else is feedback for the model.
    pub fn parse(input: &str) -> (a: Answer)
        ensures
            match a {
                Answer::Yes => text::trim(input@).len() == 0 || text::trim(input@) == "y"@,
                Answer::Always => text::trim(input@) == "a"@,
                Answer::No => text::trim(input@) == "n"@ || text::trim(input@) == "no"@,
                Answer::Feedback(t) => {
                    &&& t@ == text::trim(input@)
                    &&& t@.len() > 0
                    &&& t@ != "y"@
                    &&& t@ != "a"@
                    &&& t@ != "n"@
                    &&& t@ != "no"@
                },
            },
    {
        let said = text::trimmed(&text::to_chars(input));
        if said.len() == 0 || text::chars_eq(&said, &text::to_chars("y")) {
            Answer::Yes
        } else if text::chars_eq(&said, &text::to_chars("a")) {
            Answer::Always
        } else if text::chars_eq(&said, &text::to_chars("n")) || text::chars_eq(
            &said,
            &text::to_chars("no"),
        ) {
            Answer::No
        } else {
            Answer::Feedback(text::from_chars(&said))
        }
    }
}

impl PermissionRecord {
    /// Nothing approved yet.
    pub fn new() -> (p: PermissionRecord)
        ensures
            !p.file_mutations_approved,
            p.approved_commands@ == Set::<crate::domain::cmd::CmdPatternModel>::empty(),
    {
        PermissionRecord { file_mutations_approved: false, approved_commands: ApprovedCmds::new() }
    }

    /// The record that starts from approvals that were saved earlier. The
    /// approval for files is never saved, so it starts as not given.
    pub fn with_commands(approved_commands: ApprovedCmds) -> (p: PermissionRecord)
        ensures
            !p.file_mutations_approved,
            p.approved_commands == approved_commands,
    {
        PermissionRecord { file_mutations_approved: false, approved_commands }
    }

    /// Whether the record covers `call`: a call that writes a file where
    /// files are approved, a command where one of the approved patterns
    /// covers it. Reads need no cover and have none.
    pub open spec fn permits(self, call: AgxToolCall) -> bool {
        match call {
            AgxToolCall::CreateFile { .. } => self.file_mutations_approved,
            AgxToolCall::EditFile { .. } => self.file_mutations_approved,
            AgxToolCall::RunCmd { args } => self.approved_commands.approves(
                shell_words(args.command@),
            ),
            _ => false,
        }
    }

    /// Decides without asking where that can be done: a read is approved as
    /// it is, a call that the record covers is approved by the record, and
    /// for every other call the user has to be asked.
    pub fn check(&self, call: &AgxToolCall) -> (c: Option<Confirmation>)
        ensures
            !call.mutates() ==> c matches Some(Confirmation::Approved),
            call.mutates() && self.permits(*call) ==> c matches Some(Confirmation::AutoApproved),
            call.mutates() && !self.permits(*call) ==> c is None,
    {
        match call {
            AgxToolCall::ReadFile { .. } => Some(Confirmation::Approved),
            AgxToolCall::ReadDir { .. } => Some(Confirmation::Approved),
            AgxToolCall::CreateFile { .. } => {
                if self.file_mutations_approved {
                    Some(Confirmation::AutoApproved)
                } else {
                    None
                }
            },
            AgxToolCall::EditFile { .. } => {
                if self.file_mutations_approved {
                    Some(Confirmation::AutoApproved)
                } else {
                    None
                }
            },
            AgxToolCall::RunCmd { args } => {
                if self.approved_commands.is_approved(args.command.as_str()) {
                    Some(Confirmation::AutoApproved)
                } else {
                    None
                }
            },
        }
    }

    /// Whether `after` is this record once calls like `call` have been
    /// approved for good, and `save` says whether the approved commands
    /// changed. For a call that writes a file, files are approved. For a
    /// command, its pattern joins the approved ones; a command without a
    /// pattern changes nothing. A read changes nothing.
    pub open spec fn granted(self, call: AgxToolCall, after: PermissionRecord, save: bool) -> bool {
        match call {
            AgxToolCall::CreateFile { .. } | AgxToolCall::EditFile { .. } => {
                &&& after.file_mutations_approved
                &&& after.approved_commands == self.approved_commands
                &&& !save
            },
            AgxToolCall::RunCmd { args } => {
                &&& after.file_mutations_approved == self.file_mutations_approved
                &&& match pattern_of(shell_words(args.command@)) {
                    Some(p) => after.approved_commands@ == self.approved_commands@.insert(p)
                        && save,
                    None => after.approved_commands == self.approved_commands && !save,
                }
            },
            _ => after == self && !save,
        }
    }

    /// What an answer of the user means for `call`. A yes approves the call.
    /// Always records that calls like it need no asking (see
    /// [`PermissionRecord::granted`]) and then counts as approved by the
    /// record. A no rejects the call. Anything else rejects it too, and is
    /// passed on as feedback. `save` says whether the approved commands
    /// changed.
    pub fn confirm(&mut self, call: &AgxToolCall, answer: Answer) -> (r: (Confirmation, bool))
        ensures
            match answer {
                Answer::Yes => r.0 is Approved && !r.1 && *final(self) == *old(self),
                Answer::Always => r.0 is AutoApproved && old(self).granted(
                    *call,
                    *final(self),
                    r.1,
                ),
                Answer::No => r.0 is Rejected && !r.1 && *final(self) == *old(self),
                Answer::Feedback(words) => {
                    &&& r.0 matches Confirmation::FeedbackProvided(said)
                    &&& said@ == words@
                    &&& !r.1
                    &&& *final(self) == *old(self)
                },
            },
    {
        match answer {
            Answer::Yes => (Confirmation::Approved, false),
            Answer::Always => {
                let save = self.grant(call);
                (Confirmation::AutoApproved, save)
            },
            Answer::No => (Confirmation::Rejected, false),
            Answer::Feedback(words) => (Confirmation::FeedbackProvided(words), false),
        }
    }

    /// Records that calls like `call` need no asking from now on: for a call
    /// that writes a file, files are approved; for a command, its pattern is
    /// added to the approved ones. The answer says whether the approved
    /// commands changed and so have to be saved.
    pub fn grant(&mut self, call: &AgxToolCall) -> (save: bool)
        ensures
            old(self).granted(*call, *final(self), save),
            call.mutates() && !(call is RunCmd && pattern_of(
                shell_words(call->RunCmd_args.command@),
            ) is None) ==> final(self).permits(*call),
    {
        match call {
            AgxToolCall::CreateFile { .. } => {
                self.file_mutations_approved = true;
                false
            },
            AgxToolCall::EditFile { .. } => {
                self.file_mutations_approved = true;
                false
            },
            AgxToolCall::RunCmd { args } => {
                let words = split_words(args.command.as_str());
                match CmdPattern::from_words(&words) {
                    Ok(pattern) => {
                        self.approved_commands.insert(&pattern);
                        proof {
                            assert(self.approved_commands@.contains(pattern@));
                            assert(pattern@.covers(shell_words(args.command@)));
                        }
                        true
                    },
                    Err(_) => false,
                }
            },
            _ => false,
        }
    }
}

} // verus!
