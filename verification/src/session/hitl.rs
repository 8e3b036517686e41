//! The hook that stands between the model and a tool when the model runs
//! tools on its own: it asks the user, and keeps what the user said instead
//! of yes.

use crate::text;
use crate::tools::hitl::{mutating, needs_confirmation};
use vstd::prelude::*;

verus! {

/// What the hook decides about a tool call.
#[derive(Clone, Copy, Debug, PartialEq, Eq, Structural)]
pub enum HitlDecision {
    /// The call goes ahead.
    Proceed,
    /// The call, and the turn with it, is cancelled.
    Cancel,
}

/// The hook. It keeps the user's feedback until it is taken.
#[derive(Debug)]
pub struct Hitl {
    pub feedback: Option<String>,
}

/// Whether `said` is a plain no: `n` or `no`, in upper or lower case.
pub open spec fn is_no(said: Seq<char>) -> bool {
    ||| said == seq!['n']
    ||| said == seq!['N']
    ||| said == seq!['n', 'o']
    ||| said == seq!['N', 'o']
    ||| said == seq!['n', 'O']
    ||| said == seq!['N', 'O']
}

/// Whether `said` is a plain no.
fn says_no(said: &Vec<char>) -> (b: bool)
    ensures
        b == is_no(said@),
{
    if said.len() == 1 {
        let b = said[0] == 'n' || said[0] == 'N';
        proof {
            if b {
                assert(said@ =~= seq![said@[0]]);
            }
        }
        b
    } else if said.len() == 2 {
        let b = (said[0] == 'n' || said[0] == 'N') && (said[1] == 'o' || said[1] == 'O');
        proof {
            if b {
                assert(said@ =~= seq![said@[0], said@[1]]);
            }
        }
        b
    } else {
        false
    }
}

impl Hitl {
    /// A hook that holds no feedback.
    pub fn new() -> (h: Hitl)
        ensures
            h.feedback is None,
    {
        Hitl { feedback: None }
    }

    /// Hands out the feedback that the hook holds, and holds none after.
    pub fn take_feedback(&mut self) -> (f: Option<String>)
        ensures
            f == old(self).feedback,
            final(self).feedback is None,
    {
        let mut taken: Option<String> = None;
        core::mem::swap(&mut self.feedback, &mut taken);
        taken
    }

    /// Whether the user is to be asked before the tool named `tool_name`
    /// runs.
    pub fn asks_for(tool_name: &str) -> (ask: bool)
        ensures
            ask == mutating(tool_name@),
    {
        needs_confirmation(tool_name)
    }

    /// Decides about a call of the tool named `tool_name`. `input` is what
    /// the user typed when asked; it is `None` where nothing could be read,
    /// and does not count for a tool that needs no consent.
    ///
    /// A tool that needs no consent goes ahead, and so does any tool where
    /// nothing could be read or nothing but white space was typed.
    /// Everything else cancels the call; unless it is a plain no, it is kept
    /// as feedback, without the white space round it.
    pub fn on_tool_call(&mut self, tool_name: &str, input: Option<&str>) -> (d: HitlDecision)
        ensures
            match input {
                Some(line) if mutating(tool_name@) && text::trim(line@).len() > 0 => {
                    &&& d == HitlDecision::Cancel
                    &&& if is_no(text::trim(line@)) {
                        final(self).feedback == old(self).feedback
                    } else {
                        final(self).feedback matches Some(f) && f@ == text::trim(line@)
                    }
                },
                _ => d == HitlDecision::Proceed && final(self).feedback == old(self).feedback,
            },
    {
        if !needs_confirmation(tool_name) {
            return HitlDecision::Proceed;
        }
        match input {
            Some(line) => {
                let said = text::trimmed(&text::to_chars(line));
                if said.len() == 0 {
                    return HitlDecision::Proceed;
                }
                if !says_no(&said) {
                    self.feedback = Some(text::from_chars(&said));
                }
                HitlDecision::Cancel
            },
            None => HitlDecision::Proceed,
        }
    }
}

} // verus!
