//! What is kept between sessions.

use crate::domain::cmd::{ApprovedCmds, CmdPatternModel};
use vstd::prelude::*;

verus! {

/// The local configuration: the commands that the user approved for good.
#[derive(Debug)]
pub struct Config {
    pub approved_commands: ApprovedCmds,
}

impl Default for Config {
    /// The configuration of a project in which nothing was approved yet.
    fn default() -> (c: Config)
        ensures
            c.approved_commands@ == Set::<CmdPatternModel>::empty(),
    {
        Config { approved_commands: ApprovedCmds::new() }
    }
}

} // verus!
