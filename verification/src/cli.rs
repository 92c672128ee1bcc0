//! What the launcher is started or activated with.

use vstd::prelude::*;

verus! {

/// A named sub-command that an activation can carry.
#[derive(Clone, Copy, Debug, PartialEq, Eq, Structural)]
pub enum LauncherCommands {
    /// Toggle the launcher and cycle forwards through the open windows.
    AltTab,
    /// Toggle the launcher and cycle backwards through the open windows.
    ShiftAltTab,
}

/// The arguments of one start of the program.
#[derive(Clone, Copy, Debug, PartialEq, Eq, Structural)]
pub struct Args {
    /// The sub-command, if one was given.
    pub subcommand: Option<LauncherCommands>,
}

impl Args {
    /// The sub-command to hand to a running instance.
    pub fn action(&self) -> (action: Option<&LauncherCommands>)
        ensures
            action == match self.subcommand {
                Some(command) => Some(&command),
                None => None,
            },
    {
        match &self.subcommand {
            Some(command) => Some(command),
            None => None,
        }
    }
}

/// What the session asks of a running launcher.
#[derive(Clone, Copy, Debug, PartialEq, Eq, Structural)]
pub enum Activation {
    /// Show the launcher, or hide it if it is up.
    Activate,
    /// Open something; the launcher has nothing to open.
    Open,
    /// Run a named sub-command; `None` where the name was not understood.
    ActivateAction(Option<LauncherCommands>),
}

} // verus!
