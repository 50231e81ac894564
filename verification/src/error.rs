//! Error types for building a command line and launching a child process.

use vstd::prelude::*;

verus! {

/// A field-scoped validation failure raised while building the command
/// line: the display name of the offending argument plus a user-facing
/// message. At most one is active at a time, and editing the named
/// argument clears it.
#[derive(Debug, Clone)]
pub struct ValidationErrorInfo {
    pub name: String,
    pub message: String,
}

impl ValidationErrorInfo {
    /// True when this error is attached to the argument called `name`.
    pub open spec fn spec_names(&self, name: Seq<char>) -> bool {
        self.name@ == name
    }

    /// Returns the message when this error belongs to the argument
    /// called `name`, and nothing otherwise.
    pub fn is(&self, name: &String) -> (r: Option<&String>)
        ensures
            self.spec_names(name@) <==> r == Some(&self.message),
            !self.spec_names(name@) <==> r is None,
    {
        if self.name.eq(name) {
            Some(&self.message)
        } else {
            None
        }
    }
}

/// What can go wrong while launching a child process: spawning, resolving
/// the working directory, feeding stdin, or missing stdio pipes. All are
/// fatal to that launch attempt and none is silently swallowed.
#[derive(Debug, Clone, PartialEq, Eq)]
pub enum ExecuteError {
    /// The OS refused to spawn the process.
    SpawnFailed(String),
    /// The requested working directory could not be resolved to an
    /// absolute, existing path.
    WorkingDirInvalid(String),
    /// Writing or streaming the stdin source into the child failed.
    StdinWriteFailed(String),
    /// The spawned child unexpectedly lacked a stdout or stderr handle.
    NoStdoutOrStderr,
}

} // verus!
