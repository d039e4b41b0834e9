//! The exit of a child process, reduced to plain values.

use vstd::prelude::*;

verus! {

/// The ghost-level image of an [`ExitStatus`].
pub ghost struct ExitStatusView {
    pub success: bool,
    pub code: Option<i32>,
    pub description: Seq<char>,
}

/// How a child process exited: whether the operating system reports
/// success, the exit code when one is available (a process ended by a
/// signal has none), and the operating system's own description of the
/// status, for messages when no code is available.
#[derive(Debug, Clone)]
pub struct ExitStatus {
    pub success: bool,
    pub code: Option<i32>,
    pub description: String,
}

impl View for ExitStatus {
    type V = ExitStatusView;

    open spec fn view(&self) -> ExitStatusView {
        ExitStatusView {
            success: self.success,
            code: self.code,
            description: self.description@,
        }
    }
}

impl ExitStatus {
    /// Whether the operating system reports that the process succeeded.
    pub fn success(&self) -> (result: bool)
        ensures
            result == self@.success,
    {
        self.success
    }

    /// The exit code, when the process exited with one.
    pub fn code(&self) -> (result: Option<i32>)
        ensures
            result == self@.code,
    {
        self.code
    }

    /// An equal copy of this status.
    pub fn duplicate(&self) -> (result: ExitStatus)
        ensures
            result@ == self@,
    {
        ExitStatus { success: self.success, code: self.code, description: self.description.clone() }
    }
}

} // verus!
