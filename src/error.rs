use vstd::prelude::*;

use crate::behavior::HandlerError;

verus! {

/// How a command ended: its exit code, or none when a signal ended it.
#[derive(Debug, Clone, Copy, PartialEq, Eq, Structural)]
pub struct TaskStatus {
    pub code: Option<i32>,
}

impl TaskStatus {
    pub open spec fn spec_success(&self) -> bool {
        self.code == Some(0i32)
    }

    /// Whether the command ended with exit code zero.
    pub fn success(&self) -> (r: bool)
        ensures
            r == self.spec_success(),
    {
        match self.code {
            Some(c) => c == 0,
            None => false,
        }
    }
}

/// The errors reported while building or running a task.
#[derive(Debug, Clone)]
pub enum Error<E = HandlerError> {
    /// The command ended with a status other than success.
    TaskFailure {
        /// The command that failed.
        task: String,
        /// The status it ended with.
        exit_status: TaskStatus,
    },
    /// The command line is empty or does not name an executable.
    InvalidTask {
        /// The malformed command.
        task: String,
        /// Why it was refused.
        reason: String,
    },
    /// The operating system could not start the command.
    CouldNotSpawn {
        /// The command that could not start.
        task: String,
        /// What the operating system reported.
        source: String,
    },
    /// The operating system could not report how the command ended.
    CouldNotWait {
        /// The command that could not be waited for.
        task: String,
        /// What the operating system reported.
        source: String,
    },
    /// The working directory of this process could not be found.
    CouldNotFindCurrentDirectory {
        /// What the operating system reported.
        source: String,
    },
    /// The shared accounting of pending lines became unusable.
    PoisonedLog {
        /// The command whose accounting failed.
        task: String,
    },
    /// The handler ended the run early with an error of its own, passed on
    /// as it is.
    EarlyReturn(E),
}

} // verus!
