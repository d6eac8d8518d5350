use vstd::prelude::*;

use crate::error::TaskStatus;

verus! {

/// What a successful run returns.
#[derive(Debug)]
pub enum ShellTaskOutput<T> {
    /// The handler ended observation early with a value.
    EarlyReturn {
        /// The lines printed to `stdout` up to the early return.
        stdout_lines: Vec<String>,
        /// The lines printed to `stderr` up to the early return.
        stderr_lines: Vec<String>,
        /// The handler's value.
        return_value: T,
    },
    /// The handler let every line pass.
    CompleteOutput {
        /// How the command ended.
        status: TaskStatus,
        /// The lines printed to `stdout`.
        stdout_lines: Vec<String>,
        /// The lines printed to `stderr`.
        stderr_lines: Vec<String>,
    },
}

} // verus!
