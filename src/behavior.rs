use vstd::prelude::*;

use crate::error::Error;

verus! {

/// A ready-made error for log handlers that end a run early with a message.
/// A handler may use any error type of its own instead: it reaches the caller
/// unchanged, as `Error::EarlyReturn`.
#[derive(Debug, Clone)]
pub struct HandlerError {
    pub message: String,
}

impl HandlerError {
    /// An error carrying `message`.
    pub fn new(message: String) -> (r: HandlerError)
        ensures
            r.message@ == message@,
    {
        HandlerError { message }
    }
}

/// What a log handler asks for after it has seen one line; `E` is the
/// handler's own error type.
#[derive(Debug)]
pub enum ShellTaskBehavior<T, E = HandlerError> {
    /// Stop consuming output and end the run with this outcome.
    EarlyReturn(Result<T, E>),
    /// Keep consuming output.
    Passthrough,
}

impl<T, E> ShellTaskBehavior<T, E> {
    /// The outcome that an early return stores: the handler's value, or its
    /// error as the run's error.
    pub open spec fn spec_outcome(&self) -> Option<Result<T, Error<E>>> {
        match self {
            ShellTaskBehavior::EarlyReturn(Ok(v)) => Some(Ok(*v)),
            ShellTaskBehavior::EarlyReturn(Err(e)) => Some(Err(Error::EarlyReturn(*e))),
            ShellTaskBehavior::Passthrough => None,
        }
    }
}

} // verus!
