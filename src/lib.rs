//! Runs an external command and streams each line it prints to a handler,
//! which may let the run go on or end observation early with a value.
//!
//! The library holds the decisions of a run: how a command line is split and
//! checked, how output records are counted, buffered and dispatched, and how
//! the final result is assembled from the exit status and the handler's
//! outcome. Spawning processes, threads and channels stay with the caller.

mod behavior;
mod command;
mod dispatch;
mod error;
mod laws;
mod log;
mod output;
mod task;

pub use behavior::{HandlerError, ShellTaskBehavior};
pub use command::{lemma_split_spaces_nonempty, split_command, split_spaces};
pub use dispatch::{
    assembled, lemma_texts_of_push, replay, settled, step, DispatchState, Dispatcher,
};
pub use error::{Error, TaskStatus};
pub use laws::{
    law_early_return_keeps_first_lines, law_failure_overrides_early_return,
    law_passthrough_keeps_every_line, lemma_replay_early_return, lemma_replay_passthrough,
    lemma_replay_stopped,
};
pub use log::{lines_view, texts_of, LogStream, ShellTaskLog};
pub use output::ShellTaskOutput;
pub use task::{
    configured, env_map, not_installed_reason, pairs_view, ShellTask, ShellTaskView,
    EMPTY_REASON, MARKER_NAME, MARKER_VALUE,
};
