use vstd::prelude::*;

use crate::behavior::{HandlerError, ShellTaskBehavior};
use crate::error::{Error, TaskStatus};
use crate::log::{lines_view, texts_of, LogStream, ShellTaskLog};
use crate::output::ShellTaskOutput;

verus! {

/// The abstract state of a dispatcher.
pub struct DispatchState<T, E> {
    /// Every record handled so far, in the order it was received.
    pub consumed: Seq<ShellTaskLog>,
    /// The stored early-return outcome; once set, consumption has stopped.
    pub outcome: Option<Result<T, Error<E>>>,
    /// Lines of `stdout` registered by a reader and not yet handled.
    pub pending_stdout: nat,
    /// Lines of `stderr` registered by a reader and not yet handled.
    pub pending_stderr: nat,
}

/// One less pending line, never below zero.
pub open spec fn settled(n: nat) -> nat {
    if n > 0 {
        (n - 1) as nat
    } else {
        0
    }
}

/// The state after the dispatcher receives `record` and the handler answers
/// `signal`. A stopped dispatcher consumes nothing more.
pub open spec fn step<T, E>(
    s: DispatchState<T, E>,
    record: ShellTaskLog,
    signal: ShellTaskBehavior<T, E>,
) -> DispatchState<T, E> {
    if s.outcome is Some {
        s
    } else {
        DispatchState {
            consumed: s.consumed.push(record),
            outcome: signal.spec_outcome(),
            pending_stdout: if record.spec_stream() == LogStream::Stdout {
                settled(s.pending_stdout)
            } else {
                s.pending_stdout
            },
            pending_stderr: if record.spec_stream() == LogStream::Stderr {
                settled(s.pending_stderr)
            } else {
                s.pending_stderr
            },
        }
    }
}

/// The state after records are received one by one, the handler answering
/// each with the signal at the same position.
pub open spec fn replay<T, E>(
    s: DispatchState<T, E>,
    records: Seq<ShellTaskLog>,
    signals: Seq<ShellTaskBehavior<T, E>>,
) -> DispatchState<T, E>
    decreases records.len(),
{
    if records.len() == 0 || signals.len() == 0 {
        s
    } else {
        replay(step(s, records[0], signals[0]), records.drop_first(), signals.drop_first())
    }
}

/// What a run returns, given the dispatcher's final state, the exit status of
/// the command and its text.
///
/// A failed command gives `TaskFailure` whatever the handler decided. Otherwise
/// a stored value gives `EarlyReturn` with the lines handled so far, a stored
/// error is returned as is, and no outcome gives `CompleteOutput`.
pub open spec fn assembled<T, E>(
    r: Result<ShellTaskOutput<T>, Error<E>>,
    s: DispatchState<T, E>,
    status: TaskStatus,
    task: Seq<char>,
) -> bool {
    if !status.spec_success() {
        match r {
            Err(Error::TaskFailure { task: t, exit_status }) => t@ == task && exit_status
                == status,
            _ => false,
        }
    } else {
        match s.outcome {
            None => match r {
                Ok(ShellTaskOutput::CompleteOutput { status: st, stdout_lines, stderr_lines }) => {
                    &&& st == status
                    &&& lines_view(stdout_lines@) == texts_of(s.consumed, LogStream::Stdout)
                    &&& lines_view(stderr_lines@) == texts_of(s.consumed, LogStream::Stderr)
                },
                _ => false,
            },
            Some(Ok(v)) => match r {
                Ok(ShellTaskOutput::EarlyReturn { stdout_lines, stderr_lines, return_value }) => {
                    &&& return_value == v
                    &&& lines_view(stdout_lines@) == texts_of(s.consumed, LogStream::Stdout)
                    &&& lines_view(stderr_lines@) == texts_of(s.consumed, LogStream::Stderr)
                },
                _ => false,
            },
            Some(Err(e)) => r == Err::<ShellTaskOutput<T>, Error<E>>(e),
        }
    }
}

pub proof fn lemma_texts_of_push(records: Seq<ShellTaskLog>, record: ShellTaskLog, stream: LogStream)
    ensures
        texts_of(records.push(record), stream) == if record.spec_stream() == stream {
            texts_of(records, stream).push(record.spec_text())
        } else {
            texts_of(records, stream)
        },
{
    assert(records.push(record).drop_last() =~= records);
}

/// The consumer side of a run: it takes the merged lines one at a time, keeps
/// every handled line in a buffer for its stream, stores the handler's first
/// early-return outcome, and counts the lines that readers have registered
/// and it has not yet handled.
pub struct Dispatcher<T, E = HandlerError> {
    stdout_lines: Vec<String>,
    stderr_lines: Vec<String>,
    pending_stdout: u64,
    pending_stderr: u64,
    outcome: Option<Result<T, Error<E>>>,
    consumed: Ghost<Seq<ShellTaskLog>>,
}

impl<T, E> View for Dispatcher<T, E> {
    type V = DispatchState<T, E>;

    closed spec fn view(&self) -> DispatchState<T, E> {
        DispatchState {
            consumed: self.consumed@,
            outcome: self.outcome,
            pending_stdout: self.pending_stdout as nat,
            pending_stderr: self.pending_stderr as nat,
        }
    }
}

impl<T, E> Dispatcher<T, E> {
    /// The buffers hold exactly the texts of the handled lines, by stream.
    pub closed spec fn wf(&self) -> bool {
        &&& lines_view(self.stdout_lines@) == texts_of(self.consumed@, LogStream::Stdout)
        &&& lines_view(self.stderr_lines@) == texts_of(self.consumed@, LogStream::Stderr)
    }

    /// A dispatcher that has handled nothing and has nothing pending.
    pub fn new() -> (r: Dispatcher<T, E>)
        ensures
            r.wf(),
            r@.consumed == Seq::<ShellTaskLog>::empty(),
            r@.outcome is None,
            r@.pending_stdout == 0,
            r@.pending_stderr == 0,
    {
        let r = Dispatcher {
            stdout_lines: Vec::new(),
            stderr_lines: Vec::new(),
            pending_stdout: 0,
            pending_stderr: 0,
            outcome: None,
            consumed: Ghost(Seq::empty()),
        };
        proof {
            assert(lines_view(r.stdout_lines@) =~= seq![]);
            assert(lines_view(r.stderr_lines@) =~= seq![]);
        }
        r
    }

    /// The number of registered lines of `stream` not yet handled.
    pub fn pending(&self, stream: LogStream) -> (r: u64)
        ensures
            r == match stream {
                LogStream::Stdout => self@.pending_stdout,
                LogStream::Stderr => self@.pending_stderr,
            },
    {
        match stream {
            LogStream::Stdout => self.pending_stdout,
            LogStream::Stderr => self.pending_stderr,
        }
    }

    /// Records that a reader has read a line of `stream` and is about to send
    /// it, so that it counts as pending before it can be received.
    pub fn register(&mut self, stream: LogStream)
        requires
            old(self).wf(),
            stream == LogStream::Stdout ==> old(self)@.pending_stdout < u64::MAX,
            stream == LogStream::Stderr ==> old(self)@.pending_stderr < u64::MAX,
        ensures
            final(self).wf(),
            final(self)@ == (DispatchState {
                pending_stdout: if stream == LogStream::Stdout {
                    old(self)@.pending_stdout + 1
                } else {
                    old(self)@.pending_stdout
                },
                pending_stderr: if stream == LogStream::Stderr {
                    old(self)@.pending_stderr + 1
                } else {
                    old(self)@.pending_stderr
                },
                ..old(self)@
            }),
    {
        match stream {
            LogStream::Stdout => self.pending_stdout = self.pending_stdout + 1,
            LogStream::Stderr => self.pending_stderr = self.pending_stderr + 1,
        }
    }

    /// Whether the handler has ended consumption.
    pub fn is_stopped(&self) -> (r: bool)
        ensures
            r == (self@.outcome is Some),
    {
        self.outcome.is_some()
    }

    /// Whether no registered line is waiting to be handled.
    pub fn is_drained(&self) -> (r: bool)
        ensures
            r == (self@.pending_stdout == 0 && self@.pending_stderr == 0),
    {
        self.pending_stdout == 0 && self.pending_stderr == 0
    }

    /// Whether the result can be assembled: every registered line has been
    /// handled, or consumption has stopped, after which no line is handled
    /// and the buffers no longer change.
    pub fn barrier_cleared(&self) -> (r: bool)
        ensures
            r == ((self@.pending_stdout == 0 && self@.pending_stderr == 0)
                || self@.outcome is Some),
    {
        self.is_drained() || self.is_stopped()
    }

    /// Handles one received line together with the handler's answer to it.
    ///
    /// Unless consumption has stopped, the line leaves the pending count of
    /// its stream and joins that stream's buffer whatever the answer is; an
    /// early return is stored and stops consumption. Returns whether the
    /// dispatcher goes on consuming.
    pub fn dispatch(&mut self, record: ShellTaskLog, signal: ShellTaskBehavior<T, E>) -> (go_on: bool)
        requires
            old(self).wf(),
        ensures
            final(self).wf(),
            final(self)@ == step(old(self)@, record, signal),
            go_on == (final(self)@.outcome is None),
    {
        if self.outcome.is_some() {
            return false;
        }
        let ghost rec = record;
        proof {
            lemma_texts_of_push(self.consumed@, rec, LogStream::Stdout);
            lemma_texts_of_push(self.consumed@, rec, LogStream::Stderr);
        }
        let ghost out_before = self.stdout_lines@;
        let ghost err_before = self.stderr_lines@;
        match record {
            ShellTaskLog::Stdout(line) => {
                if self.pending_stdout > 0 {
                    self.pending_stdout = self.pending_stdout - 1;
                }
                self.stdout_lines.push(line);
                proof {
                    assert(lines_view(self.stdout_lines@) =~= lines_view(out_before).push(
                        rec.spec_text(),
                    ));
                }
            },
            ShellTaskLog::Stderr(line) => {
                if self.pending_stderr > 0 {
                    self.pending_stderr = self.pending_stderr - 1;
                }
                self.stderr_lines.push(line);
                proof {
                    assert(lines_view(self.stderr_lines@) =~= lines_view(err_before).push(
                        rec.spec_text(),
                    ));
                }
            },
        }
        self.consumed = Ghost(self.consumed@.push(rec));
        match signal {
            ShellTaskBehavior::EarlyReturn(Ok(v)) => {
                self.outcome = Some(Ok(v));
                false
            },
            ShellTaskBehavior::EarlyReturn(Err(e)) => {
                self.outcome = Some(Err(Error::EarlyReturn(e)));
                false
            },
            ShellTaskBehavior::Passthrough => true,
        }
    }

    /// Stops consumption because the shared accounting became unusable. The
    /// `PoisonedLog` error is stored unless an outcome was stored before.
    pub fn poison(&mut self, task: String)
        requires
            old(self).wf(),
        ensures
            final(self).wf(),
            old(self)@.outcome is Some ==> final(self)@ == old(self)@,
            old(self)@.outcome is None ==> final(self)@ == (DispatchState {
                outcome: Some(Err(Error::PoisonedLog { task })),
                ..old(self)@
            }),
    {
        if self.outcome.is_none() {
            self.outcome = Some(Err(Error::PoisonedLog { task }));
        }
    }

    /// The result of the run, from the exit status of the command and its text.
    pub fn finish(self, status: TaskStatus, task: String) -> (r: Result<ShellTaskOutput<T>, Error<E>>)
        requires
            self.wf(),
        ensures
            assembled(r, self@, status, task@),
    {
        if !status.success() {
            return Err(Error::TaskFailure { task, exit_status: status });
        }
        match self.outcome {
            Some(Ok(v)) => Ok(
                ShellTaskOutput::EarlyReturn {
                    stdout_lines: self.stdout_lines,
                    stderr_lines: self.stderr_lines,
                    return_value: v,
                },
            ),
            Some(Err(e)) => Err(e),
            None => Ok(
                ShellTaskOutput::CompleteOutput {
                    status,
                    stdout_lines: self.stdout_lines,
                    stderr_lines: self.stderr_lines,
                },
            ),
        }
    }
}

} // verus!
