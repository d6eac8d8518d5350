use vstd::prelude::*;

use crate::behavior::ShellTaskBehavior;
use crate::dispatch::{assembled, replay, step, DispatchState};
use crate::error::{Error, TaskStatus};
use crate::log::{lines_view, texts_of, LogStream, ShellTaskLog};
use crate::output::ShellTaskOutput;

verus! {

/// A stopped dispatcher handles nothing more.
pub proof fn lemma_replay_stopped<T, E>(
    s: DispatchState<T, E>,
    records: Seq<ShellTaskLog>,
    signals: Seq<ShellTaskBehavior<T, E>>,
)
    requires
        s.outcome is Some,
    ensures
        replay(s, records, signals) == s,
    decreases records.len(),
{
    if records.len() > 0 && signals.len() > 0 {
        lemma_replay_stopped(step(s, records[0], signals[0]), records.drop_first(), signals.drop_first());
    }
}

/// Lines answered with `Passthrough` are all handled, in order.
pub proof fn lemma_replay_passthrough<T, E>(
    s: DispatchState<T, E>,
    records: Seq<ShellTaskLog>,
    signals: Seq<ShellTaskBehavior<T, E>>,
)
    requires
        s.outcome is None,
        records.len() <= signals.len(),
        forall|i: int| 0 <= i < records.len() ==> signals[i] is Passthrough,
    ensures
        replay(s, records, signals).consumed == s.consumed + records,
        replay(s, records, signals).outcome is None,
    decreases records.len(),
{
    if records.len() == 0 {
        assert(s.consumed + records =~= s.consumed);
    } else {
        let next = step(s, records[0], signals[0]);
        assert forall|i: int| 0 <= i < records.drop_first().len() implies signals.drop_first()[i] is Passthrough by {
            assert(signals.drop_first()[i] == signals[i + 1]);
        }
        lemma_replay_passthrough(next, records.drop_first(), signals.drop_first());
        assert(next.consumed + records.drop_first() =~= s.consumed + records);
    }
}

/// The first early return, answered to the `k`-th line, ends consumption
/// with the first `k` lines handled.
pub proof fn lemma_replay_early_return<T, E>(
    s: DispatchState<T, E>,
    records: Seq<ShellTaskLog>,
    signals: Seq<ShellTaskBehavior<T, E>>,
    k: nat,
    value: T,
)
    requires
        s.outcome is None,
        1 <= k <= records.len(),
        k <= signals.len(),
        forall|i: int| 0 <= i < k - 1 ==> signals[i] is Passthrough,
        signals[k - 1] == ShellTaskBehavior::<T, E>::EarlyReturn(Ok::<T, E>(value)),
    ensures
        replay(s, records, signals).consumed == s.consumed + records.take(k as int),
        replay(s, records, signals).outcome == Some(Ok::<T, Error<E>>(value)),
    decreases k,
{
    let next = step(s, records[0], signals[0]);
    if k == 1 {
        lemma_replay_stopped(next, records.drop_first(), signals.drop_first());
        assert(s.consumed.push(records[0]) =~= s.consumed + records.take(1));
    } else {
        assert forall|i: int| 0 <= i < k - 2 implies signals.drop_first()[i] is Passthrough by {
            assert(signals.drop_first()[i] == signals[i + 1]);
        }
        lemma_replay_early_return(next, records.drop_first(), signals.drop_first(), (k - 1) as nat, value);
        assert(next.consumed + records.drop_first().take(k - 1) =~= s.consumed + records.take(k as int));
    }
}

/// When the handler lets every line pass and the command succeeds, the run
/// returns `CompleteOutput` with the command's status and every line of each
/// stream, in the order it was printed.
pub proof fn law_passthrough_keeps_every_line<T, E>(
    start: DispatchState<T, E>,
    records: Seq<ShellTaskLog>,
    signals: Seq<ShellTaskBehavior<T, E>>,
    status: TaskStatus,
    task: Seq<char>,
    r: Result<ShellTaskOutput<T>, Error<E>>,
)
    requires
        start.consumed.len() == 0,
        start.outcome is None,
        records.len() == signals.len(),
        forall|i: int| 0 <= i < signals.len() ==> signals[i] is Passthrough,
        status.spec_success(),
        assembled(r, replay(start, records, signals), status, task),
    ensures
        match r {
            Ok(ShellTaskOutput::CompleteOutput { status: st, stdout_lines, stderr_lines }) => {
                &&& st == status
                &&& lines_view(stdout_lines@) == texts_of(records, LogStream::Stdout)
                &&& lines_view(stderr_lines@) == texts_of(records, LogStream::Stderr)
            },
            _ => false,
        },
{
    lemma_replay_passthrough(start, records, signals);
    assert(start.consumed + records =~= records);
}

/// When the handler first asks for an early return with a value on the `k`-th
/// line it sees and the command succeeds, the run returns `EarlyReturn` with
/// that value and the first `k` lines, split by stream in their order.
pub proof fn law_early_return_keeps_first_lines<T, E>(
    start: DispatchState<T, E>,
    records: Seq<ShellTaskLog>,
    signals: Seq<ShellTaskBehavior<T, E>>,
    k: nat,
    value: T,
    status: TaskStatus,
    task: Seq<char>,
    r: Result<ShellTaskOutput<T>, Error<E>>,
)
    requires
        start.consumed.len() == 0,
        start.outcome is None,
        1 <= k <= records.len(),
        k <= signals.len(),
        forall|i: int| 0 <= i < k - 1 ==> signals[i] is Passthrough,
        signals[k - 1] == ShellTaskBehavior::<T, E>::EarlyReturn(Ok::<T, E>(value)),
        status.spec_success(),
        assembled(r, replay(start, records, signals), status, task),
    ensures
        match r {
            Ok(ShellTaskOutput::EarlyReturn { stdout_lines, stderr_lines, return_value }) => {
                &&& return_value == value
                &&& lines_view(stdout_lines@) == texts_of(records.take(k as int), LogStream::Stdout)
                &&& lines_view(stderr_lines@) == texts_of(records.take(k as int), LogStream::Stderr)
            },
            _ => false,
        },
{
    lemma_replay_early_return(start, records, signals, k, value);
    assert(start.consumed + records.take(k as int) =~= records.take(k as int));
}

/// When the command fails, the run returns `TaskFailure` with its status,
/// whatever the handler asked for.
pub proof fn law_failure_overrides_early_return<T, E>(
    s: DispatchState<T, E>,
    status: TaskStatus,
    task: Seq<char>,
    r: Result<ShellTaskOutput<T>, Error<E>>,
)
    requires
        !status.spec_success(),
        assembled(r, s, status, task),
    ensures
        match r {
            Err(Error::TaskFailure { task: t, exit_status }) => t@ == task && exit_status == status,
            _ => false,
        },
{
}

} // verus!
