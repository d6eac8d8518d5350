use shell_candy::{
    Dispatcher, Error, HandlerError, LogStream, ShellTaskBehavior, ShellTaskLog, ShellTaskOutput,
    TaskStatus,
};

fn ok_status() -> TaskStatus {
    TaskStatus { code: Some(0) }
}

fn out(s: &str) -> ShellTaskLog {
    ShellTaskLog::Stdout(s.to_string())
}

fn err(s: &str) -> ShellTaskLog {
    ShellTaskLog::Stderr(s.to_string())
}

fn strings(v: &[&str]) -> Vec<String> {
    v.iter().map(|s| s.to_string()).collect()
}

#[test]
fn status_success_only_for_zero() {
    assert!(TaskStatus { code: Some(0) }.success());
    assert!(!TaskStatus { code: Some(1) }.success());
    assert!(!TaskStatus { code: None }.success());
}

#[test]
fn one_stdout_line_passthrough_gives_complete_output() {
    let mut d: Dispatcher<()> = Dispatcher::new();
    d.register(LogStream::Stdout);
    assert!(d.dispatch(out("rustc 1.63.0"), ShellTaskBehavior::Passthrough));
    assert!(d.is_drained());
    match d.finish(ok_status(), "rustc --version".to_string()) {
        Ok(ShellTaskOutput::CompleteOutput { status, stdout_lines, stderr_lines }) => {
            assert_eq!(status, ok_status());
            assert_eq!(stdout_lines, strings(&["rustc 1.63.0"]));
            assert!(stderr_lines.is_empty());
        }
        other => panic!("unexpected result: {:?}", other),
    }
}

#[test]
fn passthrough_keeps_every_line_in_order() {
    let mut d: Dispatcher<()> = Dispatcher::new();
    let records = vec![out("o1"), err("e1"), out("o2"), out("o3"), err("e2")];
    for r in records {
        d.register(r.stream());
        assert!(d.dispatch(r, ShellTaskBehavior::Passthrough));
    }
    assert!(d.is_drained());
    assert!(!d.is_stopped());
    match d.finish(ok_status(), "cmd".to_string()) {
        Ok(ShellTaskOutput::CompleteOutput { status, stdout_lines, stderr_lines }) => {
            assert!(status.success());
            assert_eq!(stdout_lines, strings(&["o1", "o2", "o3"]));
            assert_eq!(stderr_lines, strings(&["e1", "e2"]));
        }
        other => panic!("unexpected result: {:?}", other),
    }
}

#[test]
fn first_stdout_line_early_return_keeps_that_line() {
    let mut d: Dispatcher<String> = Dispatcher::new();
    d.register(LogStream::Stdout);
    d.register(LogStream::Stdout);
    let go_on = d.dispatch(out("first"), ShellTaskBehavior::EarlyReturn(Ok("x".to_string())));
    assert!(!go_on);
    assert!(d.is_stopped());
    // a line arriving after the break is not handled
    assert!(!d.dispatch(out("second"), ShellTaskBehavior::Passthrough));
    assert_eq!(d.pending(LogStream::Stdout), 1);
    assert!(!d.is_drained());
    assert!(d.barrier_cleared());
    match d.finish(ok_status(), "cmd".to_string()) {
        Ok(ShellTaskOutput::EarlyReturn { stdout_lines, stderr_lines, return_value }) => {
            assert_eq!(stdout_lines, strings(&["first"]));
            assert!(stderr_lines.is_empty());
            assert_eq!(return_value, "x");
        }
        other => panic!("unexpected result: {:?}", other),
    }
}

#[test]
fn early_return_on_third_record_keeps_first_three() {
    let mut d: Dispatcher<u32> = Dispatcher::new();
    assert!(d.dispatch(err("e1"), ShellTaskBehavior::Passthrough));
    assert!(d.dispatch(out("o1"), ShellTaskBehavior::Passthrough));
    assert!(!d.dispatch(err("e2"), ShellTaskBehavior::EarlyReturn(Ok(7))));
    assert!(!d.dispatch(out("o2"), ShellTaskBehavior::EarlyReturn(Ok(9))));
    match d.finish(ok_status(), "cmd".to_string()) {
        Ok(ShellTaskOutput::EarlyReturn { stdout_lines, stderr_lines, return_value }) => {
            assert_eq!(stdout_lines, strings(&["o1"]));
            assert_eq!(stderr_lines, strings(&["e1", "e2"]));
            assert_eq!(return_value, 7);
        }
        other => panic!("unexpected result: {:?}", other),
    }
}

#[test]
fn failed_command_overrides_early_return() {
    let mut d: Dispatcher<String> = Dispatcher::new();
    assert!(!d.dispatch(out("line"), ShellTaskBehavior::EarlyReturn(Ok("x".to_string()))));
    match d.finish(TaskStatus { code: Some(2) }, "false".to_string()) {
        Err(Error::TaskFailure { task, exit_status }) => {
            assert_eq!(task, "false");
            assert_eq!(exit_status, TaskStatus { code: Some(2) });
        }
        other => panic!("unexpected result: {:?}", other),
    }
}

#[test]
fn command_killed_by_signal_is_a_failure() {
    let d: Dispatcher<()> = Dispatcher::new();
    let r = d.finish(TaskStatus { code: None }, "sleep 10".to_string());
    assert!(matches!(r, Err(Error::TaskFailure { .. })));
}

#[test]
fn handler_error_is_returned_as_early_return_error() {
    let mut d: Dispatcher<()> = Dispatcher::new();
    let e = HandlerError::new("bad line".to_string());
    assert!(!d.dispatch(err("oops"), ShellTaskBehavior::EarlyReturn(Err(e))));
    match d.finish(ok_status(), "cmd".to_string()) {
        Err(Error::EarlyReturn(e)) => assert_eq!(e.message, "bad line"),
        other => panic!("unexpected result: {:?}", other),
    }
}

#[test]
fn poisoned_accounting_stops_with_poisoned_log() {
    let mut d: Dispatcher<()> = Dispatcher::new();
    assert!(d.dispatch(out("a"), ShellTaskBehavior::Passthrough));
    d.poison("cmd".to_string());
    assert!(d.is_stopped());
    assert!(!d.dispatch(out("b"), ShellTaskBehavior::Passthrough));
    match d.finish(ok_status(), "cmd".to_string()) {
        Err(Error::PoisonedLog { task }) => assert_eq!(task, "cmd"),
        other => panic!("unexpected result: {:?}", other),
    }
}

#[test]
fn poison_keeps_an_earlier_outcome() {
    let mut d: Dispatcher<u8> = Dispatcher::new();
    assert!(!d.dispatch(out("a"), ShellTaskBehavior::EarlyReturn(Ok(1))));
    d.poison("cmd".to_string());
    let r = d.finish(ok_status(), "cmd".to_string());
    assert!(matches!(r, Ok(ShellTaskOutput::EarlyReturn { return_value: 1, .. })));
}

#[test]
fn pending_counts_follow_registration_and_handling() {
    let mut d: Dispatcher<()> = Dispatcher::new();
    assert!(d.is_drained());
    d.register(LogStream::Stdout);
    d.register(LogStream::Stderr);
    d.register(LogStream::Stderr);
    assert_eq!(d.pending(LogStream::Stdout), 1);
    assert_eq!(d.pending(LogStream::Stderr), 2);
    assert!(!d.barrier_cleared());
    assert!(d.dispatch(err("e"), ShellTaskBehavior::Passthrough));
    assert_eq!(d.pending(LogStream::Stderr), 1);
    assert_eq!(d.pending(LogStream::Stdout), 1);
    assert!(d.dispatch(out("o"), ShellTaskBehavior::Passthrough));
    assert!(d.dispatch(err("e"), ShellTaskBehavior::Passthrough));
    assert!(d.is_drained());
    assert!(d.barrier_cleared());
    // handling an unregistered line does not go below zero
    assert!(d.dispatch(out("late"), ShellTaskBehavior::Passthrough));
    assert_eq!(d.pending(LogStream::Stdout), 0);
}

#[test]
fn log_record_stream_and_text() {
    let r = err("warning: x");
    assert_eq!(r.stream(), LogStream::Stderr);
    assert_eq!(r.text(), "warning: x");
    assert_eq!(out("y").stream(), LogStream::Stdout);
}

#[derive(Debug, PartialEq)]
enum ParseProblem {
    BadVersion(u32),
}

#[test]
fn handler_error_of_its_own_type_passes_through_unchanged() {
    let mut d: Dispatcher<(), ParseProblem> = Dispatcher::new();
    assert!(d.dispatch(out("ok"), ShellTaskBehavior::Passthrough));
    let signal = ShellTaskBehavior::EarlyReturn(Err(ParseProblem::BadVersion(2)));
    assert!(!d.dispatch(out("rustc 2.0.0"), signal));
    match d.finish(ok_status(), "rustc --version".to_string()) {
        Err(Error::EarlyReturn(e)) => assert_eq!(e, ParseProblem::BadVersion(2)),
        other => panic!("unexpected result: {:?}", other),
    }
}
