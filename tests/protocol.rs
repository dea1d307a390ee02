use safe_fork::{
    advance, ensure_single_threaded, fork, fork_join, is_single_threaded, Child, Event, ExitStatus,
    OsError, Stage,
};

fn parent_of(pid: i32) -> Child {
    match fork(pid, 0) {
        Ok(Some(c)) => c,
        other => panic!("expected a parent handle, got {:?}", other),
    }
}

/// Drives a whole run with the given system-call results.
fn run(unshare: (i32, i32), forked: (i32, i32), reaped: (i32, i32, i32)) -> Stage {
    let s = advance(Stage::Guard, Event::Unshared { ret: unshare.0, errno: unshare.1 });
    if !matches!(s, Stage::Duplicate) {
        return s;
    }
    let s = advance(s, Event::Forked { ret: forked.0, errno: forked.1 });
    if !matches!(s, Stage::Parent(_)) {
        return s;
    }
    advance(s, Event::Reaped { ret: reaped.0, status: reaped.1, errno: reaped.2 })
}

#[test]
fn guard_passes_on_zero() {
    assert_eq!(ensure_single_threaded(0, 0), Ok(()));
    assert!(is_single_threaded(0));
}

#[test]
fn guard_fails_with_errno() {
    assert_eq!(ensure_single_threaded(-1, libc::EINVAL), Err(OsError { code: libc::EINVAL }));
    assert!(!is_single_threaded(-1));
}

#[test]
fn fork_reads_each_branch() {
    assert!(matches!(fork(-1, libc::EAGAIN), Err(OsError { code }) if code == libc::EAGAIN));
    assert!(matches!(fork(0, 0), Ok(None)));
    assert_eq!(parent_of(4242).pid(), 4242);
}

#[test]
fn fork_negative_other_than_minus_one_is_an_error() {
    assert!(matches!(fork(-7, libc::ENOMEM), Err(OsError { code }) if code == libc::ENOMEM));
}

#[test]
fn join_passes_status_or_error() {
    let r = parent_of(10).join(10, 42 << 8, 0);
    assert_eq!(r, Ok(ExitStatus::from_raw(42 << 8)));
    let r = parent_of(10).join(-1, 0, libc::ECHILD);
    assert_eq!(r, Err(OsError { code: libc::ECHILD }));
}

#[test]
fn exit_status_of_normal_exit() {
    let s = ExitStatus::from_raw(42 << 8);
    assert_eq!(s.code(), Some(42));
    assert_eq!(s.signal(), None);
    assert_eq!(s.exit_code(), 42);
    assert_eq!(s.into_raw(), 42 << 8);
}

#[test]
fn exit_status_of_signal() {
    let s = ExitStatus::from_raw(libc::SIGKILL);
    assert_eq!(s.code(), None);
    assert_eq!(s.signal(), Some(libc::SIGKILL));
    assert_eq!(s.exit_code(), 128 + libc::SIGKILL);
}

#[test]
fn exit_status_of_signal_with_core() {
    let s = ExitStatus::from_raw(libc::SIGSEGV | 0x80);
    assert_eq!(s.signal(), Some(libc::SIGSEGV));
    assert_eq!(s.exit_code(), 128 + libc::SIGSEGV);
}

#[test]
fn exit_status_of_stopped_child_falls_back_to_one() {
    let s = ExitStatus::from_raw((libc::SIGSTOP << 8) | 0x7f);
    assert_eq!(s.code(), None);
    assert_eq!(s.signal(), None);
    assert_eq!(s.exit_code(), 1);
}

#[test]
fn exit_or_signal_never_both() {
    for raw in [0, 1, 6, 0x7e, 0x7f, 0x80, 0x86, 0xff, 0x100, 0xff00, 0x137f, -1] {
        let s = ExitStatus::from_raw(raw);
        assert!(!(s.code().is_some() && s.signal().is_some()));
        assert!((0..=255).contains(&s.exit_code()));
    }
}

#[test]
fn fork_join_keeps_every_exit_code() {
    for c in 0..=255 {
        assert_eq!(fork_join(Ok(ExitStatus::from_raw(c << 8))), Ok(c));
    }
}

#[test]
fn fork_join_adds_128_to_signal() {
    for s in 1..=64 {
        assert_eq!(fork_join(Ok(ExitStatus::from_raw(s))), Ok(128 + s));
        assert_eq!(fork_join(Ok(ExitStatus::from_raw(s | 0x80))), Ok(128 + s));
    }
}

#[test]
fn fork_join_passes_error() {
    assert_eq!(fork_join(Err(OsError { code: libc::ECHILD })), Err(OsError { code: libc::ECHILD }));
}

#[test]
fn run_from_multithreaded_caller_fails_before_fork() {
    let s = advance(Stage::Guard, Event::Unshared { ret: -1, errno: libc::EINVAL });
    assert!(matches!(s, Stage::Done(Err(OsError { code })) if code == libc::EINVAL));
}

#[test]
fn run_of_work_returning_42() {
    let s = run((0, 0), (321, 0), (321, 42 << 8, 0));
    assert!(matches!(s, Stage::Done(Ok(42))));
}

#[test]
fn run_of_work_that_aborts() {
    let s = run((0, 0), (321, 0), (321, libc::SIGABRT | 0x80, 0));
    assert!(matches!(s, Stage::Done(Ok(c)) if c == 128 + libc::SIGABRT));
    assert!(matches!(s, Stage::Done(Ok(134))));
}

#[test]
fn run_in_child_branch() {
    let s = advance(Stage::Duplicate, Event::Forked { ret: 0, errno: 0 });
    assert!(matches!(s, Stage::InChild));
}

#[test]
fn run_fork_failure() {
    let s = run((0, 0), (-1, libc::EAGAIN), (0, 0, 0));
    assert!(matches!(s, Stage::Done(Err(OsError { code })) if code == libc::EAGAIN));
}

#[test]
fn run_wait_failure() {
    let s = run((0, 0), (321, 0), (-1, 0, libc::ECHILD));
    assert!(matches!(s, Stage::Done(Err(OsError { code })) if code == libc::ECHILD));
}

#[test]
fn parent_branch_holds_child() {
    let s = advance(Stage::Duplicate, Event::Forked { ret: 99, errno: 0 });
    match s {
        Stage::Parent(c) => assert_eq!(c.pid(), 99),
        other => panic!("expected the parent branch, got {:?}", other),
    }
}

#[test]
fn unexpected_event_leaves_stage() {
    let s = advance(Stage::Guard, Event::Forked { ret: 5, errno: 0 });
    assert!(matches!(s, Stage::Guard));
    let s = advance(Stage::InChild, Event::Unshared { ret: 0, errno: 0 });
    assert!(matches!(s, Stage::InChild));
    let s = advance(Stage::Done(Ok(3)), Event::Reaped { ret: 0, status: 0, errno: 0 });
    assert!(matches!(s, Stage::Done(Ok(3))));
}
