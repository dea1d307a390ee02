//! The fork-and-join protocol: the single-threaded guard, the parent/child
//! split, reaping the child, and the step function that orders them.
//!
//! Every system call (`unshare`, `fork`, `waitpid`) is made by the caller,
//! which hands its return value and `errno` to the functions here.
use vstd::prelude::*;
use crate::status::{
    ExitStatus, outcome, exited_with, killed_by, lemma_exit_or_signal, lemma_exit_code_kept,
    lemma_signal_kept,
};

verus! {

/// An error that the operating system reported, as its `errno` value.
#[derive(Clone, Copy, Debug, PartialEq, Eq, Structural)]
pub struct OsError {
    pub code: i32,
}

/// What `unshare(CLONE_VM)` returning `ret` with `errno` set means for the
/// guard: only a zero return proves the process single-threaded.
pub open spec fn guard_result(ret: i32, errno: i32) -> Result<(), OsError> {
    if ret == 0 {
        Ok(())
    } else {
        Err(OsError { code: errno })
    }
}

/// Decides the single-threaded guard from the return value of
/// `unshare(CLONE_VM)` and the `errno` it left. The kernel refuses to unshare
/// an address space that another thread still uses.
pub fn ensure_single_threaded(unshare_ret: i32, errno: i32) -> (r: Result<(), OsError>)
    ensures
        r == guard_result(unshare_ret, errno),
{
    if unshare_ret == 0 {
        Ok(())
    } else {
        Err(OsError { code: errno })
    }
}

/// Whether the guard passed, given the return value of `unshare(CLONE_VM)`;
/// the error code plays no part.
pub fn is_single_threaded(unshare_ret: i32) -> (r: bool)
    ensures
        r == (unshare_ret == 0),
        r == guard_result(unshare_ret, 0) is Ok,
{
    ensure_single_threaded(unshare_ret, 0).is_ok()
}

/// The parent's handle on a forked child. It owns the right to reap the child
/// once: `join` consumes it.
#[derive(Debug)]
pub struct Child {
    pid: i32,
}

impl Child {
    #[verifier::type_invariant]
    spec fn inv(self) -> bool {
        self.pid > 0
    }

    /// The child's process identifier.
    pub closed spec fn view(&self) -> int {
        self.pid as int
    }

    /// The OS-assigned process identifier of the child; it is positive.
    pub fn pid(&self) -> (r: u32)
        ensures
            r as int == self@,
            r > 0,
    {
        proof {
            use_type_invariant(self);
        }
        self.pid as u32
    }

    /// Reaps the child, given what `waitpid(pid, &status, 0)` returned, the
    /// status word it filled in and the `errno` it left. A negative return is
    /// the wait's failure; otherwise the status word describes the child's end.
    pub fn join(self, wait_ret: i32, status: i32, errno: i32) -> (r: Result<ExitStatus, OsError>)
        ensures
            wait_ret < 0 ==> r == Err::<ExitStatus, OsError>(OsError { code: errno }),
            wait_ret >= 0 ==> (r matches Ok(s) && s@ == status),
    {
        if wait_ret < 0 {
            Err(OsError { code: errno })
        } else {
            Ok(ExitStatus::from_raw(status))
        }
    }
}

/// What a `fork()` that returned `ret` with `errno` set means in the process
/// that sees it: a negative return is a failure, zero marks the child, and a
/// positive return is the new child's identifier, seen by the parent.
pub open spec fn fork_result(ret: i32, errno: i32, r: Result<Option<Child>, OsError>) -> bool {
    if ret < 0 {
        r == Err::<Option<Child>, OsError>(OsError { code: errno })
    } else if ret == 0 {
        r == Ok::<Option<Child>, OsError>(None)
    } else {
        r matches Ok(Some(c)) && c@ == ret
    }
}

/// Reads the return value of `fork()`, made once the guard has passed:
/// `None` in the child, the child's handle in the parent, the error otherwise.
pub fn fork(fork_ret: i32, errno: i32) -> (r: Result<Option<Child>, OsError>)
    ensures
        fork_result(fork_ret, errno, r),
{
    if fork_ret < 0 {
        Err(OsError { code: errno })
    } else if fork_ret == 0 {
        Ok(None)
    } else {
        Ok(Some(Child { pid: fork_ret }))
    }
}

/// The result of a fork-and-join whose spawn and join gave `joined`.
pub open spec fn join_code(joined: Result<ExitStatus, OsError>) -> Result<i32, OsError> {
    match joined {
        Ok(s) => Ok(outcome(s@) as i32),
        Err(e) => Err(e),
    }
}

/// Turns the outcome of spawning a child and joining it into one exit code:
/// the child's own code if it exited, `128` plus the signal number if a
/// signal killed it, `1` otherwise. An error is passed on unchanged.
pub fn fork_join(joined: Result<ExitStatus, OsError>) -> (r: Result<i32, OsError>)
    ensures
        r == join_code(joined),
        r matches Ok(c) ==> 0 <= c <= 255,
{
    match joined {
        Ok(s) => {
            proof {
                lemma_exit_or_signal(s@);
            }
            Ok(s.exit_code())
        },
        Err(e) => Err(e),
    }
}

/// Where a fork-and-join run stands; each stage names the caller's next move.
#[derive(Debug)]
pub enum Stage {
    /// Call `unshare(CLONE_VM)` and report `Event::Unshared`.
    Guard,
    /// Call `fork()` and report `Event::Forked`.
    Duplicate,
    /// This process is the child: run the work and exit with its value.
    InChild,
    /// This process is the parent of the child. A plain fork ends here; a
    /// fork-and-join calls `waitpid` on the child and reports `Event::Reaped`.
    Parent(Child),
    /// The run is over, with this exit code or error.
    Done(Result<i32, OsError>),
}

/// What a system call returned, as the caller reports it.
#[derive(Clone, Copy, Debug)]
pub enum Event {
    /// `unshare(CLONE_VM)` returned `ret` and left `errno`.
    Unshared { ret: i32, errno: i32 },
    /// `fork()` returned `ret` and left `errno`.
    Forked { ret: i32, errno: i32 },
    /// `waitpid` returned `ret`, filled in `status` and left `errno`.
    Reaped { ret: i32, status: i32, errno: i32 },
}

/// The stage that follows `stage` once `event` is reported. An event that is
/// not the answer to the stage's move leaves the stage as it was.
pub open spec fn stepped(stage: Stage, event: Event, next: Stage) -> bool {
    match (stage, event) {
        (Stage::Guard, Event::Unshared { ret, errno }) => next == (match guard_result(ret, errno) {
            Ok(_) => Stage::Duplicate,
            Err(e) => Stage::Done(Err(e)),
        }),
        (Stage::Duplicate, Event::Forked { ret, errno }) => if ret < 0 {
            next == Stage::Done(Err(OsError { code: errno }))
        } else if ret == 0 {
            next == Stage::InChild
        } else {
            next matches Stage::Parent(c) && c@ == ret
        },
        (Stage::Parent(_), Event::Reaped { ret, status, errno }) => next == Stage::Done(
            if ret < 0 {
                Err(OsError { code: errno })
            } else {
                Ok(outcome(status) as i32)
            },
        ),
        _ => next == stage,
    }
}

/// Takes a run one stage further with the result of the system call that the
/// stage asked for.
pub fn advance(stage: Stage, event: Event) -> (r: Stage)
    ensures
        stepped(stage, event, r),
{
    match (stage, event) {
        (Stage::Guard, Event::Unshared { ret, errno }) => match ensure_single_threaded(ret, errno) {
            Ok(()) => Stage::Duplicate,
            Err(e) => Stage::Done(Err(e)),
        },
        (Stage::Duplicate, Event::Forked { ret, errno }) => match fork(ret, errno) {
            Ok(Some(c)) => Stage::Parent(c),
            Ok(None) => Stage::InChild,
            Err(e) => Stage::Done(Err(e)),
        },
        (Stage::Parent(c), Event::Reaped { ret, status, errno }) => Stage::Done(
            fork_join(c.join(ret, status, errno)),
        ),
        (stage, _) => stage,
    }
}

/// When the guard's `unshare` fails, as it does for a process with more than
/// one thread, the guard reports the error, the process does not count as
/// single-threaded, and a run ends with that error before anything is forked.
pub proof fn lemma_guard_failure_stops(ret: i32, errno: i32, next: Stage)
    requires
        ret != 0,
        stepped(Stage::Guard, Event::Unshared { ret, errno }, next),
    ensures
        guard_result(ret, errno) == Err::<(), OsError>(OsError { code: errno }),
        guard_result(ret, 0) is Err,
        next == Stage::Done(Err(OsError { code: errno })),
{
}

/// A fork that succeeded leaves each process in exactly one branch: the
/// parent holding the child's handle, or the child about to run its work.
pub proof fn lemma_fork_one_branch(ret: i32, errno: i32, next: Stage)
    requires
        ret >= 0,
        stepped(Stage::Duplicate, Event::Forked { ret, errno }, next),
    ensures
        next is Parent != next is InChild,
        next is Parent <==> ret > 0,
{
}

/// A child that exits with code `code` in `0..=255` makes the run end with
/// exactly that code.
pub proof fn lemma_join_exit_code(child: Child, ret: i32, errno: i32, code: i32, next: Stage)
    requires
        0 <= code <= 255,
        ret >= 0,
        stepped(Stage::Parent(child), Event::Reaped { ret, status: exited_with(code), errno }, next),
    ensures
        next == Stage::Done(Ok(code)),
{
    lemma_exit_code_kept(code);
}

/// A child killed by signal `sig` makes the run end with `128 + sig`, whether
/// or not it dumped core.
pub proof fn lemma_join_signal(
    child: Child,
    ret: i32,
    errno: i32,
    sig: i32,
    core: bool,
    next: Stage,
)
    requires
        0 < sig < 0x7f,
        ret >= 0,
        stepped(Stage::Parent(child), Event::Reaped { ret, status: killed_by(sig, core), errno }, next),
    ensures
        next == Stage::Done(Ok((128 + sig) as i32)),
{
    lemma_signal_kept(sig, core);
}

} // verus!
