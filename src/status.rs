//! The status word that `waitpid` reports for a child, and how it reads as
//! one exit code.
use vstd::prelude::*;

verus! {

/// The child exited normally: the low seven bits of the word are zero.
pub open spec fn spec_exited(raw: i32) -> bool {
    raw & 0x7f == 0
}

/// The exit code of a child that exited normally.
pub open spec fn spec_exit_code(raw: i32) -> i32 {
    (raw >> 8) & 0xff
}

/// The child was killed by a signal: the low seven bits hold a signal number,
/// neither zero (an exit) nor `0x7f` (a stop).
pub open spec fn spec_signaled(raw: i32) -> bool {
    0 < raw & 0x7f < 0x7f
}

/// The number of the signal that killed the child.
pub open spec fn spec_term_signal(raw: i32) -> i32 {
    raw & 0x7f
}

/// The single integer a status word stands for: the exit code of a normal
/// exit, `128` plus the signal number of a killing signal, `1` otherwise.
pub open spec fn outcome(raw: i32) -> int {
    if spec_exited(raw) {
        spec_exit_code(raw) as int
    } else if spec_signaled(raw) {
        spec_term_signal(raw) + 128
    } else {
        1
    }
}

/// The status word of a child that exited with code `code` (`0..=255`).
pub open spec fn exited_with(code: i32) -> i32 {
    code << 8
}

/// The status word of a child killed by signal `sig`, with the core-dump flag
/// set when `core` holds.
pub open spec fn killed_by(sig: i32, core: bool) -> i32 {
    if core {
        sig | 0x80
    } else {
        sig
    }
}

/// Relies on libc::WIFEXITED, which tests that the low seven bits are zero.
#[verifier::external_body]
fn wifexited(raw: i32) -> (r: bool)
    ensures
        r == spec_exited(raw),
{
    libc::WIFEXITED(raw)
}

/// Relies on libc::WEXITSTATUS, which takes bits 8 to 15.
#[verifier::external_body]
fn wexitstatus(raw: i32) -> (r: i32)
    ensures
        r == spec_exit_code(raw),
{
    libc::WEXITSTATUS(raw)
}

/// Relies on libc::WIFSIGNALED, `((raw & 0x7f) + 1) as i8 >= 2`, which holds
/// exactly when the low seven bits lie in `1..=0x7e`.
#[verifier::external_body]
fn wifsignaled(raw: i32) -> (r: bool)
    ensures
        r == spec_signaled(raw),
{
    libc::WIFSIGNALED(raw)
}

/// Relies on libc::WTERMSIG, which takes the low seven bits.
#[verifier::external_body]
fn wtermsig(raw: i32) -> (r: i32)
    ensures
        r == spec_term_signal(raw),
{
    libc::WTERMSIG(raw)
}

/// How a child ended, as the raw status word that the kernel reported for it.
#[derive(Clone, Copy, Debug, PartialEq, Eq, Structural)]
pub struct ExitStatus {
    raw: i32,
}

impl ExitStatus {
    pub closed spec fn view(&self) -> i32 {
        self.raw
    }

    /// Wraps a status word as `waitpid` filled it in.
    pub fn from_raw(raw: i32) -> (r: ExitStatus)
        ensures
            r@ == raw,
    {
        ExitStatus { raw }
    }

    /// The status word itself.
    pub fn into_raw(self) -> (r: i32)
        ensures
            r == self@,
    {
        self.raw
    }

    /// The exit code, if the child exited normally.
    pub fn code(&self) -> (r: Option<i32>)
        ensures
            r == (if spec_exited(self@) {
                Some(spec_exit_code(self@))
            } else {
                None::<i32>
            }),
    {
        if wifexited(self.raw) {
            Some(wexitstatus(self.raw))
        } else {
            None
        }
    }

    /// The number of the signal that killed the child, if one did.
    pub fn signal(&self) -> (r: Option<i32>)
        ensures
            r == (if spec_signaled(self@) {
                Some(spec_term_signal(self@))
            } else {
                None::<i32>
            }),
    {
        if wifsignaled(self.raw) {
            Some(wtermsig(self.raw))
        } else {
            None
        }
    }

    /// The status as one integer: the exit code of a normal exit, `128` plus
    /// the signal number of a killing signal, and `1` when it is neither.
    pub fn exit_code(&self) -> (r: i32)
        ensures
            r == outcome(self@),
    {
        match self.code() {
            Some(c) => c,
            None => match self.signal() {
                Some(s) => s + 128,
                None => 1,
            },
        }
    }
}

/// A status word never reports both a normal exit and a killing signal.
pub proof fn lemma_exit_or_signal(raw: i32)
    ensures
        !(spec_exited(raw) && spec_signaled(raw)),
        0 <= outcome(raw) <= 255,
{
    assert(0 <= raw & 0x7f <= 0x7f) by (bit_vector);
    assert(0 <= (raw >> 8) & 0xff <= 0xff) by (bit_vector);
}

/// A child that exits with code `code` in `0..=255` reads back as that code.
pub proof fn lemma_exit_code_kept(code: i32)
    requires
        0 <= code <= 255,
    ensures
        spec_exited(exited_with(code)),
        outcome(exited_with(code)) == code,
{
    assert((code << 8) & 0x7f == 0 && ((code << 8) >> 8) & 0xff == code) by (bit_vector)
        requires
            0 <= code <= 255,
    ;
}

/// A child killed by signal `sig` reads back as `128 + sig`, whether or not
/// it dumped core.
pub proof fn lemma_signal_kept(sig: i32, core: bool)
    requires
        0 < sig < 0x7f,
    ensures
        spec_signaled(killed_by(sig, core)),
        outcome(killed_by(sig, core)) == 128 + sig,
{
    assert((sig | 0x80) & 0x7f == sig && sig & 0x7f == sig) by (bit_vector)
        requires
            0 < sig < 0x7f,
    ;
}

} // verus!
