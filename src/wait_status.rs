//! Decoding of the status word that `wait4` reports for a child.

use vstd::prelude::*;

verus! {

/// The signal number held in the low seven bits.
pub open spec fn status_term_sig(status: i32) -> i32 {
    status & 0x7f
}

/// The child called `exit`: the low seven bits are zero.
pub open spec fn status_exited(status: i32) -> bool {
    status & 0x7f == 0
}

/// The code the child passed to `exit`: bits 8 to 15.
pub open spec fn status_exit_code(status: i32) -> i32 {
    (status >> 8) & 0xff
}

/// The child was ended by a signal: the low seven bits are neither zero
/// (exited) nor all ones (stopped).
pub open spec fn status_signaled(status: i32) -> bool {
    1 <= status & 0x7f <= 0x7e
}

/// Relies on libc::WIFEXITED, which is `(status & 0x7f) == 0`.
#[verifier::external_body]
pub(crate) fn exited(status: i32) -> (r: bool)
    ensures
        r == status_exited(status),
{
    libc::WIFEXITED(status)
}

/// Relies on libc::WEXITSTATUS, which is `(status >> 8) & 0xff`.
#[verifier::external_body]
pub(crate) fn exit_code(status: i32) -> (r: i32)
    ensures
        r == status_exit_code(status),
{
    libc::WEXITSTATUS(status)
}

/// Relies on libc::WIFSIGNALED, which is `((status & 0x7f) + 1) as i8 >= 2`:
/// true exactly when the low seven bits lie in 1..=126.
#[verifier::external_body]
pub(crate) fn signaled(status: i32) -> (r: bool)
    ensures
        r == status_signaled(status),
{
    libc::WIFSIGNALED(status)
}

/// Relies on libc::WTERMSIG, which is `status & 0x7f`.
#[verifier::external_body]
pub(crate) fn term_sig(status: i32) -> (r: i32)
    ensures
        r == status_term_sig(status),
{
    libc::WTERMSIG(status)
}

/// Relies on libc::SIGSYS: the signal the kernel sends for a system call
/// that a seccomp filter forbids. Its number depends on the architecture.
#[verifier::external_body]
pub(crate) fn bad_syscall_signal() -> (r: i32) {
    libc::SIGSYS
}

} // verus!
