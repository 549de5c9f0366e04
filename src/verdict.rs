//! The verdict handed back once a child has been reaped.

use vstd::prelude::*;
use crate::usage::ProcResUsage;

verus! {

/// Exit code reported when the child ended by a signal or never ran.
pub const EXIT_CODE_NONE: i32 = -1;

/// Numeric tags of the kill reasons, as foreign callers read them.
pub const KILL_REASON_UNSET: i32 = -1;
pub const KILL_REASON_NONE: i32 = 0;
pub const KILL_REASON_SECURITY: i32 = 1;
pub const KILL_REASON_REALTIME: i32 = 2;
pub const KILL_REASON_PROCTIME: i32 = 3;
pub const KILL_REASON_PROCWSET: i32 = 4;

/// Why a child ended the way it did.
#[derive(Clone, Copy, Debug, PartialEq, Eq, Structural)]
pub enum KillReason {
    /// Not yet classified, or ended abnormally with no policy to blame.
    Unset,
    /// Ended normally, not killed.
    NoKill,
    /// Killed by the kernel for a forbidden system call.
    Security,
    /// Killed for exceeding the wall-clock limit.
    RealTime,
    /// Killed for exceeding the CPU time limit.
    ProcTime,
    /// Killed for exceeding the peak memory limit.
    ProcWset,
}

pub open spec fn kill_reason_code(r: KillReason) -> i32 {
    match r {
        KillReason::Unset => KILL_REASON_UNSET,
        KillReason::NoKill => KILL_REASON_NONE,
        KillReason::Security => KILL_REASON_SECURITY,
        KillReason::RealTime => KILL_REASON_REALTIME,
        KillReason::ProcTime => KILL_REASON_PROCTIME,
        KillReason::ProcWset => KILL_REASON_PROCWSET,
    }
}

/// The reasons that blame a policy for a kill.
pub open spec fn is_attributed(r: KillReason) -> bool {
    match r {
        KillReason::Security | KillReason::RealTime | KillReason::ProcTime
        | KillReason::ProcWset => true,
        _ => false,
    }
}

impl KillReason {
    /// The numeric tag of this reason.
    pub fn code(&self) -> (r: i32)
        ensures
            r == kill_reason_code(*self),
    {
        match self {
            KillReason::Unset => KILL_REASON_UNSET,
            KillReason::NoKill => KILL_REASON_NONE,
            KillReason::Security => KILL_REASON_SECURITY,
            KillReason::RealTime => KILL_REASON_REALTIME,
            KillReason::ProcTime => KILL_REASON_PROCTIME,
            KillReason::ProcWset => KILL_REASON_PROCWSET,
        }
    }
}

/// Exit code (`-1` when signaled or unexecuted), terminating signal (`0` on a
/// normal exit), whether the child was killed and why, and its usage.
#[derive(Clone, Copy, Debug, PartialEq, Eq, Structural)]
pub struct ProcExecResult {
    pub exit_code: i32,
    pub exit_sign: i32,
    pub is_killed: bool,
    pub kill_reason: KillReason,
    pub res_usage: ProcResUsage,
}

impl ProcExecResult {
    pub open spec fn initial() -> ProcExecResult {
        ProcExecResult {
            exit_code: EXIT_CODE_NONE,
            exit_sign: -1i32,
            is_killed: false,
            kill_reason: KillReason::Unset,
            res_usage: ProcResUsage::zero(),
        }
    }

    /// The verdict before anything is known of the child.
    pub fn new() -> (r: ProcExecResult)
        ensures
            r == ProcExecResult::initial(),
    {
        ProcExecResult {
            exit_code: EXIT_CODE_NONE,
            exit_sign: -1,
            is_killed: false,
            kill_reason: KillReason::Unset,
            res_usage: ProcResUsage::new(),
        }
    }
}

} // verus!
