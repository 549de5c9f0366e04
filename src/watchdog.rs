//! The parent-side watchdog: from what one poll of the child shows, the next
//! verdict and what the parent must do. The parent runs the loop; each turn
//! it hands the observation to `Watchdog::observe` and performs the action.

use vstd::prelude::*;
use crate::request::ExecProgLimits;
use crate::usage::{
    after_rusage, after_stat, max_u64, rusage_proc_time, rusage_proc_wset, stat_proc_time,
    stat_proc_wset, stat_usable, ProcResUsage, ProcStatSample, RusageSample,
};
use crate::verdict::{is_attributed, KillReason, ProcExecResult, EXIT_CODE_NONE};
use crate::wait_status::{
    bad_syscall_signal, exit_code, exited, signaled, status_exit_code, status_exited,
    status_signaled, status_term_sig, term_sig,
};

verus! {

/// What one poll of the child shows.
#[derive(Clone, Copy, Debug, PartialEq, Eq, Structural)]
pub enum ChildPoll {
    /// Still running; the live counters, if `/proc` could be read.
    Running { stat: Option<ProcStatSample> },
    /// Changed state: its wait status and terminal resource usage.
    Ended { status: i32, rusage: RusageSample },
}

/// What the parent does next.
#[derive(Clone, Copy, Debug, PartialEq, Eq, Structural)]
pub enum WatchdogAction {
    /// Poll again at once.
    PollAgain,
    /// Sleep for one interval, then poll again.
    Sleep,
    /// Send SIGKILL to the child, then poll again at once to reap it.
    KillChild,
    /// The child is gone: the verdict is final.
    Finish,
}

/// The limit `reason` names is set and exceeded by `u`.
pub open spec fn limit_breached(l: ExecProgLimits, u: ProcResUsage, reason: KillReason) -> bool {
    match reason {
        KillReason::RealTime => l.limit_real_time > 0 && u.real_time > l.limit_real_time,
        KillReason::ProcTime => l.limit_proc_time > 0 && u.proc_time > l.limit_proc_time,
        KillReason::ProcWset => l.limit_proc_wset > 0 && u.proc_wset > l.limit_proc_wset,
        _ => false,
    }
}

/// The first exceeded limit in the order real time, CPU time, memory.
pub open spec fn first_breach(l: ExecProgLimits, u: ProcResUsage) -> Option<KillReason> {
    if limit_breached(l, u, KillReason::RealTime) {
        Some(KillReason::RealTime)
    } else if limit_breached(l, u, KillReason::ProcTime) {
        Some(KillReason::ProcTime)
    } else if limit_breached(l, u, KillReason::ProcWset) {
        Some(KillReason::ProcWset)
    } else {
        None
    }
}

/// Precedence of the kill reasons: a smaller rank wins.
pub open spec fn reason_rank(r: KillReason) -> int {
    match r {
        KillReason::Security => 0,
        KillReason::RealTime => 1,
        KillReason::ProcTime => 2,
        KillReason::ProcWset => 3,
        _ => 4,
    }
}

/// Returns the first exceeded limit, in the order real time, CPU time, memory.
pub fn check_limits(limits: &ExecProgLimits, usage: &ProcResUsage) -> (r: Option<KillReason>)
    ensures
        r == first_breach(*limits, *usage),
{
    if limits.limit_real_time > 0 && usage.real_time > limits.limit_real_time {
        Some(KillReason::RealTime)
    } else if limits.limit_proc_time > 0 && usage.proc_time > limits.limit_proc_time {
        Some(KillReason::ProcTime)
    } else if limits.limit_proc_wset > 0 && usage.proc_wset > limits.limit_proc_wset {
        Some(KillReason::ProcWset)
    } else {
        None
    }
}

pub open spec fn with_usage(r: ProcExecResult, u: ProcResUsage) -> ProcExecResult {
    ProcExecResult { res_usage: u, ..r }
}

/// Real time raised to `elapsed_ms`, never lowered.
pub open spec fn timed(u: ProcResUsage, elapsed_ms: u64) -> ProcResUsage {
    ProcResUsage { real_time: max_u64(u.real_time, elapsed_ms), ..u }
}

/// The first kill is tagged; later kills keep that tag.
pub open spec fn mark_killed(r: ProcExecResult, reason: KillReason) -> ProcExecResult {
    if r.is_killed {
        r
    } else {
        ProcExecResult { is_killed: true, kill_reason: reason, ..r }
    }
}

/// The verdict once the final wait status is known.
pub open spec fn settle(
    r: ProcExecResult,
    limits: ExecProgLimits,
    bad_signal: i32,
    status: i32,
) -> ProcExecResult {
    if status_exited(status) {
        ProcExecResult {
            exit_code: status_exit_code(status),
            exit_sign: 0,
            kill_reason: if r.is_killed { r.kill_reason } else { KillReason::NoKill },
            ..r
        }
    } else if status_signaled(status) {
        let sig = status_term_sig(status);
        if r.is_killed {
            ProcExecResult { exit_code: EXIT_CODE_NONE, exit_sign: sig, ..r }
        } else {
            let reason = if sig == bad_signal {
                KillReason::Security
            } else {
                match first_breach(limits, r.res_usage) {
                    Some(b) => b,
                    None => r.kill_reason,
                }
            };
            ProcExecResult {
                exit_code: EXIT_CODE_NONE,
                exit_sign: sig,
                is_killed: true,
                kill_reason: reason,
                res_usage: r.res_usage,
            }
        }
    } else {
        r
    }
}

/// Ended by a signal that neither the seccomp filter nor an exceeded limit
/// accounts for: such an end is reported killed with no reason.
pub open spec fn unattributed_end(w: Watchdog, elapsed_ms: u64, poll: ChildPoll) -> bool {
    match poll {
        ChildPoll::Ended { status, rusage } => {
            let u = after_rusage(timed(w.result.res_usage, elapsed_ms), rusage);
            status_signaled(status) && !w.result.is_killed && status_term_sig(status)
                != w.bad_syscall_signal && first_breach(w.limits, u) is None
        },
        _ => false,
    }
}

/// A watchdog for one child: its limits, the clock rate of `/proc` counters,
/// the signal seccomp kills with, and the verdict so far.
#[derive(Clone, Copy, Debug, PartialEq, Eq, Structural)]
pub struct Watchdog {
    pub limits: ExecProgLimits,
    pub ticks_per_second: u64,
    pub bad_syscall_signal: i32,
    pub result: ProcExecResult,
}

/// Relies on procfs::ticks_per_second: the clock rate of the `/proc` time
/// counters on this machine.
#[verifier::external_body]
fn clock_ticks_per_second() -> (r: u64) {
    procfs::ticks_per_second()
}

impl Watchdog {
    /// One turn of the watchdog: the next state and the action.
    pub open spec fn step(self, elapsed_ms: u64, poll: ChildPoll) -> (Watchdog, WatchdogAction) {
        let r0 = with_usage(self.result, timed(self.result.res_usage, elapsed_ms));
        match poll {
            ChildPoll::Running { stat } => match stat {
                None => (Watchdog { result: r0, ..self }, WatchdogAction::PollAgain),
                Some(s) => if !stat_usable(s, self.ticks_per_second) {
                    (Watchdog { result: r0, ..self }, WatchdogAction::PollAgain)
                } else {
                    let r1 = with_usage(r0, after_stat(r0.res_usage, s, self.ticks_per_second));
                    match first_breach(self.limits, r1.res_usage) {
                        Some(b) => (
                            Watchdog { result: mark_killed(r1, b), ..self },
                            WatchdogAction::KillChild,
                        ),
                        None => (Watchdog { result: r1, ..self }, WatchdogAction::Sleep),
                    }
                },
            },
            ChildPoll::Ended { status, rusage } => {
                let r1 = with_usage(r0, after_rusage(r0.res_usage, rusage));
                (
                    Watchdog {
                        result: settle(r1, self.limits, self.bad_syscall_signal, status),
                        ..self
                    },
                    WatchdogAction::Finish,
                )
            },
        }
    }

    /// A watchdog with the clock rate and seccomp signal given.
    pub fn with_config(limits: ExecProgLimits, ticks_per_second: u64, bad_syscall_signal: i32) -> (r:
        Watchdog)
        ensures
            r.limits == limits,
            r.ticks_per_second == ticks_per_second,
            r.bad_syscall_signal == bad_syscall_signal,
            r.result == ProcExecResult::initial(),
    {
        Watchdog { limits, ticks_per_second, bad_syscall_signal, result: ProcExecResult::new() }
    }

    /// A watchdog for this machine: the clock rate from procfs, the seccomp
    /// signal from libc.
    pub fn new(limits: ExecProgLimits) -> (r: Watchdog)
        ensures
            r.limits == limits,
            r.result == ProcExecResult::initial(),
    {
        let ticks = clock_ticks_per_second();
        let sig = bad_syscall_signal();
        Watchdog::with_config(limits, ticks, sig)
    }

    /// Takes one observation of the child, `elapsed_ms` after the fork.
    pub fn observe(&mut self, elapsed_ms: u64, poll: &ChildPoll) -> (r: WatchdogAction)
        ensures
            (*final(self), r) == old(self).step(elapsed_ms, *poll),
    {
        if elapsed_ms > self.result.res_usage.real_time {
            self.result.res_usage.real_time = elapsed_ms;
        }
        match poll {
            ChildPoll::Running { stat } => match stat {
                None => WatchdogAction::PollAgain,
                Some(s) => {
                    let loaded = self.result.res_usage.load_proc_stat(s, self.ticks_per_second);
                    if loaded.is_err() {
                        return WatchdogAction::PollAgain;
                    }
                    match check_limits(&self.limits, &self.result.res_usage) {
                        Some(b) => {
                            if !self.result.is_killed {
                                self.result.is_killed = true;
                                self.result.kill_reason = b;
                            }
                            WatchdogAction::KillChild
                        },
                        None => WatchdogAction::Sleep,
                    }
                },
            },
            ChildPoll::Ended { status, rusage } => {
                self.result.res_usage.load_rusage(rusage);
                let status = *status;
                if exited(status) {
                    self.result.exit_code = exit_code(status);
                    self.result.exit_sign = 0;
                    if !self.result.is_killed {
                        self.result.kill_reason = KillReason::NoKill;
                    }
                } else if signaled(status) {
                    self.result.exit_code = EXIT_CODE_NONE;
                    let sig = term_sig(status);
                    self.result.exit_sign = sig;
                    if !self.result.is_killed {
                        if sig == self.bad_syscall_signal {
                            self.result.kill_reason = KillReason::Security;
                        } else {
                            match check_limits(&self.limits, &self.result.res_usage) {
                                Some(b) => {
                                    self.result.kill_reason = b;
                                },
                                None => {},
                            }
                        }
                        self.result.is_killed = true;
                    }
                }
                WatchdogAction::Finish
            },
        }
    }
}

/// A killed verdict names the policy that was breached.
pub open spec fn kill_attributed(r: ProcExecResult) -> bool {
    r.is_killed ==> is_attributed(r.kill_reason)
}

/// The watchdog after each observation of `obs` in turn.
pub open spec fn run(w: Watchdog, obs: Seq<(u64, ChildPoll)>) -> Watchdog
    decreases obs.len(),
{
    if obs.len() == 0 {
        w
    } else {
        run(w.step(obs[0].0, obs[0].1).0, obs.drop_first())
    }
}

/// The CPU time that one poll reports, zero when it reports none.
pub open spec fn poll_proc_time(p: ChildPoll, ticks_per_second: u64) -> u64 {
    match p {
        ChildPoll::Running { stat } => match stat {
            Some(s) => if stat_usable(s, ticks_per_second) {
                stat_proc_time(s, ticks_per_second)
            } else {
                0
            },
            None => 0,
        },
        ChildPoll::Ended { status, rusage } => rusage_proc_time(rusage),
    }
}

/// The peak memory that one poll reports, zero when it reports none.
pub open spec fn poll_proc_wset(p: ChildPoll, ticks_per_second: u64) -> u64 {
    match p {
        ChildPoll::Running { stat } => match stat {
            Some(s) => if stat_usable(s, ticks_per_second) {
                stat_proc_wset(s)
            } else {
                0
            },
            None => 0,
        },
        ChildPoll::Ended { status, rusage } => rusage_proc_wset(rusage),
    }
}

/// A fresh verdict is not killed, so it blames no policy wrongly.
pub proof fn lemma_initial_kill_attributed()
    ensures
        kill_attributed(ProcExecResult::initial()),
{
}

/// A killed verdict keeps naming a breached policy (seccomp, real time, CPU
/// time or memory) after each observation, except where the child ends by a
/// signal that no policy accounts for.
pub proof fn lemma_killed_has_reason(w: Watchdog, elapsed_ms: u64, poll: ChildPoll)
    requires
        kill_attributed(w.result),
        !unattributed_end(w, elapsed_ms, poll),
    ensures
        kill_attributed(w.step(elapsed_ms, poll).0.result),
{
}

/// When several policies are breached at once, the kill is put down to the
/// first in the order seccomp, real time, CPU time, memory; a child that the
/// seccomp signal ended is put down to seccomp.
pub proof fn lemma_kill_priority(w: Watchdog, elapsed_ms: u64, poll: ChildPoll)
    requires
        !w.result.is_killed,
    ensures
        ({
            let r = w.step(elapsed_ms, poll).0.result;
            r.is_killed && is_attributed(r.kill_reason) ==> forall|q: KillReason|
                #[trigger] limit_breached(w.limits, r.res_usage, q) ==> reason_rank(r.kill_reason)
                    <= reason_rank(q)
        }),
        ({
            let r = w.step(elapsed_ms, poll).0.result;
            match poll {
                ChildPoll::Ended { status, rusage } => status_signaled(status) && status_term_sig(
                    status,
                ) == w.bad_syscall_signal ==> r.kill_reason == KillReason::Security,
                _ => true,
            }
        }),
{
}

/// The real time recorded never decreases, and reaches each elapsed time
/// observed.
pub proof fn lemma_real_time_monotonic(w: Watchdog, elapsed_ms: u64, poll: ChildPoll)
    ensures
        w.step(elapsed_ms, poll).0.result.res_usage.real_time >= w.result.res_usage.real_time,
        w.step(elapsed_ms, poll).0.result.res_usage.real_time >= elapsed_ms,
{
}

proof fn lemma_step_peaks(w: Watchdog, elapsed_ms: u64, poll: ChildPoll)
    ensures
        ({
            let w2 = w.step(elapsed_ms, poll).0;
            &&& w2.limits == w.limits
            &&& w2.ticks_per_second == w.ticks_per_second
            &&& w2.bad_syscall_signal == w.bad_syscall_signal
            &&& w2.result.res_usage.proc_time == max_u64(
                w.result.res_usage.proc_time,
                poll_proc_time(poll, w.ticks_per_second),
            )
            &&& w2.result.res_usage.proc_wset == max_u64(
                w.result.res_usage.proc_wset,
                poll_proc_wset(poll, w.ticks_per_second),
            )
        }),
{
}

/// Over a run, the CPU time and peak memory recorded are the maximum of the
/// starting values and of what every live and terminal sample reported.
pub proof fn lemma_run_records_peaks(w: Watchdog, obs: Seq<(u64, ChildPoll)>)
    ensures
        ({
            let u = run(w, obs).result.res_usage;
            let tps = w.ticks_per_second;
            &&& u.proc_time >= w.result.res_usage.proc_time
            &&& u.proc_wset >= w.result.res_usage.proc_wset
            &&& forall|i: int|
                0 <= i < obs.len() ==> u.proc_time >= #[trigger] poll_proc_time(obs[i].1, tps)
            &&& forall|i: int|
                0 <= i < obs.len() ==> u.proc_wset >= #[trigger] poll_proc_wset(obs[i].1, tps)
            &&& (u.proc_time == w.result.res_usage.proc_time || exists|i: int|
                0 <= i < obs.len() && u.proc_time == #[trigger] poll_proc_time(obs[i].1, tps))
            &&& (u.proc_wset == w.result.res_usage.proc_wset || exists|i: int|
                0 <= i < obs.len() && u.proc_wset == #[trigger] poll_proc_wset(obs[i].1, tps))
        }),
    decreases obs.len(),
{
    if obs.len() > 0 {
        let w1 = w.step(obs[0].0, obs[0].1).0;
        let rest = obs.drop_first();
        lemma_step_peaks(w, obs[0].0, obs[0].1);
        lemma_run_records_peaks(w1, rest);
        let u = run(w, obs).result.res_usage;
        let tps = w.ticks_per_second;
        assert(run(w, obs) == run(w1, rest));
        assert forall|i: int| 0 <= i < obs.len() implies u.proc_time >= #[trigger] poll_proc_time(
            obs[i].1,
            tps,
        ) by {
            if i > 0 {
                assert(obs[i] == rest[i - 1]);
            }
        }
        assert forall|i: int| 0 <= i < obs.len() implies u.proc_wset >= #[trigger] poll_proc_wset(
            obs[i].1,
            tps,
        ) by {
            if i > 0 {
                assert(obs[i] == rest[i - 1]);
            }
        }
        if u.proc_time != w.result.res_usage.proc_time {
            if u.proc_time == w1.result.res_usage.proc_time {
                assert(u.proc_time == poll_proc_time(obs[0].1, tps));
            } else {
                let j = choose|j: int|
                    0 <= j < rest.len() && u.proc_time == #[trigger] poll_proc_time(rest[j].1, tps);
                assert(obs[j + 1] == rest[j]);
                assert(u.proc_time == poll_proc_time(obs[j + 1].1, tps));
            }
        }
        if u.proc_wset != w.result.res_usage.proc_wset {
            if u.proc_wset == w1.result.res_usage.proc_wset {
                assert(u.proc_wset == poll_proc_wset(obs[0].1, tps));
            } else {
                let j = choose|j: int|
                    0 <= j < rest.len() && u.proc_wset == #[trigger] poll_proc_wset(rest[j].1, tps);
                assert(obs[j + 1] == rest[j]);
                assert(u.proc_wset == poll_proc_wset(obs[j + 1].1, tps));
            }
        }
    }
}

} // verus!
