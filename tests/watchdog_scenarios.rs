use limtrac::request::ExecProgLimits;
use limtrac::usage::{ProcResUsage, ProcStatSample, RusageSample};
use limtrac::verdict::{KillReason, ProcExecResult};
use limtrac::watchdog::{check_limits, ChildPoll, Watchdog, WatchdogAction};

const TICKS: u64 = 100;

fn no_limits() -> ExecProgLimits {
    ExecProgLimits {
        limit_real_time: 0,
        limit_proc_time: 0,
        limit_proc_wset: 0,
        rlimit_enabled: false,
        rlimit_core: 0,
        rlimit_nproc: 0,
        rlimit_nofile: 0,
    }
}

fn watchdog(limits: ExecProgLimits) -> Watchdog {
    Watchdog::with_config(limits, TICKS, libc::SIGSYS)
}

fn live(ticks: u64, peak_kib: u64) -> ChildPoll {
    ChildPoll::Running {
        stat: Some(ProcStatSample {
            utime: ticks,
            stime: 0,
            cutime: 0,
            cstime: 0,
            vm_peak_kib: Some(peak_kib),
            vm_hwm_kib: None,
        }),
    }
}

fn rusage(ms: u64, max_rss_kib: u64) -> RusageSample {
    RusageSample {
        user_sec: ms / 1000,
        user_usec: (ms % 1000) * 1000,
        system_sec: 0,
        system_usec: 0,
        max_rss_kib,
    }
}

fn ended(status: i32, r: RusageSample) -> ChildPoll {
    ChildPoll::Ended { status, rusage: r }
}

#[test]
fn normal_exit_reports_code_zero() {
    let mut w = watchdog(no_limits());
    assert_eq!(w.observe(3, &live(0, 1000)), WatchdogAction::Sleep);
    assert_eq!(w.observe(5, &ended(0, rusage(1, 1200))), WatchdogAction::Finish);
    assert_eq!(w.result.exit_code, 0);
    assert_eq!(w.result.exit_sign, 0);
    assert!(!w.result.is_killed);
    assert_eq!(w.result.kill_reason, KillReason::NoKill);
    assert!(w.result.res_usage.proc_time < 100);
    assert_eq!(w.result.res_usage.real_time, 5);
}

#[test]
fn normal_exit_passes_exit_code_through() {
    let mut w = watchdog(no_limits());
    assert_eq!(w.observe(7, &ended(3 << 8, rusage(0, 0))), WatchdogAction::Finish);
    assert_eq!(w.result.exit_code, 3);
    assert_eq!(w.result.exit_sign, 0);
    assert_eq!(w.result.kill_reason, KillReason::NoKill);
}

#[test]
fn real_time_breach_kills_with_realtime() {
    let mut limits = no_limits();
    limits.limit_real_time = 500;
    let mut w = watchdog(limits);
    assert_eq!(w.observe(250, &live(0, 800)), WatchdogAction::Sleep);
    assert!(!w.result.is_killed);
    assert_eq!(w.observe(510, &live(0, 800)), WatchdogAction::KillChild);
    assert!(w.result.is_killed);
    assert_eq!(w.result.kill_reason, KillReason::RealTime);
    assert_eq!(
        w.observe(530, &ended(libc::SIGKILL, rusage(2, 900))),
        WatchdogAction::Finish
    );
    assert!(w.result.is_killed);
    assert_eq!(w.result.kill_reason, KillReason::RealTime);
    assert_eq!(w.result.exit_code, -1);
    assert_eq!(w.result.exit_sign, libc::SIGKILL);
    assert!(w.result.res_usage.real_time >= 500 && w.result.res_usage.real_time < 2000);
}

#[test]
fn cpu_breach_kills_with_proctime() {
    let mut limits = no_limits();
    limits.limit_proc_time = 500;
    let mut w = watchdog(limits);
    assert_eq!(w.observe(100, &live(10, 800)), WatchdogAction::Sleep);
    assert_eq!(w.result.res_usage.proc_time, 100);
    assert_eq!(w.observe(600, &live(51, 800)), WatchdogAction::KillChild);
    assert_eq!(w.result.res_usage.proc_time, 510);
    assert_eq!(w.result.kill_reason, KillReason::ProcTime);
    w.observe(620, &ended(libc::SIGKILL, rusage(520, 900)));
    assert!(w.result.is_killed);
    assert_eq!(w.result.kill_reason, KillReason::ProcTime);
}

#[test]
fn memory_breach_kills_with_procwset() {
    let mut limits = no_limits();
    limits.limit_proc_wset = 50 * 1024 * 1024;
    let mut w = watchdog(limits);
    assert_eq!(w.observe(10, &live(1, 10 * 1024)), WatchdogAction::Sleep);
    assert_eq!(w.observe(60, &live(2, 200 * 1024)), WatchdogAction::KillChild);
    assert_eq!(w.result.res_usage.proc_wset, 200 * 1024 * 1024);
    w.observe(70, &ended(libc::SIGKILL, rusage(20, 200 * 1024)));
    assert!(w.result.is_killed);
    assert_eq!(w.result.kill_reason, KillReason::ProcWset);
}

#[test]
fn seccomp_signal_is_security() {
    let mut limits = no_limits();
    limits.limit_real_time = 10;
    let mut w = watchdog(limits);
    // Real time is over the limit too, yet the forbidden call wins.
    w.observe(50, &ended(libc::SIGSYS, rusage(1, 100)));
    assert!(w.result.is_killed);
    assert_eq!(w.result.kill_reason, KillReason::Security);
    assert_eq!(w.result.exit_sign, libc::SIGSYS);
    assert_eq!(w.result.exit_code, -1);
}

#[test]
fn unattributed_signal_is_killed_without_reason() {
    let mut w = watchdog(no_limits());
    w.observe(5, &ended(libc::SIGSEGV, rusage(1, 100)));
    assert!(w.result.is_killed);
    assert_eq!(w.result.kill_reason, KillReason::Unset);
    assert_eq!(w.result.exit_sign, libc::SIGSEGV);
}

#[test]
fn first_kill_reason_is_kept() {
    let mut limits = no_limits();
    limits.limit_real_time = 1000;
    limits.limit_proc_time = 100;
    let mut w = watchdog(limits);
    assert_eq!(w.observe(200, &live(20, 10)), WatchdogAction::KillChild);
    assert_eq!(w.result.kill_reason, KillReason::ProcTime);
    assert_eq!(w.observe(1500, &live(20, 10)), WatchdogAction::KillChild);
    assert_eq!(w.result.kill_reason, KillReason::ProcTime);
}

#[test]
fn priority_when_all_limits_breached() {
    let limits = ExecProgLimits {
        limit_real_time: 10,
        limit_proc_time: 10,
        limit_proc_wset: 10,
        rlimit_enabled: false,
        rlimit_core: 0,
        rlimit_nproc: 0,
        rlimit_nofile: 0,
    };
    let all = ProcResUsage { real_time: 11, proc_time: 11, proc_wset: 11 };
    assert_eq!(check_limits(&limits, &all), Some(KillReason::RealTime));
    let no_real = ProcResUsage { real_time: 10, proc_time: 11, proc_wset: 11 };
    assert_eq!(check_limits(&limits, &no_real), Some(KillReason::ProcTime));
    let only_mem = ProcResUsage { real_time: 10, proc_time: 10, proc_wset: 11 };
    assert_eq!(check_limits(&limits, &only_mem), Some(KillReason::ProcWset));
    let none = ProcResUsage { real_time: 10, proc_time: 10, proc_wset: 10 };
    assert_eq!(check_limits(&limits, &none), None);
    assert_eq!(check_limits(&no_limits(), &all), None);
}

#[test]
fn signaled_child_attributed_to_breached_limit() {
    let mut limits = no_limits();
    limits.limit_proc_time = 500;
    let mut w = watchdog(limits);
    w.observe(900, &ended(libc::SIGXCPU, rusage(1500, 100)));
    assert!(w.result.is_killed);
    assert_eq!(w.result.kill_reason, KillReason::ProcTime);
    assert_eq!(w.result.res_usage.proc_time, 1500);
}

#[test]
fn real_time_never_decreases() {
    let mut w = watchdog(no_limits());
    w.observe(100, &live(0, 1));
    w.observe(40, &live(0, 1));
    assert_eq!(w.result.res_usage.real_time, 100);
    w.observe(150, &ChildPoll::Running { stat: None });
    assert_eq!(w.result.res_usage.real_time, 150);
}

#[test]
fn peaks_are_max_over_samples() {
    let mut w = watchdog(no_limits());
    w.observe(10, &live(30, 4000));
    w.observe(20, &live(20, 3000));
    assert_eq!(w.result.res_usage.proc_time, 300);
    assert_eq!(w.result.res_usage.proc_wset, 4000 * 1024);
    w.observe(30, &ended(0, rusage(250, 2000)));
    assert_eq!(w.result.res_usage.proc_time, 300);
    assert_eq!(w.result.res_usage.proc_wset, 4000 * 1024);
}

#[test]
fn unreadable_sample_skips_checks() {
    let mut limits = no_limits();
    limits.limit_real_time = 5;
    let mut w = watchdog(limits);
    assert_eq!(
        w.observe(100, &ChildPoll::Running { stat: None }),
        WatchdogAction::PollAgain
    );
    assert!(!w.result.is_killed);
    let no_memory = ChildPoll::Running {
        stat: Some(ProcStatSample {
            utime: 1,
            stime: 1,
            cutime: 0,
            cstime: 0,
            vm_peak_kib: None,
            vm_hwm_kib: None,
        }),
    };
    assert_eq!(w.observe(110, &no_memory), WatchdogAction::PollAgain);
    assert!(!w.result.is_killed);
}

#[test]
fn stopped_status_leaves_verdict_open() {
    let mut w = watchdog(no_limits());
    let stopped = (libc::SIGSTOP << 8) | 0x7f;
    assert_eq!(w.observe(1, &ended(stopped, rusage(0, 0))), WatchdogAction::Finish);
    assert_eq!(w.result.exit_code, -1);
    assert_eq!(w.result.exit_sign, -1);
    assert!(!w.result.is_killed);
    assert_eq!(w.result.kill_reason, KillReason::Unset);
}

#[test]
fn watchdog_for_this_machine_starts_clean() {
    let w = Watchdog::new(no_limits());
    assert_eq!(w.result, ProcExecResult::new());
    assert_eq!(w.bad_syscall_signal, libc::SIGSYS);
    assert!(w.ticks_per_second > 0);
}

#[test]
fn core_dump_status_reports_signal_number() {
    let mut w = watchdog(no_limits());
    // SIGSEGV with the core-dump bit set.
    w.observe(5, &ended(libc::SIGSEGV | 0x80, rusage(1, 100)));
    assert_eq!(w.result.exit_sign, libc::SIGSEGV);
    assert_eq!(w.result.exit_code, -1);
    assert!(w.result.is_killed);
}
