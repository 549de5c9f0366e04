//! Resource accounting: the counters reported for a child process and the
//! two probes (terminal `rusage`, live `/proc`) that feed them.

use vstd::prelude::*;

verus! {

/// Milliseconds in one second, and bytes in one KiB.
pub const MS_PER_SECOND: u64 = 1000;
pub const BYTES_PER_KIB: u64 = 1024;

/// The value of `x`, held at the bounds of `u64` when it lies outside them.
pub open spec fn clamp_u64(x: int) -> u64 {
    if x < 0 {
        0
    } else if x > u64::MAX {
        u64::MAX
    } else {
        x as u64
    }
}

pub open spec fn max_u64(a: u64, b: u64) -> u64 {
    if a >= b {
        a
    } else {
        b
    }
}

/// Resource usage of a child: wall-clock time since fork (ms), user+system
/// CPU time (ms) and peak working set (bytes).
#[derive(Clone, Copy, Debug, PartialEq, Eq, Structural)]
pub struct ProcResUsage {
    pub real_time: u64,
    pub proc_time: u64,
    pub proc_wset: u64,
}

/// What the kernel reports in `rusage` once a child is reaped.
#[derive(Clone, Copy, Debug, PartialEq, Eq, Structural)]
pub struct RusageSample {
    pub user_sec: u64,
    pub user_usec: u64,
    pub system_sec: u64,
    pub system_usec: u64,
    /// Peak resident set size, in KiB.
    pub max_rss_kib: u64,
}

/// Counters read from `/proc/<pid>/stat` and `/proc/<pid>/status` while a
/// child runs. Times are in clock ticks, memory in KiB.
#[derive(Clone, Copy, Debug, PartialEq, Eq, Structural)]
pub struct ProcStatSample {
    pub utime: u64,
    pub stime: u64,
    pub cutime: u64,
    pub cstime: u64,
    pub vm_peak_kib: Option<u64>,
    pub vm_hwm_kib: Option<u64>,
}

/// A `timeval` in milliseconds: seconds times 1000 plus microseconds / 1000.
pub open spec fn timeval_ms(sec: u64, usec: u64) -> int {
    sec * 1000 + usec / 1000
}

/// CPU time of a terminal sample, in milliseconds.
pub open spec fn rusage_proc_time(r: RusageSample) -> u64 {
    clamp_u64(timeval_ms(r.user_sec, r.user_usec) + timeval_ms(r.system_sec, r.system_usec))
}

/// Peak working set of a terminal sample, in bytes.
pub open spec fn rusage_proc_wset(r: RusageSample) -> u64 {
    clamp_u64(r.max_rss_kib * 1024)
}

/// A live sample can be read when the clock rate is known and one of the two
/// memory peaks is present.
pub open spec fn stat_usable(s: ProcStatSample, ticks_per_second: u64) -> bool {
    ticks_per_second > 0 && (s.vm_peak_kib is Some || s.vm_hwm_kib is Some)
}

/// CPU time of a live sample (own and reaped children's), in milliseconds.
pub open spec fn stat_proc_time(s: ProcStatSample, ticks_per_second: u64) -> u64
    recommends
        ticks_per_second > 0,
{
    clamp_u64((s.utime + s.stime + s.cutime + s.cstime) * 1000 / (ticks_per_second as int))
}

/// Peak memory of a live sample, in bytes: `VmPeak`, or else `VmHWM`.
pub open spec fn stat_proc_wset(s: ProcStatSample) -> u64 {
    match s.vm_peak_kib {
        Some(kib) => clamp_u64(kib * 1024),
        None => match s.vm_hwm_kib {
            Some(kib) => clamp_u64(kib * 1024),
            None => 0,
        },
    }
}

/// The counters once a terminal sample is taken in: each raised to the
/// sample's value, the real time untouched.
pub open spec fn after_rusage(u: ProcResUsage, r: RusageSample) -> ProcResUsage {
    ProcResUsage {
        real_time: u.real_time,
        proc_time: max_u64(u.proc_time, rusage_proc_time(r)),
        proc_wset: max_u64(u.proc_wset, rusage_proc_wset(r)),
    }
}

/// The counters once a usable live sample is taken in.
pub open spec fn after_stat(u: ProcResUsage, s: ProcStatSample, ticks_per_second: u64) -> ProcResUsage {
    ProcResUsage {
        real_time: u.real_time,
        proc_time: max_u64(u.proc_time, stat_proc_time(s, ticks_per_second)),
        proc_wset: max_u64(u.proc_wset, stat_proc_wset(s)),
    }
}

fn saturating_to_u64(x: u128) -> (r: u64)
    ensures
        r == clamp_u64(x as int),
{
    if x > u64::MAX as u128 {
        u64::MAX
    } else {
        x as u64
    }
}

fn kib_to_bytes(kib: u64) -> (r: u64)
    ensures
        r == clamp_u64(kib * 1024),
{
    assert(kib * 1024 <= u64::MAX * 1024) by (nonlinear_arith);
    saturating_to_u64(kib as u128 * BYTES_PER_KIB as u128)
}

fn timeval_to_ms(sec: u64, usec: u64) -> (r: u128)
    ensures
        r == timeval_ms(sec, usec),
{
    assert(sec * 1000 <= u64::MAX * 1000) by (nonlinear_arith);
    sec as u128 * MS_PER_SECOND as u128 + usec as u128 / MS_PER_SECOND as u128
}

impl ProcResUsage {
    pub open spec fn zero() -> ProcResUsage {
        ProcResUsage { real_time: 0, proc_time: 0, proc_wset: 0 }
    }

    /// All counters at zero.
    pub fn new() -> (r: ProcResUsage)
        ensures
            r == ProcResUsage::zero(),
    {
        ProcResUsage { real_time: 0, proc_time: 0, proc_wset: 0 }
    }

    /// Raises the counters to what a terminal sample reports; no counter is
    /// ever lowered, and the real time is left alone.
    pub fn load_rusage(&mut self, res_usage: &RusageSample)
        ensures
            *final(self) == after_rusage(*old(self), *res_usage),
    {
        let proc_time = saturating_to_u64(
            timeval_to_ms(res_usage.user_sec, res_usage.user_usec) + timeval_to_ms(
                res_usage.system_sec,
                res_usage.system_usec,
            ),
        );
        if proc_time > self.proc_time {
            self.proc_time = proc_time;
        }
        let proc_wset = kib_to_bytes(res_usage.max_rss_kib);
        if proc_wset > self.proc_wset {
            self.proc_wset = proc_wset;
        }
    }

    /// Raises the counters to what a live sample reports, or leaves them
    /// unchanged and fails when the sample cannot be read.
    pub fn load_proc_stat(&mut self, stat: &ProcStatSample, ticks_per_second: u64) -> (r: Result<
        (),
        (),
    >)
        ensures
            r is Ok <==> stat_usable(*stat, ticks_per_second),
            r is Ok ==> *final(self) == after_stat(*old(self), *stat, ticks_per_second),
            r is Err ==> *final(self) == *old(self),
    {
        if ticks_per_second == 0 {
            return Err(());
        }
        let kib = match stat.vm_peak_kib {
            Some(kib) => kib,
            None => match stat.vm_hwm_kib {
                Some(kib) => kib,
                None => {
                    return Err(());
                },
            },
        };
        let ticks: u128 = stat.utime as u128 + stat.stime as u128 + stat.cutime as u128
            + stat.cstime as u128;
        assert(ticks * 1000 <= 4 * u64::MAX * 1000) by (nonlinear_arith)
            requires
                ticks <= 4 * u64::MAX,
        ;
        let proc_time = saturating_to_u64(ticks * MS_PER_SECOND as u128 / ticks_per_second as u128);
        if proc_time > self.proc_time {
            self.proc_time = proc_time;
        }
        let proc_wset = kib_to_bytes(kib);
        if proc_wset > self.proc_wset {
            self.proc_wset = proc_wset;
        }
        Ok(())
    }
}

/// A terminal sample never lowers a stored counter, and the counters it
/// raises reach the sample's values.
pub proof fn lemma_load_rusage_monotonic(u: ProcResUsage, r: RusageSample)
    ensures
        after_rusage(u, r).real_time == u.real_time,
        after_rusage(u, r).proc_time >= u.proc_time,
        after_rusage(u, r).proc_wset >= u.proc_wset,
        after_rusage(u, r).proc_time >= rusage_proc_time(r),
        after_rusage(u, r).proc_wset >= rusage_proc_wset(r),
{
}

} // verus!
