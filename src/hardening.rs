//! The hardening sequence applied inside the forked child before `exec`,
//! as a list of steps. Each stage yields its steps from the request; the
//! plan is the stages in their fixed order. The child performs the steps.

use vstd::prelude::*;
use crate::request::{ExecProgGuard, ExecProgIO, ExecProgIOView, ExecProgInfo, ExecProgInfoView, ExecProgLimits};

verus! {

/// Namespaces detached with one `unshare` call.
#[derive(Clone, Copy, Debug, PartialEq, Eq, Structural)]
pub enum Namespaces {
    /// Mount, IPC, UTS, PID, cgroup and SysV semaphores.
    Common,
    /// The network namespace.
    Network,
}

/// One of the three standard streams (descriptors 0, 1, 2).
#[derive(Clone, Copy, Debug, PartialEq, Eq, Structural)]
pub enum StdStream {
    Stdin,
    Stdout,
    Stderr,
}

/// How a redirection target is opened.
#[derive(Clone, Copy, Debug, PartialEq, Eq, Structural)]
pub enum OpenAccess {
    /// Read only; the file must exist.
    ReadOnly,
    /// Write only, created if missing, truncated.
    WriteTruncate,
    /// Read and write (for `/dev/null`).
    ReadWrite,
}

/// A resource limit set with equal soft and hard values.
#[derive(Clone, Copy, Debug, PartialEq, Eq, Structural)]
pub enum LimitResource {
    /// CPU seconds.
    Cpu,
    /// Core-file size.
    Core,
    /// Number of processes.
    Nproc,
    /// Number of open files.
    Nofile,
}

/// System calls on the standard deny-list. Process creation (`fork`,
/// `vfork`, `clone`, `clone3`) is deliberately left allowed, so that a guest
/// may start children within its process limit.
#[derive(Clone, Copy, Debug, PartialEq, Eq, Structural)]
pub enum DeniedSyscall {
    Reboot,
    Setuid,
    Setgid,
    Prctl,
    Unshare,
    Setrlimit,
    TimerCreate,
    TimerGettime,
    TimerSettime,
    TimerDelete,
    TimerGetoverrun,
    TimerfdCreate,
    TimerfdGettime,
    TimerfdSettime,
    Chdir,
    Fchdir,
    Chmod,
    Fchmod,
    Fchmodat,
    Chown,
    Fchown,
    Lchown,
    Fchownat,
}

/// One hardening step.
#[derive(Clone, Debug)]
pub enum HardeningStep {
    Unshare(Namespaces),
    ChangeDir(String),
    /// Have the kernel send SIGKILL to the child when its parent dies.
    KillOnParentExit,
    /// Switch to the user of this name.
    SwitchUser(String),
    SetLimit(LimitResource, u64),
    /// Open `path` and duplicate it onto the stream.
    OpenOnto { path: String, access: OpenAccess, target: StdStream },
    /// Duplicate the (redirected) stdout onto stderr.
    DupStdoutOntoStderr,
    /// Install a filter that allows every call but those listed, which kill
    /// the process.
    LoadSeccomp(Vec<DeniedSyscall>),
}

pub enum StepView {
    Unshare(Namespaces),
    ChangeDir(Seq<char>),
    KillOnParentExit,
    SwitchUser(Seq<char>),
    SetLimit(LimitResource, u64),
    OpenOnto { path: Seq<char>, access: OpenAccess, target: StdStream },
    DupStdoutOntoStderr,
    LoadSeccomp(Seq<DeniedSyscall>),
}

impl View for HardeningStep {
    type V = StepView;

    open spec fn view(&self) -> StepView {
        match self {
            HardeningStep::Unshare(n) => StepView::Unshare(*n),
            HardeningStep::ChangeDir(p) => StepView::ChangeDir(p@),
            HardeningStep::KillOnParentExit => StepView::KillOnParentExit,
            HardeningStep::SwitchUser(u) => StepView::SwitchUser(u@),
            HardeningStep::SetLimit(r, v) => StepView::SetLimit(*r, *v),
            HardeningStep::OpenOnto { path, access, target } => StepView::OpenOnto {
                path: path@,
                access: *access,
                target: *target,
            },
            HardeningStep::DupStdoutOntoStderr => StepView::DupStdoutOntoStderr,
            HardeningStep::LoadSeccomp(list) => StepView::LoadSeccomp(list@),
        }
    }
}

pub open spec fn steps_view(v: Seq<HardeningStep>) -> Seq<StepView> {
    v.map_values(|s: HardeningStep| s@)
}

pub open spec fn dev_null() -> Seq<char> {
    "/dev/null"@
}

/// The standard deny-list.
pub open spec fn common_denials() -> Seq<DeniedSyscall> {
    seq![
        DeniedSyscall::Reboot,
        DeniedSyscall::Setuid,
        DeniedSyscall::Setgid,
        DeniedSyscall::Prctl,
        DeniedSyscall::Unshare,
        DeniedSyscall::Setrlimit,
        DeniedSyscall::TimerCreate,
        DeniedSyscall::TimerGettime,
        DeniedSyscall::TimerSettime,
        DeniedSyscall::TimerDelete,
        DeniedSyscall::TimerGetoverrun,
        DeniedSyscall::TimerfdCreate,
        DeniedSyscall::TimerfdGettime,
        DeniedSyscall::TimerfdSettime,
        DeniedSyscall::Chdir,
        DeniedSyscall::Fchdir,
        DeniedSyscall::Chmod,
        DeniedSyscall::Fchmod,
        DeniedSyscall::Fchmodat,
        DeniedSyscall::Chown,
        DeniedSyscall::Fchown,
        DeniedSyscall::Lchown,
        DeniedSyscall::Fchownat,
    ]
}

/// The CPU rlimit for a limit of `ms` milliseconds: whole seconds rounded
/// up, plus one second so that the watchdog's precise kill comes first.
pub open spec fn cpu_limit_seconds(ms: u64) -> int {
    (ms + 999) / 1000 + 1
}

pub open spec fn unshare_steps(g: ExecProgGuard) -> Seq<StepView> {
    (if g.unshare_common {
        seq![StepView::Unshare(Namespaces::Common)]
    } else {
        seq![]
    }) + (if g.unshare_network {
        seq![StepView::Unshare(Namespaces::Network)]
    } else {
        seq![]
    })
}

pub open spec fn work_dir_steps(i: ExecProgInfoView) -> Seq<StepView> {
    seq![StepView::ChangeDir(i.working_path)]
}

pub open spec fn parent_exit_steps() -> Seq<StepView> {
    seq![StepView::KillOnParentExit]
}

pub open spec fn user_steps(i: ExecProgInfoView) -> Seq<StepView> {
    if i.exec_as_user.len() == 0 {
        seq![]
    } else {
        seq![StepView::SwitchUser(i.exec_as_user)]
    }
}

pub open spec fn limit_steps(l: ExecProgLimits) -> Seq<StepView> {
    (if l.limit_proc_time > 0 {
        seq![StepView::SetLimit(LimitResource::Cpu, cpu_limit_seconds(l.limit_proc_time) as u64)]
    } else {
        seq![]
    }) + (if l.rlimit_enabled {
        seq![
            StepView::SetLimit(LimitResource::Core, l.rlimit_core),
            StepView::SetLimit(LimitResource::Nproc, l.rlimit_nproc),
            StepView::SetLimit(LimitResource::Nofile, l.rlimit_nofile),
        ]
    } else {
        seq![]
    })
}

/// Open `path` (or `/dev/null` when it is empty) onto `target`.
pub open spec fn open_onto(path: Seq<char>, access: OpenAccess, target: StdStream) -> StepView {
    if path.len() == 0 {
        StepView::OpenOnto { path: dev_null(), access: OpenAccess::ReadWrite, target }
    } else {
        StepView::OpenOnto { path, access, target }
    }
}

pub open spec fn redirect_steps(io: ExecProgIOView) -> Seq<StepView> {
    if !io.io_redirected {
        seq![]
    } else {
        seq![open_onto(io.io_path_stdin, OpenAccess::ReadOnly, StdStream::Stdin)] + seq![
            open_onto(io.io_path_stdout, OpenAccess::WriteTruncate, StdStream::Stdout),
        ] + (if io.io_dup_err_out {
            if io.io_path_stdout.len() != 0 {
                seq![StepView::DupStdoutOntoStderr]
            } else {
                seq![]
            }
        } else {
            seq![open_onto(io.io_path_stderr, OpenAccess::WriteTruncate, StdStream::Stderr)]
        })
    }
}

pub open spec fn seccomp_steps(g: ExecProgGuard) -> Seq<StepView> {
    if !g.scmp_enabled {
        seq![]
    } else if g.scmp_deny_common {
        seq![StepView::LoadSeccomp(common_denials())]
    } else {
        seq![StepView::LoadSeccomp(seq![])]
    }
}

/// The whole sequence: unshare, working directory, parent-death signal,
/// user switch, resource limits, stream redirection, seccomp filter.
pub open spec fn plan_steps(
    i: ExecProgInfoView,
    io: ExecProgIOView,
    l: ExecProgLimits,
    g: ExecProgGuard,
) -> Seq<StepView> {
    unshare_steps(g) + work_dir_steps(i) + parent_exit_steps() + user_steps(i) + limit_steps(l)
        + redirect_steps(io) + seccomp_steps(g)
}

/// Appends `more` to `steps`.
fn extend_steps(steps: &mut Vec<HardeningStep>, more: Vec<HardeningStep>)
    ensures
        steps_view(final(steps)@) == steps_view(old(steps)@) + steps_view(more@),
{
    let mut more = more;
    let ghost a = steps@;
    let ghost b = more@;
    steps.append(&mut more);
    assert(steps_view(steps@) =~= steps_view(a) + steps_view(b));
}

fn single(step: HardeningStep) -> (r: Vec<HardeningStep>)
    ensures
        steps_view(r@) == seq![step@],
{
    let mut v: Vec<HardeningStep> = Vec::new();
    v.push(step);
    assert(steps_view(v@) =~= seq![step@]);
    v
}

fn no_steps() -> (r: Vec<HardeningStep>)
    ensures
        steps_view(r@) == Seq::<StepView>::empty(),
{
    let v: Vec<HardeningStep> = Vec::new();
    assert(steps_view(v@) =~= Seq::<StepView>::empty());
    v
}

/// The standard deny-list of the seccomp filter.
pub fn common_deny_list() -> (r: Vec<DeniedSyscall>)
    ensures
        r@ == common_denials(),
{
    let r = vec![
        DeniedSyscall::Reboot,
        DeniedSyscall::Setuid,
        DeniedSyscall::Setgid,
        DeniedSyscall::Prctl,
        DeniedSyscall::Unshare,
        DeniedSyscall::Setrlimit,
        DeniedSyscall::TimerCreate,
        DeniedSyscall::TimerGettime,
        DeniedSyscall::TimerSettime,
        DeniedSyscall::TimerDelete,
        DeniedSyscall::TimerGetoverrun,
        DeniedSyscall::TimerfdCreate,
        DeniedSyscall::TimerfdGettime,
        DeniedSyscall::TimerfdSettime,
        DeniedSyscall::Chdir,
        DeniedSyscall::Fchdir,
        DeniedSyscall::Chmod,
        DeniedSyscall::Fchmod,
        DeniedSyscall::Fchmodat,
        DeniedSyscall::Chown,
        DeniedSyscall::Fchown,
        DeniedSyscall::Lchown,
        DeniedSyscall::Fchownat,
    ];
    assert(r@ =~= common_denials());
    r
}

/// The CPU rlimit in seconds for a limit of `ms` milliseconds.
pub fn cpu_limit_secs(ms: u64) -> (r: u64)
    ensures
        r == cpu_limit_seconds(ms),
{
    let whole = ms / 1000;
    if ms % 1000 == 0 {
        whole + 1
    } else {
        whole + 2
    }
}

/// Stage 1: detach the common namespaces, then the network namespace, as
/// requested.
pub fn unshare_resources(exec_prog_guard: &ExecProgGuard) -> (r: Vec<HardeningStep>)
    ensures
        steps_view(r@) == unshare_steps(*exec_prog_guard),
{
    let mut steps = no_steps();
    if exec_prog_guard.unshare_common {
        extend_steps(&mut steps, single(HardeningStep::Unshare(Namespaces::Common)));
    }
    if exec_prog_guard.unshare_network {
        extend_steps(&mut steps, single(HardeningStep::Unshare(Namespaces::Network)));
    }
    assert(steps_view(steps@) =~= unshare_steps(*exec_prog_guard));
    steps
}

/// Stage 2: change to the working directory.
pub fn set_work_dir(exec_prog_info: &ExecProgInfo) -> (r: Vec<HardeningStep>)
    ensures
        steps_view(r@) == work_dir_steps(exec_prog_info@),
{
    single(HardeningStep::ChangeDir(exec_prog_info.working_path.clone()))
}

/// Stage 3: arm the parent-death signal.
pub fn kill_on_parent_exit() -> (r: Vec<HardeningStep>)
    ensures
        steps_view(r@) == parent_exit_steps(),
{
    single(HardeningStep::KillOnParentExit)
}

/// Stage 4: switch user, when one is named.
pub fn init_set_user_id(exec_prog_info: &ExecProgInfo) -> (r: Vec<HardeningStep>)
    ensures
        steps_view(r@) == user_steps(exec_prog_info@),
{
    if exec_prog_info.exec_as_user.as_str().unicode_len() == 0 {
        no_steps()
    } else {
        single(HardeningStep::SwitchUser(exec_prog_info.exec_as_user.clone()))
    }
}

/// Stage 5: the CPU backstop when a CPU limit is set, then the rlimit block
/// when enabled.
pub fn set_resource_limits(exec_prog_limits: &ExecProgLimits) -> (r: Vec<HardeningStep>)
    ensures
        steps_view(r@) == limit_steps(*exec_prog_limits),
{
    let mut steps = no_steps();
    if exec_prog_limits.limit_proc_time > 0 {
        let secs = cpu_limit_secs(exec_prog_limits.limit_proc_time);
        extend_steps(&mut steps, single(HardeningStep::SetLimit(LimitResource::Cpu, secs)));
    }
    if exec_prog_limits.rlimit_enabled {
        extend_steps(
            &mut steps,
            single(HardeningStep::SetLimit(LimitResource::Core, exec_prog_limits.rlimit_core)),
        );
        extend_steps(
            &mut steps,
            single(HardeningStep::SetLimit(LimitResource::Nproc, exec_prog_limits.rlimit_nproc)),
        );
        extend_steps(
            &mut steps,
            single(HardeningStep::SetLimit(LimitResource::Nofile, exec_prog_limits.rlimit_nofile)),
        );
    }
    assert(steps_view(steps@) =~= limit_steps(*exec_prog_limits));
    steps
}

fn open_onto_step(path: &String, access: OpenAccess, target: StdStream) -> (r: HardeningStep)
    ensures
        r@ == open_onto(path@, access, target),
{
    if path.as_str().unicode_len() == 0 {
        let null = String::from_str("/dev/null");
        HardeningStep::OpenOnto { path: null, access: OpenAccess::ReadWrite, target }
    } else {
        HardeningStep::OpenOnto { path: path.clone(), access, target }
    }
}

/// Stage 6: the standard streams, each onto its file or `/dev/null`;
/// stderr onto stdout when asked.
pub fn redirect_io_streams(exec_prog_io: &ExecProgIO) -> (r: Vec<HardeningStep>)
    ensures
        steps_view(r@) == redirect_steps(exec_prog_io@),
{
    if !exec_prog_io.io_redirected {
        return no_steps();
    }
    let mut steps = single(
        open_onto_step(&exec_prog_io.io_path_stdin, OpenAccess::ReadOnly, StdStream::Stdin),
    );
    extend_steps(
        &mut steps,
        single(
            open_onto_step(
                &exec_prog_io.io_path_stdout,
                OpenAccess::WriteTruncate,
                StdStream::Stdout,
            ),
        ),
    );
    if exec_prog_io.io_dup_err_out {
        if exec_prog_io.io_path_stdout.as_str().unicode_len() != 0 {
            extend_steps(&mut steps, single(HardeningStep::DupStdoutOntoStderr));
        }
    } else {
        extend_steps(
            &mut steps,
            single(
                open_onto_step(
                    &exec_prog_io.io_path_stderr,
                    OpenAccess::WriteTruncate,
                    StdStream::Stderr,
                ),
            ),
        );
    }
    assert(steps_view(steps@) =~= redirect_steps(exec_prog_io@));
    steps
}

/// Stage 7: the seccomp filter, with the standard deny-list when asked.
pub fn init_secure_computing(exec_prog_guard: &ExecProgGuard) -> (r: Vec<HardeningStep>)
    ensures
        steps_view(r@) == seccomp_steps(*exec_prog_guard),
{
    if !exec_prog_guard.scmp_enabled {
        no_steps()
    } else if exec_prog_guard.scmp_deny_common {
        single(HardeningStep::LoadSeccomp(common_deny_list()))
    } else {
        let none: Vec<DeniedSyscall> = Vec::new();
        single(HardeningStep::LoadSeccomp(none))
    }
}

/// The whole hardening sequence, stage by stage in the fixed order.
pub fn hardening_plan(
    exec_prog_info: &ExecProgInfo,
    exec_prog_io: &ExecProgIO,
    exec_prog_limits: &ExecProgLimits,
    exec_prog_guard: &ExecProgGuard,
) -> (r: Vec<HardeningStep>)
    ensures
        steps_view(r@) == plan_steps(
            exec_prog_info@,
            exec_prog_io@,
            *exec_prog_limits,
            *exec_prog_guard,
        ),
{
    let mut steps = unshare_resources(exec_prog_guard);
    extend_steps(&mut steps, set_work_dir(exec_prog_info));
    extend_steps(&mut steps, kill_on_parent_exit());
    extend_steps(&mut steps, init_set_user_id(exec_prog_info));
    extend_steps(&mut steps, set_resource_limits(exec_prog_limits));
    extend_steps(&mut steps, redirect_io_streams(exec_prog_io));
    extend_steps(&mut steps, init_secure_computing(exec_prog_guard));
    steps
}

/// The parent-death signal is armed in every plan, before the user switch,
/// the limits, the redirections and the filter: only namespace detaching
/// and the change of directory come first.
pub proof fn lemma_plan_arms_parent_death_signal(
    i: ExecProgInfoView,
    io: ExecProgIOView,
    l: ExecProgLimits,
    g: ExecProgGuard,
)
    ensures
        ({
            let p = plan_steps(i, io, l, g);
            exists|k: int|
                0 <= k < p.len() && #[trigger] p[k] == StepView::KillOnParentExit && forall|j: int|
                    0 <= j < k ==> (#[trigger] p[j] is Unshare || p[j] is ChangeDir)
        }),
{
    let p = plan_steps(i, io, l, g);
    let u = unshare_steps(g);
    let k: int = u.len() as int + 1;
    assert(p[k] == StepView::KillOnParentExit);
    assert forall|j: int| 0 <= j < k implies (#[trigger] p[j] is Unshare || p[j] is ChangeDir) by {
        if j < u.len() {
            assert(p[j] == u[j]);
        } else {
            assert(p[j] == StepView::ChangeDir(i.working_path));
        }
    }
}

/// The kernel's name of a denied system call.
pub open spec fn syscall_name(d: DeniedSyscall) -> Seq<char> {
    match d {
        DeniedSyscall::Reboot => "reboot"@,
        DeniedSyscall::Setuid => "setuid"@,
        DeniedSyscall::Setgid => "setgid"@,
        DeniedSyscall::Prctl => "prctl"@,
        DeniedSyscall::Unshare => "unshare"@,
        DeniedSyscall::Setrlimit => "setrlimit"@,
        DeniedSyscall::TimerCreate => "timer_create"@,
        DeniedSyscall::TimerGettime => "timer_gettime"@,
        DeniedSyscall::TimerSettime => "timer_settime"@,
        DeniedSyscall::TimerDelete => "timer_delete"@,
        DeniedSyscall::TimerGetoverrun => "timer_getoverrun"@,
        DeniedSyscall::TimerfdCreate => "timerfd_create"@,
        DeniedSyscall::TimerfdGettime => "timerfd_gettime"@,
        DeniedSyscall::TimerfdSettime => "timerfd_settime"@,
        DeniedSyscall::Chdir => "chdir"@,
        DeniedSyscall::Fchdir => "fchdir"@,
        DeniedSyscall::Chmod => "chmod"@,
        DeniedSyscall::Fchmod => "fchmod"@,
        DeniedSyscall::Fchmodat => "fchmodat"@,
        DeniedSyscall::Chown => "chown"@,
        DeniedSyscall::Fchown => "fchown"@,
        DeniedSyscall::Lchown => "lchown"@,
        DeniedSyscall::Fchownat => "fchownat"@,
    }
}

impl DeniedSyscall {
    /// The kernel's name of this system call.
    pub fn name(&self) -> (r: &'static str)
        ensures
            r@ == syscall_name(*self),
    {
        match self {
            DeniedSyscall::Reboot => "reboot",
            DeniedSyscall::Setuid => "setuid",
            DeniedSyscall::Setgid => "setgid",
            DeniedSyscall::Prctl => "prctl",
            DeniedSyscall::Unshare => "unshare",
            DeniedSyscall::Setrlimit => "setrlimit",
            DeniedSyscall::TimerCreate => "timer_create",
            DeniedSyscall::TimerGettime => "timer_gettime",
            DeniedSyscall::TimerSettime => "timer_settime",
            DeniedSyscall::TimerDelete => "timer_delete",
            DeniedSyscall::TimerGetoverrun => "timer_getoverrun",
            DeniedSyscall::TimerfdCreate => "timerfd_create",
            DeniedSyscall::TimerfdGettime => "timerfd_gettime",
            DeniedSyscall::TimerfdSettime => "timerfd_settime",
            DeniedSyscall::Chdir => "chdir",
            DeniedSyscall::Fchdir => "fchdir",
            DeniedSyscall::Chmod => "chmod",
            DeniedSyscall::Fchmod => "fchmod",
            DeniedSyscall::Fchmodat => "fchmodat",
            DeniedSyscall::Chown => "chown",
            DeniedSyscall::Fchown => "fchown",
            DeniedSyscall::Lchown => "lchown",
            DeniedSyscall::Fchownat => "fchownat",
        }
    }
}

} // verus!
