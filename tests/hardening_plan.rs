use limtrac::hardening::{
    common_deny_list, cpu_limit_secs, hardening_plan, init_secure_computing, init_set_user_id,
    kill_on_parent_exit, redirect_io_streams, set_resource_limits, set_work_dir,
    unshare_resources, DeniedSyscall, HardeningStep, LimitResource, Namespaces, OpenAccess,
    StdStream,
};
use limtrac::request::{ExecProgGuard, ExecProgIO, ExecProgInfo, ExecProgLimits};

fn info(user: &str) -> ExecProgInfo {
    ExecProgInfo {
        program_path: "/bin/true".to_string(),
        program_args: String::new(),
        working_path: "/srv/run".to_string(),
        exec_as_user: user.to_string(),
    }
}

fn limits(proc_time: u64, rlimits: bool) -> ExecProgLimits {
    ExecProgLimits {
        limit_real_time: 0,
        limit_proc_time: proc_time,
        limit_proc_wset: 0,
        rlimit_enabled: rlimits,
        rlimit_core: 0,
        rlimit_nproc: 16,
        rlimit_nofile: 64,
    }
}

fn guard(scmp: bool, deny: bool, common: bool, net: bool) -> ExecProgGuard {
    ExecProgGuard {
        scmp_enabled: scmp,
        scmp_deny_common: deny,
        unshare_common: common,
        unshare_network: net,
    }
}

fn no_io() -> ExecProgIO {
    ExecProgIO {
        io_redirected: false,
        io_path_stdin: String::new(),
        io_path_stdout: String::new(),
        io_path_stderr: String::new(),
        io_dup_err_out: false,
    }
}

fn open(path: &str, access: OpenAccess, target: StdStream) -> HardeningStep {
    HardeningStep::OpenOnto { path: path.to_string(), access, target }
}

fn same(a: &[HardeningStep], b: &[HardeningStep]) -> bool {
    format!("{:?}", a) == format!("{:?}", b)
}

#[test]
fn cpu_limit_rounds_up_plus_one() {
    assert_eq!(cpu_limit_secs(500), 2);
    assert_eq!(cpu_limit_secs(1000), 2);
    assert_eq!(cpu_limit_secs(1001), 3);
    assert_eq!(cpu_limit_secs(1), 2);
    assert_eq!(cpu_limit_secs(u64::MAX), u64::MAX / 1000 + 2);
}

#[test]
fn unshare_stage() {
    assert!(unshare_resources(&guard(false, false, false, false)).is_empty());
    assert!(same(
        &unshare_resources(&guard(false, false, true, true)),
        &[
            HardeningStep::Unshare(Namespaces::Common),
            HardeningStep::Unshare(Namespaces::Network)
        ]
    ));
    assert!(same(
        &unshare_resources(&guard(false, false, false, true)),
        &[HardeningStep::Unshare(Namespaces::Network)]
    ));
}

#[test]
fn work_dir_and_parent_death_stages() {
    assert!(same(
        &set_work_dir(&info("")),
        &[HardeningStep::ChangeDir("/srv/run".to_string())]
    ));
    assert!(same(&kill_on_parent_exit(), &[HardeningStep::KillOnParentExit]));
}

#[test]
fn user_stage_only_when_named() {
    assert!(init_set_user_id(&info("")).is_empty());
    assert!(same(
        &init_set_user_id(&info("nobody")),
        &[HardeningStep::SwitchUser("nobody".to_string())]
    ));
}

#[test]
fn limit_stage() {
    assert!(set_resource_limits(&limits(0, false)).is_empty());
    assert!(same(
        &set_resource_limits(&limits(500, true)),
        &[
            HardeningStep::SetLimit(LimitResource::Cpu, 2),
            HardeningStep::SetLimit(LimitResource::Core, 0),
            HardeningStep::SetLimit(LimitResource::Nproc, 16),
            HardeningStep::SetLimit(LimitResource::Nofile, 64),
        ]
    ));
}

#[test]
fn redirect_stage_with_files_and_dev_null() {
    let io = ExecProgIO {
        io_redirected: true,
        io_path_stdin: String::new(),
        io_path_stdout: "out.txt".to_string(),
        io_path_stderr: "err.txt".to_string(),
        io_dup_err_out: false,
    };
    assert!(same(
        &redirect_io_streams(&io),
        &[
            open("/dev/null", OpenAccess::ReadWrite, StdStream::Stdin),
            open("out.txt", OpenAccess::WriteTruncate, StdStream::Stdout),
            open("err.txt", OpenAccess::WriteTruncate, StdStream::Stderr),
        ]
    ));
}

#[test]
fn redirect_stage_with_stderr_on_stdout() {
    let io = ExecProgIO {
        io_redirected: true,
        io_path_stdin: "in.txt".to_string(),
        io_path_stdout: "out.txt".to_string(),
        io_path_stderr: String::new(),
        io_dup_err_out: true,
    };
    assert!(same(
        &redirect_io_streams(&io),
        &[
            open("in.txt", OpenAccess::ReadOnly, StdStream::Stdin),
            open("out.txt", OpenAccess::WriteTruncate, StdStream::Stdout),
            HardeningStep::DupStdoutOntoStderr,
        ]
    ));
    assert!(redirect_io_streams(&no_io()).is_empty());
}

#[test]
fn seccomp_stage() {
    assert!(init_secure_computing(&guard(false, true, false, false)).is_empty());
    assert!(same(
        &init_secure_computing(&guard(true, false, false, false)),
        &[HardeningStep::LoadSeccomp(vec![])]
    ));
    assert!(same(
        &init_secure_computing(&guard(true, true, false, false)),
        &[HardeningStep::LoadSeccomp(common_deny_list())]
    ));
}

#[test]
fn deny_list_allows_process_creation() {
    let list = common_deny_list();
    assert_eq!(list.len(), 23);
    let names: Vec<&str> = list.iter().map(|d| d.name()).collect();
    for denied in ["reboot", "setuid", "prctl", "chmod", "fchownat", "timerfd_settime", "chdir"] {
        assert!(names.contains(&denied));
    }
    for allowed in ["fork", "vfork", "clone", "clone3"] {
        assert!(!names.contains(&allowed));
    }
    assert_eq!(DeniedSyscall::TimerGetoverrun.name(), "timer_getoverrun");
}

#[test]
fn plan_runs_stages_in_order() {
    let plan = hardening_plan(
        &info("nobody"),
        &no_io(),
        &limits(1500, false),
        &guard(true, false, true, false),
    );
    assert!(same(
        &plan,
        &[
            HardeningStep::Unshare(Namespaces::Common),
            HardeningStep::ChangeDir("/srv/run".to_string()),
            HardeningStep::KillOnParentExit,
            HardeningStep::SwitchUser("nobody".to_string()),
            HardeningStep::SetLimit(LimitResource::Cpu, 3),
            HardeningStep::LoadSeccomp(vec![]),
        ]
    ));
}

#[test]
fn minimal_plan_still_arms_parent_death_signal() {
    let plan = hardening_plan(&info(""), &no_io(), &limits(0, false), &guard(false, false, false, false));
    assert!(same(
        &plan,
        &[
            HardeningStep::ChangeDir("/srv/run".to_string()),
            HardeningStep::KillOnParentExit,
        ]
    ));
}
