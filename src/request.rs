//! What a caller asks for: the program, its standard streams, the limits
//! and the hardening toggles, with the checks made before any fork.

use vstd::prelude::*;
use crate::text::{base_name, contains_nul, has_nul, last_component, split_words, strings_view, words};

verus! {

/// What to run: program path, argument string (split on whitespace),
/// working directory, and the user to run as (empty: do not switch).
#[derive(Clone, Debug)]
pub struct ExecProgInfo {
    pub program_path: String,
    pub program_args: String,
    pub working_path: String,
    pub exec_as_user: String,
}

/// Redirection of the standard streams. An empty path stands for `/dev/null`.
#[derive(Clone, Debug)]
pub struct ExecProgIO {
    pub io_redirected: bool,
    pub io_path_stdin: String,
    pub io_path_stdout: String,
    pub io_path_stderr: String,
    pub io_dup_err_out: bool,
}

/// Ceilings in milliseconds or bytes; zero means no limit. The rlimit block
/// sets core-file size, process count and open-file count when enabled.
#[derive(Clone, Copy, Debug, PartialEq, Eq, Structural)]
pub struct ExecProgLimits {
    pub limit_real_time: u64,
    pub limit_proc_time: u64,
    pub limit_proc_wset: u64,
    pub rlimit_enabled: bool,
    pub rlimit_core: u64,
    pub rlimit_nproc: u64,
    pub rlimit_nofile: u64,
}

/// Hardening toggles: a seccomp filter, its standard deny-list, and the
/// namespaces to detach.
#[derive(Clone, Copy, Debug, PartialEq, Eq, Structural)]
pub struct ExecProgGuard {
    pub scmp_enabled: bool,
    pub scmp_deny_common: bool,
    pub unshare_common: bool,
    pub unshare_network: bool,
}

pub struct ExecProgInfoView {
    pub program_path: Seq<char>,
    pub program_args: Seq<char>,
    pub working_path: Seq<char>,
    pub exec_as_user: Seq<char>,
}

impl View for ExecProgInfo {
    type V = ExecProgInfoView;

    open spec fn view(&self) -> ExecProgInfoView {
        ExecProgInfoView {
            program_path: self.program_path@,
            program_args: self.program_args@,
            working_path: self.working_path@,
            exec_as_user: self.exec_as_user@,
        }
    }
}

pub struct ExecProgIOView {
    pub io_redirected: bool,
    pub io_path_stdin: Seq<char>,
    pub io_path_stdout: Seq<char>,
    pub io_path_stderr: Seq<char>,
    pub io_dup_err_out: bool,
}

impl View for ExecProgIO {
    type V = ExecProgIOView;

    open spec fn view(&self) -> ExecProgIOView {
        ExecProgIOView {
            io_redirected: self.io_redirected,
            io_path_stdin: self.io_path_stdin@,
            io_path_stdout: self.io_path_stdout@,
            io_path_stderr: self.io_path_stderr@,
            io_dup_err_out: self.io_dup_err_out,
        }
    }
}

/// A valid program request: the program is a regular file, the working
/// directory is a directory (both as the caller found them on disk), and
/// no string holds a NUL.
pub open spec fn info_valid(i: ExecProgInfoView, program_is_file: bool, working_is_dir: bool) -> bool {
    &&& program_is_file
    &&& working_is_dir
    &&& !has_nul(i.program_path)
    &&& !has_nul(i.program_args)
    &&& !has_nul(i.working_path)
    &&& !has_nul(i.exec_as_user)
}

/// A valid redirection request. When redirection is off anything goes.
/// Otherwise: some path is given; stderr onto stdout needs a stdout path
/// and no stderr path; a stdin path names a regular file (as the caller
/// found it on disk); no path holds a NUL.
pub open spec fn io_valid(io: ExecProgIOView, stdin_is_file: bool) -> bool {
    !io.io_redirected || {
        &&& !(io.io_path_stdin.len() == 0 && io.io_path_stdout.len() == 0
            && io.io_path_stderr.len() == 0)
        &&& !(io.io_dup_err_out && (io.io_path_stderr.len() != 0 || io.io_path_stdout.len() == 0))
        &&& (io.io_path_stdin.len() == 0 || stdin_is_file)
        &&& !has_nul(io.io_path_stdin)
        &&& !has_nul(io.io_path_stdout)
        &&& !has_nul(io.io_path_stderr)
    }
}

/// The argument vector: the last component of the program path, then the
/// words of the argument string.
pub open spec fn argv_of(i: ExecProgInfoView) -> Seq<Seq<char>> {
    seq![base_name(i.program_path)] + words(i.program_args)
}

impl ExecProgInfo {
    /// Checks the request before any fork, given what the caller found on
    /// disk: whether the program path is a regular file and the working path
    /// a directory.
    pub fn verify(&self, program_is_file: bool, working_is_dir: bool) -> (r: bool)
        ensures
            r == info_valid(self@, program_is_file, working_is_dir),
    {
        program_is_file && working_is_dir && !contains_nul(self.program_path.as_str())
            && !contains_nul(self.program_args.as_str()) && !contains_nul(
            self.working_path.as_str(),
        ) && !contains_nul(self.exec_as_user.as_str())
    }

    /// The argument vector handed to the program: its file name, then the
    /// whitespace-separated words of the argument string.
    pub fn get_cstring_argv_vec(&self) -> (r: Vec<String>)
        ensures
            strings_view(r@) == argv_of(self@),
            r@.len() >= 1,
    {
        let mut argv: Vec<String> = Vec::new();
        argv.push(last_component(self.program_path.as_str()));
        let mut rest = split_words(self.program_args.as_str());
        let ghost first = argv@;
        let ghost tail = rest@;
        argv.append(&mut rest);
        assert(argv@ == first + tail);
        assert(strings_view(argv@) =~= argv_of(self@));
        argv
    }
}

impl ExecProgIO {
    /// Checks the redirection request before any fork, given whether the
    /// stdin path (if any) is a regular file.
    pub fn verify(&self, stdin_is_file: bool) -> (r: bool)
        ensures
            r == io_valid(self@, stdin_is_file),
    {
        if !self.io_redirected {
            return true;
        }
        let stdin_empty = self.io_path_stdin.as_str().unicode_len() == 0;
        let stdout_empty = self.io_path_stdout.as_str().unicode_len() == 0;
        let stderr_empty = self.io_path_stderr.as_str().unicode_len() == 0;
        if stdin_empty && stdout_empty && stderr_empty {
            return false;
        }
        if self.io_dup_err_out && (!stderr_empty || stdout_empty) {
            return false;
        }
        if !stdin_empty && !stdin_is_file {
            return false;
        }
        !contains_nul(self.io_path_stdin.as_str()) && !contains_nul(self.io_path_stdout.as_str())
            && !contains_nul(self.io_path_stderr.as_str())
    }
}

/// Validation is a function of the request and of what was found on disk:
/// the same request checked twice gets the same verdict.
pub proof fn lemma_validation_idempotent(
    a: ExecProgInfo,
    b: ExecProgInfo,
    x: ExecProgIO,
    y: ExecProgIO,
    program_is_file: bool,
    working_is_dir: bool,
    stdin_is_file: bool,
)
    requires
        a@ == b@,
        x@ == y@,
    ensures
        info_valid(a@, program_is_file, working_is_dir) == info_valid(
            b@,
            program_is_file,
            working_is_dir,
        ),
        io_valid(x@, stdin_is_file) == io_valid(y@, stdin_is_file),
{
}

} // verus!
