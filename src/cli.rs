//! The request of the standalone entry point, read from `LIMTRAC_*`
//! environment variables, and the exit status it ends with.

use vstd::prelude::*;
use crate::request::{ExecProgGuard, ExecProgIO, ExecProgInfo, ExecProgLimits};
use crate::text::{split_words, strings_view, words};
use crate::verdict::{kill_reason_code, KillReason, ProcExecResult};

verus! {

pub const DEFAULT_RLIM_ENABLED: bool = false;
pub const DEFAULT_RLIM_CORE: i32 = 0;
pub const DEFAULT_RLIM_NPROC: i32 = 64;
pub const DEFAULT_RLIM_NOFILE: i32 = 256;
pub const DEFAULT_SCMP_ENABLED: bool = false;
pub const DEFAULT_SCMP_FS_GUARD: bool = true;

/// Base of the exit statuses that report why a guest did not end normally.
pub const EXIT_CLASS_BASE: i32 = 100;

/// The environment variables the standalone entry point reads.
#[derive(Clone, Copy, Debug, PartialEq, Eq, Structural)]
pub enum EnvVar {
    FullPath,
    Arguments,
    RunAs,
    RlimEnabled,
    RlimCore,
    RlimNproc,
    RlimNofile,
    ScmpEnabled,
    ScmpFsGuard,
}

pub open spec fn env_var_name(v: EnvVar) -> Seq<char> {
    match v {
        EnvVar::FullPath => "LIMTRAC_FULLPATH"@,
        EnvVar::Arguments => "LIMTRAC_ARGUMENTS"@,
        EnvVar::RunAs => "LIMTRAC_RUNAS"@,
        EnvVar::RlimEnabled => "LIMTRAC_RLIM_ENABLED"@,
        EnvVar::RlimCore => "LIMTRAC_RLIM_CORE"@,
        EnvVar::RlimNproc => "LIMTRAC_RLIM_NPROC"@,
        EnvVar::RlimNofile => "LIMTRAC_RLIM_NOFILE"@,
        EnvVar::ScmpEnabled => "LIMTRAC_SCMP_ENABLED"@,
        EnvVar::ScmpFsGuard => "LIMTRAC_SCMP_FS_GUARD"@,
    }
}

impl EnvVar {
    /// The variable's name.
    pub fn name(&self) -> (r: &'static str)
        ensures
            r@ == env_var_name(*self),
    {
        match self {
            EnvVar::FullPath => "LIMTRAC_FULLPATH",
            EnvVar::Arguments => "LIMTRAC_ARGUMENTS",
            EnvVar::RunAs => "LIMTRAC_RUNAS",
            EnvVar::RlimEnabled => "LIMTRAC_RLIM_ENABLED",
            EnvVar::RlimCore => "LIMTRAC_RLIM_CORE",
            EnvVar::RlimNproc => "LIMTRAC_RLIM_NPROC",
            EnvVar::RlimNofile => "LIMTRAC_RLIM_NOFILE",
            EnvVar::ScmpEnabled => "LIMTRAC_SCMP_ENABLED",
            EnvVar::ScmpFsGuard => "LIMTRAC_SCMP_FS_GUARD",
        }
    }
}

/// Why no request could be read.
#[derive(Clone, Copy, Debug, PartialEq, Eq, Structural)]
pub enum RequestError {
    /// A required variable is not set.
    Missing(EnvVar),
    /// A variable is set to a value of the wrong form.
    Malformed(EnvVar),
}

/// A request of the standalone entry point.
#[derive(Clone, Debug)]
pub struct ProcExecRequest {
    pub full_path: String,
    pub arguments: String,
    pub runas_user: String,
    pub rlimit_enabled: bool,
    pub rlimit_core: i32,
    pub rlimit_nproc: i32,
    pub rlimit_nofile: i32,
    pub scmp_enabled: bool,
    pub scmp_fs_guard: bool,
}

pub open spec fn vars_view(v: Seq<(String, String)>) -> Seq<(Seq<char>, Seq<char>)> {
    v.map_values(|p: (String, String)| (p.0@, p.1@))
}

/// The value of the first variable named `name`.
pub open spec fn lookup(vars: Seq<(Seq<char>, Seq<char>)>, name: Seq<char>) -> Option<Seq<char>>
    decreases vars.len(),
{
    if vars.len() == 0 {
        None
    } else if vars[0].0 == name {
        Some(vars[0].1)
    } else {
        lookup(vars.drop_first(), name)
    }
}

pub open spec fn is_ascii_digit(c: char) -> bool {
    48 <= (c as u32) <= 57
}

pub open spec fn all_digits(s: Seq<char>) -> bool {
    forall|i: int| 0 <= i < s.len() ==> is_ascii_digit(#[trigger] s[i])
}

/// The number that a string of decimal digits writes.
pub open spec fn digits_value(s: Seq<char>) -> int
    decreases s.len(),
{
    if s.len() == 0 {
        0
    } else {
        digits_value(s.drop_last()) * 10 + ((s.last() as u32) - 48)
    }
}

/// The string leads with a minus sign.
pub open spec fn is_negative(s: Seq<char>) -> bool {
    s.len() > 0 && s[0] == '-'
}

/// The string without its leading sign, if it has one.
pub open spec fn unsigned_part(s: Seq<char>) -> Seq<char> {
    if s.len() > 0 && (s[0] == '-' || s[0] == '+') {
        s.drop_first()
    } else {
        s
    }
}

/// A decimal `i32`: an optional sign, then one or more digits, in range.
pub open spec fn parse_i32_spec(s: Seq<char>) -> Option<i32> {
    let d = unsigned_part(s);
    if d.len() == 0 || !all_digits(d) {
        None
    } else {
        let v = if is_negative(s) {
            -digits_value(d)
        } else {
            digits_value(d)
        };
        if i32::MIN <= v <= i32::MAX {
            Some(v as i32)
        } else {
            None
        }
    }
}

/// `true` or `false`, spelled exactly so.
pub open spec fn parse_bool_spec(s: Seq<char>) -> Option<bool> {
    if s == "true"@ {
        Some(true)
    } else if s == "false"@ {
        Some(false)
    } else {
        None
    }
}

proof fn lemma_digits_grow(s: Seq<char>, k: int)
    requires
        all_digits(s),
        0 <= k <= s.len(),
    ensures
        digits_value(s) >= digits_value(s.take(k)) >= 0,
    decreases s.len(),
{
    if s.len() > 0 {
        assert(all_digits(s.drop_last()));
        if k == s.len() {
            assert(s.take(k) == s);
            lemma_digits_grow(s.drop_last(), 0);
        } else {
            assert(s.drop_last().take(k) == s.take(k));
            lemma_digits_grow(s.drop_last(), k);
        }
        assert(is_ascii_digit(s[s.len() - 1]));
    } else {
        assert(s.take(k) =~= s);
    }
}

/// Reads a decimal `i32` the way Rust's `str::parse` does.
pub fn parse_i32(s: &str) -> (r: Option<i32>)
    ensures
        r == parse_i32_spec(s@),
{
    let n = s.unicode_len();
    if n == 0 {
        return None;
    }
    let c0 = s.get_char(0);
    let neg = c0 == '-';
    let start: usize = if neg || c0 == '+' {
        1
    } else {
        0
    };
    let ghost d = s@.subrange(start as int, n as int);
    assert(d =~= unsigned_part(s@));
    assert(neg == is_negative(s@));
    if start == n {
        return None;
    }
    let mut acc: i64 = 0;
    let mut i: usize = start;
    while i < n
        invariant
            n == s@.len(),
            start <= i <= n,
            d == s@.subrange(start as int, n as int),
            d == unsigned_part(s@),
            acc == digits_value(d.take(i - start)),
            0 <= acc <= 2147483648,
            all_digits(d.take(i - start)),
        decreases n - i,
    {
        let c = s.get_char(i);
        if !((c as u32) >= 48 && (c as u32) <= 57) {
            assert(d[i - start] == c);
            assert(!is_ascii_digit(d[i - start]));
            assert(!all_digits(d));
            return None;
        }
        let ghost before = d.take(i - start);
        assert(d.take(i + 1 - start).drop_last() == before);
        assert(d.take(i + 1 - start).last() == c);
        acc = acc * 10 + ((c as u32) - 48) as i64;
        i = i + 1;
        assert(all_digits(d.take(i - start))) by {
            assert forall|j: int| 0 <= j < i - start implies is_ascii_digit(
                #[trigger] d.take(i - start)[j],
            ) by {
                if j < i - 1 - start {
                    assert(d.take(i - start)[j] == before[j]);
                }
            }
        }
        if acc > 2147483648 {
            proof {
                if all_digits(d) {
                    lemma_digits_grow(d, i - start);
                    assert(digits_value(d) > 2147483648);
                    assert(d.len() > 0);
                }
            }
            return None;
        }
    }
    assert(d.take(n - start) == d);
    let v: i64 = if neg {
        -acc
    } else {
        acc
    };
    if v < -2147483648 || v > 2147483647 {
        None
    } else {
        Some(v as i32)
    }
}

/// Reads `true` or `false`.
pub fn parse_bool(s: &String) -> (r: Option<bool>)
    ensures
        r == parse_bool_spec(s@),
{
    let t = String::from_str("true");
    let f = String::from_str("false");
    if *s == t {
        Some(true)
    } else if *s == f {
        Some(false)
    } else {
        None
    }
}

pub struct ProcExecRequestView {
    pub full_path: Seq<char>,
    pub arguments: Seq<char>,
    pub runas_user: Seq<char>,
    pub rlimit_enabled: bool,
    pub rlimit_core: i32,
    pub rlimit_nproc: i32,
    pub rlimit_nofile: i32,
    pub scmp_enabled: bool,
    pub scmp_fs_guard: bool,
}

impl View for ProcExecRequest {
    type V = ProcExecRequestView;

    open spec fn view(&self) -> ProcExecRequestView {
        ProcExecRequestView {
            full_path: self.full_path@,
            arguments: self.arguments@,
            runas_user: self.runas_user@,
            rlimit_enabled: self.rlimit_enabled,
            rlimit_core: self.rlimit_core,
            rlimit_nproc: self.rlimit_nproc,
            rlimit_nofile: self.rlimit_nofile,
            scmp_enabled: self.scmp_enabled,
            scmp_fs_guard: self.scmp_fs_guard,
        }
    }
}

/// What is wrong with a required variable, if anything.
pub open spec fn required_error(vars: Seq<(Seq<char>, Seq<char>)>, v: EnvVar) -> Option<RequestError> {
    if lookup(vars, env_var_name(v)) is None {
        Some(RequestError::Missing(v))
    } else {
        None
    }
}

/// What is wrong with a boolean variable, if anything: it may be absent.
pub open spec fn bool_error(vars: Seq<(Seq<char>, Seq<char>)>, v: EnvVar) -> Option<RequestError> {
    match lookup(vars, env_var_name(v)) {
        Some(t) => if parse_bool_spec(t) is None {
            Some(RequestError::Malformed(v))
        } else {
            None
        },
        None => None,
    }
}

/// What is wrong with an integer variable, if anything: it may be absent.
pub open spec fn int_error(vars: Seq<(Seq<char>, Seq<char>)>, v: EnvVar) -> Option<RequestError> {
    match lookup(vars, env_var_name(v)) {
        Some(t) => if parse_i32_spec(t) is None {
            Some(RequestError::Malformed(v))
        } else {
            None
        },
        None => None,
    }
}

pub open spec fn or_else(a: Option<RequestError>, b: Option<RequestError>) -> Option<RequestError> {
    if a is Some {
        a
    } else {
        b
    }
}

/// The first variable, in the order of the request's fields, that is
/// missing or malformed.
pub open spec fn first_error(vars: Seq<(Seq<char>, Seq<char>)>) -> Option<RequestError> {
    or_else(
        required_error(vars, EnvVar::FullPath),
        or_else(
            required_error(vars, EnvVar::Arguments),
            or_else(
                required_error(vars, EnvVar::RunAs),
                or_else(
                    bool_error(vars, EnvVar::RlimEnabled),
                    or_else(
                        int_error(vars, EnvVar::RlimCore),
                        or_else(
                            int_error(vars, EnvVar::RlimNproc),
                            or_else(
                                int_error(vars, EnvVar::RlimNofile),
                                or_else(
                                    bool_error(vars, EnvVar::ScmpEnabled),
                                    bool_error(vars, EnvVar::ScmpFsGuard),
                                ),
                            ),
                        ),
                    ),
                ),
            ),
        ),
    )
}

/// The value of a boolean variable, or `default` when it is absent.
pub open spec fn bool_setting(vars: Seq<(Seq<char>, Seq<char>)>, v: EnvVar, default: bool) -> bool {
    match lookup(vars, env_var_name(v)) {
        Some(t) => parse_bool_spec(t)->0,
        None => default,
    }
}

/// The value of an integer variable, or `default` when it is absent.
pub open spec fn int_setting(vars: Seq<(Seq<char>, Seq<char>)>, v: EnvVar, default: i32) -> i32 {
    match lookup(vars, env_var_name(v)) {
        Some(t) => parse_i32_spec(t)->0,
        None => default,
    }
}

/// The request that well-formed variables describe.
pub open spec fn request_of(vars: Seq<(Seq<char>, Seq<char>)>) -> ProcExecRequestView {
    ProcExecRequestView {
        full_path: lookup(vars, env_var_name(EnvVar::FullPath))->0,
        arguments: lookup(vars, env_var_name(EnvVar::Arguments))->0,
        runas_user: lookup(vars, env_var_name(EnvVar::RunAs))->0,
        rlimit_enabled: bool_setting(vars, EnvVar::RlimEnabled, DEFAULT_RLIM_ENABLED),
        rlimit_core: int_setting(vars, EnvVar::RlimCore, DEFAULT_RLIM_CORE),
        rlimit_nproc: int_setting(vars, EnvVar::RlimNproc, DEFAULT_RLIM_NPROC),
        rlimit_nofile: int_setting(vars, EnvVar::RlimNofile, DEFAULT_RLIM_NOFILE),
        scmp_enabled: bool_setting(vars, EnvVar::ScmpEnabled, DEFAULT_SCMP_ENABLED),
        scmp_fs_guard: bool_setting(vars, EnvVar::ScmpFsGuard, DEFAULT_SCMP_FS_GUARD),
    }
}

/// The value of the first variable named `name`.
pub fn lookup_var(vars: &Vec<(String, String)>, name: &str) -> (r: Option<String>)
    ensures
        r matches Some(v) ==> lookup(vars_view(vars@), name@) == Some(v@),
        r is None ==> lookup(vars_view(vars@), name@) is None,
{
    let key = String::from_str(name);
    let ghost vv = vars_view(vars@);
    assert(vv.subrange(0, vv.len() as int) == vv);
    let mut i: usize = 0;
    while i < vars.len()
        invariant
            i <= vars@.len(),
            vv == vars_view(vars@),
            key@ == name@,
            lookup(vv, name@) == lookup(vv.subrange(i as int, vv.len() as int), name@),
        decreases vars.len() - i,
    {
        let ghost rest = vv.subrange(i as int, vv.len() as int);
        assert(rest.drop_first() =~= vv.subrange(i + 1, vv.len() as int));
        assert(rest[0] == (vars@[i as int].0@, vars@[i as int].1@));
        if vars[i].0 == key {
            return Some(vars[i].1.clone());
        }
        i = i + 1;
    }
    assert(vv.subrange(i as int, vv.len() as int).len() == 0);
    None
}

fn required_var(vars: &Vec<(String, String)>, v: EnvVar) -> (r: Result<String, RequestError>)
    ensures
        r matches Ok(s) ==> required_error(vars_view(vars@), v) is None && lookup(
            vars_view(vars@),
            env_var_name(v),
        ) == Some(s@),
        r matches Err(e) ==> required_error(vars_view(vars@), v) == Some(e),
{
    match lookup_var(vars, v.name()) {
        Some(s) => Ok(s),
        None => Err(RequestError::Missing(v)),
    }
}

fn bool_var(vars: &Vec<(String, String)>, v: EnvVar, default: bool) -> (r: Result<
    bool,
    RequestError,
>)
    ensures
        r matches Ok(b) ==> bool_error(vars_view(vars@), v) is None && b == bool_setting(
            vars_view(vars@),
            v,
            default,
        ),
        r matches Err(e) ==> bool_error(vars_view(vars@), v) == Some(e),
{
    match lookup_var(vars, v.name()) {
        Some(s) => match parse_bool(&s) {
            Some(b) => Ok(b),
            None => Err(RequestError::Malformed(v)),
        },
        None => Ok(default),
    }
}

fn int_var(vars: &Vec<(String, String)>, v: EnvVar, default: i32) -> (r: Result<
    i32,
    RequestError,
>)
    ensures
        r matches Ok(x) ==> int_error(vars_view(vars@), v) is None && x == int_setting(
            vars_view(vars@),
            v,
            default,
        ),
        r matches Err(e) ==> int_error(vars_view(vars@), v) == Some(e),
{
    match lookup_var(vars, v.name()) {
        Some(s) => match parse_i32(s.as_str()) {
            Some(x) => Ok(x),
            None => Err(RequestError::Malformed(v)),
        },
        None => Ok(default),
    }
}

impl ProcExecRequest {
    /// Reads a request from the environment's `(name, value)` pairs. The
    /// program path, arguments and run-as user are required; the rest fall
    /// back to their defaults when absent. Fails on the first variable, in
    /// field order, that is missing or malformed.
    pub fn new(vars: &Vec<(String, String)>) -> (r: Result<ProcExecRequest, RequestError>)
        ensures
            r matches Err(e) ==> first_error(vars_view(vars@)) == Some(e),
            r is Ok <==> first_error(vars_view(vars@)) is None,
            r matches Ok(q) ==> q@ == request_of(vars_view(vars@)),
    {
        let full_path = match required_var(vars, EnvVar::FullPath) {
            Ok(s) => s,
            Err(e) => return Err(e),
        };
        let arguments = match required_var(vars, EnvVar::Arguments) {
            Ok(s) => s,
            Err(e) => return Err(e),
        };
        let runas_user = match required_var(vars, EnvVar::RunAs) {
            Ok(s) => s,
            Err(e) => return Err(e),
        };
        let rlimit_enabled = match bool_var(vars, EnvVar::RlimEnabled, DEFAULT_RLIM_ENABLED) {
            Ok(b) => b,
            Err(e) => return Err(e),
        };
        let rlimit_core = match int_var(vars, EnvVar::RlimCore, DEFAULT_RLIM_CORE) {
            Ok(x) => x,
            Err(e) => return Err(e),
        };
        let rlimit_nproc = match int_var(vars, EnvVar::RlimNproc, DEFAULT_RLIM_NPROC) {
            Ok(x) => x,
            Err(e) => return Err(e),
        };
        let rlimit_nofile = match int_var(vars, EnvVar::RlimNofile, DEFAULT_RLIM_NOFILE) {
            Ok(x) => x,
            Err(e) => return Err(e),
        };
        let scmp_enabled = match bool_var(vars, EnvVar::ScmpEnabled, DEFAULT_SCMP_ENABLED) {
            Ok(b) => b,
            Err(e) => return Err(e),
        };
        let scmp_fs_guard = match bool_var(vars, EnvVar::ScmpFsGuard, DEFAULT_SCMP_FS_GUARD) {
            Ok(b) => b,
            Err(e) => return Err(e),
        };
        Ok(
            ProcExecRequest {
                full_path,
                arguments,
                runas_user,
                rlimit_enabled,
                rlimit_core,
                rlimit_nproc,
                rlimit_nofile,
                scmp_enabled,
                scmp_fs_guard,
            },
        )
    }
}

pub open spec fn is_prefix_of(p: Seq<char>, s: Seq<char>) -> bool {
    p.len() <= s.len() && s.take(p.len() as int) == p
}

/// The names, in order, of the variables whose name starts with `prefix`.
pub open spec fn names_with_prefix(vars: Seq<(Seq<char>, Seq<char>)>, prefix: Seq<char>) -> Seq<
    Seq<char>,
>
    decreases vars.len(),
{
    if vars.len() == 0 {
        seq![]
    } else {
        let rest = names_with_prefix(vars.drop_last(), prefix);
        if is_prefix_of(prefix, vars.last().0) {
            rest.push(vars.last().0)
        } else {
            rest
        }
    }
}

/// Whether `s` starts with `prefix`.
pub fn starts_with(s: &str, prefix: &str) -> (r: bool)
    ensures
        r == is_prefix_of(prefix@, s@),
{
    let n = s.unicode_len();
    let m = prefix.unicode_len();
    if m > n {
        return false;
    }
    let mut i: usize = 0;
    while i < m
        invariant
            m == prefix@.len(),
            n == s@.len(),
            m <= n,
            i <= m,
            s@.take(i as int) == prefix@.take(i as int),
        decreases m - i,
    {
        if s.get_char(i) != prefix.get_char(i) {
            assert(s@.take(m as int)[i as int] != prefix@[i as int]);
            return false;
        }
        i = i + 1;
        assert(s@.take(i as int) =~= prefix@.take(i as int));
    }
    assert(prefix@.take(m as int) == prefix@);
    true
}

/// The names of the variables that start with `starts_with`, which the
/// standalone entry point unsets so that the guest does not inherit them.
pub fn clean_environment_variables(vars: &Vec<(String, String)>, starts_with: &str) -> (r: Vec<
    String,
>)
    ensures
        strings_view(r@) == names_with_prefix(vars_view(vars@), starts_with@),
{
    let ghost vv = vars_view(vars@);
    let mut out: Vec<String> = Vec::new();
    let mut i: usize = 0;
    while i < vars.len()
        invariant
            i <= vars@.len(),
            vv == vars_view(vars@),
            strings_view(out@) == names_with_prefix(vv.take(i as int), starts_with@),
        decreases vars.len() - i,
    {
        let ghost before = out@;
        assert(vv.take(i + 1).drop_last() == vv.take(i as int));
        assert(vv.take(i + 1).last() == (vars@[i as int].0@, vars@[i as int].1@));
        if self::starts_with(vars[i].0.as_str(), starts_with) {
            out.push(vars[i].0.clone());
            assert(strings_view(out@) =~= strings_view(before).push(vars@[i as int].0@));
        }
        i = i + 1;
    }
    assert(vv.take(vars@.len() as int) == vv);
    out
}

/// The words of a whitespace-separated argument string.
pub fn str_explode_to_native_list(in_str: &str) -> (r: Vec<String>)
    ensures
        strings_view(r@) == words(in_str@),
{
    split_words(in_str)
}

pub open spec fn current_dir() -> Seq<char> {
    "."@
}

impl ProcExecRequest {
    /// The library request this describes: run in the current directory,
    /// streams inherited, no time or memory ceilings; the rlimit block and
    /// the seccomp toggles as given, a negative rlimit wrapping to the
    /// "unlimited" value.
    pub fn to_exec_request(&self) -> (r: (ExecProgInfo, ExecProgIO, ExecProgLimits, ExecProgGuard))
        ensures
            r.0.program_path@ == self.full_path@,
            r.0.program_args@ == self.arguments@,
            r.0.working_path@ == current_dir(),
            r.0.exec_as_user@ == self.runas_user@,
            !r.1.io_redirected,
            r.1.io_path_stdin@.len() == 0,
            r.1.io_path_stdout@.len() == 0,
            r.1.io_path_stderr@.len() == 0,
            !r.1.io_dup_err_out,
            r.2 == (ExecProgLimits {
                limit_real_time: 0,
                limit_proc_time: 0,
                limit_proc_wset: 0,
                rlimit_enabled: self.rlimit_enabled,
                rlimit_core: self.rlimit_core as u64,
                rlimit_nproc: self.rlimit_nproc as u64,
                rlimit_nofile: self.rlimit_nofile as u64,
            }),
            r.3 == (ExecProgGuard {
                scmp_enabled: self.scmp_enabled,
                scmp_deny_common: self.scmp_fs_guard,
                unshare_common: false,
                unshare_network: false,
            }),
    {
        let info = ExecProgInfo {
            program_path: self.full_path.clone(),
            program_args: self.arguments.clone(),
            working_path: String::from_str("."),
            exec_as_user: self.runas_user.clone(),
        };
        let io = ExecProgIO {
            io_redirected: false,
            io_path_stdin: String::new(),
            io_path_stdout: String::new(),
            io_path_stderr: String::new(),
            io_dup_err_out: false,
        };
        let limits = ExecProgLimits {
            limit_real_time: 0,
            limit_proc_time: 0,
            limit_proc_wset: 0,
            rlimit_enabled: self.rlimit_enabled,
            rlimit_core: self.rlimit_core as u64,
            rlimit_nproc: self.rlimit_nproc as u64,
            rlimit_nofile: self.rlimit_nofile as u64,
        };
        let guard = ExecProgGuard {
            scmp_enabled: self.scmp_enabled,
            scmp_deny_common: self.scmp_fs_guard,
            unshare_common: false,
            unshare_network: false,
        };
        (info, io, limits, guard)
    }
}

/// The exit status of the standalone entry point: the guest's own code on
/// a normal exit, otherwise the base plus the kill reason's tag (so an
/// abnormal end that no policy accounts for gives one less than the base).
pub open spec fn exit_status_of(r: ProcExecResult) -> i32 {
    if r.kill_reason == KillReason::NoKill {
        r.exit_code
    } else {
        (EXIT_CLASS_BASE + kill_reason_code(r.kill_reason)) as i32
    }
}

/// The exit status the standalone entry point ends with.
pub fn exit_status(r: &ProcExecResult) -> (s: i32)
    ensures
        s == exit_status_of(*r),
{
    if r.kill_reason == KillReason::NoKill {
        r.exit_code
    } else {
        EXIT_CLASS_BASE + r.kill_reason.code()
    }
}

} // verus!
