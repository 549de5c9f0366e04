use limtrac::request::{ExecProgIO, ExecProgInfo};

fn info(path: &str, args: &str) -> ExecProgInfo {
    ExecProgInfo {
        program_path: path.to_string(),
        program_args: args.to_string(),
        working_path: "/tmp".to_string(),
        exec_as_user: String::new(),
    }
}

fn io(redirected: bool, stdin: &str, stdout: &str, stderr: &str, dup: bool) -> ExecProgIO {
    ExecProgIO {
        io_redirected: redirected,
        io_path_stdin: stdin.to_string(),
        io_path_stdout: stdout.to_string(),
        io_path_stderr: stderr.to_string(),
        io_dup_err_out: dup,
    }
}

#[test]
fn program_path_to_directory_is_refused() {
    let i = info("/bin", "");
    // The caller found that the path is not a regular file.
    assert!(!i.verify(false, true));
}

#[test]
fn working_path_must_be_directory() {
    let i = info("/bin/true", "");
    assert!(i.verify(true, true));
    assert!(!i.verify(true, false));
}

#[test]
fn nul_in_strings_is_refused() {
    let mut i = info("/bin/true", "a\0b");
    assert!(!i.verify(true, true));
    i.program_args = "ab".to_string();
    i.exec_as_user = "no\0body".to_string();
    assert!(!i.verify(true, true));
}

#[test]
fn validation_is_idempotent() {
    let i = info("/bin/echo", "hi");
    assert_eq!(i.verify(true, true), i.verify(true, true));
    let o = io(true, "", "out.txt", "", true);
    assert_eq!(o.verify(false), o.verify(false));
}

#[test]
fn io_not_redirected_is_always_valid() {
    assert!(io(false, "", "", "", true).verify(false));
}

#[test]
fn io_needs_some_path() {
    assert!(!io(true, "", "", "", false).verify(true));
}

#[test]
fn io_dup_needs_stdout_and_no_stderr() {
    assert!(io(true, "", "out.txt", "", true).verify(false));
    assert!(!io(true, "", "out.txt", "err.txt", true).verify(false));
    assert!(!io(true, "in.txt", "", "", true).verify(true));
}

#[test]
fn io_stdin_must_be_file() {
    assert!(!io(true, "in.txt", "", "", false).verify(false));
    assert!(io(true, "in.txt", "", "", false).verify(true));
}

#[test]
fn argv_empty_arguments_gives_one_element() {
    let v = info("/bin/true", "").get_cstring_argv_vec();
    assert_eq!(v, vec!["true".to_string()]);
}

#[test]
fn argv_splits_on_whitespace() {
    let v = info("/usr/bin/sleep", "  10\t 20\n").get_cstring_argv_vec();
    assert_eq!(v, vec!["sleep".to_string(), "10".to_string(), "20".to_string()]);
}

#[test]
fn argv_of_path_without_slash() {
    let v = info("prog", "a").get_cstring_argv_vec();
    assert_eq!(v, vec!["prog".to_string(), "a".to_string()]);
}
