use aurish::error::ShellInitError;
use aurish::output::ShellOutput;
use aurish::session::{cd_target, trim_str, CommandStep, IShell};
use aurish::shell_kind::ShellType;

fn spawn_of(step: CommandStep) -> aurish::session::SpawnRequest {
    match step {
        CommandStep::Spawn(req) => req,
        CommandStep::Finished(_) => panic!("expected a process to run"),
    }
}

fn finished_of(step: CommandStep) -> ShellOutput {
    match step {
        CommandStep::Finished(out) => out,
        CommandStep::Spawn(_) => panic!("expected a finished command"),
    }
}

#[test]
fn true_command() {
    // The process itself is started by the caller (see app/); the library's part is the
    // request it hands out and the result it assembles from the process's answer.
    let mut shell = IShell::new(String::from("/"), ShellType::Bash);
    let req = spawn_of(shell.run_command("true"));
    assert_eq!(req.program, "sh");
    assert_eq!(req.flag, "-c");
    assert_eq!(req.command, "true");
    let result = ShellOutput::from_lines(Some(0), &vec![], &vec![]);
    assert!(result.is_success());
}

#[test]
fn false_command() {
    // The process itself is started by the caller (see app/); the library's part is the
    // request it hands out and the result it assembles from the process's answer.
    let mut shell = IShell::new(String::from("/"), ShellType::Bash);
    let req = spawn_of(shell.run_command("false"));
    assert_eq!(req.command, "false");
    let result = ShellOutput::from_lines(Some(1), &vec![], &vec![]);
    assert!(!result.is_success());
}

#[test]
fn echo_command() {
    // The process itself is started by the caller (see app/); the library's part is the
    // request it hands out and the result it assembles from the process's answer.
    let mut shell = IShell::new(String::from("/"), ShellType::Bash);
    let req = spawn_of(shell.run_command("echo \"Hello, World!\""));
    assert_eq!(req.command, "echo \"Hello, World!\"");
    let result = ShellOutput::from_lines(Some(0), &vec![String::from("Hello, World!")], &vec![]);
    let stdout_res = String::from_utf8(result.stdout).expect("Stdout contained invalid UTF-8!");
    assert_eq!(stdout_res, "Hello, World!");
}

#[test]
fn dir_doesnt_exist() {
    let mut shell = IShell::new(String::from("/"), ShellType::Bash);
    let current_dir = shell.current_directory();
    let res = finished_of(shell.run_command("cd directory_that_doesnt_exist"));
    let next_dir = shell.current_directory();
    assert!(!res.is_success());
    assert_eq!(current_dir, next_dir);
}

#[test]
fn missing_directory_reports_on_stderr() {
    let mut shell = IShell::new(String::from("/"), ShellType::Bash);
    let res = finished_of(shell.run_command("cd directory_that_doesnt_exist"));
    assert_eq!(res.code, Some(1));
    assert!(res.stdout.is_empty());
    assert_eq!(res.stderr, b"Specified directory does not exist!".to_vec());
}

#[test]
fn cd_into_existing_subdirectory() {
    let mut shell = IShell::new(String::from("/"), ShellType::Bash);
    let res = finished_of(shell.run_command("cd tmp"));
    assert_eq!(res.code, Some(0));
    assert!(res.stdout.is_empty());
    assert!(res.stderr.is_empty());
    assert_eq!(shell.current_directory(), "/tmp");
    assert_eq!(shell.initial_directory(), "/");
}

#[test]
fn spawn_runs_in_current_directory() {
    let mut shell = IShell::new(String::from("/"), ShellType::Zsh);
    finished_of(shell.run_command("  cd   tmp  "));
    let req = spawn_of(shell.run_command("pwd"));
    assert_eq!(req.program, "zsh");
    assert_eq!(req.flag, "-c");
    assert_eq!(req.command, "pwd");
    assert_eq!(req.dir, "/tmp");
    assert_eq!(shell.current_directory(), "/tmp");
}

#[test]
fn cd_round_trip_reaches_subdirectory() {
    let mut shell = IShell::from_path("/", "usr", ShellType::Bash).unwrap();
    assert_eq!(shell.current_directory(), "/usr");
    finished_of(shell.run_command("cd bin"));
    let req = spawn_of(shell.run_command("pwd"));
    assert!(req.dir.contains("/usr/bin"));
}

#[test]
fn forget_current_dir() {
    let mut shell = IShell::new(String::from("/"), ShellType::Bash);
    let pwd = spawn_of(shell.run_command("echo $PWD")).dir;
    finished_of(shell.run_command("cd tmp"));
    finished_of(shell.run_command("cd /usr"));
    assert_eq!(shell.current_directory(), "/usr");
    shell.forget_current_directory();
    let forgotten_pwd = spawn_of(shell.run_command("echo $PWD")).dir;
    assert_eq!(pwd, forgotten_pwd);
}

#[test]
fn relative_construct() {
    let mut main_shell = IShell::new(String::from("/"), ShellType::Bash);
    let moved = finished_of(main_shell.run_command("cd tmp"));
    assert!(moved.is_success());
    let target_shell = IShell::from_path("/", "tmp", ShellType::Bash).unwrap();
    assert_eq!(target_shell.current_directory(), main_shell.current_directory());
    assert_eq!(target_shell.initial_directory(), "/tmp");
}

#[test]
fn from_path_missing_directory_fails() {
    let res = IShell::from_path("/", "directory_that_doesnt_exist", ShellType::Bash);
    match res {
        Err(ShellInitError::DirectoryError(msg)) => {
            assert_eq!(
                msg,
                "Couldn't open shell at either of \"directory_that_doesnt_exist\" or \"/directory_that_doesnt_exist\""
            );
        }
        _ => panic!("expected a directory error"),
    }
}

#[test]
fn from_resolved_without_directory() {
    let res = IShell::from_resolved("/a", "b", None, ShellType::Bash);
    let err = match res {
        Err(e) => e,
        Ok(_) => panic!("expected an error"),
    };
    assert_eq!(
        err.message(),
        "IShell directory error: Couldn't open shell at either of \"b\" or \"/a/b\""
    );
    let ok = IShell::from_resolved("/a", "b", Some(String::from("/a/b")), ShellType::Fish).unwrap();
    assert_eq!(ok.initial_directory(), "/a/b");
    assert_eq!(ok.current_directory(), "/a/b");
    assert_eq!(ok.shell_type(), ShellType::Fish);
}

#[test]
fn apply_directory_change_both_ways() {
    let mut shell = IShell::new(String::from("/start"), ShellType::Bash);
    let out = shell.apply_directory_change(Some(String::from("/elsewhere")));
    assert_eq!(out.code, Some(0));
    assert_eq!(shell.current_directory(), "/elsewhere");
    let out = shell.apply_directory_change(None);
    assert_eq!(out.code, Some(1));
    assert!(!out.stderr.is_empty());
    assert_eq!(shell.current_directory(), "/elsewhere");
    assert_eq!(shell.initial_directory(), "/start");
}

#[test]
fn cd_is_a_leading_token_only() {
    assert_eq!(cd_target("cd"), Some(""));
    assert_eq!(cd_target("  cd  dir  "), Some("dir"));
    assert_eq!(cd_target("cd\t.."), Some(".."));
    assert_eq!(cd_target("cdx"), None);
    assert_eq!(cd_target("echo cd"), None);
    assert_eq!(cd_target("abcd dir"), None);
    let mut shell = IShell::new(String::from("/"), ShellType::Bash);
    let req = spawn_of(shell.run_command("cdx"));
    assert_eq!(req.command, "cdx");
}

#[test]
fn trims_whitespace() {
    assert_eq!(trim_str("  a b \t\n"), "a b");
    assert_eq!(trim_str(""), "");
    assert_eq!(trim_str("   "), "");
}

#[test]
fn spawn_failure_output() {
    let out = ShellOutput::spawn_failure("No such file or directory (os error 2)");
    assert_eq!(out.code, Some(-1));
    assert!(out.stdout.is_empty());
    assert_eq!(
        out.stderr,
        b"Error: No such file or directory (os error 2)".to_vec()
    );
    assert!(!out.is_success());
}

#[test]
fn dir_memory() {
    // Check for whether a change of directory is remembered, one level and then a
    // nested one, using directories every POSIX system has.
    let mut shell = IShell::new(String::from("/"), ShellType::Bash);
    let res = finished_of(shell.run_command("cd usr"));
    assert!(res.is_success());
    let req = spawn_of(shell.run_command("ls"));
    assert_eq!(req.dir, "/usr");

    let res = finished_of(shell.run_command("cd bin"));
    assert!(res.is_success());
    let req = spawn_of(shell.run_command("ls"));
    assert_eq!(req.dir, "/usr/bin");

    let res = finished_of(shell.run_command("cd .."));
    assert!(res.is_success());
    assert_eq!(shell.current_directory(), "/usr/bin/..");
    assert_eq!(shell.initial_directory(), "/");
}

#[test]
fn start_error_escapes_paths() {
    let res = IShell::from_resolved("/a", "x\"y\\z\n\u{1}", None, ShellType::Bash);
    let msg = match res {
        Err(ShellInitError::DirectoryError(msg)) => msg,
        _ => panic!("expected a directory error"),
    };
    let initial = "x\"y\\z\n\u{1}";
    let joined = "/a/x\"y\\z\n\u{1}";
    assert_eq!(
        msg,
        format!("Couldn't open shell at either of {:#?} or {:#?}", initial, std::path::Path::new(joined))
    );
    assert_eq!(
        msg,
        "Couldn't open shell at either of \"x\\\"y\\\\z\\n\\u{1}\" or \"/a/x\\\"y\\\\z\\n\\u{1}\""
    );
}

#[test]
fn start_error_uses_path_debug_text() {
    for name in ["\u{a0}", "it's", "e\u{301}", "plain"] {
        let msg = match IShell::from_resolved("/a", name, None, ShellType::Bash) {
            Err(ShellInitError::DirectoryError(msg)) => msg,
            _ => panic!("expected a directory error"),
        };
        let joined = format!("/a/{}", name);
        assert_eq!(
            msg,
            format!(
                "Couldn't open shell at either of {:#?} or {:#?}",
                std::path::Path::new(name),
                std::path::Path::new(&joined)
            )
        );
    }
    let msg = match IShell::from_resolved("/a", "plain", None, ShellType::Bash) {
        Err(ShellInitError::DirectoryError(msg)) => msg,
        _ => panic!("expected a directory error"),
    };
    assert_eq!(msg, "Couldn't open shell at either of \"plain\" or \"/a/plain\"");
}

#[test]
fn unicode_whitespace_around_cd() {
    assert_eq!(cd_target("\u{3000}cd\u{3000}dir\u{a0}"), Some("dir"));
    assert_eq!(cd_target("cd\u{2003}.."), Some(".."));
    assert_eq!(trim_str("\u{85}a\u{2029}"), "a");
}
