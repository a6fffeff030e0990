use aurish::error::ShellInitError;
use aurish::shell_kind::{classify_shell, contains, which_shell, ShellType};

#[test]
fn classifies_in_priority_order() {
    assert_eq!(classify_shell("/bin/bash"), ShellType::Bash);
    assert_eq!(classify_shell("/usr/bin/zsh"), ShellType::Zsh);
    assert_eq!(classify_shell("/usr/bin/fish"), ShellType::Fish);
    assert_eq!(classify_shell("/bin/ksh"), ShellType::Ksh);
    assert_eq!(classify_shell("/bin/zsh-bash"), ShellType::Bash);
    assert_eq!(classify_shell("/bin/dash"), ShellType::Unknown);
    assert_eq!(classify_shell(""), ShellType::Unknown);
}

#[test]
fn environment_decides_shell() {
    assert_eq!(which_shell(false, false, false, Some(String::from("/BIN/BASH"))), Ok(ShellType::Bash));
    assert_eq!(which_shell(false, true, true, Some(String::from("/bin/sh"))), Ok(ShellType::Unknown));
    assert_eq!(which_shell(false, true, true, None), Err(ShellInitError::ShellNotFound));
    assert_eq!(which_shell(true, true, true, None), Ok(ShellType::PowerShell));
    assert_eq!(which_shell(true, false, true, None), Ok(ShellType::Cmd));
    assert_eq!(which_shell(true, false, false, Some(String::from("bash"))), Err(ShellInitError::ShellNotFound));
}

#[test]
fn invocation_pairs() {
    assert_eq!(ShellType::Bash.invocation(), (String::from("sh"), String::from("-c")));
    assert_eq!(ShellType::PowerShell.invocation(), (String::from("powershell"), String::from("-Command")));
    assert_eq!(ShellType::Cmd.invocation(), (String::from("cmd"), String::from("/C")));
    assert_eq!(ShellType::Fish.invocation(), (String::from("fish"), String::from("-c")));
    assert_eq!(ShellType::Zsh.invocation(), (String::from("zsh"), String::from("-c")));
    assert_eq!(ShellType::Ksh.invocation(), (String::from("ksh"), String::from("-c")));
    assert_eq!(ShellType::Unknown.invocation(), (String::from("sh"), String::from("-c")));
}

#[test]
fn substring_search() {
    assert!(contains("abc", ""));
    assert!(contains("abc", "abc"));
    assert!(contains("xxabc", "bc"));
    assert!(!contains("ab", "abc"));
    assert!(!contains("acb", "ab"));
}

#[test]
fn error_messages() {
    assert_eq!(ShellInitError::ShellNotFound.message(), "Shell not found!");
    assert_eq!(
        ShellInitError::DirectoryError(String::from("x")).message(),
        "IShell directory error: x"
    );
}
