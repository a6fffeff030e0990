use vstd::prelude::*;
use vstd::string::StrSliceExecFns;
use vstd::string::StringExecFns;

use crate::error::ShellInitError;

verus! {

/// The command interpreters a session can drive.
#[derive(Debug, Clone, Copy, PartialEq, Eq, Structural)]
pub enum ShellType {
    PowerShell,
    Cmd,
    Bash,
    Fish,
    Zsh,
    Ksh,
    Unknown,
}

/// What `str::to_lowercase` makes of a string.
pub uninterp spec fn lower_of(s: Seq<char>) -> Seq<char>;

/// Relies on `str::to_lowercase`: the lowercase form of `s`, which depends on its
/// characters alone.
#[verifier::external_body]
fn lowercase(s: &str) -> (r: String)
    ensures
        r@ == lower_of(s@),
{
    s.to_lowercase()
}

/// `needle` occurs in `hay` as a contiguous run of characters.
pub open spec fn has_substring(hay: Seq<char>, needle: Seq<char>) -> bool {
    exists|i: int|
        0 <= i && i + needle.len() <= hay.len() && #[trigger] hay.subrange(i, i + needle.len())
            == needle
}

/// Whether `needle` matches `hay` at character position `at`.
fn matches_at(hay: &str, hay_len: usize, needle: &str, needle_len: usize, at: usize) -> (r: bool)
    requires
        hay_len == hay@.len(),
        needle_len == needle@.len(),
        at + needle_len <= hay_len,
    ensures
        r == (hay@.subrange(at as int, at + needle_len) == needle@),
{
    let mut k: usize = 0;
    while k < needle_len
        invariant
            k <= needle_len,
            hay_len == hay@.len(),
            needle_len == needle@.len(),
            at + needle_len <= hay_len,
            forall|j: int| 0 <= j < k ==> hay@[at + j] == needle@[j],
        decreases needle_len - k,
    {
        if hay.get_char(at + k) != needle.get_char(k) {
            assert(hay@.subrange(at as int, at + needle_len)[k as int] != needle@[k as int]);
            return false;
        }
        k = k + 1;
    }
    assert(hay@.subrange(at as int, at + needle_len) =~= needle@);
    true
}

/// Whether `needle` occurs anywhere in `hay`.
pub fn contains(hay: &str, needle: &str) -> (r: bool)
    ensures
        r == has_substring(hay@, needle@),
{
    let hay_len = hay.unicode_len();
    let needle_len = needle.unicode_len();
    if needle_len > hay_len {
        return false;
    }
    let last = hay_len - needle_len;
    let mut at: usize = 0;
    loop
        invariant
            hay_len == hay@.len(),
            needle_len == needle@.len(),
            last == hay_len - needle_len,
            at <= last,
            forall|i: int|
                0 <= i < at ==> #[trigger] hay@.subrange(i, i + needle_len) != needle@,
        decreases last - at,
    {
        if matches_at(hay, hay_len, needle, needle_len, at) {
            return true;
        }
        if at == last {
            return false;
        }
        at = at + 1;
    }
}

/// The shell kind named by a lowercased `SHELL` value: the first of `bash`, `zsh`,
/// `fish`, `ksh` that occurs in it, else `Unknown`.
pub open spec fn kind_of_shell_name(lowered: Seq<char>) -> ShellType {
    if has_substring(lowered, "bash"@) {
        ShellType::Bash
    } else if has_substring(lowered, "zsh"@) {
        ShellType::Zsh
    } else if has_substring(lowered, "fish"@) {
        ShellType::Fish
    } else if has_substring(lowered, "ksh"@) {
        ShellType::Ksh
    } else {
        ShellType::Unknown
    }
}

/// Classifies an already lowercased `SHELL` value.
pub fn classify_shell(lowered: &str) -> (r: ShellType)
    ensures
        r == kind_of_shell_name(lowered@),
{
    if contains(lowered, "bash") {
        ShellType::Bash
    } else if contains(lowered, "zsh") {
        ShellType::Zsh
    } else if contains(lowered, "fish") {
        ShellType::Fish
    } else if contains(lowered, "ksh") {
        ShellType::Ksh
    } else {
        ShellType::Unknown
    }
}

/// The shell kind selected by the environment, or `None` where the environment names
/// no interpreter. On Windows a PowerShell module path selects PowerShell, else a
/// command processor selects Cmd; elsewhere the `SHELL` value is classified.
pub open spec fn shell_of_environment(
    is_windows: bool,
    has_ps_module_path: bool,
    has_comspec: bool,
    shell: Option<Seq<char>>,
) -> Option<ShellType> {
    if is_windows {
        if has_ps_module_path {
            Some(ShellType::PowerShell)
        } else if has_comspec {
            Some(ShellType::Cmd)
        } else {
            None
        }
    } else {
        match shell {
            Some(s) => Some(kind_of_shell_name(lower_of(s))),
            None => None,
        }
    }
}

/// The view of an optional string.
pub open spec fn opt_view(s: Option<String>) -> Option<Seq<char>> {
    match s {
        Some(v) => Some(v@),
        None => None,
    }
}

/// Decides which interpreter a session drives, from what the environment holds: whether
/// this is Windows, whether `PSModulePath` and `COMSPEC` are set, and the value of `SHELL`.
pub fn which_shell(
    is_windows: bool,
    has_ps_module_path: bool,
    has_comspec: bool,
    shell: Option<String>,
) -> (r: Result<ShellType, ShellInitError>)
    ensures
        match shell_of_environment(is_windows, has_ps_module_path, has_comspec, opt_view(shell)) {
            Some(t) => r == Ok::<ShellType, ShellInitError>(t),
            None => r == Err::<ShellType, ShellInitError>(ShellInitError::ShellNotFound),
        },
{
    if is_windows {
        if has_ps_module_path {
            Ok(ShellType::PowerShell)
        } else if has_comspec {
            Ok(ShellType::Cmd)
        } else {
            Err(ShellInitError::ShellNotFound)
        }
    } else {
        match shell {
            Some(s) => {
                let lowered = lowercase(s.as_str());
                Ok(classify_shell(lowered.as_str()))
            },
            None => Err(ShellInitError::ShellNotFound),
        }
    }
}

/// The interpreter binary run for each command of a session of this kind. An `Unknown`
/// shell falls back to the POSIX `sh`.
pub open spec fn program_of(t: ShellType) -> Seq<char> {
    match t {
        ShellType::PowerShell => "powershell"@,
        ShellType::Cmd => "cmd"@,
        ShellType::Fish => "fish"@,
        ShellType::Zsh => "zsh"@,
        ShellType::Ksh => "ksh"@,
        ShellType::Bash | ShellType::Unknown => "sh"@,
    }
}

/// The flag that makes the interpreter run its next argument as one command.
pub open spec fn flag_of(t: ShellType) -> Seq<char> {
    match t {
        ShellType::PowerShell => "-Command"@,
        ShellType::Cmd => "/C"@,
        _ => "-c"@,
    }
}

impl ShellType {
    /// The interpreter binary and its single-command flag.
    pub fn invocation(&self) -> (r: (String, String))
        ensures
            r.0@ == program_of(*self),
            r.1@ == flag_of(*self),
    {
        match self {
            ShellType::PowerShell => (String::from_str("powershell"), String::from_str("-Command")),
            ShellType::Cmd => (String::from_str("cmd"), String::from_str("/C")),
            ShellType::Fish => (String::from_str("fish"), String::from_str("-c")),
            ShellType::Zsh => (String::from_str("zsh"), String::from_str("-c")),
            ShellType::Ksh => (String::from_str("ksh"), String::from_str("-c")),
            ShellType::Bash | ShellType::Unknown => (String::from_str("sh"), String::from_str("-c")),
        }
    }
}

} // verus!
