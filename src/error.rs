use vstd::prelude::*;
use vstd::string::StringExecFns;

verus! {

/// Why a session could not be constructed.
#[derive(Debug, PartialEq, Eq)]
pub enum ShellInitError {
    /// No candidate interpretation of the requested starting directory names an existing
    /// directory; the text says which paths were tried.
    DirectoryError(String),
    /// The environment names no command interpreter this library can drive.
    ShellNotFound,
}

/// The prefix of every directory error's message.
pub open spec fn directory_error_prefix() -> Seq<char> {
    "IShell directory error: "@
}

/// The message shown for `ShellNotFound`.
pub open spec fn shell_not_found_message() -> Seq<char> {
    "Shell not found!"@
}

impl ShellInitError {
    /// The human-readable description of the error.
    pub open spec fn message_of(&self) -> Seq<char> {
        match self {
            ShellInitError::DirectoryError(m) => directory_error_prefix() + m@,
            ShellInitError::ShellNotFound => shell_not_found_message(),
        }
    }

    /// Renders the error as text.
    pub fn message(&self) -> (r: String)
        ensures
            r@ == self.message_of(),
    {
        match self {
            ShellInitError::DirectoryError(m) => {
                let prefix = String::from_str("IShell directory error: ");
                prefix.concat(m.as_str())
            },
            ShellInitError::ShellNotFound => String::from_str("Shell not found!"),
        }
    }
}

/// What `Debug` makes of a path given as text: the text between double quotes, with
/// every character that `Debug` escapes written as its escape.
pub uninterp spec fn debug_of(s: Seq<char>) -> Seq<char>;

/// Relies on the `Debug` formatting of `std::path::Path` (what `{:?}` and `{:#?}` print
/// for a path): the result depends on the characters of the path alone.
#[verifier::external_body]
pub(crate) fn path_debug(s: &str) -> (r: String)
    ensures
        r@ == debug_of(s@),
{
    format!("{:?}", std::path::Path::new(s))
}

} // verus!
