use vstd::prelude::*;
use vstd::string::StrSliceExecFns;
use vstd::string::StringExecFns;
use vstd::utf8::encode_utf8;

use crate::directory::{determine_new_directory, is_candidate, join_path, path_join};
use crate::error::{debug_of, path_debug, ShellInitError};
use crate::output::{captured, collect_output, ShellOutput};
use crate::shell_kind::{flag_of, program_of, ShellType};

verus! {

/// Whitespace as Unicode's `White_Space` property has it (what `char::is_whitespace`
/// and `str::trim` go by).
pub open spec fn is_ws(c: char) -> bool {
    let n = c as u32;
    (9 <= n && n <= 13) || n == 32 || n == 0x85 || n == 0xA0 || n == 0x1680 || (0x2000 <= n
        && n <= 0x200A) || n == 0x2028 || n == 0x2029 || n == 0x202F || n == 0x205F || n
        == 0x3000
}

/// `s` without its leading whitespace.
pub open spec fn trim_front(s: Seq<char>) -> Seq<char>
    decreases s.len(),
{
    if s.len() > 0 && is_ws(s[0]) {
        trim_front(s.drop_first())
    } else {
        s
    }
}

/// `s` without its trailing whitespace.
pub open spec fn trim_back(s: Seq<char>) -> Seq<char>
    decreases s.len(),
{
    if s.len() > 0 && is_ws(s.last()) {
        trim_back(s.drop_last())
    } else {
        s
    }
}

/// `s` without leading and trailing whitespace.
pub open spec fn trim(s: Seq<char>) -> Seq<char> {
    trim_back(trim_front(s))
}

/// The target of a directory change, where `command` is one: after trimming it starts
/// with the token `cd` (alone, or followed by whitespace), and the target is the
/// trimmed rest.
pub open spec fn cd_argument(command: Seq<char>) -> Option<Seq<char>> {
    let t = trim(command);
    if t.len() >= 2 && t[0] == 'c' && t[1] == 'd' && (t.len() == 2 || is_ws(t[2])) {
        Some(trim(t.subrange(2, t.len() as int)))
    } else {
        None
    }
}

/// The message put on standard error when a directory change finds no directory.
pub open spec fn missing_directory_message() -> Seq<char> {
    "Specified directory does not exist!"@
}

/// The standard error of a command whose interpreter could not be started.
pub open spec fn spawn_error_message(error: Seq<char>) -> Seq<char> {
    "Error: "@ + error
}

/// What a session remembers: where it started, where it is, and which interpreter it
/// drives.
pub struct SessionView {
    pub initial: Seq<char>,
    pub current: Seq<char>,
    pub shell: ShellType,
}

/// The session `s` moved to `dir`.
pub open spec fn moved_to(s: SessionView, dir: Seq<char>) -> SessionView {
    SessionView { current: dir, ..s }
}

/// The session `s` back at its starting directory.
pub open spec fn forgotten(s: SessionView) -> SessionView {
    SessionView { current: s.initial, ..s }
}

/// `b` has the starting directory and the interpreter of `a`: what every operation but
/// construction keeps.
pub open spec fn keeps_start(a: SessionView, b: SessionView) -> bool {
    b.initial == a.initial && b.shell == a.shell
}

/// A process the caller is asked to run: `program flag command`, started in `dir`, with
/// both output streams captured.
pub struct SpawnRequest {
    pub program: String,
    pub flag: String,
    pub command: String,
    pub dir: String,
}

/// `req` runs `command` with the interpreter of session `s`, in its current directory.
pub open spec fn asks_for(req: SpawnRequest, s: SessionView, command: Seq<char>) -> bool {
    req.program@ == program_of(s.shell) && req.flag@ == flag_of(s.shell) && req.command@
        == command && req.dir@ == s.current
}

/// A directory change to `target` succeeded: the session moved to a directory that
/// `target` names from where it was, and the command reports success with no output.
pub open spec fn changed_directory(
    before: SessionView,
    after: SessionView,
    target: Seq<char>,
    out: ShellOutput,
) -> bool {
    after == moved_to(before, after.current) && is_candidate(before.current, target, after.current)
        && out.code == Some(0i32) && out.stdout@.len() == 0 && out.stderr@.len() == 0
}

/// A directory change found no directory: the session stayed where it was, and the
/// command fails with code 1 and says so on standard error.
pub open spec fn directory_missing(before: SessionView, after: SessionView, out: ShellOutput) -> bool {
    after == before && out.code == Some(1i32) && out.stdout@.len() == 0 && out.stderr@
        == encode_utf8(missing_directory_message())
}

/// What a session does with a command: it is already finished (a directory change), or
/// a process must be run.
pub enum CommandStep {
    Finished(ShellOutput),
    Spawn(SpawnRequest),
}

/// A shell session that remembers its working directory across commands, each of which
/// runs in a process of its own. Directory changes and process requests take the session
/// by `&mut`, so callers that share one session serialize its use (behind a lock, say)
/// and a process always starts from a settled directory.
pub struct IShell {
    initial_dir: String,
    current_dir: String,
    shell_type: ShellType,
}

impl View for IShell {
    type V = SessionView;

    closed spec fn view(&self) -> SessionView {
        SessionView {
            initial: self.initial_dir@,
            current: self.current_dir@,
            shell: self.shell_type,
        }
    }
}

/// Whether `c` is whitespace.
fn ws(c: char) -> (r: bool)
    ensures
        r == is_ws(c),
{
    let n = c as u32;
    (9 <= n && n <= 13) || n == 32 || n == 0x85 || n == 0xA0 || n == 0x1680 || (0x2000 <= n
        && n <= 0x200A) || n == 0x2028 || n == 0x2029 || n == 0x202F || n == 0x205F || n
        == 0x3000
}

/// `s` without leading and trailing whitespace.
pub fn trim_str(s: &str) -> (r: &str)
    ensures
        r@ == trim(s@),
{
    let n = s.unicode_len();
    let mut lo: usize = 0;
    assert(s@.subrange(0, n as int) =~= s@);
    while lo < n && ws(s.get_char(lo))
        invariant
            n == s@.len(),
            lo <= n,
            trim_front(s@.subrange(lo as int, n as int)) == trim_front(s@),
        decreases n - lo,
    {
        assert(s@.subrange(lo as int, n as int).drop_first() =~= s@.subrange(lo + 1, n as int));
        lo = lo + 1;
    }
    assert(trim_front(s@) == s@.subrange(lo as int, n as int));
    let mut hi: usize = n;
    while hi > lo && ws(s.get_char(hi - 1))
        invariant
            n == s@.len(),
            lo <= hi <= n,
            trim_back(s@.subrange(lo as int, hi as int)) == trim(s@),
        decreases hi - lo,
    {
        assert(s@.subrange(lo as int, hi as int).drop_last() =~= s@.subrange(
            lo as int,
            hi - 1,
        ));
        hi = hi - 1;
    }
    s.substring_char(lo, hi)
}

/// The target of a directory change, where `command` is one.
pub fn cd_target(command: &str) -> (r: Option<&str>)
    ensures
        match r {
            Some(t) => cd_argument(command@) == Some(t@),
            None => cd_argument(command@) is None,
        },
{
    let t = trim_str(command);
    let n = t.unicode_len();
    if n >= 2 && t.get_char(0) == 'c' && t.get_char(1) == 'd' && (n == 2 || ws(t.get_char(2))) {
        let rest = t.substring_char(2, n);
        Some(trim_str(rest))
    } else {
        None
    }
}

/// The bytes of a text.
fn text_bytes(s: &str) -> (r: Vec<u8>)
    ensures
        r@ == encode_utf8(s@),
{
    s.as_bytes_vec()
}

impl ShellOutput {
    /// The result of a command whose process ran: its exit status and the lines captured
    /// from each stream, joined by newlines.
    pub fn from_lines(code: Option<i32>, stdout: &Vec<String>, stderr: &Vec<String>) -> (r:
        ShellOutput)
        ensures
            r.code == code,
            r.stdout@ == captured(stdout@),
            r.stderr@ == captured(stderr@),
    {
        ShellOutput { code, stdout: collect_output(stdout), stderr: collect_output(stderr) }
    }

    /// The result of a command whose interpreter could not be started: the sentinel code
    /// `-1` and the error text on standard error.
    pub fn spawn_failure(error: &str) -> (r: ShellOutput)
        ensures
            r.code == Some(-1i32),
            r.stdout@.len() == 0,
            r.stderr@ == encode_utf8(spawn_error_message(error@)),
    {
        let text = String::from_str("Error: ").concat(error);
        ShellOutput { code: Some(-1), stdout: Vec::new(), stderr: text_bytes(text.as_str()) }
    }
}

impl IShell {
    /// A session that starts in `current_dir`, the directory the process runs in, and
    /// drives `shell_type`.
    pub fn new(current_dir: String, shell_type: ShellType) -> (r: IShell)
        ensures
            r@.initial == current_dir@,
            r@.current == current_dir@,
            r@.shell == shell_type,
    {
        IShell { initial_dir: current_dir.clone(), current_dir, shell_type }
    }

    /// A session that starts in the directory `initial_dir` names when read from
    /// `current_dir`, the directory the process runs in, once that directory has been
    /// looked up (`resolved`).
    pub fn from_resolved(
        current_dir: &str,
        initial_dir: &str,
        resolved: Option<String>,
        shell_type: ShellType,
    ) -> (r: Result<IShell, ShellInitError>)
        ensures
            match resolved {
                Some(p) => r is Ok && r->Ok_0@ == (SessionView {
                    initial: p@,
                    current: p@,
                    shell: shell_type,
                }),
                None => r is Err && r->Err_0 is DirectoryError && r->Err_0->DirectoryError_0@
                    == unresolved_message(initial_dir@, path_join(current_dir@, initial_dir@)),
            },
    {
        match resolved {
            Some(p) => Ok(IShell::new(p, shell_type)),
            None => {
                let joined = join_path(current_dir, initial_dir);
                let msg = String::from_str("Couldn't open shell at either of ").concat(
                    path_debug(initial_dir).as_str(),
                ).concat(" or ").concat(path_debug(joined.as_str()).as_str());
                Err(ShellInitError::DirectoryError(msg))
            },
        }
    }

    /// A session that starts in the directory `initial_dir` names when read from
    /// `current_dir`, the directory the process runs in: the two joined if that is a
    /// directory, else `initial_dir` with a leading `~` expanded. Fails with a directory
    /// error where neither is a directory.
    pub fn from_path(current_dir: &str, initial_dir: &str, shell_type: ShellType) -> (r: Result<
        IShell,
        ShellInitError,
    >)
        ensures
            match r {
                Ok(s) => s@.initial == s@.current && s@.shell == shell_type && is_candidate(
                    current_dir@,
                    initial_dir@,
                    s@.initial,
                ),
                Err(e) => e is DirectoryError && e->DirectoryError_0@ == unresolved_message(
                    initial_dir@,
                    path_join(current_dir@, initial_dir@),
                ),
            },
    {
        let resolved = determine_new_directory(current_dir, initial_dir);
        IShell::from_resolved(current_dir, initial_dir, resolved, shell_type)
    }

    /// Moves the session to the directory a change was resolved to, or reports that none
    /// was found. No process is involved either way.
    pub fn apply_directory_change(&mut self, resolved: Option<String>) -> (r: ShellOutput)
        ensures
            match resolved {
                Some(p) => final(self)@ == moved_to(old(self)@, p@) && r.code == Some(0i32)
                    && r.stdout@.len() == 0 && r.stderr@.len() == 0,
                None => directory_missing(old(self)@, final(self)@, r),
            },
    {
        match resolved {
            Some(p) => {
                self.current_dir = p;
                ShellOutput { code: Some(0), stdout: Vec::new(), stderr: Vec::new() }
            },
            None => ShellOutput {
                code: Some(1),
                stdout: Vec::new(),
                stderr: text_bytes("Specified directory does not exist!"),
            },
        }
    }

    /// Runs the first part of a command. A directory change (`cd target`) is carried out
    /// here, against the session's directory, and finishes without any process; any other
    /// command comes back as the process to run: the session's interpreter with its flag
    /// and the command verbatim, in the session's current directory.
    pub fn run_command(&mut self, command: &str) -> (r: CommandStep)
        ensures
            keeps_start(old(self)@, final(self)@),
            match cd_argument(command@) {
                None => final(self)@ == old(self)@ && r is Spawn && asks_for(
                    r->Spawn_0,
                    old(self)@,
                    command@,
                ),
                Some(t) => r is Finished && (changed_directory(
                    old(self)@,
                    final(self)@,
                    t,
                    r->Finished_0,
                ) || directory_missing(old(self)@, final(self)@, r->Finished_0)),
            },
    {
        match cd_target(command) {
            Some(target) => {
                let resolved = determine_new_directory(self.current_dir.as_str(), target);
                CommandStep::Finished(self.apply_directory_change(resolved))
            },
            None => {
                let (program, flag) = self.shell_type.invocation();
                CommandStep::Spawn(
                    SpawnRequest {
                        program,
                        flag,
                        command: String::from_str(command),
                        dir: self.current_dir.clone(),
                    },
                )
            },
        }
    }

    /// Goes back to the directory the session started in.
    pub fn forget_current_directory(&mut self)
        ensures
            final(self)@ == forgotten(old(self)@),
    {
        self.current_dir = self.initial_dir.clone();
    }

    /// The directory the session is in.
    pub fn current_directory(&self) -> (r: String)
        ensures
            r@ == self@.current,
    {
        self.current_dir.clone()
    }

    /// The directory the session started in.
    pub fn initial_directory(&self) -> (r: String)
        ensures
            r@ == self@.initial,
    {
        self.initial_dir.clone()
    }

    /// The interpreter the session drives.
    pub fn shell_type(&self) -> (r: ShellType)
        ensures
            r == self@.shell,
    {
        self.shell_type
    }
}

/// The message of the error returned when a starting directory cannot be found.
pub open spec fn unresolved_message(initial: Seq<char>, joined: Seq<char>) -> Seq<char> {
    "Couldn't open shell at either of "@ + debug_of(initial) + " or "@ + debug_of(joined)
}

/// Forgetting the current directory, after any number of operations that keep the start
/// of a freshly built session, brings it back to the directory it was built in.
pub proof fn lemma_forget_restores(states: Seq<SessionView>)
    requires
        states.len() > 0,
        states[0].initial == states[0].current,
        forall|i: int| 0 <= i < states.len() - 1 ==> keeps_start(states[i], #[trigger] states[i + 1]),
    ensures
        forgotten(states.last()).current == states[0].current,
        keeps_start(states[0], forgotten(states.last())),
    decreases states.len(),
{
    if states.len() > 1 {
        let shorter = states.drop_last();
        assert forall|i: int| 0 <= i < shorter.len() - 1 implies keeps_start(
            shorter[i],
            #[trigger] shorter[i + 1],
        ) by {
            assert(keeps_start(states[i], states[i + 1]));
        }
        lemma_forget_restores(shorter);
        let k = states.len() - 2;
        assert(keeps_start(states[k], states[k + 1]));
        assert(shorter.last() == states[k]);
    }
}

/// Changing into a relative subdirectory `sub` of a session's directory `d` (one not
/// ending in a separator) leaves the session in `d/sub`, which is where the next
/// command's process is started.
pub proof fn lemma_cd_round_trip(before: SessionView, sub: Seq<char>)
    requires
        before.current.len() > 0,
        before.current.last() != '/',
        !(sub.len() > 0 && sub[0] == '/'),
    ensures
        moved_to(before, path_join(before.current, sub)).current == before.current + seq!['/']
            + sub,
        keeps_start(before, moved_to(before, path_join(before.current, sub))),
{
}

} // verus!
