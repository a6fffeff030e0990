use vstd::prelude::*;
use vstd::string::StrSliceExecFns;
use vstd::utf8::encode_utf8;

verus! {

/// What a command run through a session produced.
pub struct ShellOutput {
    /// Exit code of the process; `None` when it ended without one (killed by a signal).
    pub code: Option<i32>,
    /// Captured standard output.
    pub stdout: Vec<u8>,
    /// Captured standard error.
    pub stderr: Vec<u8>,
}

/// The byte that separates captured lines.
pub const NEWLINE: u8 = 10;

/// The lines joined into one byte sequence, with a newline between two lines and none
/// after the last.
pub open spec fn join_lines(lines: Seq<Seq<u8>>) -> Seq<u8>
    decreases lines.len(),
{
    if lines.len() == 0 {
        Seq::empty()
    } else if lines.len() == 1 {
        lines[0]
    } else {
        join_lines(lines.drop_last()) + seq![NEWLINE] + lines.last()
    }
}

/// The UTF-8 bytes of each captured line.
pub open spec fn line_bytes(lines: Seq<String>) -> Seq<Seq<u8>> {
    lines.map_values(|l: String| encode_utf8(l@))
}

/// Everything captured from one stream: its lines joined by newlines.
pub open spec fn captured(lines: Seq<String>) -> Seq<u8> {
    join_lines(line_bytes(lines))
}

/// Where line `i` starts in the joined bytes: after every earlier line and its newline.
pub open spec fn line_start(lines: Seq<Seq<u8>>, i: int) -> int
    decreases i,
{
    if i <= 0 {
        0
    } else {
        line_start(lines, i - 1) + lines[i - 1].len() + 1
    }
}

/// `line_start` depends only on the lines before `i`.
proof fn lemma_line_start_prefix(lines: Seq<Seq<u8>>, shorter: Seq<Seq<u8>>, i: int)
    requires
        0 <= i <= shorter.len() <= lines.len(),
        forall|j: int| 0 <= j < shorter.len() ==> shorter[j] == lines[j],
    ensures
        line_start(shorter, i) == line_start(lines, i),
    decreases i,
{
    if i > 0 {
        lemma_line_start_prefix(lines, shorter, i - 1);
    }
}

/// No line starts before the first.
proof fn lemma_line_start_nonneg(lines: Seq<Seq<u8>>, i: int)
    ensures
        line_start(lines, i) >= 0,
    decreases i,
{
    if i > 0 {
        lemma_line_start_nonneg(lines, i - 1);
    }
}

/// A line ends no later than any later line.
proof fn lemma_line_end_monotone(lines: Seq<Seq<u8>>, i: int, k: int)
    requires
        0 <= i <= k < lines.len(),
    ensures
        line_start(lines, i) + lines[i].len() <= line_start(lines, k) + lines[k].len(),
    decreases k - i,
{
    if i < k {
        lemma_line_end_monotone(lines, i + 1, k);
    }
}

/// Joining loses nothing and keeps the order: each line stands whole at its place in
/// the result, a newline follows every line but the last, and nothing comes after the
/// last line.
pub proof fn lemma_join_keeps_every_line(lines: Seq<Seq<u8>>)
    requires
        lines.len() > 0,
    ensures
        join_lines(lines).len() == line_start(lines, lines.len() - 1) + lines.last().len(),
        forall|i: int|
            0 <= i < lines.len() ==> #[trigger] join_lines(lines).subrange(
                line_start(lines, i),
                line_start(lines, i) + lines[i].len(),
            ) == lines[i],
        forall|i: int|
            0 <= i < lines.len() - 1 ==> #[trigger] join_lines(lines)[line_start(lines, i)
                + lines[i].len()] == NEWLINE,
    decreases lines.len(),
{
    let n = lines.len() as int;
    if n == 1 {
        assert(join_lines(lines).subrange(0, lines[0].len() as int) =~= lines[0]);
    } else {
        let init = lines.drop_last();
        lemma_join_keeps_every_line(init);
        let head = join_lines(init);
        let whole = join_lines(lines);
        assert(whole == head + seq![NEWLINE] + lines.last());
        lemma_line_start_prefix(lines, init, n - 2);
        lemma_line_start_prefix(lines, init, n - 1);
        assert forall|i: int| 0 <= i < n implies #[trigger] whole.subrange(
            line_start(lines, i),
            line_start(lines, i) + lines[i].len(),
        ) == lines[i] by {
            lemma_line_start_nonneg(lines, i);
            if i < n - 1 {
                lemma_line_start_prefix(lines, init, i);
                lemma_line_end_monotone(init, i, n - 2);
                assert(init[i] == lines[i]);
                assert(head.len() == line_start(init, n - 2) + init[n - 2].len());
                assert(head.subrange(line_start(init, i), line_start(init, i) + init[i].len())
                    == init[i]);
                assert(whole.subrange(line_start(lines, i), line_start(lines, i) + lines[i].len())
                    =~= head.subrange(line_start(init, i), line_start(init, i) + init[i].len()));
            } else {
                assert(whole.subrange(line_start(lines, i), line_start(lines, i) + lines[i].len())
                    =~= lines.last());
            }
        }
        assert forall|i: int| 0 <= i < n - 1 implies #[trigger] whole[line_start(lines, i)
            + lines[i].len()] == NEWLINE by {
            lemma_line_start_nonneg(lines, i);
            assert(head.len() == line_start(init, n - 2) + init[n - 2].len());
            if i < n - 2 {
                assert(init[i] == lines[i]);
                lemma_line_start_prefix(lines, init, i);
                lemma_line_end_monotone(init, i, n - 2);
                lemma_line_end_monotone(init, i + 1, n - 2);
                assert(head[line_start(init, i) + init[i].len()] == NEWLINE);
                assert(whole[line_start(lines, i) + lines[i].len()] == head[line_start(init, i)
                    + init[i].len()]);
            } else {
                assert(line_start(lines, i) + lines[i].len() == head.len());
            }
        }
    }
}

impl ShellOutput {
    /// The single success signal: an exit code of zero.
    pub open spec fn succeeded(&self) -> bool {
        self.code == Some(0i32)
    }

    /// True exactly when the command exited with code zero.
    pub fn is_success(&self) -> (r: bool)
        ensures
            r == self.succeeded(),
    {
        match self.code {
            Some(c) => c == 0,
            None => false,
        }
    }
}

/// Joins the lines read from one stream into the bytes handed to the caller.
pub fn collect_output(lines: &Vec<String>) -> (r: Vec<u8>)
    ensures
        r@ == captured(lines@),
{
    let mut out: Vec<u8> = Vec::new();
    let mut i: usize = 0;
    while i < lines.len()
        invariant
            i <= lines@.len(),
            out@ == captured(lines@.subrange(0, i as int)),
        decreases lines@.len() - i,
    {
        let mut bytes = lines[i].as_str().as_bytes_vec();
        if i > 0 {
            out.push(NEWLINE);
        }
        out.append(&mut bytes);
        proof {
            let pre = lines@.subrange(0, i as int);
            let post = lines@.subrange(0, i + 1);
            assert(post.drop_last() =~= pre);
            assert(line_bytes(post).drop_last() =~= line_bytes(pre));
            if i == 0 {
                assert(line_bytes(pre) =~= Seq::<Seq<u8>>::empty());
            }
        }
        i = i + 1;
    }
    assert(lines@.subrange(0, lines@.len() as int) =~= lines@);
    out
}

} // verus!
