//! The build executor's verified half: splitting captured output into
//! lines and classifying a finished build.  The unverified shell spawns
//! the configured command, waits for it, and hands the captured bytes
//! and exit status in; everything decided about them is decided here.

use vstd::prelude::*;
use vstd::slice::{slice_subrange, slice_to_vec};

verus! {

/// The index of the first line feed in `s`, or `s.len()` if there is
/// none.
pub open spec fn line_break(s: Seq<u8>) -> int
    decreases s.len(),
{
    if s.len() == 0 {
        0
    } else if s[0] == 10 {
        0
    } else {
        1 + line_break(s.skip(1))
    }
}

/// `line_break` really is the position of the first line feed: it stays
/// within bounds, nothing before it is a line feed, and it lands on a
/// line feed whenever one exists.
pub proof fn lemma_line_break_first(s: Seq<u8>)
    ensures
        0 <= line_break(s) <= s.len(),
        forall|j: int| 0 <= j < line_break(s) ==> s[j] != 10,
        line_break(s) < s.len() ==> s[line_break(s)] == 10,
    decreases s.len(),
{
    if s.len() != 0 && s[0] != 10 {
        lemma_line_break_first(s.skip(1));
        assert(forall|j: int| 1 <= j < line_break(s) ==> s[j] == s.skip(1)[j - 1]);
    }
}

/// Conversely, an index before which no line feed stands, and which is
/// the length or a line feed itself, is `line_break`.
pub proof fn lemma_line_break_at(s: Seq<u8>, m: int)
    requires
        0 <= m <= s.len(),
        forall|j: int| 0 <= j < m ==> s[j] != 10,
        m < s.len() ==> s[m] == 10,
    ensures
        line_break(s) == m,
    decreases s.len(),
{
    if s.len() != 0 && s[0] != 10 {
        assert(m != 0);
        lemma_line_break_at(s.skip(1), m - 1);
    }
}

/// The newline-delimited lines of `s`: the byte runs between line
/// feeds.  A line feed ends the line before it; in particular a
/// trailing line feed closes the last line rather than opening an empty
/// one, so `"a\nb\n"` has exactly the two lines `"a"` and `"b"`.
pub open spec fn lines_of(s: Seq<u8>) -> Seq<Seq<u8>>
    decreases s.len(),
    via lines_of_decreases
{
    if s.len() == 0 {
        Seq::empty()
    } else {
        let b = line_break(s);
        if b == s.len() {
            seq![s]
        } else {
            seq![s.take(b)] + lines_of(s.skip(b + 1))
        }
    }
}

#[via_fn]
proof fn lines_of_decreases(s: Seq<u8>) {
    lemma_line_break_first(s);
}

/// The views of a sequence of byte vectors.
pub open spec fn views_of(vs: Seq<Vec<u8>>) -> Seq<Seq<u8>> {
    vs.map_values(|v: Vec<u8>| v@)
}

/// An owned copy of `s[a..b]`.
fn copy_range(s: &Vec<u8>, a: usize, b: usize) -> (r: Vec<u8>)
    requires
        a <= b <= s@.len(),
    ensures
        r@ == s@.subrange(a as int, b as int),
{
    slice_to_vec(slice_subrange(s.as_slice(), a, b))
}

/// Splits captured output into its newline-delimited lines, exactly the
/// lines of `lines_of`.
pub fn split_lines(s: &Vec<u8>) -> (r: Vec<Vec<u8>>)
    ensures
        views_of(r@) == lines_of(s@),
{
    let n = s.len();
    let mut out: Vec<Vec<u8>> = Vec::new();
    let mut start: usize = 0;
    let mut k: usize = 0;
    assert(s@.skip(0) =~= s@);
    assert(views_of(out@) + lines_of(s@) =~= lines_of(s@));
    while k < n
        invariant
            n == s@.len(),
            0 <= start <= k <= n,
            forall|j: int| start <= j < k ==> s@[j] != 10,
            lines_of(s@) == views_of(out@) + lines_of(s@.skip(start as int)),
        decreases n - k,
    {
        if s[k] == 10 {
            let line = copy_range(s, start, k);
            proof {
                let t = s@.skip(start as int);
                assert(forall|j: int| 0 <= j < k - start ==> t[j] == s@[j + start] && t[j] != 10);
                assert(t[k - start] == 10);
                lemma_line_break_at(t, k - start);
                assert(t.take(k - start) =~= s@.subrange(start as int, k as int));
                assert(t.skip(k - start + 1) =~= s@.skip(k + 1));
                assert(views_of(out@.push(line)) =~= views_of(out@) + seq![line@]);
                assert(views_of(out@) + (seq![t.take(k - start)] + lines_of(t.skip(k - start + 1)))
                    =~= (views_of(out@) + seq![line@]) + lines_of(s@.skip(k + 1)));
            }
            out.push(line);
            start = k + 1;
        }
        k += 1;
    }
    if start < n {
        let line = copy_range(s, start, n);
        proof {
            let t = s@.skip(start as int);
            assert(forall|j: int| 0 <= j < t.len() ==> t[j] == s@[j + start] && t[j] != 10);
            lemma_line_break_at(t, t.len() as int);
            assert(t =~= s@.subrange(start as int, n as int));
            assert(views_of(out@.push(line)) =~= views_of(out@) + seq![t]);
            assert(views_of(out@) + seq![t] =~= views_of(out@) + lines_of(s@.skip(start as int)));
        }
        out.push(line);
    } else {
        proof {
            assert(s@.skip(start as int) =~= Seq::<u8>::empty());
            assert(views_of(out@) + lines_of(Seq::<u8>::empty()) =~= views_of(out@));
        }
    }
    out
}

/// One finished build invocation: the child's exit code — absent when
/// the process was killed before it could report one — its standard
/// output split into lines, and its raw standard error.
#[derive(Debug)]
pub struct BuildResult {
    pub exit_code: Option<i32>,
    pub stdout_lines: Vec<Vec<u8>>,
    pub stderr: Vec<u8>,
}

impl BuildResult {
    /// Packages what was captured from a finished build process,
    /// splitting the raw standard output into its lines.
    pub fn from_captured(exit_code: Option<i32>, stdout: &Vec<u8>, stderr: Vec<u8>) -> (r:
        BuildResult)
        ensures
            r.exit_code == exit_code,
            views_of(r.stdout_lines@) == lines_of(stdout@),
            r.stderr == stderr,
    {
        BuildResult { exit_code, stdout_lines: split_lines(stdout), stderr }
    }
}

/// One build attempt as the orchestrator sees it: either the child
/// process ran to completion, or it could not be spawned at all.
#[derive(Debug)]
pub enum BuildAttempt {
    Completed(BuildResult),
    SpawnFailed,
}

/// How a build attempt is judged.
#[derive(Clone, Copy, Debug, PartialEq, Eq, Structural)]
pub enum BuildClass {
    /// Exit code zero: the lines of standard output are worth logging
    /// one by one at informational severity.
    Success,
    /// Exit code one, or a command that could not be spawned: standard
    /// error, or the spawn error, belongs in the log at error severity.
    Failure,
    /// Any other exit code, or none at all: the design deliberately
    /// confirms neither success nor failure.
    Unclassified,
}

/// Classifies one build attempt: exit code zero is a success, exit code
/// one is a failure, a command that could not be spawned is a failure,
/// and anything else is left unclassified.
pub fn classify(attempt: &BuildAttempt) -> (c: BuildClass)
    ensures
        c is Success <==> (attempt matches BuildAttempt::Completed(r) && r.exit_code == Some(
            0i32,
        )),
        c is Failure <==> (attempt is SpawnFailed || (attempt matches BuildAttempt::Completed(r)
            && r.exit_code == Some(1i32))),
        c is Unclassified <==> (attempt matches BuildAttempt::Completed(r) && r.exit_code != Some(
            0i32,
        ) && r.exit_code != Some(1i32)),
{
    match attempt {
        BuildAttempt::SpawnFailed => BuildClass::Failure,
        BuildAttempt::Completed(r) => match r.exit_code {
            Some(0) => BuildClass::Success,
            Some(1) => BuildClass::Failure,
            _ => BuildClass::Unclassified,
        },
    }
}

} // verus!
