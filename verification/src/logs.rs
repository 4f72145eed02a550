//! The append-only log buffer.
//!
//! Both stream readers append here, one line at a time, and a caller may
//! read a snapshot at any moment. The buffer only ever grows: an entry,
//! once appended, keeps its index for the buffer's whole lifetime. Lines
//! from the worker's error stream are tagged with a fixed prefix, as the
//! callers expect them.

use vstd::prelude::*;
use crate::config::join_path;

verus! {

/// A captured line as it is stored: error-stream lines carry the tag.
pub open spec fn rendered_line(line: Seq<char>, from_stderr: bool) -> Seq<char> {
    if from_stderr {
        "Error: "@ + line
    } else {
        line
    }
}

/// All lines, joined by single newlines, for writing to a file.
pub open spec fn join_lines(lines: Seq<Seq<char>>) -> Seq<char>
    decreases lines.len(),
{
    if lines.len() == 0 {
        Seq::empty()
    } else if lines.len() == 1 {
        lines[0]
    } else {
        join_lines(lines.drop_last()) + seq!['\n'] + lines.last()
    }
}

/// The character sequences behind a sequence of owned lines.
pub open spec fn views_of_lines(lines: Seq<String>) -> Seq<Seq<char>> {
    Seq::new(lines.len(), |i: int| lines[i]@)
}

pub proof fn lemma_views_of_lines_push(lines: Seq<String>, x: String)
    ensures
        views_of_lines(lines.push(x)) == views_of_lines(lines).push(x@),
{
    assert(views_of_lines(lines.push(x)) =~= views_of_lines(lines).push(x@));
}

pub proof fn lemma_deep_view_is_views_of(v: &Vec<String>)
    ensures
        v.deep_view() == views_of_lines(v@),
{
    assert(v.deep_view() =~= views_of_lines(v@));
}

/// An ordered, append-only sequence of captured text lines.
pub struct LogBuffer {
    lines: Vec<String>,
}

impl View for LogBuffer {
    type V = Seq<Seq<char>>;

    closed spec fn view(&self) -> Seq<Seq<char>> {
        views_of_lines(self.lines@)
    }
}

impl LogBuffer {
    pub fn new() -> (r: LogBuffer)
        ensures
            r@ == Seq::<Seq<char>>::empty(),
    {
        let buffer = LogBuffer { lines: Vec::new() };
        proof {
            assert(buffer@ =~= Seq::<Seq<char>>::empty());
        }
        buffer
    }

    pub fn len(&self) -> (r: usize)
        ensures
            r == self@.len(),
    {
        self.lines.len()
    }

    /// Appends one line from the worker's output stream.
    pub fn append(&mut self, line: String)
        ensures
            final(self)@ == old(self)@.push(line@),
    {
        let ghost prev = self.lines@;
        self.lines.push(line);
        proof {
            lemma_views_of_lines_push(prev, self.lines@.last());
        }
    }

    /// Appends one line from the worker's error stream, tagged as an error.
    pub fn append_error(&mut self, line: String)
        ensures
            final(self)@ == old(self)@.push(rendered_line(line@, true)),
    {
        let mut tagged = String::from_str("Error: ");
        tagged.append(line.as_str());
        let ghost prev = self.lines@;
        self.lines.push(tagged);
        proof {
            lemma_views_of_lines_push(prev, self.lines@.last());
        }
    }

    /// A copy of everything captured so far, in insertion order.
    pub fn snapshot(&self) -> (r: Vec<String>)
        ensures
            r.deep_view() == self@,
    {
        let mut out: Vec<String> = Vec::new();
        proof {
            assert(views_of_lines(out@) =~= self@.take(0));
        }
        let mut i: usize = 0;
        while i < self.lines.len()
            invariant
                i <= self.lines@.len(),
                views_of_lines(out@) == self@.take(i as int),
            decreases self.lines@.len() - i,
        {
            let ghost prev = out@;
            out.push(self.lines[i].clone());
            proof {
                lemma_views_of_lines_push(prev, self.lines@[i as int]);
                assert(self@.take(i + 1) =~= self@.take(i as int).push(self@[i as int]));
            }
            i += 1;
        }
        proof {
            assert(self@.take(self.lines@.len() as int) =~= self@);
            lemma_deep_view_is_views_of(&out);
        }
        out
    }

    /// The in-memory entries followed by the given persisted entries: a
    /// persisted log file supplements the buffer, never replaces it.
    pub fn merged(&self, file_lines: &Vec<String>) -> (r: Vec<String>)
        ensures
            r.deep_view() == self@ + file_lines.deep_view(),
    {
        let ghost file_views = views_of_lines(file_lines@);
        let mut out = self.snapshot();
        proof {
            lemma_deep_view_is_views_of(&out);
            assert(views_of_lines(out@) =~= self@ + file_views.take(0));
        }
        let mut i: usize = 0;
        while i < file_lines.len()
            invariant
                i <= file_lines@.len(),
                file_views == views_of_lines(file_lines@),
                views_of_lines(out@) == self@ + file_views.take(i as int),
            decreases file_lines@.len() - i,
        {
            let ghost prev = out@;
            out.push(file_lines[i].clone());
            proof {
                lemma_views_of_lines_push(prev, file_lines@[i as int]);
                assert(self@ + file_views.take(i + 1) =~= (self@ + file_views.take(
                    i as int,
                )).push(file_views[i as int]));
            }
            i += 1;
        }
        proof {
            assert(file_views.take(file_lines@.len() as int) =~= file_views);
            lemma_deep_view_is_views_of(&out);
            lemma_deep_view_is_views_of(file_lines);
        }
        out
    }

    /// All captured lines as one newline-separated text.
    pub fn text(&self) -> (r: String)
        ensures
            r@ == join_lines(self@),
    {
        let mut out = String::new();
        let mut i: usize = 0;
        while i < self.lines.len()
            invariant
                i <= self.lines@.len(),
                out@ == join_lines(self@.take(i as int)),
            decreases self.lines@.len() - i,
        {
            if i > 0 {
                proof {
                    reveal_strlit("\n");
                }
                out.append("\n");
            }
            out.append(self.lines[i].as_str());
            proof {
                assert(self@.take(i + 1).drop_last() =~= self@.take(i as int));
                assert(self@.take(i + 1).last() == self@[i as int]);
                if i == 0 {
                    assert(out@ =~= join_lines(self@.take(1)));
                }
            }
            i += 1;
        }
        proof {
            assert(self@.take(self.lines@.len() as int) =~= self@);
        }
        out
    }
}

/// The path of the persisted worker log inside the platform's log directory.
pub fn log_file_path(log_dir: &str) -> (r: String)
    ensures
        r@ == log_dir@ + "/"@ + "rgb-lightning-node.log"@,
{
    join_path(log_dir, "rgb-lightning-node.log")
}

/// The buffer contents after a sequence of captures has been appended.
pub open spec fn apply_captures(
    logs: Seq<Seq<char>>,
    captures: Seq<(Seq<char>, bool)>,
) -> Seq<Seq<char>>
    decreases captures.len(),
{
    if captures.len() == 0 {
        logs
    } else {
        apply_captures(
            logs.push(rendered_line(captures.first().0, captures.first().1)),
            captures.drop_first(),
        )
    }
}

/// No captured entry is ever lost: after any sequence of appends — in
/// whatever order the two stream readers were serialized — every entry the
/// buffer held keeps its index, and every capture is visible behind them in
/// capture order, rendered with its stream's tag.
pub proof fn lemma_no_log_line_lost(logs: Seq<Seq<char>>, captures: Seq<(Seq<char>, bool)>)
    ensures
        apply_captures(logs, captures).len() == logs.len() + captures.len(),
        forall|i: int|
            0 <= i < logs.len() ==> apply_captures(logs, captures)[i] == logs[i],
        forall|j: int|
            0 <= j < captures.len() ==> apply_captures(logs, captures)[logs.len() + j]
                == rendered_line(captures[j].0, captures[j].1),
    decreases captures.len(),
{
    if captures.len() > 0 {
        let pushed = logs.push(rendered_line(captures.first().0, captures.first().1));
        let rest = captures.drop_first();
        lemma_no_log_line_lost(pushed, rest);
        assert(apply_captures(logs, captures) == apply_captures(pushed, rest));
        assert forall|i: int| 0 <= i < logs.len() implies apply_captures(logs, captures)[i]
            == logs[i] by {
            assert(pushed[i] == logs[i]);
        }
        assert forall|j: int| 0 <= j < captures.len() implies apply_captures(logs, captures)[
            logs.len() + j
        ] == rendered_line(captures[j].0, captures[j].1) by {
            if j == 0 {
                assert(apply_captures(pushed, rest)[logs.len() as int] == pushed[logs.len() as int]);
            } else {
                assert(rest[j - 1] == captures[j]);
                assert(apply_captures(pushed, rest)[pushed.len() + (j - 1)] == rendered_line(
                    rest[j - 1].0,
                    rest[j - 1].1,
                ));
            }
        }
    }
}

} // verus!
