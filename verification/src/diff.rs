//! The line-by-line diff that a write preview shows.
//!
//! Old and new content are compared line by line at equal line numbers, up
//! to the longer of the two. A line that is the same on both sides is shown
//! after a space, a line that changed as the old line after `-` and the new
//! line after `+`. Empty lines are not shown.

use crate::text::{
    chars_eq, chars_to_string, extend_chars, extend_str, lines, row_views, spec_lines, str_chars,
};
use vstd::prelude::*;

verus! {

/// How a line of the diff relates to the old content.
#[derive(Debug, Clone, Copy, PartialEq, Eq, Structural)]
pub enum DiffMark {
    Same,
    Removed,
    Added,
}

/// One line of a diff.
#[derive(Debug, Clone)]
pub struct DiffLine {
    pub mark: DiffMark,
    pub text: Vec<char>,
}

pub struct DiffLineView {
    pub mark: DiffMark,
    pub text: Seq<char>,
}

impl View for DiffLine {
    type V = DiffLineView;

    open spec fn view(&self) -> DiffLineView {
        DiffLineView { mark: self.mark, text: self.text@ }
    }
}

pub open spec fn diff_views(lines: Seq<DiffLine>) -> Seq<DiffLineView> {
    Seq::new(lines.len(), |i: int| lines[i]@)
}

/// The line at `idx`, or the empty line past the end.
pub open spec fn line_or_empty(lines: Seq<Seq<char>>, idx: int) -> Seq<char> {
    if 0 <= idx < lines.len() {
        lines[idx]
    } else {
        Seq::empty()
    }
}

/// What one line number adds to the diff.
pub open spec fn spec_diff_row(before: Seq<char>, after: Seq<char>) -> Seq<DiffLineView> {
    if before == after {
        if before.len() > 0 {
            seq![DiffLineView { mark: DiffMark::Same, text: before }]
        } else {
            Seq::empty()
        }
    } else {
        let removed = if before.len() > 0 {
            seq![DiffLineView { mark: DiffMark::Removed, text: before }]
        } else {
            Seq::empty()
        };
        let added = if after.len() > 0 {
            seq![DiffLineView { mark: DiffMark::Added, text: after }]
        } else {
            Seq::empty()
        };
        removed + added
    }
}

/// The diff of the first `upto` line numbers.
pub open spec fn spec_diff_rows(before: Seq<Seq<char>>, after: Seq<Seq<char>>, upto: int) -> Seq<
    DiffLineView,
>
    decreases upto,
{
    if upto <= 0 {
        Seq::empty()
    } else {
        spec_diff_rows(before, after, upto - 1) + spec_diff_row(
            line_or_empty(before, upto - 1),
            line_or_empty(after, upto - 1),
        )
    }
}

pub open spec fn max_len(a: int, b: int) -> int {
    if a >= b {
        a
    } else {
        b
    }
}

/// The diff between two lists of lines.
pub open spec fn spec_diff_lines(before: Seq<Seq<char>>, after: Seq<Seq<char>>) -> Seq<
    DiffLineView,
> {
    spec_diff_rows(before, after, max_len(before.len() as int, after.len() as int))
}

pub open spec fn mark_char(mark: DiffMark) -> char {
    match mark {
        DiffMark::Same => ' ',
        DiffMark::Removed => '-',
        DiffMark::Added => '+',
    }
}

/// The text of the first `upto` diff lines: each is its mark, its text and
/// a line feed.
pub open spec fn spec_render_lines(lines: Seq<DiffLineView>, upto: int) -> Seq<char>
    decreases upto,
{
    if upto <= 0 || upto > lines.len() {
        Seq::empty()
    } else {
        spec_render_lines(lines, upto - 1) + seq![mark_char(lines[upto - 1].mark)] + lines[upto
            - 1].text + seq!['\n']
    }
}

/// The head of a diff: the path after `---` and after `+++`, then `@@`.
pub open spec fn spec_diff_header(path: Seq<char>) -> Seq<char> {
    "--- "@ + path + "\n"@ + "+++ "@ + path + "\n"@ + "@@\n"@
}

/// The diff text for a file that holds `before` and is to hold `after`.
pub open spec fn spec_build_diff(path: Seq<char>, before: Seq<char>, after: Seq<char>) -> Seq<char> {
    let lines = spec_diff_lines(spec_lines(before), spec_lines(after));
    spec_diff_header(path) + spec_render_lines(lines, lines.len() as int)
}

fn push_diff_line(out: &mut Vec<DiffLine>, mark: DiffMark, text: &Vec<char>)
    ensures
        diff_views(final(out)@) == diff_views(old(out)@).push(DiffLineView { mark, text: text@ }),
{
    let mut copy: Vec<char> = Vec::new();
    extend_chars(&mut copy, text);
    out.push(DiffLine { mark, text: copy });
    assert(diff_views(out@) =~= diff_views(old(out)@).push(DiffLineView { mark, text: text@ }));
}

/// The diff between two lists of lines.
pub fn diff_lines(before: &Vec<Vec<char>>, after: &Vec<Vec<char>>) -> (out: Vec<DiffLine>)
    ensures
        diff_views(out@) == spec_diff_lines(row_views(before@), row_views(after@)),
{
    let count = if before.len() >= after.len() {
        before.len()
    } else {
        after.len()
    };
    let empty: Vec<char> = Vec::new();
    let mut out: Vec<DiffLine> = Vec::new();
    let mut idx: usize = 0;
    assert(diff_views(out@) =~= spec_diff_rows(row_views(before@), row_views(after@), 0));
    while idx < count
        invariant
            idx <= count,
            empty@.len() == 0,
            diff_views(out@) == spec_diff_rows(row_views(before@), row_views(after@), idx as int),
        decreases count - idx,
    {
        let old_line = if idx < before.len() {
            &before[idx]
        } else {
            &empty
        };
        let new_line = if idx < after.len() {
            &after[idx]
        } else {
            &empty
        };
        assert(old_line@ =~= line_or_empty(row_views(before@), idx as int));
        assert(new_line@ =~= line_or_empty(row_views(after@), idx as int));
        let ghost start = diff_views(out@);
        if chars_eq(old_line, new_line) {
            if old_line.len() > 0 {
                push_diff_line(&mut out, DiffMark::Same, old_line);
            }
        } else {
            if old_line.len() > 0 {
                push_diff_line(&mut out, DiffMark::Removed, old_line);
            }
            if new_line.len() > 0 {
                push_diff_line(&mut out, DiffMark::Added, new_line);
            }
        }
        assert(diff_views(out@) =~= start + spec_diff_row(old_line@, new_line@));
        idx += 1;
    }
    out
}

/// The text of a diff for `path`.
pub fn render_diff(path: &str, lines: &Vec<DiffLine>) -> (out: Vec<char>)
    ensures
        out@ == spec_diff_header(path@) + spec_render_lines(diff_views(lines@), lines@.len() as int),
{
    let mut out: Vec<char> = Vec::new();
    extend_str(&mut out, "--- ");
    extend_str(&mut out, path);
    extend_str(&mut out, "\n");
    extend_str(&mut out, "+++ ");
    extend_str(&mut out, path);
    extend_str(&mut out, "\n");
    extend_str(&mut out, "@@\n");
    assert(out@ =~= spec_diff_header(path@));
    let mut i: usize = 0;
    assert(out@ =~= spec_diff_header(path@) + spec_render_lines(diff_views(lines@), 0));
    while i < lines.len()
        invariant
            i <= lines.len(),
            out@ == spec_diff_header(path@) + spec_render_lines(diff_views(lines@), i as int),
        decreases lines.len() - i,
    {
        let mark = match lines[i].mark {
            DiffMark::Same => ' ',
            DiffMark::Removed => '-',
            DiffMark::Added => '+',
        };
        out.push(mark);
        extend_chars(&mut out, &lines[i].text);
        out.push('\n');
        assert(diff_views(lines@)[i as int] == lines@[i as int]@);
        assert(out@ =~= spec_diff_header(path@) + spec_render_lines(diff_views(lines@), i + 1));
        i += 1;
    }
    out
}

/// The diff text for a file at `path` that holds `before` and is to hold
/// `after`.
pub fn build_diff(path: &str, before: &str, after: &str) -> (out: String)
    ensures
        out@ == spec_build_diff(path@, before@, after@),
{
    let before_lines = lines(&str_chars(before));
    let after_lines = lines(&str_chars(after));
    let rows = diff_lines(&before_lines, &after_lines);
    let text = render_diff(path, &rows);
    chars_to_string(&text)
}

/// Content compared with itself gives a diff in which every line is marked
/// as unchanged: none is added and none removed.
pub proof fn lemma_diff_of_equal_content(lines: Seq<Seq<char>>, upto: int)
    ensures
        forall|i: int|
            0 <= i < spec_diff_rows(lines, lines, upto).len() ==> (#[trigger] spec_diff_rows(
                lines,
                lines,
                upto,
            )[i]).mark == DiffMark::Same,
    decreases upto,
{
    if upto > 0 {
        lemma_diff_of_equal_content(lines, upto - 1);
    }
}

/// A preview of content that equals what the file already holds shows no
/// added and no removed line.
pub proof fn lemma_preview_of_unchanged_content(content: Seq<char>)
    ensures
        forall|i: int|
            0 <= i < spec_diff_lines(spec_lines(content), spec_lines(content)).len() ==> (
            #[trigger] spec_diff_lines(spec_lines(content), spec_lines(content))[i]).mark
                == DiffMark::Same,
{
    let lines = spec_lines(content);
    lemma_diff_of_equal_content(lines, max_len(lines.len() as int, lines.len() as int));
}

} // verus!
