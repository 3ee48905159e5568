//! What is done to an answer before it is shown: list items get lines of
//! their own, thoughts and the details of errors are folded away, and the
//! boxes of task lists are set in colour.

use crate::text::{
    ascii_lowercase, chars_eq_str, chars_to_string, extend_chars, extend_str, first_non_ws,
    join_rows, lemma_row_views_push, lines, matches_at, occurs_at, row_views, skip_whitespace,
    slice_chars, spec_ascii_lowercase, spec_join, spec_lines, spec_starts_with, spec_trim,
    starts_with_str, str_chars, trim,
};
use crate::tui::ansi::{set_fg, spec_set_fg, Color};
use crate::tui::render::{reset_text, spec_wrap_ansi_line, wrap_ansi_chars};
use vstd::prelude::*;

verus! {

/// `s[from..]` with every occurrence of `pattern` replaced, from left to
/// right; occurrences do not overlap. An empty pattern occurs nowhere.
pub open spec fn replace_from(s: Seq<char>, pattern: Seq<char>, with: Seq<char>, from: int) -> Seq<
    char,
>
    decreases s.len() - from,
{
    if from < 0 || from >= s.len() {
        Seq::empty()
    } else if pattern.len() > 0 && occurs_at(s, pattern, from) {
        with + replace_from(s, pattern, with, from + pattern.len())
    } else {
        seq![s[from]] + replace_from(s, pattern, with, from + 1)
    }
}

pub open spec fn spec_replace(s: Seq<char>, pattern: Seq<char>, with: Seq<char>) -> Seq<char> {
    replace_from(s, pattern, with, 0)
}

pub fn replace_all(s: &Vec<char>, pattern: &str, with: &str) -> (out: Vec<char>)
    ensures
        out@ == spec_replace(s@, pattern@, with@),
{
    let pattern_chars = str_chars(pattern);
    let mut out: Vec<char> = Vec::new();
    let mut i: usize = 0;
    assert(out@ + replace_from(s@, pattern@, with@, 0) =~= spec_replace(s@, pattern@, with@));
    while i < s.len()
        invariant
            i <= s.len(),
            pattern_chars@ == pattern@,
            out@ + replace_from(s@, pattern@, with@, i as int) == spec_replace(
                s@,
                pattern@,
                with@,
            ),
        decreases s.len() - i,
    {
        let ghost before = out@;
        let ghost rest = replace_from(s@, pattern@, with@, i as int);
        if pattern_chars.len() > 0 && matches_at(s, &pattern_chars, i) {
            extend_str(&mut out, with);
            assert(out@ + replace_from(s@, pattern@, with@, i + pattern_chars.len()) =~= before
                + rest);
            i += pattern_chars.len();
        } else {
            out.push(s[i]);
            assert(out@ + replace_from(s@, pattern@, with@, i + 1) =~= before + rest);
            i += 1;
        }
    }
    assert(replace_from(s@, pattern@, with@, i as int) =~= Seq::<char>::empty());
    assert(out@ + Seq::<char>::empty() =~= out@);
    out
}

/// A list item that follows the end of a sentence or a colon in the same
/// line gets a line of its own.
pub open spec fn spec_normalize_markdown(input: Seq<char>) -> Seq<char> {
    spec_replace(
        spec_replace(
            spec_replace(
                spec_replace(
                    spec_replace(spec_replace(input, "。- "@, "。\n- "@), "。 - "@, "。\n- "@),
                    ".- "@,
                    ".\n- "@,
                ),
                ". - "@,
                ".\n- "@,
            ),
            ":- "@,
            ":\n- "@,
        ),
        ": - "@,
        ":\n- "@,
    )
}

pub fn normalize_markdown(input: &str) -> (out: String)
    ensures
        out@ == spec_normalize_markdown(input@),
{
    let a = replace_all(&str_chars(input), "。- ", "。\n- ");
    let b = replace_all(&a, "。 - ", "。\n- ");
    let c = replace_all(&b, ".- ", ".\n- ");
    let d = replace_all(&c, ". - ", ".\n- ");
    let e = replace_all(&d, ":- ", ":\n- ");
    let f = replace_all(&e, ": - ", ":\n- ");
    chars_to_string(&f)
}

/// What is known while blocks are folded: the lines kept so far, and
/// whether a block is being passed over.
pub struct FoldState {
    pub kept: Seq<Seq<char>>,
    pub inside: bool,
}

/// Whether a line begins a block of thoughts.
pub open spec fn begins_thought(line: Seq<char>) -> bool {
    spec_starts_with(spec_trim(line), "思考:"@) || spec_ascii_lowercase(spec_trim(line))
        == "thoughts:"@
}

/// The line that stands for a folded block of thoughts.
pub open spec fn thought_marker() -> Seq<char> {
    "思考:（折りたたみ）"@
}

/// One line is read. A line that begins a block of thoughts is replaced
/// by the marker, once for a run of such lines; what follows is passed
/// over up to the next empty line.
pub open spec fn fold_thought_line(st: FoldState, line: Seq<char>) -> FoldState {
    if begins_thought(line) {
        FoldState {
            kept: if st.inside {
                st.kept
            } else {
                st.kept.push(thought_marker())
            },
            inside: true,
        }
    } else if st.inside {
        FoldState { inside: spec_trim(line).len() != 0, ..st }
    } else {
        FoldState { kept: st.kept.push(line), ..st }
    }
}

pub open spec fn fold_thoughts(rows: Seq<Seq<char>>, upto: int) -> FoldState
    decreases upto,
{
    if upto <= 0 || upto > rows.len() {
        FoldState { kept: Seq::empty(), inside: false }
    } else {
        fold_thought_line(fold_thoughts(rows, upto - 1), rows[upto - 1])
    }
}

/// The text with its blocks of thoughts folded away.
pub open spec fn spec_collapse_thought_blocks(text: Seq<char>) -> Seq<char> {
    let rows = spec_lines(text);
    spec_join(fold_thoughts(rows, rows.len() as int).kept, seq!['\n'])
}

fn newline() -> (sep: Vec<char>)
    ensures
        sep@ == seq!['\n'],
{
    let mut sep: Vec<char> = Vec::new();
    sep.push('\n');
    assert(sep@ =~= seq!['\n']);
    sep
}

pub fn collapse_thought_blocks(text: &str) -> (out: String)
    ensures
        out@ == spec_collapse_thought_blocks(text@),
{
    let rows = lines(&str_chars(text));
    let mut kept: Vec<Vec<char>> = Vec::new();
    let mut inside = false;
    let mut i: usize = 0;
    assert(row_views(kept@) =~= fold_thoughts(row_views(rows@), 0).kept);
    while i < rows.len()
        invariant
            i <= rows.len(),
            (FoldState { kept: row_views(kept@), inside }) == fold_thoughts(
                row_views(rows@),
                i as int,
            ),
        decreases rows.len() - i,
    {
        assert(row_views(rows@)[i as int] == rows@[i as int]@);
        let trimmed = trim(&rows[i]);
        if starts_with_str(&trimmed, "思考:") || chars_eq_str(
            &ascii_lowercase(&trimmed),
            "thoughts:",
        ) {
            if !inside {
                let marker = str_chars("思考:（折りたたみ）");
                proof {
                    lemma_row_views_push(kept@, marker);
                }
                kept.push(marker);
                inside = true;
            }
        } else if inside {
            if trimmed.len() == 0 {
                inside = false;
            }
        } else {
            let mut copy: Vec<char> = Vec::new();
            extend_chars(&mut copy, &rows[i]);
            proof {
                lemma_row_views_push(kept@, copy);
            }
            kept.push(copy);
        }
        i += 1;
    }
    chars_to_string(&join_rows(&kept, &newline()))
}

/// Whether a line reports an error.
pub open spec fn begins_error(line: Seq<char>) -> bool {
    let trimmed = spec_trim(line);
    spec_starts_with(trimmed, "error:"@) || spec_starts_with(trimmed, "error "@)
        || spec_starts_with(trimmed, "ERROR"@)
}

/// A text set in a colour.
pub open spec fn spec_paint(text: Seq<char>, color: Color) -> Seq<char> {
    spec_set_fg(color) + text + reset_text()
}

/// One line is read. A line that reports an error is kept, trimmed and in
/// the colour of errors; what follows is passed over up to the next empty
/// line.
pub open spec fn fold_error_line(st: FoldState, line: Seq<char>, color: Color) -> FoldState {
    if begins_error(line) {
        FoldState { kept: st.kept.push(spec_paint(spec_trim(line), color)), inside: true }
    } else if st.inside {
        FoldState { inside: spec_trim(line).len() != 0, ..st }
    } else {
        FoldState { kept: st.kept.push(line), ..st }
    }
}

pub open spec fn fold_errors(rows: Seq<Seq<char>>, color: Color, upto: int) -> FoldState
    decreases upto,
{
    if upto <= 0 || upto > rows.len() {
        FoldState { kept: Seq::empty(), inside: false }
    } else {
        fold_error_line(fold_errors(rows, color, upto - 1), rows[upto - 1], color)
    }
}

/// The line that stands for the folded details of an error.
pub open spec fn detail_marker() -> Seq<char> {
    "details:（折りたたみ）"@
}

/// The text with the details of its errors folded away. Where the text
/// ends inside the details, a marker in the colour of details says so.
pub open spec fn spec_collapse_error_blocks(text: Seq<char>, error: Color, detail: Color) -> Seq<
    char,
> {
    let rows = spec_lines(text);
    let folded = fold_errors(rows, error, rows.len() as int);
    spec_join(
        if folded.inside {
            folded.kept.push(spec_paint(detail_marker(), detail))
        } else {
            folded.kept
        },
        seq!['\n'],
    )
}

fn paint(text: &Vec<char>, color: Color) -> (out: Vec<char>)
    ensures
        out@ == spec_paint(text@, color),
{
    let mut out = str_chars(set_fg(color).as_str());
    extend_chars(&mut out, text);
    proof {
        reveal_strlit("\x1b[0m");
        reveal_strlit("\x1b");
        reveal_strlit("[0m");
        assert("\x1b[0m"@ =~= reset_text());
    }
    extend_str(&mut out, "\x1b[0m");
    out
}

pub fn collapse_error_blocks(text: &str, error: Color, detail: Color) -> (out: String)
    ensures
        out@ == spec_collapse_error_blocks(text@, error, detail),
{
    let rows = lines(&str_chars(text));
    let mut kept: Vec<Vec<char>> = Vec::new();
    let mut inside = false;
    let mut i: usize = 0;
    assert(row_views(kept@) =~= fold_errors(row_views(rows@), error, 0).kept);
    while i < rows.len()
        invariant
            i <= rows.len(),
            (FoldState { kept: row_views(kept@), inside }) == fold_errors(
                row_views(rows@),
                error,
                i as int,
            ),
        decreases rows.len() - i,
    {
        assert(row_views(rows@)[i as int] == rows@[i as int]@);
        let trimmed = trim(&rows[i]);
        if starts_with_str(&trimmed, "error:") || starts_with_str(&trimmed, "error ")
            || starts_with_str(&trimmed, "ERROR") {
            let styled = paint(&trimmed, error);
            proof {
                lemma_row_views_push(kept@, styled);
            }
            kept.push(styled);
            inside = true;
        } else if inside {
            if trimmed.len() == 0 {
                inside = false;
            }
        } else {
            let mut copy: Vec<char> = Vec::new();
            extend_chars(&mut copy, &rows[i]);
            proof {
                lemma_row_views_push(kept@, copy);
            }
            kept.push(copy);
        }
        i += 1;
    }
    if inside {
        let marker = paint(&str_chars("details:（折りたたみ）"), detail);
        proof {
            lemma_row_views_push(kept@, marker);
        }
        kept.push(marker);
    }
    chars_to_string(&join_rows(&kept, &newline()))
}

/// Whether the item of a task list is ticked, where the line is one.
pub open spec fn spec_task_box(line: Seq<char>) -> Option<bool> {
    let item = line.subrange(first_non_ws(line, 0), line.len() as int);
    if spec_starts_with(item, "- [ ] "@) {
        Some(false)
    } else if spec_starts_with(item, "- [x] "@) || spec_starts_with(item, "- [X] "@) {
        Some(true)
    } else {
        None
    }
}

/// The item of a task list with its box set in colour: the white space
/// before the item, the dash, the box, and the words of the item.
pub open spec fn spec_task_line(line: Seq<char>, ticked: bool, color: Color) -> Seq<char> {
    let start = first_non_ws(line, 0);
    line.subrange(0, start) + "- "@ + spec_set_fg(color) + (if ticked {
        "[x]"@
    } else {
        "[ ]"@
    }) + reset_text() + " "@ + line.subrange(start + 6, line.len() as int)
}

/// A line broken into rows; the item of a task list gets its box set in
/// the colour for ticked or for open boxes first.
pub open spec fn spec_style_task_line(line: Seq<char>, width: nat, ticked: Color, open: Color) -> Seq<
    Seq<char>,
> {
    match spec_task_box(line) {
        Some(done) => spec_wrap_ansi_line(
            spec_task_line(
                line,
                done,
                if done {
                    ticked
                } else {
                    open
                },
            ),
            width,
        ),
        None => spec_wrap_ansi_line(line, width),
    }
}

pub fn style_task_line(line: &Vec<char>, width: usize, ticked: Color, open: Color) -> (out: Vec<
    Vec<char>,
>)
    ensures
        row_views(out@) == spec_style_task_line(line@, width as nat, ticked, open),
{
    let start = skip_whitespace(line, 0);
    let item = slice_chars(line, start, line.len());
    let done = if starts_with_str(&item, "- [ ] ") {
        Some(false)
    } else if starts_with_str(&item, "- [x] ") || starts_with_str(&item, "- [X] ") {
        Some(true)
    } else {
        None
    };
    match done {
        None => wrap_ansi_chars(line, width),
        Some(done) => {
            proof {
                reveal_strlit("- [ ] ");
                reveal_strlit("- [x] ");
                reveal_strlit("- [X] ");
                reveal_strlit("\x1b[0m");
                reveal_strlit("\x1b");
                reveal_strlit("[0m");
                assert("\x1b[0m"@ =~= reset_text());
            }
            let color = if done {
                ticked
            } else {
                open
            };
            let mut full = slice_chars(line, 0, start);
            extend_str(&mut full, "- ");
            extend_str(&mut full, set_fg(color).as_str());
            if done {
                extend_str(&mut full, "[x]");
            } else {
                extend_str(&mut full, "[ ]");
            }
            extend_str(&mut full, "\x1b[0m");
            extend_str(&mut full, " ");
            let words = slice_chars(line, start + 6, line.len());
            extend_chars(&mut full, &words);
            assert(full@ =~= spec_task_line(line@, done, color));
            wrap_ansi_chars(&full, width)
        },
    }
}

} // verus!
