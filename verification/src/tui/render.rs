//! Text for the terminal: how wide it is, and how it is broken into rows.
//!
//! Escape sequences take up no room. A text that holds them is broken so
//! that the colour that was set last goes on in the next row.

use crate::text::{
    chars_to_string, extend_chars, extend_str, lemma_row_views_push, row_views, slice_chars,
    str_chars,
};
use crate::tui::ansi::ESC;
use unicode_width::UnicodeWidthChar;
use vstd::prelude::*;

verus! {

/// The number of columns that a character takes on screen; none for a
/// control character.
pub uninterp spec fn unicode_char_width(c: char) -> Option<usize>;

/// `UnicodeWidthChar::width`: the width depends on the character alone,
/// and no character is wider than three columns.
#[verifier::external_body]
fn char_width(c: char) -> (w: Option<usize>)
    ensures
        w == unicode_char_width(c),
        w matches Some(n) ==> n <= 3,
{
    c.width()
}

/// The columns that a character takes; a control character takes none.
pub open spec fn spec_columns(c: char) -> nat {
    match unicode_char_width(c) {
        Some(n) => n as nat,
        None => 0,
    }
}

/// The columns of each character of a text.
pub open spec fn spec_widths(text: Seq<char>) -> Seq<nat> {
    Seq::new(text.len(), |i: int| spec_columns(text[i]))
}

/// The widths as contracts see them.
pub open spec fn width_views(widths: Seq<u8>) -> Seq<nat> {
    Seq::new(widths.len(), |i: int| widths[i] as nat)
}

fn columns(c: char) -> (n: u8)
    ensures
        n == spec_columns(c),
{
    match char_width(c) {
        Some(n) => n as u8,
        None => 0,
    }
}

/// The columns of each character of a text.
pub fn measure(text: &Vec<char>) -> (widths: Vec<u8>)
    ensures
        width_views(widths@) == spec_widths(text@),
        widths@.len() == text@.len(),
{
    let mut widths: Vec<u8> = Vec::new();
    let mut i: usize = 0;
    while i < text.len()
        invariant
            i <= text.len(),
            widths@.len() == i,
            forall|k: int| 0 <= k < i ==> widths@[k] as nat == spec_columns(text@[k]),
        decreases text.len() - i,
    {
        widths.push(columns(text[i]));
        i += 1;
    }
    assert(width_views(widths@) =~= spec_widths(text@));
    widths
}

/// Whether a character ends an escape sequence.
pub open spec fn is_final_byte(c: char) -> bool {
    '@' <= c <= '~'
}

/// Where the escape sequence whose arguments begin at `from` ends: after
/// the first character that ends a sequence, or at the end of the text.
pub open spec fn csi_end(text: Seq<char>, from: int) -> int
    decreases text.len() - from,
{
    if from < 0 || from >= text.len() {
        text.len() as int
    } else if is_final_byte(text[from]) {
        from + 1
    } else {
        csi_end(text, from + 1)
    }
}

/// Where the text goes on after the escape character at `at`.
pub open spec fn escape_end(text: Seq<char>, at: int) -> int {
    if at + 1 < text.len() && text[at + 1] == '[' {
        csi_end(text, at + 2)
    } else {
        at + 1
    }
}

/// Whether the escape sequence `text[at..end]` sets a colour or a style:
/// it is complete and ends in `m`.
pub open spec fn sets_style(text: Seq<char>, at: int, end: int) -> bool {
    &&& at + 1 < text.len()
    &&& text[at + 1] == '['
    &&& end > at + 2
    &&& end <= text.len()
    &&& text[end - 1] == 'm'
}

/// The columns that `text[from..]` takes on screen, where `widths` holds
/// the columns of each character. Escape sequences take none.
pub open spec fn width_from(text: Seq<char>, widths: Seq<nat>, from: int) -> nat
    decreases text.len() - from,
{
    if from < 0 || from >= text.len() || from >= widths.len() {
        0
    } else if text[from] == '\x1b' {
        let end = escape_end(text, from);
        if end <= from || end > text.len() {
            0
        } else {
            width_from(text, widths, end)
        }
    } else {
        widths[from] + width_from(text, widths, from + 1)
    }
}

/// The columns that a text takes on screen, as far as they can be
/// counted, where `widths` holds the columns of each character.
pub open spec fn spec_measured_width(text: Seq<char>, widths: Seq<nat>) -> nat {
    if width_from(text, widths, 0) > usize::MAX {
        usize::MAX as nat
    } else {
        width_from(text, widths, 0)
    }
}

/// The columns that a text takes on screen.
pub open spec fn spec_visible_width(text: Seq<char>) -> nat {
    spec_measured_width(text, spec_widths(text))
}

fn skip_escape(text: &Vec<char>, at: usize) -> (end: usize)
    requires
        at < text.len(),
        text[at as int] == '\x1b',
    ensures
        end == escape_end(text@, at as int),
        at < end <= text.len(),
{
    if at + 1 < text.len() && text[at + 1] == '[' {
        let mut k: usize = at + 2;
        while k < text.len() && !('@' <= text[k] && text[k] <= '~')
            invariant
                at + 2 <= k <= text.len(),
                csi_end(text@, at + 2) == csi_end(text@, k as int),
            decreases text.len() - k,
        {
            k += 1;
        }
        if k < text.len() {
            k + 1
        } else {
            k
        }
    } else {
        at + 1
    }
}

/// The columns that a text takes on screen, where `widths` holds the
/// columns of each character.
pub fn measured_width(text: &Vec<char>, widths: &Vec<u8>) -> (width: usize)
    requires
        widths@.len() == text@.len(),
    ensures
        width == spec_measured_width(text@, width_views(widths@)),
{
    let mut total: u128 = 0;
    let mut i: usize = 0;
    while i < text.len()
        invariant
            i <= text.len(),
            widths@.len() == text@.len(),
            total <= 255 * i,
            total + width_from(text@, width_views(widths@), i as int) == width_from(
                text@,
                width_views(widths@),
                0,
            ),
        decreases text.len() - i,
    {
        if text[i] == '\x1b' {
            i = skip_escape(text, i);
        } else {
            total = total + widths[i] as u128;
            i += 1;
        }
    }
    if total > usize::MAX as u128 {
        usize::MAX
    } else {
        total as usize
    }
}

pub fn visible_width_chars(text: &Vec<char>) -> (width: usize)
    ensures
        width == spec_visible_width(text@),
{
    measured_width(text, &measure(text))
}

/// The columns that a text takes on screen.
pub fn visible_width(text: &str) -> (width: usize)
    ensures
        width == spec_visible_width(text@),
{
    visible_width_chars(&str_chars(text))
}

/// What is known while a text is broken into rows.
pub struct WrapState {
    /// The rows that are complete.
    pub lines: Seq<Seq<char>>,
    /// The row that is being filled.
    pub current: Seq<char>,
    /// The columns that the row takes so far.
    pub width: nat,
    /// The escape sequence that set the colour last.
    pub last_sgr: Option<Seq<char>>,
    /// The width of a space that was read and not yet put into the row.
    pub pending: Option<nat>,
}

pub open spec fn reset_text() -> Seq<char> {
    ESC@ + "[0m"@
}

/// The row is complete: a space that waited goes at its end, and the
/// colour is ended where one was set. The next row begins with the colour
/// that was set last.
pub open spec fn wrap_break(st: WrapState) -> WrapState {
    let filled = if st.pending is Some {
        st.current.push(' ')
    } else {
        st.current
    };
    let row = if filled.len() > 0 && st.last_sgr is Some {
        filled + reset_text()
    } else {
        filled
    };
    WrapState {
        lines: st.lines.push(row),
        current: match st.last_sgr {
            Some(sgr) => sgr,
            None => Seq::empty(),
        },
        width: 0,
        pending: None,
        ..st
    }
}

/// A character that takes `w` columns is read. Where it does not fit, the
/// row is complete first. A space waits for the next character; any other
/// character goes into the row, after the space that waited.
pub open spec fn wrap_char(st: WrapState, c: char, w: nat, limit: nat) -> WrapState {
    let st = if st.width + w > limit {
        wrap_break(st)
    } else {
        st
    };
    if c == ' ' {
        WrapState { pending: Some(w), ..st }
    } else {
        let st = match st.pending {
            Some(space) => WrapState {
                current: st.current.push(' '),
                width: st.width + space,
                pending: None,
                ..st
            },
            None => st,
        };
        WrapState { current: st.current.push(c), width: st.width + w, ..st }
    }
}

/// An escape sequence is read: it goes into the row and takes no room.
pub open spec fn wrap_escape(st: WrapState, text: Seq<char>, at: int) -> WrapState {
    let end = escape_end(text, at);
    let esc = text.subrange(at, end);
    WrapState {
        current: st.current + esc,
        last_sgr: if sets_style(text, at, end) && is_final_byte(text[end - 1]) {
            Some(esc)
        } else {
            st.last_sgr
        },
        ..st
    }
}

/// Reads `text[from..]`, where `widths` holds the columns of each
/// character.
pub open spec fn wrap_scan(
    text: Seq<char>,
    widths: Seq<nat>,
    limit: nat,
    from: int,
    st: WrapState,
) -> WrapState
    decreases text.len() - from,
{
    if from < 0 || from >= text.len() || from >= widths.len() {
        st
    } else if text[from] == '\x1b' {
        let end = escape_end(text, from);
        if end <= from || end > text.len() {
            st
        } else {
            wrap_scan(text, widths, limit, end, wrap_escape(st, text, from))
        }
    } else {
        wrap_scan(text, widths, limit, from + 1, wrap_char(st, text[from], widths[from], limit))
    }
}

/// The rows once the text is read: a space that waited goes into the last
/// row where it fits; the last row counts where it holds anything; and
/// there is always at least one row.
pub open spec fn wrap_finish(st: WrapState, limit: nat) -> Seq<Seq<char>> {
    let filled = if st.pending is Some && st.width + st.pending->0 <= limit {
        st.current.push(' ')
    } else {
        st.current
    };
    if filled.len() > 0 {
        st.lines.push(
            if st.last_sgr is Some {
                filled + reset_text()
            } else {
                filled
            },
        )
    } else if st.lines.len() == 0 {
        seq![Seq::empty()]
    } else {
        st.lines
    }
}

pub open spec fn wrap_start() -> WrapState {
    WrapState {
        lines: Seq::empty(),
        current: Seq::empty(),
        width: 0,
        last_sgr: None,
        pending: None,
    }
}

/// The text broken into rows of at most `limit` columns, where `widths`
/// holds the columns of each character. Rows are broken before the
/// character that does not fit. With no room at all there is one empty
/// row.
pub open spec fn spec_wrap_measured(text: Seq<char>, widths: Seq<nat>, limit: nat) -> Seq<
    Seq<char>,
> {
    if limit == 0 {
        seq![Seq::empty()]
    } else {
        wrap_finish(wrap_scan(text, widths, limit, 0, wrap_start()), limit)
    }
}

/// The text broken into rows of at most `limit` columns.
pub open spec fn spec_wrap_ansi_line(text: Seq<char>, limit: nat) -> Seq<Seq<char>> {
    spec_wrap_measured(text, spec_widths(text), limit)
}

pub open spec fn opt_chars(v: Option<Vec<char>>) -> Option<Seq<char>> {
    match v {
        Some(v) => Some(v@),
        None => None,
    }
}

pub open spec fn opt_nat(v: Option<u8>) -> Option<nat> {
    match v {
        Some(v) => Some(v as nat),
        None => None,
    }
}

fn push_row(lines: &mut Vec<Vec<char>>, row: Vec<char>)
    ensures
        row_views(final(lines)@) == row_views(old(lines)@).push(row@),
{
    proof {
        lemma_row_views_push(lines@, row);
    }
    lines.push(row);
}

/// The text broken into rows of at most `width` columns, where `widths`
/// holds the columns of each character.
pub fn wrap_measured(text: &Vec<char>, widths: &Vec<u8>, width: usize) -> (out: Vec<Vec<char>>)
    requires
        widths@.len() == text@.len(),
    ensures
        row_views(out@) == spec_wrap_measured(text@, width_views(widths@), width as nat),
        out@.len() >= 1,
{
    let mut lines: Vec<Vec<char>> = Vec::new();
    if width == 0 {
        push_row(&mut lines, Vec::new());
        assert(row_views(lines@) =~= seq![Seq::<char>::empty()]);
        return lines;
    }
    let reset = str_chars("\x1b[0m");
    proof {
        reveal_strlit("\x1b[0m");
        reveal_strlit("\x1b");
        reveal_strlit("[0m");
        assert(reset@ =~= reset_text());
    }
    let mut current: Vec<char> = Vec::new();
    let mut current_width: u128 = 0;
    let mut last_sgr: Option<Vec<char>> = None;
    let mut pending: Option<u8> = None;
    let mut i: usize = 0;
    let ghost measured = width_views(widths@);
    assert(row_views(lines@) =~= Seq::<Seq<char>>::empty());
    while i < text.len()
        invariant
            i <= text.len(),
            width > 0,
            widths@.len() == text@.len(),
            measured == width_views(widths@),
            reset@ == reset_text(),
            current_width <= 510 * i,
            wrap_scan(text@, measured, width as nat, 0, wrap_start()) == wrap_scan(
                text@,
                measured,
                width as nat,
                i as int,
                WrapState {
                    lines: row_views(lines@),
                    current: current@,
                    width: current_width as nat,
                    last_sgr: opt_chars(last_sgr),
                    pending: opt_nat(pending),
                },
            ),
        decreases text.len() - i,
    {
        let ghost st = WrapState {
            lines: row_views(lines@),
            current: current@,
            width: current_width as nat,
            last_sgr: opt_chars(last_sgr),
            pending: opt_nat(pending),
        };
        let ch = text[i];
        if ch == '\x1b' {
            let end = skip_escape(text, i);
            let esc = slice_chars(text, i, end);
            extend_chars(&mut current, &esc);
            if i + 1 < text.len() && text[i + 1] == '[' && end > i + 2 && text[end - 1] == 'm' {
                last_sgr = Some(esc);
            }
            assert(WrapState {
                lines: row_views(lines@),
                current: current@,
                width: current_width as nat,
                last_sgr: opt_chars(last_sgr),
                pending: opt_nat(pending),
            } == wrap_escape(st, text@, i as int));
            i = end;
        } else {
            let w = widths[i];
            assert(measured[i as int] == w as nat);
            if current_width + w as u128 > width as u128 {
                if pending.is_some() {
                    current.push(' ');
                    pending = None;
                }
                if current.len() > 0 && last_sgr.is_some() {
                    extend_chars(&mut current, &reset);
                }
                push_row(&mut lines, current);
                current = Vec::new();
                current_width = 0;
                if let Some(sgr) = &last_sgr {
                    extend_chars(&mut current, sgr);
                }
            }
            if ch == ' ' {
                pending = Some(w);
            } else {
                if let Some(space) = pending {
                    current.push(' ');
                    current_width = current_width + space as u128;
                    pending = None;
                }
                current.push(ch);
                current_width = current_width + w as u128;
            }
            assert(WrapState {
                lines: row_views(lines@),
                current: current@,
                width: current_width as nat,
                last_sgr: opt_chars(last_sgr),
                pending: opt_nat(pending),
            } == wrap_char(st, ch, w as nat, width as nat)) by {
                if st.width + w as nat > width as nat {
                    assert(wrap_break(st).current =~= match st.last_sgr {
                        Some(sgr) => sgr,
                        None => Seq::empty(),
                    });
                }
            }
            i += 1;
        }
    }
    if let Some(space) = pending {
        if current_width + space as u128 <= width as u128 {
            current.push(' ');
        }
    }
    if current.len() > 0 {
        if last_sgr.is_some() {
            extend_chars(&mut current, &reset);
        }
        push_row(&mut lines, current);
    } else if lines.len() == 0 {
        push_row(&mut lines, Vec::new());
        assert(row_views(lines@) =~= seq![Seq::<char>::empty()]);
    }
    assert(row_views(lines@).len() == lines@.len());
    lines
}

/// The text broken into rows of at most `width` columns.
pub fn wrap_ansi_chars(text: &Vec<char>, width: usize) -> (out: Vec<Vec<char>>)
    ensures
        row_views(out@) == spec_wrap_ansi_line(text@, width as nat),
        out@.len() >= 1,
{
    wrap_measured(text, &measure(text), width)
}

pub open spec fn rows_of(rows: Seq<String>) -> Seq<Seq<char>> {
    crate::text::string_views(rows)
}

/// The text broken into rows of at most `width` columns.
pub fn wrap_ansi_line(text: &str, width: usize) -> (out: Vec<String>)
    ensures
        rows_of(out@) == spec_wrap_ansi_line(text@, width as nat),
        out@.len() >= 1,
{
    let rows = wrap_ansi_chars(&str_chars(text), width);
    let mut out: Vec<String> = Vec::new();
    let mut i: usize = 0;
    assert(rows_of(out@) =~= row_views(rows@).take(0));
    while i < rows.len()
        invariant
            i <= rows.len(),
            out@.len() == i,
            rows_of(out@) == row_views(rows@).take(i as int),
        decreases rows.len() - i,
    {
        let row = chars_to_string(&rows[i]);
        proof {
            crate::text::lemma_string_views_push(out@, row);
        }
        out.push(row);
        assert(rows_of(out@) =~= row_views(rows@).take(i + 1));
        i += 1;
    }
    assert(row_views(rows@).take(rows@.len() as int) =~= row_views(rows@));
    out
}

/// The first row of the text broken to the width; nothing where there is
/// no room.
pub open spec fn spec_fit_width(text: Seq<char>, width: nat) -> Seq<char> {
    if width == 0 {
        Seq::empty()
    } else {
        spec_wrap_ansi_line(text, width)[0]
    }
}

pub fn fit_width_chars(text: &Vec<char>, width: usize) -> (out: Vec<char>)
    ensures
        out@ == spec_fit_width(text@, width as nat),
{
    if width == 0 {
        return Vec::new();
    }
    let rows = wrap_ansi_chars(text, width);
    assert(row_views(rows@)[0] == rows@[0]@);
    let mut out: Vec<char> = Vec::new();
    extend_chars(&mut out, &rows[0]);
    out
}

/// The text cut to the width.
pub fn fit_width(text: &str, width: usize) -> (out: String)
    ensures
        out@ == spec_fit_width(text@, width as nat),
{
    chars_to_string(&fit_width_chars(&str_chars(text), width))
}

/// The text cut to the width, between the prefix that sets its colour and
/// the end of all colours.
pub open spec fn spec_colorize_line(text: Seq<char>, width: nat, prefix: Seq<char>) -> Seq<char> {
    prefix + spec_fit_width(text, width) + reset_text()
}

pub fn colorize_line(text: &str, width: usize, prefix: &str) -> (out: String)
    ensures
        out@ == spec_colorize_line(text@, width as nat, prefix@),
{
    let mut out = str_chars(prefix);
    extend_chars(&mut out, &fit_width_chars(&str_chars(text), width));
    proof {
        reveal_strlit("\x1b[0m");
        reveal_strlit("\x1b");
        reveal_strlit("[0m");
        assert("\x1b[0m"@ =~= reset_text());
    }
    extend_str(&mut out, "\x1b[0m");
    chars_to_string(&out)
}

pub open spec fn spaces(n: nat) -> Seq<char> {
    Seq::new(n, |i: int| ' ')
}

pub open spec fn minus(a: nat, b: nat) -> nat {
    if a >= b {
        (a - b) as nat
    } else {
        0
    }
}

/// Two texts in one row: the left one at the left edge, cut where it would
/// reach the right one, and the right one at the right edge. A right text
/// that fills the row alone is shown alone.
pub open spec fn spec_align_right(left: Seq<char>, right: Seq<char>, width: nat) -> Seq<char> {
    if right.len() == 0 {
        spec_fit_width(left, width)
    } else if spec_visible_width(right) >= width {
        spec_fit_width(right, width)
    } else {
        let right_w = spec_visible_width(right);
        let left_cut = spec_fit_width(left, minus(width, right_w + 1));
        left_cut + spaces(minus(width, spec_visible_width(left_cut) + right_w)) + right
    }
}

pub fn align_right(left: &str, right: &str, width: usize) -> (out: String)
    ensures
        out@ == spec_align_right(left@, right@, width as nat),
{
    let left = str_chars(left);
    let right = str_chars(right);
    if right.len() == 0 {
        return chars_to_string(&fit_width_chars(&left, width));
    }
    let right_w = visible_width_chars(&right);
    if right_w >= width {
        return chars_to_string(&fit_width_chars(&right, width));
    }
    let left_max = width - (right_w + 1);
    let mut out = fit_width_chars(&left, left_max);
    let left_w = visible_width_chars(&out);
    let ghost cut = out@;
    let pad: usize = if (left_w as u128) + (right_w as u128) <= width as u128 {
        width - (left_w + right_w)
    } else {
        0
    };
    let mut k: usize = 0;
    while k < pad
        invariant
            k <= pad,
            out@ == cut + spaces(k as nat),
        decreases pad - k,
    {
        out.push(' ');
        assert(out@ =~= cut + spaces((k + 1) as nat));
        k += 1;
    }
    extend_chars(&mut out, &right);
    chars_to_string(&out)
}

} // verus!
