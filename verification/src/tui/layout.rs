//! The rows of the interface: the log, the queue, the status line, the
//! input and the footer, and where the cursor goes.

use crate::text::{
    chars_to_string, clone_string, extend_chars, extend_str, lemma_string_views_push,
    push_decimal, row_views, spec_split, split, str_chars, string_views, decimal,
};
use crate::tui::ansi::{set_fg, spec_set_fg, Color};
use crate::tui::blocks::{
    collapse_error_blocks, collapse_thought_blocks, spec_collapse_error_blocks,
    spec_collapse_thought_blocks, spec_paint,
};
use crate::tui::controller::{max_int, sat_u16, spec_help_height, spec_log_height, spec_min_log_rows};
use crate::tui::render::{
    align_right, colorize_line, fit_width, reset_text, spec_align_right, spec_colorize_line,
    spec_fit_width, spec_wrap_ansi_line, wrap_ansi_line,
};
use crate::tui::state::{
    log_views, spec_input_row_count, AppState, AppStateView, LogLine, LogLineView, LogRole,
    PendingView,
};
use unicode_width::UnicodeWidthStr;
use vstd::prelude::*;

verus! {

/// The number of columns that a text takes on screen.
pub uninterp spec fn unicode_str_width(text: Seq<char>) -> usize;

/// `UnicodeWidthStr::width`: the width depends on the text alone.
#[verifier::external_body]
fn str_width(text: &str) -> (w: usize)
    ensures
        w == unicode_str_width(text@),
{
    text.width()
}

/// The rows that show the queue: how many instructions wait, then each of
/// them, all in the colour of the queue. There are none for an empty queue.
pub open spec fn spec_queue_lines(queue: Seq<PendingView>, width: nat, color: Color) -> Seq<
    Seq<char>,
> {
    if queue.len() == 0 {
        Seq::empty()
    } else {
        seq![
            spec_colorize_line("queued: "@ + decimal(queue.len()), width, spec_set_fg(color)),
        ] + Seq::new(
            queue.len(),
            |i: int| spec_colorize_line("  "@ + queue[i].text, width, spec_set_fg(color)),
        )
    }
}

pub fn build_queue_lines(state: &AppState, width: usize, color: Color) -> (out: Vec<String>)
    ensures
        string_views(out@) == spec_queue_lines(state@.queue, width as nat, color),
{
    let mut out: Vec<String> = Vec::new();
    if state.queue.len() == 0 {
        assert(string_views(out@) =~= Seq::empty());
        return out;
    }
    let prefix = set_fg(color);
    let mut header = str_chars("queued: ");
    push_decimal(&mut header, state.queue.len() as u64);
    let first = colorize_line(chars_to_string(&header).as_str(), width, prefix.as_str());
    proof {
        lemma_string_views_push(out@, first);
    }
    out.push(first);
    let ghost head = string_views(out@);
    let mut i: usize = 0;
    assert(string_views(out@) =~= head + Seq::new(
        0,
        |k: int| spec_colorize_line("  "@ + state@.queue[k].text, width as nat, spec_set_fg(color)),
    ));
    while i < state.queue.len()
        invariant
            i <= state.queue.len(),
            prefix@ == spec_set_fg(color),
            head == seq![
                spec_colorize_line(
                    "queued: "@ + decimal(state@.queue.len()),
                    width as nat,
                    spec_set_fg(color),
                ),
            ],
            string_views(out@) == head + Seq::new(
                i as nat,
                |k: int|
                    spec_colorize_line(
                        "  "@ + state@.queue[k].text,
                        width as nat,
                        spec_set_fg(color),
                    ),
            ),
        decreases state.queue.len() - i,
    {
        assert(state@.queue[i as int] == state.queue@[i as int]@);
        let mut entry = str_chars("  ");
        extend_str(&mut entry, state.queue[i].text.as_str());
        let row = colorize_line(chars_to_string(&entry).as_str(), width, prefix.as_str());
        proof {
            lemma_string_views_push(out@, row);
        }
        out.push(row);
        assert(string_views(out@) =~= head + Seq::new(
            (i + 1) as nat,
            |k: int|
                spec_colorize_line(
                    "  "@ + state@.queue[k].text,
                    width as nat,
                    spec_set_fg(color),
                ),
        ));
        i += 1;
    }
    out
}

/// The figure that moves along the status line while a run is on.
pub open spec fn spec_spinner(running: bool, tick: u64) -> Seq<char> {
    if !running {
        "    "@
    } else if (tick / 6) % 4 == 0 {
        "👺   "@
    } else if (tick / 6) % 4 == 1 {
        " 👺  "@
    } else if (tick / 6) % 4 == 2 {
        "  👺 "@
    } else {
        "   👺"@
    }
}

/// The mark at the beginning of the status line.
pub open spec fn spec_bullet(running: bool, tick: u64) -> Seq<char> {
    if !running {
        "•"@
    } else if (tick / 4) % 5 == 0 {
        "●"@
    } else if (tick / 4) % 5 == 1 {
        "◐"@
    } else if (tick / 4) % 5 == 2 {
        "◓"@
    } else if (tick / 4) % 5 == 3 {
        "◑"@
    } else {
        "◒"@
    }
}

/// The colour of the mark: it pulses while a run is on.
pub open spec fn spec_bullet_color(running: bool, tick: u64, status: Color, pulse: Color) -> Color {
    if running && (tick / 4) % 2 == 0 {
        pulse
    } else {
        status
    }
}

/// The status line.
pub open spec fn spec_status_line(state: AppStateView, width: nat, status: Color, pulse: Color) -> Seq<
    char,
> {
    spec_colorize_line(
        spec_paint(
            spec_bullet(state.running, state.tick),
            spec_bullet_color(state.running, state.tick, status, pulse),
        ) + " status: "@ + state.status_detail + " "@ + spec_spinner(state.running, state.tick),
        width,
        spec_set_fg(status),
    )
}

fn spinner(running: bool, tick: u64) -> (out: &'static str)
    ensures
        out@ == spec_spinner(running, tick),
{
    if !running {
        "    "
    } else if (tick / 6) % 4 == 0 {
        "👺   "
    } else if (tick / 6) % 4 == 1 {
        " 👺  "
    } else if (tick / 6) % 4 == 2 {
        "  👺 "
    } else {
        "   👺"
    }
}

fn bullet(running: bool, tick: u64) -> (out: &'static str)
    ensures
        out@ == spec_bullet(running, tick),
{
    if !running {
        "•"
    } else if (tick / 4) % 5 == 0 {
        "●"
    } else if (tick / 4) % 5 == 1 {
        "◐"
    } else if (tick / 4) % 5 == 2 {
        "◓"
    } else if (tick / 4) % 5 == 3 {
        "◑"
    } else {
        "◒"
    }
}

/// The rows of the status: one line.
pub fn build_status_lines(state: &AppState, width: usize, status: Color, pulse: Color) -> (out: Vec<
    String,
>)
    ensures
        string_views(out@) == seq![spec_status_line(state@, width as nat, status, pulse)],
{
    let color = if state.running && (state.tick / 4) % 2 == 0 {
        pulse
    } else {
        status
    };
    let mut line = str_chars(set_fg(color).as_str());
    extend_str(&mut line, bullet(state.running, state.tick));
    proof {
        reveal_strlit("\x1b[0m");
        reveal_strlit("\x1b");
        reveal_strlit("[0m");
        assert("\x1b[0m"@ =~= reset_text());
    }
    extend_str(&mut line, "\x1b[0m");
    extend_str(&mut line, " status: ");
    extend_str(&mut line, state.status_detail.as_str());
    extend_str(&mut line, " ");
    extend_str(&mut line, spinner(state.running, state.tick));
    let row = colorize_line(chars_to_string(&line).as_str(), width, set_fg(status).as_str());
    let mut out: Vec<String> = Vec::new();
    out.push(row);
    assert(string_views(out@) =~= seq![row@]);
    out
}

/// A piece of the log on its way to the screen.
#[derive(Debug, Clone)]
pub enum LogSegment {
    /// A finished row.
    Row(String),
    /// Text written in Markdown, still to be rendered.
    Markdown(String),
}

pub enum LogSegmentView {
    Row(Seq<char>),
    Markdown(Seq<char>),
}

impl View for LogSegment {
    type V = LogSegmentView;

    open spec fn view(&self) -> LogSegmentView {
        match *self {
            LogSegment::Row(row) => LogSegmentView::Row(row@),
            LogSegment::Markdown(text) => LogSegmentView::Markdown(text@),
        }
    }
}

pub open spec fn segment_views(segments: Seq<LogSegment>) -> Seq<LogSegmentView> {
    Seq::new(segments.len(), |i: int| segments[i]@)
}

/// What is known while the log is read: the pieces so far, and the lines
/// of the answer that are still collected.
pub struct LogScan {
    pub segments: Seq<LogSegmentView>,
    pub buffer: Seq<char>,
}

pub open spec fn as_row_segments(rows: Seq<Seq<char>>) -> Seq<LogSegmentView> {
    Seq::new(rows.len(), |i: int| LogSegmentView::Row(rows[i]))
}

/// The collected lines become a piece of Markdown, where there are any.
pub open spec fn log_flush(scan: LogScan) -> LogScan {
    if scan.buffer.len() > 0 {
        LogScan {
            segments: scan.segments.push(LogSegmentView::Markdown(scan.buffer)),
            buffer: Seq::empty(),
        }
    } else {
        scan
    }
}

/// One line of the log is read. The user's lines are rows in the user's
/// colour. The other lines are collected as Markdown; an empty one ends
/// what was collected and is a row of its own.
pub open spec fn log_step(scan: LogScan, line: LogLineView, width: nat, user: Color) -> LogScan {
    if line.role == LogRole::User {
        let flushed = log_flush(scan);
        LogScan {
            segments: flushed.segments + as_row_segments(
                spec_wrap_ansi_line(spec_colorize_line(line.text, width, spec_set_fg(user)), width),
            ),
            ..flushed
        }
    } else if line.text.len() == 0 {
        let flushed = log_flush(scan);
        LogScan { segments: flushed.segments.push(LogSegmentView::Row(Seq::empty())), ..flushed }
    } else {
        LogScan {
            buffer: if scan.buffer.len() > 0 {
                scan.buffer + seq!['\n'] + line.text
            } else {
                line.text
            },
            ..scan
        }
    }
}

pub open spec fn log_scan(log: Seq<LogLineView>, upto: int, width: nat, user: Color) -> LogScan
    decreases upto,
{
    if upto <= 0 || upto > log.len() {
        LogScan { segments: Seq::empty(), buffer: Seq::empty() }
    } else {
        log_step(log_scan(log, upto - 1, width, user), log[upto - 1], width, user)
    }
}

/// The colours of the log.
#[derive(Debug, Clone, Copy, PartialEq, Eq, Structural)]
pub struct LogColors {
    pub user: Color,
    pub error: Color,
    pub error_detail: Color,
}

/// The pieces of the log. What is collected at the end has its thoughts
/// and the details of its errors folded away.
pub open spec fn spec_render_log_lines(log: Seq<LogLineView>, width: nat, colors: LogColors) -> Seq<
    LogSegmentView,
> {
    let scan = log_scan(log, log.len() as int, width, colors.user);
    if scan.buffer.len() > 0 {
        scan.segments.push(
            LogSegmentView::Markdown(
                spec_collapse_error_blocks(
                    spec_collapse_thought_blocks(scan.buffer),
                    colors.error,
                    colors.error_detail,
                ),
            ),
        )
    } else {
        scan.segments
    }
}

fn push_segment(segments: &mut Vec<LogSegment>, segment: LogSegment)
    ensures
        segment_views(final(segments)@) == segment_views(old(segments)@).push(segment@),
{
    segments.push(segment);
    assert(segment_views(segments@) =~= segment_views(old(segments)@).push(segment@));
}

fn flush_buffer(segments: &mut Vec<LogSegment>, buffer: &mut Vec<char>)
    ensures
        (LogScan { segments: segment_views(final(segments)@), buffer: final(buffer)@ })
            == log_flush(LogScan { segments: segment_views(old(segments)@), buffer: old(buffer)@ }),
{
    if buffer.len() > 0 {
        push_segment(segments, LogSegment::Markdown(chars_to_string(buffer)));
        *buffer = Vec::new();
    }
}

/// The pieces of the log.
pub fn render_log_lines(log: &Vec<LogLine>, width: usize, colors: LogColors) -> (out: Vec<
    LogSegment,
>)
    ensures
        segment_views(out@) == spec_render_log_lines(log_views(log@), width as nat, colors),
{
    let mut segments: Vec<LogSegment> = Vec::new();
    let mut buffer: Vec<char> = Vec::new();
    let user = set_fg(colors.user);
    let mut i: usize = 0;
    assert(segment_views(segments@) =~= Seq::empty());
    while i < log.len()
        invariant
            i <= log.len(),
            user@ == spec_set_fg(colors.user),
            (LogScan { segments: segment_views(segments@), buffer: buffer@ }) == log_scan(
                log_views(log@),
                i as int,
                width as nat,
                colors.user,
            ),
        decreases log.len() - i,
    {
        assert(log_views(log@)[i as int] == log@[i as int]@);
        let line = &log[i];
        if line.role == LogRole::User {
            flush_buffer(&mut segments, &mut buffer);
            let styled = colorize_line(line.text.as_str(), width, user.as_str());
            let rows = wrap_ansi_line(styled.as_str(), width);
            let ghost start = segment_views(segments@);
            let mut k: usize = 0;
            assert(segment_views(segments@) =~= start + as_row_segments(string_views(rows@).take(0)));
            while k < rows.len()
                invariant
                    k <= rows.len(),
                    segment_views(segments@) == start + as_row_segments(
                        string_views(rows@).take(k as int),
                    ),
                decreases rows.len() - k,
            {
                push_segment(&mut segments, LogSegment::Row(clone_string(&rows[k])));
                assert(segment_views(segments@) =~= start + as_row_segments(
                    string_views(rows@).take(k + 1),
                ));
                k += 1;
            }
            assert(string_views(rows@).take(rows@.len() as int) =~= string_views(rows@));
        } else if line.text.as_str().is_empty() {
            flush_buffer(&mut segments, &mut buffer);
            push_segment(&mut segments, LogSegment::Row(String::new()));
        } else {
            if buffer.len() > 0 {
                buffer.push('\n');
            }
            extend_str(&mut buffer, line.text.as_str());
            assert(buffer@ =~= log_step(
                log_scan(log_views(log@), i as int, width as nat, colors.user),
                log_views(log@)[i as int],
                width as nat,
                colors.user,
            ).buffer);
        }
        i += 1;
    }
    if buffer.len() > 0 {
        let folded = collapse_thought_blocks(chars_to_string(&buffer).as_str());
        let shown = collapse_error_blocks(folded.as_str(), colors.error, colors.error_detail);
        push_segment(&mut segments, LogSegment::Markdown(shown));
    }
    segments
}

pub open spec fn min_int(a: int, b: int) -> int {
    if a <= b {
        a
    } else {
        b
    }
}

/// How the rows for the log are shared between the log and the queue: the
/// log keeps its least number of rows, and the queue gets what is left, as
/// far as it needs it.
pub open spec fn spec_queue_take(state: AppStateView, height: int) -> int {
    let min_log = min_int(max_int(state.inline.min_log_rows as int, 3), height);
    let queue_rows = if state.queue.len() == 0 {
        0
    } else {
        ((state.queue.len() + 1) as int) % 65536
    };
    if height > min_log {
        min_int(height - min_log, queue_rows)
    } else {
        0
    }
}

/// The rows of the log and of the queue. Of the rendered log the last rows
/// are kept; where it is shorter than its share, empty rows fill up.
pub open spec fn spec_assemble_log(
    rendered: Seq<Seq<char>>,
    log_height: int,
    queue_rows: Seq<Seq<char>>,
    queue_take: int,
) -> Seq<Seq<char>> {
    let kept = if rendered.len() > log_height {
        rendered.subrange(rendered.len() - log_height, rendered.len() as int)
    } else {
        rendered
    };
    let filled = if log_height > 0 {
        kept + Seq::new((log_height - kept.len()) as nat, |i: int| Seq::<char>::empty())
    } else {
        Seq::empty()
    };
    filled + queue_rows.take(min_int(queue_take, queue_rows.len() as int))
}

/// The share of the queue in the rows for the log.
pub fn queue_take(state: &AppState, height: u16) -> (take: u16)
    ensures
        take == spec_queue_take(state@, height as int),
        take <= height,
{
    let mut min_log = state.inline.min_log_rows;
    if min_log < 3 {
        min_log = 3;
    }
    if min_log > height {
        min_log = height;
    }
    let queue_rows: u16 = if state.queue.len() == 0 {
        0
    } else {
        (((state.queue.len() as u128) + 1) % 65536) as u16
    };
    if height > min_log {
        let available = height - min_log;
        if available < queue_rows {
            available
        } else {
            queue_rows
        }
    } else {
        0
    }
}

/// The rows of the log and of the queue.
pub fn assemble_log_lines(
    rendered: &Vec<String>,
    log_height: u16,
    queue_rows: &Vec<String>,
    queue_take: u16,
) -> (out: Vec<String>)
    ensures
        string_views(out@) == spec_assemble_log(
            string_views(rendered@),
            log_height as int,
            string_views(queue_rows@),
            queue_take as int,
        ),
{
    let mut out: Vec<String> = Vec::new();
    let want = log_height as usize;
    let ghost kept = if rendered@.len() > want {
        string_views(rendered@).subrange(rendered@.len() - want, rendered@.len() as int)
    } else {
        string_views(rendered@)
    };
    if want > 0 {
        let start = if rendered.len() > want {
            rendered.len() - want
        } else {
            0
        };
        let mut i: usize = start;
        assert(string_views(out@) =~= string_views(rendered@).subrange(start as int, start as int));
        while i < rendered.len()
            invariant
                start <= i <= rendered.len(),
                string_views(out@) == string_views(rendered@).subrange(start as int, i as int),
            decreases rendered.len() - i,
        {
            let row = clone_string(&rendered[i]);
            proof {
                lemma_string_views_push(out@, row);
            }
            out.push(row);
            assert(string_views(out@) =~= string_views(rendered@).subrange(start as int, i + 1));
            i += 1;
        }
        assert(string_views(out@) =~= kept);
        while out.len() < want
            invariant
                kept.len() <= want,
                out@.len() >= kept.len(),
                out@.len() <= want,
                string_views(out@) == kept + Seq::new(
                    (out@.len() - kept.len()) as nat,
                    |i: int| Seq::<char>::empty(),
                ),
            decreases want - out.len(),
        {
            let row = String::new();
            proof {
                lemma_string_views_push(out@, row);
            }
            let ghost before = out@.len();
            out.push(row);
            assert(string_views(out@) =~= kept + Seq::new(
                (before + 1 - kept.len()) as nat,
                |i: int| Seq::<char>::empty(),
            ));
        }
    }
    let ghost filled = string_views(out@);
    let take = if (queue_take as usize) < queue_rows.len() {
        queue_take as usize
    } else {
        queue_rows.len()
    };
    let mut k: usize = 0;
    assert(string_views(out@) =~= filled + string_views(queue_rows@).take(0));
    while k < take
        invariant
            k <= take <= queue_rows.len(),
            string_views(out@) == filled + string_views(queue_rows@).take(k as int),
        decreases take - k,
    {
        let row = clone_string(&queue_rows[k]);
        proof {
            lemma_string_views_push(out@, row);
        }
        out.push(row);
        assert(string_views(out@) =~= filled + string_views(queue_rows@).take(k + 1));
        k += 1;
    }
    out
}

/// Where things stand on screen: the rows from the top, the footer and
/// its row, and the cursor.
#[derive(Debug, Clone)]
pub struct Frame {
    pub rows: Vec<String>,
    pub footer: String,
    pub footer_row: u16,
    pub cursor_row: u16,
    pub cursor_col: u16,
}

/// The rows that the interface takes in all, given the rows kept for the
/// log.
pub open spec fn spec_total_height(state: AppStateView, log_height: int) -> int {
    let input_height = sat_u16(spec_input_row_count(state.input) + 1);
    sat_u16(
        sat_u16(
            sat_u16(sat_u16(sat_u16(log_height + 1) + 1) + input_height) + spec_help_height(state),
        ) + 1,
    )
}

/// The row of the footer: the last row of the interface.
pub open spec fn spec_footer_row(state: AppStateView, log_height: int) -> int {
    sat_u16(state.origin_y + (if spec_total_height(state, log_height) > 0 {
        spec_total_height(state, log_height) - 1
    } else {
        0
    }))
}

/// The row of the cursor: the last row of the input.
pub open spec fn spec_cursor_row(state: AppStateView, log_height: int) -> int {
    let rows = spec_input_row_count(state.input);
    sat_u16(
        sat_u16(sat_u16(sat_u16(state.origin_y + log_height) + 1) + 1) + (if rows
            > 0 {
            rows - 1
        } else {
            0
        }),
    )
}

/// The column of the cursor: after the prompt and the last line of the
/// input, which takes `last_width` columns.
pub open spec fn spec_cursor_col_at(last_width: int) -> int {
    sat_u16(2 + last_width % 65536)
}

/// The last line of the input.
pub open spec fn spec_last_input_line(state: AppStateView) -> Seq<char> {
    spec_split(state.input, '\n').last()
}

/// The column of the cursor: after the prompt and the last line of the
/// input.
pub open spec fn spec_cursor_col(state: AppStateView) -> int {
    spec_cursor_col_at(unicode_str_width(spec_last_input_line(state)) as int)
}

/// The footer: the model and the build at the left, and a hint at the
/// right while no help is shown.
pub open spec fn spec_footer(state: AppStateView, width: nat, color: Color) -> Seq<char> {
    spec_colorize_line(
        spec_align_right(
            "model: "@ + state.status_model + " • build "@ + state.status_build,
            if state.suggestions.len() == 0 {
                "Ctrl+C to quit • ? for shortcuts"@
            } else {
                Seq::empty()
            },
            width,
        ),
        width,
        spec_set_fg(color),
    )
}

impl AppState {
    /// The footer.
    pub fn footer(&self, width: usize, color: Color) -> (out: String)
        ensures
            out@ == spec_footer(self@, width as nat, color),
    {
        let mut left = str_chars("model: ");
        extend_str(&mut left, self.status_model.as_str());
        extend_str(&mut left, " • build ");
        extend_str(&mut left, self.status_build.as_str());
        let right = if self.suggestions.as_str().is_empty() {
            "Ctrl+C to quit • ? for shortcuts"
        } else {
            proof {
                reveal_strlit("");
                assert(""@ =~= Seq::<char>::empty());
            }
            ""
        };
        let line = align_right(chars_to_string(&left).as_str(), right, width);
        colorize_line(line.as_str(), width, set_fg(color).as_str())
    }

    /// Where the footer and the cursor go, given the rows kept for the log
    /// and the columns that the last line of the input takes: the row of
    /// the footer, then the row and the column of the cursor. The place is
    /// also written down in the state, which is then no longer due for
    /// drawing.
    pub fn place_cursor_at(&mut self, log_height: u16, last_width: usize) -> (place: (u16, u16, u16))
        ensures
            place.0 == spec_footer_row(old(self)@, log_height as int),
            place.1 == spec_cursor_row(old(self)@, log_height as int),
            place.2 == spec_cursor_col_at(last_width as int),
            final(self)@ == (AppStateView {
                inline: crate::tui::inline::InlineRenderState {
                    cursor_row: place.1,
                    cursor_col: place.2,
                    footer_row: Some(place.0),
                    input_rows: spec_input_row_count(old(self)@.input) as u16,
                    status_rows: 0,
                    dirty: false,
                    ..old(self)@.inline
                },
                ..old(self)@
            }),
    {
        let input_rows = self.input_row_count();
        let input_height = input_rows.saturating_add(1);
        let help_height: u16 = if self.suggestions.as_str().is_empty() {
            0
        } else {
            let rows = crate::text::lines(&str_chars(self.suggestions.as_str()));
            assert(row_views(rows@).len() == rows@.len());
            (rows.len() % 65536) as u16
        };
        let total = log_height.saturating_add(1).saturating_add(1).saturating_add(
            input_height,
        ).saturating_add(help_height).saturating_add(1);
        let footer_row = self.origin_y.saturating_add(total.saturating_sub(1));
        let cursor_row = self.origin_y.saturating_add(log_height).saturating_add(1).saturating_add(
            1,
        ).saturating_add(input_rows.saturating_sub(1));
        let offset = (last_width % 65536) as u16;
        let cursor_col = (2u16).saturating_add(offset);
        self.inline.cursor_row = cursor_row;
        self.inline.cursor_col = cursor_col;
        self.inline.footer_row = Some(footer_row);
        self.inline.input_rows = input_rows;
        self.inline.status_rows = 0;
        self.inline.dirty = false;
        (footer_row, cursor_row, cursor_col)
    }

    /// The last line of the input.
    pub fn last_input_line(&self) -> (line: String)
        ensures
            line@ == spec_last_input_line(self@),
    {
        let pieces = split(&str_chars(self.input.as_str()), '\n');
        assert(row_views(pieces@).len() == pieces@.len());
        assert(row_views(pieces@).last() == pieces@[pieces@.len() - 1]@);
        chars_to_string(&pieces[pieces.len() - 1])
    }

    /// Where the footer and the cursor go, given the rows kept for the
    /// log.
    pub fn place_cursor(&mut self, log_height: u16) -> (place: (u16, u16, u16))
        ensures
            place.0 == spec_footer_row(old(self)@, log_height as int),
            place.1 == spec_cursor_row(old(self)@, log_height as int),
            place.2 == spec_cursor_col(old(self)@),
            final(self)@ == (AppStateView {
                inline: crate::tui::inline::InlineRenderState {
                    cursor_row: place.1,
                    cursor_col: place.2,
                    footer_row: Some(place.0),
                    input_rows: spec_input_row_count(old(self)@.input) as u16,
                    status_rows: 0,
                    dirty: false,
                    ..old(self)@.inline
                },
                ..old(self)@
            }),
    {
        let last = self.last_input_line();
        let width = str_width(last.as_str());
        self.place_cursor_at(log_height, width)
    }

    /// The rows kept for the log. The least number of rows kept for the
    /// log is set to five once the log has five lines.
    pub fn log_height(&mut self) -> (rows: u16)
        ensures
            rows == spec_log_height(old(self)@),
            final(self)@ == (AppStateView {
                inline: crate::tui::inline::InlineRenderState {
                    min_log_rows: spec_min_log_rows(old(self)@) as u16,
                    ..old(self)@.inline
                },
                ..old(self)@
            }),
    {
        let mut rows: u16 = (self.log_lines.len() % 65536) as u16;
        if rows < 3 {
            rows = 3;
        }
        if rows >= 5 {
            self.inline.min_log_rows = 5;
        }
        if rows < self.inline.min_log_rows {
            rows = self.inline.min_log_rows;
        }
        rows
    }

    /// The rows of the input: the first after the prompt, the others
    /// indented to it, each cut to the width.
    pub fn input_lines(&self, width: usize) -> (out: Vec<String>)
        ensures
            string_views(out@) == Seq::new(
                spec_split(self@.input, '\n').len(),
                |i: int|
                    spec_fit_width(
                        (if i == 0 {
                            "> "@
                        } else {
                            "  "@
                        }) + spec_split(self@.input, '\n')[i],
                        width as nat,
                    ),
            ),
    {
        let pieces = split(&str_chars(self.input.as_str()), '\n');
        let mut out: Vec<String> = Vec::new();
        let mut i: usize = 0;
        let ghost rows = spec_split(self@.input, '\n');
        assert(row_views(pieces@).len() == pieces@.len());
        assert(string_views(out@) =~= Seq::new(
            0,
            |k: int|
                spec_fit_width(
                    (if k == 0 {
                        "> "@
                    } else {
                        "  "@
                    }) + rows[k],
                    width as nat,
                ),
        ));
        while i < pieces.len()
            invariant
                i <= pieces.len(),
                rows == row_views(pieces@),
                string_views(out@) == Seq::new(
                    i as nat,
                    |k: int|
                        spec_fit_width(
                            (if k == 0 {
                                "> "@
                            } else {
                                "  "@
                            }) + rows[k],
                            width as nat,
                        ),
                ),
            decreases pieces.len() - i,
        {
            let mut line = if i == 0 {
                str_chars("> ")
            } else {
                str_chars("  ")
            };
            extend_chars(&mut line, &pieces[i]);
            assert(rows[i as int] == pieces@[i as int]@);
            let row = fit_width(chars_to_string(&line).as_str(), width);
            proof {
                lemma_string_views_push(out@, row);
            }
            out.push(row);
            assert(string_views(out@) =~= Seq::new(
                (i + 1) as nat,
                |k: int|
                    spec_fit_width(
                        (if k == 0 {
                            "> "@
                        } else {
                            "  "@
                        }) + rows[k],
                        width as nat,
                    ),
            ));
            i += 1;
        }
        out
    }
}

} // verus!
