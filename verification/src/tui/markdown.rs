//! An answer written in Markdown, turned into rows for the terminal.
//!
//! The answer arrives as the events of a Markdown reader. Code blocks are
//! handed on line by line, to be set in colour elsewhere; everything else
//! becomes rows of text.

use crate::text::{
    extend_chars, extend_str, lemma_row_views_push, lines, row_views, spec_lines, spec_trim,
    str_chars, trim,
};
use crate::tui::ansi::{set_fg, spec_set_fg, Color};
use crate::tui::blocks::{spec_paint, spec_style_task_line, style_task_line};
use crate::tui::render::{
    fit_width_chars, reset_text, spec_colorize_line, spec_wrap_ansi_line, wrap_ansi_chars,
};
use vstd::prelude::*;

verus! {

/// What a Markdown reader comes across.
#[derive(Debug, Clone)]
pub enum MdEvent {
    StartParagraph,
    EndParagraph,
    StartHeading(u32),
    EndHeading,
    /// A code block begins; a fenced one names its language.
    StartCodeBlock(Option<String>),
    EndCodeBlock,
    StartBlockQuote,
    EndBlockQuote,
    StartItem,
    EndItem,
    Text(String),
    /// Code within a line.
    Code(String),
    SoftBreak,
    HardBreak,
    /// Anything else.
    Other,
}

pub enum MdEventView {
    StartParagraph,
    EndParagraph,
    StartHeading(u32),
    EndHeading,
    StartCodeBlock(Option<Seq<char>>),
    EndCodeBlock,
    StartBlockQuote,
    EndBlockQuote,
    StartItem,
    EndItem,
    Text(Seq<char>),
    Code(Seq<char>),
    SoftBreak,
    HardBreak,
    Other,
}

impl View for MdEvent {
    type V = MdEventView;

    open spec fn view(&self) -> MdEventView {
        match *self {
            MdEvent::StartParagraph => MdEventView::StartParagraph,
            MdEvent::EndParagraph => MdEventView::EndParagraph,
            MdEvent::StartHeading(level) => MdEventView::StartHeading(level),
            MdEvent::EndHeading => MdEventView::EndHeading,
            MdEvent::StartCodeBlock(lang) => MdEventView::StartCodeBlock(
                crate::text::opt_view(lang),
            ),
            MdEvent::EndCodeBlock => MdEventView::EndCodeBlock,
            MdEvent::StartBlockQuote => MdEventView::StartBlockQuote,
            MdEvent::EndBlockQuote => MdEventView::EndBlockQuote,
            MdEvent::StartItem => MdEventView::StartItem,
            MdEvent::EndItem => MdEventView::EndItem,
            MdEvent::Text(text) => MdEventView::Text(text@),
            MdEvent::Code(text) => MdEventView::Code(text@),
            MdEvent::SoftBreak => MdEventView::SoftBreak,
            MdEvent::HardBreak => MdEventView::HardBreak,
            MdEvent::Other => MdEventView::Other,
        }
    }
}

pub open spec fn event_views(events: Seq<MdEvent>) -> Seq<MdEventView> {
    Seq::new(events.len(), |i: int| events[i]@)
}

/// A piece of the rendered answer.
#[derive(Debug, Clone)]
pub enum MdItem {
    /// A finished row.
    Row(Vec<char>),
    /// The lines of a code block, in the language named; they are still to
    /// be set in colour and broken into rows.
    Code { lang: Vec<char>, lines: Vec<Vec<char>> },
}

pub enum MdItemView {
    Row(Seq<char>),
    Code { lang: Seq<char>, lines: Seq<Seq<char>> },
}

impl View for MdItem {
    type V = MdItemView;

    open spec fn view(&self) -> MdItemView {
        match *self {
            MdItem::Row(row) => MdItemView::Row(row@),
            MdItem::Code { lang, lines } => MdItemView::Code {
                lang: lang@,
                lines: row_views(lines@),
            },
        }
    }
}

pub open spec fn item_views(items: Seq<MdItem>) -> Seq<MdItemView> {
    Seq::new(items.len(), |i: int| items[i]@)
}

/// The colours that the rendering uses.
#[derive(Debug, Clone, Copy, PartialEq, Eq, Structural)]
pub struct MdColors {
    pub heading: Color,
    pub inline_code: Color,
    pub todo_checked: Color,
    pub todo_unchecked: Color,
}

/// What is known while the events are read.
pub struct MdState {
    pub items: Seq<MdItemView>,
    /// The text of the row that is being collected.
    pub current: Seq<char>,
    pub in_heading: bool,
    pub heading_level: u32,
    pub in_code_block: bool,
    pub code_lang: Option<Seq<char>>,
    pub code_lines: Seq<Seq<char>>,
    /// Whether a list item began and its dash is still to be written.
    pub list_prefix_pending: bool,
    pub blockquote_depth: u16,
}

pub open spec fn md_start() -> MdState {
    MdState {
        items: Seq::empty(),
        current: Seq::empty(),
        in_heading: false,
        heading_level: 0,
        in_code_block: false,
        code_lang: None,
        code_lines: Seq::empty(),
        list_prefix_pending: false,
        blockquote_depth: 0,
    }
}

pub open spec fn as_rows(rows: Seq<Seq<char>>) -> Seq<MdItemView> {
    Seq::new(rows.len(), |i: int| MdItemView::Row(rows[i]))
}

/// The collected text becomes rows, broken at the width.
pub open spec fn md_flush(st: MdState, width: nat) -> MdState {
    MdState {
        items: st.items + as_rows(spec_wrap_ansi_line(st.current, width)),
        current: Seq::empty(),
        ..st
    }
}

/// The collected text becomes rows where it holds more than white space.
pub open spec fn md_flush_text(st: MdState, width: nat) -> MdState {
    if spec_trim(st.current).len() > 0 {
        md_flush(st, width)
    } else {
        st
    }
}

/// The collected text becomes rows as the item of a list, where it holds
/// more than white space.
pub open spec fn md_flush_item(st: MdState, width: nat, colors: MdColors) -> MdState {
    if spec_trim(st.current).len() > 0 {
        MdState {
            items: st.items + as_rows(
                spec_style_task_line(
                    st.current,
                    width,
                    colors.todo_checked,
                    colors.todo_unchecked,
                ),
            ),
            current: Seq::empty(),
            ..st
        }
    } else {
        st
    }
}

pub open spec fn hashes(level: nat) -> Seq<char> {
    Seq::new(level, |i: int| '#')
}

/// The row of a heading: as many `#` as its level, then its words, in the
/// colour of headings.
pub open spec fn spec_heading_row(st: MdState, width: nat, colors: MdColors) -> Seq<char> {
    spec_colorize_line(
        hashes(st.heading_level as nat) + seq![' '] + spec_trim(st.current),
        width,
        spec_set_fg(colors.heading),
    )
}

/// What goes before text within a line: the dash of a list item that just
/// began, and the mark of a quotation at the beginning of a row.
pub open spec fn md_prefix(st: MdState) -> MdState {
    let dashed = if st.list_prefix_pending {
        MdState {
            current: st.current + (if st.blockquote_depth > 0 {
                "> "@
            } else {
                Seq::empty()
            }) + "- "@,
            list_prefix_pending: false,
            ..st
        }
    } else {
        st
    };
    if dashed.blockquote_depth > 0 && dashed.current.len() == 0 {
        MdState { current: "> "@, ..dashed }
    } else {
        dashed
    }
}

/// One event is read.
pub open spec fn md_step(st: MdState, event: MdEventView, width: nat, colors: MdColors) -> MdState {
    match event {
        MdEventView::StartParagraph => md_flush_text(st, width),
        MdEventView::EndParagraph => md_flush_text(st, width),
        MdEventView::StartHeading(level) => MdState {
            in_heading: true,
            heading_level: level,
            current: Seq::empty(),
            ..st
        },
        MdEventView::EndHeading => MdState {
            items: st.items + as_rows(
                spec_wrap_ansi_line(spec_heading_row(st, width, colors), width),
            ),
            current: Seq::empty(),
            in_heading: false,
            ..st
        },
        MdEventView::StartCodeBlock(lang) => MdState {
            in_code_block: true,
            code_lines: Seq::empty(),
            code_lang: lang,
            ..st
        },
        MdEventView::EndCodeBlock => MdState {
            items: st.items.push(
                MdItemView::Code {
                    lang: match st.code_lang {
                        Some(lang) => lang,
                        None => Seq::empty(),
                    },
                    lines: st.code_lines,
                },
            ),
            code_lines: Seq::empty(),
            in_code_block: false,
            code_lang: None,
            ..st
        },
        MdEventView::StartBlockQuote => MdState {
            blockquote_depth: if st.blockquote_depth == u16::MAX {
                u16::MAX
            } else {
                (st.blockquote_depth + 1) as u16
            },
            ..st
        },
        MdEventView::EndBlockQuote => md_flush_text(
            MdState {
                blockquote_depth: if st.blockquote_depth == 0 {
                    0
                } else {
                    (st.blockquote_depth - 1) as u16
                },
                ..st
            },
            width,
        ),
        MdEventView::StartItem => MdState { list_prefix_pending: true, ..st },
        MdEventView::EndItem => md_flush_item(
            MdState { list_prefix_pending: false, ..st },
            width,
            colors,
        ),
        MdEventView::Text(text) => if st.in_code_block {
            MdState { code_lines: st.code_lines + spec_lines(text), ..st }
        } else if st.in_heading {
            MdState { current: st.current + text, ..st }
        } else {
            let st = md_prefix(st);
            MdState { current: st.current + text, ..st }
        },
        MdEventView::Code(text) => {
            let st = md_prefix(st);
            MdState { current: st.current + spec_paint(text, colors.inline_code), ..st }
        },
        MdEventView::SoftBreak => if st.in_code_block {
            MdState { code_lines: st.code_lines.push(Seq::empty()), ..st }
        } else {
            md_flush(st, width)
        },
        MdEventView::HardBreak => md_flush(st, width),
        MdEventView::Other => st,
    }
}

pub open spec fn md_scan(events: Seq<MdEventView>, upto: int, width: nat, colors: MdColors) -> MdState
    decreases upto,
{
    if upto <= 0 || upto > events.len() {
        md_start()
    } else {
        md_step(md_scan(events, upto - 1, width, colors), events[upto - 1], width, colors)
    }
}

/// The rendered answer: what the events add up to, and at the end the text
/// that is still collected, as the item of a list.
pub open spec fn spec_render_markdown(events: Seq<MdEventView>, width: nat, colors: MdColors) -> Seq<
    MdItemView,
> {
    md_flush_item(md_scan(events, events.len() as int, width, colors), width, colors).items
}

/// The exec twin of `MdState`.
struct Renderer {
    items: Vec<MdItem>,
    current: Vec<char>,
    in_heading: bool,
    heading_level: u32,
    in_code_block: bool,
    code_lang: Option<Vec<char>>,
    code_lines: Vec<Vec<char>>,
    list_prefix_pending: bool,
    blockquote_depth: u16,
}

impl View for Renderer {
    type V = MdState;

    closed spec fn view(&self) -> MdState {
        MdState {
            items: item_views(self.items@),
            current: self.current@,
            in_heading: self.in_heading,
            heading_level: self.heading_level,
            in_code_block: self.in_code_block,
            code_lang: match self.code_lang {
                Some(lang) => Some(lang@),
                None => None,
            },
            code_lines: row_views(self.code_lines@),
            list_prefix_pending: self.list_prefix_pending,
            blockquote_depth: self.blockquote_depth,
        }
    }
}

fn push_rows(items: &mut Vec<MdItem>, rows: Vec<Vec<char>>)
    ensures
        item_views(final(items)@) == item_views(old(items)@) + as_rows(row_views(rows@)),
{
    let mut i: usize = 0;
    assert(item_views(items@) =~= item_views(old(items)@) + as_rows(row_views(rows@).take(0)));
    while i < rows.len()
        invariant
            i <= rows.len(),
            item_views(items@) == item_views(old(items)@) + as_rows(
                row_views(rows@).take(i as int),
            ),
        decreases rows.len() - i,
    {
        let mut row: Vec<char> = Vec::new();
        extend_chars(&mut row, &rows[i]);
        let ghost before = items@;
        items.push(MdItem::Row(row));
        assert(item_views(items@) =~= item_views(before).push(MdItemView::Row(row@)));
        assert(item_views(items@) =~= item_views(old(items)@) + as_rows(
            row_views(rows@).take(i + 1),
        ));
        i += 1;
    }
    assert(row_views(rows@).take(rows@.len() as int) =~= row_views(rows@));
}

impl Renderer {
    fn new() -> (r: Renderer)
        ensures
            r@ == md_start(),
    {
        let r = Renderer {
            items: Vec::new(),
            current: Vec::new(),
            in_heading: false,
            heading_level: 0,
            in_code_block: false,
            code_lang: None,
            code_lines: Vec::new(),
            list_prefix_pending: false,
            blockquote_depth: 0,
        };
        assert(item_views(r.items@) =~= Seq::empty());
        assert(row_views(r.code_lines@) =~= Seq::empty());
        r
    }

    fn flush(&mut self, width: usize)
        ensures
            final(self)@ == md_flush(old(self)@, width as nat),
    {
        let rows = wrap_ansi_chars(&self.current, width);
        push_rows(&mut self.items, rows);
        self.current = Vec::new();
    }

    fn flush_text(&mut self, width: usize)
        ensures
            final(self)@ == md_flush_text(old(self)@, width as nat),
    {
        if trim(&self.current).len() > 0 {
            self.flush(width);
        }
    }

    fn flush_item(&mut self, width: usize, colors: MdColors)
        ensures
            final(self)@ == md_flush_item(old(self)@, width as nat, colors),
    {
        if trim(&self.current).len() > 0 {
            let rows = style_task_line(
                &self.current,
                width,
                colors.todo_checked,
                colors.todo_unchecked,
            );
            push_rows(&mut self.items, rows);
            self.current = Vec::new();
        }
    }

    fn prefix(&mut self)
        ensures
            final(self)@ == md_prefix(old(self)@),
    {
        if self.list_prefix_pending {
            if self.blockquote_depth > 0 {
                extend_str(&mut self.current, "> ");
            }
            extend_str(&mut self.current, "- ");
            self.list_prefix_pending = false;
            assert(self.current@ =~= old(self)@.current + (if old(self)@.blockquote_depth > 0 {
                "> "@
            } else {
                Seq::empty()
            }) + "- "@);
        }
        if self.blockquote_depth > 0 && self.current.len() == 0 {
            extend_str(&mut self.current, "> ");
            assert(self.current@ =~= "> "@);
        }
    }

    fn end_heading(&mut self, width: usize, colors: MdColors)
        ensures
            final(self)@ == md_step(old(self)@, MdEventView::EndHeading, width as nat, colors),
    {
        let mut line: Vec<char> = Vec::new();
        let mut k: u32 = 0;
        while k < self.heading_level
            invariant
                k <= self.heading_level,
                *self == *old(self),
                line@ == hashes(k as nat),
            decreases self.heading_level - k,
        {
            line.push('#');
            assert(line@ =~= hashes((k + 1) as nat));
            k += 1;
        }
        line.push(' ');
        extend_chars(&mut line, &trim(&self.current));
        assert(line@ =~= hashes(self.heading_level as nat) + seq![' '] + spec_trim(self.current@));
        let mut styled = str_chars(set_fg(colors.heading).as_str());
        extend_chars(&mut styled, &fit_width_chars(&line, width));
        proof {
            reveal_strlit("\x1b[0m");
            reveal_strlit("\x1b");
            reveal_strlit("[0m");
            assert("\x1b[0m"@ =~= reset_text());
        }
        extend_str(&mut styled, "\x1b[0m");
        assert(styled@ =~= spec_heading_row(old(self)@, width as nat, colors));
        let rows = wrap_ansi_chars(&styled, width);
        push_rows(&mut self.items, rows);
        self.current = Vec::new();
        self.in_heading = false;
    }

    fn end_code_block(&mut self)
        ensures
            forall|width: nat, colors: MdColors|
                final(self)@ == #[trigger] md_step(
                    old(self)@,
                    MdEventView::EndCodeBlock,
                    width,
                    colors,
                ),
    {
        let mut lang: Vec<char> = Vec::new();
        if let Some(named) = &self.code_lang {
            extend_chars(&mut lang, named);
        }
        let mut lines: Vec<Vec<char>> = Vec::new();
        let mut i: usize = 0;
        assert(row_views(lines@) =~= row_views(self.code_lines@).take(0));
        while i < self.code_lines.len()
            invariant
                i <= self.code_lines.len(),
                *self == *old(self),
                row_views(lines@) == row_views(self.code_lines@).take(i as int),
            decreases self.code_lines.len() - i,
        {
            let mut row: Vec<char> = Vec::new();
            extend_chars(&mut row, &self.code_lines[i]);
            proof {
                lemma_row_views_push(lines@, row);
            }
            lines.push(row);
            assert(row_views(lines@) =~= row_views(self.code_lines@).take(i + 1));
            i += 1;
        }
        assert(row_views(self.code_lines@).take(self.code_lines@.len() as int) =~= row_views(
            self.code_lines@,
        ));
        let ghost before = self.items@;
        let item = MdItem::Code { lang, lines };
        self.items.push(item);
        assert(item_views(self.items@) =~= item_views(before).push(item@));
        self.code_lines = Vec::new();
        assert(row_views(self.code_lines@) =~= Seq::empty());
        self.in_code_block = false;
        self.code_lang = None;
    }

    fn text(&mut self, text: &str)
        ensures
            forall|width: nat, colors: MdColors|
                final(self)@ == #[trigger] md_step(
                    old(self)@,
                    MdEventView::Text(text@),
                    width,
                    colors,
                ),
    {
        if self.in_code_block {
            let rows = lines(&str_chars(text));
            let mut i: usize = 0;
            let ghost start = row_views(self.code_lines@);
            assert(row_views(self.code_lines@) =~= start + row_views(rows@).take(0));
            while i < rows.len()
                invariant
                    i <= rows.len(),
                    start == row_views(old(self).code_lines@),
                    row_views(self.code_lines@) == start + row_views(rows@).take(i as int),
                    *self == (Renderer { code_lines: self.code_lines, ..*old(self) }),
                decreases rows.len() - i,
            {
                let mut row: Vec<char> = Vec::new();
                extend_chars(&mut row, &rows[i]);
                proof {
                    lemma_row_views_push(self.code_lines@, row);
                }
                self.code_lines.push(row);
                assert(row_views(self.code_lines@) =~= start + row_views(rows@).take(i + 1));
                i += 1;
            }
            assert(row_views(rows@).take(rows@.len() as int) =~= row_views(rows@));
        } else if self.in_heading {
            extend_str(&mut self.current, text);
        } else {
            self.prefix();
            extend_str(&mut self.current, text);
        }
    }

    fn code(&mut self, text: &str, colors: MdColors)
        ensures
            forall|width: nat|
                final(self)@ == #[trigger] md_step(
                    old(self)@,
                    MdEventView::Code(text@),
                    width,
                    colors,
                ),
    {
        self.prefix();
        let ghost mid = self.current@;
        extend_str(&mut self.current, set_fg(colors.inline_code).as_str());
        extend_str(&mut self.current, text);
        proof {
            reveal_strlit("\x1b[0m");
            reveal_strlit("\x1b");
            reveal_strlit("[0m");
            assert("\x1b[0m"@ =~= reset_text());
        }
        extend_str(&mut self.current, "\x1b[0m");
        assert(self.current@ =~= mid + spec_paint(text@, colors.inline_code));
    }

    fn step(&mut self, event: &MdEvent, width: usize, colors: MdColors)
        ensures
            final(self)@ == md_step(old(self)@, event@, width as nat, colors),
    {
        match event {
            MdEvent::StartParagraph => self.flush_text(width),
            MdEvent::EndParagraph => self.flush_text(width),
            MdEvent::StartHeading(level) => {
                self.in_heading = true;
                self.heading_level = *level;
                self.current = Vec::new();
            },
            MdEvent::EndHeading => self.end_heading(width, colors),
            MdEvent::StartCodeBlock(lang) => {
                self.in_code_block = true;
                self.code_lines = Vec::new();
                assert(row_views(self.code_lines@) =~= Seq::empty());
                self.code_lang = match lang {
                    Some(lang) => Some(str_chars(lang.as_str())),
                    None => None,
                };
            },
            MdEvent::EndCodeBlock => {
                self.end_code_block();
                assert(self@ == md_step(
                    old(self)@,
                    MdEventView::EndCodeBlock,
                    width as nat,
                    colors,
                ));
            },
            MdEvent::StartBlockQuote => {
                if self.blockquote_depth < u16::MAX {
                    self.blockquote_depth = self.blockquote_depth + 1;
                }
            },
            MdEvent::EndBlockQuote => {
                if self.blockquote_depth > 0 {
                    self.blockquote_depth = self.blockquote_depth - 1;
                }
                self.flush_text(width);
            },
            MdEvent::StartItem => {
                self.list_prefix_pending = true;
            },
            MdEvent::EndItem => {
                self.list_prefix_pending = false;
                self.flush_item(width, colors);
            },
            MdEvent::Text(text) => {
                self.text(text.as_str());
                assert(self@ == md_step(
                    old(self)@,
                    MdEventView::Text(text@),
                    width as nat,
                    colors,
                ));
            },
            MdEvent::Code(text) => {
                self.code(text.as_str(), colors);
                assert(self@ == md_step(
                    old(self)@,
                    MdEventView::Code(text@),
                    width as nat,
                    colors,
                ));
            },
            MdEvent::SoftBreak => {
                if self.in_code_block {
                    let row: Vec<char> = Vec::new();
                    proof {
                        lemma_row_views_push(self.code_lines@, row);
                    }
                    self.code_lines.push(row);
                } else {
                    self.flush(width);
                }
            },
            MdEvent::HardBreak => self.flush(width),
            MdEvent::Other => {},
        }
    }
}

/// The rendered answer.
pub fn render_markdown_lines(events: &Vec<MdEvent>, width: usize, colors: MdColors) -> (out: Vec<
    MdItem,
>)
    ensures
        item_views(out@) == spec_render_markdown(event_views(events@), width as nat, colors),
{
    let mut renderer = Renderer::new();
    let mut i: usize = 0;
    while i < events.len()
        invariant
            i <= events.len(),
            renderer@ == md_scan(event_views(events@), i as int, width as nat, colors),
        decreases events.len() - i,
    {
        assert(event_views(events@)[i as int] == events@[i as int]@);
        renderer.step(&events[i], width, colors);
        i += 1;
    }
    renderer.flush_item(width, colors);
    renderer.items
}

} // verus!
