//! Streams of text that arrive in pieces: the lines of a model's streamed
//! answer, and the events of a server's answer.

use crate::text::{
    chars_eq_str, chars_to_string, extend_str, find_char_from, index_of_from, join_strings,
    lemma_string_views_push, opt_view, slice_chars, spec_join, spec_starts_with, spec_trim,
    spec_trim_start, starts_with_str, str_chars, string_views, strip_cr, trim, trim_start,
};
use vstd::prelude::*;

verus! {

/// Collects the pieces of a streamed answer and hands out its lines.
#[derive(Debug, Clone)]
pub struct LineStream {
    /// What has arrived and was not handed out yet.
    pub buffer: String,
    /// Whether the stream is over.
    pub done: bool,
}

pub struct LineStreamView {
    pub buffer: Seq<char>,
    pub done: bool,
}

impl View for LineStream {
    type V = LineStreamView;

    open spec fn view(&self) -> LineStreamView {
        LineStreamView { buffer: self.buffer@, done: self.done }
    }
}

/// What to do next with a stream.
#[derive(Debug, Clone)]
pub enum LineStep {
    /// The stream is over.
    Ended,
    /// More has to arrive before there is a line.
    NeedMore,
    /// A line has arrived; this is it, without the white space around it.
    Line(String),
}

pub enum LineStepView {
    Ended,
    NeedMore,
    Line(Seq<char>),
}

impl View for LineStep {
    type V = LineStepView;

    open spec fn view(&self) -> LineStepView {
        match *self {
            LineStep::Ended => LineStepView::Ended,
            LineStep::NeedMore => LineStepView::NeedMore,
            LineStep::Line(text) => LineStepView::Line(text@),
        }
    }
}

/// The first line of `buffer[from..]` that holds more than white space,
/// trimmed, and where the buffer goes on after it; without such a line,
/// what is left of the buffer after its last line feed.
pub open spec fn spec_next_line(buffer: Seq<char>, from: int) -> (Option<Seq<char>>, int)
    decreases buffer.len() - from,
{
    let nl = index_of_from(buffer, '\n', from);
    if from < 0 || from > buffer.len() || nl >= buffer.len() || nl < from {
        (None, from)
    } else {
        let line = spec_trim(buffer.subrange(from, nl));
        if line.len() == 0 {
            spec_next_line(buffer, nl + 1)
        } else {
            (Some(line), nl + 1)
        }
    }
}

/// A stream after it was asked for its next line.
pub open spec fn spec_poll(stream: LineStreamView) -> (LineStreamView, LineStepView) {
    if stream.done {
        (stream, LineStepView::Ended)
    } else {
        let found = spec_next_line(stream.buffer, 0);
        let rest = stream.buffer.subrange(found.1, stream.buffer.len() as int);
        match found.0 {
            Some(line) => (LineStreamView { buffer: rest, ..stream }, LineStepView::Line(line)),
            None => (LineStreamView { buffer: rest, ..stream }, LineStepView::NeedMore),
        }
    }
}

/// What a message of the stream comes to: the text to hand on, if any, and
/// whether the stream is over. The last message ends the stream; where it
/// is empty, nothing is handed on for it.
pub open spec fn spec_on_message(response: Seq<char>, done: bool) -> (Option<Seq<char>>, bool) {
    if done && response.len() == 0 {
        (None, true)
    } else {
        (Some(response), done)
    }
}

impl LineStream {
    pub fn new() -> (stream: LineStream)
        ensures
            stream@ == (LineStreamView { buffer: Seq::empty(), done: false }),
    {
        LineStream { buffer: String::new(), done: false }
    }

    /// Takes in a piece that arrived.
    pub fn push_chunk(&mut self, chunk: &str)
        ensures
            final(self)@ == (LineStreamView { buffer: old(self)@.buffer + chunk@, ..old(self)@ }),
    {
        let mut buffer = str_chars(self.buffer.as_str());
        extend_str(&mut buffer, chunk);
        self.buffer = chars_to_string(&buffer);
    }

    /// Hands out the next line, if one has arrived. Lines of white space
    /// are passed over.
    pub fn poll(&mut self) -> (step: LineStep)
        ensures
            (final(self)@, step@) == spec_poll(old(self)@),
    {
        if self.done {
            return LineStep::Ended;
        }
        let buffer = str_chars(self.buffer.as_str());
        let mut from: usize = 0;
        loop
            invariant
                from <= buffer.len(),
                buffer@ == old(self)@.buffer,
                !self.done,
                *self == *old(self),
                spec_next_line(buffer@, 0) == spec_next_line(buffer@, from as int),
            decreases buffer.len() - from,
        {
            let nl = find_char_from(&buffer, '\n', from);
            if nl >= buffer.len() {
                self.buffer = chars_to_string(&slice_chars(&buffer, from, buffer.len()));
                return LineStep::NeedMore;
            }
            let line = trim(&slice_chars(&buffer, from, nl));
            if line.len() > 0 {
                self.buffer = chars_to_string(&slice_chars(&buffer, nl + 1, buffer.len()));
                return LineStep::Line(chars_to_string(&line));
            }
            from = nl + 1;
        }
    }

    /// Takes in a message that was read from a line: what to hand on for
    /// it, if anything. The last message ends the stream.
    pub fn on_message(&mut self, response: String, done: bool) -> (out: Option<String>)
        ensures
            opt_view(out) == spec_on_message(response@, done).0,
            final(self)@ == (LineStreamView { done: old(self)@.done || done, ..old(self)@ }),
    {
        if done {
            self.done = true;
            if response.as_str().is_empty() {
                return None;
            }
        }
        Some(response)
    }

    /// Ends the stream after a failure.
    pub fn fail(&mut self)
        ensures
            final(self)@ == (LineStreamView { done: true, ..old(self)@ }),
    {
        self.done = true;
    }

    /// Nothing more will arrive: what is left in the buffer is the last
    /// line, where it holds more than white space. The stream is over.
    pub fn finish(&mut self) -> (line: Option<String>)
        ensures
            old(self)@.done ==> line is None && final(self)@ == old(self)@,
            !old(self)@.done ==> final(self)@ == (LineStreamView {
                buffer: Seq::empty(),
                done: true,
            }) && opt_view(line) == (if spec_trim(old(self)@.buffer).len() == 0 {
                None
            } else {
                Some(spec_trim(old(self)@.buffer))
            }),
    {
        if self.done {
            return None;
        }
        let line = trim(&str_chars(self.buffer.as_str()));
        self.buffer = String::new();
        self.done = true;
        if line.len() == 0 {
            None
        } else {
            Some(chars_to_string(&line))
        }
    }
}

/// Collects the pieces of a server's answer and hands out its events.
#[derive(Debug, Clone)]
pub struct SseParser {
    /// What has arrived after the last line feed.
    pub buffer: String,
    /// The data lines of the event that is not complete yet.
    pub data_lines: Vec<String>,
}

pub struct SseView {
    pub buffer: Seq<char>,
    pub data_lines: Seq<Seq<char>>,
}

impl View for SseParser {
    type V = SseView;

    open spec fn view(&self) -> SseView {
        SseView { buffer: self.buffer@, data_lines: string_views(self.data_lines@) }
    }
}

/// What was made of a text: the data lines of the event that is not
/// complete, the events that are, and where the last line that is not
/// complete begins.
pub struct SseScan {
    pub data_lines: Seq<Seq<char>>,
    pub events: Seq<Seq<char>>,
    pub rest: int,
}

/// What one complete line adds. An empty line ends the event: its data
/// lines, joined by line feeds, are its data, which counts unless it is
/// `[DONE]`. A line that begins with `data:` adds what follows, without
/// the white space before it, to the event. Every other line is passed
/// over.
pub open spec fn spec_sse_line(scan: SseScan, line: Seq<char>, next: int) -> SseScan {
    if line.len() == 0 {
        if scan.data_lines.len() > 0 {
            let data = spec_join(scan.data_lines, seq!['\n']);
            SseScan {
                data_lines: Seq::empty(),
                events: if data == "[DONE]"@ {
                    scan.events
                } else {
                    scan.events.push(data)
                },
                rest: next,
            }
        } else {
            SseScan { rest: next, ..scan }
        }
    } else if spec_starts_with(line, "data:"@) {
        SseScan {
            data_lines: scan.data_lines.push(spec_trim_start(line.subrange(5, line.len() as int))),
            rest: next,
            ..scan
        }
    } else {
        SseScan { rest: next, ..scan }
    }
}

/// Reads the complete lines of `text` from `scan.rest` on. A line ends at
/// a line feed; a carriage return before it does not belong to the line.
pub open spec fn spec_sse_scan(text: Seq<char>, scan: SseScan) -> SseScan
    decreases text.len() - scan.rest,
{
    let nl = index_of_from(text, '\n', scan.rest);
    if scan.rest < 0 || scan.rest > text.len() || nl >= text.len() || nl < scan.rest {
        scan
    } else {
        spec_sse_scan(
            text,
            spec_sse_line(scan, strip_cr(text.subrange(scan.rest, nl)), nl + 1),
        )
    }
}

/// What a piece that arrived makes of the parser, and the events that it
/// completes.
pub open spec fn spec_sse_feed(parser: SseView, chunk: Seq<char>) -> (SseView, Seq<Seq<char>>) {
    let text = parser.buffer + chunk;
    let scan = spec_sse_scan(
        text,
        SseScan { data_lines: parser.data_lines, events: Seq::empty(), rest: 0 },
    );
    (
        SseView {
            buffer: text.subrange(scan.rest, text.len() as int),
            data_lines: scan.data_lines,
        },
        scan.events,
    )
}

impl SseParser {
    pub fn new() -> (parser: SseParser)
        ensures
            parser@ == (SseView { buffer: Seq::empty(), data_lines: Seq::empty() }),
    {
        let parser = SseParser { buffer: String::new(), data_lines: Vec::new() };
        assert(parser@.data_lines =~= Seq::empty());
        parser
    }

    /// Takes in a piece that arrived and hands out the data of the events
    /// that it completes, in order.
    pub fn feed(&mut self, chunk: &str) -> (events: Vec<String>)
        ensures
            (final(self)@, string_views(events@)) == spec_sse_feed(old(self)@, chunk@),
    {
        let mut text = str_chars(self.buffer.as_str());
        extend_str(&mut text, chunk);
        let mut events: Vec<String> = Vec::new();
        let mut from: usize = 0;
        let ghost start = SseScan {
            data_lines: old(self)@.data_lines,
            events: Seq::empty(),
            rest: 0,
        };
        assert(string_views(events@) =~= Seq::<Seq<char>>::empty());
        loop
            invariant
                from <= text.len(),
                text@ == old(self)@.buffer + chunk@,
                start == (SseScan {
                    data_lines: old(self)@.data_lines,
                    events: Seq::empty(),
                    rest: 0,
                }),
                spec_sse_scan(text@, start) == spec_sse_scan(
                    text@,
                    SseScan {
                        data_lines: string_views(self.data_lines@),
                        events: string_views(events@),
                        rest: from as int,
                    },
                ),
            decreases text.len() - from,
        {
            let ghost scan = SseScan {
                data_lines: string_views(self.data_lines@),
                events: string_views(events@),
                rest: from as int,
            };
            let nl = find_char_from(&text, '\n', from);
            if nl >= text.len() {
                assert(spec_sse_scan(text@, scan) == scan);
                self.buffer = chars_to_string(&slice_chars(&text, from, text.len()));
                return events;
            }
            let mut end: usize = nl;
            if end > from && text[end - 1] == '\r' {
                end -= 1;
            }
            let line = slice_chars(&text, from, end);
            assert(line@ =~= strip_cr(text@.subrange(from as int, nl as int)));
            if line.len() == 0 {
                if self.data_lines.len() > 0 {
                    proof {
                        reveal_strlit("\n");
                        assert("\n"@ =~= seq!['\n']);
                    }
                    let data = join_strings(&self.data_lines, "\n");
                    self.data_lines = Vec::new();
                    assert(string_views(self.data_lines@) =~= Seq::<Seq<char>>::empty());
                    if !chars_eq_str(&data, "[DONE]") {
                        let event = chars_to_string(&data);
                        proof {
                            lemma_string_views_push(events@, event);
                        }
                        events.push(event);
                    }
                }
            } else if starts_with_str(&line, "data:") {
                proof {
                    reveal_strlit("data:");
                }
                let rest = trim_start(&slice_chars(&line, 5, line.len()));
                let item = chars_to_string(&rest);
                proof {
                    lemma_string_views_push(self.data_lines@, item);
                }
                self.data_lines.push(item);
            }
            from = nl + 1;
            assert(SseScan {
                data_lines: string_views(self.data_lines@),
                events: string_views(events@),
                rest: from as int,
            } == spec_sse_line(scan, line@, nl + 1));
        }
    }
}

} // verus!
