//! What the interface knows: the log on screen, the input line, the queue
//! of instructions and the conversation so far.

use crate::text::{
    chars_to_string, clone_string, extend_chars, extend_str, join_rows, lemma_row_views_push,
    lines, row_views, spec_join, spec_lines, spec_split, spec_trim, split, str_chars, trim,
};
use crate::tui::inline::InlineRenderState;
use std::collections::VecDeque;
use vstd::prelude::*;

verus! {

/// Who said a turn of the conversation.
#[derive(Debug, Clone, Copy, PartialEq, Eq, Structural)]
pub enum ConversationRole {
    User,
    Assistant,
}

/// One turn of the conversation.
#[derive(Debug, Clone)]
pub struct ConversationTurn {
    pub role: ConversationRole,
    pub content: String,
}

pub struct TurnView {
    pub role: ConversationRole,
    pub content: Seq<char>,
}

impl View for ConversationTurn {
    type V = TurnView;

    open spec fn view(&self) -> TurnView {
        TurnView { role: self.role, content: self.content@ }
    }
}

pub open spec fn turn_views(turns: Seq<ConversationTurn>) -> Seq<TurnView> {
    Seq::new(turns.len(), |i: int| turns[i]@)
}

/// An instruction that waits for its turn.
#[derive(Debug, Clone)]
pub struct PendingInput {
    pub text: String,
    /// Whether the instruction is already shown in the log.
    pub logged: bool,
}

pub struct PendingView {
    pub text: Seq<char>,
    pub logged: bool,
}

impl View for PendingInput {
    type V = PendingView;

    open spec fn view(&self) -> PendingView {
        PendingView { text: self.text@, logged: self.logged }
    }
}

pub open spec fn pending_views(queue: Seq<PendingInput>) -> Seq<PendingView> {
    Seq::new(queue.len(), |i: int| queue[i]@)
}

/// Whose words a line of the log holds.
#[derive(Debug, Clone, Copy, PartialEq, Eq, Structural)]
pub enum LogRole {
    User,
    Assistant,
    System,
}

/// One line of the log.
#[derive(Debug, Clone)]
pub struct LogLine {
    pub role: LogRole,
    pub text: String,
}

pub struct LogLineView {
    pub role: LogRole,
    pub text: Seq<char>,
}

impl View for LogLine {
    type V = LogLineView;

    open spec fn view(&self) -> LogLineView {
        LogLineView { role: self.role, text: self.text@ }
    }
}

pub open spec fn log_views(log: Seq<LogLine>) -> Seq<LogLineView> {
    Seq::new(log.len(), |i: int| log[i]@)
}

pub proof fn lemma_log_views_push(log: Seq<LogLine>, line: LogLine)
    ensures
        log_views(log.push(line)) == log_views(log).push(line@),
{
    assert(log_views(log.push(line)) =~= log_views(log).push(line@));
}

/// The lines of a text as log lines of one role.
pub open spec fn spec_log_lines(rows: Seq<Seq<char>>, role: LogRole) -> Seq<LogLineView> {
    Seq::new(rows.len(), |i: int| LogLineView { role, text: rows[i] })
}

/// Everything the interface knows.
#[derive(Debug, Clone)]
pub struct AppState {
    pub should_quit: bool,
    pub log_lines: VecDeque<LogLine>,
    pub input: String,
    pub suggestions: String,
    pub origin_y: u16,
    pub inline: InlineRenderState,
    pub status_model: String,
    pub status_build: String,
    /// Whether an instruction is being worked on.
    pub running: bool,
    pub status_detail: String,
    pub tick: u64,
    pub queue: VecDeque<PendingInput>,
    pub history: Vec<String>,
    pub history_index: Option<usize>,
    pub draft_input: String,
    /// Whether a request for approval waits for a key.
    pub approval_pending: bool,
    pub conversation: Vec<ConversationTurn>,
    pub current_assistant: String,
}

pub struct AppStateView {
    pub should_quit: bool,
    pub log: Seq<LogLineView>,
    pub input: Seq<char>,
    pub suggestions: Seq<char>,
    pub origin_y: u16,
    pub inline: InlineRenderState,
    pub status_model: Seq<char>,
    pub status_build: Seq<char>,
    pub running: bool,
    pub status_detail: Seq<char>,
    pub tick: u64,
    pub queue: Seq<PendingView>,
    pub history: Seq<Seq<char>>,
    pub history_index: Option<usize>,
    pub draft_input: Seq<char>,
    pub approval_pending: bool,
    pub conversation: Seq<TurnView>,
    pub current_assistant: Seq<char>,
}

impl View for AppState {
    type V = AppStateView;

    open spec fn view(&self) -> AppStateView {
        AppStateView {
            should_quit: self.should_quit,
            log: log_views(self.log_lines@),
            input: self.input@,
            suggestions: self.suggestions@,
            origin_y: self.origin_y,
            inline: self.inline,
            status_model: self.status_model@,
            status_build: self.status_build@,
            running: self.running,
            status_detail: self.status_detail@,
            tick: self.tick,
            queue: pending_views(self.queue@),
            history: crate::text::string_views(self.history@),
            history_index: self.history_index,
            draft_input: self.draft_input@,
            approval_pending: self.approval_pending,
            conversation: turn_views(self.conversation@),
            current_assistant: self.current_assistant@,
        }
    }
}

/// The state that the interface starts in: the banner in the log, line by
/// line, and nothing else.
pub open spec fn spec_new_state(banner: Seq<char>, status_model: Seq<char>, status_build: Seq<char>) -> AppStateView {
    AppStateView {
        should_quit: false,
        log: spec_log_lines(spec_lines(banner), LogRole::System),
        input: Seq::empty(),
        suggestions: Seq::empty(),
        origin_y: 0,
        inline: InlineRenderState {
            cursor_row: 0,
            cursor_col: 0,
            footer_row: None,
            input_rows: 0,
            status_rows: 0,
            min_log_rows: 3,
            dirty: true,
        },
        status_model,
        status_build,
        running: false,
        status_detail: "idle"@,
        tick: 0,
        queue: Seq::empty(),
        history: Seq::empty(),
        history_index: None,
        draft_input: Seq::empty(),
        approval_pending: false,
        conversation: Seq::empty(),
        current_assistant: Seq::empty(),
    }
}

/// The name under which a role stands in the context handed to the model.
pub open spec fn spec_role_label(role: ConversationRole) -> Seq<char> {
    match role {
        ConversationRole::User => "ユーザー"@,
        ConversationRole::Assistant => "アシスタント"@,
    }
}

pub open spec fn spec_turn_line(turn: TurnView) -> Seq<char> {
    spec_role_label(turn.role) + ": "@ + turn.content
}

/// The first turn that belongs to the last `max_turns` turns.
pub open spec fn spec_context_start(len: int, max_turns: int) -> int {
    if len > max_turns {
        len - max_turns
    } else {
        0
    }
}

/// The last `max_turns` turns of the conversation, one per line.
pub open spec fn spec_build_context(turns: Seq<TurnView>, max_turns: int) -> Seq<char> {
    let start = spec_context_start(turns.len() as int, max_turns);
    spec_join(
        Seq::new((turns.len() - start) as nat, |i: int| spec_turn_line(turns[start + i])),
        seq!['\n'],
    )
}

/// The last `height` lines of the log, or all of it where it is shorter.
pub open spec fn spec_visible_log(log: Seq<LogLineView>, height: int) -> Seq<LogLineView> {
    if height <= 0 {
        Seq::empty()
    } else if log.len() <= height {
        log
    } else {
        log.subrange(log.len() - height, log.len() as int)
    }
}

/// The log after a streamed piece of the answer: the piece's first line
/// goes on the last line of the log where that is the assistant's, and
/// every further line is a line of its own.
pub open spec fn spec_append_stream_chunk(log: Seq<LogLineView>, text: Seq<char>) -> Seq<LogLineView> {
    let pieces = spec_split(text, '\n');
    let first = pieces[0];
    let rest = spec_log_lines(pieces.subrange(1, pieces.len() as int), LogRole::Assistant);
    if log.len() > 0 && log.last().role == LogRole::Assistant {
        log.drop_last().push(
            LogLineView { role: LogRole::Assistant, text: log.last().text + first },
        ) + rest
    } else {
        log.push(LogLineView { role: LogRole::Assistant, text: first }) + rest
    }
}

/// The number of rows that the input takes: one per line, at least one,
/// counted as far as sixteen bits go.
pub open spec fn spec_input_row_count(input: Seq<char>) -> int {
    (spec_split(input, '\n').len() as int) % 65536
}

fn push_log(log: &mut VecDeque<LogLine>, role: LogRole, text: &Vec<char>)
    ensures
        log_views(final(log)@) == log_views(old(log)@).push(LogLineView { role, text: text@ }),
{
    let line = LogLine { role, text: chars_to_string(text) };
    proof {
        lemma_log_views_push(log@, line);
    }
    log.push_back(line);
}

fn push_log_rows(log: &mut VecDeque<LogLine>, rows: &Vec<Vec<char>>, from: usize, role: LogRole)
    requires
        from <= rows.len(),
    ensures
        log_views(final(log)@) == log_views(old(log)@) + spec_log_lines(
            row_views(rows@).subrange(from as int, rows@.len() as int),
            role,
        ),
{
    let mut i: usize = from;
    assert(log_views(log@) =~= log_views(old(log)@) + spec_log_lines(
        row_views(rows@).subrange(from as int, from as int),
        role,
    ));
    while i < rows.len()
        invariant
            from <= i <= rows.len(),
            log_views(log@) == log_views(old(log)@) + spec_log_lines(
                row_views(rows@).subrange(from as int, i as int),
                role,
            ),
        decreases rows.len() - i,
    {
        push_log(log, role, &rows[i]);
        assert(log_views(log@) =~= log_views(old(log)@) + spec_log_lines(
            row_views(rows@).subrange(from as int, i + 1),
            role,
        ));
        i += 1;
    }
}

impl AppState {
    /// The state that the interface starts in.
    pub fn new(banner: String, status_model: String, status_build: String) -> (state: AppState)
        ensures
            state@ == spec_new_state(banner@, status_model@, status_build@),
    {
        let mut log_lines: VecDeque<LogLine> = VecDeque::new();
        let rows = lines(&str_chars(banner.as_str()));
        push_log_rows(&mut log_lines, &rows, 0, LogRole::System);
        assert(log_views(log_lines@) =~= spec_log_lines(spec_lines(banner@), LogRole::System)) by {
            assert(row_views(rows@).subrange(0, rows@.len() as int) =~= row_views(rows@));
        }
        let state = AppState {
            should_quit: false,
            log_lines,
            input: String::new(),
            suggestions: String::new(),
            origin_y: 0,
            inline: InlineRenderState::default(),
            status_model,
            status_build,
            running: false,
            status_detail: "idle".to_owned(),
            tick: 0,
            queue: VecDeque::new(),
            history: Vec::new(),
            history_index: None,
            draft_input: String::new(),
            approval_pending: false,
            conversation: Vec::new(),
            current_assistant: String::new(),
        };
        assert(state@.queue =~= Seq::empty());
        assert(state@.history =~= Seq::empty());
        assert(state@.conversation =~= Seq::empty());
        state
    }

    /// Adds the lines of a text to the log under the given role.
    pub fn append_message_with_role(&mut self, text: &str, role: LogRole)
        ensures
            final(self)@ == (AppStateView {
                log: old(self)@.log + spec_log_lines(spec_lines(text@), role),
                ..old(self)@
            }),
    {
        let rows = lines(&str_chars(text));
        assert(row_views(rows@).subrange(0, rows@.len() as int) =~= row_views(rows@));
        push_log_rows(&mut self.log_lines, &rows, 0, role);
    }

    /// Adds the lines of a text to the log as the assistant's.
    pub fn append_message(&mut self, text: &str)
        ensures
            final(self)@ == (AppStateView {
                log: old(self)@.log + spec_log_lines(spec_lines(text@), LogRole::Assistant),
                ..old(self)@
            }),
    {
        self.append_message_with_role(text, LogRole::Assistant);
    }

    /// Adds the lines of a text to the log as the user's.
    pub fn append_user_message(&mut self, text: &str)
        ensures
            final(self)@ == (AppStateView {
                log: old(self)@.log + spec_log_lines(spec_lines(text@), LogRole::User),
                ..old(self)@
            }),
    {
        self.append_message_with_role(text, LogRole::User);
    }

    /// Adds a streamed piece of the answer to the log.
    pub fn append_stream_chunk(&mut self, text: &str)
        ensures
            final(self)@ == (AppStateView {
                log: spec_append_stream_chunk(old(self)@.log, text@),
                ..old(self)@
            }),
    {
        let pieces = split(&str_chars(text), '\n');
        let count = self.log_lines.len();
        assert(row_views(pieces@)[0] == pieces@[0]@);
        if count > 0 && self.log_lines[count - 1].role == LogRole::Assistant {
            let last = self.log_lines.pop_back().unwrap();
            assert(log_views(self.log_lines@) =~= old(self)@.log.drop_last());
            let mut joined = str_chars(last.text.as_str());
            extend_chars(&mut joined, &pieces[0]);
            push_log(&mut self.log_lines, LogRole::Assistant, &joined);
        } else {
            push_log(&mut self.log_lines, LogRole::Assistant, &pieces[0]);
        }
        push_log_rows(&mut self.log_lines, &pieces, 1, LogRole::Assistant);
    }

    /// Adds a streamed piece to the answer that is being collected.
    pub fn append_assistant_chunk(&mut self, text: &str)
        ensures
            final(self)@ == (AppStateView {
                current_assistant: old(self)@.current_assistant + text@,
                ..old(self)@
            }),
    {
        let mut joined = str_chars(self.current_assistant.as_str());
        extend_str(&mut joined, text);
        self.current_assistant = chars_to_string(&joined);
    }

    /// Begins to collect a new answer.
    pub fn start_assistant_response(&mut self)
        ensures
            final(self)@ == (AppStateView { current_assistant: Seq::empty(), ..old(self)@ }),
    {
        self.current_assistant = String::new();
    }

    /// Adds an empty line to the log.
    pub fn append_blank_line(&mut self)
        ensures
            final(self)@ == (AppStateView {
                log: old(self)@.log.push(
                    LogLineView { role: LogRole::System, text: Seq::empty() },
                ),
                ..old(self)@
            }),
    {
        let empty: Vec<char> = Vec::new();
        push_log(&mut self.log_lines, LogRole::System, &empty);
    }

    /// Ends the answer that was being collected: where it holds more than
    /// white space it becomes a turn of the conversation, trimmed. The log
    /// gets an empty line.
    pub fn finalize_assistant_response(&mut self)
        ensures
            final(self)@ == (AppStateView {
                conversation: if spec_trim(old(self)@.current_assistant).len() > 0 {
                    old(self)@.conversation.push(
                        TurnView {
                            role: ConversationRole::Assistant,
                            content: spec_trim(old(self)@.current_assistant),
                        },
                    )
                } else {
                    old(self)@.conversation
                },
                current_assistant: Seq::empty(),
                log: old(self)@.log.push(
                    LogLineView { role: LogRole::System, text: Seq::empty() },
                ),
                ..old(self)@
            }),
    {
        let trimmed = trim(&str_chars(self.current_assistant.as_str()));
        if trimmed.len() > 0 {
            let turn = ConversationTurn {
                role: ConversationRole::Assistant,
                content: chars_to_string(&trimmed),
            };
            self.conversation.push(turn);
            assert(turn_views(self.conversation@) =~= old(self)@.conversation.push(turn@));
        }
        self.current_assistant = String::new();
        self.append_blank_line();
    }

    /// Adds the user's words to the conversation.
    pub fn push_user_conversation(&mut self, text: &str)
        ensures
            final(self)@ == (AppStateView {
                conversation: old(self)@.conversation.push(
                    TurnView { role: ConversationRole::User, content: text@ },
                ),
                ..old(self)@
            }),
    {
        let turn = ConversationTurn { role: ConversationRole::User, content: text.to_owned() };
        self.conversation.push(turn);
        assert(turn_views(self.conversation@) =~= old(self)@.conversation.push(turn@));
    }

    /// The last `max_turns` turns of the conversation, one per line, each
    /// after the name of who said it.
    pub fn build_context(&self, max_turns: usize) -> (context: String)
        ensures
            context@ == spec_build_context(self@.conversation, max_turns as int),
    {
        let count = self.conversation.len();
        let start = if count > max_turns {
            count - max_turns
        } else {
            0
        };
        let mut parts: Vec<Vec<char>> = Vec::new();
        let mut i: usize = start;
        let ghost turns = self@.conversation;
        while i < count
            invariant
                start <= i <= count,
                count == self.conversation.len(),
                turns == turn_views(self.conversation@),
                row_views(parts@) == Seq::new(
                    (i - start) as nat,
                    |k: int| spec_turn_line(turns[start + k]),
                ),
            decreases count - i,
        {
            let turn = &self.conversation[i];
            let mut line = match turn.role {
                ConversationRole::User => str_chars("ユーザー"),
                ConversationRole::Assistant => str_chars("アシスタント"),
            };
            extend_str(&mut line, ": ");
            extend_str(&mut line, turn.content.as_str());
            assert(line@ == spec_turn_line(turns[i as int]));
            proof {
                lemma_row_views_push(parts@, line);
            }
            parts.push(line);
            assert(row_views(parts@) =~= Seq::new(
                (i + 1 - start) as nat,
                |k: int| spec_turn_line(turns[start + k]),
            ));
            i += 1;
        }
        let mut sep: Vec<char> = Vec::new();
        sep.push('\n');
        assert(sep@ =~= seq!['\n']);
        chars_to_string(&join_rows(&parts, &sep))
    }

    /// The number of rows that the input takes.
    pub fn input_row_count(&self) -> (rows: u16)
        ensures
            rows == spec_input_row_count(self@.input),
            spec_split(self@.input, '\n').len() <= 65535 ==> rows >= 1,
    {
        let pieces = split(&str_chars(self.input.as_str()), '\n');
        assert(row_views(pieces@).len() == pieces@.len());
        let count = pieces.len() % 65536;
        count as u16
    }

    /// The last `height` lines of the log.
    pub fn visible_log_lines(&self, height: u16) -> (visible: Vec<LogLine>)
        ensures
            log_views(visible@) == spec_visible_log(self@.log, height as int),
    {
        let mut out: Vec<LogLine> = Vec::new();
        if height == 0 {
            assert(log_views(out@) =~= Seq::empty());
            return out;
        }
        let max = height as usize;
        let count = self.log_lines.len();
        let start = if count <= max {
            0
        } else {
            count - max
        };
        let mut i: usize = start;
        assert(log_views(out@) =~= self@.log.subrange(start as int, start as int));
        while i < count
            invariant
                start <= i <= count,
                count == self.log_lines.len(),
                log_views(out@) == self@.log.subrange(start as int, i as int),
            decreases count - i,
        {
            let line = LogLine {
                role: self.log_lines[i].role,
                text: clone_string(&self.log_lines[i].text),
            };
            proof {
                lemma_log_views_push(out@, line);
            }
            out.push(line);
            assert(log_views(out@) =~= self@.log.subrange(start as int, i + 1));
            i += 1;
        }
        assert(self@.log.subrange(0, count as int) =~= self@.log);
        out
    }

    /// An instruction is being worked on; `detail` says at what.
    pub fn set_running(&mut self, detail: &str)
        ensures
            final(self)@ == (AppStateView {
                running: true,
                status_detail: detail@,
                ..old(self)@
            }),
    {
        self.running = true;
        self.status_detail = detail.to_owned();
    }

    /// Nothing is being worked on.
    pub fn set_idle(&mut self)
        ensures
            final(self)@ == (AppStateView {
                running: false,
                status_detail: "idle"@,
                ..old(self)@
            }),
    {
        self.running = false;
        self.status_detail = "idle".to_owned();
    }

    /// The name of the state for the status line.
    pub fn status_state(&self) -> (name: &'static str)
        ensures
            name@ == (if self@.running {
                "running"@
            } else {
                "idle"@
            }),
    {
        if self.running {
            "running"
        } else {
            "idle"
        }
    }
}

} // verus!
