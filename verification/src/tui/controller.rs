//! What the interface does with keys and with news from a run.
//!
//! Nothing here reads a key or draws a line: each function takes what
//! happened and changes the state, and says what is left to do outside.

use crate::text::{
    chars_eq_str, chars_to_string, clone_string, extend_chars, extend_str, spec_lines, spec_trim,
    str_chars, string_views, trim, lemma_string_views_push,
};
use crate::tools::{ToolApprovalDecision, ToolApprovalRequest, ToolApprovalView};
use crate::tui::help::{
    approval_key, build_slash_help, build_slash_help_filtered, format_approval_prompt,
    list_builtin_tools, spec_approval_key, spec_approval_prompt, spec_help_from_items,
    spec_slash_help_filtered,
};
use crate::tui::state::{
    pending_views, spec_append_stream_chunk, spec_build_context, spec_input_row_count,
    spec_log_lines, AppState, AppStateView, ConversationRole, LogLineView, LogRole,
    PendingInput, PendingView, TurnView,
};
use vstd::prelude::*;

verus! {

/// News from a run.
#[derive(Debug, Clone)]
pub enum TuiEvent {
    /// A piece of the answer.
    Chunk(String),
    /// The answer is complete.
    Done,
    /// The run asks whether a tool may be used.
    ApprovalRequest { request: ToolApprovalRequest },
    /// The run failed.
    Error(String),
}

pub enum TuiEventView {
    Chunk(Seq<char>),
    Done,
    ApprovalRequest { request: ToolApprovalView },
    Error(Seq<char>),
}

impl View for TuiEvent {
    type V = TuiEventView;

    open spec fn view(&self) -> TuiEventView {
        match *self {
            TuiEvent::Chunk(text) => TuiEventView::Chunk(text@),
            TuiEvent::Done => TuiEventView::Done,
            TuiEvent::ApprovalRequest { request } => TuiEventView::ApprovalRequest {
                request: request@,
            },
            TuiEvent::Error(text) => TuiEventView::Error(text@),
        }
    }
}

/// The state with the lines of a text added to the log.
pub open spec fn spec_append(state: AppStateView, text: Seq<char>, role: LogRole) -> AppStateView {
    AppStateView { log: state.log + spec_log_lines(spec_lines(text), role), ..state }
}

/// The state with an empty line added to the log.
pub open spec fn spec_blank_line(state: AppStateView) -> AppStateView {
    AppStateView {
        log: state.log.push(LogLineView { role: LogRole::System, text: Seq::empty() }),
        ..state
    }
}

pub open spec fn spec_idle(state: AppStateView) -> AppStateView {
    AppStateView { running: false, status_detail: "idle"@, ..state }
}

/// The suggestions follow the input: the help for the commands that begin
/// like the input, where the input begins with a slash.
pub open spec fn spec_refresh_suggestions(state: AppStateView) -> AppStateView {
    let typed = spec_trim(state.input);
    AppStateView {
        suggestions: if typed.len() > 0 && typed[0] == '/' {
            spec_slash_help_filtered(typed)
        } else {
            Seq::empty()
        },
        ..state
    }
}

/// An input joins the history unless it repeats the last one. The place
/// in the history and the kept draft are given up.
pub open spec fn spec_push_history(state: AppStateView, input: Seq<char>) -> AppStateView {
    AppStateView {
        history: if state.history.len() > 0 && state.history.last() == input {
            state.history
        } else {
            state.history.push(input)
        },
        history_index: None,
        draft_input: Seq::empty(),
        ..state
    }
}

/// One step back in the history. The first step keeps what was typed as a
/// draft; at the oldest input nothing moves.
pub open spec fn spec_history_prev(state: AppStateView) -> AppStateView {
    if state.history.len() == 0 {
        state
    } else {
        let next: int = match state.history_index {
            None => state.history.len() - 1,
            Some(idx) => if idx == 0 {
                0
            } else if idx - 1 < state.history.len() {
                idx - 1
            } else {
                state.history.len() - 1
            },
        };
        spec_refresh_suggestions(
            AppStateView {
                draft_input: if state.history_index is None {
                    state.input
                } else {
                    state.draft_input
                },
                history_index: Some(next as usize),
                input: state.history[next],
                ..state
            },
        )
    }
}

/// One step forward in the history. Past the newest input the draft comes
/// back.
pub open spec fn spec_history_next(state: AppStateView) -> AppStateView {
    match state.history_index {
        None => state,
        Some(idx) => if idx + 1 >= state.history.len() {
            spec_refresh_suggestions(
                AppStateView {
                    history_index: None,
                    input: state.draft_input,
                    draft_input: Seq::empty(),
                    ..state
                },
            )
        } else {
            spec_refresh_suggestions(
                AppStateView {
                    history_index: Some((idx + 1) as usize),
                    input: state.history[idx + 1],
                    ..state
                },
            )
        },
    }
}

pub open spec fn sat_u16(n: int) -> int {
    if n > 65535 {
        65535
    } else {
        n
    }
}

pub open spec fn max_int(a: int, b: int) -> int {
    if a >= b {
        a
    } else {
        b
    }
}

/// The rows that the help under the input takes.
pub open spec fn spec_help_height(state: AppStateView) -> int {
    if state.suggestions.len() == 0 {
        0
    } else {
        (spec_lines(state.suggestions).len() as int) % 65536
    }
}

/// The least number of rows kept for the log, once the log has been seen
/// at its present length: five from the moment the log has five lines.
pub open spec fn spec_min_log_rows(state: AppStateView) -> int {
    if max_int((state.log.len() as int) % 65536, 3) >= 5 {
        5
    } else {
        state.inline.min_log_rows as int
    }
}

/// The rows kept for the log.
pub open spec fn spec_log_height(state: AppStateView) -> int {
    max_int(max_int((state.log.len() as int) % 65536, 3), spec_min_log_rows(state))
}

/// The rows that the interface needs: the log, a spacer, a divider, the
/// input and the line under it, the help and the status line. The sum
/// stops at the largest number of rows that can be counted.
pub open spec fn spec_required_height(state: AppStateView) -> int {
    let input_height = sat_u16(spec_input_row_count(state.input) + 1);
    sat_u16(
        sat_u16(
            sat_u16(sat_u16(sat_u16(spec_log_height(state) + 1) + 1) + input_height)
                + spec_help_height(state),
        ) + 1,
    )
}

/// News from a run changes the state: a piece of the answer goes to the
/// log and to the answer being collected; the end of the answer makes it a
/// turn of the conversation; a request for approval is shown and waits for
/// a key; a failure is shown.
pub open spec fn spec_apply_event(state: AppStateView, event: TuiEventView) -> AppStateView {
    match event {
        TuiEventView::Chunk(text) => AppStateView {
            log: spec_append_stream_chunk(state.log, text),
            current_assistant: state.current_assistant + text,
            ..state
        },
        TuiEventView::Done => spec_idle(
            spec_blank_line(
                AppStateView {
                    conversation: if spec_trim(state.current_assistant).len() > 0 {
                        state.conversation.push(
                            TurnView {
                                role: ConversationRole::Assistant,
                                content: spec_trim(state.current_assistant),
                            },
                        )
                    } else {
                        state.conversation
                    },
                    current_assistant: Seq::empty(),
                    ..state
                },
            ),
        ),
        TuiEventView::ApprovalRequest { request } => AppStateView {
            running: true,
            status_detail: "approval required"@,
            approval_pending: true,
            ..spec_append(state, spec_approval_prompt(request), LogRole::Assistant)
        },
        TuiEventView::Error(text) => spec_idle(
            spec_append(state, "error: "@ + text, LogRole::Assistant),
        ),
    }
}

/// A key pressed while a request for approval waits: the four keys that
/// decide take the request away and hand back their decision; every other
/// key is swallowed.
pub open spec fn spec_approval_key_state(state: AppStateView, key: char) -> AppStateView {
    if spec_approval_key(key) is Some {
        AppStateView { approval_pending: false, status_detail: "waiting LLM"@, ..state }
    } else {
        state
    }
}

/// What is owed to a request for approval that is given up: a refusal
/// for this once, where one waits.
pub open spec fn spec_cancel_pending(state: AppStateView) -> Option<ToolApprovalDecision> {
    if state.approval_pending {
        Some(ToolApprovalDecision::DenyOnce)
    } else {
        None
    }
}

/// The interrupt key: a run that is on is given up, and the interface is
/// idle again; without a run the interface is left.
pub open spec fn spec_interrupt(state: AppStateView) -> AppStateView {
    if state.running {
        spec_append(
            spec_idle(AppStateView { approval_pending: false, ..state }),
            "interrupted"@,
            LogRole::Assistant,
        )
    } else {
        AppStateView { should_quit: true, ..state }
    }
}

/// An instruction to begin a run with.
#[derive(Debug, Clone)]
pub struct StartRun {
    pub input: String,
    pub context: String,
}

pub struct StartRunView {
    pub input: Seq<char>,
    pub context: Seq<char>,
}

impl View for StartRun {
    type V = StartRunView;

    open spec fn view(&self) -> StartRunView {
        StartRunView { input: self.input@, context: self.context@ }
    }
}

pub open spec fn opt_start_view(start: Option<StartRun>) -> Option<StartRunView> {
    match start {
        Some(s) => Some(s@),
        None => None,
    }
}

/// How many earlier turns a run is told of.
pub const CONTEXT_TURNS: usize = 10;

/// The next instruction of the queue begins, unless a run is on or the
/// queue is empty. Instructions are taken in the order in which they
/// came. The run is told of the last turns of the conversation, to which
/// the instruction is then added.
pub open spec fn spec_start_next(state: AppStateView) -> (AppStateView, Option<StartRunView>) {
    if state.running || state.queue.len() == 0 {
        (state, None)
    } else {
        let pending = state.queue[0];
        let shown = if pending.logged {
            state
        } else {
            spec_append(state, "> "@ + pending.text, LogRole::User)
        };
        let log = spec_blank_line(shown).log.push(
            LogLineView { role: LogRole::Assistant, text: Seq::empty() },
        );
        (
            AppStateView {
                queue: state.queue.subrange(1, state.queue.len() as int),
                log,
                running: true,
                status_detail: "waiting LLM"@,
                current_assistant: Seq::empty(),
                conversation: state.conversation.push(
                    TurnView { role: ConversationRole::User, content: pending.text },
                ),
                ..state
            },
            Some(
                StartRunView {
                    input: pending.text,
                    context: spec_build_context(state.conversation, CONTEXT_TURNS as int),
                },
            ),
        )
    }
}

impl AppState {
    /// Makes the suggestions follow the input.
    pub fn refresh_suggestions(&mut self)
        ensures
            final(self)@ == spec_refresh_suggestions(old(self)@),
    {
        let typed = trim(&str_chars(self.input.as_str()));
        if typed.len() > 0 && typed[0] == '/' {
            self.suggestions = build_slash_help_filtered(chars_to_string(&typed).as_str());
        } else {
            self.suggestions = String::new();
        }
    }

    /// Adds an input to the history.
    pub fn push_history(&mut self, input: &str)
        ensures
            final(self)@ == spec_push_history(old(self)@, input@),
    {
        let count = self.history.len();
        let repeated = if count > 0 {
            assert(string_views(self.history@)[count - 1] == self.history@[count - 1]@);
            crate::text::chars_eq_str(&str_chars(self.history[count - 1].as_str()), input)
        } else {
            false
        };
        if !repeated {
            let item = input.to_owned();
            proof {
                lemma_string_views_push(self.history@, item);
            }
            self.history.push(item);
        }
        self.history_index = None;
        self.draft_input = String::new();
    }

    /// Goes one step back in the history.
    pub fn history_prev(&mut self)
        ensures
            final(self)@ == spec_history_prev(old(self)@),
    {
        let count = self.history.len();
        if count == 0 {
            return;
        }
        let next = match self.history_index {
            None => {
                self.draft_input = clone_string(&self.input);
                count - 1
            },
            Some(idx) => {
                if idx == 0 {
                    0
                } else if idx - 1 < count {
                    idx - 1
                } else {
                    count - 1
                }
            },
        };
        self.history_index = Some(next);
        assert(string_views(self.history@)[next as int] == self.history@[next as int]@);
        self.input = clone_string(&self.history[next]);
        self.refresh_suggestions();
    }

    /// Goes one step forward in the history.
    pub fn history_next(&mut self)
        ensures
            final(self)@ == spec_history_next(old(self)@),
    {
        let idx = match self.history_index {
            None => {
                return;
            },
            Some(idx) => idx,
        };
        if idx >= self.history.len() || idx + 1 >= self.history.len() {
            self.history_index = None;
            self.input = clone_string(&self.draft_input);
            self.draft_input = String::new();
        } else {
            let next = idx + 1;
            self.history_index = Some(next);
            assert(string_views(self.history@)[next as int] == self.history@[next as int]@);
            self.input = clone_string(&self.history[next]);
        }
        self.refresh_suggestions();
    }

    /// The rows that the interface needs. The least number of rows kept
    /// for the log is set to five once the log has five lines.
    pub fn required_height(&mut self) -> (rows: u16)
        ensures
            rows == spec_required_height(old(self)@),
            final(self)@ == (AppStateView {
                inline: crate::tui::inline::InlineRenderState {
                    min_log_rows: spec_min_log_rows(old(self)@) as u16,
                    ..old(self)@.inline
                },
                ..old(self)@
            }),
    {
        let input_height = self.input_row_count().saturating_add(1);
        let help_height: u16 = if self.suggestions.as_str().is_empty() {
            0
        } else {
            let rows = crate::text::lines(&str_chars(self.suggestions.as_str()));
            assert(crate::text::row_views(rows@).len() == rows@.len());
            (rows.len() % 65536) as u16
        };
        let mut desired_log: u16 = (self.log_lines.len() % 65536) as u16;
        if desired_log < 3 {
            desired_log = 3;
        }
        if desired_log >= 5 {
            self.inline.min_log_rows = 5;
        }
        if desired_log < self.inline.min_log_rows {
            desired_log = self.inline.min_log_rows;
        }
        desired_log.saturating_add(1).saturating_add(1).saturating_add(input_height).saturating_add(
            help_height,
        ).saturating_add(1)
    }

    /// Takes in news from a run.
    pub fn apply_event(&mut self, event: TuiEvent)
        ensures
            final(self)@ == spec_apply_event(old(self)@, event@),
    {
        match event {
            TuiEvent::Chunk(text) => {
                self.append_stream_chunk(text.as_str());
                self.append_assistant_chunk(text.as_str());
            },
            TuiEvent::Done => {
                self.finalize_assistant_response();
                self.set_idle();
            },
            TuiEvent::ApprovalRequest { request } => {
                let prompt = format_approval_prompt(&request);
                self.append_message(prompt.as_str());
                self.running = true;
                self.status_detail = "approval required".to_owned();
                self.approval_pending = true;
            },
            TuiEvent::Error(text) => {
                let mut line = str_chars("error: ");
                extend_str(&mut line, text.as_str());
                self.append_message(chars_to_string(&line).as_str());
                self.set_idle();
            },
        }
    }

    /// Takes a key while a request for approval waits. The decision that
    /// the key stands for is handed back for the request.
    pub fn handle_approval_key(&mut self, key: char) -> (decision: Option<ToolApprovalDecision>)
        ensures
            decision == spec_approval_key(key),
            final(self)@ == spec_approval_key_state(old(self)@, key),
    {
        let decision = approval_key(key);
        if decision.is_some() {
            self.approval_pending = false;
            self.status_detail = "waiting LLM".to_owned();
        }
        decision
    }

    /// Gives up the request for approval that waits, if one does, and hands
    /// back what is owed to it.
    pub fn cancel_pending_approval(&mut self) -> (answer: Option<ToolApprovalDecision>)
        ensures
            answer == spec_cancel_pending(old(self)@),
            final(self)@ == (AppStateView { approval_pending: false, ..old(self)@ }),
    {
        let answer = if self.approval_pending {
            Some(ToolApprovalDecision::DenyOnce)
        } else {
            None
        };
        self.approval_pending = false;
        answer
    }

    /// Takes the interrupt key. What is handed back is owed to the request
    /// for approval that waited, if one did.
    pub fn interrupt(&mut self) -> (answer: Option<ToolApprovalDecision>)
        ensures
            final(self)@ == spec_interrupt(old(self)@),
            answer == (if old(self)@.running {
                spec_cancel_pending(old(self)@)
            } else {
                None
            }),
    {
        if self.running {
            let answer = self.cancel_pending_approval();
            self.set_idle();
            self.append_message("interrupted");
            answer
        } else {
            self.should_quit = true;
            None
        }
    }

    /// Begins the next instruction of the queue, if there is one and no run
    /// is on.
    pub fn maybe_start_next(&mut self) -> (start: Option<StartRun>)
        ensures
            (final(self)@, opt_start_view(start)) == spec_start_next(old(self)@),
    {
        if self.running || self.queue.len() == 0 {
            return None;
        }
        assert(pending_views(self.queue@)[0] == self.queue@[0]@);
        let pending = self.queue.pop_front().unwrap();
        assert(pending_views(self.queue@) =~= old(self)@.queue.subrange(
            1,
            old(self)@.queue.len() as int,
        ));
        if !pending.logged {
            let mut line = str_chars("> ");
            extend_str(&mut line, pending.text.as_str());
            self.append_user_message(chars_to_string(&line).as_str());
        }
        self.append_blank_line();
        self.set_running("waiting LLM");
        self.append_stream_line();
        self.start_assistant_response();
        let context = self.build_context(CONTEXT_TURNS);
        self.push_user_conversation(pending.text.as_str());
        Some(StartRun { input: pending.text, context })
    }

    /// Adds an empty line of the assistant's to the log, for the answer to
    /// be streamed into.
    pub fn append_stream_line(&mut self)
        ensures
            final(self)@ == (AppStateView {
                log: old(self)@.log.push(
                    LogLineView { role: LogRole::Assistant, text: Seq::empty() },
                ),
                ..old(self)@
            }),
    {
        let line = crate::tui::state::LogLine { role: LogRole::Assistant, text: String::new() };
        proof {
            crate::tui::state::lemma_log_views_push(self.log_lines@, line);
        }
        self.log_lines.push_back(line);
    }
}

} // verus!
