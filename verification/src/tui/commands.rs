//! The input line: commands that begin with a slash, instructions for the
//! queue, and the keys that edit the line.

use crate::config::{Config, ConfigView};
use crate::mcp::{list_mcp_servers, spec_list_mcp_servers, EntryView, McpConfig};
use crate::text::{
    chars_eq_str, chars_to_string, extend_chars, extend_str, is_whitespace, is_whitespace_char,
    opt_view, slice_chars, spec_trim, spec_trim_start, str_chars, trim, trim_start,
};
use crate::tools::ToolApprovalDecision;
use crate::tui::controller::{
    opt_start_view, spec_append, spec_cancel_pending, spec_history_next, spec_history_prev,
    spec_interrupt, spec_push_history, spec_refresh_suggestions, spec_start_next, StartRun,
    StartRunView,
};
use crate::tui::help::{
    approval_key, build_slash_help, build_slash_help_filtered, list_builtin_tools,
    spec_approval_key, spec_help_from_items, spec_slash_help_filtered, spec_slash_help_items,
};
use crate::tui::state::{pending_views, AppState, AppStateView, LogRole, PendingInput, PendingView};
use vstd::prelude::*;

verus! {

/// The input with a full-width slash at its beginning made an ordinary
/// one, and without the white space before it.
pub open spec fn spec_normalize_slash(input: Seq<char>) -> Seq<char> {
    let trimmed = spec_trim_start(input);
    if trimmed.len() > 0 && trimmed[0] == '／' {
        seq!['/'] + trimmed.subrange(1, trimmed.len() as int)
    } else {
        trimmed
    }
}

/// The first index at or after `from` that holds white space, or the
/// length where there is none.
pub open spec fn first_ws(s: Seq<char>, from: int) -> int
    decreases s.len() - from,
{
    if from < 0 || from >= s.len() {
        s.len() as int
    } else if is_whitespace_char(s[from]) {
        from
    } else {
        first_ws(s, from + 1)
    }
}

/// The first word of a text that begins with one.
pub open spec fn spec_first_word(s: Seq<char>) -> Seq<char> {
    s.subrange(0, first_ws(s, 0))
}

fn first_word(s: &Vec<char>) -> (word: Vec<char>)
    ensures
        word@ == spec_first_word(s@),
{
    let mut i: usize = 0;
    while i < s.len() && !is_whitespace(s[i])
        invariant
            i <= s.len(),
            first_ws(s@, 0) == first_ws(s@, i as int),
        decreases s.len() - i,
    {
        i += 1;
    }
    slice_chars(s, 0, i)
}

/// Whether the command is known and does nothing here yet.
pub open spec fn spec_not_implemented(command: Seq<char>) -> bool {
    command == "/new"@ || command == "/clear"@ || command == "/resume"@ || command == "/fork"@
        || command == "/save"@ || command == "/load"@ || command == "/diff"@ || command
        == "/commit"@ || command == "/pr"@ || command == "/editor"@
}

fn not_implemented(command: &Vec<char>) -> (b: bool)
    ensures
        b == spec_not_implemented(command@),
{
    chars_eq_str(command, "/new") || chars_eq_str(command, "/clear") || chars_eq_str(
        command,
        "/resume",
    ) || chars_eq_str(command, "/fork") || chars_eq_str(command, "/save") || chars_eq_str(
        command,
        "/load",
    ) || chars_eq_str(command, "/diff") || chars_eq_str(command, "/commit") || chars_eq_str(
        command,
        "/pr",
    ) || chars_eq_str(command, "/editor")
}

pub open spec fn or_text(value: Option<Seq<char>>, otherwise: Seq<char>) -> Seq<char> {
    match value {
        Some(v) => v,
        None => otherwise,
    }
}

pub open spec fn spec_approval_policy(config: ConfigView) -> Option<Seq<char>> {
    match config.permissions {
        Some(p) => p.approval_policy,
        None => None,
    }
}

pub open spec fn spec_sandbox_mode_name(config: ConfigView) -> Option<Seq<char>> {
    match config.sandbox {
        Some(s) => s.mode,
        None => None,
    }
}

/// The model that the settings name.
pub open spec fn spec_show_model(config: ConfigView) -> Seq<char> {
    "model: "@ + or_text(config.model.name, "unknown"@)
}

/// The approval policy that the settings name.
pub open spec fn spec_show_approvals(config: ConfigView) -> Seq<char> {
    "approvals: "@ + or_text(spec_approval_policy(config), "unset"@)
}

/// The model, the provider, the approval policy and the sandbox mode that
/// the settings name, one per line.
pub open spec fn spec_show_status(config: ConfigView) -> Seq<char> {
    spec_show_model(config) + "\nprovider: "@ + config.model.provider + "\n"@
        + spec_show_approvals(config) + "\nsandbox: "@ + or_text(
        spec_sandbox_mode_name(config),
        "none"@,
    )
}

fn push_or(out: &mut Vec<char>, value: &Option<String>, otherwise: &str)
    ensures
        final(out)@ == old(out)@ + or_text(opt_view(*value), otherwise@),
{
    match value {
        Some(v) => extend_str(out, v.as_str()),
        None => extend_str(out, otherwise),
    }
}

fn push_model(out: &mut Vec<char>, config: &Config)
    ensures
        final(out)@ == old(out)@ + spec_show_model(config@),
{
    extend_str(out, "model: ");
    push_or(out, &config.model.name, "unknown");
    assert(out@ =~= old(out)@ + spec_show_model(config@));
}

fn push_approvals(out: &mut Vec<char>, config: &Config)
    ensures
        final(out)@ == old(out)@ + spec_show_approvals(config@),
{
    extend_str(out, "approvals: ");
    match &config.permissions {
        Some(p) => push_or(out, &p.approval_policy, "unset"),
        None => extend_str(out, "unset"),
    }
    assert(out@ =~= old(out)@ + spec_show_approvals(config@));
}

pub fn show_model(config: &Config) -> (out: String)
    ensures
        out@ == spec_show_model(config@),
{
    let mut out: Vec<char> = Vec::new();
    push_model(&mut out, config);
    chars_to_string(&out)
}

pub fn show_approvals(config: &Config) -> (out: String)
    ensures
        out@ == spec_show_approvals(config@),
{
    let mut out: Vec<char> = Vec::new();
    push_approvals(&mut out, config);
    chars_to_string(&out)
}

pub fn show_status(config: &Config) -> (out: String)
    ensures
        out@ == spec_show_status(config@),
{
    let mut out: Vec<char> = Vec::new();
    push_model(&mut out, config);
    extend_str(&mut out, "\nprovider: ");
    extend_str(&mut out, config.model.provider.as_str());
    extend_str(&mut out, "\n");
    push_approvals(&mut out, config);
    extend_str(&mut out, "\nsandbox: ");
    match &config.sandbox {
        Some(s) => push_or(&mut out, &s.mode, "none"),
        None => extend_str(&mut out, "none"),
    }
    assert(out@ =~= spec_show_status(config@));
    chars_to_string(&out)
}

/// The answer to a command that begins with a slash; none for an input
/// that is no such command. `servers` are the known servers, where they
/// could be read. A command that is not known is answered with the help
/// for the commands that begin like it, or with a note that there are
/// none.
pub open spec fn spec_slash_command(
    input: Seq<char>,
    config: ConfigView,
    servers: Option<Seq<EntryView>>,
) -> Option<Seq<char>> {
    let normalized = spec_normalize_slash(input);
    let command = spec_first_word(normalized);
    if !(normalized.len() > 0 && normalized[0] == '/') {
        None
    } else if command == "/help"@ {
        Some(spec_help_from_items(spec_slash_help_items()))
    } else if command == "/mcp"@ {
        match servers {
            Some(entries) => Some(spec_list_mcp_servers(entries)),
            None => None,
        }
    } else if command == "/tools"@ {
        Some("Read\nWrite\nShell\nGrep\nGlob\nMCP(@server/tool)"@)
    } else if command == "/status"@ {
        Some(spec_show_status(config))
    } else if command == "/model"@ {
        Some(spec_show_model(config))
    } else if command == "/approvals"@ {
        Some(spec_show_approvals(config))
    } else if spec_not_implemented(command) {
        Some(command + " is not implemented in TUI yet."@)
    } else if spec_slash_help_filtered(command).len() == 0 {
        Some("unknown command: "@ + command)
    } else {
        Some(spec_slash_help_filtered(command))
    }
}

pub open spec fn opt_servers_view(servers: Option<&McpConfig>) -> Option<Seq<EntryView>> {
    match servers {
        Some(s) => Some(s@),
        None => None,
    }
}

pub fn handle_slash_command(input: &str, config: &Config, servers: Option<&McpConfig>) -> (out:
    Option<String>)
    ensures
        opt_view(out) == spec_slash_command(input@, config@, opt_servers_view(servers)),
{
    let trimmed = trim_start(&str_chars(input));
    let normalized = if trimmed.len() > 0 && trimmed[0] == '／' {
        let mut out: Vec<char> = Vec::new();
        out.push('/');
        let rest = slice_chars(&trimmed, 1, trimmed.len());
        extend_chars(&mut out, &rest);
        out
    } else {
        trimmed
    };
    assert(normalized@ =~= spec_normalize_slash(input@));
    if !(normalized.len() > 0 && normalized[0] == '/') {
        return None;
    }
    let command = first_word(&normalized);
    if chars_eq_str(&command, "/help") {
        Some(build_slash_help())
    } else if chars_eq_str(&command, "/mcp") {
        match servers {
            Some(servers) => Some(list_mcp_servers(servers)),
            None => None,
        }
    } else if chars_eq_str(&command, "/tools") {
        Some(list_builtin_tools())
    } else if chars_eq_str(&command, "/status") {
        Some(show_status(config))
    } else if chars_eq_str(&command, "/model") {
        Some(show_model(config))
    } else if chars_eq_str(&command, "/approvals") {
        Some(show_approvals(config))
    } else if not_implemented(&command) {
        let mut out: Vec<char> = Vec::new();
        extend_chars(&mut out, &command);
        extend_str(&mut out, " is not implemented in TUI yet.");
        Some(chars_to_string(&out))
    } else {
        let filtered = build_slash_help_filtered(chars_to_string(&command).as_str());
        if filtered.as_str().is_empty() {
            let mut out = str_chars("unknown command: ");
            extend_chars(&mut out, &command);
            Some(chars_to_string(&out))
        } else {
            Some(filtered)
        }
    }
}

/// The input line is entered. A lone slash shows the help; a command is
/// answered, and `/exit` and `/quit` leave the interface; anything else is
/// an instruction, which waits in the queue while a run is on and begins
/// at once where none is.
pub open spec fn spec_handle_input(
    state: AppStateView,
    config: ConfigView,
    servers: Option<Seq<EntryView>>,
) -> (AppStateView, Option<StartRunView>) {
    let input = spec_trim(state.input);
    let cleared = spec_refresh_suggestions(AppStateView { input: Seq::empty(), ..state });
    if input.len() == 0 {
        (cleared, None)
    } else {
        let kept = spec_push_history(cleared, input);
        if input == "/"@ || input == "／"@ {
            (
                spec_append(kept, spec_help_from_items(spec_slash_help_items()), LogRole::Assistant),
                None,
            )
        } else {
            match spec_slash_command(input, config, servers) {
                Some(response) => if input == "/exit"@ || input == "/quit"@ {
                    (AppStateView { should_quit: true, ..kept }, None)
                } else {
                    (spec_append(kept, response, LogRole::Assistant), None)
                },
                None => if kept.running {
                    (
                        AppStateView {
                            queue: kept.queue.push(PendingView { text: input, logged: false }),
                            ..kept
                        },
                        None,
                    )
                } else {
                    let shown = spec_append(kept, "> "@ + input, LogRole::User);
                    spec_start_next(
                        AppStateView {
                            queue: shown.queue.push(PendingView { text: input, logged: true }),
                            ..shown
                        },
                    )
                },
            }
        }
    }
}

/// A key of the keyboard.
#[derive(Debug, Clone, Copy, PartialEq, Eq, Structural)]
pub enum KeyCode {
    Char(char),
    Up,
    Down,
    Backspace,
    Enter,
    Esc,
    Other,
}

/// A key that was pressed, with or without the control key.
#[derive(Debug, Clone, Copy, PartialEq, Eq, Structural)]
pub struct KeyPress {
    pub code: KeyCode,
    pub control: bool,
}

/// What is left to do outside after a key.
#[derive(Debug, Clone)]
pub struct KeyEffect {
    /// The run that is on is to be given up.
    pub abort_run: bool,
    /// The request for approval that waited is to be answered with this.
    pub decision: Option<ToolApprovalDecision>,
    /// A run is to begin with this.
    pub start: Option<StartRun>,
}

pub struct KeyEffectView {
    pub abort_run: bool,
    pub decision: Option<ToolApprovalDecision>,
    pub start: Option<StartRunView>,
}

impl View for KeyEffect {
    type V = KeyEffectView;

    open spec fn view(&self) -> KeyEffectView {
        KeyEffectView {
            abort_run: self.abort_run,
            decision: self.decision,
            start: opt_start_view(self.start),
        }
    }
}

/// Whether the key is the interrupt key.
pub open spec fn is_interrupt(key: KeyPress) -> bool {
    key.code == KeyCode::Char('c') && key.control
}

/// The decision that a key stands for while a request for approval waits.
pub open spec fn spec_key_decision(code: KeyCode) -> Option<ToolApprovalDecision> {
    match code {
        KeyCode::Char(c) => spec_approval_key(c),
        _ => None,
    }
}

/// The input line after a key that edits it.
pub open spec fn spec_edit_input(state: AppStateView, code: KeyCode) -> AppStateView {
    match code {
        KeyCode::Char(c) => spec_refresh_suggestions(
            AppStateView { input: state.input.push(c), ..state },
        ),
        KeyCode::Backspace => spec_refresh_suggestions(
            AppStateView {
                input: if state.input.len() > 0 {
                    state.input.drop_last()
                } else {
                    state.input
                },
                ..state
            },
        ),
        KeyCode::Esc => spec_refresh_suggestions(AppStateView { input: Seq::empty(), ..state }),
        KeyCode::Up => spec_history_prev(state),
        KeyCode::Down => spec_history_next(state),
        _ => state,
    }
}

/// A key is taken. The interrupt key is acted on first. While a request
/// for approval waits, the key goes to it and to nothing else. Otherwise
/// the key edits the input line or enters it.
pub open spec fn spec_handle_key(
    state: AppStateView,
    key: KeyPress,
    config: ConfigView,
    servers: Option<Seq<EntryView>>,
) -> (AppStateView, KeyEffectView) {
    let interrupted = if is_interrupt(key) {
        spec_interrupt(state)
    } else {
        state
    };
    let abort_run = is_interrupt(key) && state.running;
    let owed = if abort_run {
        spec_cancel_pending(state)
    } else {
        None
    };
    if interrupted.approval_pending {
        let decision = spec_key_decision(key.code);
        (
            if decision is Some {
                AppStateView {
                    approval_pending: false,
                    status_detail: "waiting LLM"@,
                    ..interrupted
                }
            } else {
                interrupted
            },
            KeyEffectView { abort_run, decision, start: None },
        )
    } else if key.code == KeyCode::Enter {
        let entered = spec_handle_input(interrupted, config, servers);
        (entered.0, KeyEffectView { abort_run, decision: owed, start: entered.1 })
    } else {
        (
            spec_edit_input(interrupted, key.code),
            KeyEffectView { abort_run, decision: owed, start: None },
        )
    }
}

impl AppState {
    /// Enters the input line.
    pub fn handle_input(&mut self, config: &Config, servers: Option<&McpConfig>) -> (start: Option<
        StartRun,
    >)
        ensures
            (final(self)@, opt_start_view(start)) == spec_handle_input(
                old(self)@,
                config@,
                opt_servers_view(servers),
            ),
    {
        let input = trim(&str_chars(self.input.as_str()));
        self.input = String::new();
        self.refresh_suggestions();
        if input.len() == 0 {
            return None;
        }
        let text = chars_to_string(&input);
        self.push_history(text.as_str());
        if chars_eq_str(&input, "/") || chars_eq_str(&input, "／") {
            self.append_message(build_slash_help().as_str());
            return None;
        }
        if let Some(response) = handle_slash_command(text.as_str(), config, servers) {
            if chars_eq_str(&input, "/exit") || chars_eq_str(&input, "/quit") {
                self.should_quit = true;
                return None;
            }
            self.append_message(response.as_str());
            return None;
        }
        if self.running {
            let pending = PendingInput { text, logged: false };
            self.queue.push_back(pending);
            assert(pending_views(self.queue@) =~= pending_views(old(self).queue@).push(pending@));
            return None;
        }
        let mut line = str_chars("> ");
        extend_chars(&mut line, &input);
        self.append_user_message(chars_to_string(&line).as_str());
        let pending = PendingInput { text, logged: true };
        self.queue.push_back(pending);
        assert(pending_views(self.queue@) =~= pending_views(old(self).queue@).push(pending@));
        self.maybe_start_next()
    }

    fn edit_input(&mut self, code: KeyCode)
        ensures
            final(self)@ == spec_edit_input(old(self)@, code),
    {
        match code {
            KeyCode::Char(c) => {
                let mut input = str_chars(self.input.as_str());
                input.push(c);
                self.input = chars_to_string(&input);
                self.refresh_suggestions();
            },
            KeyCode::Backspace => {
                let mut input = str_chars(self.input.as_str());
                if input.len() > 0 {
                    input.pop();
                }
                self.input = chars_to_string(&input);
                self.refresh_suggestions();
            },
            KeyCode::Esc => {
                self.input = String::new();
                self.refresh_suggestions();
            },
            KeyCode::Up => {
                self.history_prev();
            },
            KeyCode::Down => {
                self.history_next();
            },
            _ => {},
        }
    }

    /// Takes a key.
    pub fn handle_key(&mut self, key: KeyPress, config: &Config, servers: Option<&McpConfig>) -> (effect:
        KeyEffect)
        ensures
            (final(self)@, effect@) == spec_handle_key(
                old(self)@,
                key,
                config@,
                opt_servers_view(servers),
            ),
    {
        let interrupt = match key.code {
            KeyCode::Char(c) => c == 'c' && key.control,
            _ => false,
        };
        let abort_run = interrupt && self.running;
        let owed = if interrupt {
            self.interrupt()
        } else {
            None
        };
        if self.approval_pending {
            let decision = match key.code {
                KeyCode::Char(c) => self.handle_approval_key(c),
                _ => None,
            };
            return KeyEffect { abort_run, decision, start: None };
        }
        match key.code {
            KeyCode::Enter => {
                let start = self.handle_input(config, servers);
                KeyEffect { abort_run, decision: owed, start }
            },
            _ => {
                self.edit_input(key.code);
                KeyEffect { abort_run, decision: owed, start: None }
            },
        }
    }
}

} // verus!
