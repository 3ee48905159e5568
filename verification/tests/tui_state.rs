use tengu::config::{Config, PermissionsConfig, SandboxConfig};
use tengu::mcp::McpConfig;
use tengu::tools::{Tool, ToolApprovalDecision, ToolApprovalRequest};
use tengu::tui::ansi::{
    carriage_return, clear_line, hide_cursor, move_to, reset, set_fg, show_cursor, Color, ESC,
};
use tengu::tui::commands::{
    handle_slash_command, show_approvals, show_model, show_status, KeyCode, KeyPress,
};
use tengu::tui::controller::TuiEvent;
use tengu::tui::help::{
    approval_key, build_slash_help, build_slash_help_filtered, build_slash_help_from_items,
    format_approval_prompt, list_builtin_tools, slash_help_items,
};
use tengu::tui::inline::InlineRenderState;
use tengu::tui::state::{
    AppState, ConversationRole, ConversationTurn, LogLine, LogRole, PendingInput,
};
use tengu::tui::theme::{
    apply_override, default_theme, resolve_color, resolve_theme, ThemeConfigOpt,
};

fn strings(items: &[&str]) -> Vec<String> {
    items.iter().map(|s| s.to_string()).collect()
}

fn state() -> AppState {
    AppState::new(String::new(), "m".to_string(), "b".to_string())
}

fn log(state: &AppState) -> Vec<(LogRole, String)> {
    state.log_lines.iter().map(|l| (l.role, l.text.clone())).collect()
}

fn line(role: LogRole, text: &str) -> (LogRole, String) {
    (role, text.to_string())
}

#[test]
fn escape_sequences() {
    assert_eq!(ESC, "\x1b");
    assert_eq!(clear_line(), "\x1b[K");
    assert_eq!(carriage_return(), "\r");
    assert_eq!(move_to(1, 1), "\x1b[1;1H");
    assert_eq!(move_to(12, 80), "\x1b[12;80H");
    assert_eq!(move_to(0, 65535), "\x1b[0;65535H");
    assert_eq!(hide_cursor(), "\x1b[?25l");
    assert_eq!(show_cursor(), "\x1b[?25h");
    assert_eq!(reset(), "\x1b[0m");
}

#[test]
fn colour_codes() {
    assert_eq!(set_fg(Color::Black), "\x1b[30m");
    assert_eq!(set_fg(Color::DarkGrey), "\x1b[90m");
    assert_eq!(set_fg(Color::Red), "\x1b[31m");
    assert_eq!(set_fg(Color::DarkRed), "\x1b[91m");
    assert_eq!(set_fg(Color::Green), "\x1b[32m");
    assert_eq!(set_fg(Color::DarkGreen), "\x1b[92m");
    assert_eq!(set_fg(Color::Yellow), "\x1b[33m");
    assert_eq!(set_fg(Color::DarkYellow), "\x1b[93m");
    assert_eq!(set_fg(Color::Blue), "\x1b[34m");
    assert_eq!(set_fg(Color::DarkBlue), "\x1b[94m");
    assert_eq!(set_fg(Color::Magenta), "\x1b[35m");
    assert_eq!(set_fg(Color::DarkMagenta), "\x1b[95m");
    assert_eq!(set_fg(Color::Cyan), "\x1b[36m");
    assert_eq!(set_fg(Color::DarkCyan), "\x1b[96m");
    assert_eq!(set_fg(Color::White), "\x1b[37m");
    assert_eq!(set_fg(Color::Grey), "\x1b[90m");
    assert_eq!(set_fg(Color::Reset), "\x1b[39m");
    assert_eq!(set_fg(Color::Rgb { r: 1, g: 20, b: 255 }), "\x1b[38;2;1;20;255m");
    assert_eq!(set_fg(Color::AnsiValue(208)), "\x1b[38;5;208m");
}

#[test]
fn inline_state_starts_due_for_drawing() {
    let inline = InlineRenderState::default();
    assert_eq!(inline.cursor_row, 0);
    assert_eq!(inline.cursor_col, 0);
    assert_eq!(inline.footer_row, None);
    assert_eq!(inline.input_rows, 0);
    assert_eq!(inline.status_rows, 0);
    assert_eq!(inline.min_log_rows, 3);
    assert!(inline.dirty);
}

#[test]
fn new_state_shows_the_banner() {
    let state = AppState::new("Tengu\nready\n".to_string(), "llama".to_string(), "today".to_string());
    assert_eq!(log(&state), vec![line(LogRole::System, "Tengu"), line(LogRole::System, "ready")]);
    assert_eq!(state.status_model, "llama");
    assert_eq!(state.status_build, "today");
    assert_eq!(state.status_detail, "idle");
    assert_eq!(state.status_state(), "idle");
    assert!(!state.should_quit && !state.running && !state.approval_pending);
    assert!(state.queue.is_empty() && state.history.is_empty() && state.conversation.is_empty());
    assert_eq!(state.history_index, None);
    assert_eq!(state.tick, 0);
}

#[test]
fn messages_are_added_line_by_line() {
    let mut state = state();
    state.append_message("a\nb\n");
    state.append_user_message("> hi");
    state.append_message("");
    state.append_blank_line();
    assert_eq!(
        log(&state),
        vec![
            line(LogRole::Assistant, "a"),
            line(LogRole::Assistant, "b"),
            line(LogRole::User, "> hi"),
            line(LogRole::System, ""),
        ]
    );
}

#[test]
fn streamed_pieces_go_on_the_last_line() {
    let mut state = state();
    state.append_stream_chunk("Hel");
    state.append_stream_chunk("lo\nwor");
    state.append_stream_chunk("ld\n");
    assert_eq!(
        log(&state),
        vec![
            line(LogRole::Assistant, "Hello"),
            line(LogRole::Assistant, "world"),
            line(LogRole::Assistant, ""),
        ]
    );
    state.append_user_message("> q");
    state.append_stream_chunk("x");
    assert_eq!(log(&state).last().unwrap(), &line(LogRole::Assistant, "x"));
    assert_eq!(state.log_lines.len(), 5);
}

#[test]
fn answer_becomes_a_turn_when_it_holds_something() {
    let mut state = state();
    state.push_user_conversation("question");
    state.start_assistant_response();
    state.append_assistant_chunk("  ans");
    state.append_assistant_chunk("wer \n");
    assert_eq!(state.current_assistant, "  answer \n");
    state.finalize_assistant_response();
    assert_eq!(state.current_assistant, "");
    assert_eq!(state.conversation.len(), 2);
    assert_eq!(state.conversation[1].role, ConversationRole::Assistant);
    assert_eq!(state.conversation[1].content, "answer");
    assert_eq!(log(&state), vec![line(LogRole::System, "")]);
    state.append_assistant_chunk("   ");
    state.finalize_assistant_response();
    assert_eq!(state.conversation.len(), 2);
    assert_eq!(state.log_lines.len(), 2);
}

#[test]
fn context_holds_the_last_turns() {
    let mut state = state();
    assert_eq!(state.build_context(10), "");
    for i in 0..3 {
        state.push_user_conversation(&format!("q{}", i));
        state.conversation.push(ConversationTurn {
            role: ConversationRole::Assistant,
            content: format!("a{}", i),
        });
    }
    assert_eq!(state.build_context(2), "ユーザー: q2\nアシスタント: a2");
    assert_eq!(state.build_context(3), "アシスタント: a1\nユーザー: q2\nアシスタント: a2");
    assert_eq!(
        state.build_context(10),
        "ユーザー: q0\nアシスタント: a0\nユーザー: q1\nアシスタント: a1\nユーザー: q2\nアシスタント: a2"
    );
    assert_eq!(state.build_context(0), "");
}

#[test]
fn input_rows_and_visible_log() {
    let mut state = state();
    assert_eq!(state.input_row_count(), 1);
    state.input = "a\nb\n".to_string();
    assert_eq!(state.input_row_count(), 3);
    for i in 0..5 {
        state.append_message(&format!("l{}", i));
    }
    let texts = |v: Vec<LogLine>| -> Vec<String> { v.into_iter().map(|l| l.text).collect() };
    assert_eq!(texts(state.visible_log_lines(0)), Vec::<String>::new());
    assert_eq!(texts(state.visible_log_lines(2)), strings(&["l3", "l4"]));
    assert_eq!(texts(state.visible_log_lines(5)), strings(&["l0", "l1", "l2", "l3", "l4"]));
    assert_eq!(texts(state.visible_log_lines(9)).len(), 5);
}

#[test]
fn running_and_idle() {
    let mut state = state();
    state.set_running("waiting LLM");
    assert!(state.running);
    assert_eq!(state.status_state(), "running");
    assert_eq!(state.status_detail, "waiting LLM");
    state.set_idle();
    assert!(!state.running);
    assert_eq!(state.status_detail, "idle");
}

#[test]
fn help_lists_every_command_in_a_column() {
    let items = slash_help_items();
    assert_eq!(items.len(), 18);
    assert_eq!(items[0].cmd, "/new");
    assert_eq!(items[17].cmd, "/exit, /quit");
    let help = build_slash_help();
    let lines: Vec<&str> = help.lines().collect();
    assert_eq!(lines.len(), 18);
    assert_eq!(lines[0], "/new           Add a new working session");
    assert_eq!(lines[3], "/resume --last Resume latest session");
    assert_eq!(lines[15], "/editor [path] Open external editor");
    for (item, line) in items.iter().zip(lines.iter()) {
        assert_eq!(*line, format!("{:<14} {}", item.cmd, item.desc_en));
    }
    assert_eq!(build_slash_help_from_items(&Vec::new()), "");
}

#[test]
fn help_is_filtered_by_prefix() {
    assert_eq!(build_slash_help_filtered("/"), build_slash_help());
    assert_eq!(
        build_slash_help_filtered("/re"),
        "/resume        List or resume sessions\n/resume --last Resume latest session"
    );
    assert_eq!(build_slash_help_filtered("/exit"), "/exit, /quit   Show exit hint");
    assert_eq!(build_slash_help_filtered("/quit"), "");
    assert_eq!(build_slash_help_filtered("/zzz"), "");
    assert_eq!(build_slash_help_filtered("help"), "");
    assert_eq!(list_builtin_tools(), "Read\nWrite\nShell\nGrep\nGlob\nMCP(@server/tool)");
}

#[test]
fn approval_prompt_names_tool_and_target() {
    let request = |paths: &[&str]| ToolApprovalRequest { tool: Tool::Write, paths: strings(paths) };
    let keys = "?\n[y] Yes  [n] No  [a] Always allow  [d] Don't ask again";
    assert_eq!(format_approval_prompt(&request(&[])), format!("Allow Write to target{}", keys));
    assert_eq!(format_approval_prompt(&request(&["a.md"])), format!("Allow Write to a.md{}", keys));
    assert_eq!(
        format_approval_prompt(&request(&["a.md", "b.md", "c.md"])),
        format!("Allow Write to a.md (+2 more){}", keys)
    );
    assert_eq!(approval_key('y'), Some(ToolApprovalDecision::AllowOnce));
    assert_eq!(approval_key('n'), Some(ToolApprovalDecision::DenyOnce));
    assert_eq!(approval_key('a'), Some(ToolApprovalDecision::AllowAll));
    assert_eq!(approval_key('d'), Some(ToolApprovalDecision::DenyAll));
    assert_eq!(approval_key('Y'), None);
    assert_eq!(approval_key('x'), None);
}

#[test]
fn history_moves_back_and_forth() {
    let mut state = state();
    state.history_prev();
    assert_eq!(state.history_index, None);
    state.push_history("one");
    state.push_history("two");
    state.push_history("two");
    assert_eq!(state.history, strings(&["one", "two"]));
    state.input = "draft".to_string();
    state.history_prev();
    assert_eq!((state.input.as_str(), state.history_index), ("two", Some(1)));
    assert_eq!(state.draft_input, "draft");
    state.history_prev();
    assert_eq!((state.input.as_str(), state.history_index), ("one", Some(0)));
    state.history_prev();
    assert_eq!((state.input.as_str(), state.history_index), ("one", Some(0)));
    state.history_next();
    assert_eq!((state.input.as_str(), state.history_index), ("two", Some(1)));
    state.history_next();
    assert_eq!((state.input.as_str(), state.history_index), ("draft", None));
    assert_eq!(state.draft_input, "");
    state.history_next();
    assert_eq!((state.input.as_str(), state.history_index), ("draft", None));
}

#[test]
fn suggestions_follow_the_input() {
    let mut state = state();
    state.input = "  /mo".to_string();
    state.refresh_suggestions();
    assert_eq!(state.suggestions, format!("{:<14} {}", "/model", "Show model name"));
    assert_eq!(state.suggestions, "/model         Show model name");
    state.input = "hello /mo".to_string();
    state.refresh_suggestions();
    assert_eq!(state.suggestions, "");
    state.push_history("/help");
    state.history_prev();
    assert_eq!(state.suggestions, "/help          Show help");
}

#[test]
fn required_height_counts_every_part() {
    let mut state = state();
    assert_eq!(state.required_height(), 3 + 1 + 1 + 2 + 0 + 1);
    assert_eq!(state.inline.min_log_rows, 3);
    state.input = "a\nb".to_string();
    state.suggestions = "x\ny\nz".to_string();
    for _ in 0..6 {
        state.append_blank_line();
    }
    assert_eq!(state.required_height(), 6 + 1 + 1 + 3 + 3 + 1);
    assert_eq!(state.inline.min_log_rows, 5);
    state.log_lines.clear();
    assert_eq!(state.required_height(), 5 + 1 + 1 + 3 + 3 + 1);
}

#[test]
fn news_from_a_run_changes_the_state() {
    let mut state = state();
    state.set_running("waiting LLM");
    state.apply_event(TuiEvent::Chunk("Hi\nthere".to_string()));
    assert_eq!(state.current_assistant, "Hi\nthere");
    assert_eq!(log(&state), vec![line(LogRole::Assistant, "Hi"), line(LogRole::Assistant, "there")]);
    state.apply_event(TuiEvent::Done);
    assert!(!state.running);
    assert_eq!(state.conversation.len(), 1);
    assert_eq!(state.conversation[0].content, "Hi\nthere");
    assert_eq!(log(&state).last().unwrap(), &line(LogRole::System, ""));

    let request = ToolApprovalRequest { tool: Tool::Read, paths: strings(&["a"]) };
    state.apply_event(TuiEvent::ApprovalRequest { request });
    assert!(state.approval_pending && state.running);
    assert_eq!(state.status_detail, "approval required");
    let n = state.log_lines.len();
    assert_eq!(state.log_lines[n - 2].text, "Allow Read to a?");
    assert_eq!(state.log_lines[n - 1].text, "[y] Yes  [n] No  [a] Always allow  [d] Don't ask again");

    state.apply_event(TuiEvent::Error("boom".to_string()));
    assert!(!state.running);
    assert_eq!(log(&state).last().unwrap(), &line(LogRole::Assistant, "error: boom"));
}

#[test]
fn approval_keys_answer_the_request() {
    let mut state = state();
    state.approval_pending = true;
    assert_eq!(state.handle_approval_key('x'), None);
    assert!(state.approval_pending);
    assert_eq!(state.handle_approval_key('a'), Some(ToolApprovalDecision::AllowAll));
    assert!(!state.approval_pending);
    assert_eq!(state.status_detail, "waiting LLM");
}

#[test]
fn giving_up_a_request_owes_it_a_refusal() {
    let mut state = state();
    assert_eq!(state.cancel_pending_approval(), None);
    state.approval_pending = true;
    assert_eq!(state.cancel_pending_approval(), Some(ToolApprovalDecision::DenyOnce));
    assert!(!state.approval_pending);
    assert_eq!(state.cancel_pending_approval(), None);
}

#[test]
fn interrupt_gives_up_the_run_or_leaves() {
    let mut state = state();
    state.set_running("approval required");
    state.approval_pending = true;
    assert_eq!(state.interrupt(), Some(ToolApprovalDecision::DenyOnce));
    assert!(!state.running && !state.approval_pending && !state.should_quit);
    assert_eq!(state.status_detail, "idle");
    assert_eq!(log(&state).last().unwrap(), &line(LogRole::Assistant, "interrupted"));
    assert_eq!(state.interrupt(), None);
    assert!(state.should_quit);
}

#[test]
fn queue_is_served_in_order() {
    let mut state = state();
    state.push_user_conversation("earlier");
    state.queue.push_back(PendingInput { text: "first".to_string(), logged: false });
    state.queue.push_back(PendingInput { text: "second".to_string(), logged: true });
    let start = state.maybe_start_next().unwrap();
    assert_eq!(start.input, "first");
    assert_eq!(start.context, "ユーザー: earlier");
    assert!(state.running);
    assert_eq!(state.status_detail, "waiting LLM");
    assert_eq!(
        log(&state),
        vec![line(LogRole::User, "> first"), line(LogRole::System, ""), line(LogRole::Assistant, "")]
    );
    assert_eq!(state.conversation.len(), 2);
    assert_eq!(state.queue.len(), 1);
    assert!(state.maybe_start_next().is_none());
    state.set_idle();
    let start = state.maybe_start_next().unwrap();
    assert_eq!(start.input, "second");
    assert_eq!(start.context, "ユーザー: earlier\nユーザー: first");
    assert_eq!(state.log_lines.len(), 5);
    state.set_idle();
    assert!(state.maybe_start_next().is_none());
}

fn config() -> Config {
    let mut config = Config::default();
    config.model.name = Some("llama3".to_string());
    config.permissions = Some(PermissionsConfig {
        approval_policy: Some("always".to_string()),
        allowed_tools: None,
        deny: None,
    });
    config.sandbox = Some(SandboxConfig {
        mode: Some("workspace-write".to_string()),
        allowed_paths: None,
        blocked_paths: None,
    });
    config
}

#[test]
fn slash_commands_are_answered() {
    let config = config();
    let servers = McpConfig::default();
    let run = |input: &str| handle_slash_command(input, &config, Some(&servers));
    assert_eq!(run("hello"), None);
    assert_eq!(run(""), None);
    assert_eq!(run("/help"), Some(build_slash_help()));
    assert_eq!(run("  ／help me"), Some(build_slash_help()));
    assert_eq!(run("/tools"), Some(list_builtin_tools()));
    assert_eq!(run("/mcp"), Some("no mcp servers".to_string()));
    assert_eq!(handle_slash_command("/mcp", &config, None), None);
    assert_eq!(run("/model"), Some("model: llama3".to_string()));
    assert_eq!(run("/approvals"), Some("approvals: always".to_string()));
    assert_eq!(
        run("/status"),
        Some("model: llama3\nprovider: anthropic\napprovals: always\nsandbox: workspace-write".to_string())
    );
    assert_eq!(run("/commit fix it"), Some("/commit is not implemented in TUI yet.".to_string()));
    assert_eq!(run("/new"), Some("/new is not implemented in TUI yet.".to_string()));
    assert_eq!(run("/re"), Some(build_slash_help_filtered("/re")));
    assert_eq!(run("/exit"), Some("/exit, /quit   Show exit hint".to_string()));
    assert_eq!(run("/quit"), Some("unknown command: /quit".to_string()));
    assert_eq!(run("/nope x"), Some("unknown command: /nope".to_string()));
    assert_eq!(run("/"), Some(build_slash_help()));
}

#[test]
fn status_without_settings() {
    let plain = Config::default();
    assert_eq!(show_model(&plain), "model: unknown");
    assert_eq!(show_approvals(&plain), "approvals: unset");
    assert_eq!(show_status(&plain), "model: unknown\nprovider: anthropic\napprovals: unset\nsandbox: none");
}

#[test]
fn entered_input_is_a_command_or_an_instruction() {
    let config = config();
    let mut state = state();
    state.input = "   ".to_string();
    assert!(state.handle_input(&config, None).is_none());
    assert_eq!(state.input, "");
    assert!(state.history.is_empty());

    state.input = " /model ".to_string();
    assert!(state.handle_input(&config, None).is_none());
    assert_eq!(state.history, strings(&["/model"]));
    assert_eq!(log(&state), vec![line(LogRole::Assistant, "model: llama3")]);

    state.input = "/".to_string();
    assert!(state.handle_input(&config, None).is_none());
    assert_eq!(state.log_lines.len(), 1 + 18);

    state.input = "do it".to_string();
    let start = state.handle_input(&config, None).unwrap();
    assert_eq!(start.input, "do it");
    assert_eq!(start.context, "");
    assert!(state.running);
    assert!(state.queue.is_empty());
    let n = state.log_lines.len();
    assert_eq!(state.log_lines[n - 3].text, "> do it");
    assert_eq!(state.log_lines[n - 3].role, LogRole::User);

    state.input = "and then".to_string();
    assert!(state.handle_input(&config, None).is_none());
    assert_eq!(state.queue.len(), 1);
    assert_eq!(state.queue[0].text, "and then");
    assert!(!state.queue[0].logged);
    assert_eq!(state.log_lines.len(), n);

    state.input = "/quit".to_string();
    assert!(state.handle_input(&config, None).is_none());
    assert!(state.should_quit);
}

fn key(code: KeyCode) -> KeyPress {
    KeyPress { code, control: false }
}

#[test]
fn keys_edit_the_input() {
    let config = config();
    let mut state = state();
    for c in "/he".chars() {
        let effect = state.handle_key(key(KeyCode::Char(c)), &config, None);
        assert!(effect.start.is_none() && effect.decision.is_none() && !effect.abort_run);
    }
    assert_eq!(state.input, "/he");
    assert_eq!(state.suggestions, "/help          Show help");
    state.handle_key(key(KeyCode::Backspace), &config, None);
    assert_eq!(state.input, "/h");
    state.handle_key(key(KeyCode::Esc), &config, None);
    assert_eq!(state.input, "");
    assert_eq!(state.suggestions, "");
    state.handle_key(key(KeyCode::Backspace), &config, None);
    state.handle_key(key(KeyCode::Other), &config, None);
    assert_eq!(state.input, "");
    for c in "go".chars() {
        state.handle_key(key(KeyCode::Char(c)), &config, None);
    }
    let effect = state.handle_key(key(KeyCode::Enter), &config, None);
    assert_eq!(effect.start.unwrap().input, "go");
    state.handle_key(key(KeyCode::Up), &config, None);
    assert_eq!(state.input, "go");
    state.handle_key(key(KeyCode::Down), &config, None);
    assert_eq!(state.input, "");
}

#[test]
fn keys_go_to_a_waiting_request_first() {
    let config = config();
    let mut state = state();
    state.set_running("approval required");
    state.approval_pending = true;
    let effect = state.handle_key(key(KeyCode::Char('q')), &config, None);
    assert!(effect.decision.is_none());
    assert_eq!(state.input, "");
    assert!(state.approval_pending);
    let effect = state.handle_key(key(KeyCode::Enter), &config, None);
    assert!(effect.decision.is_none() && effect.start.is_none());
    let effect = state.handle_key(key(KeyCode::Char('y')), &config, None);
    assert_eq!(effect.decision, Some(ToolApprovalDecision::AllowOnce));
    assert!(!state.approval_pending);
    assert_eq!(state.input, "");
}

#[test]
fn interrupt_key_gives_up_the_run() {
    let config = config();
    let mut state = state();
    state.set_running("approval required");
    state.approval_pending = true;
    let effect = state.handle_key(KeyPress { code: KeyCode::Char('c'), control: true }, &config, None);
    assert!(effect.abort_run);
    assert_eq!(effect.decision, Some(ToolApprovalDecision::DenyOnce));
    assert!(!state.running && !state.approval_pending);
    assert_eq!(state.input, "c");
    let effect = state.handle_key(KeyPress { code: KeyCode::Char('c'), control: true }, &config, None);
    assert!(!effect.abort_run);
    assert!(state.should_quit);
}

#[test]
fn theme_names_and_colours() {
    let mut theme = default_theme();
    assert_eq!(theme.user, "green");
    assert_eq!(theme.queue, "dark_grey");
    assert_eq!(theme.footer, "grey");
    let colours = resolve_theme(&theme);
    assert_eq!(colours.user, Color::Green);
    assert_eq!(colours.assistant, Color::White);
    assert_eq!(colours.status, Color::Yellow);
    assert_eq!(colours.queue, Color::DarkGrey);
    assert_eq!(colours.heading, Color::Cyan);
    assert_eq!(colours.divider, Color::Grey);
    apply_override(
        &mut theme,
        ThemeConfigOpt {
            user: Some("Blue".to_string()),
            assistant: None,
            system: None,
            status: Some(" dark_red ".to_string()),
            queue: None,
            heading: None,
            inline_code: None,
            divider: None,
            footer: Some("nonsense".to_string()),
        },
    );
    assert_eq!(theme.user, "Blue");
    assert_eq!(theme.assistant, "white");
    let colours = resolve_theme(&theme);
    assert_eq!(colours.user, Color::Blue);
    assert_eq!(colours.status, Color::DarkRed);
    assert_eq!(colours.footer, Color::White);
    assert_eq!(resolve_color("GRAY"), Color::Grey);
    assert_eq!(resolve_color("dark_magenta"), Color::DarkMagenta);
    assert_eq!(resolve_color(""), Color::White);
}
