use tengu::config::{PermissionsConfig, SandboxConfig};
use tengu::output::output_lines;
use tengu::paths::ResolvedPath;
use tengu::policy::{permission_pass, resolve_all, sandbox_pass};
use tengu::session::{holds_session, Session};
use tengu::toolcall::{quoted_call_json, QuotedCall, ToolCall};
use tengu::tools::{ApprovalOverride, DenialReason, Tool, ToolError, ToolInput};
use tengu::tui::render::{measure, measured_width, wrap_measured};
use tengu::tui::state::AppState;

fn strings(items: &[&str]) -> Vec<String> {
    items.iter().map(|s| s.to_string()).collect()
}

fn chars(s: &str) -> Vec<char> {
    s.chars().collect()
}

fn rows(v: Vec<Vec<char>>) -> Vec<String> {
    v.into_iter().map(|r| r.into_iter().collect()).collect()
}

fn reason(res: Result<(), ToolError>) -> DenialReason {
    match res {
        Err(ToolError::Denied(d)) => d.reason,
        other => panic!("expected a denial, got {:?}", other),
    }
}

#[test]
fn permission_pass_for_given_targets() {
    let permissions = Some(PermissionsConfig {
        approval_policy: Some("always".to_string()),
        allowed_tools: Some(strings(&["Read(*.md)"])),
        deny: Some(strings(&["Read(secret*)"])),
    });
    let input = ToolInput::Read { path: "ignored".to_string() };
    let mut kept = ApprovalOverride::AllowOnce(Tool::Read);
    assert!(permission_pass(&permissions, &mut kept, &input, &strings(&["a.md"])).is_ok());
    assert_eq!(kept, ApprovalOverride::Unset);
    let mut kept = ApprovalOverride::AllowAll;
    assert_eq!(
        reason(permission_pass(&permissions, &mut kept, &input, &strings(&["secret.md"]))),
        DenialReason::DenyRule
    );
    assert_eq!(
        reason(permission_pass(&permissions, &mut kept, &input, &strings(&["a.txt"]))),
        DenialReason::NotAllowed
    );
    assert_eq!(kept, ApprovalOverride::AllowAll);
    let mut kept = ApprovalOverride::Unset;
    assert!(permission_pass(&permissions, &mut kept, &input, &strings(&["a.md"]))
        .unwrap_err()
        .is_approval_required());
    assert!(permission_pass(&None, &mut kept, &input, &Vec::new()).is_ok());
}

fn resolved(absolute: &str, relative: Option<&str>, inside: bool) -> ResolvedPath {
    ResolvedPath {
        absolute: absolute.to_string(),
        relative: relative.map(|s| s.to_string()),
        inside_workspace: inside,
    }
}

#[test]
fn sandbox_pass_for_given_resolutions() {
    let sandbox = Some(SandboxConfig {
        mode: Some("workspace-write".to_string()),
        allowed_paths: None,
        blocked_paths: Some(strings(&["./.git/*"])),
    });
    let write = ToolInput::Write { path: "x".to_string(), content: String::new() };
    let inside = resolved("C:\\work\\a", Some("./a"), true);
    let outside = resolved("D:\\a", None, false);
    let blocked = resolved("C:\\work\\.git\\config", Some("./.git/config"), true);
    assert!(sandbox_pass(&sandbox, &write, &vec![inside.clone()]).is_ok());
    assert_eq!(reason(sandbox_pass(&sandbox, &write, &vec![outside.clone()])), DenialReason::OutsideWorkspace);
    assert_eq!(reason(sandbox_pass(&sandbox, &write, &vec![blocked.clone()])), DenialReason::BlockedPath);
    let read = ToolInput::Read { path: "x".to_string() };
    assert!(sandbox_pass(&sandbox, &read, &vec![outside.clone()]).is_ok());
    assert_eq!(
        reason(sandbox_pass(&sandbox, &read, &vec![inside, outside, blocked])),
        DenialReason::BlockedPath
    );
    let shell = ToolInput::Shell { command: "ls".to_string(), args: Vec::new() };
    assert_eq!(reason(sandbox_pass(&sandbox, &shell, &Vec::new())), DenialReason::SandboxShell);
    assert!(sandbox_pass(&None, &shell, &Vec::new()).is_ok());
}

#[test]
fn every_path_is_resolved() {
    let all = resolve_all("/work", &strings(&["a", "/b"]));
    assert_eq!(all.len(), 2);
    assert_eq!(all[0].absolute, "/work/a");
    assert_eq!(all[0].relative, Some("./a".to_string()));
    assert!(all[0].inside_workspace);
    assert_eq!(all[1].absolute, "/b");
    assert!(!all[1].inside_workspace);
    assert!(resolve_all("/work", &Vec::new()).is_empty());
}

#[test]
fn calls_are_put_together_from_given_literals() {
    let read = QuotedCall::Read { path: "<P>".to_string() };
    assert_eq!(quoted_call_json(&read), "{\"tool\":\"read\",\"path\":<P>}");
    let write = QuotedCall::Write { path: "<P>".to_string(), content: "<C>".to_string() };
    assert_eq!(quoted_call_json(&write), "{\"tool\":\"write\",\"path\":<P>,\"content\":<C>}");
    let grep = QuotedCall::Grep { pattern: "<X>".to_string(), paths: strings(&["<A>", "<B>"]) };
    assert_eq!(quoted_call_json(&grep), "{\"tool\":\"grep\",\"pattern\":<X>,\"paths\":[<A>,<B>]}");
    let glob = QuotedCall::Glob { pattern: "<X>".to_string(), root: None };
    assert_eq!(quoted_call_json(&glob), "{\"tool\":\"glob\",\"pattern\":<X>,\"root\":null}");
    let call = ToolCall::Glob { pattern: "*".to_string(), root: Some("a\"b".to_string()) };
    match call.quote() {
        QuotedCall::Glob { pattern, root } => {
            assert_eq!(pattern, "\"*\"");
            assert_eq!(root, Some("\"a\\\"b\"".to_string()));
        }
        other => panic!("unexpected call {:?}", other),
    }
}

#[test]
fn output_lines_from_given_literals() {
    assert_eq!(
        output_lines("json", "m", "<MODE>", "<MSG>", "<PROMPT>"),
        strings(&["{\"message\":<MSG>,\"mode\":<MODE>,\"prompt\":<PROMPT>,\"type\":\"response\"}"])
    );
    assert_eq!(
        output_lines("stream-json", "m", "<MODE>", "<MSG>", "<PROMPT>"),
        strings(&[
            "{\"mode\":<MODE>,\"type\":\"start\"}",
            "{\"content\":<MSG>,\"prompt\":<PROMPT>,\"type\":\"message\"}",
            "{\"mode\":<MODE>,\"type\":\"end\"}",
        ])
    );
    assert_eq!(output_lines("text", "m", "<MODE>", "<MSG>", "<PROMPT>"), strings(&["m"]));
}

#[test]
fn session_from_given_name_and_time() {
    let session = Session::begun("abc".to_string(), "2024-05-01T00:00:00+00:00".to_string());
    assert_eq!(session.id, "abc");
    assert_eq!(session.created_at, "2024-05-01T00:00:00+00:00");
    assert_eq!(session.updated_at, "2024-05-01T00:00:00+00:00");
    let some = |s: &str| Some(s.to_string());
    assert!(holds_session(&some("json"), &some("a.json")));
    assert!(!holds_session(&some("json"), &some("sessions.db")));
    assert!(!holds_session(&some("JSON"), &some("a.JSON")));
    assert!(!holds_session(&None, &some("json")));
    assert!(holds_session(&some("json"), &None));
}

#[test]
fn text_is_broken_by_given_widths() {
    let text = chars("abcdef");
    assert_eq!(rows(wrap_measured(&text, &vec![1, 1, 1, 1, 1, 1], 4)), strings(&["abcd", "ef"]));
    assert_eq!(rows(wrap_measured(&text, &vec![2, 2, 2, 2, 2, 2], 4)), strings(&["ab", "cd", "ef"]));
    assert_eq!(rows(wrap_measured(&text, &vec![0, 0, 0, 0, 0, 0], 1)), strings(&["abcdef"]));
    assert_eq!(rows(wrap_measured(&text, &vec![9, 1, 1, 1, 1, 1], 4)), strings(&["", "a", "bcde", "f"]));
    assert_eq!(measured_width(&text, &vec![1, 2, 3, 0, 1, 2]), 9);
    assert_eq!(measured_width(&chars("\x1b[1mab"), &vec![7, 7, 7, 7, 1, 1]), 2);
    assert_eq!(measure(&chars("a日\n")), vec![1, 2, 0]);
}

#[test]
fn cursor_for_a_given_width_of_the_last_line() {
    let mut state = AppState::new(String::new(), "m".to_string(), "b".to_string());
    state.input = "one\ntwo".to_string();
    state.origin_y = 10;
    assert_eq!(state.last_input_line(), "two");
    let (footer_row, cursor_row, cursor_col) = state.place_cursor_at(3, 40);
    assert_eq!(cursor_col, 42);
    assert_eq!(cursor_row, 10 + 3 + 1 + 1 + 1);
    assert_eq!(footer_row, 10 + (3 + 1 + 1 + 3 + 0 + 1) - 1);
    let (_, _, cursor_col) = state.place_cursor_at(3, 65535 + 65536);
    assert_eq!(cursor_col, 65535);
}
