use tengu::agent::{
    build_execute_prompt, build_failed_followup_prompt, build_followup_prompt, build_plan_prompt,
    build_tool_select_prompt_with_context,
};
use tengu::config::{PermissionsConfig, SandboxConfig};
use tengu::executor::{ToolJob, ToolOutcome};
use tengu::orchestrator::{
    call_result, AgentAction, AgentError, AgentEvent, AgentRunner, AgentSession, Phase,
};
use tengu::policy::ToolPolicy;
use tengu::toolcall::{JsonField, RawToolCall, ToolCall};
use tengu::tools::{ApprovalOverride, Tool, ToolApprovalDecision, ToolError, ToolResult};

fn strings(items: &[&str]) -> Vec<String> {
    items.iter().map(|s| s.to_string()).collect()
}

fn policy(approval: Option<&str>, allowed: Option<&[&str]>, sandbox: Option<&str>) -> ToolPolicy {
    ToolPolicy {
        permissions: Some(PermissionsConfig {
            approval_policy: approval.map(|s| s.to_string()),
            allowed_tools: allowed.map(strings),
            deny: None,
        }),
        sandbox: sandbox.map(|mode| SandboxConfig {
            mode: Some(mode.to_string()),
            allowed_paths: None,
            blocked_paths: None,
        }),
        workspace_root: "/work".to_string(),
        approval_override: ApprovalOverride::Unset,
    }
}

fn runner(policy: ToolPolicy) -> AgentRunner {
    AgentRunner::new("test-model".to_string(), policy)
}

fn prompt_of(action: &AgentAction) -> String {
    match action {
        AgentAction::Generate { model, prompt } => {
            assert_eq!(model, "test-model");
            prompt.clone()
        }
        other => panic!("expected a question to the model, got {:?}", other),
    }
}

fn raw_call(tool: &str, path: Option<&str>, content: Option<&str>) -> RawToolCall {
    let field = |v: Option<&str>| match v {
        Some(s) => JsonField::Text(s.to_string()),
        None => JsonField::Missing,
    };
    RawToolCall {
        tool: JsonField::Text(tool.to_string()),
        path: field(path),
        content: field(content),
        pattern: JsonField::Missing,
        paths: JsonField::Missing,
        root: JsonField::Missing,
    }
}

fn reply(text: &str) -> AgentEvent {
    AgentEvent::ModelReply(text.to_string())
}

#[test]
fn read_instruction_runs_the_read_at_once_and_answers_from_it() {
    let mut runner = runner(policy(None, Some(&["Read"]), None));
    let (session, action) = runner.handle_prompt("read README.md");
    assert_eq!(session.phase, Phase::Planning);
    assert_eq!(prompt_of(&action), build_plan_prompt("read README.md"));

    let (session, action) = runner.step(session, reply("- read the file"));
    assert_eq!(session.phase, Phase::Running);
    assert_eq!(session.plan, "- read the file");
    match &action {
        AgentAction::Run(ToolJob::ReadFile { path }) => assert_eq!(path, "README.md"),
        other => panic!("unexpected action {:?}", other),
    }

    let (session, action) =
        runner.step(session, AgentEvent::Outcome(ToolOutcome::FileContent("# Title\nbody".to_string())));
    assert_eq!(session.phase, Phase::Responding);
    assert_eq!(
        prompt_of(&action),
        build_followup_prompt("read README.md", "- read the file", "# Title\nbody")
    );
    assert!(prompt_of(&action).contains("# Title\nbody"));

    let (session, action) = runner.step(session, reply("  The file says Title.\n"));
    assert_eq!(session.phase, Phase::Done);
    assert!(session.is_over());
    match action {
        AgentAction::Finish(output) => {
            assert_eq!(output.response.content, "The file says Title.");
            match output.tool_result {
                Some(ToolResult::Text(text)) => assert_eq!(text, "# Title\nbody"),
                other => panic!("unexpected tool result {:?}", other),
            }
        }
        other => panic!("unexpected action {:?}", other),
    }
}

#[test]
fn denied_write_ends_the_run_without_a_job() {
    let mut runner = runner(policy(None, None, Some("read-only")));
    let (session, _) = runner.handle_prompt("update the notes");
    let (session, action) = runner.step(session, reply("- write"));
    assert_eq!(session.phase, Phase::Selecting);
    prompt_of(&action);
    let (session, action) =
        runner.step(session, reply("{\"tool\":\"write\",\"path\":\"notes.md\",\"content\":\"x\"}"));
    assert_eq!(session.phase, Phase::Decoding);
    match &action {
        AgentAction::Decode { json } => {
            assert_eq!(json, "{\"tool\":\"write\",\"path\":\"notes.md\",\"content\":\"x\"}")
        }
        other => panic!("unexpected action {:?}", other),
    }
    let decoded = AgentEvent::Decoded(Some(raw_call("write", Some("notes.md"), Some("x"))));
    let (session, action) = runner.step(session, decoded);
    assert_eq!(session.phase, Phase::Failed);
    assert!(session.tool_result.is_none());
    match action {
        AgentAction::Fail(AgentError::Tool(error)) => {
            assert!(error.is_denied());
            assert_eq!(error.to_string(), "sandbox denies write in read-only mode: Write");
        }
        other => panic!("unexpected action {:?}", other),
    }
}

#[test]
fn write_is_previewed_and_never_written() {
    let mut runner = runner(policy(None, None, None));
    let (session, _) = runner.handle_prompt("update the notes");
    let (session, _) = runner.step(session, reply("- write"));
    let (session, _) = runner.step(session, reply("{...}"));
    let decoded = AgentEvent::Decoded(Some(raw_call("write", Some("notes.md"), Some("a\nc\n"))));
    let (session, action) = runner.step(session, decoded);
    match &action {
        AgentAction::LoadForPreview { path } => assert_eq!(path, "notes.md"),
        other => panic!("unexpected action {:?}", other),
    }
    let (session, action) =
        runner.step(session, AgentEvent::Outcome(ToolOutcome::FileContent("a\nb\n".to_string())));
    let diff = "--- notes.md\n+++ notes.md\n@@\n a\n-b\n+c\n";
    assert_eq!(prompt_of(&action), build_followup_prompt("update the notes", "- write", diff));
    match &session.tool_result {
        Some(ToolResult::PreviewWrite { path, diff: shown, content }) => {
            assert_eq!(path, "notes.md");
            assert_eq!(shown, diff);
            assert_eq!(content, "a\nc\n");
        }
        other => panic!("unexpected tool result {:?}", other),
    }
}

#[test]
fn failing_tool_step_is_retried_and_then_owned_up_to() {
    let mut runner = runner(policy(None, None, None));
    let (session, _) = runner.handle_prompt("read missing.md");
    let (session, action) = runner.step(session, reply("plan"));
    assert!(matches!(action, AgentAction::Run(ToolJob::ReadFile { .. })));
    assert_eq!(session.attempt, 0);

    let fail = || AgentEvent::Outcome(ToolOutcome::IoError("No such file".to_string()));
    let (session, action) = runner.step(session, fail());
    assert_eq!(session.attempt, 1);
    assert_eq!(session.phase, Phase::Selecting);
    assert_eq!(
        prompt_of(&action),
        build_tool_select_prompt_with_context(
            "read missing.md",
            "",
            "plan",
            Some("No such file"),
            Some("{\"tool\":\"read\",\"path\":\"missing.md\"}"),
        )
    );

    let (session, _) = runner.step(session, reply("{\"tool\":\"read\",\"path\":\"other.md\"}"));
    let (session, action) =
        runner.step(session, AgentEvent::Decoded(Some(raw_call("read", Some("other.md"), None))));
    assert!(matches!(action, AgentAction::Run(ToolJob::ReadFile { .. })));
    let (session, action) = runner.step(session, fail());
    assert_eq!(session.attempt, 2);
    assert!(prompt_of(&action).contains("{\"tool\":\"read\",\"path\":\"other.md\"}"));

    let (session, _) = runner.step(session, reply("{\"tool\":\"read\",\"path\":\"third.md\"}"));
    let (session, _) =
        runner.step(session, AgentEvent::Decoded(Some(raw_call("read", Some("third.md"), None))));
    let (session, action) = runner.step(session, fail());
    assert_eq!(session.attempt, 2);
    assert_eq!(session.phase, Phase::Responding);
    assert!(session.tool_result.is_none());
    assert_eq!(
        prompt_of(&action),
        build_failed_followup_prompt("read missing.md", "plan", Some("No such file"))
    );

    let (_, action) = runner.step(session, reply("It failed."));
    match action {
        AgentAction::Finish(output) => {
            assert_eq!(output.response.content, "It failed.");
            assert!(output.tool_result.is_none());
        }
        other => panic!("unexpected action {:?}", other),
    }
}

#[test]
fn answer_without_a_tool_call_goes_on_without_a_tool() {
    let mut runner = runner(policy(None, None, None));
    for answer in ["No tool needed.", "{\"tool\":\"none\"}"] {
        let (session, _) = runner.handle_prompt("say hi");
        let (session, _) = runner.step(session, reply("plan"));
        let (session, action) = runner.step(session, reply(answer));
        let (session, action) = match action {
            AgentAction::Decode { .. } => {
                let mut none = raw_call("none", None, None);
                none.tool = JsonField::Text("none".to_string());
                runner.step(session, AgentEvent::Decoded(Some(none)))
            }
            other => (session, other),
        };
        assert_eq!(session.phase, Phase::Responding);
        assert_eq!(prompt_of(&action), build_execute_prompt("say hi", "plan"));
    }
    let (session, _) = runner.handle_prompt("say hi");
    let (session, _) = runner.step(session, reply("plan"));
    let (session, _) = runner.step(session, reply("{ not json"));
    let (session, action) = runner.step(session, AgentEvent::Decoded(None));
    assert_eq!(session.phase, Phase::Responding);
    assert_eq!(prompt_of(&action), build_execute_prompt("say hi", "plan"));
}

#[test]
fn approval_once_lets_the_same_step_through_without_using_an_attempt() {
    let mut runner = runner(policy(Some("always"), None, None));
    runner.set_approval_handler();
    let (session, _) = runner.handle_prompt("read README.md");
    let (session, action) = runner.step(session, reply("plan"));
    assert_eq!(session.phase, Phase::ApprovalWait);
    match &action {
        AgentAction::AskApproval(request) => {
            assert_eq!(request.tool, Tool::Read);
            assert_eq!(request.paths, strings(&["README.md"]));
        }
        other => panic!("unexpected action {:?}", other),
    }
    let (session, action) =
        runner.step(session, AgentEvent::Approval(ToolApprovalDecision::AllowOnce));
    assert_eq!(session.attempt, 0);
    assert_eq!(session.phase, Phase::Running);
    assert!(matches!(action, AgentAction::Run(ToolJob::ReadFile { .. })));
    assert_eq!(runner.tool_policy.approval_override(), ApprovalOverride::Unset);
}

#[test]
fn approval_for_all_is_kept() {
    let mut runner = runner(policy(Some("always"), None, None));
    runner.set_approval_handler();
    let (session, _) = runner.handle_prompt("read README.md");
    let (session, _) = runner.step(session, reply("plan"));
    let (session, action) =
        runner.step(session, AgentEvent::Approval(ToolApprovalDecision::AllowAll));
    assert_eq!(session.phase, Phase::Running);
    assert!(matches!(action, AgentAction::Run(_)));
    assert_eq!(runner.tool_policy.approval_override(), ApprovalOverride::AllowAll);
}

#[test]
fn refusal_ends_the_run() {
    let mut runner = runner(policy(Some("always"), None, None));
    runner.set_approval_handler();
    let (session, _) = runner.handle_prompt("read README.md");
    let (session, _) = runner.step(session, reply("plan"));
    let (session, action) =
        runner.step(session, AgentEvent::Approval(ToolApprovalDecision::DenyOnce));
    assert_eq!(session.phase, Phase::Failed);
    match action {
        AgentAction::Fail(error) => {
            assert_eq!(error.to_string(), "permission denied by user for tool: Read")
        }
        other => panic!("unexpected action {:?}", other),
    }
    assert_eq!(runner.tool_policy.approval_override(), ApprovalOverride::Unset);

    let (session, _) = runner.handle_prompt("read README.md");
    let (session, _) = runner.step(session, reply("plan"));
    let (_, action) = runner.step(session, AgentEvent::Approval(ToolApprovalDecision::DenyAll));
    assert!(matches!(action, AgentAction::Fail(AgentError::UserDenied(Tool::Read))));
    assert_eq!(runner.tool_policy.approval_override(), ApprovalOverride::DenyAll);

    let (session, _) = runner.handle_prompt("read README.md");
    let (session, action) = runner.step(session, reply("plan"));
    assert_eq!(session.phase, Phase::Failed);
    match action {
        AgentAction::Fail(error) => assert_eq!(
            error.to_string(),
            "permission denied by approval override for tool: Read"
        ),
        other => panic!("unexpected action {:?}", other),
    }
}

#[test]
fn without_a_handler_the_request_for_approval_is_the_error() {
    let mut runner = runner(policy(Some("always"), None, None));
    let (session, _) = runner.handle_prompt("read README.md");
    let (session, action) = runner.step(session, reply("plan"));
    assert_eq!(session.phase, Phase::Failed);
    match action {
        AgentAction::Fail(AgentError::Tool(ToolError::ApprovalRequired(required))) => {
            assert_eq!(required.tool, Tool::Read);
            assert_eq!(required.paths, strings(&["README.md"]));
        }
        other => panic!("unexpected action {:?}", other),
    }
    let mut runner = runner_with_handler();
    let (session, _) = runner.handle_prompt("read README.md");
    let (session, _) = runner.step(session, reply("plan"));
    let (session, action) = runner.step(session, AgentEvent::ApprovalUnavailable);
    assert_eq!(session.phase, Phase::Failed);
    match action {
        AgentAction::Fail(error) => {
            assert_eq!(error.to_string(), "permission approval required for tool: Read")
        }
        other => panic!("unexpected action {:?}", other),
    }
}

fn runner_with_handler() -> AgentRunner {
    let mut runner = runner(policy(Some("always"), None, None));
    runner.set_approval_handler();
    runner
}

#[test]
fn cancelling_a_wait_for_approval_answers_with_a_refusal_and_keeps_the_policy() {
    let mut runner = runner_with_handler();
    let (session, _) = runner.handle_prompt("read README.md");
    let (mut session, _) = runner.step(session, reply("plan"));
    assert_eq!(session.phase, Phase::ApprovalWait);
    assert_eq!(session.cancel(), Some(ToolApprovalDecision::DenyOnce));
    assert_eq!(session.phase, Phase::Failed);
    assert!(session.pending.is_none());
    assert_eq!(runner.tool_policy.approval_override(), ApprovalOverride::Unset);

    let (mut session, _) = runner.handle_prompt("say hi");
    assert_eq!(session.cancel(), None);
    assert!(session.is_over());
}

#[test]
fn model_failure_ends_the_run() {
    let mut runner = runner(policy(None, None, None));
    let (session, _) = runner.handle_prompt("say hi");
    let (session, action) = runner.step(session, AgentEvent::ModelError("timeout".to_string()));
    assert_eq!(session.phase, Phase::Failed);
    match action {
        AgentAction::Fail(error) => assert_eq!(error.to_string(), "timeout"),
        other => panic!("unexpected action {:?}", other),
    }
}

#[test]
fn stray_events_end_the_run() {
    let mut runner = runner(policy(None, None, None));
    let (session, _) = runner.handle_prompt("say hi");
    let (session, action) = runner.step(session, AgentEvent::ApprovalUnavailable);
    assert_eq!(session.phase, Phase::Failed);
    match action {
        AgentAction::Fail(error) => assert_eq!(error.to_string(), "unexpected event"),
        other => panic!("unexpected action {:?}", other),
    }
    let (_, action) = runner.step(session, reply("late"));
    assert!(matches!(action, AgentAction::Fail(AgentError::UnexpectedEvent)));
}

#[test]
fn streamed_run_ends_with_the_final_question() {
    let mut runner = runner(policy(None, None, None));
    let (session, action) = runner.handle_prompt_stream_with_context("say hi", "user: yo");
    assert!(session.streaming);
    assert!(prompt_of(&action).contains("user: yo"));
    let (session, _) = runner.step(session, reply("plan"));
    let (session, action) = runner.step(session, reply("no tool"));
    assert_eq!(session.phase, Phase::Done);
    match action {
        AgentAction::Stream { model, prompt } => {
            assert_eq!(model, "test-model");
            assert!(prompt.ends_with("say hi"));
        }
        other => panic!("unexpected action {:?}", other),
    }
}

#[test]
fn call_results() {
    let write = ToolCall::Write { path: "f".to_string(), content: "new".to_string() };
    match call_result(&write, ToolOutcome::FileContent(String::new())) {
        Ok(ToolResult::PreviewWrite { diff, .. }) => assert_eq!(diff, "--- f\n+++ f\n@@\n+new\n"),
        other => panic!("unexpected result {:?}", other),
    }
    assert!(call_result(&write, ToolOutcome::Written).is_err());
    let glob = ToolCall::Glob { pattern: "*.md".to_string(), root: None };
    match call_result(&glob, ToolOutcome::FileNames(strings(&["a.md", "b.rs"]))) {
        Ok(ToolResult::Paths(paths)) => assert_eq!(paths, strings(&["a.md"])),
        other => panic!("unexpected result {:?}", other),
    }
}

#[test]
fn new_session_waits_for_the_plan() {
    let session = AgentSession::new("in", "ctx", false);
    assert_eq!(session.phase, Phase::Planning);
    assert_eq!(session.input, "in");
    assert_eq!(session.context, "ctx");
    assert_eq!(session.attempt, 0);
    assert!(session.last_error.is_none() && session.last_call.is_none());
    assert!(session.tool_result.is_none() && session.pending.is_none());
    assert!(!session.is_over());
}
