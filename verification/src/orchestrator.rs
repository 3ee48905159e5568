//! The orchestrator: from an instruction to an answer, one step at a time.
//!
//! The orchestrator does nothing by itself. It is told what happened (the
//! model answered, a job was done, someone decided on an approval) and says
//! what is to be done next. Between the two it keeps the state of the run:
//! the plan, the attempt it is at, and what the last failure was.
//!
//! A run goes from planning through the choice of a tool, with a wait for
//! approval where the policy asks for one, to the final answer. A failed
//! tool step is tried again a bounded number of times; a refusal by the
//! policy or by the user ends the run at once.

use crate::agent::{
    build_execute_prompt_with_context, build_failed_followup_prompt_with_context,
    build_followup_prompt_with_context, build_plan_prompt_with_context,
    build_tool_select_prompt_with_context, detect_direct_read_path, format_tool_result,
    spec_detect_direct_read_path, spec_execute_prompt_with_context,
    spec_failed_followup_prompt_with_context, spec_followup_prompt_with_context,
    spec_format_tool_result, spec_plan_prompt_with_context, spec_tool_select_prompt, AgentOutput,
    AgentOutputView, MAX_TOOL_RETRIES,
};
use crate::diff::{build_diff, spec_build_diff};
use crate::executor::{
    job_for, result_view, spec_complete, spec_job_for, ToolExecutor, ToolJob, ToolJobView,
    ToolOutcome, ToolOutcomeView,
};
use crate::llm::LlmResponse;
use crate::policy::{spec_check, with_override, PolicyView, ToolPolicy};
use crate::text::{
    chars_to_string, clone_string, extend_str, opt_view, spec_trim, str_chars, trim,
};
use crate::toolcall::{
    decode_tool_call, opt_call_view, opt_raw_view, spec_call_input, spec_call_json,
    spec_decode_tool_call, spec_tool_call_text, tool_call_text, RawToolCall, RawToolCallView,
    ToolCall, ToolCallView,
};
use crate::tools::{
    opt_result_view, spec_approval_for, spec_error_message, spec_tool_kind, spec_tool_name,
    tool_display_name, tool_kind, ApprovalOverride, Tool, ToolApprovalDecision,
    ToolApprovalRequest, ToolApprovalRequired, ToolApprovalView, ToolError, ToolErrorView,
    ToolInputView, ToolResult, ToolResultView,
};
use vstd::prelude::*;

verus! {

/// Where a run stands: what it is waiting for.
#[derive(Debug, Clone, Copy, PartialEq, Eq, Structural)]
pub enum Phase {
    /// Nothing was asked yet.
    Idle,
    /// The model is asked for a plan.
    Planning,
    /// The model is asked which tool to use.
    Selecting,
    /// The model's answer is being turned from JSON into values.
    Decoding,
    /// The job of the chosen tool is being done.
    Running,
    /// Someone is asked whether the chosen tool may run.
    ApprovalWait,
    /// The model is asked for the final answer.
    Responding,
    /// The run ended with an answer.
    Done,
    /// The run ended with an error.
    Failed,
}

/// What lasts from one instruction to the next: the model to ask, the
/// policy with its kept answer, and whether someone can be asked for
/// approval.
#[derive(Debug, Clone)]
pub struct AgentRunner {
    pub model_name: String,
    pub tool_policy: ToolPolicy,
    pub approval_handler: bool,
}

pub struct RunnerView {
    pub model_name: Seq<char>,
    pub policy: PolicyView,
    pub approval_handler: bool,
}

impl View for AgentRunner {
    type V = RunnerView;

    open spec fn view(&self) -> RunnerView {
        RunnerView {
            model_name: self.model_name@,
            policy: self.tool_policy@,
            approval_handler: self.approval_handler,
        }
    }
}

/// The state of one run, made anew for each instruction.
#[derive(Debug, Clone)]
pub struct AgentSession {
    pub phase: Phase,
    /// Whether the final answer is to be streamed.
    pub streaming: bool,
    pub input: String,
    pub context: String,
    pub plan: String,
    /// The text of the last failure of a tool step.
    pub last_error: Option<String>,
    /// The call that failed last.
    pub last_call: Option<ToolCall>,
    pub tool_result: Option<ToolResult>,
    /// The number of the attempt at the tool step, from 0.
    pub attempt: usize,
    /// The call that is running or waits for approval.
    pub pending: Option<ToolCall>,
}

pub struct SessionView {
    pub phase: Phase,
    pub streaming: bool,
    pub input: Seq<char>,
    pub context: Seq<char>,
    pub plan: Seq<char>,
    pub last_error: Option<Seq<char>>,
    pub last_call: Option<ToolCallView>,
    pub tool_result: Option<ToolResultView>,
    pub attempt: nat,
    pub pending: Option<ToolCallView>,
}

impl View for AgentSession {
    type V = SessionView;

    open spec fn view(&self) -> SessionView {
        SessionView {
            phase: self.phase,
            streaming: self.streaming,
            input: self.input@,
            context: self.context@,
            plan: self.plan@,
            last_error: opt_view(self.last_error),
            last_call: opt_call_view(self.last_call),
            tool_result: opt_result_view(self.tool_result),
            attempt: self.attempt as nat,
            pending: opt_call_view(self.pending),
        }
    }
}

/// What happened since the last step.
#[derive(Debug, Clone)]
pub enum AgentEvent {
    /// The model answered.
    ModelReply(String),
    /// The model could not be asked, or did not answer.
    ModelError(String),
    /// The JSON was read: the members of the object, or nothing where the
    /// text is no JSON object.
    Decoded(Option<RawToolCall>),
    /// The job was done, or could not be done.
    Outcome(ToolOutcome),
    /// Someone decided on the approval.
    Approval(ToolApprovalDecision),
    /// Nobody could be asked.
    ApprovalUnavailable,
}

pub enum EventView {
    ModelReply(Seq<char>),
    ModelError(Seq<char>),
    Decoded(Option<RawToolCallView>),
    Outcome(ToolOutcomeView),
    Approval(ToolApprovalDecision),
    ApprovalUnavailable,
}

impl View for AgentEvent {
    type V = EventView;

    open spec fn view(&self) -> EventView {
        match *self {
            AgentEvent::ModelReply(text) => EventView::ModelReply(text@),
            AgentEvent::ModelError(text) => EventView::ModelError(text@),
            AgentEvent::Decoded(raw) => EventView::Decoded(opt_raw_view(raw)),
            AgentEvent::Outcome(outcome) => EventView::Outcome(outcome@),
            AgentEvent::Approval(decision) => EventView::Approval(decision),
            AgentEvent::ApprovalUnavailable => EventView::ApprovalUnavailable,
        }
    }
}

/// Why a run ended without an answer.
#[derive(Debug, Clone)]
pub enum AgentError {
    /// The model failed.
    Model(String),
    /// The policy refused, or asked for an approval that could not be had.
    Tool(ToolError),
    /// The user refused.
    UserDenied(Tool),
    /// Something happened that the run was not waiting for.
    UnexpectedEvent,
}

pub enum AgentErrorView {
    Model(Seq<char>),
    Tool(ToolErrorView),
    UserDenied(Tool),
    UnexpectedEvent,
}

impl View for AgentError {
    type V = AgentErrorView;

    open spec fn view(&self) -> AgentErrorView {
        match *self {
            AgentError::Model(text) => AgentErrorView::Model(text@),
            AgentError::Tool(error) => AgentErrorView::Tool(error@),
            AgentError::UserDenied(tool) => AgentErrorView::UserDenied(tool),
            AgentError::UnexpectedEvent => AgentErrorView::UnexpectedEvent,
        }
    }
}

pub open spec fn spec_agent_error_message(error: AgentErrorView) -> Seq<char> {
    match error {
        AgentErrorView::Model(text) => text,
        AgentErrorView::Tool(error) => spec_error_message(error),
        AgentErrorView::UserDenied(tool) => "permission denied by user for tool: "@
            + spec_tool_name(tool),
        AgentErrorView::UnexpectedEvent => "unexpected event"@,
    }
}

impl AgentError {
    pub fn to_string(&self) -> (out: String)
        ensures
            out@ == spec_agent_error_message(self@),
    {
        match self {
            AgentError::Model(text) => clone_string(text),
            AgentError::Tool(error) => error.to_string(),
            AgentError::UserDenied(tool) => {
                let mut out = str_chars("permission denied by user for tool: ");
                extend_str(&mut out, tool_display_name(*tool));
                chars_to_string(&out)
            },
            AgentError::UnexpectedEvent => "unexpected event".to_owned(),
        }
    }
}

/// What is to be done next.
#[derive(Debug, Clone)]
pub enum AgentAction {
    /// Ask the model and come back with its answer.
    Generate { model: String, prompt: String },
    /// Ask the model for the final answer as a stream; the run is over.
    Stream { model: String, prompt: String },
    /// Read the JSON text and come back with the members of the object.
    Decode { json: String },
    /// Do the job and come back with what it brought.
    Run(ToolJob),
    /// Read what the file holds now, nothing where there is no file, and
    /// come back with it. Nothing is written.
    LoadForPreview { path: String },
    /// Ask whether the tool may run and come back with the decision.
    AskApproval(ToolApprovalRequest),
    /// The run is over; this is the answer.
    Finish(AgentOutput),
    /// The run is over; this is why there is no answer.
    Fail(AgentError),
}

pub enum ActionView {
    Generate { model: Seq<char>, prompt: Seq<char> },
    Stream { model: Seq<char>, prompt: Seq<char> },
    Decode { json: Seq<char> },
    Run(ToolJobView),
    LoadForPreview { path: Seq<char> },
    AskApproval(ToolApprovalView),
    Finish(AgentOutputView),
    Fail(AgentErrorView),
}

impl View for AgentAction {
    type V = ActionView;

    open spec fn view(&self) -> ActionView {
        match *self {
            AgentAction::Generate { model, prompt } => ActionView::Generate {
                model: model@,
                prompt: prompt@,
            },
            AgentAction::Stream { model, prompt } => ActionView::Stream {
                model: model@,
                prompt: prompt@,
            },
            AgentAction::Decode { json } => ActionView::Decode { json: json@ },
            AgentAction::Run(job) => ActionView::Run(job@),
            AgentAction::LoadForPreview { path } => ActionView::LoadForPreview { path: path@ },
            AgentAction::AskApproval(request) => ActionView::AskApproval(request@),
            AgentAction::Finish(output) => ActionView::Finish(output@),
            AgentAction::Fail(error) => ActionView::Fail(error@),
        }
    }
}

/// The outcome of a step: the runner and the session afterwards, and what
/// is to be done.
pub struct StepView {
    pub runner: RunnerView,
    pub session: SessionView,
    pub action: ActionView,
}

/// A fresh run for an instruction, waiting for the plan.
pub open spec fn spec_new_session(input: Seq<char>, context: Seq<char>, streaming: bool) -> SessionView {
    SessionView {
        phase: Phase::Planning,
        streaming,
        input,
        context,
        plan: Seq::empty(),
        last_error: None,
        last_call: None,
        tool_result: None,
        attempt: 0,
        pending: None,
    }
}

/// The first step of a run: the model is asked for a plan.
pub open spec fn spec_start(runner: RunnerView, input: Seq<char>, context: Seq<char>, streaming: bool) -> (
    SessionView,
    ActionView,
) {
    (
        spec_new_session(input, context, streaming),
        ActionView::Generate {
            model: runner.model_name,
            prompt: spec_plan_prompt_with_context(input, context),
        },
    )
}

/// The run ends with an error.
pub open spec fn spec_fail(runner: RunnerView, session: SessionView, error: AgentErrorView) -> StepView {
    StepView {
        runner,
        session: SessionView { phase: Phase::Failed, pending: None, ..session },
        action: ActionView::Fail(error),
    }
}

/// The model is asked for the final answer with the given prompt.
pub open spec fn spec_respond(runner: RunnerView, session: SessionView, prompt: Seq<char>) -> StepView {
    if session.streaming {
        StepView {
            runner,
            session: SessionView { phase: Phase::Done, pending: None, ..session },
            action: ActionView::Stream { model: runner.model_name, prompt },
        }
    } else {
        StepView {
            runner,
            session: SessionView { phase: Phase::Responding, pending: None, ..session },
            action: ActionView::Generate { model: runner.model_name, prompt },
        }
    }
}

/// What is asked for once the policy has let a call through. A write is
/// only previewed: the file is read, never written.
pub open spec fn spec_call_action(call: ToolCallView) -> ActionView {
    match call {
        ToolCallView::Write { path, .. } => ActionView::LoadForPreview { path },
        _ => ActionView::Run(spec_job_for(spec_call_input(call))),
    }
}

/// A call is put before the policy. Where the policy lets it through, its
/// job is asked for. Where the policy asks for approval and someone can be
/// asked, the request goes out; where nobody can be asked, the run ends
/// with the policy's own error. Any refusal ends the run.
pub open spec fn spec_try_call(runner: RunnerView, session: SessionView, call: ToolCallView) -> StepView {
    let checked = spec_check(runner.policy, spec_call_input(call));
    let runner = RunnerView { policy: with_override(runner.policy, checked.1), ..runner };
    match checked.0 {
        Ok(_) => StepView {
            runner,
            session: SessionView { phase: Phase::Running, pending: Some(call), ..session },
            action: spec_call_action(call),
        },
        Err(ToolErrorView::ApprovalRequired(required)) => if runner.approval_handler {
            StepView {
                runner,
                session: SessionView { phase: Phase::ApprovalWait, pending: Some(call), ..session },
                action: ActionView::AskApproval(required),
            }
        } else {
            spec_fail(
                runner,
                session,
                AgentErrorView::Tool(ToolErrorView::ApprovalRequired(required)),
            )
        },
        Err(error) => spec_fail(runner, session, AgentErrorView::Tool(error)),
    }
}

pub open spec fn spec_last_call_json(call: Option<ToolCallView>) -> Option<Seq<char>> {
    match call {
        Some(call) => Some(spec_call_json(call)),
        None => None,
    }
}

/// An attempt at the tool step begins. On the first attempt, an
/// instruction that asks for a file to be read and names a path is
/// answered with that read at once; on every other the model is asked
/// which tool to use, and told of the last failure.
pub open spec fn spec_begin_attempt(runner: RunnerView, session: SessionView) -> StepView {
    let direct = spec_detect_direct_read_path(session.input);
    if session.attempt == 0 && direct is Some {
        spec_try_call(runner, session, ToolCallView::Read { path: direct->0 })
    } else {
        StepView {
            runner,
            session: SessionView { phase: Phase::Selecting, pending: None, ..session },
            action: ActionView::Generate {
                model: runner.model_name,
                prompt: spec_tool_select_prompt(
                    session.input,
                    session.context,
                    session.plan,
                    session.last_error,
                    spec_last_call_json(session.last_call),
                ),
            },
        }
    }
}

/// No tool is needed: the model is asked to carry out the plan.
pub open spec fn spec_no_tool(runner: RunnerView, session: SessionView) -> StepView {
    spec_respond(
        runner,
        session,
        spec_execute_prompt_with_context(session.input, session.context, session.plan),
    )
}

/// The result of a call, given what doing its job brought back. For a
/// write, the job was to read the file, and the result is the preview.
pub open spec fn spec_call_result(call: ToolCallView, outcome: ToolOutcomeView) -> Result<
    ToolResultView,
    ToolErrorView,
> {
    match call {
        ToolCallView::Write { path, content } => match outcome {
            ToolOutcomeView::FileContent(before) => Ok(
                ToolResultView::PreviewWrite {
                    path,
                    diff: spec_build_diff(path, before, content),
                    content,
                },
            ),
            ToolOutcomeView::IoError(message) => Err(ToolErrorView::Failed(message)),
            _ => Err(ToolErrorView::Failed("unexpected outcome"@)),
        },
        _ => spec_complete(spec_job_for(spec_call_input(call)), outcome),
    }
}

/// The tool step succeeded: the result is kept and the model is asked for
/// the final answer in its light.
pub open spec fn spec_tool_succeeded(runner: RunnerView, session: SessionView, result: ToolResultView) -> StepView {
    spec_respond(
        runner,
        SessionView { tool_result: Some(result), ..session },
        spec_followup_prompt_with_context(
            session.input,
            session.context,
            session.plan,
            spec_format_tool_result(result),
        ),
    )
}

/// The tool step failed: the failure and the failed call are kept for the
/// next attempt. Once the attempts are used up, the model is asked for a
/// final answer that owns up to the failure.
pub open spec fn spec_tool_failed(
    runner: RunnerView,
    session: SessionView,
    call: ToolCallView,
    error: ToolErrorView,
) -> StepView {
    let message = spec_error_message(error);
    let session = SessionView {
        last_error: Some(message),
        last_call: Some(call),
        pending: None,
        ..session
    };
    if session.attempt >= MAX_TOOL_RETRIES {
        spec_respond(
            runner,
            session,
            spec_failed_followup_prompt_with_context(
                session.input,
                session.context,
                session.plan,
                Some(message),
            ),
        )
    } else {
        spec_begin_attempt(runner, SessionView { attempt: session.attempt + 1, ..session })
    }
}

/// The answer to a request for approval is acted on. A grant is kept by
/// the policy and the same attempt begins again; a refusal ends the run,
/// and only "deny all" is kept.
pub open spec fn spec_approval_decided(
    runner: RunnerView,
    session: SessionView,
    call: ToolCallView,
    decision: ToolApprovalDecision,
) -> StepView {
    let tool = spec_tool_kind(spec_call_input(call));
    let session = SessionView { pending: None, ..session };
    match decision {
        ToolApprovalDecision::AllowOnce => spec_begin_attempt(
            RunnerView {
                policy: with_override(runner.policy, ApprovalOverride::AllowOnce(tool)),
                ..runner
            },
            session,
        ),
        ToolApprovalDecision::AllowAll => spec_begin_attempt(
            RunnerView {
                policy: with_override(runner.policy, ApprovalOverride::AllowAll),
                ..runner
            },
            session,
        ),
        ToolApprovalDecision::DenyOnce => spec_fail(
            runner,
            session,
            AgentErrorView::UserDenied(tool),
        ),
        ToolApprovalDecision::DenyAll => spec_fail(
            RunnerView {
                policy: with_override(runner.policy, ApprovalOverride::DenyAll),
                ..runner
            },
            session,
            AgentErrorView::UserDenied(tool),
        ),
    }
}

/// One step of a run.
pub open spec fn spec_step(runner: RunnerView, session: SessionView, event: EventView) -> StepView {
    match (session.phase, event) {
        (Phase::Planning, EventView::ModelReply(plan)) => spec_begin_attempt(
            runner,
            SessionView { plan, attempt: 0, ..session },
        ),
        (Phase::Selecting, EventView::ModelReply(answer)) => match spec_tool_call_text(answer) {
            Some(json) => StepView {
                runner,
                session: SessionView { phase: Phase::Decoding, ..session },
                action: ActionView::Decode { json },
            },
            None => spec_no_tool(runner, session),
        },
        (Phase::Responding, EventView::ModelReply(answer)) => StepView {
            runner,
            session: SessionView { phase: Phase::Done, ..session },
            action: ActionView::Finish(
                AgentOutputView { response: spec_trim(answer), tool_result: session.tool_result },
            ),
        },
        (Phase::Planning, EventView::ModelError(message)) => spec_fail(
            runner,
            session,
            AgentErrorView::Model(message),
        ),
        (Phase::Selecting, EventView::ModelError(message)) => spec_fail(
            runner,
            session,
            AgentErrorView::Model(message),
        ),
        (Phase::Responding, EventView::ModelError(message)) => spec_fail(
            runner,
            session,
            AgentErrorView::Model(message),
        ),
        (Phase::Decoding, EventView::Decoded(raw)) => {
            let call = match raw {
                Some(raw) => spec_decode_tool_call(raw),
                None => None,
            };
            match call {
                Some(call) => spec_try_call(runner, session, call),
                None => spec_no_tool(runner, session),
            }
        },
        (Phase::Running, EventView::Outcome(outcome)) => match session.pending {
            Some(call) => match spec_call_result(call, outcome) {
                Ok(result) => spec_tool_succeeded(runner, session, result),
                Err(error) => spec_tool_failed(runner, session, call, error),
            },
            None => spec_fail(runner, session, AgentErrorView::UnexpectedEvent),
        },
        (Phase::ApprovalWait, EventView::Approval(decision)) => match session.pending {
            Some(call) => spec_approval_decided(runner, session, call, decision),
            None => spec_fail(runner, session, AgentErrorView::UnexpectedEvent),
        },
        (Phase::ApprovalWait, EventView::ApprovalUnavailable) => match session.pending {
            Some(call) => spec_fail(
                runner,
                session,
                AgentErrorView::Tool(
                    ToolErrorView::ApprovalRequired(spec_approval_for(spec_call_input(call))),
                ),
            ),
            None => spec_fail(runner, session, AgentErrorView::UnexpectedEvent),
        },
        _ => spec_fail(runner, session, AgentErrorView::UnexpectedEvent),
    }
}

/// What a cancelled run owes to whoever was asked for approval: a refusal
/// for this once, where a request is out, and nothing where none is.
pub open spec fn spec_cancel_answer(session: SessionView) -> Option<ToolApprovalDecision> {
    if session.phase == Phase::ApprovalWait {
        Some(ToolApprovalDecision::DenyOnce)
    } else {
        None
    }
}

/// The outcome of a step as contracts see it.
pub open spec fn step_view(runner: AgentRunner, out: (AgentSession, AgentAction)) -> StepView {
    StepView { runner: runner@, session: out.0@, action: out.1@ }
}

fn opt_as_str(s: &Option<String>) -> (out: Option<&str>)
    ensures
        crate::agent::opt_str_view(out) == opt_view(*s),
{
    match s {
        Some(s) => Some(s.as_str()),
        None => None,
    }
}

fn fail(runner: &AgentRunner, session: AgentSession, error: AgentError) -> (out: (
    AgentSession,
    AgentAction,
))
    ensures
        step_view(*runner, out) == spec_fail(runner@, session@, error@),
{
    (AgentSession { phase: Phase::Failed, pending: None, ..session }, AgentAction::Fail(error))
}

fn respond(runner: &AgentRunner, session: AgentSession, prompt: String) -> (out: (
    AgentSession,
    AgentAction,
))
    ensures
        step_view(*runner, out) == spec_respond(runner@, session@, prompt@),
{
    let model = clone_string(&runner.model_name);
    if session.streaming {
        (
            AgentSession { phase: Phase::Done, pending: None, ..session },
            AgentAction::Stream { model, prompt },
        )
    } else {
        (
            AgentSession { phase: Phase::Responding, pending: None, ..session },
            AgentAction::Generate { model, prompt },
        )
    }
}

fn call_action(call: &ToolCall) -> (action: AgentAction)
    ensures
        action@ == spec_call_action(call@),
{
    match call {
        ToolCall::Write { path, .. } => AgentAction::LoadForPreview { path: clone_string(path) },
        _ => AgentAction::Run(job_for(call.to_input())),
    }
}

fn try_call(runner: &mut AgentRunner, session: AgentSession, call: ToolCall) -> (out: (
    AgentSession,
    AgentAction,
))
    ensures
        step_view(*final(runner), out) == spec_try_call(old(runner)@, session@, call@),
{
    let input = call.to_input();
    match runner.tool_policy.check(&input) {
        Ok(_) => {
            let action = call_action(&call);
            (AgentSession { phase: Phase::Running, pending: Some(call), ..session }, action)
        },
        Err(ToolError::ApprovalRequired(required)) => {
            if runner.approval_handler {
                let request = required.request();
                (
                    AgentSession { phase: Phase::ApprovalWait, pending: Some(call), ..session },
                    AgentAction::AskApproval(request),
                )
            } else {
                fail(runner, session, AgentError::Tool(ToolError::ApprovalRequired(required)))
            }
        },
        Err(error) => fail(runner, session, AgentError::Tool(error)),
    }
}

fn last_call_json(call: &Option<ToolCall>) -> (json: Option<String>)
    ensures
        opt_view(json) == spec_last_call_json(opt_call_view(*call)),
{
    match call {
        Some(call) => Some(call.to_json()),
        None => None,
    }
}

fn begin_attempt(runner: &mut AgentRunner, session: AgentSession) -> (out: (
    AgentSession,
    AgentAction,
))
    ensures
        step_view(*final(runner), out) == spec_begin_attempt(old(runner)@, session@),
{
    if session.attempt == 0 {
        if let Some(path) = detect_direct_read_path(session.input.as_str()) {
            return try_call(runner, session, ToolCall::Read { path });
        }
    }
    let json = last_call_json(&session.last_call);
    let prompt = build_tool_select_prompt_with_context(
        session.input.as_str(),
        session.context.as_str(),
        session.plan.as_str(),
        opt_as_str(&session.last_error),
        opt_as_str(&json),
    );
    let model = clone_string(&runner.model_name);
    (
        AgentSession { phase: Phase::Selecting, pending: None, ..session },
        AgentAction::Generate { model, prompt },
    )
}

fn no_tool(runner: &AgentRunner, session: AgentSession) -> (out: (AgentSession, AgentAction))
    ensures
        step_view(*runner, out) == spec_no_tool(runner@, session@),
{
    let prompt = build_execute_prompt_with_context(
        session.input.as_str(),
        session.context.as_str(),
        session.plan.as_str(),
    );
    respond(runner, session, prompt)
}

/// The result of a call, given what doing its job brought back.
pub fn call_result(call: &ToolCall, outcome: ToolOutcome) -> (res: Result<ToolResult, ToolError>)
    ensures
        result_view(res) == spec_call_result(call@, outcome@),
{
    match call {
        ToolCall::Write { path, content } => match outcome {
            ToolOutcome::FileContent(before) => {
                let diff = build_diff(path.as_str(), before.as_str(), content.as_str());
                Ok(
                    ToolResult::PreviewWrite {
                        path: clone_string(path),
                        diff,
                        content: clone_string(content),
                    },
                )
            },
            ToolOutcome::IoError(message) => Err(ToolError::Failed(message)),
            _ => Err(ToolError::Failed("unexpected outcome".to_owned())),
        },
        _ => {
            let job = job_for(call.to_input());
            ToolExecutor::complete(&job, outcome)
        },
    }
}

fn tool_succeeded(runner: &AgentRunner, session: AgentSession, result: ToolResult) -> (out: (
    AgentSession,
    AgentAction,
))
    ensures
        step_view(*runner, out) == spec_tool_succeeded(runner@, session@, result@),
{
    let shown = format_tool_result(&result);
    let prompt = build_followup_prompt_with_context(
        session.input.as_str(),
        session.context.as_str(),
        session.plan.as_str(),
        shown.as_str(),
    );
    respond(runner, AgentSession { tool_result: Some(result), ..session }, prompt)
}

fn tool_failed(
    runner: &mut AgentRunner,
    session: AgentSession,
    call: ToolCall,
    error: ToolError,
) -> (out: (AgentSession, AgentAction))
    ensures
        step_view(*final(runner), out) == spec_tool_failed(
            old(runner)@,
            session@,
            call@,
            error@,
        ),
{
    let message = error.to_string();
    let attempt = session.attempt;
    if attempt >= MAX_TOOL_RETRIES {
        let prompt = build_failed_followup_prompt_with_context(
            session.input.as_str(),
            session.context.as_str(),
            session.plan.as_str(),
            Some(message.as_str()),
        );
        let session = AgentSession {
            last_error: Some(message),
            last_call: Some(call),
            pending: None,
            ..session
        };
        respond(runner, session, prompt)
    } else {
        let session = AgentSession {
            last_error: Some(message),
            last_call: Some(call),
            pending: None,
            attempt: attempt + 1,
            ..session
        };
        begin_attempt(runner, session)
    }
}

fn approval_decided(
    runner: &mut AgentRunner,
    session: AgentSession,
    call: ToolCall,
    decision: ToolApprovalDecision,
) -> (out: (AgentSession, AgentAction))
    ensures
        step_view(*final(runner), out) == spec_approval_decided(
            old(runner)@,
            session@,
            call@,
            decision,
        ),
{
    let tool = tool_kind(&call.to_input());
    let session = AgentSession { pending: None, ..session };
    match decision {
        ToolApprovalDecision::AllowOnce => {
            runner.tool_policy.set_approval_override(ApprovalOverride::AllowOnce(tool));
            begin_attempt(runner, session)
        },
        ToolApprovalDecision::AllowAll => {
            runner.tool_policy.set_approval_override(ApprovalOverride::AllowAll);
            begin_attempt(runner, session)
        },
        ToolApprovalDecision::DenyOnce => fail(runner, session, AgentError::UserDenied(tool)),
        ToolApprovalDecision::DenyAll => {
            runner.tool_policy.set_approval_override(ApprovalOverride::DenyAll);
            fail(runner, session, AgentError::UserDenied(tool))
        },
    }
}

impl AgentSession {
    /// A fresh run for an instruction, waiting for the plan.
    pub fn new(input: &str, context: &str, streaming: bool) -> (session: AgentSession)
        ensures
            session@ == spec_new_session(input@, context@, streaming),
    {
        AgentSession {
            phase: Phase::Planning,
            streaming,
            input: input.to_owned(),
            context: context.to_owned(),
            plan: String::new(),
            last_error: None,
            last_call: None,
            tool_result: None,
            attempt: 0,
            pending: None,
        }
    }

    /// Gives the run up. Where a request for approval is out, it is owed a
    /// refusal for this once, which is handed back; the policy is not
    /// touched.
    pub fn cancel(&mut self) -> (answer: Option<ToolApprovalDecision>)
        ensures
            answer == spec_cancel_answer(old(self)@),
            final(self)@ == (SessionView { phase: Phase::Failed, pending: None, ..old(self)@ }),
    {
        let answer = match self.phase {
            Phase::ApprovalWait => Some(ToolApprovalDecision::DenyOnce),
            _ => None,
        };
        self.phase = Phase::Failed;
        self.pending = None;
        answer
    }

    /// Whether the run is over.
    pub fn is_over(&self) -> (over: bool)
        ensures
            over == (self@.phase == Phase::Done || self@.phase == Phase::Failed),
    {
        match self.phase {
            Phase::Done => true,
            Phase::Failed => true,
            _ => false,
        }
    }
}

impl AgentRunner {
    /// A runner for the given model under the given policy. Nobody can be
    /// asked for approval yet.
    pub fn new(model_name: String, tool_policy: ToolPolicy) -> (runner: AgentRunner)
        ensures
            runner@ == (RunnerView {
                model_name: model_name@,
                policy: tool_policy@,
                approval_handler: false,
            }),
    {
        AgentRunner { model_name, tool_policy, approval_handler: false }
    }

    /// Records that someone can be asked for approval from now on.
    pub fn set_approval_handler(&mut self)
        ensures
            final(self)@ == (RunnerView { approval_handler: true, ..old(self)@ }),
    {
        self.approval_handler = true;
    }

    /// Begins a run for an instruction without earlier conversation.
    pub fn handle_prompt(&self, input: &str) -> (out: (AgentSession, AgentAction))
        ensures
            (out.0@, out.1@) == spec_start(self@, input@, Seq::empty(), false),
    {
        proof {
            reveal_strlit("");
            assert(""@ =~= Seq::<char>::empty());
        }
        self.handle_prompt_with_context(input, "")
    }

    /// Begins a run for an instruction in the light of the earlier
    /// conversation.
    pub fn handle_prompt_with_context(&self, input: &str, context: &str) -> (out: (
        AgentSession,
        AgentAction,
    ))
        ensures
            (out.0@, out.1@) == spec_start(self@, input@, context@, false),
    {
        let prompt = build_plan_prompt_with_context(input, context);
        (
            AgentSession::new(input, context, false),
            AgentAction::Generate { model: clone_string(&self.model_name), prompt },
        )
    }

    /// Begins a run whose final answer is to be streamed.
    pub fn handle_prompt_stream_with_context(&self, input: &str, context: &str) -> (out: (
        AgentSession,
        AgentAction,
    ))
        ensures
            (out.0@, out.1@) == spec_start(self@, input@, context@, true),
    {
        let prompt = build_plan_prompt_with_context(input, context);
        (
            AgentSession::new(input, context, true),
            AgentAction::Generate { model: clone_string(&self.model_name), prompt },
        )
    }

    /// One step of a run: given what happened, the session afterwards and
    /// what is to be done next. Of the runner only the policy's kept
    /// answer can change.
    pub fn step(&mut self, session: AgentSession, event: AgentEvent) -> (out: (
        AgentSession,
        AgentAction,
    ))
        ensures
            step_view(*final(self), out) == spec_step(old(self)@, session@, event@),
    {
        match session.phase {
            Phase::Planning => match event {
                AgentEvent::ModelReply(plan) => begin_attempt(
                    self,
                    AgentSession { plan, attempt: 0, ..session },
                ),
                AgentEvent::ModelError(message) => fail(self, session, AgentError::Model(message)),
                _ => fail(self, session, AgentError::UnexpectedEvent),
            },
            Phase::Selecting => match event {
                AgentEvent::ModelReply(answer) => match tool_call_text(answer.as_str()) {
                    Some(json) => (
                        AgentSession { phase: Phase::Decoding, ..session },
                        AgentAction::Decode { json },
                    ),
                    None => no_tool(self, session),
                },
                AgentEvent::ModelError(message) => fail(self, session, AgentError::Model(message)),
                _ => fail(self, session, AgentError::UnexpectedEvent),
            },
            Phase::Responding => match event {
                AgentEvent::ModelReply(answer) => {
                    let content = chars_to_string(&trim(&str_chars(answer.as_str())));
                    let tool_result = match &session.tool_result {
                        Some(result) => Some(result.duplicate()),
                        None => None,
                    };
                    (
                        AgentSession { phase: Phase::Done, ..session },
                        AgentAction::Finish(
                            AgentOutput { response: LlmResponse { content }, tool_result },
                        ),
                    )
                },
                AgentEvent::ModelError(message) => fail(self, session, AgentError::Model(message)),
                _ => fail(self, session, AgentError::UnexpectedEvent),
            },
            Phase::Decoding => match event {
                AgentEvent::Decoded(raw) => {
                    let call = match raw {
                        Some(raw) => decode_tool_call(&raw),
                        None => None,
                    };
                    match call {
                        Some(call) => try_call(self, session, call),
                        None => no_tool(self, session),
                    }
                },
                _ => fail(self, session, AgentError::UnexpectedEvent),
            },
            Phase::Running => match event {
                AgentEvent::Outcome(outcome) => {
                    let call = match &session.pending {
                        Some(call) => call.duplicate(),
                        None => {
                            return fail(self, session, AgentError::UnexpectedEvent);
                        },
                    };
                    match call_result(&call, outcome) {
                        Ok(result) => tool_succeeded(self, session, result),
                        Err(error) => tool_failed(self, session, call, error),
                    }
                },
                _ => fail(self, session, AgentError::UnexpectedEvent),
            },
            Phase::ApprovalWait => {
                let call = match &session.pending {
                    Some(call) => call.duplicate(),
                    None => {
                        return fail(self, session, AgentError::UnexpectedEvent);
                    },
                };
                match event {
                    AgentEvent::Approval(decision) => approval_decided(
                        self,
                        session,
                        call,
                        decision,
                    ),
                    AgentEvent::ApprovalUnavailable => {
                        let required = ToolApprovalRequired::new(&call.to_input());
                        fail(
                            self,
                            session,
                            AgentError::Tool(ToolError::ApprovalRequired(required)),
                        )
                    },
                    _ => fail(self, session, AgentError::UnexpectedEvent),
                }
            },
            _ => fail(self, session, AgentError::UnexpectedEvent),
        }
    }
}

/// Whether the run is still on its way to the tool step or in it.
pub open spec fn before_answer(phase: Phase) -> bool {
    phase == Phase::Planning || phase == Phase::Selecting || phase == Phase::Decoding || phase
        == Phase::Running || phase == Phase::ApprovalWait
}

/// What holds of every session that a run passes through: the attempts
/// stay within their bound, no tool result is there before the tool step
/// is over, and a call is at hand while its job runs or waits for approval.
pub open spec fn session_wf(session: SessionView) -> bool {
    &&& session.attempt <= MAX_TOOL_RETRIES
    &&& before_answer(session.phase) ==> session.tool_result is None
    &&& session.phase == Phase::Running || session.phase == Phase::ApprovalWait
        ==> session.pending is Some
}

/// Whether a job leaves files and processes as they are.
pub open spec fn job_only_reads(job: ToolJobView) -> bool {
    job is ReadFile || job is SearchFiles || job is ListFiles
}

/// A fresh session is well formed.
pub proof fn lemma_start_is_well_formed(
    runner: RunnerView,
    input: Seq<char>,
    context: Seq<char>,
    streaming: bool,
)
    ensures
        session_wf(spec_start(runner, input, context, streaming).0),
{
}

/// Every step of a run keeps the session well formed. In particular a
/// failed tool step is tried again at most `MAX_TOOL_RETRIES` times.
pub proof fn lemma_step_keeps_well_formed(runner: RunnerView, session: SessionView, event: EventView)
    requires
        session_wf(session),
    ensures
        session_wf(spec_step(runner, session, event).session),
{
}

/// No step asks for a file to be written or for a command to be run: the
/// jobs that a run asks for only read.
pub proof fn lemma_steps_only_read(runner: RunnerView, session: SessionView, event: EventView)
    ensures
        spec_step(runner, session, event).action matches ActionView::Run(job) ==> job_only_reads(
            job,
        ),
{
}

/// A call that the policy does not let through has no job done: the run
/// waits for approval or ends, and it ends with the policy's own error
/// where the policy refuses for good.
pub proof fn lemma_refused_call_runs_nothing(runner: RunnerView, session: SessionView, call: ToolCallView)
    requires
        spec_check(runner.policy, spec_call_input(call)).0 is Err,
    ensures
        ({
            let step = spec_try_call(runner, session, call);
            let error = spec_check(runner.policy, spec_call_input(call)).0->Err_0;
            &&& !(step.action is Run)
            &&& !(step.action is LoadForPreview)
            &&& step.action is AskApproval || step.action is Fail
            &&& step.action is AskApproval ==> error is ApprovalRequired && runner.approval_handler
            &&& error is Denied ==> step.action == ActionView::Fail(AgentErrorView::Tool(error))
                && step.session.phase == Phase::Failed
        }),
{
}

/// A job is asked for only once the policy has let the call through.
pub proof fn lemma_job_needs_leave(runner: RunnerView, session: SessionView, call: ToolCallView)
    ensures
        ({
            let step = spec_try_call(runner, session, call);
            step.action is Run || step.action is LoadForPreview <==> spec_check(
                runner.policy,
                spec_call_input(call),
            ).0 is Ok
        }),
{
}

/// A refusal for this once, which is also what a cancelled run answers to
/// a request that is out, ends the run and leaves the runner as it was:
/// no answer is kept by the policy.
pub proof fn lemma_refusal_once_keeps_policy(runner: RunnerView, session: SessionView)
    requires
        session.phase == Phase::ApprovalWait,
        session.pending is Some,
    ensures
        ({
            let step = spec_step(
                runner,
                session,
                EventView::Approval(ToolApprovalDecision::DenyOnce),
            );
            &&& step.runner == runner
            &&& step.session.phase == Phase::Failed
            &&& step.action == ActionView::Fail(
                AgentErrorView::UserDenied(spec_tool_kind(spec_call_input(session.pending->0))),
            )
        }),
{
}

/// A refusal for good ends the run like a refusal for this once, and the
/// policy keeps it.
pub proof fn lemma_refusal_for_good_is_kept(runner: RunnerView, session: SessionView)
    requires
        session.phase == Phase::ApprovalWait,
        session.pending is Some,
    ensures
        ({
            let step = spec_step(
                runner,
                session,
                EventView::Approval(ToolApprovalDecision::DenyAll),
            );
            &&& step.runner.policy == with_override(runner.policy, ApprovalOverride::DenyAll)
            &&& step.session.phase == Phase::Failed
            &&& step.action == ActionView::Fail(
                AgentErrorView::UserDenied(spec_tool_kind(spec_call_input(session.pending->0))),
            )
        }),
{
}

/// A grant of approval does not count as an attempt: the run goes on at
/// the attempt it was at.
pub proof fn lemma_grant_keeps_attempt(
    runner: RunnerView,
    session: SessionView,
    decision: ToolApprovalDecision,
)
    requires
        session.phase == Phase::ApprovalWait,
        session.pending is Some,
        decision == ToolApprovalDecision::AllowOnce || decision == ToolApprovalDecision::AllowAll,
    ensures
        spec_step(runner, session, EventView::Approval(decision)).session.attempt
            == session.attempt,
        !(spec_step(runner, session, EventView::Approval(decision)).action matches ActionView::Fail(
            AgentErrorView::UserDenied(_),
        )),
{
}

/// Where nobody can be asked for approval, the run ends with the policy's
/// own request for approval as its error.
pub proof fn lemma_unanswered_approval_fails(runner: RunnerView, session: SessionView)
    requires
        session.phase == Phase::ApprovalWait,
        session.pending is Some,
    ensures
        spec_step(runner, session, EventView::ApprovalUnavailable).action == ActionView::Fail(
            AgentErrorView::Tool(
                ToolErrorView::ApprovalRequired(
                    spec_approval_for(spec_call_input(session.pending->0)),
                ),
            ),
        ),
        spec_step(runner, session, EventView::ApprovalUnavailable).runner == runner,
{
}

/// The read that an instruction asks for by its words is done at once on
/// the first attempt only: every later attempt asks the model.
pub proof fn lemma_later_attempts_ask_the_model(runner: RunnerView, session: SessionView)
    requires
        session.attempt > 0,
    ensures
        spec_begin_attempt(runner, session).action is Generate,
        spec_begin_attempt(runner, session).session.phase == Phase::Selecting,
        spec_begin_attempt(runner, session).runner == runner,
{
}

/// A run for an instruction that asks, by its words, for a file to be
/// read, where the policy lets the read through, the file can be read and
/// the model answers each time. The model is asked twice, for the plan and
/// for the final answer, and never which tool to use: the plan is followed
/// by the read itself, and the answer carries what the file holds.
pub proof fn lemma_direct_read_run(
    runner: RunnerView,
    input: Seq<char>,
    context: Seq<char>,
    path: Seq<char>,
    plan: Seq<char>,
    text: Seq<char>,
    answer: Seq<char>,
)
    requires
        spec_detect_direct_read_path(input) == Some(path),
        spec_check(runner.policy, ToolInputView::Read { path }).0 is Ok,
    ensures
        ({
            let start = spec_start(runner, input, context, false);
            let planned = spec_step(runner, start.0, EventView::ModelReply(plan));
            let read = spec_step(
                planned.runner,
                planned.session,
                EventView::Outcome(ToolOutcomeView::FileContent(text)),
            );
            let done = spec_step(read.runner, read.session, EventView::ModelReply(answer));
            &&& start.1 == (ActionView::Generate {
                model: runner.model_name,
                prompt: spec_plan_prompt_with_context(input, context),
            })
            &&& planned.action == ActionView::Run(ToolJobView::ReadFile { path })
            &&& read.action == (ActionView::Generate {
                model: runner.model_name,
                prompt: spec_followup_prompt_with_context(input, context, plan, text),
            })
            &&& done.action == ActionView::Finish(
                AgentOutputView {
                    response: spec_trim(answer),
                    tool_result: Some(ToolResultView::Text(text)),
                },
            )
            &&& done.session.phase == Phase::Done
        }),
{
}

/// Once the attempts are used up, a failed tool step leads to the final
/// answer: the model is told of the failure, and no tool result is kept.
pub proof fn lemma_last_failure_is_answered(
    runner: RunnerView,
    session: SessionView,
    outcome: ToolOutcomeView,
)
    requires
        session_wf(session),
        session.phase == Phase::Running,
        session.attempt >= MAX_TOOL_RETRIES,
        spec_call_result(session.pending->0, outcome) is Err,
    ensures
        ({
            let step = spec_step(runner, session, EventView::Outcome(outcome));
            let message = spec_error_message(spec_call_result(session.pending->0, outcome)->Err_0);
            let prompt = spec_failed_followup_prompt_with_context(
                session.input,
                session.context,
                session.plan,
                Some(message),
            );
            &&& step.session.tool_result is None
            &&& step.runner == runner
            &&& !session.streaming ==> step.action == (ActionView::Generate {
                model: runner.model_name,
                prompt,
            }) && step.session.phase == Phase::Responding
            &&& session.streaming ==> step.action == (ActionView::Stream {
                model: runner.model_name,
                prompt,
            })
        }),
{
}

/// The final answer is the model's last reply without the white space
/// around it, together with whatever the tool step brought.
pub proof fn lemma_answer_carries_tool_result(runner: RunnerView, session: SessionView, answer: Seq<char>)
    requires
        session.phase == Phase::Responding,
    ensures
        spec_step(runner, session, EventView::ModelReply(answer)).action == ActionView::Finish(
            AgentOutputView { response: spec_trim(answer), tool_result: session.tool_result },
        ),
        spec_step(runner, session, EventView::ModelReply(answer)).session.phase == Phase::Done,
{
}

} // verus!
