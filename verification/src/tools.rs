//! The tools an agent may ask for, what they are asked to do, and what
//! comes back.

use crate::text::{
    clone_opt_string, clone_string, clone_strings, extend_str, opt_view, str_chars, string_views,
};
use vstd::prelude::*;

verus! {

/// The capability that a request asks for.
#[derive(Debug, Clone, Copy, PartialEq, Eq, Structural)]
pub enum Tool {
    Read,
    Write,
    Shell,
    Grep,
    Glob,
}

/// One request to a tool, with its arguments. Paths are plain strings.
#[derive(Debug, Clone)]
pub enum ToolInput {
    Read { path: String },
    Write { path: String, content: String },
    Shell { command: String, args: Vec<String> },
    Grep { pattern: String, paths: Vec<String> },
    Glob { pattern: String, root: Option<String> },
}

pub enum ToolInputView {
    Read { path: Seq<char> },
    Write { path: Seq<char>, content: Seq<char> },
    Shell { command: Seq<char>, args: Seq<Seq<char>> },
    Grep { pattern: Seq<char>, paths: Seq<Seq<char>> },
    Glob { pattern: Seq<char>, root: Option<Seq<char>> },
}

impl View for ToolInput {
    type V = ToolInputView;

    open spec fn view(&self) -> ToolInputView {
        match *self {
            ToolInput::Read { path } => ToolInputView::Read { path: path@ },
            ToolInput::Write { path, content } => ToolInputView::Write {
                path: path@,
                content: content@,
            },
            ToolInput::Shell { command, args } => ToolInputView::Shell {
                command: command@,
                args: string_views(args@),
            },
            ToolInput::Grep { pattern, paths } => ToolInputView::Grep {
                pattern: pattern@,
                paths: string_views(paths@),
            },
            ToolInput::Glob { pattern, root } => ToolInputView::Glob {
                pattern: pattern@,
                root: opt_view(root),
            },
        }
    }
}

/// What a tool hands back.
#[derive(Debug, Clone)]
pub enum ToolResult {
    Text(String),
    Lines(Vec<String>),
    Paths(Vec<String>),
    Status(i32),
    /// A write that was computed and not applied: the diff to show, and the
    /// full new content to write later.
    PreviewWrite { path: String, diff: String, content: String },
}

pub enum ToolResultView {
    Text(Seq<char>),
    Lines(Seq<Seq<char>>),
    Paths(Seq<Seq<char>>),
    Status(int),
    PreviewWrite { path: Seq<char>, diff: Seq<char>, content: Seq<char> },
}

impl View for ToolResult {
    type V = ToolResultView;

    open spec fn view(&self) -> ToolResultView {
        match *self {
            ToolResult::Text(text) => ToolResultView::Text(text@),
            ToolResult::Lines(lines) => ToolResultView::Lines(string_views(lines@)),
            ToolResult::Paths(paths) => ToolResultView::Paths(string_views(paths@)),
            ToolResult::Status(code) => ToolResultView::Status(code as int),
            ToolResult::PreviewWrite { path, diff, content } => ToolResultView::PreviewWrite {
                path: path@,
                diff: diff@,
                content: content@,
            },
        }
    }
}

pub open spec fn opt_result_view(result: Option<ToolResult>) -> Option<ToolResultView> {
    match result {
        Some(r) => Some(r@),
        None => None,
    }
}

/// The answers to a request for approval.
#[derive(Debug, Clone, Copy, PartialEq, Eq, Structural)]
pub enum ToolApprovalDecision {
    AllowOnce,
    DenyOnce,
    AllowAll,
    DenyAll,
}

/// What is put before whoever decides: the tool and the paths it would
/// touch.
#[derive(Debug, Clone)]
pub struct ToolApprovalRequest {
    pub tool: Tool,
    pub paths: Vec<String>,
}

pub struct ToolApprovalView {
    pub tool: Tool,
    pub paths: Seq<Seq<char>>,
}

impl View for ToolApprovalRequest {
    type V = ToolApprovalView;

    open spec fn view(&self) -> ToolApprovalView {
        ToolApprovalView { tool: self.tool, paths: string_views(self.paths@) }
    }
}

/// The failure that is no refusal: the policy could not decide alone, and
/// the request has to be put before someone.
#[derive(Debug, Clone)]
pub struct ToolApprovalRequired {
    pub tool: Tool,
    pub paths: Vec<String>,
}

impl View for ToolApprovalRequired {
    type V = ToolApprovalView;

    open spec fn view(&self) -> ToolApprovalView {
        ToolApprovalView { tool: self.tool, paths: string_views(self.paths@) }
    }
}

/// An answer kept for the rest of the session, or for one request.
#[derive(Debug, Clone, Copy, PartialEq, Eq, Structural)]
pub enum ApprovalOverride {
    /// No answer is kept.
    Unset,
    /// The next request for this tool passes, and only that one.
    AllowOnce(Tool),
    /// Every request passes the approval step.
    AllowAll,
    /// Every request is refused at the approval step.
    DenyAll,
}

/// Why the policy refused a request for good.
#[derive(Debug, Clone, Copy, PartialEq, Eq, Structural)]
pub enum DenialReason {
    /// The kept answer is "deny all".
    ApprovalOverride,
    /// The approval policy is `read-only` and the tool writes or runs.
    ReadOnlyPolicy,
    /// A rule of the deny list matches.
    DenyRule,
    /// There is a list of allowed tools and no rule of it matches.
    NotAllowed,
    /// The sandbox is `read-only` and the tool writes or runs.
    SandboxReadOnly,
    /// The sandbox is `workspace-write` and the tool is the shell.
    SandboxShell,
    /// A path matches the list of blocked paths.
    BlockedPath,
    /// There is a list of allowed paths and a path matches none of it.
    PathNotAllowed,
    /// A write goes outside the workspace root.
    OutsideWorkspace,
}

/// A refusal, with the tool name, the rule or the path it is about.
#[derive(Debug, Clone)]
pub struct Denial {
    pub reason: DenialReason,
    pub detail: String,
}

/// What can go wrong with a request.
#[derive(Debug, Clone)]
pub enum ToolError {
    /// The policy needs an answer from outside; the request may be tried
    /// again once there is one.
    ApprovalRequired(ToolApprovalRequired),
    /// The policy refuses; trying again is pointless.
    Denied(Denial),
    /// The operation itself failed.
    Failed(String),
}

pub enum ToolErrorView {
    ApprovalRequired(ToolApprovalView),
    Denied { reason: DenialReason, detail: Seq<char> },
    Failed(Seq<char>),
}

impl View for ToolError {
    type V = ToolErrorView;

    open spec fn view(&self) -> ToolErrorView {
        match *self {
            ToolError::ApprovalRequired(required) => ToolErrorView::ApprovalRequired(required@),
            ToolError::Denied(denial) => ToolErrorView::Denied {
                reason: denial.reason,
                detail: denial.detail@,
            },
            ToolError::Failed(message) => ToolErrorView::Failed(message@),
        }
    }
}

/// The view of the outcome of a check.
pub open spec fn check_view(res: Result<(), ToolError>) -> Result<(), ToolErrorView> {
    match res {
        Ok(_) => Ok(()),
        Err(e) => Err(e@),
    }
}

pub open spec fn spec_tool_name(tool: Tool) -> Seq<char> {
    match tool {
        Tool::Read => "Read"@,
        Tool::Write => "Write"@,
        Tool::Shell => "Shell"@,
        Tool::Grep => "Grep"@,
        Tool::Glob => "Glob"@,
    }
}

/// The name under which rules and messages speak of a tool.
pub fn tool_display_name(tool: Tool) -> (name: &'static str)
    ensures
        name@ == spec_tool_name(tool),
{
    match tool {
        Tool::Read => "Read",
        Tool::Write => "Write",
        Tool::Shell => "Shell",
        Tool::Grep => "Grep",
        Tool::Glob => "Glob",
    }
}

pub open spec fn spec_tool_kind(input: ToolInputView) -> Tool {
    match input {
        ToolInputView::Read { .. } => Tool::Read,
        ToolInputView::Write { .. } => Tool::Write,
        ToolInputView::Shell { .. } => Tool::Shell,
        ToolInputView::Grep { .. } => Tool::Grep,
        ToolInputView::Glob { .. } => Tool::Glob,
    }
}

/// The tool that a request is for.
pub fn tool_kind(input: &ToolInput) -> (tool: Tool)
    ensures
        tool == spec_tool_kind(input@),
{
    match input {
        ToolInput::Read { .. } => Tool::Read,
        ToolInput::Write { .. } => Tool::Write,
        ToolInput::Shell { .. } => Tool::Shell,
        ToolInput::Grep { .. } => Tool::Grep,
        ToolInput::Glob { .. } => Tool::Glob,
    }
}

/// The name of the tool that a request is for.
pub fn tool_name(input: &ToolInput) -> (name: &'static str)
    ensures
        name@ == spec_tool_name(spec_tool_kind(input@)),
{
    tool_display_name(tool_kind(input))
}

/// Whether the tool changes files or runs commands.
pub open spec fn spec_tool_mutates(tool: Tool) -> bool {
    tool == Tool::Write || tool == Tool::Shell
}

pub fn tool_mutates(tool: Tool) -> (b: bool)
    ensures
        b == spec_tool_mutates(tool),
{
    match tool {
        Tool::Write => true,
        Tool::Shell => true,
        _ => false,
    }
}

pub open spec fn spec_tool_paths(input: ToolInputView) -> Seq<Seq<char>> {
    match input {
        ToolInputView::Read { path } => seq![path],
        ToolInputView::Write { path, .. } => seq![path],
        ToolInputView::Grep { paths, .. } => paths,
        ToolInputView::Glob { root, .. } => match root {
            Some(root) => seq![root],
            None => Seq::empty(),
        },
        ToolInputView::Shell { .. } => Seq::empty(),
    }
}

/// The paths that a request names, in order.
pub fn tool_paths(input: &ToolInput) -> (paths: Vec<String>)
    ensures
        string_views(paths@) == spec_tool_paths(input@),
{
    let mut out: Vec<String> = Vec::new();
    match input {
        ToolInput::Read { path } => {
            out.push(clone_string(path));
            assert(string_views(out@) =~= seq![path@]);
        },
        ToolInput::Write { path, .. } => {
            out.push(clone_string(path));
            assert(string_views(out@) =~= seq![path@]);
        },
        ToolInput::Grep { paths, .. } => {
            out = clone_strings(paths);
        },
        ToolInput::Glob { root, .. } => {
            match root {
                Some(root) => {
                    out.push(clone_string(root));
                    assert(string_views(out@) =~= seq![root@]);
                },
                None => {
                    assert(string_views(out@) =~= Seq::<Seq<char>>::empty());
                },
            }
        },
        ToolInput::Shell { .. } => {
            assert(string_views(out@) =~= Seq::<Seq<char>>::empty());
        },
    }
    out
}

impl ToolInput {
    /// A copy of the request.
    pub fn duplicate(&self) -> (out: ToolInput)
        ensures
            out@ == self@,
    {
        match self {
            ToolInput::Read { path } => ToolInput::Read { path: clone_string(path) },
            ToolInput::Write { path, content } => ToolInput::Write {
                path: clone_string(path),
                content: clone_string(content),
            },
            ToolInput::Shell { command, args } => ToolInput::Shell {
                command: clone_string(command),
                args: clone_strings(args),
            },
            ToolInput::Grep { pattern, paths } => ToolInput::Grep {
                pattern: clone_string(pattern),
                paths: clone_strings(paths),
            },
            ToolInput::Glob { pattern, root } => ToolInput::Glob {
                pattern: clone_string(pattern),
                root: clone_opt_string(root),
            },
        }
    }
}

impl ToolResult {
    /// A copy of the result.
    pub fn duplicate(&self) -> (out: ToolResult)
        ensures
            out@ == self@,
    {
        match self {
            ToolResult::Text(text) => ToolResult::Text(clone_string(text)),
            ToolResult::Lines(lines) => ToolResult::Lines(clone_strings(lines)),
            ToolResult::Paths(paths) => ToolResult::Paths(clone_strings(paths)),
            ToolResult::Status(code) => ToolResult::Status(*code),
            ToolResult::PreviewWrite { path, diff, content } => ToolResult::PreviewWrite {
                path: clone_string(path),
                diff: clone_string(diff),
                content: clone_string(content),
            },
        }
    }
}

impl ToolApprovalRequired {
    /// What has to be approved before `input` may run.
    pub fn new(input: &ToolInput) -> (required: ToolApprovalRequired)
        ensures
            required@ == spec_approval_for(input@),
    {
        ToolApprovalRequired { tool: tool_kind(input), paths: tool_paths(input) }
    }

    /// The request to put before whoever decides.
    pub fn request(&self) -> (request: ToolApprovalRequest)
        ensures
            request@ == self@,
    {
        ToolApprovalRequest { tool: self.tool, paths: clone_strings(&self.paths) }
    }

    pub fn to_string(&self) -> (out: String)
        ensures
            out@ == spec_error_message(ToolErrorView::ApprovalRequired(self@)),
    {
        let mut out = str_chars("permission approval required for tool: ");
        extend_str(&mut out, tool_display_name(self.tool));
        crate::text::chars_to_string(&out)
    }
}

pub open spec fn spec_approval_for(input: ToolInputView) -> ToolApprovalView {
    ToolApprovalView { tool: spec_tool_kind(input), paths: spec_tool_paths(input) }
}

pub open spec fn spec_denial_prefix(reason: DenialReason) -> Seq<char> {
    match reason {
        DenialReason::ApprovalOverride => "permission denied by approval override for tool: "@,
        DenialReason::ReadOnlyPolicy => "permission denied by approval_policy=read-only for tool: "@,
        DenialReason::DenyRule => "permission denied by rule: "@,
        DenialReason::NotAllowed => "tool not allowed: "@,
        DenialReason::SandboxReadOnly => "sandbox denies write in read-only mode: "@,
        DenialReason::SandboxShell => "sandbox denies shell in workspace-write mode"@,
        DenialReason::BlockedPath => "sandbox blocked path: "@,
        DenialReason::PathNotAllowed => "sandbox path not allowed: "@,
        DenialReason::OutsideWorkspace => "sandbox denies write outside workspace: "@,
    }
}

pub fn denial_prefix(reason: DenialReason) -> (prefix: &'static str)
    ensures
        prefix@ == spec_denial_prefix(reason),
{
    match reason {
        DenialReason::ApprovalOverride => "permission denied by approval override for tool: ",
        DenialReason::ReadOnlyPolicy => "permission denied by approval_policy=read-only for tool: ",
        DenialReason::DenyRule => "permission denied by rule: ",
        DenialReason::NotAllowed => "tool not allowed: ",
        DenialReason::SandboxReadOnly => "sandbox denies write in read-only mode: ",
        DenialReason::SandboxShell => "sandbox denies shell in workspace-write mode",
        DenialReason::BlockedPath => "sandbox blocked path: ",
        DenialReason::PathNotAllowed => "sandbox path not allowed: ",
        DenialReason::OutsideWorkspace => "sandbox denies write outside workspace: ",
    }
}

/// The text of an error, as it is shown and handed back to the model.
pub open spec fn spec_error_message(error: ToolErrorView) -> Seq<char> {
    match error {
        ToolErrorView::ApprovalRequired(required) => "permission approval required for tool: "@
            + spec_tool_name(required.tool),
        ToolErrorView::Denied { reason, detail } => spec_denial_prefix(reason) + detail,
        ToolErrorView::Failed(message) => message,
    }
}

impl ToolError {
    /// Whether the error is the one that an approval can lift.
    pub fn is_approval_required(&self) -> (b: bool)
        ensures
            b == (self@ is ApprovalRequired),
    {
        match self {
            ToolError::ApprovalRequired(_) => true,
            _ => false,
        }
    }

    /// Whether the policy refused for good.
    pub fn is_denied(&self) -> (b: bool)
        ensures
            b == (self@ is Denied),
    {
        match self {
            ToolError::Denied(_) => true,
            _ => false,
        }
    }

    pub fn to_string(&self) -> (out: String)
        ensures
            out@ == spec_error_message(self@),
    {
        match self {
            ToolError::ApprovalRequired(required) => required.to_string(),
            ToolError::Denied(denial) => {
                let mut out = str_chars(denial_prefix(denial.reason));
                extend_str(&mut out, denial.detail.as_str());
                crate::text::chars_to_string(&out)
            },
            ToolError::Failed(message) => clone_string(message),
        }
    }

    /// A copy of the error.
    pub fn duplicate(&self) -> (out: ToolError)
        ensures
            out@ == self@,
    {
        match self {
            ToolError::ApprovalRequired(required) => ToolError::ApprovalRequired(
                ToolApprovalRequired { tool: required.tool, paths: clone_strings(&required.paths) },
            ),
            ToolError::Denied(denial) => ToolError::Denied(
                Denial { reason: denial.reason, detail: clone_string(&denial.detail) },
            ),
            ToolError::Failed(message) => ToolError::Failed(clone_string(message)),
        }
    }
}

} // verus!
