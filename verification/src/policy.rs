//! The tool policy: whether a request may run.
//!
//! A request goes through two passes, each of which can refuse it. The
//! permission pass holds the approval step and the rule lists; the sandbox
//! pass holds the mode and the path lists. Only the approval step can end
//! in a request for approval; every other refusal is final.

use crate::config::{
    opt_permissions_view, opt_sandbox_view, Config, PermissionsConfig, PermissionsView,
    SandboxConfig, SandboxView,
};
use crate::matcher::{glob_matches, wildcard_match_chars};
use crate::paths::{resolve_target, spec_resolve_target, ResolvedPath, ResolvedPathView};
use crate::rules::{rule_matches, spec_match_targets, spec_rule_matches, tool_match_targets};
use crate::text::{
    ascii_lowercase, chars_eq_str, clone_string, spec_ascii_lowercase, spec_trim, str_chars,
    string_views, trim,
};
use crate::tools::{
    check_view, spec_approval_for, spec_tool_kind, spec_tool_mutates, spec_tool_name,
    spec_tool_paths, tool_kind, tool_mutates, tool_name, tool_paths, ApprovalOverride, Denial,
    DenialReason, Tool, ToolApprovalRequired, ToolError, ToolErrorView, ToolInput, ToolInputView,
};
use vstd::prelude::*;

verus! {

/// What the approval policy asks for.
#[derive(Debug, Clone, Copy, PartialEq, Eq, Structural)]
pub enum ApprovalMode {
    /// Nothing: no policy is set, or one that is not known.
    Unset,
    /// Every request needs an answer.
    Always,
    /// Requests that write or run are refused.
    ReadOnly,
}

/// How the sandbox contains writes and commands.
#[derive(Debug, Clone, Copy, PartialEq, Eq, Structural)]
pub enum SandboxMode {
    /// Only the path lists apply.
    Off,
    /// Requests that write or run are refused.
    ReadOnly,
    /// Writes stay under the workspace root, and the shell is refused.
    WorkspaceWrite,
}

/// A setting is read without the white space around it and without regard
/// to letter case.
pub open spec fn spec_setting(value: Seq<char>) -> Seq<char> {
    spec_ascii_lowercase(spec_trim(value))
}

pub open spec fn spec_approval_mode(policy: Option<Seq<char>>) -> ApprovalMode {
    match policy {
        None => ApprovalMode::Unset,
        Some(policy) => if spec_setting(policy) == "always"@ {
            ApprovalMode::Always
        } else if spec_setting(policy) == "read-only"@ {
            ApprovalMode::ReadOnly
        } else {
            ApprovalMode::Unset
        },
    }
}

pub open spec fn spec_sandbox_mode(mode: Option<Seq<char>>) -> SandboxMode {
    match mode {
        None => SandboxMode::Off,
        Some(mode) => if spec_setting(mode) == "read-only"@ {
            SandboxMode::ReadOnly
        } else if spec_setting(mode) == "workspace-write"@ {
            SandboxMode::WorkspaceWrite
        } else {
            SandboxMode::Off
        },
    }
}

fn setting(value: &str) -> (out: Vec<char>)
    ensures
        out@ == spec_setting(value@),
{
    let raw = str_chars(value);
    let trimmed = trim(&raw);
    ascii_lowercase(&trimmed)
}

pub fn approval_mode(policy: &Option<String>) -> (mode: ApprovalMode)
    ensures
        mode == spec_approval_mode(crate::text::opt_view(*policy)),
{
    match policy {
        None => ApprovalMode::Unset,
        Some(policy) => {
            let value = setting(policy.as_str());
            if chars_eq_str(&value, "always") {
                ApprovalMode::Always
            } else if chars_eq_str(&value, "read-only") {
                ApprovalMode::ReadOnly
            } else {
                ApprovalMode::Unset
            }
        },
    }
}

pub fn sandbox_mode(mode: &Option<String>) -> (out: SandboxMode)
    ensures
        out == spec_sandbox_mode(crate::text::opt_view(*mode)),
{
    match mode {
        None => SandboxMode::Off,
        Some(mode) => {
            let value = setting(mode.as_str());
            if chars_eq_str(&value, "read-only") {
                SandboxMode::ReadOnly
            } else if chars_eq_str(&value, "workspace-write") {
                SandboxMode::WorkspaceWrite
            } else {
                SandboxMode::Off
            }
        },
    }
}

pub open spec fn denied(reason: DenialReason, detail: Seq<char>) -> Result<(), ToolErrorView> {
    Err(ToolErrorView::Denied { reason, detail })
}

fn deny(reason: DenialReason, detail: String) -> (res: Result<(), ToolError>)
    ensures
        check_view(res) == denied(reason, detail@),
{
    Err(ToolError::Denied(Denial { reason, detail }))
}

/// The approval step under the policy `always`: what it answers, and the
/// kept answer afterwards. "Allow once" is used up by the first request for
/// its own tool and lets no other tool through.
pub open spec fn spec_approval_gate(kept: ApprovalOverride, input: ToolInputView) -> (
    Result<(), ToolErrorView>,
    ApprovalOverride,
) {
    match kept {
        ApprovalOverride::AllowAll => (Ok(()), kept),
        ApprovalOverride::DenyAll => (
            denied(DenialReason::ApprovalOverride, spec_tool_name(spec_tool_kind(input))),
            kept,
        ),
        ApprovalOverride::AllowOnce(tool) => if tool == spec_tool_kind(input) {
            (Ok(()), ApprovalOverride::Unset)
        } else {
            (Err(ToolErrorView::ApprovalRequired(spec_approval_for(input))), kept)
        },
        ApprovalOverride::Unset => (
            Err(ToolErrorView::ApprovalRequired(spec_approval_for(input))),
            kept,
        ),
    }
}

/// The index of the first rule at or after `from` that covers the request,
/// or the number of rules where none does.
pub open spec fn spec_first_match(
    rules: Seq<Seq<char>>,
    tool: Tool,
    targets: Seq<Seq<char>>,
    from: int,
) -> int
    decreases rules.len() - from,
{
    if from < 0 || from >= rules.len() {
        rules.len() as int
    } else if spec_rule_matches(rules[from], tool, targets) {
        from
    } else {
        spec_first_match(rules, tool, targets, from + 1)
    }
}

pub proof fn lemma_first_match(rules: Seq<Seq<char>>, tool: Tool, targets: Seq<Seq<char>>, from: int)
    requires
        0 <= from <= rules.len(),
    ensures
        from <= spec_first_match(rules, tool, targets, from) <= rules.len(),
        forall|k: int|
            from <= k < spec_first_match(rules, tool, targets, from) ==> !spec_rule_matches(
                #[trigger] rules[k],
                tool,
                targets,
            ),
        spec_first_match(rules, tool, targets, from) < rules.len() ==> spec_rule_matches(
            rules[spec_first_match(rules, tool, targets, from)],
            tool,
            targets,
        ),
    decreases rules.len() - from,
{
    if from < rules.len() && !spec_rule_matches(rules[from], tool, targets) {
        lemma_first_match(rules, tool, targets, from + 1);
    }
}

/// The rule lists: a deny rule that covers the request refuses it, whatever
/// the allow list says; where there is an allow list, a request that none
/// of its rules covers is refused.
pub open spec fn spec_rule_lists(perm: PermissionsView, tool: Tool, targets: Seq<Seq<char>>) -> Result<
    (),
    ToolErrorView,
> {
    let denying = match perm.deny {
        Some(rules) => spec_first_match(rules, tool, targets, 0),
        None => 0,
    };
    if perm.deny is Some && denying < perm.deny->0.len() {
        denied(DenialReason::DenyRule, perm.deny->0[denying])
    } else if perm.allowed_tools is Some && spec_first_match(
        perm.allowed_tools->0,
        tool,
        targets,
        0,
    ) >= perm.allowed_tools->0.len() {
        denied(DenialReason::NotAllowed, spec_tool_name(tool))
    } else {
        Ok(())
    }
}

/// The permission pass for a request that is about `targets`: its answer,
/// and the kept answer afterwards. Under the policy `always` the approval
/// step comes first; under `read-only` a tool that writes or runs is
/// refused; then the rule lists have their say.
pub open spec fn spec_permission_pass(
    perm: Option<PermissionsView>,
    kept: ApprovalOverride,
    input: ToolInputView,
    targets: Seq<Seq<char>>,
) -> (Result<(), ToolErrorView>, ApprovalOverride) {
    match perm {
        None => (Ok(()), kept),
        Some(perm) => {
            let mode = spec_approval_mode(perm.approval_policy);
            let tool = spec_tool_kind(input);
            let gate = if mode == ApprovalMode::Always {
                spec_approval_gate(kept, input)
            } else {
                (Ok(()), kept)
            };
            if gate.0 is Err {
                gate
            } else if mode == ApprovalMode::ReadOnly && spec_tool_mutates(tool) {
                (denied(DenialReason::ReadOnlyPolicy, spec_tool_name(tool)), kept)
            } else {
                (spec_rule_lists(perm, tool, targets), gate.1)
            }
        },
    }
}

/// The permission pass: the targets of the request are its own strings
/// and its paths resolved against the workspace root.
pub open spec fn spec_check_permissions(
    perm: Option<PermissionsView>,
    root: Seq<char>,
    kept: ApprovalOverride,
    input: ToolInputView,
) -> (Result<(), ToolErrorView>, ApprovalOverride) {
    spec_permission_pass(perm, kept, input, spec_match_targets(input, Some(root)))
}

/// Whether a path pattern, read without the white space around it, matches
/// the path in its absolute form or in its form relative to the workspace.
pub open spec fn spec_path_rule_covers(rule: Seq<char>, path: ResolvedPathView) -> bool {
    ||| glob_matches(spec_trim(rule), path.absolute)
    ||| (path.relative is Some && glob_matches(spec_trim(rule), path.relative->0))
}

pub open spec fn spec_path_matches_any(path: ResolvedPathView, rules: Seq<Seq<char>>) -> bool {
    exists|i: int| 0 <= i < rules.len() && spec_path_rule_covers(#[trigger] rules[i], path)
}

/// The path lists of the sandbox, for one resolved path. A blocked path is
/// refused. Where there is a list of allowed paths, the path must match it,
/// and the workspace root is not asked about; where there is none, a path
/// that must stay in the workspace is refused outside it.
pub open spec fn spec_enforce_path_limits(
    path: ResolvedPathView,
    sandbox: SandboxView,
    require_within_workspace: bool,
) -> Result<(), ToolErrorView> {
    if sandbox.blocked_paths is Some && spec_path_matches_any(path, sandbox.blocked_paths->0) {
        denied(DenialReason::BlockedPath, path.absolute)
    } else if sandbox.allowed_paths is Some {
        if spec_path_matches_any(path, sandbox.allowed_paths->0) {
            Ok(())
        } else {
            denied(DenialReason::PathNotAllowed, path.absolute)
        }
    } else if require_within_workspace && !path.inside_workspace {
        denied(DenialReason::OutsideWorkspace, path.absolute)
    } else {
        Ok(())
    }
}

/// The path lists applied to `paths[from..]` in order: the first refusal
/// stands.
pub open spec fn spec_enforce_each(
    paths: Seq<ResolvedPathView>,
    sandbox: SandboxView,
    require_within_workspace: bool,
    from: int,
) -> Result<(), ToolErrorView>
    decreases paths.len() - from,
{
    if from < 0 || from >= paths.len() {
        Ok(())
    } else {
        let first = spec_enforce_path_limits(paths[from], sandbox, require_within_workspace);
        if first is Err {
            first
        } else {
            spec_enforce_each(paths, sandbox, require_within_workspace, from + 1)
        }
    }
}

/// The sandbox pass for a request whose paths resolve to `paths`. In the
/// mode `read-only` a tool that writes or runs is refused; in the mode
/// `workspace-write` the shell is refused, and a write must stay in the
/// workspace; in every mode each path goes through the path lists.
pub open spec fn spec_sandbox_pass(
    sandbox: Option<SandboxView>,
    input: ToolInputView,
    paths: Seq<ResolvedPathView>,
) -> Result<(), ToolErrorView> {
    match sandbox {
        None => Ok(()),
        Some(sandbox) => {
            let mode = spec_sandbox_mode(sandbox.mode);
            let tool = spec_tool_kind(input);
            if mode == SandboxMode::ReadOnly && spec_tool_mutates(tool) {
                denied(DenialReason::SandboxReadOnly, spec_tool_name(tool))
            } else if mode == SandboxMode::WorkspaceWrite && tool == Tool::Shell {
                denied(DenialReason::SandboxShell, Seq::empty())
            } else {
                spec_enforce_each(
                    paths,
                    sandbox,
                    mode == SandboxMode::WorkspaceWrite && tool == Tool::Write,
                    0,
                )
            }
        },
    }
}

/// Each path resolved against the workspace root.
pub open spec fn spec_resolve_all(root: Seq<char>, paths: Seq<Seq<char>>) -> Seq<ResolvedPathView> {
    Seq::new(paths.len(), |i: int| spec_resolve_target(root, paths[i]))
}

/// The sandbox pass: the paths of the request are resolved against the
/// workspace root.
pub open spec fn spec_check_sandbox(
    sandbox: Option<SandboxView>,
    root: Seq<char>,
    input: ToolInputView,
) -> Result<(), ToolErrorView> {
    spec_sandbox_pass(sandbox, input, spec_resolve_all(root, spec_tool_paths(input)))
}

pub open spec fn resolved_views(paths: Seq<ResolvedPath>) -> Seq<ResolvedPathView> {
    Seq::new(paths.len(), |i: int| paths[i]@)
}

/// The policy as contracts see it.
pub struct PolicyView {
    pub permissions: Option<PermissionsView>,
    pub sandbox: Option<SandboxView>,
    pub workspace_root: Seq<char>,
    pub approval_override: ApprovalOverride,
}

/// The whole check: the permission pass, then the sandbox pass. The
/// second part of the result is the kept answer afterwards.
pub open spec fn spec_check(policy: PolicyView, input: ToolInputView) -> (
    Result<(), ToolErrorView>,
    ApprovalOverride,
) {
    let first = spec_check_permissions(
        policy.permissions,
        policy.workspace_root,
        policy.approval_override,
        input,
    );
    if first.0 is Err {
        first
    } else {
        (spec_check_sandbox(policy.sandbox, policy.workspace_root, input), first.1)
    }
}

/// The rules that decide whether a request may run, and the answer kept
/// from an earlier approval.
#[derive(Debug, Clone)]
pub struct ToolPolicy {
    pub permissions: Option<PermissionsConfig>,
    pub sandbox: Option<SandboxConfig>,
    pub workspace_root: String,
    pub approval_override: ApprovalOverride,
}

impl View for ToolPolicy {
    type V = PolicyView;

    open spec fn view(&self) -> PolicyView {
        PolicyView {
            permissions: opt_permissions_view(self.permissions),
            sandbox: opt_sandbox_view(self.sandbox),
            workspace_root: self.workspace_root@,
            approval_override: self.approval_override,
        }
    }
}

/// The same policy with another kept answer.
pub open spec fn with_override(policy: PolicyView, kept: ApprovalOverride) -> PolicyView {
    PolicyView { approval_override: kept, ..policy }
}

fn first_matching_rule(rules: &Vec<String>, tool: Tool, targets: &Vec<String>) -> (at: usize)
    ensures
        at == spec_first_match(string_views(rules@), tool, string_views(targets@), 0),
        at <= rules.len(),
{
    let mut i: usize = 0;
    while i < rules.len()
        invariant
            i <= rules.len(),
            spec_first_match(string_views(rules@), tool, string_views(targets@), 0)
                == spec_first_match(string_views(rules@), tool, string_views(targets@), i as int),
        decreases rules.len() - i,
    {
        if rule_matches(rules[i].as_str(), tool, targets) {
            return i;
        }
        i += 1;
    }
    i
}

fn path_rule_covers(rule: &str, path: &ResolvedPath) -> (b: bool)
    ensures
        b == spec_path_rule_covers(rule@, path@),
{
    let raw = str_chars(rule);
    let pattern = trim(&raw);
    let absolute = str_chars(path.absolute.as_str());
    if wildcard_match_chars(&pattern, &absolute) {
        return true;
    }
    match &path.relative {
        Some(relative) => {
            let relative = str_chars(relative.as_str());
            wildcard_match_chars(&pattern, &relative)
        },
        None => false,
    }
}

/// Whether one of the path patterns matches the path.
pub fn path_matches_any(path: &ResolvedPath, rules: &Vec<String>) -> (b: bool)
    ensures
        b == spec_path_matches_any(path@, string_views(rules@)),
{
    let mut i: usize = 0;
    while i < rules.len()
        invariant
            i <= rules.len(),
            forall|k: int|
                0 <= k < i ==> !spec_path_rule_covers(#[trigger] string_views(rules@)[k], path@),
        decreases rules.len() - i,
    {
        if path_rule_covers(rules[i].as_str(), path) {
            assert(spec_path_rule_covers(string_views(rules@)[i as int], path@));
            return true;
        }
        i += 1;
    }
    false
}

/// The path lists of the sandbox, for one resolved path.
pub fn enforce_resolved_path(
    path: &ResolvedPath,
    sandbox: &SandboxConfig,
    require_within_workspace: bool,
) -> (res: Result<(), ToolError>)
    ensures
        check_view(res) == spec_enforce_path_limits(path@, sandbox@, require_within_workspace),
{
    if let Some(blocked) = &sandbox.blocked_paths {
        if path_matches_any(path, blocked) {
            return deny(DenialReason::BlockedPath, clone_string(&path.absolute));
        }
    }
    match &sandbox.allowed_paths {
        Some(allowed) => {
            if !path_matches_any(path, allowed) {
                return deny(DenialReason::PathNotAllowed, clone_string(&path.absolute));
            }
        },
        None => {
            if require_within_workspace && !path.inside_workspace {
                return deny(DenialReason::OutsideWorkspace, clone_string(&path.absolute));
            }
        },
    }
    Ok(())
}

/// The rule lists of the permissions, for a request that is about
/// `targets`.
pub fn check_rule_lists(permissions: &PermissionsConfig, tool: Tool, targets: &Vec<String>) -> (res:
    Result<(), ToolError>)
    ensures
        check_view(res) == spec_rule_lists(permissions@, tool, string_views(targets@)),
{
    if let Some(rules) = &permissions.deny {
        let at = first_matching_rule(rules, tool, targets);
        if at < rules.len() {
            return deny(DenialReason::DenyRule, clone_string(&rules[at]));
        }
    }
    if let Some(rules) = &permissions.allowed_tools {
        let at = first_matching_rule(rules, tool, targets);
        if at >= rules.len() {
            return deny(DenialReason::NotAllowed, crate::tools::tool_display_name(tool).to_owned());
        }
    }
    Ok(())
}

/// The approval step under the policy `always`.
pub fn approval_gate(kept: &mut ApprovalOverride, input: &ToolInput) -> (res: Result<(), ToolError>)
    ensures
        (check_view(res), *final(kept)) == spec_approval_gate(*old(kept), input@),
{
    match *kept {
        ApprovalOverride::AllowAll => Ok(()),
        ApprovalOverride::DenyAll => deny(
            DenialReason::ApprovalOverride,
            tool_name(input).to_owned(),
        ),
        ApprovalOverride::AllowOnce(tool) => {
            if tool == tool_kind(input) {
                *kept = ApprovalOverride::Unset;
                Ok(())
            } else {
                Err(ToolError::ApprovalRequired(ToolApprovalRequired::new(input)))
            }
        },
        ApprovalOverride::Unset => Err(
            ToolError::ApprovalRequired(ToolApprovalRequired::new(input)),
        ),
    }
}

/// The permission pass for a request that is about `targets`. Only the
/// kept answer can change.
pub fn permission_pass(
    permissions: &Option<PermissionsConfig>,
    kept: &mut ApprovalOverride,
    input: &ToolInput,
    targets: &Vec<String>,
) -> (res: Result<(), ToolError>)
    ensures
        (check_view(res), *final(kept)) == spec_permission_pass(
            opt_permissions_view(*permissions),
            *old(kept),
            input@,
            string_views(targets@),
        ),
{
    match permissions {
        None => Ok(()),
        Some(permissions) => {
            let mode = approval_mode(&permissions.approval_policy);
            let tool = tool_kind(input);
            let before = *kept;
            let gate = match mode {
                ApprovalMode::Always => approval_gate(kept, input),
                _ => Ok(()),
            };
            if gate.is_err() {
                gate
            } else if mode == ApprovalMode::ReadOnly && tool_mutates(tool) {
                *kept = before;
                deny(DenialReason::ReadOnlyPolicy, tool_name(input).to_owned())
            } else {
                check_rule_lists(permissions, tool, targets)
            }
        },
    }
}

/// The sandbox pass for a request whose paths resolve to `paths`.
#[verifier::loop_isolation(false)]
pub fn sandbox_pass(sandbox: &Option<SandboxConfig>, input: &ToolInput, paths: &Vec<ResolvedPath>) -> (res:
    Result<(), ToolError>)
    ensures
        check_view(res) == spec_sandbox_pass(
            opt_sandbox_view(*sandbox),
            input@,
            resolved_views(paths@),
        ),
{
    let sandbox = match sandbox {
        None => {
            return Ok(());
        },
        Some(sandbox) => sandbox,
    };
    let mode = sandbox_mode(&sandbox.mode);
    let tool = tool_kind(input);
    if mode == SandboxMode::ReadOnly && tool_mutates(tool) {
        return deny(DenialReason::SandboxReadOnly, tool_name(input).to_owned());
    }
    if mode == SandboxMode::WorkspaceWrite && tool == Tool::Shell {
        return deny(DenialReason::SandboxShell, String::new());
    }
    let require_within_workspace = mode == SandboxMode::WorkspaceWrite && tool == Tool::Write;
    let mut i: usize = 0;
    while i < paths.len()
        invariant
            i <= paths.len(),
            spec_enforce_each(resolved_views(paths@), sandbox@, require_within_workspace, 0)
                == spec_enforce_each(
                resolved_views(paths@),
                sandbox@,
                require_within_workspace,
                i as int,
            ),
        decreases paths.len() - i,
    {
        assert(resolved_views(paths@)[i as int] == paths@[i as int]@);
        let step = enforce_resolved_path(&paths[i], sandbox, require_within_workspace);
        if step.is_err() {
            return step;
        }
        i += 1;
    }
    Ok(())
}

/// Each path resolved against the workspace root.
pub fn resolve_all(root: &str, paths: &Vec<String>) -> (out: Vec<ResolvedPath>)
    ensures
        resolved_views(out@) == spec_resolve_all(root@, string_views(paths@)),
{
    let mut out: Vec<ResolvedPath> = Vec::new();
    let mut i: usize = 0;
    while i < paths.len()
        invariant
            i <= paths.len(),
            out@.len() == i,
            forall|k: int|
                0 <= k < i ==> (#[trigger] out@[k])@ == spec_resolve_target(
                    root@,
                    string_views(paths@)[k],
                ),
        decreases paths.len() - i,
    {
        assert(string_views(paths@)[i as int] == paths@[i as int]@);
        out.push(resolve_target(root, paths[i].as_str()));
        i += 1;
    }
    assert(resolved_views(out@) =~= spec_resolve_all(root@, string_views(paths@)));
    out
}

impl ToolPolicy {
    /// A policy without rules, for the given workspace root.
    pub fn new(workspace_root: String) -> (policy: ToolPolicy)
        ensures
            policy@ == (PolicyView {
                permissions: None,
                sandbox: None,
                workspace_root: workspace_root@,
                approval_override: ApprovalOverride::Unset,
            }),
    {
        ToolPolicy {
            permissions: None,
            sandbox: None,
            workspace_root,
            approval_override: ApprovalOverride::Unset,
        }
    }

    /// The policy that the settings describe, for the given workspace root.
    /// No answer is kept at first.
    pub fn from_config(config: &Config, workspace_root: String) -> (policy: ToolPolicy)
        ensures
            policy@ == (PolicyView {
                permissions: config@.permissions,
                sandbox: config@.sandbox,
                workspace_root: workspace_root@,
                approval_override: ApprovalOverride::Unset,
            }),
    {
        let permissions = match &config.permissions {
            Some(p) => Some(p.duplicate()),
            None => None,
        };
        let sandbox = match &config.sandbox {
            Some(s) => Some(s.duplicate()),
            None => None,
        };
        ToolPolicy {
            permissions,
            sandbox,
            workspace_root,
            approval_override: ApprovalOverride::Unset,
        }
    }

    /// A copy of the policy, with the same kept answer.
    pub fn duplicate(&self) -> (out: ToolPolicy)
        ensures
            out@ == self@,
    {
        let permissions = match &self.permissions {
            Some(p) => Some(p.duplicate()),
            None => None,
        };
        let sandbox = match &self.sandbox {
            Some(s) => Some(s.duplicate()),
            None => None,
        };
        ToolPolicy {
            permissions,
            sandbox,
            workspace_root: clone_string(&self.workspace_root),
            approval_override: self.approval_override,
        }
    }

    /// Replaces the kept answer. Nothing else changes.
    pub fn set_approval_override(&mut self, override_state: ApprovalOverride)
        ensures
            final(self)@ == with_override(old(self)@, override_state),
    {
        self.approval_override = override_state;
    }

    /// The kept answer.
    pub fn approval_override(&self) -> (kept: ApprovalOverride)
        ensures
            kept == self@.approval_override,
    {
        self.approval_override
    }

    /// The permission pass. Only the kept answer can change.
    pub fn check_permissions(&mut self, input: &ToolInput) -> (res: Result<(), ToolError>)
        ensures
            (check_view(res), final(self)@.approval_override) == spec_check_permissions(
                old(self)@.permissions,
                old(self)@.workspace_root,
                old(self)@.approval_override,
                input@,
            ),
            final(self)@ == with_override(old(self)@, final(self)@.approval_override),
    {
        let targets = tool_match_targets(input, Some(self.workspace_root.as_str()));
        let mut kept = self.approval_override;
        let res = permission_pass(&self.permissions, &mut kept, input, &targets);
        self.approval_override = kept;
        res
    }

    /// The path lists of the sandbox, for one path of a request.
    pub fn enforce_path_limits(
        &self,
        path: &str,
        sandbox: &SandboxConfig,
        require_within_workspace: bool,
    ) -> (res: Result<(), ToolError>)
        ensures
            check_view(res) == spec_enforce_path_limits(
                spec_resolve_target(self@.workspace_root, path@),
                sandbox@,
                require_within_workspace,
            ),
    {
        let resolved = resolve_target(self.workspace_root.as_str(), path);
        enforce_resolved_path(&resolved, sandbox, require_within_workspace)
    }

    /// The sandbox pass.
    pub fn check_sandbox(&self, input: &ToolInput) -> (res: Result<(), ToolError>)
        ensures
            check_view(res) == spec_check_sandbox(self@.sandbox, self@.workspace_root, input@),
    {
        let paths = resolve_all(self.workspace_root.as_str(), &tool_paths(input));
        sandbox_pass(&self.sandbox, input, &paths)
    }

    /// Whether the request may run: the permission pass, then the sandbox
    /// pass. Only the kept answer can change.
    pub fn check(&mut self, input: &ToolInput) -> (res: Result<(), ToolError>)
        ensures
            (check_view(res), final(self)@.approval_override) == spec_check(old(self)@, input@),
            final(self)@ == with_override(old(self)@, final(self)@.approval_override),
    {
        let first = self.check_permissions(input);
        if first.is_err() {
            return first;
        }
        self.check_sandbox(input)
    }
}

/// A deny rule that covers a request wins over the allow list: the rule
/// lists refuse the request whatever the allow list holds.
pub proof fn lemma_deny_rule_wins(perm: PermissionsView, tool: Tool, targets: Seq<Seq<char>>, i: int)
    requires
        perm.deny is Some,
        0 <= i < perm.deny->0.len(),
        spec_rule_matches(perm.deny->0[i], tool, targets),
    ensures
        spec_rule_lists(perm, tool, targets) matches Err(
            ToolErrorView::Denied { reason: DenialReason::DenyRule, .. },
        ),
{
    lemma_first_match(perm.deny->0, tool, targets, 0);
}

/// A request that a deny rule covers never passes the check, whatever
/// answer is kept and whatever else the policy holds.
pub proof fn lemma_denied_request_never_passes(policy: PolicyView, input: ToolInputView, i: int)
    requires
        policy.permissions is Some,
        policy.permissions->0.deny is Some,
        0 <= i < policy.permissions->0.deny->0.len(),
        spec_rule_matches(
            policy.permissions->0.deny->0[i],
            spec_tool_kind(input),
            spec_match_targets(input, Some(policy.workspace_root)),
        ),
    ensures
        spec_check(policy, input).0 is Err,
{
    lemma_deny_rule_wins(
        policy.permissions->0,
        spec_tool_kind(input),
        spec_match_targets(input, Some(policy.workspace_root)),
        i,
    );
}

/// Where there is an allow list, a request that none of its rules covers
/// is refused by the rule lists.
pub proof fn lemma_unlisted_request_is_refused(
    perm: PermissionsView,
    tool: Tool,
    targets: Seq<Seq<char>>,
)
    requires
        perm.allowed_tools is Some,
        forall|i: int|
            0 <= i < perm.allowed_tools->0.len() ==> !spec_rule_matches(
                #[trigger] perm.allowed_tools->0[i],
                tool,
                targets,
            ),
    ensures
        spec_rule_lists(perm, tool, targets) is Err,
{
    lemma_first_match(perm.allowed_tools->0, tool, targets, 0);
    if perm.deny is Some {
        lemma_first_match(perm.deny->0, tool, targets, 0);
    }
}

/// Under the approval policy `always`, an answer "allow once" for a tool
/// lets exactly one request for that tool through the approval step: the
/// first check uses the answer up, and the check after it, whatever it is
/// for, asks for approval again.
pub proof fn lemma_allow_once_is_used_once(
    policy: PolicyView,
    first: ToolInputView,
    second: ToolInputView,
)
    requires
        policy.permissions is Some,
        spec_approval_mode(policy.permissions->0.approval_policy) == ApprovalMode::Always,
        policy.approval_override == ApprovalOverride::AllowOnce(spec_tool_kind(first)),
    ensures
        spec_check(policy, first).1 == ApprovalOverride::Unset,
        !(spec_check(policy, first).0 matches Err(ToolErrorView::ApprovalRequired(_))),
        policy.permissions->0.deny is None && policy.permissions->0.allowed_tools is None
            && policy.sandbox is None ==> spec_check(policy, first).0 is Ok,
        spec_check(with_override(policy, spec_check(policy, first).1), second) == (
            Err::<(), ToolErrorView>(ToolErrorView::ApprovalRequired(spec_approval_for(second))),
            ApprovalOverride::Unset,
        ),
{
    let perm = policy.permissions->0;
    let tool = spec_tool_kind(first);
    let targets = spec_match_targets(first, Some(policy.workspace_root));
    if perm.deny is Some {
        lemma_first_match(perm.deny->0, tool, targets, 0);
    }
    if perm.allowed_tools is Some {
        lemma_first_match(perm.allowed_tools->0, tool, targets, 0);
    }
    lemma_sandbox_never_asks(
        policy.sandbox,
        first,
        spec_resolve_all(policy.workspace_root, spec_tool_paths(first)),
    );
}

/// Under the approval policy `always`, an answer "allow once" for one tool
/// lets no other tool through: a request for another tool asks for
/// approval, and the answer is kept.
pub proof fn lemma_allow_once_is_for_one_tool(policy: PolicyView, tool: Tool, input: ToolInputView)
    requires
        policy.permissions is Some,
        spec_approval_mode(policy.permissions->0.approval_policy) == ApprovalMode::Always,
        policy.approval_override == ApprovalOverride::AllowOnce(tool),
        tool != spec_tool_kind(input),
    ensures
        spec_check(policy, input) == (
            Err::<(), ToolErrorView>(ToolErrorView::ApprovalRequired(spec_approval_for(input))),
            ApprovalOverride::AllowOnce(tool),
        ),
{
}

/// The answers "allow all" and "deny all" are never used up: no check
/// changes them.
pub proof fn lemma_blanket_answers_persist(policy: PolicyView, input: ToolInputView)
    requires
        policy.approval_override == ApprovalOverride::AllowAll || policy.approval_override
            == ApprovalOverride::DenyAll,
    ensures
        spec_check(policy, input).1 == policy.approval_override,
{
}

/// Only the approval step asks for approval: the path lists never do.
pub proof fn lemma_paths_never_ask(
    paths: Seq<ResolvedPathView>,
    sandbox: SandboxView,
    require_within_workspace: bool,
    from: int,
)
    ensures
        !(spec_enforce_each(paths, sandbox, require_within_workspace, from) matches Err(
            ToolErrorView::ApprovalRequired(_),
        )),
    decreases paths.len() - from,
{
    if 0 <= from < paths.len() {
        lemma_paths_never_ask(paths, sandbox, require_within_workspace, from + 1);
    }
}

/// Only the approval step asks for approval: every refusal of the sandbox
/// pass is final.
pub proof fn lemma_sandbox_never_asks(
    sandbox: Option<SandboxView>,
    input: ToolInputView,
    paths: Seq<ResolvedPathView>,
)
    ensures
        !(spec_sandbox_pass(sandbox, input, paths) matches Err(ToolErrorView::ApprovalRequired(_))),
{
    if sandbox is Some {
        let mode = spec_sandbox_mode(sandbox->0.mode);
        let tool = spec_tool_kind(input);
        lemma_paths_never_ask(
            paths,
            sandbox->0,
            mode == SandboxMode::WorkspaceWrite && tool == Tool::Write,
            0,
        );
    }
}

/// A request for approval comes only from the policy `always`, and only
/// where no answer that lets the request through is kept.
pub proof fn lemma_approval_is_asked_only_under_always(policy: PolicyView, input: ToolInputView)
    requires
        spec_check(policy, input).0 matches Err(ToolErrorView::ApprovalRequired(_)),
    ensures
        policy.permissions is Some,
        spec_approval_mode(policy.permissions->0.approval_policy) == ApprovalMode::Always,
        policy.approval_override != ApprovalOverride::AllowAll,
        policy.approval_override != ApprovalOverride::AllowOnce(spec_tool_kind(input)),
        spec_check(policy, input).0 == Err::<(), ToolErrorView>(
            ToolErrorView::ApprovalRequired(spec_approval_for(input)),
        ),
        spec_check(policy, input).1 == policy.approval_override,
{
    lemma_sandbox_never_asks(
        policy.sandbox,
        input,
        spec_resolve_all(policy.workspace_root, spec_tool_paths(input)),
    );
    if policy.permissions is Some {
        let perm = policy.permissions->0;
        let tool = spec_tool_kind(input);
        let targets = spec_match_targets(input, Some(policy.workspace_root));
        if perm.deny is Some {
            lemma_first_match(perm.deny->0, tool, targets, 0);
        }
        if perm.allowed_tools is Some {
            lemma_first_match(perm.allowed_tools->0, tool, targets, 0);
        }
    }
}

/// In the sandbox modes `workspace-write` and `read-only` every shell
/// request is refused, whatever its paths resolve to and whatever the path
/// lists hold.
pub proof fn lemma_sandbox_refuses_shell(
    sandbox: SandboxView,
    input: ToolInputView,
    paths: Seq<ResolvedPathView>,
)
    requires
        spec_sandbox_mode(sandbox.mode) != SandboxMode::Off,
        input is Shell,
    ensures
        spec_sandbox_pass(Some(sandbox), input, paths) is Err,
        spec_sandbox_mode(sandbox.mode) == SandboxMode::WorkspaceWrite ==> spec_sandbox_pass(
            Some(sandbox),
            input,
            paths,
        ) == denied(DenialReason::SandboxShell, Seq::empty()),
{
}

/// In the sandbox mode `workspace-write` without a list of allowed paths, a
/// write is let through exactly when its path resolves to one under the
/// workspace root that is not blocked; outside the root it is refused.
pub proof fn lemma_workspace_write_contains_writes(
    sandbox: SandboxView,
    path: Seq<char>,
    content: Seq<char>,
    target: ResolvedPathView,
)
    requires
        spec_sandbox_mode(sandbox.mode) == SandboxMode::WorkspaceWrite,
        sandbox.allowed_paths is None,
    ensures
        ({
            let answer = spec_sandbox_pass(
                Some(sandbox),
                ToolInputView::Write { path, content },
                seq![target],
            );
            let blocked = sandbox.blocked_paths is Some && spec_path_matches_any(
                target,
                sandbox.blocked_paths->0,
            );
            &&& !target.inside_workspace ==> answer is Err
            &&& !target.inside_workspace && !blocked ==> answer == denied(
                DenialReason::OutsideWorkspace,
                target.absolute,
            )
            &&& target.inside_workspace && !blocked ==> answer is Ok
        }),
{
    let paths = seq![target];
    assert(spec_enforce_each(paths, sandbox, true, 1) is Ok);
    assert(spec_enforce_each(paths, sandbox, true, 0) == {
        let first = spec_enforce_path_limits(target, sandbox, true);
        if first is Err {
            first
        } else {
            spec_enforce_each(paths, sandbox, true, 1)
        }
    });
}

/// The check of a write resolves the one path of the write and asks the
/// sandbox about it.
pub proof fn lemma_write_resolves_its_path(
    sandbox: Option<SandboxView>,
    root: Seq<char>,
    path: Seq<char>,
    content: Seq<char>,
)
    ensures
        spec_check_sandbox(sandbox, root, ToolInputView::Write { path, content })
            == spec_sandbox_pass(
            sandbox,
            ToolInputView::Write { path, content },
            seq![spec_resolve_target(root, path)],
        ),
{
    let input = ToolInputView::Write { path, content };
    assert(spec_resolve_all(root, spec_tool_paths(input)) =~= seq![
        spec_resolve_target(root, path),
    ]);
}

/// In the sandbox mode `workspace-write` without a list of allowed paths,
/// a write whose target, resolved against the workspace root, does not lie
/// under the root never passes the check. Where the permission pass lets
/// it through, the answer is a refusal for good, not a request for
/// approval, and the kept answer is what the permission pass left.
pub proof fn lemma_write_outside_workspace_is_refused(
    policy: PolicyView,
    path: Seq<char>,
    content: Seq<char>,
)
    requires
        policy.sandbox is Some,
        spec_sandbox_mode(policy.sandbox->0.mode) == SandboxMode::WorkspaceWrite,
        policy.sandbox->0.allowed_paths is None,
        !spec_resolve_target(policy.workspace_root, path).inside_workspace,
    ensures
        ({
            let input = ToolInputView::Write { path, content };
            let first = spec_check_permissions(
                policy.permissions,
                policy.workspace_root,
                policy.approval_override,
                input,
            );
            let answer = spec_check(policy, input);
            &&& answer.0 is Err
            &&& first.0 is Ok ==> answer.0->Err_0 is Denied && answer.1 == first.1
        }),
{
    let target = spec_resolve_target(policy.workspace_root, path);
    lemma_write_resolves_its_path(policy.sandbox, policy.workspace_root, path, content);
    lemma_workspace_write_contains_writes(policy.sandbox->0, path, content, target);
    lemma_sandbox_never_asks(
        policy.sandbox,
        ToolInputView::Write { path, content },
        seq![target],
    );
}

/// In the sandbox mode `workspace-write` without path lists, a write
/// whose target, resolved against the workspace root, lies under the root
/// passes the check wherever the permission pass lets it through.
pub proof fn lemma_write_inside_workspace_passes(
    policy: PolicyView,
    path: Seq<char>,
    content: Seq<char>,
)
    requires
        policy.sandbox is Some,
        spec_sandbox_mode(policy.sandbox->0.mode) == SandboxMode::WorkspaceWrite,
        policy.sandbox->0.allowed_paths is None,
        policy.sandbox->0.blocked_paths is None,
        spec_resolve_target(policy.workspace_root, path).inside_workspace,
    ensures
        ({
            let input = ToolInputView::Write { path, content };
            let first = spec_check_permissions(
                policy.permissions,
                policy.workspace_root,
                policy.approval_override,
                input,
            );
            let answer = spec_check(policy, input);
            &&& first.0 is Ok ==> answer.0 is Ok && answer.1 == first.1
            &&& first.0 is Err ==> answer == first
        }),
{
    let target = spec_resolve_target(policy.workspace_root, path);
    lemma_write_resolves_its_path(policy.sandbox, policy.workspace_root, path, content);
    lemma_workspace_write_contains_writes(policy.sandbox->0, path, content, target);
}

/// For one resolved path that must stay in the workspace: without a list
/// of allowed paths, a path outside the root is refused and a path inside
/// it that is not blocked passes; with such a list, the root is not asked
/// about.
pub proof fn lemma_path_limits(path: ResolvedPathView, sandbox: SandboxView)
    ensures
        sandbox.allowed_paths is None && !path.inside_workspace ==> spec_enforce_path_limits(
            path,
            sandbox,
            true,
        ) is Err,
        sandbox.allowed_paths is None && sandbox.blocked_paths is None && path.inside_workspace
            ==> spec_enforce_path_limits(path, sandbox, true) is Ok,
        sandbox.allowed_paths is Some ==> spec_enforce_path_limits(path, sandbox, true)
            == spec_enforce_path_limits(path, sandbox, false),
{
}

} // verus!
