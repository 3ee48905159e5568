use tengu::config::{Config, ModelConfig, PermissionsConfig, SandboxConfig};
use tengu::paths::{resolve_path, resolve_target, ResolvedPath};
use tengu::policy::{
    approval_mode, enforce_resolved_path, path_matches_any, sandbox_mode, ApprovalMode,
    SandboxMode, ToolPolicy,
};
use tengu::rules::{rule_matches, rule_matches_tool, tool_match_targets};
use tengu::tools::{
    tool_kind, tool_name, tool_paths, ApprovalOverride, DenialReason, Tool, ToolApprovalRequired,
    ToolError, ToolInput,
};

fn strings(items: &[&str]) -> Vec<String> {
    items.iter().map(|s| s.to_string()).collect()
}

fn permissions(policy: Option<&str>, allowed: Option<&[&str]>, deny: Option<&[&str]>) -> PermissionsConfig {
    PermissionsConfig {
        approval_policy: policy.map(|s| s.to_string()),
        allowed_tools: allowed.map(strings),
        deny: deny.map(strings),
    }
}

fn sandbox(mode: Option<&str>, allowed: Option<&[&str]>, blocked: Option<&[&str]>) -> SandboxConfig {
    SandboxConfig {
        mode: mode.map(|s| s.to_string()),
        allowed_paths: allowed.map(strings),
        blocked_paths: blocked.map(strings),
    }
}

fn policy(permissions: Option<PermissionsConfig>, sandbox: Option<SandboxConfig>) -> ToolPolicy {
    ToolPolicy {
        permissions,
        sandbox,
        workspace_root: "/work".to_string(),
        approval_override: ApprovalOverride::Unset,
    }
}

fn read(path: &str) -> ToolInput {
    ToolInput::Read { path: path.to_string() }
}

fn write(path: &str) -> ToolInput {
    ToolInput::Write { path: path.to_string(), content: "x".to_string() }
}

fn grep(pattern: &str, paths: &[&str]) -> ToolInput {
    ToolInput::Grep { pattern: pattern.to_string(), paths: strings(paths) }
}

fn shell(command: &str, args: &[&str]) -> ToolInput {
    ToolInput::Shell { command: command.to_string(), args: strings(args) }
}

fn denial(res: Result<(), ToolError>) -> (DenialReason, String) {
    match res {
        Err(ToolError::Denied(d)) => (d.reason, d.detail),
        other => panic!("expected a denial, got {:?}", other),
    }
}

#[test]
fn policy_without_rules_lets_everything_through() {
    let mut p = ToolPolicy::new("/work".to_string());
    assert!(p.check(&read("a")).is_ok());
    assert!(p.check(&write("/etc/passwd")).is_ok());
    assert!(p.check(&shell("rm", &["-rf", "/"])).is_ok());
    assert_eq!(p.approval_override(), ApprovalOverride::Unset);
}

#[test]
fn allow_list_covers_grep_on_markdown_only() {
    let mut p = policy(Some(permissions(None, Some(&["Read", "Grep(*.md)"]), None)), None);
    assert!(p.check(&grep("NOTE", &["notes.md"])).is_ok());
    let (reason, detail) = denial(p.check(&grep("NOTE", &["notes.rs"])));
    assert_eq!(reason, DenialReason::NotAllowed);
    assert_eq!(detail, "Grep");
    assert!(p.check(&read("anything")).is_ok());
    let (reason, detail) = denial(p.check(&write("notes.md")));
    assert_eq!(reason, DenialReason::NotAllowed);
    assert_eq!(detail, "Write");
}

#[test]
fn not_allowed_message_names_the_tool() {
    let mut p = policy(Some(permissions(None, Some(&["Read", "Grep(*.md)"]), None)), None);
    let err = p.check(&grep("NOTE", &["notes.rs"])).unwrap_err();
    assert_eq!(err.to_string(), "tool not allowed: Grep");
    assert!(err.is_denied());
    assert!(!err.is_approval_required());
}

#[test]
fn deny_rule_wins_over_allow_list() {
    let mut p = policy(
        Some(permissions(None, Some(&["Write", "Read"]), Some(&["Write(secrets/*)"]))),
        None,
    );
    let err = p.check(&write("secrets/key.pem")).unwrap_err();
    assert_eq!(err.to_string(), "permission denied by rule: Write(secrets/*)");
    assert!(p.check(&write("public/key.pem")).is_ok());
    assert!(p.check(&read("secrets/key.pem")).is_ok());
}

#[test]
fn deny_rule_matches_the_resolved_path_too() {
    let mut p = policy(Some(permissions(None, None, Some(&["Read(/work/private/*)"]))), None);
    let (reason, detail) = denial(p.check(&read("private/a.txt")));
    assert_eq!(reason, DenialReason::DenyRule);
    assert_eq!(detail, "Read(/work/private/*)");
    assert!(p.check(&read("public/a.txt")).is_ok());
}

#[test]
fn allow_once_is_used_up_by_one_check() {
    let mut p = policy(Some(permissions(Some("always"), None, None)), None);
    p.set_approval_override(ApprovalOverride::AllowOnce(Tool::Write));
    assert!(p.check(&write("a.txt")).is_ok());
    assert_eq!(p.approval_override(), ApprovalOverride::Unset);
    match p.check(&write("a.txt")) {
        Err(ToolError::ApprovalRequired(required)) => {
            assert_eq!(required.tool, Tool::Write);
            assert_eq!(required.paths, strings(&["a.txt"]));
        }
        other => panic!("expected a request for approval, got {:?}", other),
    }
}

#[test]
fn allow_once_lets_no_other_tool_through() {
    let mut p = policy(Some(permissions(Some("always"), None, None)), None);
    p.set_approval_override(ApprovalOverride::AllowOnce(Tool::Write));
    let err = p.check(&read("a.txt")).unwrap_err();
    assert!(err.is_approval_required());
    assert_eq!(err.to_string(), "permission approval required for tool: Read");
    assert_eq!(p.approval_override(), ApprovalOverride::AllowOnce(Tool::Write));
    assert!(p.check(&write("a.txt")).is_ok());
}

#[test]
fn allow_all_and_deny_all_stay() {
    let mut p = policy(Some(permissions(Some(" Always "), None, None)), None);
    p.set_approval_override(ApprovalOverride::AllowAll);
    assert!(p.check(&write("a")).is_ok());
    assert!(p.check(&read("b")).is_ok());
    assert_eq!(p.approval_override(), ApprovalOverride::AllowAll);
    p.set_approval_override(ApprovalOverride::DenyAll);
    let err = p.check(&read("b")).unwrap_err();
    assert_eq!(err.to_string(), "permission denied by approval override for tool: Read");
    assert!(p.check(&write("a")).is_err());
    assert_eq!(p.approval_override(), ApprovalOverride::DenyAll);
}

#[test]
fn without_kept_answer_always_asks() {
    let mut p = policy(Some(permissions(Some("always"), None, None)), None);
    assert!(p.check(&read("a")).unwrap_err().is_approval_required());
    assert!(p.check(&grep("x", &["a", "b"])).unwrap_err().is_approval_required());
}

#[test]
fn read_only_policy_refuses_writes_and_commands() {
    let mut p = policy(Some(permissions(Some("READ-ONLY"), None, None)), None);
    assert!(p.check(&read("a")).is_ok());
    let err = p.check(&write("a")).unwrap_err();
    assert_eq!(err.to_string(), "permission denied by approval_policy=read-only for tool: Write");
    let err = p.check(&shell("ls", &[])).unwrap_err();
    assert_eq!(err.to_string(), "permission denied by approval_policy=read-only for tool: Shell");
}

#[test]
fn unknown_settings_count_as_unset() {
    assert_eq!(approval_mode(&None), ApprovalMode::Unset);
    assert_eq!(approval_mode(&Some("never".to_string())), ApprovalMode::Unset);
    assert_eq!(approval_mode(&Some("  ALWAYS\n".to_string())), ApprovalMode::Always);
    assert_eq!(approval_mode(&Some("read-only".to_string())), ApprovalMode::ReadOnly);
    assert_eq!(sandbox_mode(&None), SandboxMode::Off);
    assert_eq!(sandbox_mode(&Some("none".to_string())), SandboxMode::Off);
    assert_eq!(sandbox_mode(&Some("Workspace-Write".to_string())), SandboxMode::WorkspaceWrite);
    assert_eq!(sandbox_mode(&Some(" read-only ".to_string())), SandboxMode::ReadOnly);
}

#[test]
fn workspace_write_keeps_writes_inside_the_root() {
    let mut p = policy(None, Some(sandbox(Some("workspace-write"), None, None)));
    let err = p.check(&write("/etc/passwd")).unwrap_err();
    assert_eq!(err.to_string(), "sandbox denies write outside workspace: /etc/passwd");
    assert!(p.check(&write("src/a.txt")).is_ok());
    assert!(p.check(&write("/work/src/a.txt")).is_ok());
    assert!(p.check(&read("/etc/passwd")).is_ok());
}

#[test]
fn workspace_write_refuses_the_shell() {
    let mut p = policy(None, Some(sandbox(Some("workspace-write"), None, None)));
    let err = p.check(&shell("ls", &["-l"])).unwrap_err();
    assert_eq!(err.to_string(), "sandbox denies shell in workspace-write mode");
    let mut p = policy(None, Some(sandbox(Some("workspace-write"), Some(&["*"]), None)));
    assert!(p.check(&shell("ls", &[])).is_err());
}

#[test]
fn sandbox_without_mode_lets_the_shell_through() {
    let mut p = policy(None, Some(sandbox(None, None, Some(&["/etc/*"]))));
    assert!(p.check(&shell("ls", &["/etc"])).is_ok());
    let mut p = policy(None, Some(sandbox(Some("none"), None, None)));
    assert!(p.check(&shell("ls", &[])).is_ok());
}

#[test]
fn read_only_sandbox_refuses_writes_and_commands() {
    let mut p = policy(None, Some(sandbox(Some("read-only"), None, None)));
    let err = p.check(&write("a")).unwrap_err();
    assert_eq!(err.to_string(), "sandbox denies write in read-only mode: Write");
    let err = p.check(&shell("ls", &[])).unwrap_err();
    assert_eq!(err.to_string(), "sandbox denies write in read-only mode: Shell");
    assert!(p.check(&read("a")).is_ok());
}

#[test]
fn blocked_paths_are_refused_in_every_mode() {
    let mut p = policy(None, Some(sandbox(None, None, Some(&["/work/secret/*", " ./target/* "]))));
    let err = p.check(&read("secret/key")).unwrap_err();
    assert_eq!(err.to_string(), "sandbox blocked path: /work/secret/key");
    let (reason, detail) = denial(p.check(&read("target/debug")));
    assert_eq!(reason, DenialReason::BlockedPath);
    assert_eq!(detail, "/work/target/debug");
    assert!(p.check(&read("src/main.rs")).is_ok());
}

#[test]
fn allowed_paths_take_the_place_of_the_root() {
    let mut p = policy(None, Some(sandbox(Some("workspace-write"), Some(&["/tmp/*"]), None)));
    assert!(p.check(&write("/tmp/out.txt")).is_ok());
    let err = p.check(&write("src/a.txt")).unwrap_err();
    assert_eq!(err.to_string(), "sandbox path not allowed: /work/src/a.txt");
}

#[test]
fn every_path_of_a_request_is_checked() {
    let mut p = policy(None, Some(sandbox(None, Some(&["/work/docs/*"]), None)));
    assert!(p.check(&grep("x", &["docs/a.md", "docs/b.md"])).is_ok());
    let err = p.check(&grep("x", &["docs/a.md", "src/b.rs", "src/c.rs"])).unwrap_err();
    assert_eq!(err.to_string(), "sandbox path not allowed: /work/src/b.rs");
}

#[test]
fn permission_pass_comes_before_the_sandbox() {
    let mut p = policy(
        Some(permissions(None, None, Some(&["Write"]))),
        Some(sandbox(Some("read-only"), None, None)),
    );
    let err = p.check(&write("a")).unwrap_err();
    assert_eq!(err.to_string(), "permission denied by rule: Write");
}

#[test]
fn used_up_answer_stays_used_up_when_a_rule_refuses() {
    let mut p = policy(Some(permissions(Some("always"), None, Some(&["Write(*.lock)"]))), None);
    p.set_approval_override(ApprovalOverride::AllowOnce(Tool::Write));
    assert!(p.check(&write("Cargo.lock")).unwrap_err().is_denied());
    assert_eq!(p.approval_override(), ApprovalOverride::Unset);
}

#[test]
fn rule_names_ignore_case_and_know_bash() {
    let none: Vec<String> = Vec::new();
    assert!(rule_matches("read", Tool::Read, &none));
    assert!(rule_matches("  READ  ", Tool::Read, &none));
    assert!(rule_matches("Bash", Tool::Shell, &none));
    assert!(rule_matches("shell", Tool::Shell, &none));
    assert!(!rule_matches("bash", Tool::Read, &none));
    assert!(!rule_matches("", Tool::Read, &none));
    assert!(!rule_matches("   ", Tool::Read, &none));
    assert!(!rule_matches("Reader", Tool::Read, &none));
}

#[test]
fn rule_patterns_are_tried_on_every_target() {
    let targets = strings(&["NOTE", "notes.md", "/work/notes.md"]);
    assert!(rule_matches("Grep(*.md)", Tool::Grep, &targets));
    assert!(rule_matches("Grep( /work/* )", Tool::Grep, &targets));
    assert!(rule_matches("grep (NOTE)", Tool::Grep, &targets));
    assert!(!rule_matches("Grep(*.rs)", Tool::Grep, &targets));
    assert!(!rule_matches("Grep(*.md)", Tool::Grep, &Vec::new()));
    assert!(!rule_matches("Read(*.md)", Tool::Grep, &targets));
    assert!(!rule_matches("Grep()", Tool::Grep, &targets));
    assert!(rule_matches("Grep()", Tool::Grep, &strings(&[""])));
}

#[test]
fn rule_without_closing_bracket_is_all_name() {
    let targets = strings(&["a"]);
    assert!(!rule_matches("Read(a", Tool::Read, &targets));
    assert!(!rule_matches("Read)", Tool::Read, &targets));
    assert!(rule_matches("Read(a)", Tool::Read, &targets));
    assert!(rule_matches("Read((a)", Tool::Read, &strings(&["(a"])));
}

#[test]
fn targets_of_each_tool() {
    let root = Some("/work");
    assert_eq!(tool_match_targets(&read("a.md"), root), strings(&["a.md", "/work/a.md"]));
    assert_eq!(tool_match_targets(&read("a.md"), None), strings(&["a.md", "a.md"]));
    assert_eq!(tool_match_targets(&write("/abs/a.md"), root), strings(&["/abs/a.md", "/abs/a.md"]));
    assert_eq!(tool_match_targets(&shell("git", &["status", "-s"]), root), strings(&["git status -s"]));
    assert_eq!(tool_match_targets(&shell("ls", &[]), root), strings(&["ls"]));
    assert_eq!(
        tool_match_targets(&grep("NOTE", &["a", "/b"]), root),
        strings(&["NOTE", "a", "/work/a", "/b", "/b"])
    );
    assert_eq!(tool_match_targets(&grep("NOTE", &["a"]), None), strings(&["NOTE", "a"]));
    let glob = ToolInput::Glob { pattern: "*.rs".to_string(), root: Some("src".to_string()) };
    assert_eq!(tool_match_targets(&glob, root), strings(&["*.rs", "src", "/work/src"]));
    assert_eq!(tool_match_targets(&glob, None), strings(&["*.rs", "src"]));
    let glob = ToolInput::Glob { pattern: "*.rs".to_string(), root: None };
    assert_eq!(tool_match_targets(&glob, root), strings(&["*.rs"]));
}

#[test]
fn shell_rules_match_the_command_line() {
    assert!(rule_matches_tool("Bash(git *)", &shell("git", &["status"]), Some("/work")));
    assert!(!rule_matches_tool("Bash(git *)", &shell("rm", &["-rf"]), Some("/work")));
    assert!(!rule_matches_tool("Bash(git *)", &shell("git", &[]), Some("/work")));
}

#[test]
fn kinds_names_and_paths() {
    assert_eq!(tool_kind(&read("a")), Tool::Read);
    assert_eq!(tool_kind(&shell("a", &[])), Tool::Shell);
    assert_eq!(tool_name(&write("a")), "Write");
    assert_eq!(tool_name(&grep("a", &[])), "Grep");
    assert_eq!(tool_paths(&read("a")), strings(&["a"]));
    assert_eq!(tool_paths(&grep("p", &["a", "b"])), strings(&["a", "b"]));
    assert_eq!(tool_paths(&shell("ls", &["a"])), Vec::<String>::new());
    let glob = ToolInput::Glob { pattern: "*".to_string(), root: Some("src".to_string()) };
    assert_eq!(tool_paths(&glob), strings(&["src"]));
    let glob = ToolInput::Glob { pattern: "*".to_string(), root: None };
    assert_eq!(tool_paths(&glob), Vec::<String>::new());
    let required = ToolApprovalRequired::new(&grep("p", &["a", "b"]));
    assert_eq!(required.tool, Tool::Grep);
    assert_eq!(required.paths, strings(&["a", "b"]));
    assert_eq!(required.to_string(), "permission approval required for tool: Grep");
    let request = required.request();
    assert_eq!(request.tool, Tool::Grep);
    assert_eq!(request.paths, strings(&["a", "b"]));
}

#[test]
fn paths_are_resolved_against_the_root() {
    assert_eq!(resolve_path("/work", "a/b.txt"), "/work/a/b.txt");
    assert_eq!(resolve_path("/work", "/etc/passwd"), "/etc/passwd");
    assert_eq!(resolve_path("/work/", "a"), "/work/a");
    let inside = resolve_target("/work", "src/main.rs");
    assert_eq!(inside.absolute, "/work/src/main.rs");
    assert_eq!(inside.relative, Some("./src/main.rs".to_string()));
    assert!(inside.inside_workspace);
    let outside = resolve_target("/work", "/workshop/a");
    assert_eq!(outside.absolute, "/workshop/a");
    assert_eq!(outside.relative, None);
    assert!(!outside.inside_workspace);
}

#[test]
fn path_limits_for_given_resolutions() {
    let inside = ResolvedPath {
        absolute: "/work/a.txt".to_string(),
        relative: Some("./a.txt".to_string()),
        inside_workspace: true,
    };
    let outside = ResolvedPath {
        absolute: "/tmp/a.txt".to_string(),
        relative: None,
        inside_workspace: false,
    };
    let open = sandbox(None, None, None);
    assert!(enforce_resolved_path(&inside, &open, true).is_ok());
    assert!(enforce_resolved_path(&outside, &open, false).is_ok());
    let (reason, detail) = denial(enforce_resolved_path(&outside, &open, true));
    assert_eq!(reason, DenialReason::OutsideWorkspace);
    assert_eq!(detail, "/tmp/a.txt");
    let blocked = sandbox(None, Some(&["*"]), Some(&["./a.*"]));
    assert_eq!(denial(enforce_resolved_path(&inside, &blocked, false)).0, DenialReason::BlockedPath);
    assert!(enforce_resolved_path(&outside, &blocked, true).is_ok());
    let listed = sandbox(None, Some(&["/work/*"]), None);
    assert_eq!(denial(enforce_resolved_path(&outside, &listed, false)).0, DenialReason::PathNotAllowed);
    assert!(path_matches_any(&inside, &strings(&["nothing", " ./* "])));
    assert!(!path_matches_any(&outside, &strings(&["./*"])));
    assert!(!path_matches_any(&inside, &Vec::new()));
}

#[test]
fn policy_from_config_starts_without_kept_answer() {
    let config = Config {
        model: ModelConfig::default(),
        permissions: Some(permissions(Some("always"), Some(&["Read"]), None)),
        sandbox: Some(sandbox(Some("read-only"), None, None)),
    };
    let mut p = ToolPolicy::from_config(&config, "/work".to_string());
    assert_eq!(p.approval_override(), ApprovalOverride::Unset);
    assert_eq!(p.workspace_root, "/work");
    assert!(p.check(&read("a")).unwrap_err().is_approval_required());
    let mut copy = p.duplicate();
    copy.set_approval_override(ApprovalOverride::AllowAll);
    assert!(copy.check(&read("a")).is_ok());
    assert!(copy.check(&write("a")).unwrap_err().is_denied());
    assert_eq!(p.approval_override(), ApprovalOverride::Unset);
    let plain = Config::default();
    let mut p = ToolPolicy::from_config(&plain, "/work".to_string());
    assert!(p.check(&shell("ls", &[])).is_ok());
}
