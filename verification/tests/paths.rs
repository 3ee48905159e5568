use tengu::config::{PermissionsConfig, SandboxConfig};
use tengu::paths::{
    leads, normalize, parts_path, resolve_parts, resolve_path, resolve_target, PartKind, PathPart,
};
use tengu::policy::ToolPolicy;
use tengu::rules::tool_match_targets;
use tengu::tools::{ApprovalOverride, DenialReason, ToolError, ToolInput};

fn part(kind: PartKind, text: &str) -> PathPart {
    PathPart { kind, text: text.to_string() }
}

fn root() -> PathPart {
    part(PartKind::Root, "/")
}

fn name(text: &str) -> PathPart {
    part(PartKind::Name, text)
}

fn up() -> PathPart {
    part(PartKind::Parent, "..")
}

fn here() -> PathPart {
    part(PartKind::Current, ".")
}

fn shape(parts: &[PathPart]) -> Vec<(PartKind, String)> {
    parts.iter().map(|p| (p.kind, p.text.clone())).collect()
}

fn workspace_write(root: &str, blocked: Option<Vec<String>>) -> ToolPolicy {
    ToolPolicy {
        permissions: None,
        sandbox: Some(SandboxConfig {
            mode: Some("workspace-write".to_string()),
            allowed_paths: None,
            blocked_paths: blocked,
        }),
        workspace_root: root.to_string(),
        approval_override: ApprovalOverride::Unset,
    }
}

fn write(path: &str) -> ToolInput {
    ToolInput::Write { path: path.to_string(), content: "x".to_string() }
}

fn refusal(res: Result<(), ToolError>) -> (DenialReason, String) {
    match res {
        Err(ToolError::Denied(d)) => (d.reason, d.detail),
        other => panic!("no refusal: {:?}", other),
    }
}

#[test]
fn dots_are_resolved_from_left_to_right() {
    let parts = vec![root(), name("ws"), here(), name("a"), up(), name("b")];
    assert_eq!(shape(&normalize(&parts)), shape(&[root(), name("ws"), name("b")]));
    assert_eq!(shape(&normalize(&[up(), up(), name("a")].to_vec())), shape(&[up(), up(), name("a")]));
    assert_eq!(shape(&normalize(&[name("a"), up(), up()].to_vec())), shape(&[up()]));
    assert_eq!(shape(&normalize(&[root(), up(), up(), name("etc")].to_vec())), shape(&[root(), name("etc")]));
    assert_eq!(shape(&normalize(&[here()].to_vec())), shape(&[]));
    assert_eq!(shape(&normalize(&Vec::new())), shape(&[]));
    let drive = part(PartKind::Prefix, "C:");
    assert_eq!(
        shape(&normalize(&[drive.clone(), up(), name("a")].to_vec())),
        shape(&[drive, up(), name("a")])
    );
}

#[test]
fn resolving_twice_changes_nothing_more() {
    let parts = vec![root(), name("a"), up(), up(), name("b"), here(), name("c"), up()];
    let once = normalize(&parts);
    assert_eq!(shape(&normalize(&once)), shape(&once));
    assert_eq!(shape(&once), shape(&[root(), name("b")]));
}

#[test]
fn leading_components_are_compared_whole() {
    let base = vec![root(), name("ws")];
    assert!(leads(&base, &vec![root(), name("ws")]));
    assert!(leads(&base, &vec![root(), name("ws"), name("a")]));
    assert!(!leads(&base, &vec![root(), name("wsx"), name("a")]));
    assert!(!leads(&base, &vec![root()]));
    assert!(!leads(&base, &vec![name("ws"), name("a")]));
    assert!(!leads(&base, &vec![root(), part(PartKind::Parent, "ws")]));
    assert!(leads(&Vec::new(), &base));
}

#[test]
fn components_are_joined_into_a_path() {
    let parts = vec![root(), name("ws"), name("a.txt")];
    assert_eq!(parts_path(&parts, 0), "/ws/a.txt");
    assert_eq!(parts_path(&parts, 1), "ws/a.txt");
    assert_eq!(parts_path(&parts, 2), "a.txt");
    assert_eq!(parts_path(&parts, 3), "");
}

#[test]
fn a_climbing_path_is_outside_for_given_components() {
    let base = vec![root(), name("ws")];
    let out = resolve_parts(&base, &vec![root(), name("ws"), up(), name("evil.txt")]);
    assert_eq!(out.absolute, "/evil.txt");
    assert_eq!(out.relative, None);
    assert!(!out.inside_workspace);
    let back = resolve_parts(&base, &vec![root(), name("ws"), up(), name("ws"), name("a")]);
    assert_eq!(back.absolute, "/ws/a");
    assert_eq!(back.relative, Some("./a".to_string()));
    assert!(back.inside_workspace);
    let down = resolve_parts(&base, &vec![root(), name("ws"), name("src"), name("a.rs")]);
    assert_eq!(down.absolute, "/ws/src/a.rs");
    assert_eq!(down.relative, Some("./src/a.rs".to_string()));
    assert!(down.inside_workspace);
}

#[test]
fn targets_are_resolved_in_the_text() {
    let climbing = resolve_target("/ws", "../evil.txt");
    assert_eq!(climbing.absolute, "/evil.txt");
    assert_eq!(climbing.relative, None);
    assert!(!climbing.inside_workspace);
    let deep = resolve_target("/ws", "a/b/../../../etc/passwd");
    assert_eq!(deep.absolute, "/etc/passwd");
    assert!(!deep.inside_workspace);
    let absolute = resolve_target("/ws", "/ws/../other/x");
    assert_eq!(absolute.absolute, "/other/x");
    assert!(!absolute.inside_workspace);
    let detour = resolve_target("/ws", "a/../b.txt");
    assert_eq!(detour.absolute, "/ws/b.txt");
    assert_eq!(detour.relative, Some("./b.txt".to_string()));
    assert!(detour.inside_workspace);
    let dotted = resolve_target("/ws", "./src/./main.rs");
    assert_eq!(dotted.absolute, "/ws/src/main.rs");
    assert_eq!(dotted.relative, Some("./src/main.rs".to_string()));
    let itself = resolve_target("/ws", ".");
    assert_eq!(itself.absolute, "/ws");
    assert_eq!(itself.relative, Some("./".to_string()));
    assert!(itself.inside_workspace);
    let above = resolve_target("/ws", "..");
    assert_eq!(above.absolute, "/");
    assert!(!above.inside_workspace);
    let dotted_root = resolve_target("/srv/../ws/", "a");
    assert_eq!(dotted_root.absolute, "/ws/a");
    assert!(dotted_root.inside_workspace);
    assert_eq!(resolve_path("/ws", "x/../../evil.txt"), "/evil.txt");
    assert_eq!(resolve_path("/ws", "/a//b/"), "/a/b");
}

#[test]
fn a_write_that_climbs_out_of_the_workspace_is_refused() {
    let mut policy = workspace_write("/ws", None);
    let (reason, detail) = refusal(policy.check(&write("../evil.txt")));
    assert_eq!(reason, DenialReason::OutsideWorkspace);
    assert_eq!(detail, "/evil.txt");
    assert_eq!(refusal(policy.check(&write("a/../../evil.txt"))).0, DenialReason::OutsideWorkspace);
    assert_eq!(refusal(policy.check(&write("/ws/../evil.txt"))).0, DenialReason::OutsideWorkspace);
    assert_eq!(refusal(policy.check(&write("/etc/passwd"))).0, DenialReason::OutsideWorkspace);
    assert!(policy.check(&write("notes.txt")).is_ok());
    assert!(policy.check(&write("a/../notes.txt")).is_ok());
    assert!(policy.check(&write("/ws/src/main.rs")).is_ok());
    assert_eq!(policy.approval_override(), ApprovalOverride::Unset);
}

#[test]
fn a_detour_does_not_pass_a_blocked_path() {
    let mut policy = workspace_write("/ws", Some(vec!["/ws/secret/*".to_string()]));
    let (reason, detail) = refusal(policy.check(&write("pub/../secret/key")));
    assert_eq!(reason, DenialReason::BlockedPath);
    assert_eq!(detail, "/ws/secret/key");
    let read = ToolInput::Read { path: "./pub/../secret/key".to_string() };
    assert_eq!(refusal(policy.check(&read)).0, DenialReason::BlockedPath);
    assert!(policy.check(&write("pub/key")).is_ok());
}

#[test]
fn a_detour_does_not_pass_a_deny_rule() {
    let mut policy = ToolPolicy {
        permissions: Some(PermissionsConfig {
            approval_policy: None,
            allowed_tools: None,
            deny: Some(vec!["Write(/ws/secret/*)".to_string()]),
        }),
        sandbox: None,
        workspace_root: "/ws".to_string(),
        approval_override: ApprovalOverride::Unset,
    };
    let (reason, detail) = refusal(policy.check(&write("pub/../secret/key")));
    assert_eq!(reason, DenialReason::DenyRule);
    assert_eq!(detail, "Write(/ws/secret/*)");
    assert!(policy.check(&write("pub/key")).is_ok());
    let targets = tool_match_targets(&write("pub/../secret/key"), Some("/ws"));
    assert_eq!(targets, vec!["pub/../secret/key".to_string(), "/ws/secret/key".to_string()]);
}

#[test]
fn the_root_of_a_glob_is_tried_in_both_forms() {
    let mut policy = ToolPolicy {
        permissions: Some(PermissionsConfig {
            approval_policy: None,
            allowed_tools: None,
            deny: Some(vec!["Glob(/ws/secret*)".to_string()]),
        }),
        sandbox: None,
        workspace_root: "/ws".to_string(),
        approval_override: ApprovalOverride::Unset,
    };
    let hidden = ToolInput::Glob { pattern: "*".to_string(), root: Some("pub/../secret".to_string()) };
    assert_eq!(refusal(policy.check(&hidden)).0, DenialReason::DenyRule);
    let open = ToolInput::Glob { pattern: "*".to_string(), root: Some("pub".to_string()) };
    assert!(policy.check(&open).is_ok());
}
