//! Rule strings of the permission lists: `Tool` or `Tool(pattern)`.
//!
//! A rule without a pattern covers every request for its tool. A rule with
//! a pattern covers a request when the pattern matches one of the strings
//! that the request is about.

use crate::matcher::{glob_matches, wildcard_match_chars};
use crate::paths::{resolve_path, spec_resolve_path};
use crate::text::{
    ascii_lowercase, chars_eq, chars_eq_str, chars_to_string, clone_string, find_char_from,
    index_of_from, join_strings, lemma_index_of_from, lemma_string_views_push, slice_chars,
    spec_ascii_lowercase, spec_join, spec_trim, str_chars, string_views, trim,
};
use crate::tools::{
    spec_tool_name, tool_display_name, tool_kind, spec_tool_kind, Tool, ToolInput, ToolInputView,
};
use vstd::prelude::*;

verus! {

/// The two parts of a rule string.
pub struct RuleParts {
    pub name: Seq<char>,
    pub pattern: Option<Seq<char>>,
}

/// Splits a rule that has no white space around it. The rule has a pattern
/// when it holds a `(` and ends in `)`: the name stands before the first
/// `(`, the pattern between it and the last character.
pub open spec fn spec_parse_rule(rule: Seq<char>) -> RuleParts {
    let open = index_of_from(rule, '(', 0);
    if open < rule.len() && rule.last() == ')' {
        RuleParts {
            name: spec_trim(rule.subrange(0, open)),
            pattern: Some(spec_trim(rule.subrange(open + 1, rule.len() - 1))),
        }
    } else {
        RuleParts { name: rule, pattern: None }
    }
}

/// Whether a rule's name stands for the tool: letter case does not count,
/// and `bash` is another name of the shell.
pub open spec fn spec_rule_names_tool(name: Seq<char>, tool: Tool) -> bool {
    let name = spec_ascii_lowercase(name);
    let tool_name = spec_ascii_lowercase(spec_tool_name(tool));
    name == tool_name || (name == "bash"@ && tool_name == "shell"@)
}

/// Whether the pattern matches one of the targets.
pub open spec fn spec_any_target_matches(pattern: Seq<char>, targets: Seq<Seq<char>>) -> bool {
    exists|i: int| 0 <= i < targets.len() && glob_matches(pattern, #[trigger] targets[i])
}

/// Whether the rule covers a request for `tool` that is about `targets`.
pub open spec fn spec_rule_matches(rule: Seq<char>, tool: Tool, targets: Seq<Seq<char>>) -> bool {
    let rule = spec_trim(rule);
    let parts = spec_parse_rule(rule);
    &&& rule.len() > 0
    &&& spec_rule_names_tool(parts.name, tool)
    &&& match parts.pattern {
        None => true,
        Some(pattern) => spec_any_target_matches(pattern, targets),
    }
}

pub fn rule_names_tool(name: &Vec<char>, tool: Tool) -> (b: bool)
    ensures
        b == spec_rule_names_tool(name@, tool),
{
    let name_lower = ascii_lowercase(name);
    let tool_chars = str_chars(tool_display_name(tool));
    let tool_lower = ascii_lowercase(&tool_chars);
    chars_eq(&name_lower, &tool_lower) || (chars_eq_str(&name_lower, "bash") && chars_eq_str(
        &tool_lower,
        "shell",
    ))
}

pub fn any_target_matches(pattern: &Vec<char>, targets: &Vec<String>) -> (b: bool)
    ensures
        b == spec_any_target_matches(pattern@, string_views(targets@)),
{
    let mut i: usize = 0;
    while i < targets.len()
        invariant
            i <= targets.len(),
            forall|k: int| 0 <= k < i ==> !glob_matches(pattern@, #[trigger] string_views(targets@)[k]),
        decreases targets.len() - i,
    {
        let target = str_chars(targets[i].as_str());
        if wildcard_match_chars(pattern, &target) {
            assert(glob_matches(pattern@, string_views(targets@)[i as int]));
            return true;
        }
        i += 1;
    }
    false
}

/// Whether the rule covers a request for `tool` that is about `targets`.
pub fn rule_matches(rule: &str, tool: Tool, targets: &Vec<String>) -> (b: bool)
    ensures
        b == spec_rule_matches(rule@, tool, string_views(targets@)),
{
    let raw = str_chars(rule);
    let rule = trim(&raw);
    if rule.len() == 0 {
        return false;
    }
    let open = find_char_from(&rule, '(', 0);
    if open < rule.len() && rule[rule.len() - 1] == ')' {
        proof {
            lemma_index_of_from(rule@, '(', 0);
        }
        let name = trim(&slice_chars(&rule, 0, open));
        if !rule_names_tool(&name, tool) {
            return false;
        }
        let pattern = trim(&slice_chars(&rule, open + 1, rule.len() - 1));
        any_target_matches(&pattern, targets)
    } else {
        rule_names_tool(&rule, tool)
    }
}

/// What one path of a request adds to the targets: the path as written
/// and, where there is a workspace root, the path resolved against it.
pub open spec fn spec_path_targets(path: Seq<char>, root: Option<Seq<char>>) -> Seq<Seq<char>> {
    match root {
        Some(root) => seq![path, spec_resolve_path(root, path)],
        None => seq![path],
    }
}

pub open spec fn spec_all_path_targets(paths: Seq<Seq<char>>, root: Option<Seq<char>>) -> Seq<
    Seq<char>,
>
    decreases paths.len(),
{
    if paths.len() == 0 {
        Seq::empty()
    } else {
        spec_all_path_targets(paths.drop_last(), root) + spec_path_targets(paths.last(), root)
    }
}

/// The command line of a shell request: the command, then each argument
/// after one space.
pub open spec fn spec_command_line(command: Seq<char>, args: Seq<Seq<char>>) -> Seq<char> {
    if args.len() == 0 {
        command
    } else {
        command + seq![' '] + spec_join(args, seq![' '])
    }
}

/// The strings that a request is about, against which rule patterns are
/// tried. Every path is tried as written and as resolved against the
/// workspace root; the root of a glob is such a path.
pub open spec fn spec_match_targets(input: ToolInputView, root: Option<Seq<char>>) -> Seq<
    Seq<char>,
> {
    match input {
        ToolInputView::Read { path } => seq![
            path,
            match root {
                Some(root) => spec_resolve_path(root, path),
                None => path,
            },
        ],
        ToolInputView::Write { path, .. } => seq![
            path,
            match root {
                Some(root) => spec_resolve_path(root, path),
                None => path,
            },
        ],
        ToolInputView::Shell { command, args } => seq![spec_command_line(command, args)],
        ToolInputView::Grep { pattern, paths } => seq![pattern] + spec_all_path_targets(
            paths,
            root,
        ),
        ToolInputView::Glob { pattern, root: glob_root } => match glob_root {
            Some(glob_root) => seq![pattern] + spec_path_targets(glob_root, root),
            None => seq![pattern],
        },
    }
}

fn file_targets(path: &String, root: Option<&str>) -> (out: Vec<String>)
    ensures
        string_views(out@) == seq![
            path@,
            match opt_str_view(root) {
                Some(root) => spec_resolve_path(root, path@),
                None => path@,
            },
        ],
{
    let mut out: Vec<String> = Vec::new();
    let resolved = match root {
        Some(root) => resolve_path(root, path.as_str()),
        None => clone_string(path),
    };
    out.push(clone_string(path));
    out.push(resolved);
    assert(string_views(out@) =~= seq![path@, resolved@]);
    out
}

/// The view of an optional string slice.
pub open spec fn opt_str_view(s: Option<&str>) -> Option<Seq<char>> {
    match s {
        Some(s) => Some(s@),
        None => None,
    }
}

/// The strings that a request is about.
pub fn tool_match_targets(input: &ToolInput, root: Option<&str>) -> (out: Vec<String>)
    ensures
        string_views(out@) == spec_match_targets(input@, opt_str_view(root)),
{
    match input {
        ToolInput::Read { path } => file_targets(path, root),
        ToolInput::Write { path, .. } => file_targets(path, root),
        ToolInput::Shell { command, args } => {
            let mut line = str_chars(command.as_str());
            if args.len() > 0 {
                line.push(' ');
                let joined = join_strings(args, " ");
                proof {
                    reveal_strlit(" ");
                    assert(" "@ =~= seq![' ']);
                }
                crate::text::extend_chars(&mut line, &joined);
            }
            assert(line@ =~= spec_command_line(command@, string_views(args@)));
            let mut out: Vec<String> = Vec::new();
            let line = chars_to_string(&line);
            out.push(line);
            assert(string_views(out@) =~= seq![line@]);
            out
        },
        ToolInput::Grep { pattern, paths } => {
            let mut out: Vec<String> = Vec::new();
            let first = clone_string(pattern);
            out.push(first);
            assert(string_views(out@) =~= seq![pattern@] + spec_all_path_targets(
                string_views(paths@).take(0),
                opt_str_view(root),
            ));
            let mut i: usize = 0;
            while i < paths.len()
                invariant
                    i <= paths.len(),
                    string_views(out@) == seq![pattern@] + spec_all_path_targets(
                        string_views(paths@).take(i as int),
                        opt_str_view(root),
                    ),
                decreases paths.len() - i,
            {
                let ghost views = string_views(paths@);
                let ghost before = out@;
                assert(views.take(i + 1).drop_last() =~= views.take(i as int));
                assert(views.take(i + 1).last() == paths@[i as int]@);
                let copy = clone_string(&paths[i]);
                out.push(copy);
                proof {
                    lemma_string_views_push(before, copy);
                }
                if let Some(root) = root {
                    let ghost mid = out@;
                    let resolved = resolve_path(root, paths[i].as_str());
                    out.push(resolved);
                    proof {
                        lemma_string_views_push(mid, resolved);
                    }
                }
                assert(string_views(out@) =~= seq![pattern@] + spec_all_path_targets(
                    views.take(i + 1),
                    opt_str_view(root),
                ));
                i += 1;
            }
            assert(string_views(paths@).take(paths.len() as int) =~= string_views(paths@));
            out
        },
        ToolInput::Glob { pattern, root: glob_root } => {
            let mut out: Vec<String> = Vec::new();
            let first = clone_string(pattern);
            out.push(first);
            match glob_root {
                Some(glob_root) => {
                    let second = clone_string(glob_root);
                    out.push(second);
                    match root {
                        Some(root) => {
                            let third = resolve_path(root, glob_root.as_str());
                            out.push(third);
                            assert(string_views(out@) =~= seq![pattern@] + seq![
                                glob_root@,
                                third@,
                            ]);
                        },
                        None => {
                            assert(string_views(out@) =~= seq![pattern@] + seq![glob_root@]);
                        },
                    }
                },
                None => {
                    assert(string_views(out@) =~= seq![pattern@]);
                },
            }
            out
        },
    }
}

/// Whether the rule covers the request, whose paths are also tried in
/// their form resolved against `root`.
pub fn rule_matches_tool(rule: &str, input: &ToolInput, root: Option<&str>) -> (b: bool)
    ensures
        b == spec_rule_matches(
            rule@,
            spec_tool_kind(input@),
            spec_match_targets(input@, opt_str_view(root)),
        ),
{
    let targets = tool_match_targets(input, root);
    rule_matches(rule, tool_kind(input), &targets)
}

} // verus!
