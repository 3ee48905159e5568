//! The help for the commands that begin with a slash, and the words of the
//! approval prompt.

use crate::text::{
    chars_to_string, extend_chars, extend_str, join_rows, lemma_row_views_push, push_decimal,
    row_views, spec_join, spec_starts_with, starts_with, str_chars, string_views, decimal,
};
use crate::tools::{
    spec_tool_name, tool_display_name, ToolApprovalDecision, ToolApprovalRequest,
    ToolApprovalView,
};
use vstd::prelude::*;

verus! {

/// A command and what it does, in a few words.
#[derive(Debug, Clone, Copy)]
pub struct SlashCommandHelp {
    pub cmd: &'static str,
    pub desc_en: &'static str,
}

pub struct HelpView {
    pub cmd: Seq<char>,
    pub desc: Seq<char>,
}

impl View for SlashCommandHelp {
    type V = HelpView;

    open spec fn view(&self) -> HelpView {
        HelpView { cmd: self.cmd@, desc: self.desc_en@ }
    }
}

pub open spec fn help_views(items: Seq<SlashCommandHelp>) -> Seq<HelpView> {
    Seq::new(items.len(), |i: int| items[i]@)
}

/// The commands, in the order in which the help shows them.
pub open spec fn spec_slash_help_items() -> Seq<HelpView> {
    seq![
        HelpView { cmd: "/new"@, desc: "Add a new working session"@ },
        HelpView { cmd: "/clear"@, desc: "Clear conversation history"@ },
        HelpView { cmd: "/resume"@, desc: "List or resume sessions"@ },
        HelpView { cmd: "/resume --last"@, desc: "Resume latest session"@ },
        HelpView { cmd: "/fork"@, desc: "Fork latest session"@ },
        HelpView { cmd: "/save <path>"@, desc: "Save latest session"@ },
        HelpView { cmd: "/load <path>"@, desc: "Load session from path"@ },
        HelpView { cmd: "/model"@, desc: "Show model name"@ },
        HelpView { cmd: "/approvals"@, desc: "Show approval policy"@ },
        HelpView { cmd: "/status"@, desc: "Show current status"@ },
        HelpView { cmd: "/tools"@, desc: "List built-in tools"@ },
        HelpView { cmd: "/mcp"@, desc: "List MCP servers"@ },
        HelpView { cmd: "/diff"@, desc: "Show git diff"@ },
        HelpView { cmd: "/commit <msg>"@, desc: "Create git commit"@ },
        HelpView { cmd: "/pr [args]"@, desc: "gh pr create (pass-through args)"@ },
        HelpView { cmd: "/editor [path]"@, desc: "Open external editor"@ },
        HelpView { cmd: "/help"@, desc: "Show help"@ },
        HelpView { cmd: "/exit, /quit"@, desc: "Show exit hint"@ },
    ]
}

pub fn slash_help_items() -> (items: Vec<SlashCommandHelp>)
    ensures
        help_views(items@) == spec_slash_help_items(),
{
    let mut items: Vec<SlashCommandHelp> = Vec::new();
    items.push(SlashCommandHelp { cmd: "/new", desc_en: "Add a new working session" });
    items.push(SlashCommandHelp { cmd: "/clear", desc_en: "Clear conversation history" });
    items.push(SlashCommandHelp { cmd: "/resume", desc_en: "List or resume sessions" });
    items.push(SlashCommandHelp { cmd: "/resume --last", desc_en: "Resume latest session" });
    items.push(SlashCommandHelp { cmd: "/fork", desc_en: "Fork latest session" });
    items.push(SlashCommandHelp { cmd: "/save <path>", desc_en: "Save latest session" });
    items.push(SlashCommandHelp { cmd: "/load <path>", desc_en: "Load session from path" });
    items.push(SlashCommandHelp { cmd: "/model", desc_en: "Show model name" });
    items.push(SlashCommandHelp { cmd: "/approvals", desc_en: "Show approval policy" });
    items.push(SlashCommandHelp { cmd: "/status", desc_en: "Show current status" });
    items.push(SlashCommandHelp { cmd: "/tools", desc_en: "List built-in tools" });
    items.push(SlashCommandHelp { cmd: "/mcp", desc_en: "List MCP servers" });
    items.push(SlashCommandHelp { cmd: "/diff", desc_en: "Show git diff" });
    items.push(SlashCommandHelp { cmd: "/commit <msg>", desc_en: "Create git commit" });
    items.push(SlashCommandHelp { cmd: "/pr [args]", desc_en: "gh pr create (pass-through args)" });
    items.push(SlashCommandHelp { cmd: "/editor [path]", desc_en: "Open external editor" });
    items.push(SlashCommandHelp { cmd: "/help", desc_en: "Show help" });
    items.push(SlashCommandHelp { cmd: "/exit, /quit", desc_en: "Show exit hint" });
    assert(help_views(items@) =~= spec_slash_help_items());
    items
}

/// The text with spaces after it up to the given width; a longer text
/// stays as it is.
pub open spec fn spec_pad_right(text: Seq<char>, width: int) -> Seq<char> {
    if text.len() >= width {
        text
    } else {
        text + Seq::new((width - text.len()) as nat, |i: int| ' ')
    }
}

/// One line of help: the command in a column fourteen wide, then what it
/// does.
pub open spec fn spec_help_line(item: HelpView) -> Seq<char> {
    spec_pad_right(item.cmd, 14) + seq![' '] + item.desc
}

/// The help for the given commands, one line each.
pub open spec fn spec_help_from_items(items: Seq<HelpView>) -> Seq<char> {
    spec_join(Seq::new(items.len(), |i: int| spec_help_line(items[i])), seq!['\n'])
}

/// Those of the first `upto` commands that begin with the prefix.
pub open spec fn spec_filter_help(items: Seq<HelpView>, prefix: Seq<char>, upto: int) -> Seq<
    HelpView,
>
    decreases upto,
{
    if upto <= 0 || upto > items.len() {
        Seq::empty()
    } else {
        let before = spec_filter_help(items, prefix, upto - 1);
        if spec_starts_with(items[upto - 1].cmd, prefix) {
            before.push(items[upto - 1])
        } else {
            before
        }
    }
}

/// The help for the commands that begin with the prefix; nothing where
/// there is none.
pub open spec fn spec_slash_help_filtered(prefix: Seq<char>) -> Seq<char> {
    let items = spec_filter_help(spec_slash_help_items(), prefix, 18);
    if items.len() == 0 {
        Seq::empty()
    } else {
        spec_help_from_items(items)
    }
}

fn pad_right(text: &str, width: usize) -> (out: Vec<char>)
    ensures
        out@ == spec_pad_right(text@, width as int),
{
    let mut out = str_chars(text);
    let ghost start = out@;
    while out.len() < width
        invariant
            start == text@,
            out@.len() >= start.len(),
            out@.len() <= width || out@ == start,
            out@ == start + Seq::new((out@.len() - start.len()) as nat, |i: int| ' '),
        decreases width - out.len(),
    {
        out.push(' ');
    }
    assert(out@ =~= spec_pad_right(text@, width as int));
    out
}

/// The help for the given commands, one line each.
pub fn build_slash_help_from_items(items: &Vec<SlashCommandHelp>) -> (out: String)
    ensures
        out@ == spec_help_from_items(help_views(items@)),
{
    let mut rows: Vec<Vec<char>> = Vec::new();
    let mut i: usize = 0;
    while i < items.len()
        invariant
            i <= items.len(),
            row_views(rows@) == Seq::new(
                i as nat,
                |k: int| spec_help_line(help_views(items@)[k]),
            ),
        decreases items.len() - i,
    {
        let mut line = pad_right(items[i].cmd, 14);
        line.push(' ');
        extend_str(&mut line, items[i].desc_en);
        assert(line@ =~= spec_help_line(help_views(items@)[i as int]));
        proof {
            lemma_row_views_push(rows@, line);
        }
        rows.push(line);
        assert(row_views(rows@) =~= Seq::new(
            (i + 1) as nat,
            |k: int| spec_help_line(help_views(items@)[k]),
        ));
        i += 1;
    }
    let mut sep: Vec<char> = Vec::new();
    sep.push('\n');
    assert(sep@ =~= seq!['\n']);
    chars_to_string(&join_rows(&rows, &sep))
}

/// The help for all commands.
pub fn build_slash_help() -> (out: String)
    ensures
        out@ == spec_help_from_items(spec_slash_help_items()),
{
    build_slash_help_from_items(&slash_help_items())
}

/// The help for the commands that begin with the prefix.
pub fn build_slash_help_filtered(prefix: &str) -> (out: String)
    ensures
        out@ == spec_slash_help_filtered(prefix@),
{
    let all = slash_help_items();
    let wanted = str_chars(prefix);
    let mut kept: Vec<SlashCommandHelp> = Vec::new();
    let mut i: usize = 0;
    assert(help_views(kept@) =~= spec_filter_help(help_views(all@), prefix@, 0));
    while i < all.len()
        invariant
            i <= all.len(),
            wanted@ == prefix@,
            help_views(kept@) == spec_filter_help(help_views(all@), prefix@, i as int),
        decreases all.len() - i,
    {
        let cmd = str_chars(all[i].cmd);
        if starts_with(&cmd, &wanted) {
            kept.push(all[i]);
            assert(help_views(kept@) =~= spec_filter_help(help_views(all@), prefix@, i + 1));
        }
        i += 1;
    }
    if kept.len() == 0 {
        String::new()
    } else {
        build_slash_help_from_items(&kept)
    }
}

/// The tools that are built in, one per line.
pub fn list_builtin_tools() -> (out: String)
    ensures
        out@ == "Read\nWrite\nShell\nGrep\nGlob\nMCP(@server/tool)"@,
{
    "Read\nWrite\nShell\nGrep\nGlob\nMCP(@server/tool)".to_owned()
}

/// What a request is about, in a few words: its only path, or its first
/// path and how many more there are, or `target` where it names none.
pub open spec fn spec_approval_target(paths: Seq<Seq<char>>) -> Seq<char> {
    if paths.len() == 0 {
        "target"@
    } else if paths.len() == 1 {
        paths[0]
    } else {
        paths[0] + " (+"@ + decimal((paths.len() - 1) as nat) + " more)"@
    }
}

/// The question put to the user, and the keys that answer it.
pub open spec fn spec_approval_prompt(request: ToolApprovalView) -> Seq<char> {
    "Allow "@ + spec_tool_name(request.tool) + " to "@ + spec_approval_target(request.paths)
        + "?\n[y] Yes  [n] No  [a] Always allow  [d] Don't ask again"@
}

pub fn format_approval_prompt(request: &ToolApprovalRequest) -> (out: String)
    ensures
        out@ == spec_approval_prompt(request@),
{
    let mut target: Vec<char> = Vec::new();
    if request.paths.len() == 0 {
        extend_str(&mut target, "target");
    } else if request.paths.len() == 1 {
        extend_str(&mut target, request.paths[0].as_str());
    } else {
        extend_str(&mut target, request.paths[0].as_str());
        extend_str(&mut target, " (+");
        push_decimal(&mut target, (request.paths.len() - 1) as u64);
        extend_str(&mut target, " more)");
    }
    assert(target@ =~= spec_approval_target(string_views(request.paths@)));
    let mut out = str_chars("Allow ");
    extend_str(&mut out, tool_display_name(request.tool));
    extend_str(&mut out, " to ");
    extend_chars(&mut out, &target);
    extend_str(&mut out, "?\n[y] Yes  [n] No  [a] Always allow  [d] Don't ask again");
    chars_to_string(&out)
}

/// The decision that a key stands for while a request for approval waits.
pub open spec fn spec_approval_key(key: char) -> Option<ToolApprovalDecision> {
    if key == 'y' {
        Some(ToolApprovalDecision::AllowOnce)
    } else if key == 'n' {
        Some(ToolApprovalDecision::DenyOnce)
    } else if key == 'a' {
        Some(ToolApprovalDecision::AllowAll)
    } else if key == 'd' {
        Some(ToolApprovalDecision::DenyAll)
    } else {
        None
    }
}

pub fn approval_key(key: char) -> (decision: Option<ToolApprovalDecision>)
    ensures
        decision == spec_approval_key(key),
{
    if key == 'y' {
        Some(ToolApprovalDecision::AllowOnce)
    } else if key == 'n' {
        Some(ToolApprovalDecision::DenyOnce)
    } else if key == 'a' {
        Some(ToolApprovalDecision::AllowAll)
    } else if key == 'd' {
        Some(ToolApprovalDecision::DenyAll)
    } else {
        None
    }
}

} // verus!
