//! Tool calls as the model writes them: one JSON object per call, with the
//! tool's name under `tool`.

use crate::text::{
    chars_eq_str, chars_to_string, clone_opt_string, clone_string, clone_strings, extend_chars,
    extend_str, opt_view, spec_join, spec_trim, str_chars, string_views, trim,
};
use crate::tools::{ToolInput, ToolInputView};
use vstd::prelude::*;

verus! {

/// A call that the model may ask for. There is no call for the shell.
#[derive(Debug, Clone)]
pub enum ToolCall {
    Read { path: String },
    Write { path: String, content: String },
    Grep { pattern: String, paths: Vec<String> },
    Glob { pattern: String, root: Option<String> },
}

pub enum ToolCallView {
    Read { path: Seq<char> },
    Write { path: Seq<char>, content: Seq<char> },
    Grep { pattern: Seq<char>, paths: Seq<Seq<char>> },
    Glob { pattern: Seq<char>, root: Option<Seq<char>> },
}

impl View for ToolCall {
    type V = ToolCallView;

    open spec fn view(&self) -> ToolCallView {
        match *self {
            ToolCall::Read { path } => ToolCallView::Read { path: path@ },
            ToolCall::Write { path, content } => ToolCallView::Write {
                path: path@,
                content: content@,
            },
            ToolCall::Grep { pattern, paths } => ToolCallView::Grep {
                pattern: pattern@,
                paths: string_views(paths@),
            },
            ToolCall::Glob { pattern, root } => ToolCallView::Glob {
                pattern: pattern@,
                root: opt_view(root),
            },
        }
    }
}

pub open spec fn opt_call_view(call: Option<ToolCall>) -> Option<ToolCallView> {
    match call {
        Some(c) => Some(c@),
        None => None,
    }
}

/// The request that a call stands for.
pub open spec fn spec_call_input(call: ToolCallView) -> ToolInputView {
    match call {
        ToolCallView::Read { path } => ToolInputView::Read { path },
        ToolCallView::Write { path, content } => ToolInputView::Write { path, content },
        ToolCallView::Grep { pattern, paths } => ToolInputView::Grep { pattern, paths },
        ToolCallView::Glob { pattern, root } => ToolInputView::Glob { pattern, root },
    }
}

/// The JSON string literal for a text, quotes included.
pub uninterp spec fn json_string_literal(text: Seq<char>) -> Seq<char>;

/// `serde_json::to_string` on a string slice: the JSON string literal for
/// the text. The literal depends on the text alone. There always is one:
/// a string slice is written into memory, which cannot fail.
#[verifier::external_body]
pub(crate) fn json_quote(text: &str) -> (out: String)
    ensures
        out@ == json_string_literal(text@),
{
    serde_json::to_string(text).unwrap_or_default()
}

/// A call whose texts are written as JSON string literals, quotes
/// included.
#[derive(Debug, Clone)]
pub enum QuotedCall {
    Read { path: String },
    Write { path: String, content: String },
    Grep { pattern: String, paths: Vec<String> },
    Glob { pattern: String, root: Option<String> },
}

impl View for QuotedCall {
    type V = ToolCallView;

    open spec fn view(&self) -> ToolCallView {
        match *self {
            QuotedCall::Read { path } => ToolCallView::Read { path: path@ },
            QuotedCall::Write { path, content } => ToolCallView::Write {
                path: path@,
                content: content@,
            },
            QuotedCall::Grep { pattern, paths } => ToolCallView::Grep {
                pattern: pattern@,
                paths: string_views(paths@),
            },
            QuotedCall::Glob { pattern, root } => ToolCallView::Glob {
                pattern: pattern@,
                root: opt_view(root),
            },
        }
    }
}

/// The members of a JSON array: the items with commas between them.
pub open spec fn spec_json_items(items: Seq<Seq<char>>) -> Seq<char> {
    spec_join(items, seq![','])
}

/// A call written as one JSON object, given its texts as JSON literals:
/// the tool's name first, then its arguments. The paths of a search are
/// an array, and a glob without a root has `null` for it.
pub open spec fn spec_quoted_json(call: ToolCallView) -> Seq<char> {
    match call {
        ToolCallView::Read { path } => "{\"tool\":\"read\",\"path\":"@ + path + "}"@,
        ToolCallView::Write { path, content } => "{\"tool\":\"write\",\"path\":"@ + path
            + ",\"content\":"@ + content + "}"@,
        ToolCallView::Grep { pattern, paths } => "{\"tool\":\"grep\",\"pattern\":"@ + pattern
            + ",\"paths\":["@ + spec_json_items(paths) + "]}"@,
        ToolCallView::Glob { pattern, root } => "{\"tool\":\"glob\",\"pattern\":"@ + pattern
            + ",\"root\":"@ + (match root {
            Some(root) => root,
            None => "null"@,
        }) + "}"@,
    }
}

/// The literal of each text.
pub open spec fn spec_quote_all(texts: Seq<Seq<char>>) -> Seq<Seq<char>> {
    Seq::new(texts.len(), |i: int| json_string_literal(texts[i]))
}

/// A call with its texts written as JSON literals.
pub open spec fn spec_quote_call(call: ToolCallView) -> ToolCallView {
    match call {
        ToolCallView::Read { path } => ToolCallView::Read { path: json_string_literal(path) },
        ToolCallView::Write { path, content } => ToolCallView::Write {
            path: json_string_literal(path),
            content: json_string_literal(content),
        },
        ToolCallView::Grep { pattern, paths } => ToolCallView::Grep {
            pattern: json_string_literal(pattern),
            paths: spec_quote_all(paths),
        },
        ToolCallView::Glob { pattern, root } => ToolCallView::Glob {
            pattern: json_string_literal(pattern),
            root: match root {
                Some(root) => Some(json_string_literal(root)),
                None => None,
            },
        },
    }
}

/// A call written as one JSON object, as the model would write it.
pub open spec fn spec_call_json(call: ToolCallView) -> Seq<char> {
    spec_quoted_json(spec_quote_call(call))
}

fn quote_all(texts: &Vec<String>) -> (out: Vec<String>)
    ensures
        string_views(out@) == spec_quote_all(string_views(texts@)),
{
    let mut out: Vec<String> = Vec::new();
    let mut i: usize = 0;
    while i < texts.len()
        invariant
            i <= texts.len(),
            out@.len() == i,
            forall|k: int| 0 <= k < i ==> (#[trigger] out@[k])@ == json_string_literal(texts@[k]@),
        decreases texts.len() - i,
    {
        out.push(json_quote(texts[i].as_str()));
        i += 1;
    }
    assert(string_views(out@) =~= spec_quote_all(string_views(texts@)));
    out
}

/// A call written as one JSON object, given its texts as JSON literals.
pub fn quoted_call_json(call: &QuotedCall) -> (json: String)
    ensures
        json@ == spec_quoted_json(call@),
{
    let mut out: Vec<char> = Vec::new();
    match call {
        QuotedCall::Read { path } => {
            extend_str(&mut out, "{\"tool\":\"read\",\"path\":");
            extend_str(&mut out, path.as_str());
            extend_str(&mut out, "}");
        },
        QuotedCall::Write { path, content } => {
            extend_str(&mut out, "{\"tool\":\"write\",\"path\":");
            extend_str(&mut out, path.as_str());
            extend_str(&mut out, ",\"content\":");
            extend_str(&mut out, content.as_str());
            extend_str(&mut out, "}");
        },
        QuotedCall::Grep { pattern, paths } => {
            proof {
                reveal_strlit(",");
                assert(","@ =~= seq![',']);
            }
            extend_str(&mut out, "{\"tool\":\"grep\",\"pattern\":");
            extend_str(&mut out, pattern.as_str());
            extend_str(&mut out, ",\"paths\":[");
            extend_chars(&mut out, &crate::text::join_strings(paths, ","));
            extend_str(&mut out, "]}");
        },
        QuotedCall::Glob { pattern, root } => {
            extend_str(&mut out, "{\"tool\":\"glob\",\"pattern\":");
            extend_str(&mut out, pattern.as_str());
            extend_str(&mut out, ",\"root\":");
            match root {
                Some(root) => extend_str(&mut out, root.as_str()),
                None => extend_str(&mut out, "null"),
            }
            extend_str(&mut out, "}");
        },
    }
    chars_to_string(&out)
}

impl ToolCall {
    /// A copy of the call.
    pub fn duplicate(&self) -> (out: ToolCall)
        ensures
            out@ == self@,
    {
        match self {
            ToolCall::Read { path } => ToolCall::Read { path: clone_string(path) },
            ToolCall::Write { path, content } => ToolCall::Write {
                path: clone_string(path),
                content: clone_string(content),
            },
            ToolCall::Grep { pattern, paths } => ToolCall::Grep {
                pattern: clone_string(pattern),
                paths: clone_strings(paths),
            },
            ToolCall::Glob { pattern, root } => ToolCall::Glob {
                pattern: clone_string(pattern),
                root: clone_opt_string(root),
            },
        }
    }

    /// The request that the call stands for.
    pub fn to_input(&self) -> (input: ToolInput)
        ensures
            input@ == spec_call_input(self@),
    {
        match self {
            ToolCall::Read { path } => ToolInput::Read { path: clone_string(path) },
            ToolCall::Write { path, content } => ToolInput::Write {
                path: clone_string(path),
                content: clone_string(content),
            },
            ToolCall::Grep { pattern, paths } => ToolInput::Grep {
                pattern: clone_string(pattern),
                paths: clone_strings(paths),
            },
            ToolCall::Glob { pattern, root } => ToolInput::Glob {
                pattern: clone_string(pattern),
                root: clone_opt_string(root),
            },
        }
    }

    /// The call with its texts written as JSON literals.
    pub fn quote(&self) -> (quoted: QuotedCall)
        ensures
            quoted@ == spec_quote_call(self@),
    {
        match self {
            ToolCall::Read { path } => QuotedCall::Read { path: json_quote(path.as_str()) },
            ToolCall::Write { path, content } => QuotedCall::Write {
                path: json_quote(path.as_str()),
                content: json_quote(content.as_str()),
            },
            ToolCall::Grep { pattern, paths } => QuotedCall::Grep {
                pattern: json_quote(pattern.as_str()),
                paths: quote_all(paths),
            },
            ToolCall::Glob { pattern, root } => QuotedCall::Glob {
                pattern: json_quote(pattern.as_str()),
                root: match root {
                    Some(root) => Some(json_quote(root.as_str())),
                    None => None,
                },
            },
        }
    }

    /// The call written as one JSON object.
    pub fn to_json(&self) -> (json: String)
        ensures
            json@ == spec_call_json(self@),
    {
        quoted_call_json(&self.quote())
    }
}

/// The part of the model's answer that may be a tool call: the answer
/// without the white space around it, where that begins with `{`. Any
/// other answer asks for no tool.
pub open spec fn spec_tool_call_text(content: Seq<char>) -> Option<Seq<char>> {
    let trimmed = spec_trim(content);
    if trimmed.len() > 0 && trimmed[0] == '{' {
        Some(trimmed)
    } else {
        None
    }
}

pub fn tool_call_text(content: &str) -> (text: Option<String>)
    ensures
        opt_view(text) == spec_tool_call_text(content@),
{
    let trimmed = trim(&str_chars(content));
    if trimmed.len() > 0 && trimmed[0] == '{' {
        Some(chars_to_string(&trimmed))
    } else {
        None
    }
}

/// One member of a JSON object, as far as a tool call can use it.
#[derive(Debug, Clone)]
pub enum JsonField {
    /// The object has no such member.
    Missing,
    /// The member is `null`.
    Null,
    /// The member is a string.
    Text(String),
    /// The member is an array of strings.
    TextList(Vec<String>),
    /// The member is something else.
    Other,
}

pub enum JsonFieldView {
    Missing,
    Null,
    Text(Seq<char>),
    TextList(Seq<Seq<char>>),
    Other,
}

impl View for JsonField {
    type V = JsonFieldView;

    open spec fn view(&self) -> JsonFieldView {
        match *self {
            JsonField::Missing => JsonFieldView::Missing,
            JsonField::Null => JsonFieldView::Null,
            JsonField::Text(text) => JsonFieldView::Text(text@),
            JsonField::TextList(list) => JsonFieldView::TextList(string_views(list@)),
            JsonField::Other => JsonFieldView::Other,
        }
    }
}

/// The members of a JSON object that a tool call is read from.
#[derive(Debug, Clone)]
pub struct RawToolCall {
    pub tool: JsonField,
    pub path: JsonField,
    pub content: JsonField,
    pub pattern: JsonField,
    pub paths: JsonField,
    pub root: JsonField,
}

pub struct RawToolCallView {
    pub tool: JsonFieldView,
    pub path: JsonFieldView,
    pub content: JsonFieldView,
    pub pattern: JsonFieldView,
    pub paths: JsonFieldView,
    pub root: JsonFieldView,
}

impl View for RawToolCall {
    type V = RawToolCallView;

    open spec fn view(&self) -> RawToolCallView {
        RawToolCallView {
            tool: self.tool@,
            path: self.path@,
            content: self.content@,
            pattern: self.pattern@,
            paths: self.paths@,
            root: self.root@,
        }
    }
}

pub open spec fn opt_raw_view(raw: Option<RawToolCall>) -> Option<RawToolCallView> {
    match raw {
        Some(r) => Some(r@),
        None => None,
    }
}

/// The call that a JSON object stands for. The member `tool` must name one
/// of the four calls, in lower case, and each argument of that call must
/// be there in its own form; only the root of a glob may be missing or
/// `null`. Members that the call does not use are not looked at. Any other
/// object, `{"tool":"none"}` among them, stands for no call.
pub open spec fn spec_decode_tool_call(raw: RawToolCallView) -> Option<ToolCallView> {
    match raw.tool {
        JsonFieldView::Text(tool) => if tool == "read"@ {
            match raw.path {
                JsonFieldView::Text(path) => Some(ToolCallView::Read { path }),
                _ => None,
            }
        } else if tool == "write"@ {
            match (raw.path, raw.content) {
                (JsonFieldView::Text(path), JsonFieldView::Text(content)) => Some(
                    ToolCallView::Write { path, content },
                ),
                _ => None,
            }
        } else if tool == "grep"@ {
            match (raw.pattern, raw.paths) {
                (JsonFieldView::Text(pattern), JsonFieldView::TextList(paths)) => Some(
                    ToolCallView::Grep { pattern, paths },
                ),
                _ => None,
            }
        } else if tool == "glob"@ {
            match (raw.pattern, raw.root) {
                (JsonFieldView::Text(pattern), JsonFieldView::Text(root)) => Some(
                    ToolCallView::Glob { pattern, root: Some(root) },
                ),
                (JsonFieldView::Text(pattern), JsonFieldView::Null) => Some(
                    ToolCallView::Glob { pattern, root: None },
                ),
                (JsonFieldView::Text(pattern), JsonFieldView::Missing) => Some(
                    ToolCallView::Glob { pattern, root: None },
                ),
                _ => None,
            }
        } else {
            None
        },
        _ => None,
    }
}

fn text_of(field: &JsonField) -> (out: Option<String>)
    ensures
        match out {
            Some(text) => field@ == JsonFieldView::Text(text@),
            None => !(field@ is Text),
        },
{
    match field {
        JsonField::Text(text) => Some(clone_string(text)),
        _ => None,
    }
}

/// The call that a JSON object stands for, where it stands for one.
pub fn decode_tool_call(raw: &RawToolCall) -> (call: Option<ToolCall>)
    ensures
        opt_call_view(call) == spec_decode_tool_call(raw@),
{
    let tool = match &raw.tool {
        JsonField::Text(tool) => str_chars(tool.as_str()),
        _ => {
            return None;
        },
    };
    if chars_eq_str(&tool, "read") {
        match text_of(&raw.path) {
            Some(path) => Some(ToolCall::Read { path }),
            None => None,
        }
    } else if chars_eq_str(&tool, "write") {
        match (text_of(&raw.path), text_of(&raw.content)) {
            (Some(path), Some(content)) => Some(ToolCall::Write { path, content }),
            _ => None,
        }
    } else if chars_eq_str(&tool, "grep") {
        match (text_of(&raw.pattern), &raw.paths) {
            (Some(pattern), JsonField::TextList(paths)) => Some(
                ToolCall::Grep { pattern, paths: clone_strings(paths) },
            ),
            _ => None,
        }
    } else if chars_eq_str(&tool, "glob") {
        match text_of(&raw.pattern) {
            Some(pattern) => match &raw.root {
                JsonField::Text(root) => Some(
                    ToolCall::Glob { pattern, root: Some(clone_string(root)) },
                ),
                JsonField::Null => Some(ToolCall::Glob { pattern, root: None }),
                JsonField::Missing => Some(ToolCall::Glob { pattern, root: None }),
                _ => None,
            },
            None => None,
        }
    } else {
        None
    }
}

/// An object whose member `tool` is no string, or a string other than the
/// four known names, stands for no call: an unknown tool is never taken
/// for a known one.
pub proof fn lemma_unknown_tool_is_no_call(raw: RawToolCallView)
    requires
        !(raw.tool is Text) || (raw.tool->Text_0 != "read"@ && raw.tool->Text_0 != "write"@
            && raw.tool->Text_0 != "grep"@ && raw.tool->Text_0 != "glob"@),
    ensures
        spec_decode_tool_call(raw) is None,
{
}

} // verus!
