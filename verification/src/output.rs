//! What the program prints, before it is printed.

use crate::mcp::{stdio_server, EntryView, McpConfig};
use crate::session::Session;
use crate::text::{
    chars_eq_str, chars_to_string, extend_chars, extend_str, join_strings, opt_view, push_decimal,
    spec_join, str_chars, string_views, decimal,
};
use crate::toolcall::{json_quote, json_string_literal};
use vstd::prelude::*;

verus! {

/// A string literal, or `null` where there is no text.
pub open spec fn json_or_null(text: Option<Seq<char>>) -> Seq<char> {
    match text {
        Some(text) => json_string_literal(text),
        None => "null"@,
    }
}

/// The one line of the format `json`, given its texts as JSON literals: an
/// object with the message, the mode, the prompt and the type `response`,
/// its members in the order of their names.
pub open spec fn spec_response_line(message: Seq<char>, mode: Seq<char>, prompt: Seq<char>) -> Seq<
    char,
> {
    "{\"message\":"@ + message + ",\"mode\":"@ + mode + ",\"prompt\":"@ + prompt
        + ",\"type\":\"response\"}"@
}

/// A line that begins or ends the output of the format `stream-json`,
/// given the mode as a JSON literal.
pub open spec fn spec_marker_line(mode: Seq<char>, kind: Seq<char>) -> Seq<char> {
    "{\"mode\":"@ + mode + ",\"type\":\""@ + kind + "\"}"@
}

/// The line of the format `stream-json` that carries the message, given
/// its texts as JSON literals.
pub open spec fn spec_message_line(message: Seq<char>, prompt: Seq<char>) -> Seq<char> {
    "{\"content\":"@ + message + ",\"prompt\":"@ + prompt + ",\"type\":\"message\"}"@
}

/// The lines that are printed for a message, given its texts as JSON
/// literals: one JSON object in the format `json`; a start line, the
/// message and an end line in the format `stream-json`; the message itself
/// in every other format.
pub open spec fn spec_output_lines(
    format: Seq<char>,
    message: Seq<char>,
    quoted_mode: Seq<char>,
    quoted_message: Seq<char>,
    quoted_prompt: Seq<char>,
) -> Seq<Seq<char>> {
    if format == "json"@ {
        seq![spec_response_line(quoted_message, quoted_mode, quoted_prompt)]
    } else if format == "stream-json"@ {
        seq![
            spec_marker_line(quoted_mode, "start"@),
            spec_message_line(quoted_message, quoted_prompt),
            spec_marker_line(quoted_mode, "end"@),
        ]
    } else {
        seq![message]
    }
}

/// The lines that are printed for a message: its texts are written as
/// JSON literals where the format asks for JSON.
pub open spec fn spec_format_output(
    format: Seq<char>,
    mode: Seq<char>,
    message: Seq<char>,
    prompt: Option<Seq<char>>,
) -> Seq<Seq<char>> {
    spec_output_lines(
        format,
        message,
        json_string_literal(mode),
        json_string_literal(message),
        json_or_null(prompt),
    )
}

fn quote_or_null(text: Option<&str>) -> (out: String)
    ensures
        out@ == json_or_null(crate::agent::opt_str_view(text)),
{
    match text {
        Some(text) => json_quote(text),
        None => "null".to_owned(),
    }
}

fn marker_line(mode: &str, kind: &str) -> (out: String)
    ensures
        out@ == spec_marker_line(mode@, kind@),
{
    let mut out = str_chars("{\"mode\":");
    extend_str(&mut out, mode);
    extend_str(&mut out, ",\"type\":\"");
    extend_str(&mut out, kind);
    extend_str(&mut out, "\"}");
    chars_to_string(&out)
}

fn message_line(message: &str, prompt: &str) -> (out: String)
    ensures
        out@ == spec_message_line(message@, prompt@),
{
    let mut out = str_chars("{\"content\":");
    extend_str(&mut out, message);
    extend_str(&mut out, ",\"prompt\":");
    extend_str(&mut out, prompt);
    extend_str(&mut out, ",\"type\":\"message\"}");
    chars_to_string(&out)
}

fn response_line(message: &str, mode: &str, prompt: &str) -> (out: String)
    ensures
        out@ == spec_response_line(message@, mode@, prompt@),
{
    let mut out = str_chars("{\"message\":");
    extend_str(&mut out, message);
    extend_str(&mut out, ",\"mode\":");
    extend_str(&mut out, mode);
    extend_str(&mut out, ",\"prompt\":");
    extend_str(&mut out, prompt);
    extend_str(&mut out, ",\"type\":\"response\"}");
    chars_to_string(&out)
}

/// The lines that are printed for a message, given its texts as JSON
/// literals.
pub fn output_lines(
    format: &str,
    message: &str,
    quoted_mode: &str,
    quoted_message: &str,
    quoted_prompt: &str,
) -> (out: Vec<String>)
    ensures
        string_views(out@) == spec_output_lines(
            format@,
            message@,
            quoted_mode@,
            quoted_message@,
            quoted_prompt@,
        ),
{
    let chosen = str_chars(format);
    let mut lines: Vec<String> = Vec::new();
    if chars_eq_str(&chosen, "json") {
        let line = response_line(quoted_message, quoted_mode, quoted_prompt);
        lines.push(line);
        assert(string_views(lines@) =~= seq![line@]);
    } else if chars_eq_str(&chosen, "stream-json") {
        let start = marker_line(quoted_mode, "start");
        let item = message_line(quoted_message, quoted_prompt);
        let end = marker_line(quoted_mode, "end");
        lines.push(start);
        lines.push(item);
        lines.push(end);
        assert(string_views(lines@) =~= seq![start@, item@, end@]);
    } else {
        let line = message.to_owned();
        lines.push(line);
        assert(string_views(lines@) =~= seq![message@]);
    }
    lines
}

/// The lines that are printed for a message.
pub fn format_output(format: &str, mode: &str, message: &str, prompt: Option<&str>) -> (out: Vec<
    String,
>)
    ensures
        string_views(out@) == spec_format_output(
            format@,
            mode@,
            message@,
            crate::agent::opt_str_view(prompt),
        ),
{
    let quoted_mode = json_quote(mode);
    let quoted_message = json_quote(message);
    let quoted_prompt = quote_or_null(prompt);
    output_lines(
        format,
        message,
        quoted_mode.as_str(),
        quoted_message.as_str(),
        quoted_prompt.as_str(),
    )
}

/// What is logged about the sources of the system prompt, where logging
/// is asked for: the sources, and the length of the prompt in bytes.
pub open spec fn spec_prompt_log(
    verbose: bool,
    sources: Seq<Seq<char>>,
    prompt_bytes: Option<nat>,
) -> Seq<Seq<char>> {
    if !verbose {
        Seq::empty()
    } else if sources.len() == 0 {
        seq!["system_prompt_sources: none"@]
    } else {
        let first = "system_prompt_sources: "@ + spec_join(sources, ", "@);
        match prompt_bytes {
            Some(n) => seq![first, "system_prompt_length: "@ + decimal(n)],
            None => seq![first],
        }
    }
}

pub open spec fn opt_byte_len(prompt: Option<&str>) -> Option<nat> {
    match prompt {
        Some(p) => Some(p.len() as nat),
        None => None,
    }
}

pub fn log_system_prompt_sources(verbose: bool, sources: &Vec<String>, prompt: Option<&str>) -> (out:
    Vec<String>)
    ensures
        string_views(out@) == spec_prompt_log(
            verbose,
            string_views(sources@),
            opt_byte_len(prompt),
        ),
{
    let mut out: Vec<String> = Vec::new();
    if !verbose {
        assert(string_views(out@) =~= Seq::empty());
        return out;
    }
    if sources.len() == 0 {
        out.push("system_prompt_sources: none".to_owned());
        assert(string_views(out@) =~= seq!["system_prompt_sources: none"@]);
        return out;
    }
    let mut first = str_chars("system_prompt_sources: ");
    extend_chars(&mut first, &join_strings(sources, ", "));
    let first = chars_to_string(&first);
    out.push(first);
    if let Some(prompt) = prompt {
        let mut second = str_chars("system_prompt_length: ");
        push_decimal(&mut second, prompt.len() as u64);
        let second = chars_to_string(&second);
        out.push(second);
        assert(string_views(out@) =~= seq![first@, second@]);
    } else {
        assert(string_views(out@) =~= seq![first@]);
    }
    out
}

/// The label of a source of the system prompt that is a file.
pub fn source_label(kind: &str, path: &str) -> (label: String)
    ensures
        label@ == kind@ + ":"@ + path@,
{
    let mut out = str_chars(kind);
    extend_str(&mut out, ":");
    extend_str(&mut out, path);
    chars_to_string(&out)
}

/// The line that lists a session.
pub fn session_line(session: &Session) -> (line: String)
    ensures
        line@ == session@.id + " "@ + session@.created_at + " "@ + session@.updated_at,
{
    let mut out = str_chars(session.id.as_str());
    extend_str(&mut out, " ");
    extend_str(&mut out, session.created_at.as_str());
    extend_str(&mut out, " ");
    extend_str(&mut out, session.updated_at.as_str());
    chars_to_string(&out)
}

/// The line that says which session goes on.
pub fn resume_line(session: &Session) -> (line: String)
    ensures
        line@ == "resume: "@ + session@.id + " "@ + session@.updated_at,
{
    let mut out = str_chars("resume: ");
    extend_str(&mut out, session.id.as_str());
    extend_str(&mut out, " ");
    extend_str(&mut out, session.updated_at.as_str());
    chars_to_string(&out)
}

/// A tool of a server, as it is listed.
pub fn mcp_tool_line(server: &str, tool: &str) -> (line: String)
    ensures
        line@ == "@"@ + server@ + "/"@ + tool@,
{
    let mut out = str_chars("@");
    extend_str(&mut out, server);
    extend_str(&mut out, "/");
    extend_str(&mut out, tool);
    chars_to_string(&out)
}

/// A server is added under its name as the given command line. An empty
/// command line adds nothing and is an error.
pub fn mcp_add(config: &mut McpConfig, name: &str, command: &Vec<String>) -> (res: Result<
    String,
    String,
>)
    ensures
        match res {
            Ok(message) => {
                &&& crate::mcp::spec_stdio_server(string_views(command@)) is Some
                &&& final(config)@ == crate::mcp::spec_insert_server(
                    old(config)@,
                    EntryView {
                        name: name@,
                        server: crate::mcp::spec_stdio_server(string_views(command@))->0,
                    },
                )
                &&& message@ == "mcp server added: "@ + name@
            },
            Err(message) => {
                &&& command@.len() == 0
                &&& final(config)@ == old(config)@
                &&& message@ == "mcp add requires a command"@
            },
        },
{
    match stdio_server(command) {
        None => Err("mcp add requires a command".to_owned()),
        Some(server) => {
            config.insert(name.to_owned(), server);
            let mut out = str_chars("mcp server added: ");
            extend_str(&mut out, name);
            Ok(chars_to_string(&out))
        },
    }
}

/// A server is taken away; the message says whether there was one.
pub fn mcp_remove(config: &mut McpConfig, name: &str) -> (out: (bool, String))
    ensures
        final(config)@ == crate::mcp::spec_remove_server(old(config)@, name@),
        out.0 == crate::mcp::spec_has_server(old(config)@, name@),
        out.1@ == (if out.0 {
            "mcp server removed: "@
        } else {
            "mcp server not found: "@
        }) + name@,
{
    let removed = config.remove(name).is_some();
    let mut out = if removed {
        str_chars("mcp server removed: ")
    } else {
        str_chars("mcp server not found: ")
    };
    extend_str(&mut out, name);
    (removed, chars_to_string(&out))
}

} // verus!
