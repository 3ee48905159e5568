//! What the orchestrator says to the model, and how it reads an
//! instruction.

use crate::llm::LlmResponse;
use crate::text::{
    ascii_lowercase, chars_to_string, clone_string, contains_char, contains_str, ends_with_str,
    extend_chars, extend_str, has_char, is_ascii_alphanumeric, is_ascii_alphanumeric_char,
    join_strings, lemma_index_of_from, occurs_at, opt_view, push_signed_decimal, signed_decimal,
    spec_ascii_lowercase, spec_contains, spec_ends_with, spec_join, spec_trim, str_chars, trim,
};
use crate::tools::{opt_result_view, ToolResult, ToolResultView};
use vstd::prelude::*;

verus! {

/// A named agent with its own prompt.
#[derive(Debug, Clone)]
pub struct Agent {
    pub name: String,
    pub description: String,
    pub prompt: String,
}

impl Agent {
    /// An agent with the given name and nothing else.
    pub fn new(name: String) -> (agent: Agent)
        ensures
            agent.name@ == name@,
            agent.description@.len() == 0,
            agent.prompt@.len() == 0,
    {
        Agent { name, description: String::new(), prompt: String::new() }
    }
}

/// The answer to an instruction: the model's final words and, where a tool
/// ran, what it brought.
#[derive(Debug, Clone)]
pub struct AgentOutput {
    pub response: LlmResponse,
    pub tool_result: Option<ToolResult>,
}

pub struct AgentOutputView {
    pub response: Seq<char>,
    pub tool_result: Option<ToolResultView>,
}

impl View for AgentOutput {
    type V = AgentOutputView;

    open spec fn view(&self) -> AgentOutputView {
        AgentOutputView {
            response: self.response@,
            tool_result: opt_result_view(self.tool_result),
        }
    }
}

/// How often a failed tool step is tried again.
pub const MAX_TOOL_RETRIES: usize = 2;

pub const PLAN_HEAD: &'static str =
    "次の指示に対して、最小の計画を1-3項目で日本語の箇条書きで作成してください。\n\n指示:\n";

pub const PLAN_HEAD_WITH_CONTEXT: &'static str =
    "次の過去の会話を踏まえて、指示に対する最小の計画を1-3項目で日本語の箇条書きで作成してください。\n\n過去の会話:\n";

pub const INSTRUCTION_PART: &'static str = "\n\n指示:\n";

pub const PLAN_PART: &'static str = "\n\n計画:\n";

pub const CONTEXT_PART: &'static str = "\n\n過去の会話:\n";

pub const TOOL_RESULT_PART: &'static str = "\n\nツール結果:\n";

pub const FAILURE_PART: &'static str = "\n\n失敗理由:\n";

pub const EXECUTE_HEAD: &'static str = "次の計画に従って実行してください。\n\n計画:\n";

pub const EXECUTE_HEAD_WITH_CONTEXT: &'static str =
    "次の過去の会話と計画に従って実行してください。\n\n過去の会話:\n";

pub const FOLLOWUP_HEAD: &'static str = "実行結果を踏まえて最終回答を簡潔に出力してください。";

pub const FAILED_HEAD: &'static str =
    "ツール実行に失敗したため、失敗理由を踏まえて最終回答を簡潔に出力してください。";

pub const SELECT_HEAD: &'static str =
    "次の計画を進めるために必要なツールがあれば、JSONのみで出力してください。\nツールが不要なら {\"tool\":\"none\"} とだけ出力してください。";

pub const SELECT_HEAD_WITH_CONTEXT: &'static str =
    "次の過去の会話と計画を進めるために必要なツールがあれば、JSONのみで出力してください。\nツールが不要なら {\"tool\":\"none\"} とだけ出力してください。";

pub const LAST_ERROR_PART: &'static str = "\n前回の失敗理由:\n";

pub const LAST_CALL_PART: &'static str = "前回のツール呼び出し:\n";

/// Whether there is no earlier conversation to speak of.
pub open spec fn no_context(context: Seq<char>) -> bool {
    spec_trim(context).len() == 0
}

fn is_blank(context: &str) -> (b: bool)
    ensures
        b == no_context(context@),
{
    trim(&str_chars(context)).len() == 0
}

pub open spec fn spec_plan_prompt(input: Seq<char>) -> Seq<char> {
    PLAN_HEAD@ + input
}

pub open spec fn spec_plan_prompt_with_context(input: Seq<char>, context: Seq<char>) -> Seq<char> {
    if no_context(context) {
        spec_plan_prompt(input)
    } else {
        PLAN_HEAD_WITH_CONTEXT@ + context + INSTRUCTION_PART@ + input
    }
}

/// Asks for a short plan for the instruction.
pub fn build_plan_prompt(input: &str) -> (prompt: String)
    ensures
        prompt@ == spec_plan_prompt(input@),
{
    let mut out = str_chars(PLAN_HEAD);
    extend_str(&mut out, input);
    chars_to_string(&out)
}

/// Asks for a short plan for the instruction, in the light of the earlier
/// conversation where there is one.
pub fn build_plan_prompt_with_context(input: &str, context: &str) -> (prompt: String)
    ensures
        prompt@ == spec_plan_prompt_with_context(input@, context@),
{
    if is_blank(context) {
        return build_plan_prompt(input);
    }
    let mut out = str_chars(PLAN_HEAD_WITH_CONTEXT);
    extend_str(&mut out, context);
    extend_str(&mut out, INSTRUCTION_PART);
    extend_str(&mut out, input);
    chars_to_string(&out)
}

pub open spec fn spec_execute_prompt(input: Seq<char>, plan: Seq<char>) -> Seq<char> {
    EXECUTE_HEAD@ + plan + INSTRUCTION_PART@ + input
}

pub open spec fn spec_execute_prompt_with_context(
    input: Seq<char>,
    context: Seq<char>,
    plan: Seq<char>,
) -> Seq<char> {
    if no_context(context) {
        spec_execute_prompt(input, plan)
    } else {
        EXECUTE_HEAD_WITH_CONTEXT@ + context + PLAN_PART@ + plan + INSTRUCTION_PART@ + input
    }
}

/// Asks to carry out the plan without a tool.
pub fn build_execute_prompt(input: &str, plan: &str) -> (prompt: String)
    ensures
        prompt@ == spec_execute_prompt(input@, plan@),
{
    let mut out = str_chars(EXECUTE_HEAD);
    extend_str(&mut out, plan);
    extend_str(&mut out, INSTRUCTION_PART);
    extend_str(&mut out, input);
    chars_to_string(&out)
}

pub fn build_execute_prompt_with_context(input: &str, context: &str, plan: &str) -> (prompt: String)
    ensures
        prompt@ == spec_execute_prompt_with_context(input@, context@, plan@),
{
    if is_blank(context) {
        return build_execute_prompt(input, plan);
    }
    let mut out = str_chars(EXECUTE_HEAD_WITH_CONTEXT);
    extend_str(&mut out, context);
    extend_str(&mut out, PLAN_PART);
    extend_str(&mut out, plan);
    extend_str(&mut out, INSTRUCTION_PART);
    extend_str(&mut out, input);
    chars_to_string(&out)
}

/// What is added to the request for a tool after a failed attempt: the
/// reason of the failure and the call that failed, as far as they are
/// known.
pub open spec fn spec_retry_notes(last_error: Option<Seq<char>>, last_call: Option<Seq<char>>) -> Seq<
    char,
> {
    let error_part = match last_error {
        Some(error) => LAST_ERROR_PART@ + error + seq!['\n'],
        None => Seq::empty(),
    };
    let call_part = match last_call {
        Some(call) => LAST_CALL_PART@ + call + seq!['\n'],
        None => Seq::empty(),
    };
    error_part + call_part
}

pub open spec fn spec_tool_select_prompt(
    input: Seq<char>,
    context: Seq<char>,
    plan: Seq<char>,
    last_error: Option<Seq<char>>,
    last_call: Option<Seq<char>>,
) -> Seq<char> {
    if no_context(context) {
        SELECT_HEAD@ + spec_retry_notes(last_error, last_call) + PLAN_PART@ + plan
            + INSTRUCTION_PART@ + input
    } else {
        SELECT_HEAD_WITH_CONTEXT@ + spec_retry_notes(last_error, last_call) + CONTEXT_PART@
            + context + PLAN_PART@ + plan + INSTRUCTION_PART@ + input
    }
}

pub open spec fn opt_str_view(s: Option<&str>) -> Option<Seq<char>> {
    match s {
        Some(s) => Some(s@),
        None => None,
    }
}

/// Asks which tool, if any, the plan needs. After a failed attempt the
/// reason and the failed call, written as JSON, are handed to the model
/// word for word. Without earlier conversation the prompt has no part for
/// it.
pub fn build_tool_select_prompt_with_context(
    input: &str,
    context: &str,
    plan: &str,
    last_error: Option<&str>,
    last_call_json: Option<&str>,
) -> (prompt: String)
    ensures
        prompt@ == spec_tool_select_prompt(
            input@,
            context@,
            plan@,
            opt_str_view(last_error),
            opt_str_view(last_call_json),
        ),
{
    let mut extra: Vec<char> = Vec::new();
    if let Some(error) = last_error {
        extend_str(&mut extra, LAST_ERROR_PART);
        extend_str(&mut extra, error);
        extra.push('\n');
    }
    if let Some(call) = last_call_json {
        extend_str(&mut extra, LAST_CALL_PART);
        extend_str(&mut extra, call);
        extra.push('\n');
    }
    assert(extra@ =~= spec_retry_notes(opt_str_view(last_error), opt_str_view(last_call_json)));
    let mut out: Vec<char> = Vec::new();
    if is_blank(context) {
        extend_str(&mut out, SELECT_HEAD);
        extend_chars(&mut out, &extra);
    } else {
        extend_str(&mut out, SELECT_HEAD_WITH_CONTEXT);
        extend_chars(&mut out, &extra);
        extend_str(&mut out, CONTEXT_PART);
        extend_str(&mut out, context);
    }
    extend_str(&mut out, PLAN_PART);
    extend_str(&mut out, plan);
    extend_str(&mut out, INSTRUCTION_PART);
    extend_str(&mut out, input);
    chars_to_string(&out)
}

pub open spec fn spec_followup_prompt(input: Seq<char>, plan: Seq<char>, tool_result: Seq<char>) -> Seq<
    char,
> {
    FOLLOWUP_HEAD@ + INSTRUCTION_PART@ + input + PLAN_PART@ + plan + TOOL_RESULT_PART@ + tool_result
}

pub open spec fn spec_followup_prompt_with_context(
    input: Seq<char>,
    context: Seq<char>,
    plan: Seq<char>,
    tool_result: Seq<char>,
) -> Seq<char> {
    if no_context(context) {
        spec_followup_prompt(input, plan, tool_result)
    } else {
        FOLLOWUP_HEAD@ + CONTEXT_PART@ + context + INSTRUCTION_PART@ + input + PLAN_PART@ + plan
            + TOOL_RESULT_PART@ + tool_result
    }
}

/// Asks for the final answer, given what the tool brought.
pub fn build_followup_prompt(input: &str, plan: &str, tool_result: &str) -> (prompt: String)
    ensures
        prompt@ == spec_followup_prompt(input@, plan@, tool_result@),
{
    let mut out = str_chars(FOLLOWUP_HEAD);
    extend_str(&mut out, INSTRUCTION_PART);
    extend_str(&mut out, input);
    extend_str(&mut out, PLAN_PART);
    extend_str(&mut out, plan);
    extend_str(&mut out, TOOL_RESULT_PART);
    extend_str(&mut out, tool_result);
    chars_to_string(&out)
}

pub fn build_followup_prompt_with_context(
    input: &str,
    context: &str,
    plan: &str,
    tool_result: &str,
) -> (prompt: String)
    ensures
        prompt@ == spec_followup_prompt_with_context(input@, context@, plan@, tool_result@),
{
    if is_blank(context) {
        return build_followup_prompt(input, plan, tool_result);
    }
    let mut out = str_chars(FOLLOWUP_HEAD);
    extend_str(&mut out, CONTEXT_PART);
    extend_str(&mut out, context);
    extend_str(&mut out, INSTRUCTION_PART);
    extend_str(&mut out, input);
    extend_str(&mut out, PLAN_PART);
    extend_str(&mut out, plan);
    extend_str(&mut out, TOOL_RESULT_PART);
    extend_str(&mut out, tool_result);
    chars_to_string(&out)
}

pub open spec fn spec_failure_notes(error: Option<Seq<char>>) -> Seq<char> {
    match error {
        Some(error) => FAILURE_PART@ + error,
        None => Seq::empty(),
    }
}

pub open spec fn spec_failed_followup_prompt(
    input: Seq<char>,
    plan: Seq<char>,
    error: Option<Seq<char>>,
) -> Seq<char> {
    FAILED_HEAD@ + INSTRUCTION_PART@ + input + PLAN_PART@ + plan + spec_failure_notes(error)
}

pub open spec fn spec_failed_followup_prompt_with_context(
    input: Seq<char>,
    context: Seq<char>,
    plan: Seq<char>,
    error: Option<Seq<char>>,
) -> Seq<char> {
    if no_context(context) {
        spec_failed_followup_prompt(input, plan, error)
    } else {
        FAILED_HEAD@ + CONTEXT_PART@ + context + INSTRUCTION_PART@ + input + PLAN_PART@ + plan
            + spec_failure_notes(error)
    }
}

fn push_failure_notes(out: &mut Vec<char>, error: Option<&str>)
    ensures
        final(out)@ == old(out)@ + spec_failure_notes(opt_str_view(error)),
{
    if let Some(error) = error {
        extend_str(out, FAILURE_PART);
        extend_str(out, error);
        assert(out@ =~= old(out)@ + spec_failure_notes(opt_str_view(Some(error))));
    } else {
        assert(out@ =~= old(out)@ + spec_failure_notes(None));
    }
}

/// Asks for the final answer after the tool step failed for good.
pub fn build_failed_followup_prompt(input: &str, plan: &str, error: Option<&str>) -> (prompt:
    String)
    ensures
        prompt@ == spec_failed_followup_prompt(input@, plan@, opt_str_view(error)),
{
    let mut out = str_chars(FAILED_HEAD);
    extend_str(&mut out, INSTRUCTION_PART);
    extend_str(&mut out, input);
    extend_str(&mut out, PLAN_PART);
    extend_str(&mut out, plan);
    push_failure_notes(&mut out, error);
    chars_to_string(&out)
}

pub fn build_failed_followup_prompt_with_context(
    input: &str,
    context: &str,
    plan: &str,
    error: Option<&str>,
) -> (prompt: String)
    ensures
        prompt@ == spec_failed_followup_prompt_with_context(
            input@,
            context@,
            plan@,
            opt_str_view(error),
        ),
{
    if is_blank(context) {
        return build_failed_followup_prompt(input, plan, error);
    }
    let mut out = str_chars(FAILED_HEAD);
    extend_str(&mut out, CONTEXT_PART);
    extend_str(&mut out, context);
    extend_str(&mut out, INSTRUCTION_PART);
    extend_str(&mut out, input);
    extend_str(&mut out, PLAN_PART);
    extend_str(&mut out, plan);
    push_failure_notes(&mut out, error);
    chars_to_string(&out)
}

/// A tool result as the model and the user read it: text as it is, lines
/// and paths one per line, a status as `status: N`, a preview as its diff.
pub open spec fn spec_format_tool_result(result: ToolResultView) -> Seq<char> {
    match result {
        ToolResultView::Text(text) => text,
        ToolResultView::Lines(lines) => spec_join(lines, seq!['\n']),
        ToolResultView::Paths(paths) => spec_join(paths, seq!['\n']),
        ToolResultView::Status(code) => "status: "@ + signed_decimal(code),
        ToolResultView::PreviewWrite { diff, .. } => diff,
    }
}

pub fn format_tool_result(result: &ToolResult) -> (text: String)
    ensures
        text@ == spec_format_tool_result(result@),
{
    proof {
        reveal_strlit("\n");
        assert("\n"@ =~= seq!['\n']);
    }
    match result {
        ToolResult::Text(text) => clone_string(text),
        ToolResult::Lines(lines) => chars_to_string(&join_strings(lines, "\n")),
        ToolResult::Paths(paths) => chars_to_string(&join_strings(paths, "\n")),
        ToolResult::Status(code) => {
            let mut out = str_chars("status: ");
            push_signed_decimal(&mut out, *code as i64);
            chars_to_string(&out)
        },
        ToolResult::PreviewWrite { diff, .. } => clone_string(diff),
    }
}

/// The characters that a path may be written with.
pub open spec fn is_path_char(c: char) -> bool {
    is_ascii_alphanumeric_char(c) || c == '/' || c == '.' || c == '_' || c == '-'
}

fn path_char(c: char) -> (b: bool)
    ensures
        b == is_path_char(c),
{
    is_ascii_alphanumeric(c) || c == '/' || c == '.' || c == '_' || c == '-'
}

/// Whether a word looks like a path: it holds a `/`, or it ends like a
/// file of a known kind.
pub open spec fn spec_is_path_candidate(value: Seq<char>) -> bool {
    &&& value.len() > 0
    &&& (has_char(value, '/') || spec_ends_with(value, ".md"@) || spec_ends_with(value, ".rs"@)
        || spec_ends_with(value, ".toml"@) || spec_ends_with(value, ".json"@))
}

pub fn is_path_candidate_chars(value: &Vec<char>) -> (b: bool)
    ensures
        b == spec_is_path_candidate(value@),
{
    if value.len() == 0 {
        return false;
    }
    if contains_char(value, '/') {
        return true;
    }
    ends_with_str(value, ".md") || ends_with_str(value, ".rs") || ends_with_str(value, ".toml")
        || ends_with_str(value, ".json")
}

pub fn is_path_candidate(value: &str) -> (b: bool)
    ensures
        b == spec_is_path_candidate(value@),
{
    is_path_candidate_chars(&str_chars(value))
}

/// The longer of two words; the first where they are equally long.
pub open spec fn spec_pick_longer(current: Seq<char>, candidate: Seq<char>) -> Seq<char> {
    if candidate.len() > current.len() {
        candidate
    } else {
        current
    }
}

pub fn pick_longer(current: Vec<char>, candidate: Vec<char>) -> (out: Vec<char>)
    ensures
        out@ == spec_pick_longer(current@, candidate@),
{
    if candidate.len() > current.len() {
        candidate
    } else {
        current
    }
}

/// The best path-like word seen so far, once the word that ends at `upto`
/// has been looked at.
pub open spec fn spec_best_after(best: Seq<char>, word: Seq<char>) -> Seq<char> {
    if spec_is_path_candidate(word) {
        spec_pick_longer(best, word)
    } else {
        best
    }
}

/// Reads `input[..upto]` one character at a time. The first part of the
/// result is the best path-like word among the words that have ended, the
/// second the word that is still open.
pub open spec fn spec_scan_words(input: Seq<char>, upto: int) -> (Seq<char>, Seq<char>)
    decreases upto,
{
    if upto <= 0 || upto > input.len() {
        (Seq::empty(), Seq::empty())
    } else {
        let (best, word) = spec_scan_words(input, upto - 1);
        if is_path_char(input[upto - 1]) {
            (best, word.push(input[upto - 1]))
        } else {
            (spec_best_after(best, word), Seq::empty())
        }
    }
}

/// The longest word of the instruction that looks like a path, and the
/// first of them where several are equally long. A word is a run of the
/// characters that a path may be written with.
pub open spec fn spec_extract_path_like(input: Seq<char>) -> Option<Seq<char>> {
    let (best, word) = spec_scan_words(input, input.len() as int);
    let best = spec_best_after(best, word);
    if best.len() == 0 {
        None
    } else {
        Some(best)
    }
}

pub fn extract_path_like(input: &str) -> (path: Option<String>)
    ensures
        opt_view(path) == spec_extract_path_like(input@),
{
    let chars = str_chars(input);
    let mut current: Vec<char> = Vec::new();
    let mut best: Vec<char> = Vec::new();
    let mut i: usize = 0;
    while i < chars.len()
        invariant
            i <= chars.len(),
            chars@ == input@,
            (best@, current@) == spec_scan_words(input@, i as int),
        decreases chars.len() - i,
    {
        let ch = chars[i];
        if path_char(ch) {
            current.push(ch);
        } else {
            if is_path_candidate_chars(&current) {
                best = pick_longer(best, current);
            }
            current = Vec::new();
        }
        i += 1;
    }
    if is_path_candidate_chars(&current) {
        best = pick_longer(best, current);
    }
    if best.len() == 0 {
        None
    } else {
        Some(chars_to_string(&best))
    }
}

/// Whether the instruction asks, by its words, for a file to be read.
pub open spec fn spec_mentions_read(input: Seq<char>) -> bool {
    spec_contains(spec_ascii_lowercase(input), "read"@) || has_char(input, '読')
}

/// The path to read at once, where the instruction asks for a file to be
/// read and names something that looks like a path.
pub open spec fn spec_detect_direct_read_path(input: Seq<char>) -> Option<Seq<char>> {
    if spec_mentions_read(input) {
        spec_extract_path_like(input)
    } else {
        None
    }
}

pub fn detect_direct_read_path(input: &str) -> (path: Option<String>)
    ensures
        opt_view(path) == spec_detect_direct_read_path(input@),
{
    let chars = str_chars(input);
    let lowered = ascii_lowercase(&chars);
    if !(contains_str(&lowered, "read") || contains_char(&chars, '読')) {
        return None;
    }
    extract_path_like(input)
}

/// Characters that a path may be written with only make the open word
/// longer: the best word so far stays.
pub proof fn lemma_scan_keeps_word_open(input: Seq<char>, from: int, upto: int)
    requires
        0 <= from <= upto <= input.len(),
        forall|i: int| from <= i < upto ==> is_path_char(#[trigger] input[i]),
    ensures
        spec_scan_words(input, upto) == (
            spec_scan_words(input, from).0,
            spec_scan_words(input, from).1 + input.subrange(from, upto),
        ),
    decreases upto - from,
{
    let open = spec_scan_words(input, from).1;
    if upto == from {
        assert(open + input.subrange(from, upto) =~= open);
    } else {
        lemma_scan_keeps_word_open(input, from, upto - 1);
        assert((open + input.subrange(from, upto - 1)).push(input[upto - 1]) =~= open
            + input.subrange(from, upto));
    }
}

/// An instruction made of the word `read`, a space and one word that
/// looks like a path asks for that path to be read at once.
pub proof fn lemma_read_names_its_file(path: Seq<char>)
    requires
        forall|i: int| 0 <= i < path.len() ==> is_path_char(#[trigger] path[i]),
        spec_is_path_candidate(path),
    ensures
        spec_detect_direct_read_path("read "@ + path) == Some(path),
{
    reveal_strlit("read ");
    reveal_strlit("read");
    reveal_strlit(".md");
    reveal_strlit(".rs");
    reveal_strlit(".toml");
    reveal_strlit(".json");
    let input = "read "@ + path;
    let verb = "read"@;
    let lowered = spec_ascii_lowercase(input);
    assert(lowered.subrange(0, 4) =~= verb);
    assert(occurs_at(lowered, verb, 0));
    assert(spec_mentions_read(input));

    assert(input.subrange(0, 4) =~= verb);
    assert forall|i: int| 0 <= i < 4 implies is_path_char(#[trigger] input[i]) by {
        assert(input[i] == verb[i]);
    }
    lemma_scan_keeps_word_open(input, 0, 4);
    assert(spec_scan_words(input, 0) == (Seq::<char>::empty(), Seq::<char>::empty()));
    assert(Seq::<char>::empty() + verb =~= verb);
    assert(spec_scan_words(input, 4) == (Seq::<char>::empty(), verb));

    lemma_index_of_from(verb, '/', 0);
    assert(!has_char(verb, '/'));
    assert(verb.subrange(1, 4)[0] == 'e');
    assert(!spec_is_path_candidate(verb));
    assert(input[4] == ' ');
    assert(spec_scan_words(input, 5) == (Seq::<char>::empty(), Seq::<char>::empty()));

    let end = input.len() as int;
    assert forall|i: int| 5 <= i < end implies is_path_char(#[trigger] input[i]) by {
        assert(input[i] == path[i - 5]);
    }
    lemma_scan_keeps_word_open(input, 5, end);
    assert(input.subrange(5, end) =~= path);
    assert(Seq::<char>::empty() + path =~= path);
    assert(spec_scan_words(input, end) == (Seq::<char>::empty(), path));
}

/// The instruction `read README.md` asks for the file `README.md` to be
/// read at once.
pub proof fn lemma_read_readme_names_the_file()
    ensures
        spec_detect_direct_read_path("read README.md"@) == Some("README.md"@),
{
    reveal_strlit("read README.md");
    reveal_strlit("read ");
    reveal_strlit("README.md");
    reveal_strlit(".md");
    let path = "README.md"@;
    assert(path.subrange(6, 9) =~= ".md"@);
    assert(spec_ends_with(path, ".md"@));
    lemma_read_names_its_file(path);
    assert("read "@ + path =~= "read README.md"@);
}

/// Without earlier conversation every prompt is the one that does not
/// speak of it: none holds an empty part for the conversation.
pub proof fn lemma_prompts_without_context(
    input: Seq<char>,
    context: Seq<char>,
    plan: Seq<char>,
    tool_result: Seq<char>,
    error: Option<Seq<char>>,
    last_call: Option<Seq<char>>,
)
    requires
        no_context(context),
    ensures
        spec_plan_prompt_with_context(input, context) == spec_plan_prompt(input),
        spec_execute_prompt_with_context(input, context, plan) == spec_execute_prompt(input, plan),
        spec_followup_prompt_with_context(input, context, plan, tool_result)
            == spec_followup_prompt(input, plan, tool_result),
        spec_failed_followup_prompt_with_context(input, context, plan, error)
            == spec_failed_followup_prompt(input, plan, error),
        spec_tool_select_prompt(input, context, plan, error, last_call) == SELECT_HEAD@
            + spec_retry_notes(error, last_call) + PLAN_PART@ + plan + INSTRUCTION_PART@ + input,
{
}

} // verus!
