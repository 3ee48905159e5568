use tengu::agent::{
    build_execute_prompt, build_execute_prompt_with_context, build_failed_followup_prompt,
    build_failed_followup_prompt_with_context, build_followup_prompt,
    build_followup_prompt_with_context, build_plan_prompt, build_plan_prompt_with_context,
    build_tool_select_prompt_with_context, detect_direct_read_path, extract_path_like,
    format_tool_result, is_path_candidate, pick_longer, Agent, MAX_TOOL_RETRIES,
};
use tengu::toolcall::{
    decode_tool_call, tool_call_text, JsonField, RawToolCall, ToolCall,
};
use tengu::tools::{ToolInput, ToolResult};

fn strings(items: &[&str]) -> Vec<String> {
    items.iter().map(|s| s.to_string()).collect()
}

#[test]
fn new_agent_has_only_a_name() {
    let agent = Agent::new("helper".to_string());
    assert_eq!(agent.name, "helper");
    assert_eq!(agent.description, "");
    assert_eq!(agent.prompt, "");
}

#[test]
fn retry_budget_is_two() {
    assert_eq!(MAX_TOOL_RETRIES, 2);
}

#[test]
fn plan_prompt_ends_with_the_instruction() {
    let prompt = build_plan_prompt("fix the bug");
    assert_eq!(
        prompt,
        "次の指示に対して、最小の計画を1-3項目で日本語の箇条書きで作成してください。\n\n指示:\nfix the bug"
    );
    assert_eq!(build_plan_prompt_with_context("fix the bug", "  \n"), prompt);
    assert_eq!(
        build_plan_prompt_with_context("fix", "user: hi"),
        "次の過去の会話を踏まえて、指示に対する最小の計画を1-3項目で日本語の箇条書きで作成してください。\n\n過去の会話:\nuser: hi\n\n指示:\nfix"
    );
}

#[test]
fn execute_prompt_holds_plan_and_instruction() {
    assert_eq!(
        build_execute_prompt("do it", "- step"),
        "次の計画に従って実行してください。\n\n計画:\n- step\n\n指示:\ndo it"
    );
    assert_eq!(
        build_execute_prompt_with_context("do it", "", "- step"),
        build_execute_prompt("do it", "- step")
    );
    assert_eq!(
        build_execute_prompt_with_context("do it", "ctx", "- step"),
        "次の過去の会話と計画に従って実行してください。\n\n過去の会話:\nctx\n\n計画:\n- step\n\n指示:\ndo it"
    );
}

#[test]
fn tool_select_prompt_tells_of_the_last_failure() {
    let tail = "JSONのみで出力してください。\nツールが不要なら {\"tool\":\"none\"} とだけ出力してください。";
    let with_context = build_tool_select_prompt_with_context("in", "ctx", "plan", None, None);
    assert_eq!(
        with_context,
        format!(
            "次の過去の会話と計画を進めるために必要なツールがあれば、{}\n\n過去の会話:\nctx\n\n計画:\nplan\n\n指示:\nin",
            tail
        )
    );
    let plain = build_tool_select_prompt_with_context("in", " \n", "plan", None, None);
    assert_eq!(
        plain,
        format!("次の計画を進めるために必要なツールがあれば、{}\n\n計画:\nplan\n\n指示:\nin", tail)
    );
    assert!(!plain.contains("過去の会話"));
    let retry = build_tool_select_prompt_with_context(
        "in",
        "ctx",
        "plan",
        Some("not found"),
        Some("{\"tool\":\"read\",\"path\":\"a\"}"),
    );
    assert_eq!(
        retry,
        format!(
            "次の過去の会話と計画を進めるために必要なツールがあれば、{}\n前回の失敗理由:\nnot found\n前回のツール呼び出し:\n{{\"tool\":\"read\",\"path\":\"a\"}}\n\n\n過去の会話:\nctx\n\n計画:\nplan\n\n指示:\nin",
            tail
        )
    );
    let only_error = build_tool_select_prompt_with_context("in", "", "plan", Some("boom"), None);
    assert_eq!(
        only_error,
        format!(
            "次の計画を進めるために必要なツールがあれば、{}\n前回の失敗理由:\nboom\n\n\n計画:\nplan\n\n指示:\nin",
            tail
        )
    );
}

#[test]
fn followup_prompt_holds_the_tool_result() {
    assert_eq!(
        build_followup_prompt("in", "plan", "result"),
        "実行結果を踏まえて最終回答を簡潔に出力してください。\n\n指示:\nin\n\n計画:\nplan\n\nツール結果:\nresult"
    );
    assert_eq!(
        build_followup_prompt_with_context("in", " ", "plan", "result"),
        build_followup_prompt("in", "plan", "result")
    );
    assert_eq!(
        build_followup_prompt_with_context("in", "ctx", "plan", "result"),
        "実行結果を踏まえて最終回答を簡潔に出力してください。\n\n過去の会話:\nctx\n\n指示:\nin\n\n計画:\nplan\n\nツール結果:\nresult"
    );
}

#[test]
fn failed_prompt_holds_the_reason() {
    assert_eq!(
        build_failed_followup_prompt("in", "plan", Some("boom")),
        "ツール実行に失敗したため、失敗理由を踏まえて最終回答を簡潔に出力してください。\n\n指示:\nin\n\n計画:\nplan\n\n失敗理由:\nboom"
    );
    assert_eq!(
        build_failed_followup_prompt("in", "plan", None),
        "ツール実行に失敗したため、失敗理由を踏まえて最終回答を簡潔に出力してください。\n\n指示:\nin\n\n計画:\nplan"
    );
    assert_eq!(
        build_failed_followup_prompt_with_context("in", "", "plan", Some("boom")),
        build_failed_followup_prompt("in", "plan", Some("boom"))
    );
    assert_eq!(
        build_failed_followup_prompt_with_context("in", "ctx", "plan", Some("boom")),
        "ツール実行に失敗したため、失敗理由を踏まえて最終回答を簡潔に出力してください。\n\n過去の会話:\nctx\n\n指示:\nin\n\n計画:\nplan\n\n失敗理由:\nboom"
    );
}

#[test]
fn tool_results_are_formatted_for_reading() {
    assert_eq!(format_tool_result(&ToolResult::Text("a\nb".to_string())), "a\nb");
    assert_eq!(format_tool_result(&ToolResult::Lines(strings(&["x:1:a", "y:2:b"]))), "x:1:a\ny:2:b");
    assert_eq!(format_tool_result(&ToolResult::Lines(Vec::new())), "");
    assert_eq!(format_tool_result(&ToolResult::Paths(strings(&["a.rs", "b.rs"]))), "a.rs\nb.rs");
    assert_eq!(format_tool_result(&ToolResult::Status(0)), "status: 0");
    assert_eq!(format_tool_result(&ToolResult::Status(-7)), "status: -7");
    assert_eq!(format_tool_result(&ToolResult::Status(i32::MIN)), "status: -2147483648");
    let preview = ToolResult::PreviewWrite {
        path: "f".to_string(),
        diff: "--- f\n".to_string(),
        content: "c".to_string(),
    };
    assert_eq!(format_tool_result(&preview), "--- f\n");
}

#[test]
fn direct_read_needs_the_word_and_a_path() {
    assert_eq!(detect_direct_read_path("read README.md"), Some("README.md".to_string()));
    assert_eq!(detect_direct_read_path("Please READ src/main.rs now"), Some("src/main.rs".to_string()));
    assert_eq!(detect_direct_read_path("README.md を読んで"), Some("README.md".to_string()));
    assert_eq!(detect_direct_read_path("open NOTES.md"), None);
    assert_eq!(detect_direct_read_path("open README.md"), Some("README.md".to_string()));
    assert_eq!(detect_direct_read_path("read the manual"), None);
    assert_eq!(detect_direct_read_path(""), None);
}

#[test]
fn longest_path_like_word_wins_and_first_among_equals() {
    assert_eq!(extract_path_like("a.md and docs/guide.md"), Some("docs/guide.md".to_string()));
    assert_eq!(extract_path_like("x.rs y.rs"), Some("x.rs".to_string()));
    assert_eq!(extract_path_like("see (Cargo.toml), then data.json!"), Some("Cargo.toml".to_string()));
    assert_eq!(extract_path_like("no paths here"), None);
    assert_eq!(extract_path_like("a/b"), Some("a/b".to_string()));
    assert_eq!(extract_path_like("file.txt"), None);
}

#[test]
fn path_candidates() {
    assert!(is_path_candidate("src/lib.rs"));
    assert!(is_path_candidate("/"));
    assert!(is_path_candidate("notes.md"));
    assert!(is_path_candidate("a.toml"));
    assert!(is_path_candidate("a.json"));
    assert!(is_path_candidate(".rs"));
    assert!(!is_path_candidate(""));
    assert!(!is_path_candidate("notes"));
    assert!(!is_path_candidate("notes.txt"));
    assert!(!is_path_candidate("md"));
}

#[test]
fn pick_longer_keeps_the_first_of_equals() {
    let pick = |a: &str, b: &str| -> String {
        pick_longer(a.chars().collect(), b.chars().collect()).into_iter().collect()
    };
    assert_eq!(pick("ab", "cde"), "cde");
    assert_eq!(pick("abc", "de"), "abc");
    assert_eq!(pick("ab", "cd"), "ab");
    assert_eq!(pick("", ""), "");
}

#[test]
fn model_answer_is_framed_as_json_only_when_it_begins_with_a_brace() {
    assert_eq!(tool_call_text("  {\"tool\":\"none\"}\n"), Some("{\"tool\":\"none\"}".to_string()));
    assert_eq!(tool_call_text("{"), Some("{".to_string()));
    assert_eq!(tool_call_text("Sure! {\"tool\":\"read\"}"), None);
    assert_eq!(tool_call_text("[1]"), None);
    assert_eq!(tool_call_text("   "), None);
    assert_eq!(tool_call_text(""), None);
}

fn raw(tool: JsonField) -> RawToolCall {
    RawToolCall {
        tool,
        path: JsonField::Missing,
        content: JsonField::Missing,
        pattern: JsonField::Missing,
        paths: JsonField::Missing,
        root: JsonField::Missing,
    }
}

fn text(s: &str) -> JsonField {
    JsonField::Text(s.to_string())
}

#[test]
fn known_tool_calls_are_decoded() {
    let mut read = raw(text("read"));
    read.path = text("a.md");
    match decode_tool_call(&read) {
        Some(ToolCall::Read { path }) => assert_eq!(path, "a.md"),
        other => panic!("unexpected call {:?}", other),
    }
    let mut write = raw(text("write"));
    write.path = text("a.md");
    write.content = text("hello");
    match decode_tool_call(&write) {
        Some(ToolCall::Write { path, content }) => {
            assert_eq!(path, "a.md");
            assert_eq!(content, "hello");
        }
        other => panic!("unexpected call {:?}", other),
    }
    let mut grep = raw(text("grep"));
    grep.pattern = text("NOTE");
    grep.paths = JsonField::TextList(strings(&["src", "docs"]));
    match decode_tool_call(&grep) {
        Some(ToolCall::Grep { pattern, paths }) => {
            assert_eq!(pattern, "NOTE");
            assert_eq!(paths, strings(&["src", "docs"]));
        }
        other => panic!("unexpected call {:?}", other),
    }
    let mut glob = raw(text("glob"));
    glob.pattern = text("*.rs");
    for root in [JsonField::Missing, JsonField::Null] {
        glob.root = root;
        match decode_tool_call(&glob) {
            Some(ToolCall::Glob { pattern, root }) => {
                assert_eq!(pattern, "*.rs");
                assert_eq!(root, None);
            }
            other => panic!("unexpected call {:?}", other),
        }
    }
    glob.root = text("src");
    match decode_tool_call(&glob) {
        Some(ToolCall::Glob { root, .. }) => assert_eq!(root, Some("src".to_string())),
        other => panic!("unexpected call {:?}", other),
    }
}

#[test]
fn unknown_tools_and_wrong_members_are_no_call() {
    assert!(decode_tool_call(&raw(text("none"))).is_none());
    assert!(decode_tool_call(&raw(text("shell"))).is_none());
    assert!(decode_tool_call(&raw(text("Read"))).is_none());
    assert!(decode_tool_call(&raw(text(""))).is_none());
    assert!(decode_tool_call(&raw(JsonField::Missing)).is_none());
    assert!(decode_tool_call(&raw(JsonField::Null)).is_none());
    assert!(decode_tool_call(&raw(JsonField::Other)).is_none());
    assert!(decode_tool_call(&raw(text("read"))).is_none());
    let mut read = raw(text("read"));
    read.path = JsonField::Other;
    assert!(decode_tool_call(&read).is_none());
    read.path = JsonField::TextList(strings(&["a"]));
    assert!(decode_tool_call(&read).is_none());
    let mut write = raw(text("write"));
    write.path = text("a");
    assert!(decode_tool_call(&write).is_none());
    let mut grep = raw(text("grep"));
    grep.pattern = text("p");
    grep.paths = text("src");
    assert!(decode_tool_call(&grep).is_none());
    let mut glob = raw(text("glob"));
    glob.pattern = text("*");
    glob.root = JsonField::Other;
    assert!(decode_tool_call(&glob).is_none());
}

#[test]
fn members_that_a_call_does_not_use_are_not_looked_at() {
    let mut read = raw(text("read"));
    read.path = text("a");
    read.paths = JsonField::Other;
    read.content = JsonField::Null;
    assert!(matches!(decode_tool_call(&read), Some(ToolCall::Read { .. })));
}

#[test]
fn calls_are_written_as_json() {
    let read = ToolCall::Read { path: "a \"b\"\n.md".to_string() };
    assert_eq!(read.to_json(), "{\"tool\":\"read\",\"path\":\"a \\\"b\\\"\\n.md\"}");
    let write = ToolCall::Write { path: "a".to_string(), content: "x\\y".to_string() };
    assert_eq!(
        write.to_json(),
        "{\"tool\":\"write\",\"path\":\"a\",\"content\":\"x\\\\y\"}"
    );
    let grep = ToolCall::Grep { pattern: "p".to_string(), paths: strings(&["a", "b/c"]) };
    assert_eq!(
        grep.to_json(),
        "{\"tool\":\"grep\",\"pattern\":\"p\",\"paths\":[\"a\",\"b/c\"]}"
    );
    let grep = ToolCall::Grep { pattern: "p".to_string(), paths: Vec::new() };
    assert_eq!(grep.to_json(), "{\"tool\":\"grep\",\"pattern\":\"p\",\"paths\":[]}");
    let glob = ToolCall::Glob { pattern: "*.rs".to_string(), root: None };
    assert_eq!(glob.to_json(), "{\"tool\":\"glob\",\"pattern\":\"*.rs\",\"root\":null}");
    let glob = ToolCall::Glob { pattern: "*.rs".to_string(), root: Some("src".to_string()) };
    assert_eq!(glob.to_json(), "{\"tool\":\"glob\",\"pattern\":\"*.rs\",\"root\":\"src\"}");
}

#[test]
fn calls_stand_for_requests() {
    match (ToolCall::Write { path: "a".to_string(), content: "c".to_string() }).to_input() {
        ToolInput::Write { path, content } => {
            assert_eq!(path, "a");
            assert_eq!(content, "c");
        }
        other => panic!("unexpected input {:?}", other),
    }
    match (ToolCall::Glob { pattern: "*".to_string(), root: None }).to_input() {
        ToolInput::Glob { pattern, root } => {
            assert_eq!(pattern, "*");
            assert_eq!(root, None);
        }
        other => panic!("unexpected input {:?}", other),
    }
}
