use tengu::cli::{
    agent_command_message, auth_command_message, ollama_base_url, repl_input,
    resolve_system_prompt, system_prompt_sources, tool_command_input, AgentCommands,
    AuthCommands, Cli, Commands, PromptSource, ReplInput, RunMode, ToolCommands,
};
use tengu::config::{expand_env_vars_in_string, is_env_var_char, Config, EnvVar, ModelConfig, PermissionsConfig};
use tengu::llm::{AnthropicBackend, GoogleBackend, LlmProvider, OllamaBackend, OpenAiBackend};
use tengu::mcp::{list_mcp_servers, server_summary, stdio_server, McpConfig, McpServer, McpServerConfig, McpStore};
use tengu::output::{
    format_output, log_system_prompt_sources, mcp_add, mcp_remove, mcp_tool_line, resume_line,
    session_line, source_label,
};
use tengu::session::{is_session_file, Session, SessionStore};
use tengu::stream::{LineStep, LineStream, SseParser};
use tengu::text::text_le;
use tengu::tools::ToolInput;

fn strings(items: &[&str]) -> Vec<String> {
    items.iter().map(|s| s.to_string()).collect()
}

#[test]
fn provider_names() {
    assert_eq!(LlmProvider::from_str("anthropic"), Ok(LlmProvider::Anthropic));
    assert_eq!(LlmProvider::from_str(" OpenAI "), Ok(LlmProvider::OpenAI));
    assert_eq!(LlmProvider::from_str("google"), Ok(LlmProvider::Google));
    assert_eq!(LlmProvider::from_str("Gemini"), Ok(LlmProvider::Google));
    for name in ["local", "ollama", "lm-studio", "LMStudio"] {
        assert_eq!(LlmProvider::from_str(name), Ok(LlmProvider::Local));
    }
    assert_eq!(LlmProvider::from_str(" Mistral\n"), Err("unsupported provider: mistral".to_string()));
    assert_eq!(LlmProvider::from_str(""), Err("unsupported provider: ".to_string()));
}

#[test]
fn backends_know_their_provider() {
    assert_eq!(AnthropicBackend.provider(), LlmProvider::Anthropic);
    assert_eq!(OpenAiBackend.provider(), LlmProvider::OpenAI);
    assert_eq!(GoogleBackend.provider(), LlmProvider::Google);
    assert_eq!(OllamaBackend::new("x".to_string()).provider(), LlmProvider::Local);
}

#[test]
fn generate_url_adds_the_api_path_once() {
    let url = |base: &str| OllamaBackend::new(base.to_string()).generate_url();
    assert_eq!(url("http://localhost:11434"), "http://localhost:11434/api/generate");
    assert_eq!(url("http://localhost:11434///"), "http://localhost:11434/api/generate");
    assert_eq!(url("http://host/api"), "http://host/api/generate");
    assert_eq!(url("http://host/api/"), "http://host/api/generate");
    assert_eq!(url(""), "/api/generate");
    assert_eq!(OllamaBackend::new("b".to_string()).base_url, "b");
}

#[test]
fn fresh_sessions_differ_and_are_made_and_touched_at_once() {
    let a = Session::new();
    let b = Session::new();
    assert_ne!(a.id, b.id);
    assert_eq!(a.id.len(), 36);
    for (i, c) in a.id.chars().enumerate() {
        if i == 8 || i == 13 || i == 18 || i == 23 {
            assert_eq!(c, '-');
        } else {
            assert!(c.is_ascii_digit() || ('a'..='f').contains(&c), "{:?}", a.id);
        }
    }
    assert_eq!(a.id.chars().nth(14), Some('4'));
    assert!(matches!(a.id.chars().nth(19), Some('8') | Some('9') | Some('a') | Some('b')));
    assert_eq!(a.created_at, a.updated_at);
    assert!(a.created_at.contains('T'));
    assert!(a.created_at.ends_with("+00:00"));
    assert_eq!(a.duplicate().id, a.id);
}

fn session(id: &str, at: &str) -> Session {
    Session { id: id.to_string(), created_at: "c".to_string(), updated_at: at.to_string() }
}

#[test]
fn latest_session_is_the_one_touched_last() {
    let store = SessionStore::new("/home/u/.tengu/sessions".to_string());
    assert_eq!(store.root, "/home/u/.tengu/sessions");
    assert!(store.latest(&Vec::new()).is_none());
    let all = vec![
        session("a", "2024-01-02T00:00:00Z"),
        session("b", "2024-03-01T00:00:00Z"),
        session("c", "2024-02-01T00:00:00Z"),
    ];
    assert_eq!(store.latest(&all).unwrap().id, "b");
    let ties = vec![session("a", "t2"), session("b", "t1"), session("c", "t2")];
    assert_eq!(store.latest(&ties).unwrap().id, "c");
    assert_eq!(store.latest(&vec![session("only", "")]).unwrap().id, "only");
}

#[test]
fn session_files() {
    let store = SessionStore::new("/s".to_string());
    assert_eq!(store.session_path("abc"), "/s/abc.json");
    assert_eq!(store.index_path(), "/s/sessions.db");
    assert!(is_session_file("/s/abc.json"));
    assert!(!is_session_file("/s/sessions.db"));
    assert!(!is_session_file("/s/abc.txt"));
    assert!(!is_session_file("/s/.json"));
    assert!(!is_session_file("/s/json"));
}

#[test]
fn text_order_agrees_with_std() {
    let words = ["", "a", "ab", "b", "B", "é", "z", "日本", "2024-01-02", "2024-01-10"];
    for a in words {
        for b in words {
            assert_eq!(text_le(a, b), a <= b, "{:?} {:?}", a, b);
        }
    }
}

#[test]
fn mcp_server_and_default_path() {
    let server = McpServer::new("fs".to_string(), strings(&["npx", "server"]));
    assert_eq!(server.name, "fs");
    assert_eq!(server.command, strings(&["npx", "server"]));
    assert_eq!(McpStore::default_path(), "./.tengu/mcp.toml");
}

#[test]
fn stdio_server_splits_command_and_arguments() {
    assert!(stdio_server(&Vec::new()).is_none());
    let one = stdio_server(&strings(&["node"])).unwrap();
    assert_eq!(one.command.as_deref(), Some("node"));
    assert_eq!(one.args, None);
    assert!(one.url.is_none() && one.env.is_none() && one.timeout_sec.is_none());
    let more = stdio_server(&strings(&["npx", "-y", "server"])).unwrap();
    assert_eq!(more.command.as_deref(), Some("npx"));
    assert_eq!(more.args, Some(strings(&["-y", "server"])));
}

fn summary(server: &McpServerConfig) -> String {
    server_summary(server).into_iter().collect()
}

#[test]
fn server_summaries() {
    let mut server = McpServerConfig::default();
    assert_eq!(summary(&server), "unknown");
    server.command = Some("npx".to_string());
    assert_eq!(summary(&server), "stdio npx");
    server.args = Some(Vec::new());
    assert_eq!(summary(&server), "stdio npx");
    server.args = Some(strings(&["-y", "srv"]));
    assert_eq!(summary(&server), "stdio npx -y srv");
    server.url = Some("http://h/mcp".to_string());
    assert_eq!(summary(&server), "http http://h/mcp");
}

#[test]
fn servers_are_kept_in_the_order_of_their_names() {
    let mut config = McpConfig::default();
    assert!(config.is_empty());
    assert_eq!(list_mcp_servers(&config), "no mcp servers");
    assert_eq!(mcp_add(&mut config, "web", &strings(&["node", "web.js"])), Ok("mcp server added: web".to_string()));
    assert_eq!(mcp_add(&mut config, "fs", &strings(&["npx", "fs"])), Ok("mcp server added: fs".to_string()));
    assert_eq!(mcp_add(&mut config, "git", &strings(&["git-mcp"])), Ok("mcp server added: git".to_string()));
    assert_eq!(mcp_add(&mut config, "bad", &Vec::new()), Err("mcp add requires a command".to_string()));
    let names: Vec<&str> = config.mcp_servers.iter().map(|e| e.name.as_str()).collect();
    assert_eq!(names, vec!["fs", "git", "web"]);
    assert_eq!(list_mcp_servers(&config), "fs stdio npx fs\ngit stdio git-mcp\nweb stdio node web.js");
    assert_eq!(config.get("git").unwrap().command.as_deref(), Some("git-mcp"));
    assert!(config.get("gi").is_none());
    assert!(config.get("zzz").is_none());

    let mut remote = McpServerConfig::default();
    remote.url = Some("http://h".to_string());
    config.insert("git".to_string(), remote);
    assert_eq!(config.mcp_servers.len(), 3);
    assert_eq!(config.get("git").unwrap().url.as_deref(), Some("http://h"));

    assert_eq!(mcp_remove(&mut config, "fs"), (true, "mcp server removed: fs".to_string()));
    assert_eq!(mcp_remove(&mut config, "fs"), (false, "mcp server not found: fs".to_string()));
    assert_eq!(list_mcp_servers(&config), "git http http://h\nweb stdio node web.js");
    assert!(config.remove("web").is_some());
    assert!(config.remove("git").is_some());
    assert!(config.is_empty());
}

fn env() -> Vec<EnvVar> {
    vec![
        EnvVar { name: "HOME".to_string(), value: "/home/u".to_string() },
        EnvVar { name: "MODE".to_string(), value: "always".to_string() },
        EnvVar { name: "HOME".to_string(), value: "/second".to_string() },
        EnvVar { name: "A_1".to_string(), value: "x".to_string() },
    ]
}

#[test]
fn variables_are_put_in() {
    let expand = |s: &str| expand_env_vars_in_string(s, &env());
    assert_eq!(expand("plain"), "plain");
    assert_eq!(expand("$HOME/x"), "/home/u/x");
    assert_eq!(expand("${HOME}x"), "/home/ux");
    assert_eq!(expand("a$A_1-b"), "ax-b");
    assert_eq!(expand("$A_1b"), "$A_1b");
    assert_eq!(expand("$MISSING/x"), "$MISSING/x");
    assert_eq!(expand("${MISSING}"), "${MISSING}");
    assert_eq!(expand("${}"), "${}");
    assert_eq!(expand("${"), "${}");
    assert_eq!(expand("${HOME"), "/home/u");
    assert_eq!(expand("${NOPE"), "${NOPE}");
    assert_eq!(expand("$"), "$");
    assert_eq!(expand("$$HOME"), "$/home/u");
    assert_eq!(expand("cost: $ 5"), "cost: $ 5");
    assert_eq!(expand("${A B}"), "${A B}");
    assert_eq!(expand("日本$MODE語"), "日本always語");
    assert_eq!(expand("日本$MODEX 語"), "日本$MODEX 語");
    assert!(is_env_var_char('_') && is_env_var_char('a') && is_env_var_char('Z') && is_env_var_char('7'));
    assert!(!is_env_var_char('-') && !is_env_var_char('é') && !is_env_var_char('$'));
}

#[test]
fn settings_have_variables_put_in() {
    let mut config = Config::default();
    assert_eq!(config.model.provider, "anthropic");
    assert_eq!(config.model.max_tokens, Some(8192));
    assert!(config.model.name.is_none() && config.permissions.is_none() && config.sandbox.is_none());
    config.model.provider = "$MODE".to_string();
    config.model.default = "m-${A_1}".to_string();
    config.model.name = Some("$HOME".to_string());
    config.permissions = Some(PermissionsConfig {
        approval_policy: Some("${MODE}".to_string()),
        allowed_tools: Some(strings(&["Read($HOME/*)", "Grep"])),
        deny: Some(strings(&["Write(${HOME}/.ssh/*)"])),
    });
    config.expand_env_vars(&env());
    assert_eq!(config.model.provider, "always");
    assert_eq!(config.model.default, "m-x");
    assert_eq!(config.model.name.as_deref(), Some("$HOME"));
    let p = config.permissions.unwrap();
    assert_eq!(p.approval_policy.as_deref(), Some("always"));
    assert_eq!(p.allowed_tools, Some(strings(&["Read(/home/u/*)", "Grep"])));
    assert_eq!(p.deny, Some(strings(&["Write(/home/u/.ssh/*)"])));
    assert_eq!(ModelConfig::default().backend, None);
}

fn cli() -> Cli {
    Cli {
        prompt: None,
        model: None,
        ollama_base_url: None,
        allowed_tools: None,
        system_prompt: None,
        system_prompt_file: None,
        append_system_prompt: None,
        append_system_prompt_file: None,
        output_format: "text".to_string(),
        agent: None,
        cwd: None,
        add_dir: Vec::new(),
        verbose: false,
        command: None,
    }
}

#[test]
fn run_modes() {
    let mut c = cli();
    assert_eq!(c.mode(), RunMode::Interactive);
    c.prompt = Some("hi".to_string());
    assert_eq!(c.mode(), RunMode::Headless);
    c.command = Some(Commands::Tui);
    assert_eq!(c.mode(), RunMode::Command);
}

#[test]
fn provider_and_model_are_resolved() {
    let mut c = cli();
    let mut config = Config::default();
    assert_eq!(c.resolve_llm_with_config(&config), Err("model name is not set in config.toml".to_string()));
    config.model.name = Some("llama3".to_string());
    assert_eq!(c.resolve_llm_with_config(&config), Ok((LlmProvider::Local, "llama3".to_string())));
    config.model.backend = Some("openai".to_string());
    assert_eq!(c.resolve_llm_with_config(&config), Ok((LlmProvider::OpenAI, "llama3".to_string())));
    c.model = Some("gemini".to_string());
    assert_eq!(c.resolve_llm_with_config(&config), Ok((LlmProvider::Google, "llama3".to_string())));
    c.model = Some("what".to_string());
    assert_eq!(c.resolve_llm_with_config(&config), Err("unsupported provider: what".to_string()));
}

#[test]
fn base_url_sources_in_order() {
    let s = |v: &str| Some(v.to_string());
    assert_eq!(ollama_base_url(s("cli"), s("env"), &s("cfg")), "cli");
    assert_eq!(ollama_base_url(None, s("env"), &s("cfg")), "env");
    assert_eq!(ollama_base_url(None, None, &s("cfg")), "cfg");
    assert_eq!(ollama_base_url(None, None, &None), "http://localhost:11434");
}

#[test]
fn repl_lines() {
    assert!(matches!(repl_input("   \n"), ReplInput::Skip));
    assert!(matches!(repl_input("exit\n"), ReplInput::Quit));
    assert!(matches!(repl_input("  QUIT "), ReplInput::Quit));
    match repl_input("  exit now \n") {
        ReplInput::Prompt(text) => assert_eq!(text, "exit now"),
        other => panic!("unexpected input {:?}", other),
    }
}

#[test]
fn command_messages_and_inputs() {
    assert_eq!(agent_command_message(&AgentCommands::List), "List agents");
    assert_eq!(agent_command_message(&AgentCommands::Create { name: "a".to_string() }), "Create agent: a");
    assert_eq!(agent_command_message(&AgentCommands::Remove { name: "a".to_string() }), "Remove agent: a");
    assert_eq!(agent_command_message(&AgentCommands::Generate), "Generate agent with AI assistance");
    assert_eq!(auth_command_message(AuthCommands::Login), "Login");
    assert_eq!(auth_command_message(AuthCommands::Logout), "Logout");
    assert_eq!(auth_command_message(AuthCommands::Status), "Auth status");
    let grep = ToolCommands::Grep { pattern: "p".to_string(), paths: strings(&["a"]) };
    match tool_command_input(&grep) {
        ToolInput::Grep { pattern, paths } => {
            assert_eq!(pattern, "p");
            assert_eq!(paths, strings(&["a"]));
        }
        other => panic!("unexpected input {:?}", other),
    }
    assert!(matches!(tool_command_input(&ToolCommands::Read { path: "a".to_string() }), ToolInput::Read { .. }));
}

fn source(label: &str, content: &str) -> PromptSource {
    PromptSource { label: label.to_string(), content: content.to_string() }
}

#[test]
fn system_prompt_is_put_together() {
    let kept = vec![source("global:/g", "G"), source("project:./p", "P")];
    let all = system_prompt_sources(None, None, kept.clone(), Some(source("append_file:/a", "A")), Some("tail".to_string()));
    let (prompt, labels) = resolve_system_prompt(&all);
    assert_eq!(prompt.as_deref(), Some("G\n\nP\n\nA\n\ntail"));
    assert_eq!(labels, strings(&["global:/g", "project:./p", "append_file:/a", "append_arg"]));

    let all = system_prompt_sources(None, Some("given".to_string()), kept.clone(), None, None);
    let (prompt, labels) = resolve_system_prompt(&all);
    assert_eq!(prompt.as_deref(), Some("given"));
    assert_eq!(labels, strings(&["system_prompt_arg"]));

    let all = system_prompt_sources(Some(source("system_prompt_file:/f", "F")), Some("given".to_string()), kept, None, None);
    let (prompt, labels) = resolve_system_prompt(&all);
    assert_eq!(prompt.as_deref(), Some("F"));
    assert_eq!(labels, strings(&["system_prompt_file:/f"]));

    let (prompt, labels) = resolve_system_prompt(&system_prompt_sources(None, None, Vec::new(), None, None));
    assert_eq!(prompt, None);
    assert!(labels.is_empty());
    assert_eq!(source_label("global", "/home/u/.tengu/TENGU.md"), "global:/home/u/.tengu/TENGU.md");
}

#[test]
fn output_formats() {
    assert_eq!(format_output("text", "llm", "hi \"there\"", Some("p")), strings(&["hi \"there\""]));
    assert_eq!(format_output("anything", "llm", "hi", None), strings(&["hi"]));
    assert_eq!(
        format_output("json", "llm", "hi \"there\"\n", Some("p")),
        strings(&["{\"message\":\"hi \\\"there\\\"\\n\",\"mode\":\"llm\",\"prompt\":\"p\",\"type\":\"response\"}"])
    );
    assert_eq!(
        format_output("json", "tool", "m", None),
        strings(&["{\"message\":\"m\",\"mode\":\"tool\",\"prompt\":null,\"type\":\"response\"}"])
    );
    assert_eq!(
        format_output("stream-json", "llm", "m", Some("p")),
        strings(&[
            "{\"mode\":\"llm\",\"type\":\"start\"}",
            "{\"content\":\"m\",\"prompt\":\"p\",\"type\":\"message\"}",
            "{\"mode\":\"llm\",\"type\":\"end\"}",
        ])
    );
}

#[test]
fn json_output_agrees_with_serde_json() {
    let lines = format_output("json", "llm", "tab\there é \u{1}", Some("q\\"));
    let value: serde_json::Value = serde_json::from_str(&lines[0]).unwrap();
    assert_eq!(value.get("message").and_then(|v| v.as_str()), Some("tab\there é \u{1}"));
    assert_eq!(value.get("prompt").and_then(|v| v.as_str()), Some("q\\"));
    assert_eq!(value.to_string(), lines[0]);
}

#[test]
fn prompt_sources_are_logged_when_asked() {
    let sources = strings(&["global:/g", "append_arg"]);
    assert!(log_system_prompt_sources(false, &sources, Some("abc")).is_empty());
    assert_eq!(log_system_prompt_sources(true, &Vec::new(), Some("abc")), strings(&["system_prompt_sources: none"]));
    assert_eq!(
        log_system_prompt_sources(true, &sources, Some("日本")),
        strings(&["system_prompt_sources: global:/g, append_arg", "system_prompt_length: 6"])
    );
    assert_eq!(
        log_system_prompt_sources(true, &sources, None),
        strings(&["system_prompt_sources: global:/g, append_arg"])
    );
}

#[test]
fn lines_about_sessions_and_tools() {
    let s = Session { id: "i".to_string(), created_at: "c".to_string(), updated_at: "u".to_string() };
    assert_eq!(session_line(&s), "i c u");
    assert_eq!(resume_line(&s), "resume: i u");
    assert_eq!(mcp_tool_line("fs", "read_file"), "@fs/read_file");
}

#[test]
fn streamed_lines_are_handed_out_one_by_one() {
    let mut stream = LineStream::new();
    assert!(matches!(stream.poll(), LineStep::NeedMore));
    stream.push_chunk("{\"a\":1}\n\n  \n{\"b\"");
    match stream.poll() {
        LineStep::Line(line) => assert_eq!(line, "{\"a\":1}"),
        other => panic!("unexpected step {:?}", other),
    }
    assert!(matches!(stream.poll(), LineStep::NeedMore));
    assert_eq!(stream.buffer, "{\"b\"");
    stream.push_chunk(":2} \r\nrest");
    match stream.poll() {
        LineStep::Line(line) => assert_eq!(line, "{\"b\":2}"),
        other => panic!("unexpected step {:?}", other),
    }
    assert_eq!(stream.on_message("text".to_string(), false), Some("text".to_string()));
    assert!(!stream.done);
    assert_eq!(stream.finish(), Some("rest".to_string()));
    assert!(stream.done);
    assert!(matches!(stream.poll(), LineStep::Ended));
    assert_eq!(stream.finish(), None);
}

#[test]
fn last_message_ends_the_stream() {
    let mut stream = LineStream::new();
    assert_eq!(stream.on_message("bye".to_string(), true), Some("bye".to_string()));
    assert!(stream.done);
    let mut stream = LineStream::new();
    assert_eq!(stream.on_message(String::new(), true), None);
    assert!(stream.done);
    let mut stream = LineStream::new();
    assert_eq!(stream.on_message(String::new(), false), Some(String::new()));
    assert!(!stream.done);
    stream.push_chunk("  \n ");
    assert_eq!(stream.finish(), None);
    let mut stream = LineStream::new();
    stream.fail();
    assert!(matches!(stream.poll(), LineStep::Ended));
}

#[test]
fn server_events_are_handed_out_when_complete() {
    let mut parser = SseParser::new();
    assert!(parser.feed("event: message\ndata: {\"id\":1,").is_empty());
    assert_eq!(parser.buffer, "data: {\"id\":1,");
    assert_eq!(parser.feed("\"result\":{}}\r\n"), Vec::<String>::new());
    assert_eq!(parser.data_lines, strings(&["{\"id\":1,\"result\":{}}"]));
    assert_eq!(parser.feed("\r\n"), strings(&["{\"id\":1,\"result\":{}}"]));
    assert!(parser.data_lines.is_empty());
    let events = parser.feed("data:a\ndata:   b\n\n\ndata: [DONE]\n\n: comment\ndata: c\n\ndata: tail");
    assert_eq!(events, strings(&["a\nb", "c"]));
    assert_eq!(parser.buffer, "data: tail");
    assert!(parser.feed("").is_empty());
}
