//! The command line: what can be asked for, and what each request comes
//! to before anything is read or printed.

use crate::config::{Config, ConfigView};
use crate::llm::{spec_provider, spec_provider_key, LlmProvider};
use crate::text::{
    ascii_lowercase, chars_eq_str, chars_to_string, clone_opt_string, clone_string, clone_strings,
    extend_str, join_rows, lemma_row_views_push, lemma_string_views_push, opt_view, row_views,
    spec_ascii_lowercase, spec_join, spec_trim, str_chars, string_views, trim,
};
use crate::tools::{ToolInput, ToolInputView};
use vstd::prelude::*;

verus! {

/// What to do with the known servers.
#[derive(Debug, Clone)]
pub enum McpCommands {
    Add { name: String, command: Vec<String> },
    List,
    Remove { name: String },
    Tools { name: String },
}

/// What to do with the named agents.
#[derive(Debug, Clone)]
pub enum AgentCommands {
    List,
    Create { name: String },
    Remove { name: String },
    Generate,
}

/// What to do with the sessions.
#[derive(Debug, Clone)]
pub enum SessionCommands {
    List,
    Delete { session_id: String },
    Clear,
}

/// What to do about signing in.
#[derive(Debug, Clone, Copy, PartialEq, Eq, Structural)]
pub enum AuthCommands {
    Login,
    Logout,
    Status,
}

/// A tool to run by hand.
#[derive(Debug, Clone)]
pub enum ToolCommands {
    Read { path: String },
    Write { path: String, content: String },
    Grep { pattern: String, paths: Vec<String> },
    Glob { pattern: String, root: Option<String> },
}

/// The subcommands.
#[derive(Debug, Clone)]
pub enum Commands {
    Mcp { command: McpCommands },
    Agent { command: AgentCommands },
    Sessions { command: SessionCommands },
    Resume { session_id: Option<String>, last: bool },
    New,
    Auth { command: AuthCommands },
    Tool { command: ToolCommands },
    Tui,
}

/// Everything that can be said on the command line.
#[derive(Debug, Clone)]
pub struct Cli {
    pub prompt: Option<String>,
    pub model: Option<String>,
    pub ollama_base_url: Option<String>,
    pub allowed_tools: Option<String>,
    pub system_prompt: Option<String>,
    pub system_prompt_file: Option<String>,
    pub append_system_prompt: Option<String>,
    pub append_system_prompt_file: Option<String>,
    pub output_format: String,
    pub agent: Option<String>,
    pub cwd: Option<String>,
    pub add_dir: Vec<String>,
    pub verbose: bool,
    pub command: Option<Commands>,
}

/// What a run of the program is for.
#[derive(Debug, Clone, Copy, PartialEq, Eq, Structural)]
pub enum RunMode {
    /// A subcommand is carried out.
    Command,
    /// One instruction is answered.
    Headless,
    /// Instructions are read one after another.
    Interactive,
}

impl Cli {
    /// What the run is for: a subcommand comes first, then an instruction
    /// given on the command line.
    pub fn mode(&self) -> (mode: RunMode)
        ensures
            mode == (if self.command is Some {
                RunMode::Command
            } else if self.prompt is Some {
                RunMode::Headless
            } else {
                RunMode::Interactive
            }),
    {
        if self.command.is_some() {
            RunMode::Command
        } else if self.prompt.is_some() {
            RunMode::Headless
        } else {
            RunMode::Interactive
        }
    }
}

/// The request that a tool run by hand stands for.
pub open spec fn spec_tool_command_input(command: ToolCommands) -> ToolInputView {
    match command {
        ToolCommands::Read { path } => ToolInputView::Read { path: path@ },
        ToolCommands::Write { path, content } => ToolInputView::Write {
            path: path@,
            content: content@,
        },
        ToolCommands::Grep { pattern, paths } => ToolInputView::Grep {
            pattern: pattern@,
            paths: string_views(paths@),
        },
        ToolCommands::Glob { pattern, root } => ToolInputView::Glob {
            pattern: pattern@,
            root: opt_view(root),
        },
    }
}

pub fn tool_command_input(command: &ToolCommands) -> (input: ToolInput)
    ensures
        input@ == spec_tool_command_input(*command),
{
    match command {
        ToolCommands::Read { path } => ToolInput::Read { path: clone_string(path) },
        ToolCommands::Write { path, content } => ToolInput::Write {
            path: clone_string(path),
            content: clone_string(content),
        },
        ToolCommands::Grep { pattern, paths } => ToolInput::Grep {
            pattern: clone_string(pattern),
            paths: clone_strings(paths),
        },
        ToolCommands::Glob { pattern, root } => ToolInput::Glob {
            pattern: clone_string(pattern),
            root: clone_opt_string(root),
        },
    }
}

/// What is printed for a request about agents.
pub open spec fn spec_agent_command_message(command: AgentCommands) -> Seq<char> {
    match command {
        AgentCommands::List => "List agents"@,
        AgentCommands::Create { name } => "Create agent: "@ + name@,
        AgentCommands::Remove { name } => "Remove agent: "@ + name@,
        AgentCommands::Generate => "Generate agent with AI assistance"@,
    }
}

pub fn agent_command_message(command: &AgentCommands) -> (out: String)
    ensures
        out@ == spec_agent_command_message(*command),
{
    match command {
        AgentCommands::List => "List agents".to_owned(),
        AgentCommands::Create { name } => {
            let mut out = str_chars("Create agent: ");
            extend_str(&mut out, name.as_str());
            chars_to_string(&out)
        },
        AgentCommands::Remove { name } => {
            let mut out = str_chars("Remove agent: ");
            extend_str(&mut out, name.as_str());
            chars_to_string(&out)
        },
        AgentCommands::Generate => "Generate agent with AI assistance".to_owned(),
    }
}

/// What is printed for a request about signing in.
pub fn auth_command_message(command: AuthCommands) -> (out: &'static str)
    ensures
        out@ == (match command {
            AuthCommands::Login => "Login"@,
            AuthCommands::Logout => "Logout"@,
            AuthCommands::Status => "Auth status"@,
        }),
{
    match command {
        AuthCommands::Login => "Login",
        AuthCommands::Logout => "Logout",
        AuthCommands::Status => "Auth status",
    }
}

/// What a line typed at the prompt asks for.
#[derive(Debug, Clone)]
pub enum ReplInput {
    /// Nothing: the line is empty.
    Skip,
    /// To leave.
    Quit,
    /// An answer to the instruction.
    Prompt(String),
}

pub enum ReplInputView {
    Skip,
    Quit,
    Prompt(Seq<char>),
}

impl View for ReplInput {
    type V = ReplInputView;

    open spec fn view(&self) -> ReplInputView {
        match *self {
            ReplInput::Skip => ReplInputView::Skip,
            ReplInput::Quit => ReplInputView::Quit,
            ReplInput::Prompt(text) => ReplInputView::Prompt(text@),
        }
    }
}

/// A line is read without the white space around it. `exit` and `quit`,
/// in any letter case, ask to leave.
pub open spec fn spec_repl_input(line: Seq<char>) -> ReplInputView {
    let input = spec_trim(line);
    if input.len() == 0 {
        ReplInputView::Skip
    } else if spec_ascii_lowercase(input) == "exit"@ || spec_ascii_lowercase(input) == "quit"@ {
        ReplInputView::Quit
    } else {
        ReplInputView::Prompt(input)
    }
}

pub fn repl_input(line: &str) -> (input: ReplInput)
    ensures
        input@ == spec_repl_input(line@),
{
    let input = trim(&str_chars(line));
    if input.len() == 0 {
        return ReplInput::Skip;
    }
    let lowered = ascii_lowercase(&input);
    if chars_eq_str(&lowered, "exit") || chars_eq_str(&lowered, "quit") {
        ReplInput::Quit
    } else {
        ReplInput::Prompt(chars_to_string(&input))
    }
}

/// The name of the provider to use: the one given on the command line,
/// else the one in the settings, else `ollama`.
pub open spec fn spec_provider_name(cli_model: Option<Seq<char>>, config: ConfigView) -> Seq<char> {
    match cli_model {
        Some(name) => name,
        None => match config.model.backend {
            Some(name) => name,
            None => "ollama"@,
        },
    }
}

/// The provider and the model to use, or why there is none: the provider
/// is not known, or the settings name no model.
pub open spec fn spec_resolve_llm(cli_model: Option<Seq<char>>, config: ConfigView) -> Result<
    (LlmProvider, Seq<char>),
    Seq<char>,
> {
    let name = spec_provider_name(cli_model, config);
    match spec_provider(name) {
        None => Err("unsupported provider: "@ + spec_provider_key(name)),
        Some(provider) => match config.model.name {
            Some(model) => Ok((provider, model)),
            None => Err("model name is not set in config.toml"@),
        },
    }
}

pub open spec fn llm_view(res: Result<(LlmProvider, String), String>) -> Result<
    (LlmProvider, Seq<char>),
    Seq<char>,
> {
    match res {
        Ok((provider, model)) => Ok((provider, model@)),
        Err(message) => Err(message@),
    }
}

impl Cli {
    /// The provider and the model to use.
    pub fn resolve_llm_with_config(&self, config: &Config) -> (res: Result<
        (LlmProvider, String),
        String,
    >)
        ensures
            llm_view(res) == spec_resolve_llm(opt_view(self.model), config@),
    {
        let provider = match &self.model {
            Some(name) => LlmProvider::from_str(name.as_str()),
            None => match &config.model.backend {
                Some(name) => LlmProvider::from_str(name.as_str()),
                None => LlmProvider::from_str("ollama"),
            },
        };
        match provider {
            Err(message) => Err(message),
            Ok(provider) => match &config.model.name {
                Some(model) => Ok((provider, clone_string(model))),
                None => Err("model name is not set in config.toml".to_owned()),
            },
        }
    }
}

/// The address of the local model server: the one given on the command
/// line, else the one in the environment, else the one in the settings,
/// else the usual one on this machine.
pub open spec fn spec_ollama_base_url(
    cli: Option<Seq<char>>,
    env: Option<Seq<char>>,
    config: Option<Seq<char>>,
) -> Seq<char> {
    match cli {
        Some(url) => url,
        None => match env {
            Some(url) => url,
            None => match config {
                Some(url) => url,
                None => "http://localhost:11434"@,
            },
        },
    }
}

pub fn ollama_base_url(cli: Option<String>, env: Option<String>, config: &Option<String>) -> (url:
    String)
    ensures
        url@ == spec_ollama_base_url(opt_view(cli), opt_view(env), opt_view(*config)),
{
    match cli {
        Some(url) => url,
        None => match env {
            Some(url) => url,
            None => match config {
                Some(url) => clone_string(url),
                None => "http://localhost:11434".to_owned(),
            },
        },
    }
}

/// A text that goes into the system prompt, and where it came from.
#[derive(Debug, Clone)]
pub struct PromptSource {
    /// Where the text came from, as it is logged.
    pub label: String,
    pub content: String,
}

pub struct PromptSourceView {
    pub label: Seq<char>,
    pub content: Seq<char>,
}

impl View for PromptSource {
    type V = PromptSourceView;

    open spec fn view(&self) -> PromptSourceView {
        PromptSourceView { label: self.label@, content: self.content@ }
    }
}

pub open spec fn source_views(sources: Seq<PromptSource>) -> Seq<PromptSourceView> {
    Seq::new(sources.len(), |i: int| sources[i]@)
}

/// The system prompt that the sources add up to: their texts with an empty
/// line between each two, or none where there are no sources.
pub open spec fn spec_system_prompt(sources: Seq<PromptSourceView>) -> Option<Seq<char>> {
    if sources.len() == 0 {
        None
    } else {
        Some(spec_join(Seq::new(sources.len(), |i: int| sources[i].content), "\n\n"@))
    }
}

pub open spec fn spec_source_labels(sources: Seq<PromptSourceView>) -> Seq<Seq<char>> {
    Seq::new(sources.len(), |i: int| sources[i].label)
}

/// The system prompt that the sources add up to, and the labels of the
/// sources in order.
pub fn resolve_system_prompt(sources: &Vec<PromptSource>) -> (out: (Option<String>, Vec<String>))
    ensures
        opt_view(out.0) == spec_system_prompt(source_views(sources@)),
        string_views(out.1@) == spec_source_labels(source_views(sources@)),
{
    let mut labels: Vec<String> = Vec::new();
    let mut parts: Vec<Vec<char>> = Vec::new();
    let mut i: usize = 0;
    let ghost views = source_views(sources@);
    while i < sources.len()
        invariant
            i <= sources.len(),
            views == source_views(sources@),
            string_views(labels@) == Seq::new(i as nat, |k: int| views[k].label),
            row_views(parts@) == Seq::new(i as nat, |k: int| views[k].content),
        decreases sources.len() - i,
    {
        let label = clone_string(&sources[i].label);
        let part = str_chars(sources[i].content.as_str());
        proof {
            lemma_string_views_push(labels@, label);
            lemma_row_views_push(parts@, part);
        }
        labels.push(label);
        parts.push(part);
        assert(string_views(labels@) =~= Seq::new((i + 1) as nat, |k: int| views[k].label));
        assert(row_views(parts@) =~= Seq::new((i + 1) as nat, |k: int| views[k].content));
        i += 1;
    }
    assert(string_views(labels@) =~= spec_source_labels(views));
    if parts.len() == 0 {
        (None, labels)
    } else {
        let sep = str_chars("\n\n");
        (Some(chars_to_string(&join_rows(&parts, &sep))), labels)
    }
}

/// Which of the texts that may begin the system prompt are used. A file
/// named on the command line stands alone, and so does a text given
/// there; without either, the prompts kept at home, in the project and in
/// the workspace are all used, in that order.
pub open spec fn spec_base_sources(
    file: Option<PromptSourceView>,
    given: Option<Seq<char>>,
    kept: Seq<PromptSourceView>,
) -> Seq<PromptSourceView> {
    match file {
        Some(file) => seq![file],
        None => match given {
            Some(text) => seq![PromptSourceView { label: "system_prompt_arg"@, content: text }],
            None => kept,
        },
    }
}

/// The texts that are added after the beginning of the system prompt: a
/// file named on the command line, then a text given there.
pub open spec fn spec_appended_sources(
    file: Option<PromptSourceView>,
    given: Option<Seq<char>>,
) -> Seq<PromptSourceView> {
    let first = match file {
        Some(file) => seq![file],
        None => Seq::empty(),
    };
    let second = match given {
        Some(text) => seq![PromptSourceView { label: "append_arg"@, content: text }],
        None => Seq::empty(),
    };
    first + second
}

pub open spec fn opt_source_view(source: Option<PromptSource>) -> Option<PromptSourceView> {
    match source {
        Some(s) => Some(s@),
        None => None,
    }
}

/// All the texts of the system prompt, in order.
pub fn system_prompt_sources(
    file: Option<PromptSource>,
    given: Option<String>,
    kept: Vec<PromptSource>,
    append_file: Option<PromptSource>,
    append_given: Option<String>,
) -> (out: Vec<PromptSource>)
    ensures
        source_views(out@) == spec_base_sources(
            opt_source_view(file),
            opt_view(given),
            source_views(kept@),
        ) + spec_appended_sources(opt_source_view(append_file), opt_view(append_given)),
{
    let mut out: Vec<PromptSource> = match file {
        Some(file) => {
            let mut v: Vec<PromptSource> = Vec::new();
            v.push(file);
            assert(source_views(v@) =~= seq![file@]);
            v
        },
        None => match given {
            Some(text) => {
                let mut v: Vec<PromptSource> = Vec::new();
                let source = PromptSource { label: "system_prompt_arg".to_owned(), content: text };
                v.push(source);
                assert(source_views(v@) =~= seq![source@]);
                v
            },
            None => kept,
        },
    };
    let ghost base = source_views(out@);
    if let Some(file) = append_file {
        out.push(file);
        assert(source_views(out@) =~= base + seq![file@]);
    }
    let ghost mid = source_views(out@);
    if let Some(text) = append_given {
        let source = PromptSource { label: "append_arg".to_owned(), content: text };
        out.push(source);
        assert(source_views(out@) =~= mid + seq![source@]);
    }
    assert(source_views(out@) =~= base + spec_appended_sources(
        opt_source_view(append_file),
        opt_view(append_given),
    ));
    out
}

} // verus!
