//! Carrying out requests under the policy.
//!
//! The executor itself touches neither files nor processes. For each
//! request it first asks the policy; where the policy lets the request
//! through, it names the job to be done. Whoever does the job hands back
//! what it brought, and the executor turns that into the request's result.

use crate::diff::{build_diff, spec_build_diff};
use crate::matcher::{glob_matches, wildcard_match};
use crate::policy::{spec_check, with_override, PolicyView, ToolPolicy};
use crate::text::{
    chars_to_string, clone_string, contains, extend_chars, extend_str, lemma_string_views_push,
    lines, push_decimal, row_views, spec_contains, spec_lines, spec_trim, spec_trim_end, str_chars,
    string_views, trim, trim_end_chars, decimal,
};
use crate::tools::{
    ApprovalOverride, ToolError, ToolErrorView, ToolInput, ToolInputView, ToolResult,
    ToolResultView,
};
use vstd::prelude::*;

verus! {

/// The job that a request comes to once the policy has let it through.
#[derive(Debug, Clone)]
pub enum ToolJob {
    /// Read the whole file.
    ReadFile { path: String },
    /// Create the missing parent directories, then write the file.
    WriteFile { path: String, content: String },
    /// Run the command and wait for it.
    RunCommand { command: String, args: Vec<String> },
    /// Walk each path, directories included, and read every file found.
    SearchFiles { pattern: String, paths: Vec<String> },
    /// Walk the root and name every file found.
    ListFiles { pattern: String, root: String },
}

pub enum ToolJobView {
    ReadFile { path: Seq<char> },
    WriteFile { path: Seq<char>, content: Seq<char> },
    RunCommand { command: Seq<char>, args: Seq<Seq<char>> },
    SearchFiles { pattern: Seq<char>, paths: Seq<Seq<char>> },
    ListFiles { pattern: Seq<char>, root: Seq<char> },
}

impl View for ToolJob {
    type V = ToolJobView;

    open spec fn view(&self) -> ToolJobView {
        match *self {
            ToolJob::ReadFile { path } => ToolJobView::ReadFile { path: path@ },
            ToolJob::WriteFile { path, content } => ToolJobView::WriteFile {
                path: path@,
                content: content@,
            },
            ToolJob::RunCommand { command, args } => ToolJobView::RunCommand {
                command: command@,
                args: string_views(args@),
            },
            ToolJob::SearchFiles { pattern, paths } => ToolJobView::SearchFiles {
                pattern: pattern@,
                paths: string_views(paths@),
            },
            ToolJob::ListFiles { pattern, root } => ToolJobView::ListFiles {
                pattern: pattern@,
                root: root@,
            },
        }
    }
}

/// A file that a search came across, with its content.
#[derive(Debug, Clone)]
pub struct FileText {
    pub path: String,
    pub content: String,
}

pub struct FileTextView {
    pub path: Seq<char>,
    pub content: Seq<char>,
}

impl View for FileText {
    type V = FileTextView;

    open spec fn view(&self) -> FileTextView {
        FileTextView { path: self.path@, content: self.content@ }
    }
}

pub open spec fn file_views(files: Seq<FileText>) -> Seq<FileTextView> {
    Seq::new(files.len(), |i: int| files[i]@)
}

/// What doing a job brought back.
#[derive(Debug, Clone)]
pub enum ToolOutcome {
    /// The content of the file that was read.
    FileContent(String),
    /// The file was written.
    Written,
    /// The command ended, with or without success.
    CommandExit { success: bool, stdout: String, stderr: String },
    /// The files that the walk came across, in the order of the walk.
    Files(Vec<FileText>),
    /// The names of the files that the walk came across, in its order.
    FileNames(Vec<String>),
    /// The job could not be done.
    IoError(String),
}

pub enum ToolOutcomeView {
    FileContent(Seq<char>),
    Written,
    CommandExit { success: bool, stdout: Seq<char>, stderr: Seq<char> },
    Files(Seq<FileTextView>),
    FileNames(Seq<Seq<char>>),
    IoError(Seq<char>),
}

impl View for ToolOutcome {
    type V = ToolOutcomeView;

    open spec fn view(&self) -> ToolOutcomeView {
        match *self {
            ToolOutcome::FileContent(text) => ToolOutcomeView::FileContent(text@),
            ToolOutcome::Written => ToolOutcomeView::Written,
            ToolOutcome::CommandExit { success, stdout, stderr } => ToolOutcomeView::CommandExit {
                success,
                stdout: stdout@,
                stderr: stderr@,
            },
            ToolOutcome::Files(files) => ToolOutcomeView::Files(file_views(files@)),
            ToolOutcome::FileNames(names) => ToolOutcomeView::FileNames(string_views(names@)),
            ToolOutcome::IoError(message) => ToolOutcomeView::IoError(message@),
        }
    }
}

/// The view of a result or an error.
pub open spec fn result_view(res: Result<ToolResult, ToolError>) -> Result<
    ToolResultView,
    ToolErrorView,
> {
    match res {
        Ok(r) => Ok(r@),
        Err(e) => Err(e@),
    }
}

pub open spec fn job_view(res: Result<ToolJob, ToolError>) -> Result<ToolJobView, ToolErrorView> {
    match res {
        Ok(j) => Ok(j@),
        Err(e) => Err(e@),
    }
}

/// The job that a request asks for. A glob without a root walks `.`.
pub open spec fn spec_job_for(input: ToolInputView) -> ToolJobView {
    match input {
        ToolInputView::Read { path } => ToolJobView::ReadFile { path },
        ToolInputView::Write { path, content } => ToolJobView::WriteFile { path, content },
        ToolInputView::Shell { command, args } => ToolJobView::RunCommand { command, args },
        ToolInputView::Grep { pattern, paths } => ToolJobView::SearchFiles { pattern, paths },
        ToolInputView::Glob { pattern, root } => ToolJobView::ListFiles {
            pattern,
            root: match root {
                Some(root) => root,
                None => "."@,
            },
        },
    }
}

/// The request that names the same job.
pub open spec fn spec_input_for(job: ToolJobView) -> ToolInputView {
    match job {
        ToolJobView::ReadFile { path } => ToolInputView::Read { path },
        ToolJobView::WriteFile { path, content } => ToolInputView::Write { path, content },
        ToolJobView::RunCommand { command, args } => ToolInputView::Shell { command, args },
        ToolJobView::SearchFiles { pattern, paths } => ToolInputView::Grep { pattern, paths },
        ToolJobView::ListFiles { pattern, root } => ToolInputView::Glob { pattern, root: Some(root) },
    }
}

/// One line of a search result: path, line number and the line without
/// trailing white space, with `:` between them.
pub open spec fn spec_grep_line(path: Seq<char>, number: nat, line: Seq<char>) -> Seq<char> {
    path + seq![':'] + decimal(number) + seq![':'] + spec_trim_end(line)
}

/// The search results among the first `upto` lines of a file: one for each
/// line that holds the pattern, numbered from 1.
pub open spec fn spec_grep_file(
    pattern: Seq<char>,
    path: Seq<char>,
    lines: Seq<Seq<char>>,
    upto: int,
) -> Seq<Seq<char>>
    decreases upto,
{
    if upto <= 0 || upto > lines.len() {
        Seq::empty()
    } else {
        let before = spec_grep_file(pattern, path, lines, upto - 1);
        if spec_contains(lines[upto - 1], pattern) {
            before.push(spec_grep_line(path, upto as nat, lines[upto - 1]))
        } else {
            before
        }
    }
}

/// The search results in the first `upto` files, in order.
pub open spec fn spec_grep_files(pattern: Seq<char>, files: Seq<FileTextView>, upto: int) -> Seq<
    Seq<char>,
>
    decreases upto,
{
    if upto <= 0 || upto > files.len() {
        Seq::empty()
    } else {
        let lines = spec_lines(files[upto - 1].content);
        spec_grep_files(pattern, files, upto - 1) + spec_grep_file(
            pattern,
            files[upto - 1].path,
            lines,
            lines.len() as int,
        )
    }
}

/// The names among the first `upto` that the pattern matches in full, in
/// order.
pub open spec fn spec_glob_names(pattern: Seq<char>, names: Seq<Seq<char>>, upto: int) -> Seq<
    Seq<char>,
>
    decreases upto,
{
    if upto <= 0 || upto > names.len() {
        Seq::empty()
    } else {
        let before = spec_glob_names(pattern, names, upto - 1);
        if glob_matches(pattern, names[upto - 1]) {
            before.push(names[upto - 1])
        } else {
            before
        }
    }
}

/// The error text for a command that ended without success: the command
/// and, in brackets, what it wrote to its error stream, trimmed.
pub open spec fn spec_command_failure(command: Seq<char>, stderr: Seq<char>) -> Seq<char> {
    "command failed: "@ + command + " ("@ + spec_trim(stderr) + ")"@
}

/// The result of a job, given what doing it brought back. An outcome that
/// does not belong to the job is an error.
pub open spec fn spec_complete(job: ToolJobView, outcome: ToolOutcomeView) -> Result<
    ToolResultView,
    ToolErrorView,
> {
    match (job, outcome) {
        (_, ToolOutcomeView::IoError(message)) => Err(ToolErrorView::Failed(message)),
        (ToolJobView::ReadFile { .. }, ToolOutcomeView::FileContent(text)) => Ok(
            ToolResultView::Text(text),
        ),
        (ToolJobView::WriteFile { .. }, ToolOutcomeView::Written) => Ok(ToolResultView::Status(0)),
        (
            ToolJobView::RunCommand { command, .. },
            ToolOutcomeView::CommandExit { success, stdout, stderr },
        ) => if success {
            Ok(ToolResultView::Text(stdout))
        } else {
            Err(ToolErrorView::Failed(spec_command_failure(command, stderr)))
        },
        (ToolJobView::SearchFiles { pattern, .. }, ToolOutcomeView::Files(files)) => Ok(
            ToolResultView::Lines(spec_grep_files(pattern, files, files.len() as int)),
        ),
        (ToolJobView::ListFiles { pattern, .. }, ToolOutcomeView::FileNames(names)) => Ok(
            ToolResultView::Paths(spec_glob_names(pattern, names, names.len() as int)),
        ),
        _ => Err(ToolErrorView::Failed("unexpected outcome"@)),
    }
}

/// Whether the pattern matches the path in full.
pub fn matches_glob(pattern: &str, path: &str) -> (b: bool)
    ensures
        b == glob_matches(pattern@, path@),
{
    wildcard_match(pattern, path)
}

/// Appends to `out` the search results in one file.
pub fn collect_grep_matches(pattern: &str, path: &str, content: &str, out: &mut Vec<String>)
    ensures
        string_views(final(out)@) == string_views(old(out)@) + spec_grep_file(
            pattern@,
            path@,
            spec_lines(content@),
            spec_lines(content@).len() as int,
        ),
{
    let needle = str_chars(pattern);
    let rows = lines(&str_chars(content));
    let mut idx: usize = 0;
    assert(string_views(out@) =~= string_views(old(out)@) + spec_grep_file(
        pattern@,
        path@,
        row_views(rows@),
        0,
    ));
    while idx < rows.len()
        invariant
            idx <= rows.len(),
            needle@ == pattern@,
            row_views(rows@) == spec_lines(content@),
            string_views(out@) == string_views(old(out)@) + spec_grep_file(
                pattern@,
                path@,
                row_views(rows@),
                idx as int,
            ),
        decreases rows.len() - idx,
    {
        assert(row_views(rows@)[idx as int] == rows@[idx as int]@);
        if contains(&rows[idx], &needle) {
            let mut line = str_chars(path);
            line.push(':');
            push_decimal(&mut line, (idx + 1) as u64);
            line.push(':');
            let shown = trim_end_chars(&rows[idx]);
            extend_chars(&mut line, &shown);
            assert(line@ =~= spec_grep_line(path@, (idx + 1) as nat, rows@[idx as int]@));
            let ghost before = out@;
            let text = chars_to_string(&line);
            out.push(text);
            proof {
                lemma_string_views_push(before, text);
            }
        }
        assert(string_views(out@) =~= string_views(old(out)@) + spec_grep_file(
            pattern@,
            path@,
            row_views(rows@),
            idx + 1,
        ));
        idx += 1;
    }
}

/// The search results in the files, in order.
pub fn grep_files(pattern: &str, files: &Vec<FileText>) -> (out: Vec<String>)
    ensures
        string_views(out@) == spec_grep_files(pattern@, file_views(files@), files@.len() as int),
{
    let mut out: Vec<String> = Vec::new();
    let mut i: usize = 0;
    assert(string_views(out@) =~= spec_grep_files(pattern@, file_views(files@), 0));
    while i < files.len()
        invariant
            i <= files.len(),
            string_views(out@) == spec_grep_files(pattern@, file_views(files@), i as int),
        decreases files.len() - i,
    {
        assert(file_views(files@)[i as int] == files@[i as int]@);
        collect_grep_matches(pattern, files[i].path.as_str(), files[i].content.as_str(), &mut out);
        i += 1;
    }
    out
}

/// The names that the pattern matches in full, in order.
pub fn collect_glob_matches(pattern: &str, names: &Vec<String>) -> (out: Vec<String>)
    ensures
        string_views(out@) == spec_glob_names(pattern@, string_views(names@), names@.len() as int),
{
    let mut out: Vec<String> = Vec::new();
    let mut i: usize = 0;
    assert(string_views(out@) =~= spec_glob_names(pattern@, string_views(names@), 0));
    while i < names.len()
        invariant
            i <= names.len(),
            string_views(out@) == spec_glob_names(pattern@, string_views(names@), i as int),
        decreases names.len() - i,
    {
        assert(string_views(names@)[i as int] == names@[i as int]@);
        if matches_glob(pattern, names[i].as_str()) {
            let ghost before = out@;
            let name = clone_string(&names[i]);
            out.push(name);
            proof {
                lemma_string_views_push(before, name);
            }
        }
        i += 1;
    }
    out
}

/// The error for a command that ended without success.
pub fn command_failure(command: &str, stderr: &str) -> (error: ToolError)
    ensures
        error@ == ToolErrorView::Failed(spec_command_failure(command@, stderr@)),
{
    let mut text = str_chars("command failed: ");
    extend_str(&mut text, command);
    extend_str(&mut text, " (");
    let shown = trim(&str_chars(stderr));
    extend_chars(&mut text, &shown);
    extend_str(&mut text, ")");
    ToolError::Failed(chars_to_string(&text))
}

/// The job that a request asks for.
pub fn job_for(input: ToolInput) -> (job: ToolJob)
    ensures
        job@ == spec_job_for(input@),
{
    match input {
        ToolInput::Read { path } => ToolJob::ReadFile { path },
        ToolInput::Write { path, content } => ToolJob::WriteFile { path, content },
        ToolInput::Shell { command, args } => ToolJob::RunCommand { command, args },
        ToolInput::Grep { pattern, paths } => ToolJob::SearchFiles { pattern, paths },
        ToolInput::Glob { pattern, root } => {
            let root = match root {
                Some(root) => root,
                None => ".".to_owned(),
            };
            ToolJob::ListFiles { pattern, root }
        },
    }
}

/// Asks the policy and does the jobs it lets through.
#[derive(Debug, Clone)]
pub struct ToolExecutor {
    pub policy: ToolPolicy,
}

impl View for ToolExecutor {
    type V = PolicyView;

    open spec fn view(&self) -> PolicyView {
        self.policy@
    }
}

impl ToolExecutor {
    /// An executor under a policy without rules.
    pub fn new(workspace_root: String) -> (executor: ToolExecutor)
        ensures
            executor@ == (PolicyView {
                permissions: None,
                sandbox: None,
                workspace_root: workspace_root@,
                approval_override: ApprovalOverride::Unset,
            }),
    {
        ToolExecutor { policy: ToolPolicy::new(workspace_root) }
    }

    /// An executor under the given policy.
    pub fn with_policy(policy: ToolPolicy) -> (executor: ToolExecutor)
        ensures
            executor@ == policy@,
    {
        ToolExecutor { policy }
    }

    /// Computes a write without doing it. The policy is asked as for the
    /// write itself; `before` is what the file holds now, empty where there
    /// is no file. The result carries the diff and the full new content.
    pub fn preview_write(&mut self, path: String, content: String, before: &str) -> (res: Result<
        ToolResult,
        ToolError,
    >)
        ensures
            final(self)@ == with_override(
                old(self)@,
                spec_check(old(self)@, ToolInputView::Write { path: path@, content: content@ }).1,
            ),
            result_view(res) == (match spec_check(
                old(self)@,
                ToolInputView::Write { path: path@, content: content@ },
            ).0 {
                Err(e) => Err(e),
                Ok(_) => Ok(
                    ToolResultView::PreviewWrite {
                        path: path@,
                        diff: spec_build_diff(path@, before@, content@),
                        content: content@,
                    },
                ),
            }),
    {
        let input = ToolInput::Write { path: clone_string(&path), content: clone_string(&content) };
        match self.policy.check(&input) {
            Err(e) => Err(e),
            Ok(_) => {
                let diff = build_diff(path.as_str(), before, content.as_str());
                Ok(ToolResult::PreviewWrite { path, diff, content })
            },
        }
    }

    /// Asks the policy about the request and, where it passes, names the job
    /// to do. Nothing is done where the policy refuses.
    pub fn execute(&mut self, input: ToolInput) -> (res: Result<ToolJob, ToolError>)
        ensures
            final(self)@ == with_override(old(self)@, spec_check(old(self)@, input@).1),
            job_view(res) == (match spec_check(old(self)@, input@).0 {
                Err(e) => Err(e),
                Ok(_) => Ok(spec_job_for(input@)),
            }),
    {
        match self.policy.check(&input) {
            Err(e) => Err(e),
            Ok(_) => Ok(job_for(input)),
        }
    }

    /// The result of a job, given what doing it brought back.
    pub fn complete(job: &ToolJob, outcome: ToolOutcome) -> (res: Result<ToolResult, ToolError>)
        ensures
            result_view(res) == spec_complete(job@, outcome@),
    {
        match outcome {
            ToolOutcome::IoError(message) => Err(ToolError::Failed(message)),
            ToolOutcome::FileContent(text) => match job {
                ToolJob::ReadFile { .. } => Ok(ToolResult::Text(text)),
                _ => Err(ToolError::Failed("unexpected outcome".to_owned())),
            },
            ToolOutcome::Written => match job {
                ToolJob::WriteFile { .. } => Ok(ToolResult::Status(0)),
                _ => Err(ToolError::Failed("unexpected outcome".to_owned())),
            },
            ToolOutcome::CommandExit { success, stdout, stderr } => match job {
                ToolJob::RunCommand { command, .. } => {
                    if success {
                        Ok(ToolResult::Text(stdout))
                    } else {
                        Err(command_failure(command.as_str(), stderr.as_str()))
                    }
                },
                _ => Err(ToolError::Failed("unexpected outcome".to_owned())),
            },
            ToolOutcome::Files(files) => match job {
                ToolJob::SearchFiles { pattern, .. } => Ok(
                    ToolResult::Lines(grep_files(pattern.as_str(), &files)),
                ),
                _ => Err(ToolError::Failed("unexpected outcome".to_owned())),
            },
            ToolOutcome::FileNames(names) => match job {
                ToolJob::ListFiles { pattern, .. } => Ok(
                    ToolResult::Paths(collect_glob_matches(pattern.as_str(), &names)),
                ),
                _ => Err(ToolError::Failed("unexpected outcome".to_owned())),
            },
        }
    }
}

/// The write that applies a preview: the same path and the same content.
/// Any other result asks for nothing.
pub open spec fn spec_apply_preview(result: ToolResultView) -> Option<ToolInputView> {
    match result {
        ToolResultView::PreviewWrite { path, content, .. } => Some(
            ToolInputView::Write { path, content },
        ),
        _ => None,
    }
}

pub open spec fn opt_input_view(input: Option<ToolInput>) -> Option<ToolInputView> {
    match input {
        Some(i) => Some(i@),
        None => None,
    }
}

/// The write that applies a preview.
pub fn apply_preview_write(result: &ToolResult) -> (input: Option<ToolInput>)
    ensures
        opt_input_view(input) == spec_apply_preview(result@),
{
    match result {
        ToolResult::PreviewWrite { path, content, .. } => Some(
            ToolInput::Write { path: clone_string(path), content: clone_string(content) },
        ),
        _ => None,
    }
}

/// Applying a preview asks for exactly what was previewed: the write that
/// a preview leads to names the previewed path and the previewed content,
/// and its job is to write that content to that path.
pub proof fn lemma_preview_is_applied_as_shown(path: Seq<char>, diff: Seq<char>, content: Seq<char>)
    ensures
        spec_apply_preview(ToolResultView::PreviewWrite { path, diff, content }) == Some(
            ToolInputView::Write { path, content },
        ),
        spec_job_for(ToolInputView::Write { path, content }) == (ToolJobView::WriteFile {
            path,
            content,
        }),
{
}

} // verus!
