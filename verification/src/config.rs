//! The settings that the rest of the library is built from.

use crate::text::{
    chars_eq, chars_to_string, extend_chars, extend_str, find_char_from, index_of_from,
    is_ascii_alphanumeric, is_ascii_alphanumeric_char, lemma_string_views_push, opt_string_views,
    opt_view, slice_chars, str_chars, string_views,
};
use vstd::prelude::*;

verus! {

/// Which model to talk to, and how.
#[derive(Debug, Clone)]
pub struct ModelConfig {
    pub provider: String,
    pub default: String,
    pub max_tokens: Option<u32>,
    pub backend: Option<String>,
    pub name: Option<String>,
    pub backend_url: Option<String>,
}

/// The rule-based permissions: an approval policy (`always` or
/// `read-only`), the rules that allow and the rules that deny.
#[derive(Debug, Clone)]
pub struct PermissionsConfig {
    pub approval_policy: Option<String>,
    pub allowed_tools: Option<Vec<String>>,
    pub deny: Option<Vec<String>>,
}

/// The sandbox: a mode (`read-only` or `workspace-write`) and the path
/// patterns that are allowed and blocked.
#[derive(Debug, Clone)]
pub struct SandboxConfig {
    pub mode: Option<String>,
    pub allowed_paths: Option<Vec<String>>,
    pub blocked_paths: Option<Vec<String>>,
}

/// All settings.
#[derive(Debug, Clone)]
pub struct Config {
    pub model: ModelConfig,
    pub permissions: Option<PermissionsConfig>,
    pub sandbox: Option<SandboxConfig>,
}

pub struct PermissionsView {
    pub approval_policy: Option<Seq<char>>,
    pub allowed_tools: Option<Seq<Seq<char>>>,
    pub deny: Option<Seq<Seq<char>>>,
}

impl View for PermissionsConfig {
    type V = PermissionsView;

    open spec fn view(&self) -> PermissionsView {
        PermissionsView {
            approval_policy: opt_view(self.approval_policy),
            allowed_tools: opt_string_views(self.allowed_tools),
            deny: opt_string_views(self.deny),
        }
    }
}

pub struct SandboxView {
    pub mode: Option<Seq<char>>,
    pub allowed_paths: Option<Seq<Seq<char>>>,
    pub blocked_paths: Option<Seq<Seq<char>>>,
}

impl View for SandboxConfig {
    type V = SandboxView;

    open spec fn view(&self) -> SandboxView {
        SandboxView {
            mode: opt_view(self.mode),
            allowed_paths: opt_string_views(self.allowed_paths),
            blocked_paths: opt_string_views(self.blocked_paths),
        }
    }
}

pub open spec fn opt_permissions_view(p: Option<PermissionsConfig>) -> Option<PermissionsView> {
    match p {
        Some(p) => Some(p@),
        None => None,
    }
}

pub open spec fn opt_sandbox_view(s: Option<SandboxConfig>) -> Option<SandboxView> {
    match s {
        Some(s) => Some(s@),
        None => None,
    }
}

pub struct ModelView {
    pub provider: Seq<char>,
    pub default: Seq<char>,
    pub max_tokens: Option<u32>,
    pub backend: Option<Seq<char>>,
    pub name: Option<Seq<char>>,
    pub backend_url: Option<Seq<char>>,
}

impl View for ModelConfig {
    type V = ModelView;

    open spec fn view(&self) -> ModelView {
        ModelView {
            provider: self.provider@,
            default: self.default@,
            max_tokens: self.max_tokens,
            backend: opt_view(self.backend),
            name: opt_view(self.name),
            backend_url: opt_view(self.backend_url),
        }
    }
}

pub struct ConfigView {
    pub model: ModelView,
    pub permissions: Option<PermissionsView>,
    pub sandbox: Option<SandboxView>,
}

impl View for Config {
    type V = ConfigView;

    open spec fn view(&self) -> ConfigView {
        ConfigView {
            model: self.model@,
            permissions: opt_permissions_view(self.permissions),
            sandbox: opt_sandbox_view(self.sandbox),
        }
    }
}

pub open spec fn default_model_view() -> ModelView {
    ModelView {
        provider: "anthropic"@,
        default: "sonnet-4-20250514"@,
        max_tokens: Some(8192u32),
        backend: None,
        name: None,
        backend_url: None,
    }
}

impl Default for ModelConfig {
    fn default() -> (out: ModelConfig)
        ensures
            out@ == default_model_view(),
    {
        ModelConfig {
            provider: "anthropic".to_owned(),
            default: "sonnet-4-20250514".to_owned(),
            max_tokens: Some(8192),
            backend: None,
            name: None,
            backend_url: None,
        }
    }
}

impl Default for Config {
    fn default() -> (out: Config)
        ensures
            out@ == (ConfigView { model: default_model_view(), permissions: None, sandbox: None }),
    {
        Config { model: ModelConfig::default(), permissions: None, sandbox: None }
    }
}

impl PermissionsConfig {
    /// A copy of the permissions.
    pub fn duplicate(&self) -> (out: PermissionsConfig)
        ensures
            out@ == self@,
    {
        PermissionsConfig {
            approval_policy: crate::text::clone_opt_string(&self.approval_policy),
            allowed_tools: crate::text::clone_opt_strings(&self.allowed_tools),
            deny: crate::text::clone_opt_strings(&self.deny),
        }
    }
}

impl SandboxConfig {
    /// A copy of the sandbox settings.
    pub fn duplicate(&self) -> (out: SandboxConfig)
        ensures
            out@ == self@,
    {
        SandboxConfig {
            mode: crate::text::clone_opt_string(&self.mode),
            allowed_paths: crate::text::clone_opt_strings(&self.allowed_paths),
            blocked_paths: crate::text::clone_opt_strings(&self.blocked_paths),
        }
    }
}

/// A variable of the environment with its value.
#[derive(Debug, Clone)]
pub struct EnvVar {
    pub name: String,
    pub value: String,
}

pub struct EnvVarView {
    pub name: Seq<char>,
    pub value: Seq<char>,
}

impl View for EnvVar {
    type V = EnvVarView;

    open spec fn view(&self) -> EnvVarView {
        EnvVarView { name: self.name@, value: self.value@ }
    }
}

pub open spec fn env_views(env: Seq<EnvVar>) -> Seq<EnvVarView> {
    Seq::new(env.len(), |i: int| env[i]@)
}

/// The value of the first variable at or after `from` that has the name.
pub open spec fn spec_env_lookup(env: Seq<EnvVarView>, name: Seq<char>, from: int) -> Option<
    Seq<char>,
>
    decreases env.len() - from,
{
    if from < 0 || from >= env.len() {
        None
    } else if env[from].name == name {
        Some(env[from].value)
    } else {
        spec_env_lookup(env, name, from + 1)
    }
}

/// The characters that the name of a variable is written with after a
/// bare `$`.
pub open spec fn is_env_var_char_spec(c: char) -> bool {
    is_ascii_alphanumeric_char(c) || c == '_'
}

pub fn is_env_var_char(c: char) -> (b: bool)
    ensures
        b == is_env_var_char_spec(c),
{
    is_ascii_alphanumeric(c) || c == '_'
}

/// The first index at or after `from` that holds no character of a name.
pub open spec fn name_end(s: Seq<char>, from: int) -> int
    decreases s.len() - from,
{
    if from < 0 || from >= s.len() {
        s.len() as int
    } else if is_env_var_char_spec(s[from]) {
        name_end(s, from + 1)
    } else {
        from
    }
}

pub proof fn lemma_name_end(s: Seq<char>, from: int)
    requires
        0 <= from <= s.len(),
    ensures
        from <= name_end(s, from) <= s.len(),
        from < s.len() && is_env_var_char_spec(s[from]) ==> from < name_end(s, from),
    decreases s.len() - from,
{
    if from < s.len() && is_env_var_char_spec(s[from]) {
        lemma_name_end(s, from + 1);
    }
}

/// What stands for a `${name}`: the value of the variable; the text itself
/// where there is no such variable; `${}` for an empty name.
pub open spec fn spec_braced_value(env: Seq<EnvVarView>, name: Seq<char>) -> Seq<char> {
    if name.len() == 0 {
        "${}"@
    } else {
        match spec_env_lookup(env, name, 0) {
            Some(value) => value,
            None => "${"@ + name + "}"@,
        }
    }
}

/// What stands for a `$name`: the value of the variable, or the text
/// itself where there is no such variable.
pub open spec fn spec_bare_value(env: Seq<EnvVarView>, name: Seq<char>) -> Seq<char> {
    match spec_env_lookup(env, name, 0) {
        Some(value) => value,
        None => seq!['$'] + name,
    }
}

/// The text `s[from..]` with the variables of the environment put in. A
/// variable is written `${name}`, where the name goes up to the next `}`
/// or, without one, to the end of the text; or `$name`, where the name is
/// the longest run of letters, digits and `_`. A `$` before anything else
/// stands for itself.
pub open spec fn spec_expand_from(s: Seq<char>, env: Seq<EnvVarView>, from: int) -> Seq<char>
    decreases s.len() - from,
{
    if from < 0 || from >= s.len() {
        Seq::empty()
    } else if s[from] != '$' {
        seq![s[from]] + spec_expand_from(s, env, from + 1)
    } else if from + 1 < s.len() && s[from + 1] == '{' {
        let close = index_of_from(s, '}', from + 2);
        let next = if close < s.len() {
            close + 1
        } else {
            s.len() as int
        };
        if close < from + 2 || close > s.len() {
            Seq::empty()
        } else {
            spec_braced_value(env, s.subrange(from + 2, close)) + spec_expand_from(s, env, next)
        }
    } else if from + 1 < s.len() && is_env_var_char_spec(s[from + 1]) {
        let end = name_end(s, from + 1);
        if end <= from + 1 || end > s.len() {
            Seq::empty()
        } else {
            spec_bare_value(env, s.subrange(from + 1, end)) + spec_expand_from(s, env, end)
        }
    } else {
        seq!['$'] + spec_expand_from(s, env, from + 1)
    }
}

/// The text with the variables of the environment put in.
pub open spec fn spec_expand_env_vars(s: Seq<char>, env: Seq<EnvVarView>) -> Seq<char> {
    spec_expand_from(s, env, 0)
}

fn env_lookup<'a>(env: &'a Vec<EnvVar>, name: &Vec<char>) -> (value: Option<&'a String>)
    ensures
        (match value {
            Some(v) => Some(v@),
            None => None,
        }) == spec_env_lookup(env_views(env@), name@, 0),
{
    let mut i: usize = 0;
    while i < env.len()
        invariant
            i <= env.len(),
            spec_env_lookup(env_views(env@), name@, 0) == spec_env_lookup(
                env_views(env@),
                name@,
                i as int,
            ),
        decreases env.len() - i,
    {
        assert(env_views(env@)[i as int] == env@[i as int]@);
        let candidate = str_chars(env[i].name.as_str());
        if chars_eq(&candidate, name) {
            return Some(&env[i].value);
        }
        i += 1;
    }
    None
}

/// The text with the variables of the environment put in.
pub fn expand_env_vars_in_string(input: &str, env: &Vec<EnvVar>) -> (out: String)
    ensures
        out@ == spec_expand_env_vars(input@, env_views(env@)),
{
    let s = str_chars(input);
    let mut out: Vec<char> = Vec::new();
    let mut i: usize = 0;
    let ghost vars = env_views(env@);
    assert(out@ + spec_expand_from(s@, vars, 0) =~= spec_expand_env_vars(input@, vars));
    while i < s.len()
        invariant
            i <= s.len(),
            s@ == input@,
            vars == env_views(env@),
            out@ + spec_expand_from(s@, vars, i as int) == spec_expand_env_vars(input@, vars),
        decreases s.len() - i,
    {
        let ghost before = out@;
        let ghost rest = spec_expand_from(s@, vars, i as int);
        if s[i] != '$' {
            out.push(s[i]);
            assert(out@ + spec_expand_from(s@, vars, i + 1) =~= before + rest);
            i += 1;
        } else if i + 1 < s.len() && s[i + 1] == '{' {
            let close = find_char_from(&s, '}', i + 2);
            let name = slice_chars(&s, i + 2, close);
            let next = if close < s.len() {
                close + 1
            } else {
                s.len()
            };
            if name.len() == 0 {
                extend_str(&mut out, "${}");
            } else {
                match env_lookup(env, &name) {
                    Some(value) => {
                        extend_str(&mut out, value.as_str());
                    },
                    None => {
                        extend_str(&mut out, "${");
                        extend_chars(&mut out, &name);
                        extend_str(&mut out, "}");
                    },
                }
            }
            assert(out@ =~= before + spec_braced_value(vars, name@));
            assert(out@ + spec_expand_from(s@, vars, next as int) =~= before + rest);
            i = next;
        } else if i + 1 < s.len() && is_env_var_char(s[i + 1]) {
            let mut end: usize = i + 1;
            while end < s.len() && is_env_var_char(s[end])
                invariant
                    i + 1 <= end <= s.len(),
                    name_end(s@, i + 1) == name_end(s@, end as int),
                decreases s.len() - end,
            {
                end += 1;
            }
            proof {
                lemma_name_end(s@, i + 1);
            }
            let name = slice_chars(&s, i + 1, end);
            match env_lookup(env, &name) {
                Some(value) => {
                    extend_str(&mut out, value.as_str());
                },
                None => {
                    out.push('$');
                    extend_chars(&mut out, &name);
                },
            }
            assert(out@ =~= before + spec_bare_value(vars, name@));
            assert(out@ + spec_expand_from(s@, vars, end as int) =~= before + rest);
            i = end;
        } else {
            out.push('$');
            assert(out@ + spec_expand_from(s@, vars, i + 1) =~= before + rest);
            i += 1;
        }
    }
    assert(spec_expand_from(s@, vars, i as int) =~= Seq::<char>::empty());
    assert(out@ + Seq::<char>::empty() =~= out@);
    chars_to_string(&out)
}

/// Each text of a list with the variables of the environment put in.
pub open spec fn spec_expand_all(items: Seq<Seq<char>>, env: Seq<EnvVarView>) -> Seq<Seq<char>> {
    Seq::new(items.len(), |i: int| spec_expand_env_vars(items[i], env))
}

pub open spec fn spec_expand_opt(item: Option<Seq<char>>, env: Seq<EnvVarView>) -> Option<
    Seq<char>,
> {
    match item {
        Some(s) => Some(spec_expand_env_vars(s, env)),
        None => None,
    }
}

pub open spec fn spec_expand_opt_all(items: Option<Seq<Seq<char>>>, env: Seq<EnvVarView>) -> Option<
    Seq<Seq<char>>,
> {
    match items {
        Some(items) => Some(spec_expand_all(items, env)),
        None => None,
    }
}

/// The settings with the variables of the environment put into the
/// provider, the default model, the approval policy and the rules. The
/// sandbox and the rest of the model stay as they are.
pub open spec fn spec_expand_config(config: ConfigView, env: Seq<EnvVarView>) -> ConfigView {
    ConfigView {
        model: ModelView {
            provider: spec_expand_env_vars(config.model.provider, env),
            default: spec_expand_env_vars(config.model.default, env),
            ..config.model
        },
        permissions: match config.permissions {
            Some(p) => Some(
                PermissionsView {
                    approval_policy: spec_expand_opt(p.approval_policy, env),
                    allowed_tools: spec_expand_opt_all(p.allowed_tools, env),
                    deny: spec_expand_opt_all(p.deny, env),
                },
            ),
            None => None,
        },
        sandbox: config.sandbox,
    }
}

fn expand_all(items: &Vec<String>, env: &Vec<EnvVar>) -> (out: Vec<String>)
    ensures
        string_views(out@) == spec_expand_all(string_views(items@), env_views(env@)),
{
    let mut out: Vec<String> = Vec::new();
    let mut i: usize = 0;
    while i < items.len()
        invariant
            i <= items.len(),
            string_views(out@) == Seq::new(
                i as nat,
                |k: int| spec_expand_env_vars(string_views(items@)[k], env_views(env@)),
            ),
        decreases items.len() - i,
    {
        assert(string_views(items@)[i as int] == items@[i as int]@);
        let item = expand_env_vars_in_string(items[i].as_str(), env);
        proof {
            lemma_string_views_push(out@, item);
        }
        out.push(item);
        assert(string_views(out@) =~= Seq::new(
            (i + 1) as nat,
            |k: int| spec_expand_env_vars(string_views(items@)[k], env_views(env@)),
        ));
        i += 1;
    }
    assert(string_views(out@) =~= spec_expand_all(string_views(items@), env_views(env@)));
    out
}

impl Config {
    /// Puts the variables of the environment into the settings.
    pub fn expand_env_vars(&mut self, env: &Vec<EnvVar>)
        ensures
            final(self)@ == spec_expand_config(old(self)@, env_views(env@)),
    {
        self.model.provider = expand_env_vars_in_string(self.model.provider.as_str(), env);
        self.model.default = expand_env_vars_in_string(self.model.default.as_str(), env);
        let permissions = match &self.permissions {
            Some(p) => Some(
                PermissionsConfig {
                    approval_policy: match &p.approval_policy {
                        Some(policy) => Some(expand_env_vars_in_string(policy.as_str(), env)),
                        None => None,
                    },
                    allowed_tools: match &p.allowed_tools {
                        Some(rules) => Some(expand_all(rules, env)),
                        None => None,
                    },
                    deny: match &p.deny {
                        Some(rules) => Some(expand_all(rules, env)),
                        None => None,
                    },
                },
            ),
            None => None,
        };
        self.permissions = permissions;
    }
}

} // verus!
