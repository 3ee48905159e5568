//! The models that can be asked, and what they answer.

use crate::text::{
    ascii_lowercase, chars_eq_str, chars_to_string, extend_str, slice_chars, spec_ascii_lowercase,
    spec_ends_with, spec_trim, str_chars, trim, ends_with_str,
};
use vstd::prelude::*;

verus! {

/// Who runs the model.
#[derive(Debug, Clone, Copy, PartialEq, Eq, Structural)]
pub enum LlmProvider {
    Anthropic,
    OpenAI,
    Google,
    Local,
}

/// What a model answered.
#[derive(Debug, Clone)]
pub struct LlmResponse {
    pub content: String,
}

impl View for LlmResponse {
    type V = Seq<char>;

    open spec fn view(&self) -> Seq<char> {
        self.content@
    }
}

/// A provider name is read without the white space around it and without
/// regard to letter case.
pub open spec fn spec_provider_key(input: Seq<char>) -> Seq<char> {
    spec_ascii_lowercase(spec_trim(input))
}

/// The provider that a name stands for, where it stands for one.
pub open spec fn spec_provider(input: Seq<char>) -> Option<LlmProvider> {
    let key = spec_provider_key(input);
    if key == "anthropic"@ {
        Some(LlmProvider::Anthropic)
    } else if key == "openai"@ {
        Some(LlmProvider::OpenAI)
    } else if key == "google"@ || key == "gemini"@ {
        Some(LlmProvider::Google)
    } else if key == "local"@ || key == "ollama"@ || key == "lm-studio"@ || key == "lmstudio"@ {
        Some(LlmProvider::Local)
    } else {
        None
    }
}

impl LlmProvider {
    /// The provider that a name stands for. A name that stands for none is
    /// handed back in the error, in the form in which it was read.
    pub fn from_str(input: &str) -> (res: Result<LlmProvider, String>)
        ensures
            match res {
                Ok(provider) => spec_provider(input@) == Some(provider),
                Err(message) => spec_provider(input@) is None && message@
                    == "unsupported provider: "@ + spec_provider_key(input@),
            },
    {
        let key = ascii_lowercase(&trim(&str_chars(input)));
        if chars_eq_str(&key, "anthropic") {
            Ok(LlmProvider::Anthropic)
        } else if chars_eq_str(&key, "openai") {
            Ok(LlmProvider::OpenAI)
        } else if chars_eq_str(&key, "google") || chars_eq_str(&key, "gemini") {
            Ok(LlmProvider::Google)
        } else if chars_eq_str(&key, "local") || chars_eq_str(&key, "ollama") || chars_eq_str(
            &key,
            "lm-studio",
        ) || chars_eq_str(&key, "lmstudio") {
            Ok(LlmProvider::Local)
        } else {
            let mut message = str_chars("unsupported provider: ");
            crate::text::extend_chars(&mut message, &key);
            Err(chars_to_string(&message))
        }
    }
}

/// The backend of Anthropic models.
#[derive(Debug, Clone, Copy, PartialEq, Eq, Structural)]
pub struct AnthropicBackend;

/// The backend of OpenAI models.
#[derive(Debug, Clone, Copy, PartialEq, Eq, Structural)]
pub struct OpenAiBackend;

/// The backend of Google models.
#[derive(Debug, Clone, Copy, PartialEq, Eq, Structural)]
pub struct GoogleBackend;

/// The backend of models served by a local Ollama.
#[derive(Debug, Clone)]
pub struct OllamaBackend {
    pub base_url: String,
}

impl AnthropicBackend {
    pub fn provider(&self) -> (p: LlmProvider)
        ensures
            p == LlmProvider::Anthropic,
    {
        LlmProvider::Anthropic
    }
}

impl OpenAiBackend {
    pub fn provider(&self) -> (p: LlmProvider)
        ensures
            p == LlmProvider::OpenAI,
    {
        LlmProvider::OpenAI
    }
}

impl GoogleBackend {
    pub fn provider(&self) -> (p: LlmProvider)
        ensures
            p == LlmProvider::Google,
    {
        LlmProvider::Google
    }
}

/// The length of `s` without the slashes that end it.
pub open spec fn without_trailing_slashes(s: Seq<char>, upto: int) -> int
    decreases upto,
{
    if upto <= 0 || upto > s.len() {
        0
    } else if s[upto - 1] == '/' {
        without_trailing_slashes(s, upto - 1)
    } else {
        upto
    }
}

/// The address to send generation requests to: the base address without
/// the slashes that end it, then `/generate` where it ends in `/api`, and
/// `/api/generate` where it does not.
pub open spec fn spec_generate_url(base_url: Seq<char>) -> Seq<char> {
    let base = base_url.subrange(0, without_trailing_slashes(base_url, base_url.len() as int));
    if spec_ends_with(base, "/api"@) {
        base + "/generate"@
    } else {
        base + "/api/generate"@
    }
}

impl OllamaBackend {
    pub fn new(base_url: String) -> (backend: OllamaBackend)
        ensures
            backend.base_url@ == base_url@,
    {
        OllamaBackend { base_url }
    }

    pub fn provider(&self) -> (p: LlmProvider)
        ensures
            p == LlmProvider::Local,
    {
        LlmProvider::Local
    }

    /// The address to send generation requests to.
    pub fn generate_url(&self) -> (url: String)
        ensures
            url@ == spec_generate_url(self.base_url@),
    {
        let all = str_chars(self.base_url.as_str());
        let mut end: usize = all.len();
        while end > 0 && all[end - 1] == '/'
            invariant
                end <= all.len(),
                without_trailing_slashes(all@, all@.len() as int) == without_trailing_slashes(
                    all@,
                    end as int,
                ),
            decreases end,
        {
            end -= 1;
        }
        let mut base = slice_chars(&all, 0, end);
        if ends_with_str(&base, "/api") {
            extend_str(&mut base, "/generate");
        } else {
            extend_str(&mut base, "/api/generate");
        }
        chars_to_string(&base)
    }
}

} // verus!
