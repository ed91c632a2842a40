//! The provider-independent parts of talking to a language model.

pub mod anthropic;
pub mod json;
pub mod messages;
pub mod sse;
pub mod openai_compatible;
pub mod stream;
pub mod tool_def;
pub mod transcripts;

use vstd::prelude::*;

use crate::logic::provider::ApiType;
use crate::logic::settings::{ReasoningEffort, Settings};
use crate::text::{chars_of, range_eq, string_of_range, strip_trailing, strip_trailing_end, trim, trim_chars};

verus! {

/// Generation knobs handed to a provider.
#[derive(Debug, Clone, Copy, PartialEq, Eq, Structural)]
pub struct GenerationOptions {
    pub max_output_tokens: Option<u32>,
    pub reasoning_effort: Option<ReasoningEffort>,
}

impl Default for GenerationOptions {
    fn default() -> (r: GenerationOptions)
        ensures
            r.max_output_tokens is None,
            r.reasoning_effort is None,
    {
        GenerationOptions { max_output_tokens: None, reasoning_effort: None }
    }
}

impl GenerationOptions {
    /// The options a conversation runs with under `settings`.
    pub fn from_settings(settings: &Settings) -> (r: GenerationOptions)
        ensures
            r.max_output_tokens == Some(settings.max_output_tokens),
            r.reasoning_effort == Some(settings.reasoning_effort),
    {
        GenerationOptions {
            max_output_tokens: Some(settings.max_output_tokens),
            reasoning_effort: Some(settings.reasoning_effort),
        }
    }
}

/// The wire protocol a provider is spoken to in.
#[derive(Debug, Clone, Copy, PartialEq, Eq, Structural)]
pub enum Backend {
    Anthropic,
    OpenAiCompatible,
}

/// The protocol for a provider of `api_type`: Anthropic's own, and the chat
/// completions protocol for both OpenAI kinds.
pub fn backend_for(api_type: ApiType) -> (r: Backend)
    ensures
        r == (if api_type == ApiType::Anthropic { Backend::Anthropic } else { Backend::OpenAiCompatible }),
{
    match api_type {
        ApiType::Anthropic => Backend::Anthropic,
        ApiType::OpenAiCompatible | ApiType::OpenAiResponses => Backend::OpenAiCompatible,
    }
}

/// The input unchanged, or `None` where it asks to end the session (`/exit`,
/// surrounding whitespace aside).
pub fn transform_input(input: &str) -> (r: Option<String>)
    ensures
        match r {
            None => trim(input@) == "/exit"@,
            Some(s) => trim(input@) != "/exit"@ && s@ == input@,
        },
{
    let t = trim_chars(input);
    if range_eq(&t, 0, t.len(), "/exit") {
        assert(t@.subrange(0, t@.len() as int) =~= t@);
        None
    } else {
        assert(t@.subrange(0, t@.len() as int) =~= t@);
        Some(String::from_str(input))
    }
}

/// The endpoint that lists a provider's models: the base URL without its
/// trailing slashes, then `/models`.
pub fn models_url(base_url: &str) -> (r: String)
    ensures
        r@ == strip_trailing(base_url@, '/') + "/models"@,
{
    let cs = chars_of(base_url);
    assert(cs@.take(cs@.len() as int) =~= cs@);
    let end = strip_trailing_end(&cs, cs.len(), '/');
    assert(cs@.take(end as int) =~= cs@.subrange(0, end as int));
    let mut r = string_of_range(&cs, 0, end);
    r.append("/models");
    r
}

} // verus!
