//! Built-in provider presets.

use vstd::prelude::*;

use super::provider::ApiType;
use crate::text::str_eq;

verus! {

/// A preset: a well-known provider's name, base URL and API flavour.
#[derive(Debug, Clone, Copy, PartialEq, Eq)]
pub struct DefaultProvider {
    pub name: &'static str,
    pub base_url: &'static str,
    pub api_type: ApiType,
}

pub open spec fn preset_view(p: DefaultProvider) -> (Seq<char>, Seq<char>, ApiType) {
    (p.name@, p.base_url@, p.api_type)
}

/// The presets, in order.
pub open spec fn presets() -> Seq<(Seq<char>, Seq<char>, ApiType)> {
    seq![
        ("openai"@, "https://api.openai.com/v1"@, ApiType::OpenAiResponses),
        ("anthropic"@, "https://api.anthropic.com/v1"@, ApiType::Anthropic),
        ("zai-coding-plan"@, "https://api.z.ai/api/anthropic/v1"@, ApiType::Anthropic),
        ("zai-api"@, "https://api.z.ai/api/paas/v4"@, ApiType::OpenAiCompatible),
        ("qwen-us"@, "https://dashscope-us.aliyuncs.com/compatible-mode/v1"@, ApiType::OpenAiCompatible),
        ("deepseek"@, "https://api.deepseek.com/v1"@, ApiType::OpenAiCompatible),
        ("mistral"@, "https://api.mistral.ai/v1"@, ApiType::OpenAiCompatible),
        ("groq"@, "https://api.groq.com/openai/v1"@, ApiType::OpenAiCompatible),
    ]
}

fn preset(name: &'static str, base_url: &'static str, api_type: ApiType) -> (r: DefaultProvider)
    ensures
        preset_view(r) == (name@, base_url@, api_type),
{
    DefaultProvider { name, base_url, api_type }
}

/// All presets, in catalogue order.
pub fn default_providers() -> (r: Vec<DefaultProvider>)
    ensures
        r@.map_values(|p: DefaultProvider| preset_view(p)) == presets(),
{
    let mut v: Vec<DefaultProvider> = Vec::new();
    v.push(preset("openai", "https://api.openai.com/v1", ApiType::OpenAiResponses));
    v.push(preset("anthropic", "https://api.anthropic.com/v1", ApiType::Anthropic));
    v.push(preset("zai-coding-plan", "https://api.z.ai/api/anthropic/v1", ApiType::Anthropic));
    v.push(preset("zai-api", "https://api.z.ai/api/paas/v4", ApiType::OpenAiCompatible));
    v.push(
        preset(
            "qwen-us",
            "https://dashscope-us.aliyuncs.com/compatible-mode/v1",
            ApiType::OpenAiCompatible,
        ),
    );
    v.push(preset("deepseek", "https://api.deepseek.com/v1", ApiType::OpenAiCompatible));
    v.push(preset("mistral", "https://api.mistral.ai/v1", ApiType::OpenAiCompatible));
    v.push(preset("groq", "https://api.groq.com/openai/v1", ApiType::OpenAiCompatible));
    assert(v@.map_values(|p: DefaultProvider| preset_view(p)) =~= presets());
    v
}

/// The first preset named `name`, if any.
pub fn find_default_provider(name: &str) -> (r: Option<DefaultProvider>)
    ensures
        match r {
            Some(p) => exists|i: int|
                0 <= i < presets().len() && presets()[i] == preset_view(p) && presets()[i].0
                    == name@ && forall|j: int| 0 <= j < i ==> presets()[j].0 != name@,
            None => forall|i: int| 0 <= i < presets().len() ==> presets()[i].0 != name@,
        },
{
    let all = default_providers();
    let ghost views = all@.map_values(|p: DefaultProvider| preset_view(p));
    let mut i: usize = 0;
    while i < all.len()
        invariant
            i <= all@.len(),
            views == presets(),
            views == all@.map_values(|p: DefaultProvider| preset_view(p)),
            forall|j: int| 0 <= j < i ==> presets()[j].0 != name@,
        decreases all@.len() - i,
    {
        assert(views[i as int] == preset_view(all@[i as int]));
        if str_eq(all[i].name, name) {
            return Some(all[i]);
        }
        i += 1;
    }
    None
}

} // verus!
