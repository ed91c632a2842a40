use nitro::logic::defaults::{default_providers, find_default_provider};
use nitro::logic::eula::EULA_VERSION;
use nitro::logic::llm::stream::Usage;
use nitro::logic::llm::{backend_for, models_url, transform_input, Backend, GenerationOptions};
use nitro::logic::provider::{
    get_default_provider, get_provider, list_providers, remove_provider, set_default_provider,
    set_provider, ApiType, Auth, ProviderInfo,
};
use nitro::logic::settings::{
    build_system_prompt, is_eula_agreed, settings_after_load, ReasoningEffort, Settings,
};

#[test]
fn count_matches_ts() {
    assert_eq!(default_providers().len(), 8);
}

#[test]
fn names_are_unique() {
    let mut names: Vec<&str> = default_providers().iter().map(|p| p.name).collect();
    names.sort_unstable();
    let len_before = names.len();
    names.dedup();
    assert_eq!(names.len(), len_before);
}

#[test]
fn preset_lookup_finds_anthropic() {
    let p = find_default_provider("anthropic").unwrap();
    assert_eq!(p.base_url, "https://api.anthropic.com/v1");
    assert_eq!(p.api_type, ApiType::Anthropic);
    assert!(find_default_provider("nope").is_none());
}

#[test]
fn transform_input_passes_through() {
    assert_eq!(transform_input("hello"), Some("hello".to_string()));
}

#[test]
fn transform_input_handles_exit() {
    assert!(transform_input("/exit").is_none());
    assert!(transform_input("  /exit  ").is_none());
}

#[test]
fn transform_input_keeps_surrounding_text() {
    assert_eq!(transform_input("  hi  "), Some("  hi  ".to_string()));
    assert_eq!(transform_input("/exit now"), Some("/exit now".to_string()));
}

#[test]
fn usage_addition_accumulates() {
    let mut u = Usage::default();
    u.add(&Usage {
        input_tokens: 5,
        output_tokens: 10,
        cached_input_tokens: 1,
        reasoning_tokens: 2,
    });
    u.add(&Usage {
        input_tokens: 3,
        output_tokens: 4,
        cached_input_tokens: 0,
        reasoning_tokens: 0,
    });
    assert_eq!(u.input_tokens, 8);
    assert_eq!(u.output_tokens, 14);
    assert_eq!(u.cached_input_tokens, 1);
    assert_eq!(u.reasoning_tokens, 2);
}

#[test]
fn usage_addition_saturates() {
    let mut u = Usage {
        input_tokens: u32::MAX - 1,
        output_tokens: 0,
        cached_input_tokens: 0,
        reasoning_tokens: 0,
    };
    u.add(&Usage {
        input_tokens: 5,
        output_tokens: 1,
        cached_input_tokens: 0,
        reasoning_tokens: 0,
    });
    assert_eq!(u.input_tokens, u32::MAX);
    assert_eq!(u.output_tokens, 1);
}

#[test]
fn usage_sum_is_order_free() {
    let a = Usage { input_tokens: 1, output_tokens: 2, cached_input_tokens: 3, reasoning_tokens: 4 };
    let b = Usage { input_tokens: 10, output_tokens: 20, cached_input_tokens: 30, reasoning_tokens: 40 };
    let mut x = a;
    x.add(&b);
    let mut y = b;
    y.add(&a);
    assert_eq!(x, y);
}

#[test]
fn defaults_are_stable() {
    let s = Settings::default();
    assert_eq!(s.agreed_to_eula, None);
    assert!(!s.setup_completed);
    assert!(!s.always_confirm);
    assert!(!s.show_thinking);
    assert!(!s.show_token_summary);
    assert_eq!(s.max_output_tokens, 16_000);
    assert_eq!(s.reasoning_effort, ReasoningEffort::Med);
}

#[test]
fn eula_agreed_only_for_current_version() {
    let s = Settings::default();
    assert!(!is_eula_agreed(&s));
    let s = Settings {
        agreed_to_eula: Some(0),
        ..Settings::default()
    };
    assert!(!is_eula_agreed(&s));
    let s = Settings {
        agreed_to_eula: Some(EULA_VERSION),
        ..Settings::default()
    };
    assert!(is_eula_agreed(&s));
}

#[test]
fn missing_settings_fall_back_to_defaults() {
    let (s, write_back) = settings_after_load(None);
    assert_eq!(s, Settings::default());
    assert!(write_back);
}

#[test]
fn build_system_prompt_includes_env_details() {
    let p = build_system_prompt(None, "/some/where", "January 1, 2026");
    assert!(p.contains("Today's date: January 1, 2026"));
    assert!(p.contains("Current working directory: /some/where"));
    assert!(p.contains("# Workflow"));
}

#[test]
fn custom_system_prompt_overrides_builtin() {
    let p = build_system_prompt(Some("Custom body"), "/x", "today");
    assert!(p.contains("Custom body"));
    assert!(!p.contains("# Workflow"));
}

fn info(url: &str, api: ApiType) -> ProviderInfo {
    ProviderInfo {
        base_url: url.to_string(),
        api_key: "k".to_string(),
        model: "m".to_string(),
        api_type: api,
    }
}

#[test]
fn set_get_remove_roundtrip() {
    let mut auth = Auth::new();
    set_provider(&mut auth, "openai", info("https://api.openai.com/v1", ApiType::OpenAiResponses));
    let got = get_provider(&auth, "openai").unwrap();
    assert_eq!(got.base_url, "https://api.openai.com/v1");
    assert_eq!(list_providers(&auth), vec!["openai".to_string()]);
    assert!(remove_provider(&mut auth, "openai"));
    assert!(get_provider(&auth, "openai").is_none());
    assert!(list_providers(&auth).is_empty());
}

#[test]
fn set_default_requires_existing_provider() {
    let mut auth = Auth::new();
    assert!(!set_default_provider(&mut auth, "missing"));
    assert!(get_default_provider(&auth).is_none());
    set_provider(&mut auth, "a", info("u", ApiType::Anthropic));
    assert!(set_default_provider(&mut auth, "a"));
    assert_eq!(get_default_provider(&auth).unwrap().name, "a");
}

#[test]
fn removing_default_clears_default() {
    let mut auth = Auth::new();
    set_provider(&mut auth, "a", info("u", ApiType::Anthropic));
    set_provider(&mut auth, "b", info("v", ApiType::OpenAiCompatible));
    assert!(set_default_provider(&mut auth, "a"));
    assert!(remove_provider(&mut auth, "a"));
    assert!(get_default_provider(&auth).is_none());
    assert_eq!(auth.default_provider(), None);
}

#[test]
fn providers_are_listed_in_order() {
    let mut auth = Auth::new();
    set_provider(&mut auth, "zeta", info("z", ApiType::Anthropic));
    set_provider(&mut auth, "alpha", info("a", ApiType::Anthropic));
    set_provider(&mut auth, "mid", info("m", ApiType::Anthropic));
    set_provider(&mut auth, "alpha", info("a2", ApiType::OpenAiCompatible));
    assert_eq!(
        list_providers(&auth),
        vec!["alpha".to_string(), "mid".to_string(), "zeta".to_string()]
    );
    assert_eq!(get_provider(&auth, "alpha").unwrap().base_url, "a2");
}

#[test]
fn backends_by_api_type() {
    assert_eq!(backend_for(ApiType::Anthropic), Backend::Anthropic);
    assert_eq!(backend_for(ApiType::OpenAiCompatible), Backend::OpenAiCompatible);
    assert_eq!(backend_for(ApiType::OpenAiResponses), Backend::OpenAiCompatible);
}

#[test]
fn models_url_drops_trailing_slashes() {
    assert_eq!(models_url("https://x.io/v1//"), "https://x.io/v1/models");
    assert_eq!(models_url("https://x.io/v1"), "https://x.io/v1/models");
}

#[test]
fn generation_options_follow_settings() {
    let s = Settings {
        max_output_tokens: 1234,
        reasoning_effort: ReasoningEffort::High,
        ..Settings::default()
    };
    let o = GenerationOptions::from_settings(&s);
    assert_eq!(o.max_output_tokens, Some(1234));
    assert_eq!(o.reasoning_effort, Some(ReasoningEffort::High));
    let d = GenerationOptions::default();
    assert_eq!(d.max_output_tokens, None);
}
