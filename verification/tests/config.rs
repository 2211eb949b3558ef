use grok_code::api::Provider;
use grok_code::config::{
    api_config, choose_provider, default_model, mask_key, provider_name, resolve_key,
};

#[test]
fn flags_choose_the_provider() {
    assert_eq!(choose_provider(false, false), Some(Provider::Xai));
    assert_eq!(choose_provider(true, false), Some(Provider::OpenAi));
    assert_eq!(choose_provider(false, true), Some(Provider::Anthropic));
    assert_eq!(choose_provider(true, true), None);
    assert_eq!(provider_name(Provider::Xai), "xai");
    assert_eq!(provider_name(Provider::OpenAi), "openai");
    assert_eq!(provider_name(Provider::Anthropic), "anthropic");
    assert_eq!(default_model(Provider::Xai), Some("grok-4-0709"));
    assert_eq!(default_model(Provider::OpenAi), Some("gpt-3.5-turbo"));
    assert_eq!(default_model(Provider::Anthropic), None);
}

#[test]
fn keys_are_taken_in_order() {
    let s = |t: &str| Some(t.to_string());
    assert_eq!(resolve_key(Provider::Xai, s("cli"), s("stored"), s("env")), s("cli"));
    assert_eq!(resolve_key(Provider::Xai, None, s("stored"), s("env")), s("stored"));
    assert_eq!(resolve_key(Provider::Xai, None, None, s("env")), s("env"));
    assert_eq!(resolve_key(Provider::Xai, None, None, None), None);
    // the key of the command line is for xAI only
    assert_eq!(resolve_key(Provider::OpenAi, s("cli"), s("stored"), s("env")), s("stored"));
    assert_eq!(resolve_key(Provider::Anthropic, s("cli"), None, s("env")), s("env"));
    assert_eq!(resolve_key(Provider::OpenAi, s("cli"), None, None), None);
}

#[test]
fn configuration_takes_numbers_from_the_environment() {
    let config = api_config(Provider::Xai, "key".to_string(), "m".to_string(), None, None);
    assert_eq!(config.base_url, "https://api.x.ai/v1");
    assert_eq!((config.timeout_secs, config.max_retries), (300, 3));
    assert_eq!(config.api_key, "key");
    assert_eq!(config.model, "m");
    let openai = api_config(Provider::OpenAi, String::new(), String::new(), Some("90"), Some("5"));
    assert_eq!(openai.base_url, "https://api.openai.com/v1");
    assert_eq!((openai.timeout_secs, openai.max_retries), (90, 5));
    let other =
        api_config(Provider::Anthropic, String::new(), String::new(), Some("soon"), Some("-1"));
    assert_eq!(other.base_url, "https://api.anthropic.com/v1");
    assert_eq!((other.timeout_secs, other.max_retries), (60, 3));
    let big = api_config(Provider::Xai, String::new(), String::new(), None, Some("4294967296"));
    assert_eq!(big.max_retries, 3);
}

#[test]
fn keys_are_shown_masked() {
    assert_eq!(mask_key("xai-1234567890abcd"), "xai-...abcd");
    assert_eq!(mask_key("abcd"), "abcd...abcd");
    assert_eq!(mask_key("abc"), "...");
    assert_eq!(mask_key(""), "...");
}
