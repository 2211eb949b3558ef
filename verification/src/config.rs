//! What the command line and the environment decide: which provider is
//! talked to, with which key, and how long it may take to answer.

use vstd::prelude::*;
use crate::api::{ApiConfig, Provider};
use crate::text::{owned, parse_u32, parse_u64, parsed_u32, parsed_u64, to_chars};

verus! {

/// The retries of a request where the environment names none.
pub const DEFAULT_MAX_RETRIES: u32 = 3;

/// The provider that the flags choose: OpenAI for development, Anthropic on
/// request, xAI otherwise. Both flags together choose nothing.
pub open spec fn chosen_provider(dev: bool, anthropic: bool) -> Option<Provider> {
    if dev && anthropic {
        None
    } else if anthropic {
        Some(Provider::Anthropic)
    } else if dev {
        Some(Provider::OpenAi)
    } else {
        Some(Provider::Xai)
    }
}

/// The provider that the flags choose.
pub fn choose_provider(dev: bool, anthropic: bool) -> (out: Option<Provider>)
    ensures
        out == chosen_provider(dev, anthropic),
{
    if dev && anthropic {
        None
    } else if anthropic {
        Some(Provider::Anthropic)
    } else if dev {
        Some(Provider::OpenAi)
    } else {
        Some(Provider::Xai)
    }
}

/// The name of a provider.
pub fn provider_name(provider: Provider) -> (name: &'static str)
    ensures
        crate::api::provider_of(name@) == Some(provider),
        name@ == match provider {
            Provider::Xai => "xai"@,
            Provider::OpenAi => "openai"@,
            Provider::Anthropic => "anthropic"@,
        },
{
    proof {
        reveal_strlit("xai");
        reveal_strlit("openai");
        reveal_strlit("anthropic");
        assert("xai"@.len() == 3);
        assert("openai"@.len() == 6);
        assert("anthropic"@.len() == 9);
    }
    match provider {
        Provider::Xai => "xai",
        Provider::OpenAi => "openai",
        Provider::Anthropic => "anthropic",
    }
}

/// The address of a provider.
pub fn base_url(provider: Provider) -> (url: &'static str)
    ensures
        url@ == match provider {
            Provider::Xai => "https://api.x.ai/v1"@,
            Provider::OpenAi => "https://api.openai.com/v1"@,
            Provider::Anthropic => "https://api.anthropic.com/v1"@,
        },
{
    match provider {
        Provider::Xai => "https://api.x.ai/v1",
        Provider::OpenAi => "https://api.openai.com/v1",
        Provider::Anthropic => "https://api.anthropic.com/v1",
    }
}

/// The model of a provider where none is named; Anthropic's model is always
/// named.
pub fn default_model(provider: Provider) -> (model: Option<&'static str>)
    ensures
        match provider {
            Provider::Xai => model matches Some(m) && m@ == "grok-4-0709"@,
            Provider::OpenAi => model matches Some(m) && m@ == "gpt-3.5-turbo"@,
            Provider::Anthropic => model is None,
        },
{
    match provider {
        Provider::Xai => Some("grok-4-0709"),
        Provider::OpenAi => Some("gpt-3.5-turbo"),
        Provider::Anthropic => None,
    }
}

/// The seconds that a provider may take to answer where the environment
/// names none: 300 for xAI, 60 for the others.
pub open spec fn default_timeout(provider: Provider) -> u64 {
    match provider {
        Provider::Xai => 300,
        _ => 60,
    }
}

/// The key that is used: for xAI the one of the command line comes first;
/// then, for every provider, the stored one, then the one of the
/// environment.
pub open spec fn resolved_key(
    provider: Provider,
    command_line: Option<Seq<char>>,
    stored: Option<Seq<char>>,
    environment: Option<Seq<char>>,
) -> Option<Seq<char>> {
    if provider == Provider::Xai && command_line is Some {
        command_line
    } else if stored is Some {
        stored
    } else {
        environment
    }
}

/// The key that is used.
pub fn resolve_key(
    provider: Provider,
    command_line: Option<String>,
    stored: Option<String>,
    environment: Option<String>,
) -> (key: Option<String>)
    ensures
        key.deep_view() == resolved_key(
            provider,
            command_line.deep_view(),
            stored.deep_view(),
            environment.deep_view(),
        ),
{
    let is_xai = match provider {
        Provider::Xai => true,
        _ => false,
    };
    if is_xai && command_line.is_some() {
        command_line
    } else if stored.is_some() {
        stored
    } else {
        environment
    }
}

/// The configuration of a client, with the time and the retries that the
/// environment names where they are numbers.
pub fn api_config(
    provider: Provider,
    api_key: String,
    model: String,
    timeout: Option<&str>,
    retries: Option<&str>,
) -> (config: ApiConfig)
    ensures
        config.api_key == api_key,
        config.model == model,
        config.base_url@ == match provider {
            Provider::Xai => "https://api.x.ai/v1"@,
            Provider::OpenAi => "https://api.openai.com/v1"@,
            Provider::Anthropic => "https://api.anthropic.com/v1"@,
        },
        config.timeout_secs == match timeout {
            Some(t) => match parsed_u64(t@) {
                Some(n) => n,
                None => default_timeout(provider),
            },
            None => default_timeout(provider),
        },
        config.max_retries == match retries {
            Some(t) => match parsed_u32(t@) {
                Some(n) => n,
                None => DEFAULT_MAX_RETRIES,
            },
            None => DEFAULT_MAX_RETRIES,
        },
{
    let usual: u64 = match provider {
        Provider::Xai => 300,
        _ => 60,
    };
    let timeout_secs = match timeout {
        Some(t) => match parse_u64(to_chars(t).as_slice()) {
            Some(n) => n,
            None => usual,
        },
        None => usual,
    };
    let max_retries = match retries {
        Some(t) => match parse_u32(to_chars(t).as_slice()) {
            Some(n) => n,
            None => DEFAULT_MAX_RETRIES,
        },
        None => DEFAULT_MAX_RETRIES,
    };
    ApiConfig { api_key, base_url: owned(base_url(provider)), model, timeout_secs, max_retries }
}

/// A key as it is shown: its first four and its last four characters around
/// three dots; a key of fewer than four characters is not shown at all.
pub open spec fn masked(key: Seq<char>) -> Seq<char> {
    if key.len() < 4 {
        "..."@
    } else {
        key.take(4) + "..."@ + key.skip(key.len() - 4)
    }
}

/// A key as it is shown.
pub fn mask_key(key: &str) -> (out: String)
    ensures
        out@ == masked(key@),
{
    let chars = to_chars(key);
    if chars.len() < 4 {
        return owned("...");
    }
    let mut out = crate::text::slice_chars(chars.as_slice(), 0, 4);
    assert(out@ =~= chars@.take(4));
    crate::text::extend_str(&mut out, "...");
    let tail = crate::text::slice_chars(chars.as_slice(), chars.len() - 4, chars.len());
    assert(tail@ =~= chars@.skip(chars@.len() - 4));
    crate::text::extend_chars(&mut out, tail.as_slice());
    crate::text::from_chars(out.as_slice())
}

} // verus!
