use agentic_server::settings::environment::NonZeroUsize;
use agentic_server::settings::web_search::{
    generated_web_search_file_config, resolve_web_search_config, WebSearchFileConfig, WebSearchProviderKind,
};

/// Environment lookup over a fixed set of variables, with clean values.
fn env_from<'a>(pairs: &'a [(&'a str, &'a str)]) -> impl Fn(&str) -> Option<String> + 'a {
    move |name: &str| {
        pairs
            .iter()
            .find(|(key, _)| *key == name)
            .map(|(_, value)| value.trim().to_owned())
            .filter(|value| !value.is_empty())
    }
}

#[test]
fn web_search_config_defaults_to_you_with_legacy_variables() {
    let file = WebSearchFileConfig {
        base_url: Some("https://file.example".to_owned()),
        ..WebSearchFileConfig::default()
    };
    let config = resolve_web_search_config(
        &file,
        env_from(&[
            ("YOU_API_KEY", "you-secret"),
            ("YOU_API_BASE_URL", "https://you.example"),
        ]),
    )
    .expect("resolve you.com");
    assert_eq!(config.provider, WebSearchProviderKind::You);
    assert_eq!(config.api_key.as_deref(), Some("you-secret"));
    assert_eq!(config.base_url.as_deref(), Some("https://you.example"));
    assert_eq!(config.max_concurrent_queries, None);

    // Without any endpoint variable the file value is used; You.com has no default.
    let config = resolve_web_search_config(&file, env_from(&[])).expect("resolve from file");
    assert_eq!(config.base_url.as_deref(), Some("https://file.example"));
    assert_eq!(config.api_key, None);
    let config = resolve_web_search_config(&WebSearchFileConfig::default(), env_from(&[])).expect("resolve empty");
    assert_eq!(config.base_url, None);
}

#[test]
fn web_search_config_selects_brave_from_environment_or_file() {
    let config = resolve_web_search_config(
        &WebSearchFileConfig::default(),
        env_from(&[
            ("AGENTIC_WEB_SEARCH_PROVIDER", "Brave"),
            ("BRAVE_API_KEY", "brave-secret"),
            ("YOU_API_KEY", "you-secret"),
            ("YOU_API_BASE_URL", "https://you.example"),
        ]),
    )
    .expect("resolve brave");
    assert_eq!(config.provider, WebSearchProviderKind::Brave);
    assert_eq!(config.api_key.as_deref(), Some("brave-secret"));
    assert_eq!(
        config.base_url.as_deref(),
        Some("https://api.search.brave.com"),
        "YOU_API_BASE_URL must not leak into the Brave endpoint"
    );

    let file = WebSearchFileConfig {
        provider: Some(WebSearchProviderKind::Brave),
        api_key_env: Some("MY_BRAVE_KEY".to_owned()),
        max_concurrent_queries: NonZeroUsize::new(2),
        ..WebSearchFileConfig::default()
    };
    let config = resolve_web_search_config(&file, env_from(&[("MY_BRAVE_KEY", "custom-secret")]))
        .expect("resolve brave from file");
    assert_eq!(config.provider, WebSearchProviderKind::Brave);
    assert_eq!(config.api_key.as_deref(), Some("custom-secret"));
    assert_eq!(config.max_concurrent_queries.map(NonZeroUsize::get), Some(2));

    // The environment variable wins over the file for the provider itself.
    let config = resolve_web_search_config(&file, env_from(&[("AGENTIC_WEB_SEARCH_PROVIDER", "you")]))
        .expect("resolve override");
    assert_eq!(config.provider, WebSearchProviderKind::You);
}

#[test]
fn web_search_config_applies_environment_precedence_for_endpoint_and_concurrency() {
    let file = WebSearchFileConfig {
        base_url: Some("https://file.example".to_owned()),
        max_concurrent_queries: NonZeroUsize::new(2),
        ..WebSearchFileConfig::default()
    };
    let config = resolve_web_search_config(
        &file,
        env_from(&[
            ("AGENTIC_WEB_SEARCH_BASE_URL", "https://generic.example"),
            ("YOU_API_BASE_URL", "https://legacy.example"),
            ("AGENTIC_WEB_SEARCH_MAX_CONCURRENT_QUERIES", "4"),
        ]),
    )
    .expect("resolve overrides");
    assert_eq!(config.base_url.as_deref(), Some("https://generic.example"));
    assert_eq!(config.max_concurrent_queries.map(NonZeroUsize::get), Some(4));

    let config = resolve_web_search_config(&file, env_from(&[("YOU_API_BASE_URL", "https://legacy.example")]))
        .expect("legacy endpoint");
    assert_eq!(config.base_url.as_deref(), Some("https://legacy.example"));
    assert_eq!(config.max_concurrent_queries.map(NonZeroUsize::get), Some(2));
}

#[test]
fn web_search_config_rejects_invalid_environment_values() {
    let error = resolve_web_search_config(
        &WebSearchFileConfig::default(),
        env_from(&[("AGENTIC_WEB_SEARCH_PROVIDER", "bing")]),
    )
    .expect_err("unknown provider");
    assert_eq!(
        error.to_string(),
        "AGENTIC_WEB_SEARCH_PROVIDER: unknown web_search provider \"bing\"; expected one of: you, brave"
    );

    let error = resolve_web_search_config(
        &WebSearchFileConfig::default(),
        env_from(&[("AGENTIC_WEB_SEARCH_MAX_CONCURRENT_QUERIES", "0")]),
    )
    .expect_err("zero concurrency");
    assert!(
        error
            .to_string()
            .starts_with("AGENTIC_WEB_SEARCH_MAX_CONCURRENT_QUERIES must be a positive integer"),
        "{}",
        error.to_string()
    );
}

#[test]
fn generated_web_search_config_documents_the_selected_provider() {
    let generated = generated_web_search_file_config(env_from(&[("YOU_API_BASE_URL", "https://you.example")]));
    assert_eq!(generated.provider, Some(WebSearchProviderKind::You));
    assert_eq!(generated.api_key_env.as_deref(), Some("YOU_API_KEY"));
    assert_eq!(generated.base_url.as_deref(), Some("https://you.example"));
    assert_eq!(generated.max_concurrent_queries, None);

    let generated = generated_web_search_file_config(env_from(&[
        ("AGENTIC_WEB_SEARCH_PROVIDER", "brave"),
        ("YOU_API_BASE_URL", "https://you.example"),
        ("AGENTIC_WEB_SEARCH_MAX_CONCURRENT_QUERIES", "3"),
    ]));
    assert_eq!(generated.provider, Some(WebSearchProviderKind::Brave));
    assert_eq!(generated.api_key_env.as_deref(), Some("BRAVE_API_KEY"));
    assert_eq!(
        generated.base_url, None,
        "the Brave default endpoint is not pinned into the file"
    );
    assert_eq!(generated.max_concurrent_queries.map(NonZeroUsize::get), Some(3));

    let generated = generated_web_search_file_config(env_from(&[("AGENTIC_WEB_SEARCH_PROVIDER", "bing")]));
    assert_eq!(generated.provider, Some(WebSearchProviderKind::You));
}

#[test]
fn blank_key_variable_in_the_file_falls_back_to_the_conventional_one() {
    let file = WebSearchFileConfig {
        api_key_env: Some("   ".to_owned()),
        ..WebSearchFileConfig::default()
    };
    let config = resolve_web_search_config(&file, env_from(&[("YOU_API_KEY", "you-secret")])).expect("resolve");
    assert_eq!(config.api_key.as_deref(), Some("you-secret"));
    let file = WebSearchFileConfig {
        api_key_env: Some(" MY_KEY ".to_owned()),
        ..WebSearchFileConfig::default()
    };
    let config = resolve_web_search_config(&file, env_from(&[("MY_KEY", "mine")])).expect("resolve");
    assert_eq!(config.api_key.as_deref(), Some("mine"));
}

#[test]
fn generated_file_changes_nothing_and_stands_in_for_the_overrides() {
    let pairs = [
        ("AGENTIC_WEB_SEARCH_PROVIDER", "brave"),
        ("AGENTIC_WEB_SEARCH_BASE_URL", "https://generic.example"),
        ("AGENTIC_WEB_SEARCH_MAX_CONCURRENT_QUERIES", "7"),
        ("BRAVE_API_KEY", "brave-secret"),
    ];
    let without = resolve_web_search_config(&WebSearchFileConfig::default(), env_from(&pairs)).expect("no file");
    let generated = generated_web_search_file_config(env_from(&pairs));
    let with = resolve_web_search_config(&generated, env_from(&pairs)).expect("generated file");
    assert_eq!(with, without);
    let later = resolve_web_search_config(&generated, env_from(&[("BRAVE_API_KEY", "brave-secret")])).expect("later");
    assert_eq!(later, without);
}

#[test]
fn provider_names_ignore_case_and_white_space() {
    assert_eq!(WebSearchProviderKind::parse(" YOU "), Ok(WebSearchProviderKind::You));
    assert_eq!(WebSearchProviderKind::parse("bRaVe"), Ok(WebSearchProviderKind::Brave));
    assert!(WebSearchProviderKind::parse("").is_err());
    assert_eq!(WebSearchProviderKind::default(), WebSearchProviderKind::You);
}
