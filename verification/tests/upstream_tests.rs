use upstream_proxy::{
    build_url, collapse_duplicate_versions, join_paths, normalize_path_segment,
    resolve_upstream_url, LogicalEndpoint, Provider, ProviderMeta, UpstreamApiStyle,
};

fn provider_with_meta(meta: ProviderMeta) -> Provider {
    Provider {
        meta: Some(meta),
        settings_api_format: None,
    }
}

#[test]
fn standard_openai_origin_builds_v1_responses() {
    let provider = provider_with_meta(ProviderMeta::default());
    let resolved = resolve_upstream_url(
        &provider,
        "https://api.openai.com",
        LogicalEndpoint::ResponsesCreate,
    );

    assert_eq!(resolved.url, "https://api.openai.com/v1/responses");
    assert_eq!(resolved.applied_style, UpstreamApiStyle::StandardOpenAi);
    assert!(!resolved.path_rewritten);
}

#[test]
fn prefixed_openai_uses_upstream_prefix() {
    let provider = provider_with_meta(ProviderMeta {
        upstream_api_style: Some("prefixed_openai".to_string()),
        upstream_prefix: Some("/openai".to_string()),
        ..ProviderMeta::default()
    });

    let resolved = resolve_upstream_url(
        &provider,
        "https://gateway.example.com",
        LogicalEndpoint::ResponsesCreate,
    );

    assert_eq!(resolved.url, "https://gateway.example.com/openai/v1/responses");
    assert!(resolved.path_rewritten);
}

#[test]
fn custom_paths_override_defaults() {
    let provider = provider_with_meta(ProviderMeta {
        upstream_api_style: Some("custom".to_string()),
        openai_base_path: Some("/openai".to_string()),
        responses_compact_path: Some("/v2/responses/compact".to_string()),
        ..ProviderMeta::default()
    });

    let resolved = resolve_upstream_url(
        &provider,
        "https://gateway.example.com",
        LogicalEndpoint::ResponsesCompact,
    );

    assert_eq!(
        resolved.url,
        "https://gateway.example.com/openai/v2/responses/compact"
    );
    assert_eq!(resolved.endpoint_path, "/openai/v2/responses/compact");
    assert!(resolved.path_rewritten);
}

#[test]
fn existing_v1_base_deduplicates_version() {
    let provider = provider_with_meta(ProviderMeta::default());
    let resolved = resolve_upstream_url(
        &provider,
        "https://api.openai.com/v1",
        LogicalEndpoint::ChatCompletions,
    );

    assert_eq!(resolved.url, "https://api.openai.com/v1/chat/completions");
}

#[test]
fn provider_without_meta_uses_standard_paths() {
    let provider = Provider {
        meta: None,
        settings_api_format: None,
    };
    for (endpoint, path) in [
        (LogicalEndpoint::ResponsesCreate, "/v1/responses"),
        (LogicalEndpoint::ResponsesCompact, "/v1/responses/compact"),
        (LogicalEndpoint::ChatCompletions, "/v1/chat/completions"),
        (LogicalEndpoint::ClaudeMessages, "/v1/messages"),
    ] {
        let resolved = resolve_upstream_url(&provider, "https://api.example.com/", endpoint);
        assert_eq!(resolved.endpoint_path, path);
        assert_eq!(resolved.url, format!("https://api.example.com{}", path));
        assert_eq!(resolved.logical_endpoint, endpoint);
        assert_eq!(resolved.applied_style, UpstreamApiStyle::StandardOpenAi);
        assert!(!resolved.path_rewritten);
    }
}

#[test]
fn prefixed_openai_without_prefix_defaults_to_openai() {
    let provider = provider_with_meta(ProviderMeta {
        upstream_api_style: Some("prefixed_openai".to_string()),
        ..ProviderMeta::default()
    });
    let resolved = resolve_upstream_url(
        &provider,
        "https://gateway.example.com",
        LogicalEndpoint::ChatCompletions,
    );
    assert_eq!(resolved.applied_style, UpstreamApiStyle::PrefixedOpenAi);
    assert_eq!(resolved.endpoint_path, "/openai/v1/chat/completions");
    assert_eq!(
        resolved.url,
        "https://gateway.example.com/openai/v1/chat/completions"
    );
    assert!(resolved.path_rewritten);
}

#[test]
fn base_path_takes_precedence_over_prefix() {
    let provider = provider_with_meta(ProviderMeta {
        upstream_api_style: Some("prefixed_openai".to_string()),
        openai_base_path: Some(" api/ ".to_string()),
        upstream_prefix: Some("/ignored".to_string()),
        ..ProviderMeta::default()
    });
    let resolved = resolve_upstream_url(
        &provider,
        "https://gateway.example.com",
        LogicalEndpoint::ResponsesCreate,
    );
    assert_eq!(resolved.endpoint_path, "/api/v1/responses");
}

#[test]
fn claude_messages_ignore_path_settings() {
    let provider = provider_with_meta(ProviderMeta {
        upstream_api_style: Some("custom".to_string()),
        openai_base_path: Some("/openai".to_string()),
        responses_path: Some("/x".to_string()),
        chat_completions_path: Some("/y".to_string()),
        ..ProviderMeta::default()
    });
    let resolved = resolve_upstream_url(
        &provider,
        "https://api.anthropic.com",
        LogicalEndpoint::ClaudeMessages,
    );
    assert_eq!(resolved.endpoint_path, "/v1/messages");
    assert_eq!(resolved.url, "https://api.anthropic.com/v1/messages");
    assert_eq!(resolved.applied_style, UpstreamApiStyle::Custom);
    assert!(!resolved.path_rewritten);
}

#[test]
fn unknown_style_falls_back_to_standard() {
    let provider = provider_with_meta(ProviderMeta {
        upstream_api_style: Some("Custom".to_string()),
        ..ProviderMeta::default()
    });
    let resolved = resolve_upstream_url(&provider, "http://h", LogicalEndpoint::ResponsesCreate);
    assert_eq!(resolved.applied_style, UpstreamApiStyle::StandardOpenAi);
}

#[test]
fn style_names_round_trip() {
    for style in [
        UpstreamApiStyle::StandardOpenAi,
        UpstreamApiStyle::PrefixedOpenAi,
        UpstreamApiStyle::Custom,
    ] {
        let provider = provider_with_meta(ProviderMeta {
            upstream_api_style: Some(style.as_str().to_string()),
            ..ProviderMeta::default()
        });
        let resolved = resolve_upstream_url(&provider, "http://h", LogicalEndpoint::ResponsesCreate);
        assert_eq!(resolved.applied_style, style);
    }
}

#[test]
fn configured_chat_path_is_joined_under_base() {
    let provider = provider_with_meta(ProviderMeta {
        openai_base_path: Some("/v1".to_string()),
        chat_completions_path: Some("v1/chat/completions/".to_string()),
        ..ProviderMeta::default()
    });
    let resolved = resolve_upstream_url(&provider, "http://h/", LogicalEndpoint::ChatCompletions);
    assert_eq!(resolved.endpoint_path, "/v1/chat/completions");
    assert_eq!(resolved.url, "http://h/v1/chat/completions");
    assert!(!resolved.path_rewritten);
}

#[test]
fn endpoint_names_and_default_paths() {
    assert_eq!(LogicalEndpoint::ResponsesCreate.as_str(), "ResponsesCreate");
    assert_eq!(LogicalEndpoint::ResponsesCompact.as_str(), "ResponsesCompact");
    assert_eq!(LogicalEndpoint::ChatCompletions.as_str(), "ChatCompletions");
    assert_eq!(LogicalEndpoint::ClaudeMessages.as_str(), "ClaudeMessages");
    assert_eq!(LogicalEndpoint::ResponsesCreate.default_path(), "/v1/responses");
    assert_eq!(
        LogicalEndpoint::ResponsesCompact.default_path(),
        "/v1/responses/compact"
    );
    assert_eq!(
        LogicalEndpoint::ChatCompletions.default_path(),
        "/v1/chat/completions"
    );
    assert_eq!(LogicalEndpoint::ClaudeMessages.default_path(), "/v1/messages");
    assert_eq!(UpstreamApiStyle::StandardOpenAi.as_str(), "standard_openai");
    assert_eq!(UpstreamApiStyle::PrefixedOpenAi.as_str(), "prefixed_openai");
    assert_eq!(UpstreamApiStyle::Custom.as_str(), "custom");
}

#[test]
fn normalize_path_segment_cases() {
    assert_eq!(normalize_path_segment(""), "");
    assert_eq!(normalize_path_segment("   "), "");
    assert_eq!(normalize_path_segment(" / "), "");
    assert_eq!(normalize_path_segment("///"), "");
    assert_eq!(normalize_path_segment("openai"), "/openai");
    assert_eq!(normalize_path_segment("/openai/"), "/openai");
    assert_eq!(normalize_path_segment("\t/a/b//\n"), "/a/b");
    assert_eq!(normalize_path_segment("\u{3000}x\u{2009}"), "/x");
    assert_eq!(normalize_path_segment(" a /"), "/a ");
}

#[test]
fn normalize_is_idempotent_on_concrete_values() {
    for value in ["", "openai", " /v1/ ", "a//b//", "//x"] {
        let once = normalize_path_segment(value);
        assert_eq!(normalize_path_segment(&once), once);
    }
    // Trailing white space uncovered by the first pass is trimmed by the second.
    let once = normalize_path_segment(" a /");
    assert_eq!(normalize_path_segment(&once), "/a");
}

#[test]
fn join_paths_cases() {
    assert_eq!(join_paths("", ""), "/");
    assert_eq!(join_paths("/", " "), "/");
    assert_eq!(join_paths("openai", ""), "/openai");
    assert_eq!(join_paths("", "v1/responses"), "/v1/responses");
    assert_eq!(join_paths("/openai/", "/v1/responses/"), "/openai/v1/responses");
    assert_eq!(join_paths("/v1", "/v1/models"), "/v1/models");
}

#[test]
fn build_url_cases() {
    assert_eq!(build_url("https://h", "/a"), "https://h/a");
    assert_eq!(build_url("https://h///", "///a"), "https://h/a");
    assert_eq!(build_url("https://h", ""), "https://h/");
    assert_eq!(build_url("https://h/v1/v1", "/v1/x"), "https://h/v1/x");
}

#[test]
fn collapse_duplicate_versions_cases() {
    assert_eq!(collapse_duplicate_versions(""), "");
    assert_eq!(collapse_duplicate_versions("/v1/v1"), "/v1");
    assert_eq!(collapse_duplicate_versions("/v1/v1/v1/v1/v1"), "/v1");
    assert_eq!(collapse_duplicate_versions("/v1/v10"), "/v10");
    assert_eq!(collapse_duplicate_versions("/v2/v2"), "/v2/v2");
    assert_eq!(collapse_duplicate_versions("a/v1/v1b/v1/v1"), "a/v1b/v1");
}

#[test]
fn collapse_leaves_no_duplicate_and_is_idempotent() {
    for value in ["/v1/v1/v1", "x/v1/v1/v1/v1/y", "/v1//v1/v1", "plain"] {
        let once = collapse_duplicate_versions(value);
        assert!(!once.contains("/v1/v1"));
        assert_eq!(collapse_duplicate_versions(&once), once);
    }
}

#[test]
fn resolved_paths_are_absolute_and_urls_have_no_duplicate_version() {
    let provider = provider_with_meta(ProviderMeta {
        openai_base_path: Some("v1/v1".to_string()),
        responses_path: Some("v1".to_string()),
        ..ProviderMeta::default()
    });
    let resolved = resolve_upstream_url(&provider, "http://h/v1", LogicalEndpoint::ResponsesCreate);
    assert!(resolved.endpoint_path.starts_with('/'));
    assert_eq!(resolved.endpoint_path, "/v1");
    assert_eq!(resolved.url, "http://h/v1");
    assert!(!resolved.url.contains("/v1/v1"));
}
