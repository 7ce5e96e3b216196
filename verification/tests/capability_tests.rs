use upstream_proxy::capabilities::unix_time_from_reading;
use upstream_proxy::{
    AppType, CapabilitySupport, LogicalEndpoint, Provider, ProviderMeta, ResponsesCompactMode,
    UpstreamCompatibility,
};

fn build_provider(meta: Option<ProviderMeta>) -> Provider {
    Provider {
        meta,
        settings_api_format: None,
    }
}

fn all_unknown(snapshot: &UpstreamCompatibility) -> bool {
    snapshot.responses == CapabilitySupport::Unknown
        && snapshot.responses_compact == CapabilitySupport::Unknown
        && snapshot.streaming_sse == CapabilitySupport::Unknown
        && snapshot.responses_schema == CapabilitySupport::Unknown
}

#[test]
fn compact_mode_defaults_to_synthetic() {
    let provider = build_provider(None);
    assert_eq!(ResponsesCompactMode::from_provider(&provider), ResponsesCompactMode::Synthetic);
}

#[test]
fn compact_mode_respects_provider_meta() {
    let provider = build_provider(Some(ProviderMeta {
        responses_compact_mode: Some("native".to_string()),
        ..Default::default()
    }));
    assert_eq!(ResponsesCompactMode::from_provider(&provider), ResponsesCompactMode::Native);
}

#[test]
fn anthropic_native_starts_with_responses_unsupported() {
    let provider = build_provider(Some(ProviderMeta {
        api_format: Some("anthropic".to_string()),
        ..Default::default()
    }));

    let snapshot = UpstreamCompatibility::for_provider(&AppType::Claude, &provider);

    assert_eq!(snapshot.responses, CapabilitySupport::Unsupported);
    assert_eq!(snapshot.responses_compact, CapabilitySupport::Unsupported);
    assert_eq!(snapshot.responses_schema, CapabilitySupport::Unsupported);
}

#[test]
fn responses_404_marks_endpoint_unsupported() {
    let provider = build_provider(None);
    let snapshot = UpstreamCompatibility::for_provider(&AppType::Codex, &provider)
        .with_http_failure(
            LogicalEndpoint::ResponsesCompact,
            404,
            "test",
            Some("not found".to_string()),
        );

    assert_eq!(snapshot.responses_compact, CapabilitySupport::Unsupported);
}

#[test]
fn responses_422_marks_schema_not_supported_but_endpoint_supported() {
    let provider = build_provider(None);
    let snapshot = UpstreamCompatibility::for_provider(&AppType::Codex, &provider)
        .with_http_failure(
            LogicalEndpoint::ResponsesCreate,
            422,
            "test",
            Some("schema mismatch".to_string()),
        );

    assert_eq!(snapshot.responses, CapabilitySupport::Supported);
    assert_eq!(snapshot.responses_schema, CapabilitySupport::Unsupported);
}

#[test]
fn compact_mode_names_round_trip() {
    for mode in [
        ResponsesCompactMode::Native,
        ResponsesCompactMode::Synthetic,
        ResponsesCompactMode::Disabled,
    ] {
        let provider = build_provider(Some(ProviderMeta {
            responses_compact_mode: Some(mode.as_str().to_string()),
            ..Default::default()
        }));
        assert_eq!(ResponsesCompactMode::from_provider(&provider), mode);
    }
    let provider = build_provider(Some(ProviderMeta {
        responses_compact_mode: Some("NATIVE".to_string()),
        ..Default::default()
    }));
    assert_eq!(ResponsesCompactMode::from_provider(&provider), ResponsesCompactMode::Synthetic);
}

#[test]
fn names_of_values() {
    assert_eq!(CapabilitySupport::Supported.as_str(), "supported");
    assert_eq!(CapabilitySupport::Unsupported.as_str(), "unsupported");
    assert_eq!(CapabilitySupport::Unknown.as_str(), "unknown");
    assert_eq!(ResponsesCompactMode::Native.as_str(), "native");
    assert_eq!(ResponsesCompactMode::Synthetic.as_str(), "synthetic");
    assert_eq!(ResponsesCompactMode::Disabled.as_str(), "disabled");
    assert_eq!(CapabilitySupport::default(), CapabilitySupport::Unknown);
    assert_eq!(ResponsesCompactMode::default(), ResponsesCompactMode::Synthetic);
}

#[test]
fn claude_without_format_is_native_anthropic() {
    let snapshot = UpstreamCompatibility::for_provider(&AppType::Claude, &build_provider(None));
    assert_eq!(snapshot.responses, CapabilitySupport::Unsupported);
    assert_eq!(snapshot.responses_compact, CapabilitySupport::Unsupported);
    assert_eq!(snapshot.streaming_sse, CapabilitySupport::Unknown);
    assert_eq!(snapshot.responses_schema, CapabilitySupport::Unsupported);
    assert_eq!(snapshot.compact_mode, ResponsesCompactMode::Synthetic);
    assert_eq!(snapshot.last_checked_at, None);
    assert_eq!(snapshot.source, None);
    assert_eq!(snapshot.note.as_deref(), Some("anthropic_native_messages"));
}

#[test]
fn claude_with_openai_format_starts_unknown() {
    let from_meta = build_provider(Some(ProviderMeta {
        api_format: Some("openai_chat".to_string()),
        ..Default::default()
    }));
    let snapshot = UpstreamCompatibility::for_provider(&AppType::Claude, &from_meta);
    assert!(all_unknown(&snapshot));
    assert_eq!(snapshot.note, None);

    let from_settings = Provider {
        meta: None,
        settings_api_format: Some("openai_chat".to_string()),
    };
    let snapshot = UpstreamCompatibility::for_provider(&AppType::Claude, &from_settings);
    assert!(all_unknown(&snapshot));

    // The provider's own setting wins over its settings document.
    let both = Provider {
        meta: Some(ProviderMeta {
            api_format: Some("anthropic".to_string()),
            ..Default::default()
        }),
        settings_api_format: Some("openai_chat".to_string()),
    };
    let snapshot = UpstreamCompatibility::for_provider(&AppType::Claude, &both);
    assert_eq!(snapshot.responses, CapabilitySupport::Unsupported);
}

#[test]
fn other_apps_start_unknown_with_their_compact_mode() {
    let provider = build_provider(Some(ProviderMeta {
        api_format: Some("anthropic".to_string()),
        responses_compact_mode: Some("disabled".to_string()),
        ..Default::default()
    }));
    for app in [AppType::Codex, AppType::Gemini] {
        let snapshot = UpstreamCompatibility::for_provider(&app, &provider);
        assert!(all_unknown(&snapshot));
        assert_eq!(snapshot.compact_mode, ResponsesCompactMode::Disabled);
        assert_eq!(snapshot.note, None);
    }
}

#[test]
fn success_records_support_source_and_time() {
    let start = UpstreamCompatibility::for_provider(&AppType::Codex, &build_provider(None));
    let snapshot = start
        .clone()
        .with_success_at(LogicalEndpoint::ResponsesCreate, Some(true), "probe", 1700);
    assert_eq!(snapshot.responses, CapabilitySupport::Supported);
    assert_eq!(snapshot.responses_schema, CapabilitySupport::Supported);
    assert_eq!(snapshot.responses_compact, CapabilitySupport::Unknown);
    assert_eq!(snapshot.streaming_sse, CapabilitySupport::Supported);
    assert_eq!(snapshot.last_checked_at, Some(1700));
    assert_eq!(snapshot.source.as_deref(), Some("probe"));
    assert_eq!(snapshot.note, None);

    let compact = start
        .clone()
        .with_success_at(LogicalEndpoint::ResponsesCompact, Some(false), "probe", 1);
    assert_eq!(compact.responses_compact, CapabilitySupport::Supported);
    assert_eq!(compact.responses, CapabilitySupport::Unknown);
    assert_eq!(compact.streaming_sse, CapabilitySupport::Unsupported);

    let now = start.with_success(LogicalEndpoint::ChatCompletions, None, "live");
    assert!(now.last_checked_at.is_some());
    assert!(now.last_checked_at.unwrap() > 1_500_000_000);
    assert!(all_unknown(&now));
    assert_eq!(now.source.as_deref(), Some("live"));
}

#[test]
fn success_clears_note() {
    let claude = UpstreamCompatibility::for_provider(&AppType::Claude, &build_provider(None));
    let snapshot = claude.with_success_at(LogicalEndpoint::ClaudeMessages, None, "s", 2);
    assert_eq!(snapshot.note, None);
    assert_eq!(snapshot.responses, CapabilitySupport::Unsupported);
}

#[test]
fn failure_statuses() {
    let start = UpstreamCompatibility::for_provider(&AppType::Codex, &build_provider(None));
    for status in [404u16, 405, 501] {
        let f = start
            .clone()
            .with_http_failure_at(LogicalEndpoint::ResponsesCreate, status, "t", None, 3);
        assert_eq!(f.responses, CapabilitySupport::Unsupported);
        assert_eq!(f.responses_schema, CapabilitySupport::Unknown);
    }
    for status in [400u16, 422] {
        let f = start
            .clone()
            .with_http_failure_at(LogicalEndpoint::ResponsesCompact, status, "t", None, 3);
        assert_eq!(f.responses_compact, CapabilitySupport::Supported);
        assert_eq!(f.responses, CapabilitySupport::Unknown);
    }
    for status in [200u16, 401, 429, 500, 503] {
        let f = start.clone().with_http_failure_at(
            LogicalEndpoint::ResponsesCreate,
            status,
            "t",
            Some("n".to_string()),
            9,
        );
        assert!(all_unknown(&f));
        assert_eq!(f.last_checked_at, Some(9));
        assert_eq!(f.source.as_deref(), Some("t"));
        assert_eq!(f.note.as_deref(), Some("n"));
    }
    let chat = start.with_http_failure(LogicalEndpoint::ChatCompletions, 404, "t", None);
    assert!(all_unknown(&chat));
    assert!(chat.last_checked_at.is_some());
    assert!(chat.last_checked_at.unwrap() > 1_500_000_000);
}

#[test]
fn observations_are_idempotent_and_keep_compact_mode() {
    let provider = build_provider(Some(ProviderMeta {
        responses_compact_mode: Some("native".to_string()),
        ..Default::default()
    }));
    let start = UpstreamCompatibility::for_provider(&AppType::Codex, &provider);
    let once = start
        .clone()
        .with_http_failure_at(LogicalEndpoint::ResponsesCreate, 422, "t", None, 4);
    let twice = once
        .clone()
        .with_http_failure_at(LogicalEndpoint::ResponsesCreate, 422, "t", None, 4);
    assert_eq!(once, twice);
    assert_eq!(once.compact_mode, ResponsesCompactMode::Native);
    let s1 = start
        .clone()
        .with_success_at(LogicalEndpoint::ResponsesCompact, Some(true), "x", 5);
    let s2 = s1
        .clone()
        .with_success_at(LogicalEndpoint::ResponsesCompact, Some(true), "x", 5);
    assert_eq!(s1, s2);
    assert_eq!(s2.compact_mode, ResponsesCompactMode::Native);
}

#[test]
fn summary_lists_every_capability() {
    let provider = build_provider(Some(ProviderMeta {
        responses_compact_mode: Some("disabled".to_string()),
        ..Default::default()
    }));
    let snapshot = UpstreamCompatibility::for_provider(&AppType::Codex, &provider)
        .with_success_at(LogicalEndpoint::ResponsesCreate, Some(false), "t", 1);
    assert_eq!(
        snapshot.summary(),
        "responses=supported, compact=unknown, sse=unsupported, schema=supported, compact_mode=disabled"
    );
}

#[test]
fn clock_readings_become_unix_times() {
    assert_eq!(unix_time_from_reading(None), None);
    assert_eq!(unix_time_from_reading(Some(0)), Some(0));
    assert_eq!(unix_time_from_reading(Some(1_700_000_000)), Some(1_700_000_000));
    assert_eq!(
        unix_time_from_reading(Some(8_000_000_000_000)),
        Some(8_000_000_000_000)
    );
    assert_eq!(unix_time_from_reading(Some(i64::MAX as u64)), None);
    assert_eq!(unix_time_from_reading(Some(i64::MAX as u64 + 1)), None);
    assert_eq!(unix_time_from_reading(Some(u64::MAX)), None);
}
