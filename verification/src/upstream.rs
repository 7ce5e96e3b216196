//! Resolution of a logical endpoint into the upstream URL to call.

use vstd::prelude::*;
use crate::provider::{Provider, ProviderMeta, ProviderMetaView, setting_chars, setting_is};
use crate::text::{
    chars_of, contains_chars, copy_range, has_infix, is_white_space, lemma_replace_all_keeps_first,
    lemma_replace_all_len_lt, lemma_trim_end_matching_shape, occurs_at, push_all, replace_all,
    replace_chars, same_chars, string_of, trim_end_char, trim_end_matching, trim_end_ws,
    trim_start_char, trim_start_matching, trim_start_ws, trim_whitespace, trim_ws,
};

verus! {

/// An upstream operation, independent of where a provider serves it.
#[derive(Debug, Clone, Copy, PartialEq, Eq, Structural)]
pub enum LogicalEndpoint {
    ResponsesCreate,
    ResponsesCompact,
    ChatCompletions,
    ClaudeMessages,
}

impl LogicalEndpoint {
    /// The endpoint's name.
    pub open spec fn label(self) -> Seq<char> {
        match self {
            LogicalEndpoint::ResponsesCreate => "ResponsesCreate"@,
            LogicalEndpoint::ResponsesCompact => "ResponsesCompact"@,
            LogicalEndpoint::ChatCompletions => "ChatCompletions"@,
            LogicalEndpoint::ClaudeMessages => "ClaudeMessages"@,
        }
    }

    /// The path at which a standard upstream serves the endpoint.
    pub open spec fn standard_path(self) -> Seq<char> {
        match self {
            LogicalEndpoint::ResponsesCreate => "/v1/responses"@,
            LogicalEndpoint::ResponsesCompact => "/v1/responses/compact"@,
            LogicalEndpoint::ChatCompletions => "/v1/chat/completions"@,
            LogicalEndpoint::ClaudeMessages => "/v1/messages"@,
        }
    }

    /// The endpoint's name.
    pub fn as_str(self) -> (r: &'static str)
        ensures
            r@ == self.label(),
    {
        match self {
            LogicalEndpoint::ResponsesCreate => "ResponsesCreate",
            LogicalEndpoint::ResponsesCompact => "ResponsesCompact",
            LogicalEndpoint::ChatCompletions => "ChatCompletions",
            LogicalEndpoint::ClaudeMessages => "ClaudeMessages",
        }
    }

    /// The path at which a standard upstream serves the endpoint.
    pub fn default_path(self) -> (r: &'static str)
        ensures
            r@ == self.standard_path(),
    {
        match self {
            LogicalEndpoint::ResponsesCreate => "/v1/responses",
            LogicalEndpoint::ResponsesCompact => "/v1/responses/compact",
            LogicalEndpoint::ChatCompletions => "/v1/chat/completions",
            LogicalEndpoint::ClaudeMessages => "/v1/messages",
        }
    }
}

/// How an upstream lays out its OpenAI compatible paths.
#[derive(Debug, Clone, Copy, PartialEq, Eq, Structural)]
pub enum UpstreamApiStyle {
    StandardOpenAi,
    PrefixedOpenAi,
    Custom,
}

impl UpstreamApiStyle {
    /// The style's name, as it is written in a provider's settings.
    pub open spec fn label(self) -> Seq<char> {
        match self {
            UpstreamApiStyle::StandardOpenAi => "standard_openai"@,
            UpstreamApiStyle::PrefixedOpenAi => "prefixed_openai"@,
            UpstreamApiStyle::Custom => "custom"@,
        }
    }

    /// The style's name, as it is written in a provider's settings.
    pub fn as_str(self) -> (r: &'static str)
        ensures
            r@ == self.label(),
    {
        match self {
            UpstreamApiStyle::StandardOpenAi => "standard_openai",
            UpstreamApiStyle::PrefixedOpenAi => "prefixed_openai",
            UpstreamApiStyle::Custom => "custom",
        }
    }
}

/// Where a logical endpoint resolved to.
#[derive(Debug, Clone, PartialEq, Eq)]
pub struct UpstreamResolution {
    /// The full URL to call.
    pub url: String,
    /// The endpoint that was resolved.
    pub logical_endpoint: LogicalEndpoint,
    /// The style the provider's settings select.
    pub applied_style: UpstreamApiStyle,
    /// Whether the path differs from the endpoint's standard path.
    pub path_rewritten: bool,
    /// The path part of the URL, before it was joined to the base URL.
    pub endpoint_path: String,
}

/// The style a provider's `upstream_api_style` setting selects: the standard
/// one unless it names another.
pub open spec fn style_named(setting: Option<Seq<char>>) -> UpstreamApiStyle {
    if setting == Some("prefixed_openai"@) {
        UpstreamApiStyle::PrefixedOpenAi
    } else if setting == Some("custom"@) {
        UpstreamApiStyle::Custom
    } else {
        UpstreamApiStyle::StandardOpenAi
    }
}

/// The path prefix under which the OpenAI style endpoints live.
pub open spec fn openai_base_path_for(meta: ProviderMetaView, style: UpstreamApiStyle) -> Seq<
    char,
> {
    match meta.openai_base_path {
        Some(p) => normalized_segment(p),
        None => if style == UpstreamApiStyle::PrefixedOpenAi {
            match meta.upstream_prefix {
                Some(p) => normalized_segment(p),
                None => "/openai"@,
            }
        } else {
            Seq::empty()
        },
    }
}

/// The path that the settings configure for an endpoint, if any.
pub open spec fn configured_path_for(meta: ProviderMetaView, endpoint: LogicalEndpoint) -> Option<
    Seq<char>,
> {
    match endpoint {
        LogicalEndpoint::ResponsesCreate => meta.responses_path,
        LogicalEndpoint::ResponsesCompact => meta.responses_compact_path,
        LogicalEndpoint::ChatCompletions => meta.chat_completions_path,
        LogicalEndpoint::ClaudeMessages => None,
    }
}

/// The path at which a provider with settings `meta` serves `endpoint`:
/// the standard path for Anthropic messages, otherwise the configured (or
/// standard) path joined under the OpenAI base path.
pub open spec fn endpoint_path_for(meta: ProviderMetaView, endpoint: LogicalEndpoint) -> Seq<char> {
    if endpoint == LogicalEndpoint::ClaudeMessages {
        endpoint.standard_path()
    } else {
        let base = openai_base_path_for(meta, style_named(meta.upstream_api_style));
        let path = match configured_path_for(meta, endpoint) {
            Some(p) => p,
            None => endpoint.standard_path(),
        };
        joined_path(base, path)
    }
}

/// The path segment `/v1/v1` that a careless join of a versioned base URL
/// and a versioned path produces.
pub open spec fn doubled_version() -> Seq<char> {
    seq!['/', 'v', '1', '/', 'v', '1']
}

/// The single version segment `/v1`.
pub open spec fn single_version() -> Seq<char> {
    seq!['/', 'v', '1']
}

/// `s` with `/v1/v1` replaced by `/v1` over and over until none is left.
pub open spec fn collapse_versions(s: Seq<char>) -> Seq<char>
    decreases s.len(),
{
    if has_infix(s, doubled_version()) {
        proof {
            lemma_replace_all_len_lt(s, doubled_version(), single_version());
        }
        collapse_versions(replace_all(s, doubled_version(), single_version()))
    } else {
        s
    }
}

/// A configured path segment in normal form: trimmed, empty when it names
/// the root, otherwise with one leading `/` and no trailing `/`.
pub open spec fn normalized_segment(value: Seq<char>) -> Seq<char> {
    let trimmed = trim_ws(value);
    if trimmed.len() == 0 || trimmed == seq!['/'] {
        Seq::empty()
    } else if trimmed[0] == '/' {
        trim_end_matching(trimmed, '/')
    } else {
        trim_end_matching(seq!['/'] + trimmed, '/')
    }
}

/// Two path segments joined: each normalized, the root when both are empty,
/// and duplicated version segments collapsed.
pub open spec fn joined_path(prefix: Seq<char>, path: Seq<char>) -> Seq<char> {
    let p = normalized_segment(prefix);
    let q = normalized_segment(path);
    let joined = if p.len() == 0 {
        if q.len() == 0 {
            seq!['/']
        } else {
            q
        }
    } else if q.len() == 0 {
        p
    } else {
        p + q
    };
    collapse_versions(joined)
}

/// The URL of `path` on the server at `base`: exactly one `/` between them,
/// duplicated version segments collapsed.
pub open spec fn url_for(base: Seq<char>, path: Seq<char>) -> Seq<char> {
    collapse_versions(trim_end_matching(base, '/') + seq!['/'] + trim_start_matching(path, '/'))
}

/// `value` with duplicated version segments collapsed.
pub fn collapse_version_chars(value: &Vec<char>) -> (r: Vec<char>)
    ensures
        r@ == collapse_versions(value@),
        !has_infix(r@, doubled_version()),
{
    let pat = vec!['/', 'v', '1', '/', 'v', '1'];
    let rep = vec!['/', 'v', '1'];
    assert(pat@ =~= doubled_version());
    assert(rep@ =~= single_version());
    let mut cur = copy_range(value, 0, value.len());
    assert(cur@ =~= value@);
    while contains_chars(&cur, &pat)
        invariant
            pat@ == doubled_version(),
            rep@ == single_version(),
            collapse_versions(cur@) == collapse_versions(value@),
        decreases cur@.len(),
    {
        proof {
            lemma_replace_all_len_lt(cur@, pat@, rep@);
        }
        cur = replace_chars(&cur, &pat, &rep);
    }
    cur
}

/// `value` with every `/v1/v1` collapsed to `/v1`, repeatedly, until none is
/// left.
pub fn collapse_duplicate_versions(value: &str) -> (r: String)
    ensures
        r@ == collapse_versions(value@),
        !has_infix(r@, doubled_version()),
{
    let v = chars_of(value);
    let c = collapse_version_chars(&v);
    string_of(&c)
}

/// `value` in normal form (see `normalized_segment`).
pub fn normalize_segment_chars(value: &Vec<char>) -> (r: Vec<char>)
    ensures
        r@ == normalized_segment(value@),
{
    let trimmed = trim_whitespace(value);
    if trimmed.len() == 0 || (trimmed.len() == 1 && trimmed[0] == '/') {
        proof {
            if trimmed.len() == 1 && trimmed[0] == '/' {
                assert(trimmed@ =~= seq!['/']);
            }
        }
        return Vec::new();
    }
    proof {
        if trimmed@ == seq!['/'] {
            assert(trimmed@.len() == 1);
        }
    }
    if trimmed[0] == '/' {
        trim_end_char(&trimmed, '/')
    } else {
        let mut prefixed = vec!['/'];
        push_all(&mut prefixed, &trimmed);
        assert(prefixed@ =~= seq!['/'] + trimmed@);
        trim_end_char(&prefixed, '/')
    }
}

/// `value` in normal form: trimmed of white space, empty when nothing or only
/// `/` is left, otherwise with a leading `/` and without trailing `/`.
pub fn normalize_path_segment(value: &str) -> (r: String)
    ensures
        r@ == normalized_segment(value@),
{
    let v = chars_of(value);
    let n = normalize_segment_chars(&v);
    string_of(&n)
}

/// `prefix` and `path` joined (see `joined_path`).
pub fn join_path_chars(prefix: &Vec<char>, path: &Vec<char>) -> (r: Vec<char>)
    ensures
        r@ == joined_path(prefix@, path@),
{
    let p = normalize_segment_chars(prefix);
    let q = normalize_segment_chars(path);
    let joined = if p.len() == 0 {
        if q.len() == 0 {
            vec!['/']
        } else {
            q
        }
    } else if q.len() == 0 {
        p
    } else {
        let mut pq = p;
        push_all(&mut pq, &q);
        pq
    };
    proof {
        if p.len() == 0 && q.len() == 0 {
            assert(joined@ =~= seq!['/']);
        }
    }
    collapse_version_chars(&joined)
}

/// The normalized `prefix` followed by the normalized `path`, or `/` when
/// both are empty, with duplicated version segments collapsed.
pub fn join_paths(prefix: &str, path: &str) -> (r: String)
    ensures
        r@ == joined_path(prefix@, path@),
{
    let p = chars_of(prefix);
    let q = chars_of(path);
    let j = join_path_chars(&p, &q);
    string_of(&j)
}

/// `base_url` without trailing `/`, then one `/`, then `path` without leading
/// `/`, with duplicated version segments collapsed.
pub fn build_url(base_url: &str, path: &str) -> (r: String)
    ensures
        r@ == url_for(base_url@, path@),
{
    let b = chars_of(base_url);
    let p = chars_of(path);
    let mut u = trim_end_char(&b, '/');
    let ghost base_part = u@;
    u.push('/');
    let rest = trim_start_char(&p, '/');
    push_all(&mut u, &rest);
    assert(u@ =~= base_part + seq!['/'] + rest@);
    let c = collapse_version_chars(&u);
    string_of(&c)
}


/// Resolves `logical_endpoint` for `provider` on the server at `base_url`.
pub fn resolve_upstream_url(
    provider: &Provider,
    base_url: &str,
    logical_endpoint: LogicalEndpoint,
) -> (r: UpstreamResolution)
    ensures
        r.logical_endpoint == logical_endpoint,
        r.applied_style == style_named(provider@.settings().upstream_api_style),
        r.endpoint_path@ == endpoint_path_for(provider@.settings(), logical_endpoint),
        r.url@ == url_for(base_url@, r.endpoint_path@),
        r.path_rewritten == (r.endpoint_path@ != logical_endpoint.standard_path()),
{
    let unset = ProviderMeta::default();
    let meta: &ProviderMeta = match &provider.meta {
        Some(m) => m,
        None => &unset,
    };
    assert(meta@ == provider@.settings());
    let style_setting = setting_chars(&meta.upstream_api_style);
    let applied_style = if setting_is(&style_setting, "prefixed_openai") {
        UpstreamApiStyle::PrefixedOpenAi
    } else if setting_is(&style_setting, "custom") {
        UpstreamApiStyle::Custom
    } else {
        UpstreamApiStyle::StandardOpenAi
    };
    let openai_base_path: Vec<char> = match &meta.openai_base_path {
        Some(p) => normalize_segment_chars(&chars_of(p.as_str())),
        None => match applied_style {
            UpstreamApiStyle::PrefixedOpenAi => match &meta.upstream_prefix {
                Some(p) => normalize_segment_chars(&chars_of(p.as_str())),
                None => chars_of("/openai"),
            },
            _ => Vec::new(),
        },
    };
    assert(openai_base_path@ == openai_base_path_for(meta@, applied_style));
    let configured_path: Option<&String> = match logical_endpoint {
        LogicalEndpoint::ResponsesCreate => meta.responses_path.as_ref(),
        LogicalEndpoint::ResponsesCompact => meta.responses_compact_path.as_ref(),
        LogicalEndpoint::ChatCompletions => meta.chat_completions_path.as_ref(),
        LogicalEndpoint::ClaudeMessages => None,
    };
    let default_path = chars_of(logical_endpoint.default_path());
    let endpoint_path: Vec<char> = if logical_endpoint == LogicalEndpoint::ClaudeMessages {
        chars_of(logical_endpoint.default_path())
    } else {
        let path = match configured_path {
            Some(p) => chars_of(p.as_str()),
            None => chars_of(logical_endpoint.default_path()),
        };
        join_path_chars(&openai_base_path, &path)
    };
    let endpoint_path_text = string_of(&endpoint_path);
    let url = build_url(base_url, endpoint_path_text.as_str());
    let path_rewritten = !same_chars(&endpoint_path, &default_path);
    UpstreamResolution {
        url,
        logical_endpoint,
        applied_style,
        path_rewritten,
        endpoint_path: endpoint_path_text,
    }
}


/// Collapsing leaves no `/v1/v1` behind.
pub proof fn lemma_collapse_leaves_no_duplicate(s: Seq<char>)
    ensures
        !has_infix(collapse_versions(s), doubled_version()),
    decreases s.len(),
{
    if has_infix(s, doubled_version()) {
        lemma_replace_all_len_lt(s, doubled_version(), single_version());
        lemma_collapse_leaves_no_duplicate(replace_all(s, doubled_version(), single_version()));
    }
}

/// Collapsing twice is collapsing once.
pub proof fn lemma_collapse_idempotent(s: Seq<char>)
    ensures
        collapse_versions(collapse_versions(s)) == collapse_versions(s),
{
    lemma_collapse_leaves_no_duplicate(s);
}

/// Collapsing keeps a leading `/`.
pub proof fn lemma_collapse_keeps_leading_slash(s: Seq<char>)
    requires
        s.len() > 0,
        s[0] == '/',
    ensures
        collapse_versions(s).len() > 0,
        collapse_versions(s)[0] == '/',
    decreases s.len(),
{
    if has_infix(s, doubled_version()) {
        lemma_replace_all_len_lt(s, doubled_version(), single_version());
        lemma_replace_all_keeps_first(s, doubled_version(), single_version());
        lemma_collapse_keeps_leading_slash(replace_all(s, doubled_version(), single_version()));
    }
}

/// A normalized segment is empty, or starts with `/` and does not end with
/// `/`.
pub proof fn lemma_normalized_segment_shape(value: Seq<char>)
    ensures
        normalized_segment(value).len() == 0 || (normalized_segment(value)[0] == '/'
            && normalized_segment(value).last() != '/'),
{
    let trimmed = trim_ws(value);
    if trimmed.len() == 0 || trimmed == seq!['/'] {
    } else if trimmed[0] == '/' {
        lemma_trim_end_matching_shape(trimmed, '/');
    } else {
        lemma_trim_end_matching_shape(seq!['/'] + trimmed, '/');
    }
}

/// Normalizing a normalized segment changes nothing, unless it ends in
/// white space that the first normalization uncovered.
pub proof fn lemma_normalize_idempotent(value: Seq<char>)
    requires
        normalized_segment(value).len() == 0 || !is_white_space(normalized_segment(value).last()),
    ensures
        normalized_segment(normalized_segment(value)) == normalized_segment(value),
{
    let n = normalized_segment(value);
    lemma_normalized_segment_shape(value);
    if n.len() > 0 {
        assert(trim_start_ws(n) == n);
        assert(trim_end_ws(n) == n);
        assert(n != seq!['/']);
    }
}

/// A path joined from two segments starts with `/`.
pub proof fn lemma_joined_path_is_absolute(prefix: Seq<char>, path: Seq<char>)
    ensures
        joined_path(prefix, path).len() > 0,
        joined_path(prefix, path)[0] == '/',
{
    let p = normalized_segment(prefix);
    let q = normalized_segment(path);
    lemma_normalized_segment_shape(prefix);
    lemma_normalized_segment_shape(path);
    let joined = if p.len() == 0 {
        if q.len() == 0 {
            seq!['/']
        } else {
            q
        }
    } else if q.len() == 0 {
        p
    } else {
        p + q
    };
    lemma_collapse_keeps_leading_slash(joined);
}

/// The URL of a path never holds a duplicated version segment.
pub proof fn lemma_url_has_no_duplicate_version(base: Seq<char>, path: Seq<char>)
    ensures
        !has_infix(url_for(base, path), doubled_version()),
{
    lemma_collapse_leaves_no_duplicate(
        trim_end_matching(base, '/') + seq!['/'] + trim_start_matching(path, '/'),
    );
}

/// Every endpoint resolves to an absolute path.
pub proof fn lemma_endpoint_path_is_absolute(meta: ProviderMetaView, endpoint: LogicalEndpoint)
    ensures
        endpoint_path_for(meta, endpoint).len() > 0,
        endpoint_path_for(meta, endpoint)[0] == '/',
{
    if endpoint == LogicalEndpoint::ClaudeMessages {
        reveal_strlit("/v1/messages");
    } else {
        let base = openai_base_path_for(meta, style_named(meta.upstream_api_style));
        let path = match configured_path_for(meta, endpoint) {
            Some(p) => p,
            None => endpoint.standard_path(),
        };
        lemma_joined_path_is_absolute(base, path);
    }
}

/// Anthropic messages are served at their standard path whatever the settings
/// say.
pub proof fn lemma_claude_messages_ignore_settings(meta: ProviderMetaView)
    ensures
        endpoint_path_for(meta, LogicalEndpoint::ClaudeMessages)
            == LogicalEndpoint::ClaudeMessages.standard_path(),
{
}

/// Setting a style by its name selects that style.
pub proof fn lemma_style_named_by_label(style: UpstreamApiStyle)
    ensures
        style_named(Some(style.label())) == style,
{
    reveal_strlit("standard_openai");
    reveal_strlit("prefixed_openai");
    reveal_strlit("custom");
    assert("standard_openai"@[0] != "prefixed_openai"@[0]);
    assert("standard_openai"@.len() != "custom"@.len());
    assert("custom"@.len() != "prefixed_openai"@.len());
}

/// Different endpoints have different names.
pub proof fn lemma_endpoint_labels_distinct(a: LogicalEndpoint, b: LogicalEndpoint)
    ensures
        a.label() == b.label() ==> a == b,
{
    reveal_strlit("ResponsesCreate");
    reveal_strlit("ResponsesCompact");
    reveal_strlit("ChatCompletions");
    reveal_strlit("ClaudeMessages");
    assert("ResponsesCreate"@[0] != "ChatCompletions"@[0]);
    assert("ResponsesCreate"@.len() != "ResponsesCompact"@.len());
    assert("ResponsesCreate"@.len() != "ClaudeMessages"@.len());
    assert("ResponsesCompact"@.len() != "ChatCompletions"@.len());
    assert("ResponsesCompact"@.len() != "ClaudeMessages"@.len());
    assert("ChatCompletions"@.len() != "ClaudeMessages"@.len());
}

/// Different styles have different names.
pub proof fn lemma_style_labels_distinct(a: UpstreamApiStyle, b: UpstreamApiStyle)
    ensures
        a.label() == b.label() ==> a == b,
{
    lemma_style_named_by_label(a);
    lemma_style_named_by_label(b);
}


/// A path whose only `v` is its second character holds no `/v1/v1`.
proof fn lemma_single_v_has_no_duplicate(s: Seq<char>)
    requires
        forall|j: int| 0 <= j < s.len() && s[j] == 'v' ==> j == 1,
    ensures
        !has_infix(s, doubled_version()),
{
    assert forall|i: int| !occurs_at(s, doubled_version(), i) by {
        if occurs_at(s, doubled_version(), i) {
            assert(s.subrange(i, i + 6)[1] == 'v');
            assert(s.subrange(i, i + 6)[4] == 'v');
            assert(s[i + 1] == 'v');
            assert(s[i + 4] == 'v');
        }
    }
}

/// A standard path is already a normalized, collapsed path.
proof fn lemma_standard_path_is_normal(endpoint: LogicalEndpoint)
    ensures
        normalized_segment(endpoint.standard_path()) == endpoint.standard_path(),
        collapse_versions(endpoint.standard_path()) == endpoint.standard_path(),
{
    reveal_strlit("/v1/responses");
    reveal_strlit("/v1/responses/compact");
    reveal_strlit("/v1/chat/completions");
    reveal_strlit("/v1/messages");
    let s = endpoint.standard_path();
    assert(s[0] == '/');
    assert(s.last() != '/');
    assert(!is_white_space(s.last()));
    assert(trim_start_ws(s) == s);
    assert(trim_end_ws(s) == s);
    assert(s != seq!['/']);
    assert forall|j: int| 0 <= j < s.len() && s[j] == 'v' implies j == 1 by {}
    lemma_single_v_has_no_duplicate(s);
}

/// A provider without settings is served at the standard paths.
pub proof fn lemma_unset_settings_use_standard_paths(endpoint: LogicalEndpoint)
    ensures
        endpoint_path_for(ProviderMetaView::unset(), endpoint) == endpoint.standard_path(),
{
    lemma_standard_path_is_normal(endpoint);
    reveal_strlit("/v1/responses");
    reveal_strlit("/v1/responses/compact");
    reveal_strlit("/v1/chat/completions");
    reveal_strlit("prefixed_openai");
    reveal_strlit("custom");
    let e: Seq<char> = Seq::empty();
    assert(trim_start_ws(e) == e);
    assert(trim_end_ws(e) == e);
    assert(normalized_segment(e) =~= e);
    let meta = ProviderMetaView::unset();
    assert(style_named(meta.upstream_api_style) == UpstreamApiStyle::StandardOpenAi);
    assert(openai_base_path_for(meta, UpstreamApiStyle::StandardOpenAi) == e);
    if endpoint != LogicalEndpoint::ClaudeMessages {
        assert(configured_path_for(meta, endpoint) is None);
        assert(endpoint.standard_path().len() > 0);
        assert(joined_path(e, endpoint.standard_path()) == collapse_versions(
            endpoint.standard_path(),
        ));
    }
}

/// Each OpenAI style endpoint uses the path its own setting configures:
/// when `responses_path`, `responses_compact_path` or
/// `chat_completions_path` is set, the create, compaction or chat endpoint
/// respectively resolves to that path joined under the OpenAI base path.
pub proof fn lemma_configured_paths_are_used(meta: ProviderMetaView)
    ensures
        ({
            let base = openai_base_path_for(meta, style_named(meta.upstream_api_style));
            &&& (meta.responses_path matches Some(p) ==> endpoint_path_for(
                meta,
                LogicalEndpoint::ResponsesCreate,
            ) == joined_path(base, p))
            &&& (meta.responses_compact_path matches Some(p) ==> endpoint_path_for(
                meta,
                LogicalEndpoint::ResponsesCompact,
            ) == joined_path(base, p))
            &&& (meta.chat_completions_path matches Some(p) ==> endpoint_path_for(
                meta,
                LogicalEndpoint::ChatCompletions,
            ) == joined_path(base, p))
        }),
{
}

/// A path already in normal form (starting with `/`, ending in neither `/`
/// nor white space, without `/v1/v1`) that is configured for an OpenAI style
/// endpoint of a provider without a base path and without the prefixed
/// style is used exactly as written.
pub proof fn lemma_normal_configured_path_is_kept(
    meta: ProviderMetaView,
    endpoint: LogicalEndpoint,
    path: Seq<char>,
)
    requires
        (endpoint == LogicalEndpoint::ResponsesCreate && meta.responses_path == Some(path)) || (
        endpoint == LogicalEndpoint::ResponsesCompact && meta.responses_compact_path == Some(path))
            || (endpoint == LogicalEndpoint::ChatCompletions && meta.chat_completions_path == Some(
            path,
        )),
        meta.openai_base_path is None,
        meta.upstream_api_style != Some("prefixed_openai"@),
        path.len() > 0,
        path[0] == '/',
        path.last() != '/',
        !is_white_space(path.last()),
        !has_infix(path, doubled_version()),
    ensures
        endpoint_path_for(meta, endpoint) == path,
{
    let e: Seq<char> = Seq::empty();
    assert(trim_start_ws(e) == e);
    assert(trim_end_ws(e) == e);
    assert(normalized_segment(e) =~= e);
    assert(style_named(meta.upstream_api_style) != UpstreamApiStyle::PrefixedOpenAi);
    assert(openai_base_path_for(meta, style_named(meta.upstream_api_style)) == e);
    assert(trim_start_ws(path) == path);
    assert(trim_end_ws(path) == path);
    assert(path != seq!['/']);
    assert(trim_end_matching(path, '/') == path);
    assert(normalized_segment(path) == path);
    assert(configured_path_for(meta, endpoint) == Some(path));
    assert(joined_path(e, path) == collapse_versions(path));
}

/// Any setting of `upstream_api_style` other than `prefixed_openai` and
/// `custom`, and no setting at all, selects the standard style.
pub proof fn lemma_unknown_style_is_standard(setting: Option<Seq<char>>)
    requires
        setting != Some("prefixed_openai"@),
        setting != Some("custom"@),
    ensures
        style_named(setting) == UpstreamApiStyle::StandardOpenAi,
{
}

/// Slashes where the base URL meets the path do not matter: the URL has one
/// `/` there however many the two sides bring.
pub proof fn lemma_url_ignores_slashes_at_the_join(base: Seq<char>, path: Seq<char>)
    ensures
        url_for(base.push('/'), path) == url_for(base, path),
        url_for(base, seq!['/'] + path) == url_for(base, path),
{
    assert(base.push('/').drop_last() =~= base);
    assert((seq!['/'] + path).drop_first() =~= path);
}

/// Appending white space `c` changes nothing once both ends are trimmed.
proof fn lemma_trim_ws_ignores_appended_white_space(v: Seq<char>, c: char)
    requires
        is_white_space(c),
    ensures
        trim_ws(v.push(c)) == trim_ws(v),
    decreases v.len(),
{
    if v.len() == 0 {
        assert(v.push(c).drop_first() =~= v);
    } else if is_white_space(v[0]) {
        assert(v.push(c).drop_first() =~= v.drop_first().push(c));
        lemma_trim_ws_ignores_appended_white_space(v.drop_first(), c);
    } else {
        assert(trim_start_ws(v.push(c)) == v.push(c));
        assert(v.push(c).drop_last() =~= v);
    }
}

/// White space around a configured segment does not change its normal form.
pub proof fn lemma_normalize_ignores_surrounding_white_space(value: Seq<char>, c: char, d: char)
    requires
        is_white_space(c),
        is_white_space(d),
    ensures
        normalized_segment(seq![c] + value + seq![d]) == normalized_segment(value),
{
    let inner = value.push(d);
    assert(seq![c] + value + seq![d] =~= seq![c] + inner);
    assert((seq![c] + inner).drop_first() =~= inner);
    assert(trim_start_ws(seq![c] + inner) == trim_start_ws(inner));
    lemma_trim_ws_ignores_appended_white_space(value, d);
}

} // verus!
