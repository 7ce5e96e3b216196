//! What is known about the protocol features an upstream supports, and how
//! the outcome of a request updates it.

use std::time::{Duration, SystemTime, UNIX_EPOCH};
use vstd::prelude::*;
use crate::provider::{AppType, Provider, ProviderView, setting_chars, setting_is, text_of};
use crate::text::{chars_of, same_chars};
use crate::upstream::LogicalEndpoint;

verus! {

/// Whether an upstream supports a feature, as far as is known.
#[derive(Debug, Clone, Copy, PartialEq, Eq, Structural)]
pub enum CapabilitySupport {
    Supported,
    Unsupported,
    Unknown,
}

impl CapabilitySupport {
    /// The value's name.
    pub open spec fn label(self) -> Seq<char> {
        match self {
            CapabilitySupport::Supported => "supported"@,
            CapabilitySupport::Unsupported => "unsupported"@,
            CapabilitySupport::Unknown => "unknown"@,
        }
    }

    /// The value's name.
    pub fn as_str(self) -> (r: &'static str)
        ensures
            r@ == self.label(),
    {
        match self {
            CapabilitySupport::Supported => "supported",
            CapabilitySupport::Unsupported => "unsupported",
            CapabilitySupport::Unknown => "unknown",
        }
    }
}

impl Default for CapabilitySupport {
    /// Nothing is known.
    fn default() -> (r: Self)
        ensures
            r == CapabilitySupport::Unknown,
    {
        CapabilitySupport::Unknown
    }
}

/// How requests to compact a response are served.
#[derive(Debug, Clone, Copy, PartialEq, Eq, Structural)]
pub enum ResponsesCompactMode {
    Native,
    Synthetic,
    Disabled,
}

/// The compaction mode a provider's `responses_compact_mode` setting
/// selects: synthetic unless it names another.
pub open spec fn compact_mode_named(setting: Option<Seq<char>>) -> ResponsesCompactMode {
    if setting == Some("native"@) {
        ResponsesCompactMode::Native
    } else if setting == Some("disabled"@) {
        ResponsesCompactMode::Disabled
    } else {
        ResponsesCompactMode::Synthetic
    }
}

impl ResponsesCompactMode {
    /// The mode's name, as it is written in a provider's settings.
    pub open spec fn label(self) -> Seq<char> {
        match self {
            ResponsesCompactMode::Native => "native"@,
            ResponsesCompactMode::Synthetic => "synthetic"@,
            ResponsesCompactMode::Disabled => "disabled"@,
        }
    }

    /// The mode that `provider`'s settings select.
    pub fn from_provider(provider: &Provider) -> (r: Self)
        ensures
            r == compact_mode_named(provider@.settings().responses_compact_mode),
    {
        match &provider.meta {
            Some(meta) => {
                let setting = setting_chars(&meta.responses_compact_mode);
                if setting_is(&setting, "native") {
                    ResponsesCompactMode::Native
                } else if setting_is(&setting, "disabled") {
                    ResponsesCompactMode::Disabled
                } else {
                    ResponsesCompactMode::Synthetic
                }
            },
            None => ResponsesCompactMode::Synthetic,
        }
    }

    /// The mode's name, as it is written in a provider's settings.
    pub fn as_str(self) -> (r: &'static str)
        ensures
            r@ == self.label(),
    {
        match self {
            ResponsesCompactMode::Native => "native",
            ResponsesCompactMode::Synthetic => "synthetic",
            ResponsesCompactMode::Disabled => "disabled",
        }
    }
}

impl Default for ResponsesCompactMode {
    /// Compaction is synthesized.
    fn default() -> (r: Self)
        ensures
            r == ResponsesCompactMode::Synthetic,
    {
        ResponsesCompactMode::Synthetic
    }
}

/// What is known of an upstream's support for the responses API.
#[derive(Debug, Clone, PartialEq, Eq)]
pub struct UpstreamCompatibility {
    pub responses: CapabilitySupport,
    pub responses_compact: CapabilitySupport,
    pub streaming_sse: CapabilitySupport,
    pub responses_schema: CapabilitySupport,
    pub compact_mode: ResponsesCompactMode,
    /// Unix time, in seconds, of the last observation.
    pub last_checked_at: Option<i64>,
    /// What made the last observation.
    pub source: Option<String>,
    /// A remark on the last observation.
    pub note: Option<String>,
}

/// What `UpstreamCompatibility` holds, with text as text.
pub ghost struct CompatibilityView {
    pub responses: CapabilitySupport,
    pub responses_compact: CapabilitySupport,
    pub streaming_sse: CapabilitySupport,
    pub responses_schema: CapabilitySupport,
    pub compact_mode: ResponsesCompactMode,
    pub last_checked_at: Option<i64>,
    pub source: Option<Seq<char>>,
    pub note: Option<Seq<char>>,
}

impl View for UpstreamCompatibility {
    type V = CompatibilityView;

    open spec fn view(&self) -> CompatibilityView {
        CompatibilityView {
            responses: self.responses,
            responses_compact: self.responses_compact,
            streaming_sse: self.streaming_sse,
            responses_schema: self.responses_schema,
            compact_mode: self.compact_mode,
            last_checked_at: self.last_checked_at,
            source: text_of(self.source),
            note: text_of(self.note),
        }
    }
}

/// The wire format of a provider: its setting, else the one in its settings
/// document, else `anthropic`.
pub open spec fn api_format_of(provider: ProviderView) -> Seq<char> {
    match provider.settings().api_format {
        Some(f) => f,
        None => match provider.settings_api_format {
            Some(f) => f,
            None => "anthropic"@,
        },
    }
}

/// What is known of a provider before anything was observed: nothing, but
/// that a provider for the Anthropic client speaking the native Anthropic format does not
/// serve the responses API.
pub open spec fn initial_compatibility(app_type: AppType, provider: ProviderView) -> CompatibilityView {
    let native = app_type == AppType::Claude && api_format_of(provider) == "anthropic"@;
    CompatibilityView {
        responses: if native {
            CapabilitySupport::Unsupported
        } else {
            CapabilitySupport::Unknown
        },
        responses_compact: if native {
            CapabilitySupport::Unsupported
        } else {
            CapabilitySupport::Unknown
        },
        streaming_sse: CapabilitySupport::Unknown,
        responses_schema: if native {
            CapabilitySupport::Unsupported
        } else {
            CapabilitySupport::Unknown
        },
        compact_mode: compact_mode_named(provider.settings().responses_compact_mode),
        last_checked_at: None,
        source: None,
        note: if native {
            Some("anthropic_native_messages"@)
        } else {
            None
        },
    }
}

/// What is known after a request to `endpoint` succeeded, observed at the
/// Unix time `checked_at` when that time is known.
pub open spec fn after_success(
    known: CompatibilityView,
    endpoint: LogicalEndpoint,
    streaming_sse: Option<bool>,
    source: Seq<char>,
    checked_at: Option<i64>,
) -> CompatibilityView {
    CompatibilityView {
        responses: if endpoint == LogicalEndpoint::ResponsesCreate {
            CapabilitySupport::Supported
        } else {
            known.responses
        },
        responses_compact: if endpoint == LogicalEndpoint::ResponsesCompact {
            CapabilitySupport::Supported
        } else {
            known.responses_compact
        },
        streaming_sse: match streaming_sse {
            Some(true) => CapabilitySupport::Supported,
            Some(false) => CapabilitySupport::Unsupported,
            None => known.streaming_sse,
        },
        responses_schema: if endpoint == LogicalEndpoint::ResponsesCreate {
            CapabilitySupport::Supported
        } else {
            known.responses_schema
        },
        compact_mode: known.compact_mode,
        last_checked_at: checked_at,
        source: Some(source),
        note: None,
    }
}

/// An HTTP status that says the endpoint does not exist.
pub open spec fn is_missing_endpoint_status(status: u16) -> bool {
    status == 404 || status == 405 || status == 501
}

/// An HTTP status that says the endpoint exists but refused the request.
pub open spec fn is_rejected_request_status(status: u16) -> bool {
    status == 400 || status == 422
}

/// What is known after a request to `endpoint` failed with HTTP `status`,
/// observed at the Unix time `checked_at` when that time is known.
pub open spec fn after_http_failure(
    known: CompatibilityView,
    endpoint: LogicalEndpoint,
    status: u16,
    source: Seq<char>,
    note: Option<Seq<char>>,
    checked_at: Option<i64>,
) -> CompatibilityView {
    CompatibilityView {
        responses: if endpoint == LogicalEndpoint::ResponsesCreate && is_missing_endpoint_status(
            status,
        ) {
            CapabilitySupport::Unsupported
        } else if endpoint == LogicalEndpoint::ResponsesCreate && is_rejected_request_status(
            status,
        ) {
            CapabilitySupport::Supported
        } else {
            known.responses
        },
        responses_compact: if endpoint == LogicalEndpoint::ResponsesCompact
            && is_missing_endpoint_status(status) {
            CapabilitySupport::Unsupported
        } else if endpoint == LogicalEndpoint::ResponsesCompact && is_rejected_request_status(
            status,
        ) {
            CapabilitySupport::Supported
        } else {
            known.responses_compact
        },
        streaming_sse: known.streaming_sse,
        responses_schema: if endpoint == LogicalEndpoint::ResponsesCreate
            && is_rejected_request_status(status) {
            CapabilitySupport::Unsupported
        } else {
            known.responses_schema
        },
        compact_mode: known.compact_mode,
        last_checked_at: checked_at,
        source: Some(source),
        note: note,
    }
}

/// The one-line description of what is known.
pub open spec fn summary_text(known: CompatibilityView) -> Seq<char> {
    "responses="@ + known.responses.label() + ", compact="@ + known.responses_compact.label()
        + ", sse="@ + known.streaming_sse.label() + ", schema="@ + known.responses_schema.label()
        + ", compact_mode="@ + known.compact_mode.label()
}

#[verifier::external_type_specification]
#[verifier::external_body]
pub struct ExSystemTime(SystemTime);

/// The system clock's current time.
///
/// Trusted: calls std's `SystemTime::now`. What the clock reads is not
/// stated.
#[verifier::external_body]
fn system_time_now() -> SystemTime {
    SystemTime::now()
}

/// The time elapsed from 1970-01-01 00:00:00 UTC to `time`, or `None` when
/// `time` is earlier.
///
/// Trusted: calls std's `SystemTime::duration_since` with `UNIX_EPOCH`, which
/// returns an error for an earlier time; the error becomes `None`. Nothing is
/// stated of the duration, since `SystemTime` is opaque here.
#[verifier::external_body]
fn elapsed_since_unix_epoch(time: &SystemTime) -> Option<Duration> {
    match time.duration_since(UNIX_EPOCH) {
        Ok(elapsed) => Some(elapsed),
        Err(_) => None,
    }
}

/// The whole seconds of `elapsed`.
///
/// Trusted: calls std's `Duration::as_secs`. Nothing is stated of the
/// result, since `Duration` is opaque here.
#[verifier::external_body]
fn whole_seconds(elapsed: &Duration) -> u64 {
    elapsed.as_secs()
}

/// The largest number of seconds after 1970 used below: a round number of
/// seconds that falls in the year 255474, before chrono's last year, 262142.
pub open spec fn chrono_safe_seconds() -> int {
    8_000_000_000_000
}

/// The Unix timestamp of the UTC time `secs` seconds after 1970-01-01
/// 00:00:00, or `None` when that time is out of chrono's range.
///
/// Trusted: calls `chrono::DateTime::from_timestamp(secs, 0)`, which returns
/// `None` only for a date out of chrono's range (years up to 262142 are in
/// range, see `NaiveDate::MAX`), and takes the result's `timestamp`, which
/// gives the seconds back (the two round-trip, as chrono documents). The
/// exact range is not stated, only that every time from 1970 up to
/// `chrono_safe_seconds()` is in it.
#[verifier::external_body]
fn utc_timestamp(secs: i64) -> (r: Option<i64>)
    ensures
        r matches Some(t) ==> t == secs,
        0 <= secs <= chrono_safe_seconds() ==> r is Some,
{
    match chrono::DateTime::from_timestamp(secs, 0) {
        Some(time) => Some(time.timestamp()),
        None => None,
    }
}

/// The Unix time of a clock reading of `reading` whole seconds after 1970
/// (`None` for a clock before 1970): the same number, when it fits an `i64`
/// and chrono can represent that time.
pub fn unix_time_from_reading(reading: Option<u64>) -> (r: Option<i64>)
    ensures
        r matches Some(t) ==> t >= 0 && reading == Some(t as u64),
        reading is None ==> r is None,
        reading matches Some(s) ==> (s > i64::MAX ==> r is None),
        reading matches Some(s) ==> (s <= chrono_safe_seconds() ==> r == Some(s as i64)),
{
    match reading {
        Some(secs) => if secs <= 0x7fff_ffff_ffff_ffffu64 {
            utc_timestamp(secs as i64)
        } else {
            None
        },
        None => None,
    }
}

/// The current Unix time in seconds, when the system clock reads a time at
/// or after 1970 that chrono can represent.
fn current_unix_time() -> (r: Option<i64>)
    ensures
        r matches Some(t) ==> t >= 0,
{
    let now = system_time_now();
    let reading = match elapsed_since_unix_epoch(&now) {
        Some(elapsed) => Some(whole_seconds(&elapsed)),
        None => None,
    };
    unix_time_from_reading(reading)
}

impl UpstreamCompatibility {
    /// What is known of `provider`, configured for `app_type`, before any
    /// request was observed.
    pub fn for_provider(app_type: &AppType, provider: &Provider) -> (r: Self)
        ensures
            r@ == initial_compatibility(*app_type, provider@),
    {
        let compact_mode = ResponsesCompactMode::from_provider(provider);
        let mut snapshot = UpstreamCompatibility {
            responses: CapabilitySupport::Unknown,
            responses_compact: CapabilitySupport::Unknown,
            streaming_sse: CapabilitySupport::Unknown,
            responses_schema: CapabilitySupport::Unknown,
            compact_mode,
            last_checked_at: None,
            source: None,
            note: None,
        };
        if *app_type == AppType::Claude {
            let meta_format = match &provider.meta {
                Some(meta) => setting_chars(&meta.api_format),
                None => None,
            };
            let api_format = match meta_format {
                Some(f) => f,
                None => match setting_chars(&provider.settings_api_format) {
                    Some(f) => f,
                    None => chars_of("anthropic"),
                },
            };
            let anthropic = chars_of("anthropic");
            if same_chars(&api_format, &anthropic) {
                snapshot.responses = CapabilitySupport::Unsupported;
                snapshot.responses_compact = CapabilitySupport::Unsupported;
                snapshot.responses_schema = CapabilitySupport::Unsupported;
                snapshot.note = Some("anthropic_native_messages".to_owned());
            }
        }
        snapshot
    }

    /// What is known after a request to `logical_endpoint` succeeded at Unix
    /// time `checked_at`; `streaming_sse` tells whether it streamed, when
    /// that was observed.
    pub fn with_success_at(
        self,
        logical_endpoint: LogicalEndpoint,
        streaming_sse: Option<bool>,
        source: &str,
        checked_at: i64,
    ) -> (r: Self)
        ensures
            r@ == after_success(
                self@,
                logical_endpoint,
                streaming_sse,
                source@,
                Some(checked_at),
            ),
    {
        let mut next = self;
        match logical_endpoint {
            LogicalEndpoint::ResponsesCreate => {
                next.responses = CapabilitySupport::Supported;
                next.responses_schema = CapabilitySupport::Supported;
            },
            LogicalEndpoint::ResponsesCompact => {
                next.responses_compact = CapabilitySupport::Supported;
            },
            LogicalEndpoint::ChatCompletions | LogicalEndpoint::ClaudeMessages => {},
        }
        if let Some(is_supported) = streaming_sse {
            next.streaming_sse = if is_supported {
                CapabilitySupport::Supported
            } else {
                CapabilitySupport::Unsupported
            };
        }
        next.last_checked_at = Some(checked_at);
        next.source = Some(source.to_owned());
        next.note = None;
        next
    }

    /// What is known after a request to `logical_endpoint` succeeded now;
    /// the observation carries no time when the system clock cannot be read
    /// as a Unix time.
    pub fn with_success(
        self,
        logical_endpoint: LogicalEndpoint,
        streaming_sse: Option<bool>,
        source: &str,
    ) -> (r: Self)
        ensures
            r@ == after_success(
                self@,
                logical_endpoint,
                streaming_sse,
                source@,
                r.last_checked_at,
            ),
            r.last_checked_at matches Some(t) ==> t >= 0,
    {
        let now = current_unix_time();
        let mut next = self.with_success_at(logical_endpoint, streaming_sse, source, 0);
        next.last_checked_at = now;
        next
    }

    /// What is known after a request to `logical_endpoint` failed with HTTP
    /// `status` at Unix time `checked_at`.
    pub fn with_http_failure_at(
        self,
        logical_endpoint: LogicalEndpoint,
        status: u16,
        source: &str,
        note: Option<String>,
        checked_at: i64,
    ) -> (r: Self)
        ensures
            r@ == after_http_failure(
                self@,
                logical_endpoint,
                status,
                source@,
                text_of(note),
                Some(checked_at),
            ),
    {
        let mut next = self;
        let missing = status == 404 || status == 405 || status == 501;
        let rejected = status == 400 || status == 422;
        match logical_endpoint {
            LogicalEndpoint::ResponsesCreate => {
                if missing {
                    next.responses = CapabilitySupport::Unsupported;
                } else if rejected {
                    next.responses = CapabilitySupport::Supported;
                    next.responses_schema = CapabilitySupport::Unsupported;
                }
            },
            LogicalEndpoint::ResponsesCompact => {
                if missing {
                    next.responses_compact = CapabilitySupport::Unsupported;
                } else if rejected {
                    next.responses_compact = CapabilitySupport::Supported;
                }
            },
            LogicalEndpoint::ChatCompletions | LogicalEndpoint::ClaudeMessages => {},
        }
        next.last_checked_at = Some(checked_at);
        next.source = Some(source.to_owned());
        next.note = note;
        next
    }

    /// What is known after a request to `logical_endpoint` failed now with
    /// HTTP `status`; the observation carries no time when the system clock
    /// cannot be read as a Unix time.
    pub fn with_http_failure(
        self,
        logical_endpoint: LogicalEndpoint,
        status: u16,
        source: &str,
        note: Option<String>,
    ) -> (r: Self)
        ensures
            r@ == after_http_failure(
                self@,
                logical_endpoint,
                status,
                source@,
                text_of(note),
                r.last_checked_at,
            ),
            r.last_checked_at matches Some(t) ==> t >= 0,
    {
        let now = current_unix_time();
        let mut next = self.with_http_failure_at(logical_endpoint, status, source, note, 0);
        next.last_checked_at = now;
        next
    }

    /// A one-line description: each capability and the compaction mode by
    /// name.
    pub fn summary(&self) -> (r: String)
        ensures
            r@ == summary_text(self@),
    {
        let mut s = "responses=".to_owned();
        s.append(self.responses.as_str());
        s.append(", compact=");
        s.append(self.responses_compact.as_str());
        s.append(", sse=");
        s.append(self.streaming_sse.as_str());
        s.append(", schema=");
        s.append(self.responses_schema.as_str());
        s.append(", compact_mode=");
        s.append(self.compact_mode.as_str());
        s
    }
}


/// Setting a compaction mode by its name selects that mode.
pub proof fn lemma_compact_mode_named_by_label(mode: ResponsesCompactMode)
    ensures
        compact_mode_named(Some(mode.label())) == mode,
{
    reveal_strlit("native");
    reveal_strlit("synthetic");
    reveal_strlit("disabled");
    assert("synthetic"@[0] != "native"@[0]);
    assert("synthetic"@[0] != "disabled"@[0]);
    assert("native"@[0] != "disabled"@[0]);
}

/// Different compaction modes have different names.
pub proof fn lemma_compact_mode_labels_distinct(a: ResponsesCompactMode, b: ResponsesCompactMode)
    ensures
        a.label() == b.label() ==> a == b,
{
    lemma_compact_mode_named_by_label(a);
    lemma_compact_mode_named_by_label(b);
}

/// Different support values have different names.
pub proof fn lemma_capability_labels_distinct(a: CapabilitySupport, b: CapabilitySupport)
    ensures
        a.label() == b.label() ==> a == b,
{
    reveal_strlit("supported");
    reveal_strlit("unsupported");
    reveal_strlit("unknown");
    assert("supported"@.len() != "unsupported"@.len());
    assert("supported"@.len() != "unknown"@.len());
    assert("unsupported"@.len() != "unknown"@.len());
}

/// Only a provider for the Anthropic client speaking the native Anthropic format starts with
/// anything known; every other provider starts with nothing known.
pub proof fn lemma_initially_unknown_unless_native_claude(app_type: AppType, provider: ProviderView)
    requires
        app_type != AppType::Claude || api_format_of(provider) != "anthropic"@,
    ensures
        initial_compatibility(app_type, provider).responses == CapabilitySupport::Unknown,
        initial_compatibility(app_type, provider).responses_compact == CapabilitySupport::Unknown,
        initial_compatibility(app_type, provider).streaming_sse == CapabilitySupport::Unknown,
        initial_compatibility(app_type, provider).responses_schema == CapabilitySupport::Unknown,
        initial_compatibility(app_type, provider).note is None,
{
}

/// No observation changes the compaction mode.
pub proof fn lemma_observations_keep_compact_mode(
    known: CompatibilityView,
    endpoint: LogicalEndpoint,
    streaming_sse: Option<bool>,
    status: u16,
    source: Seq<char>,
    note: Option<Seq<char>>,
    checked_at: Option<i64>,
)
    ensures
        after_success(known, endpoint, streaming_sse, source, checked_at).compact_mode
            == known.compact_mode,
        after_http_failure(known, endpoint, status, source, note, checked_at).compact_mode
            == known.compact_mode,
{
}

/// Observations of chat completions and Anthropic messages say nothing about
/// the responses API.
pub proof fn lemma_other_endpoints_keep_responses_support(
    known: CompatibilityView,
    endpoint: LogicalEndpoint,
    streaming_sse: Option<bool>,
    status: u16,
    source: Seq<char>,
    note: Option<Seq<char>>,
    checked_at: Option<i64>,
)
    requires
        endpoint == LogicalEndpoint::ChatCompletions || endpoint == LogicalEndpoint::ClaudeMessages,
    ensures
        ({
            let s = after_success(known, endpoint, streaming_sse, source, checked_at);
            s.responses == known.responses && s.responses_compact == known.responses_compact
                && s.responses_schema == known.responses_schema
        }),
        ({
            let f = after_http_failure(known, endpoint, status, source, note, checked_at);
            f.responses == known.responses && f.responses_compact == known.responses_compact
                && f.responses_schema == known.responses_schema
                && f.streaming_sse == known.streaming_sse
        }),
{
}

/// A failure whose status neither says the endpoint is missing nor that it
/// refused the request changes no capability.
pub proof fn lemma_unrelated_failure_keeps_capabilities(
    known: CompatibilityView,
    endpoint: LogicalEndpoint,
    status: u16,
    source: Seq<char>,
    note: Option<Seq<char>>,
    checked_at: Option<i64>,
)
    requires
        !is_missing_endpoint_status(status),
        !is_rejected_request_status(status),
    ensures
        ({
            let f = after_http_failure(known, endpoint, status, source, note, checked_at);
            &&& f.responses == known.responses
            &&& f.responses_compact == known.responses_compact
            &&& f.streaming_sse == known.streaming_sse
            &&& f.responses_schema == known.responses_schema
        }),
{
}

/// A success on a responses endpoint marks it supported; a failure saying
/// it is missing marks it unsupported; one saying it refused the request
/// marks it supported.
pub proof fn lemma_observation_decides_endpoint_support(
    known: CompatibilityView,
    streaming_sse: Option<bool>,
    status: u16,
    source: Seq<char>,
    note: Option<Seq<char>>,
    checked_at: Option<i64>,
)
    ensures
        after_success(
            known,
            LogicalEndpoint::ResponsesCreate,
            streaming_sse,
            source,
            checked_at,
        ).responses == CapabilitySupport::Supported,
        after_success(
            known,
            LogicalEndpoint::ResponsesCompact,
            streaming_sse,
            source,
            checked_at,
        ).responses_compact == CapabilitySupport::Supported,
        is_missing_endpoint_status(status) ==> after_http_failure(
            known,
            LogicalEndpoint::ResponsesCreate,
            status,
            source,
            note,
            checked_at,
        ).responses == CapabilitySupport::Unsupported,
        is_missing_endpoint_status(status) ==> after_http_failure(
            known,
            LogicalEndpoint::ResponsesCompact,
            status,
            source,
            note,
            checked_at,
        ).responses_compact == CapabilitySupport::Unsupported,
        is_rejected_request_status(status) ==> after_http_failure(
            known,
            LogicalEndpoint::ResponsesCreate,
            status,
            source,
            note,
            checked_at,
        ).responses == CapabilitySupport::Supported,
        is_rejected_request_status(status) ==> after_http_failure(
            known,
            LogicalEndpoint::ResponsesCompact,
            status,
            source,
            note,
            checked_at,
        ).responses_compact == CapabilitySupport::Supported,
{
}

/// Recording the same success twice is recording it once.
pub proof fn lemma_success_idempotent(
    known: CompatibilityView,
    endpoint: LogicalEndpoint,
    streaming_sse: Option<bool>,
    source: Seq<char>,
    checked_at: Option<i64>,
)
    ensures
        after_success(
            after_success(known, endpoint, streaming_sse, source, checked_at),
            endpoint,
            streaming_sse,
            source,
            checked_at,
        ) == after_success(known, endpoint, streaming_sse, source, checked_at),
{
}

/// Recording the same failure twice is recording it once.
pub proof fn lemma_failure_idempotent(
    known: CompatibilityView,
    endpoint: LogicalEndpoint,
    status: u16,
    source: Seq<char>,
    note: Option<Seq<char>>,
    checked_at: Option<i64>,
)
    ensures
        after_http_failure(
            after_http_failure(known, endpoint, status, source, note, checked_at),
            endpoint,
            status,
            source,
            note,
            checked_at,
        ) == after_http_failure(known, endpoint, status, source, note, checked_at),
{
}

/// For a provider of the Anthropic client, the wire format that decides
/// whether it speaks native Anthropic messages is its own `api_format`
/// setting when that is set, otherwise the `api_format` of its settings
/// document when that is set (whether or not it has settings), otherwise
/// `anthropic`; it speaks native messages exactly when that format is
/// `anthropic`, and then starts with the responses API unsupported and a
/// note saying so.
pub proof fn lemma_api_format_precedence(provider: ProviderView)
    ensures
        ({
            let c = initial_compatibility(AppType::Claude, provider);
            let own = match provider.meta {
                Some(m) => m.api_format,
                None => None,
            };
            let native = match own {
                Some(f) => f == "anthropic"@,
                None => match provider.settings_api_format {
                    Some(f) => f == "anthropic"@,
                    None => true,
                },
            };
            &&& (own matches Some(f) ==> (native <==> f == "anthropic"@))
            &&& (own is None ==> (provider.settings_api_format matches Some(f) ==> (native
                <==> f == "anthropic"@)))
            &&& (own is None && provider.settings_api_format is None ==> native)
            &&& (native ==> c.responses == CapabilitySupport::Unsupported
                && c.responses_compact == CapabilitySupport::Unsupported
                && c.responses_schema == CapabilitySupport::Unsupported
                && c.note == Some("anthropic_native_messages"@))
            &&& (!native ==> c.responses == CapabilitySupport::Unknown
                && c.responses_compact == CapabilitySupport::Unknown
                && c.responses_schema == CapabilitySupport::Unknown && c.note is None)
            &&& c.streaming_sse == CapabilitySupport::Unknown
            &&& c.last_checked_at is None
            &&& c.source is None
        }),
{
}

/// A failed request changes only the capabilities of the endpoint it went
/// to: the responses API's support and schema only for the create
/// endpoint, compaction support only for the compaction endpoint, and
/// never streaming support or the compaction mode; it records its source,
/// note and time.
pub proof fn lemma_failure_touches_only_its_endpoint(
    known: CompatibilityView,
    endpoint: LogicalEndpoint,
    status: u16,
    source: Seq<char>,
    note: Option<Seq<char>>,
    checked_at: Option<i64>,
)
    ensures
        ({
            let f = after_http_failure(known, endpoint, status, source, note, checked_at);
            &&& (endpoint != LogicalEndpoint::ResponsesCreate ==> f.responses == known.responses
                && f.responses_schema == known.responses_schema)
            &&& (endpoint != LogicalEndpoint::ResponsesCompact ==> f.responses_compact
                == known.responses_compact)
            &&& f.streaming_sse == known.streaming_sse
            &&& f.compact_mode == known.compact_mode
            &&& f.source == Some(source)
            &&& f.note == note
            &&& f.last_checked_at == checked_at
        }),
{
}

/// A successful request changes only the capabilities of the endpoint it
/// went to, and streaming support only when streaming was observed (to
/// what was observed); it records its source and time and clears the note.
pub proof fn lemma_success_touches_only_its_endpoint(
    known: CompatibilityView,
    endpoint: LogicalEndpoint,
    streaming_sse: Option<bool>,
    source: Seq<char>,
    checked_at: Option<i64>,
)
    ensures
        ({
            let s = after_success(known, endpoint, streaming_sse, source, checked_at);
            &&& (endpoint != LogicalEndpoint::ResponsesCreate ==> s.responses == known.responses
                && s.responses_schema == known.responses_schema)
            &&& (endpoint != LogicalEndpoint::ResponsesCompact ==> s.responses_compact
                == known.responses_compact)
            &&& (streaming_sse is None ==> s.streaming_sse == known.streaming_sse)
            &&& (streaming_sse == Some(true) ==> s.streaming_sse == CapabilitySupport::Supported)
            &&& (streaming_sse == Some(false) ==> s.streaming_sse
                == CapabilitySupport::Unsupported)
            &&& s.compact_mode == known.compact_mode
            &&& s.source == Some(source)
            &&& s.note is None
            &&& s.last_checked_at == checked_at
        }),
{
}

/// The summary names each capability after its own key, in this order:
/// it starts with `responses=` and the responses API's support, has
/// `, compact=` with compaction support, then `, sse=` with streaming
/// support, then `, schema=` with schema support, and ends with
/// `, compact_mode=` and the compaction mode.
pub proof fn lemma_summary_names_each_field(known: CompatibilityView)
    ensures
        ("responses="@ + known.responses.label() + ", compact="@).is_prefix_of(
            summary_text(known),
        ),
        (", schema="@ + known.responses_schema.label() + ", compact_mode="@
            + known.compact_mode.label()).is_suffix_of(summary_text(known)),
        summary_text(known) =~= ("responses="@ + known.responses.label()) + (", compact="@
            + known.responses_compact.label()) + (", sse="@ + known.streaming_sse.label()) + (
        ", schema="@ + known.responses_schema.label()) + (", compact_mode="@
            + known.compact_mode.label()),
{
    let a = "responses="@ + known.responses.label();
    let b = ", compact="@ + known.responses_compact.label();
    let c = ", sse="@ + known.streaming_sse.label();
    let d = ", schema="@ + known.responses_schema.label();
    let e = ", compact_mode="@ + known.compact_mode.label();
    let t = summary_text(known);
    assert(t =~= a + b + c + d + e);
    let p = "responses="@ + known.responses.label() + ", compact="@;
    assert(t.subrange(0, p.len() as int) =~= p);
    let q = d + e;
    assert(", schema="@ + known.responses_schema.label() + ", compact_mode="@
        + known.compact_mode.label() =~= q);
    assert(t.subrange(t.len() - q.len(), t.len() as int) =~= q);
}

/// Any setting of `responses_compact_mode` other than `native` and
/// `disabled`, and no setting at all, selects synthetic compaction.
pub proof fn lemma_unknown_compact_mode_is_synthetic(setting: Option<Seq<char>>)
    requires
        setting != Some("native"@),
        setting != Some("disabled"@),
    ensures
        compact_mode_named(setting) == ResponsesCompactMode::Synthetic,
{
}

/// A fresh snapshot, for any client, takes its compaction mode from the
/// provider's own `responses_compact_mode` setting: native or disabled when
/// it says so, synthetic otherwise (and when the provider has no settings).
pub proof fn lemma_initial_compact_mode_follows_setting(app_type: AppType, provider: ProviderView)
    ensures
        ({
            let mode = initial_compatibility(app_type, provider).compact_mode;
            let own = match provider.meta {
                Some(m) => m.responses_compact_mode,
                None => None,
            };
            &&& (own == Some("native"@) ==> mode == ResponsesCompactMode::Native)
            &&& (own == Some("disabled"@) ==> mode == ResponsesCompactMode::Disabled)
            &&& (own != Some("native"@) && own != Some("disabled"@) ==> mode
                == ResponsesCompactMode::Synthetic)
        }),
{
    reveal_strlit("native");
    reveal_strlit("disabled");
    assert("native"@[0] != "disabled"@[0]);
}

} // verus!
