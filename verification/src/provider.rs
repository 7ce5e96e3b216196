//! The parts of a provider's configuration that routing and capability
//! tracking read.

use vstd::prelude::*;
use crate::text::{chars_of, same_chars};

verus! {

/// The client application a provider is configured for.
#[derive(Debug, Clone, Copy, PartialEq, Eq, Structural)]
pub enum AppType {
    Claude,
    Codex,
    Gemini,
}

/// Optional routing and protocol settings of a provider.
#[derive(Debug, Clone, PartialEq, Eq)]
pub struct ProviderMeta {
    /// `standard_openai`, `prefixed_openai` or `custom`.
    pub upstream_api_style: Option<String>,
    /// Path prefix for the OpenAI style endpoints.
    pub openai_base_path: Option<String>,
    /// Path prefix used by the `prefixed_openai` style.
    pub upstream_prefix: Option<String>,
    /// Path of the responses endpoint.
    pub responses_path: Option<String>,
    /// Path of the responses compaction endpoint.
    pub responses_compact_path: Option<String>,
    /// Path of the chat completions endpoint.
    pub chat_completions_path: Option<String>,
    /// `native`, `synthetic` or `disabled`.
    pub responses_compact_mode: Option<String>,
    /// Wire format of the provider, such as `anthropic`.
    pub api_format: Option<String>,
}

/// A provider, as far as routing and capability tracking read it.
#[derive(Debug, Clone, PartialEq, Eq)]
pub struct Provider {
    /// The provider's settings, when it has any.
    pub meta: Option<ProviderMeta>,
    /// The string under the key `api_format` in the provider's settings
    /// document, when there is one.
    pub settings_api_format: Option<String>,
}

/// The text of an optional string.
pub open spec fn text_of(s: Option<String>) -> Option<Seq<char>> {
    match s {
        Some(t) => Some(t@),
        None => None,
    }
}

/// What `ProviderMeta` holds, as text.
pub ghost struct ProviderMetaView {
    pub upstream_api_style: Option<Seq<char>>,
    pub openai_base_path: Option<Seq<char>>,
    pub upstream_prefix: Option<Seq<char>>,
    pub responses_path: Option<Seq<char>>,
    pub responses_compact_path: Option<Seq<char>>,
    pub chat_completions_path: Option<Seq<char>>,
    pub responses_compact_mode: Option<Seq<char>>,
    pub api_format: Option<Seq<char>>,
}

impl ProviderMetaView {
    /// Settings where nothing is set.
    pub open spec fn unset() -> Self {
        ProviderMetaView {
            upstream_api_style: None,
            openai_base_path: None,
            upstream_prefix: None,
            responses_path: None,
            responses_compact_path: None,
            chat_completions_path: None,
            responses_compact_mode: None,
            api_format: None,
        }
    }
}

impl View for ProviderMeta {
    type V = ProviderMetaView;

    open spec fn view(&self) -> ProviderMetaView {
        ProviderMetaView {
            upstream_api_style: text_of(self.upstream_api_style),
            openai_base_path: text_of(self.openai_base_path),
            upstream_prefix: text_of(self.upstream_prefix),
            responses_path: text_of(self.responses_path),
            responses_compact_path: text_of(self.responses_compact_path),
            chat_completions_path: text_of(self.chat_completions_path),
            responses_compact_mode: text_of(self.responses_compact_mode),
            api_format: text_of(self.api_format),
        }
    }
}

impl Default for ProviderMeta {
    fn default() -> (r: Self)
        ensures
            r@ == ProviderMetaView::unset(),
    {
        ProviderMeta {
            upstream_api_style: None,
            openai_base_path: None,
            upstream_prefix: None,
            responses_path: None,
            responses_compact_path: None,
            chat_completions_path: None,
            responses_compact_mode: None,
            api_format: None,
        }
    }
}

/// What `Provider` holds, as text.
pub ghost struct ProviderView {
    pub meta: Option<ProviderMetaView>,
    pub settings_api_format: Option<Seq<char>>,
}

impl ProviderView {
    /// The provider's settings; a provider without any reads as one where
    /// nothing is set.
    pub open spec fn settings(self) -> ProviderMetaView {
        match self.meta {
            Some(m) => m,
            None => ProviderMetaView::unset(),
        }
    }
}

impl View for Provider {
    type V = ProviderView;

    open spec fn view(&self) -> ProviderView {
        ProviderView {
            meta: match self.meta {
                Some(m) => Some(m@),
                None => None,
            },
            settings_api_format: text_of(self.settings_api_format),
        }
    }
}

/// The characters of an optional setting.
pub fn setting_chars(s: &Option<String>) -> (r: Option<Vec<char>>)
    ensures
        setting_view(r) == text_of(*s),
{
    match s {
        Some(t) => Some(chars_of(t.as_str())),
        None => None,
    }
}

/// The text of optional characters.
pub open spec fn setting_view(s: Option<Vec<char>>) -> Option<Seq<char>> {
    match s {
        Some(t) => Some(t@),
        None => None,
    }
}

/// Whether the optional setting `s` is set to exactly `expected`.
pub fn setting_is(s: &Option<Vec<char>>, expected: &str) -> (r: bool)
    ensures
        r == (setting_view(*s) == Some(expected@)),
{
    match s {
        Some(t) => {
            let e = chars_of(expected);
            same_chars(t, &e)
        },
        None => false,
    }
}

} // verus!
