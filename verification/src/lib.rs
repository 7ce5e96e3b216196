//! Upstream routing for an OpenAI/Anthropic compatible proxy: how a logical
//! endpoint is turned into a concrete upstream URL, and how the capabilities
//! observed on an upstream are recorded.

pub mod capabilities;
pub mod provider;
pub mod text;
pub mod upstream;


pub use capabilities::{CapabilitySupport, ResponsesCompactMode, UpstreamCompatibility};
pub use provider::{AppType, Provider, ProviderMeta};
pub use upstream::{
    build_url, collapse_duplicate_versions, join_paths, normalize_path_segment,
    resolve_upstream_url, LogicalEndpoint, UpstreamApiStyle, UpstreamResolution,
};
