# upstream_proxy

Routing rules of an OpenAI/Anthropic compatible proxy, verified with Verus.

- `src/text.rs`: trimming, substring search and replacement on characters,
  specified over `Seq<char>`.
- `src/upstream.rs`: normalizing path segments, joining paths, building URLs,
  collapsing duplicated `/v1` segments, and resolving a logical endpoint for a
  provider.
- `src/capabilities.rs`: what is known about an upstream's support for the
  responses API, and how successes and HTTP failures update it.
- `src/provider.rs`: the provider settings these rules read.
- `app/`: serde forms of the capability records.
