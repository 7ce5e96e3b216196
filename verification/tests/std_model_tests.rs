//! The path rules checked against the same rules written with std's own
//! string methods, over many inputs.

use upstream_proxy::{build_url, collapse_duplicate_versions, join_paths, normalize_path_segment};

fn std_normalize(value: &str) -> String {
    let trimmed = value.trim();
    if trimmed.is_empty() || trimmed == "/" {
        return String::new();
    }
    let mut normalized = if trimmed.starts_with('/') {
        trimmed.to_string()
    } else {
        format!("/{trimmed}")
    };
    while normalized.ends_with('/') {
        normalized.pop();
    }
    normalized
}

fn std_collapse(value: &str) -> String {
    let mut normalized = value.to_string();
    while normalized.contains("/v1/v1") {
        normalized = normalized.replace("/v1/v1", "/v1");
    }
    normalized
}

fn std_join(prefix: &str, path: &str) -> String {
    let prefix = std_normalize(prefix);
    let path = std_normalize(path);
    let joined = if prefix.is_empty() {
        if path.is_empty() {
            "/".to_string()
        } else {
            path
        }
    } else if path.is_empty() {
        prefix
    } else {
        format!("{prefix}{path}")
    };
    std_collapse(&joined)
}

fn std_build_url(base_url: &str, path: &str) -> String {
    let base = base_url.trim_end_matches('/');
    let path = path.trim_start_matches('/');
    std_collapse(&format!("{base}/{path}"))
}

fn samples() -> Vec<String> {
    let mut out: Vec<String> = [
        "", "/", "//", " ", "v1", "/v1", "/v1/", "v1/v1", "/v1/v1/v1", "/v1/v1v1/v1", "a b",
        " /a/ ", "/openai/", "x//", "/v1/v1/", "https://h/v1", "https://h/v1/", "/v10/v1",
        "/v1/v1/v1/v1/v1/v1/v1", "/ v1 /", "é/ü/", "\u{200b}", "\u{feff}a",
    ]
    .iter()
    .map(|s| s.to_string())
    .collect();
    for code in (0u32..0x3100).chain([0xfeff, 0x1680, 0x180e, 0x2028, 0x2029, 0x205f]) {
        if let Some(c) = char::from_u32(code) {
            if code % 97 == 0 || c.is_whitespace() || code < 0x80 {
                out.push(format!("{c}seg{c}"));
                out.push(format!("{c}/{c}"));
            }
        }
    }
    out
}

#[test]
fn normalize_agrees_with_std_rules() {
    for s in samples() {
        assert_eq!(normalize_path_segment(&s), std_normalize(&s), "input {:?}", s);
    }
}

#[test]
fn collapse_agrees_with_std_rules() {
    for s in samples() {
        assert_eq!(collapse_duplicate_versions(&s), std_collapse(&s), "input {:?}", s);
    }
}

#[test]
fn join_and_url_agree_with_std_rules() {
    let samples = samples();
    let few: Vec<&String> = samples.iter().step_by(7).collect();
    for a in &few {
        for b in &few {
            assert_eq!(join_paths(a, b), std_join(a, b), "inputs {:?} {:?}", a, b);
            assert_eq!(build_url(a, b), std_build_url(a, b), "inputs {:?} {:?}", a, b);
        }
    }
}
