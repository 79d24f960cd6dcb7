//! Configurations and the allowlists in them.

use hyperbox::config::{
    normalize_allowlist_domains, Allowlist, AllowlistEntry, NetworkMode, SandboxConfig,
};

#[test]
fn config_wildcard_requires_subdomain() {
    let entry = AllowlistEntry::parse("*.github.com").expect("parse wildcard");
    assert!(entry.matches("api.github.com"));
    assert!(!entry.matches("github.com"));
}

#[test]
fn allowlist_allows_exact_and_wildcard_patterns() {
    let allowlist = Allowlist::parse(&["api.openai.com".to_string(), "*.github.com".to_string()])
        .expect("allowlist should parse");
    assert!(allowlist.allows("api.openai.com"));
    assert!(allowlist.allows("gist.github.com"));
    assert!(!allowlist.allows("github.com"));
}

#[test]
fn normalize_allowlist_accepts_wildcard_subdomains() {
    let domains = normalize_allowlist_domains(&["*.Example.com".to_string()])
        .expect("wildcard subdomains should normalize");
    assert_eq!(domains, vec!["*.example.com"]);
}

#[test]
fn normalize_allowlist_rejects_invalid_wildcards() {
    let err = normalize_allowlist_domains(&["*example.com".to_string()])
        .expect_err("invalid wildcards must be rejected");
    assert!(err.contains("wildcard"));
}

#[test]
fn normalize_allowlist_rejects_scheme_and_port() {
    let err = normalize_allowlist_domains(&["https://example.com:443".to_string()])
        .expect_err("scheme/port must be rejected");
    assert!(err.contains("bare domain"));
}

#[test]
fn normalize_allowlist_normalizes_case_and_dedupes() {
    let domains = normalize_allowlist_domains(&[
        "Example.com".to_string(),
        "example.com".to_string(),
        "pypi.org".to_string(),
    ])
    .expect("domains should normalize");
    assert_eq!(domains, vec!["example.com", "pypi.org"]);
}

#[test]
fn default_config_is_safe() {
    let cfg = SandboxConfig::default();
    assert!(matches!(cfg.network, NetworkMode::NoNetwork));
    assert_eq!(cfg.template, "python:3.12");
}
