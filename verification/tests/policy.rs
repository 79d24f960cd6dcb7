//! What the flags of a command mean for the network and for what may be written.

use hyperbox::cli::policy::{
    extract_container_bin_from_helper_argv, helper_argv_is_builtin_apple_helper,
    network_enforcement_status, resolve_network_policy, writable_scope_from_workspace_and_writes,
    NetworkArg, ServerInfo,
};
use hyperbox::config::{Allowlist, NetworkMode};

fn server(backend: &str, reason: &str, runtime: Option<&str>, helper: &[&str]) -> ServerInfo {
    ServerInfo {
        server_version: "x".to_string(),
        process_id: "1".to_string(),
        executable_path: "/tmp/hyperbox".to_string(),
        started_at: "2026-01-01T00:00:00Z".to_string(),
        backend_requested: "auto".to_string(),
        backend_selected: backend.to_string(),
        backend_reason: reason.to_string(),
        apple_runtime: runtime.map(|r| r.to_string()),
        apple_helper_argv: helper.iter().map(|a| a.to_string()).collect(),
    }
}

fn example_allowlist() -> NetworkMode {
    NetworkMode::Allowlist(Allowlist::parse(&["example.com".to_string()]).expect("allowlist"))
}

#[test]
fn flags_name_a_network() {
    let list = Allowlist::parse(&["pypi.org".to_string()]).expect("allowlist");
    assert_eq!(NetworkArg::NoNetwork.to_mode(list.clone()), NetworkMode::NoNetwork);
    assert_eq!(NetworkArg::Full.to_mode(list.clone()), NetworkMode::Full);
    assert_eq!(
        NetworkArg::Allowlist.to_mode(list.clone()),
        NetworkMode::Allowlist(list)
    );
}

#[test]
fn parses_container_bin_from_helper_args() {
    let argv = vec![
        "hyperbox".to_string(),
        "apple-helper".to_string(),
        "--container-bin".to_string(),
        "/opt/bin/container".to_string(),
    ];
    assert_eq!(
        extract_container_bin_from_helper_argv(&argv),
        Some("/opt/bin/container".to_string())
    );
}

#[test]
fn detects_builtin_helper_argv_shape() {
    assert!(helper_argv_is_builtin_apple_helper(&[
        "hyperbox".to_string(),
        "apple-helper".to_string()
    ]));
    assert!(!helper_argv_is_builtin_apple_helper(&[
        "custom-helper".to_string(),
        "--foo".to_string()
    ]));
}

#[test]
fn network_enforcement_marks_local_as_not_enforced() {
    let server_info = server("local", "selected via local", None, &[]);

    let (status, reason) =
        network_enforcement_status(Some(&server_info), Some(&NetworkMode::NoNetwork));
    assert_eq!(status, "not_enforced");
    assert!(reason.is_some());
}

#[test]
fn network_enforcement_accepts_builtin_apple_allowlist() {
    let server_info = server(
        "apple",
        "selected via auto",
        Some("containerization"),
        &["hyperbox", "apple-helper"],
    );

    let (status, reason) =
        network_enforcement_status(Some(&server_info), Some(&example_allowlist()));
    assert_eq!(status, "enforced");
    assert!(reason.is_some());
}

#[test]
fn network_enforcement_accepts_external_virtualization_allowlist() {
    let server_info = server(
        "apple",
        "selected via auto",
        Some("virtualization"),
        &["external-helper"],
    );

    let (status, reason) =
        network_enforcement_status(Some(&server_info), Some(&example_allowlist()));
    assert_eq!(status, "enforced");
    assert!(reason.is_some());
}

#[test]
fn writable_scope_includes_workspace_and_write_paths_without_duplicates() {
    let writable = writable_scope_from_workspace_and_writes(
        Some("/tmp/workspace"),
        &[
            "output.txt=1".to_string(),
            "output.txt=2".to_string(),
            "state/cache.txt=3".to_string(),
        ],
    );
    assert!(writable.contains(&"/tmp/workspace".to_string()));
    assert!(writable.contains(&"output.txt".to_string()));
    assert!(writable.contains(&"state/cache.txt".to_string()));
    assert_eq!(
        writable
            .iter()
            .filter(|p| p.as_str() == "output.txt")
            .count(),
        1
    );
}

#[test]
fn resolve_network_policy_defaults_to_none() {
    let resolved = resolve_network_policy(None, None, vec![], None).expect("default policy");
    assert!(matches!(resolved.network_mode, NetworkMode::NoNetwork));
    assert!(resolved.profile_label.is_none());
}

#[test]
fn resolve_network_policy_rejects_empty_allowlist() {
    let err = resolve_network_policy(None, Some(NetworkArg::Allowlist), vec![], None)
        .expect_err("empty allowlist should fail");
    assert!(err.to_string().contains("at least one domain"));
}

#[test]
fn resolve_network_policy_accepts_wildcard_allowlist_entries() {
    let resolved = resolve_network_policy(
        None,
        Some(NetworkArg::Allowlist),
        vec!["*.example.com".to_string()],
        None,
    )
    .expect("wildcards should be accepted");
    match resolved.network_mode {
        NetworkMode::Allowlist(domains) => {
            assert_eq!(domains.to_strings(), vec!["*.example.com"]);
        }
        other => panic!("expected allowlist mode, got {other:?}"),
    }
}

#[test]
fn resolve_network_policy_normalizes_allowlist_entries() {
    let resolved = resolve_network_policy(
        None,
        Some(NetworkArg::Allowlist),
        vec!["Example.com".to_string(), "example.com".to_string()],
        None,
    )
    .expect("allowlist should normalize");
    let domains = match resolved.network_mode {
        NetworkMode::Allowlist(domains) => domains,
        other => panic!("expected allowlist mode, got {other:?}"),
    };
    assert_eq!(domains.to_strings(), vec!["example.com".to_string()]);
}

#[test]
fn resolve_network_policy_web_profile_requires_allow_entries() {
    let err = resolve_network_policy(Some("web"), None, vec![], None)
        .expect_err("web profile without allowlist should fail");
    assert!(err.to_string().contains("at least one domain"));
}

#[test]
fn resolve_network_policy_full_profile_rejects_allow_entries() {
    let err = resolve_network_policy(
        Some("full"),
        Some(NetworkArg::Full),
        vec!["example.com".to_string()],
        None,
    )
    .expect_err("full profile should reject allowlist entries");
    assert!(err.to_string().contains("--allow requires allowlist"));
}

#[test]
fn resolve_network_policy_profile_web_maps_to_allowlist() {
    let resolved = resolve_network_policy(
        Some("web"),
        Some(NetworkArg::Allowlist),
        vec!["example.com".to_string()],
        None,
    )
    .expect("web profile");
    assert!(matches!(resolved.network_mode, NetworkMode::Allowlist(_)));
    assert_eq!(resolved.profile_label.as_deref(), Some("web"));
}

#[test]
fn resolve_network_policy_allows_profile_plus_override_mix_and_match() {
    let resolved = resolve_network_policy(
        Some("locked"),
        Some(NetworkArg::Allowlist),
        vec!["example.com".to_string()],
        None,
    )
    .expect("mixed profile + override");
    assert!(matches!(resolved.network_mode, NetworkMode::Allowlist(_)));
    assert_eq!(resolved.profile_label.as_deref(), Some("locked"));
}
