//! Templates, and how one is chosen.

use hyperbox::cli::template_auto::resolve_template;
use hyperbox::template::{sort_manifests, TemplateManifest, TemplateRegistry};

#[test]
fn has_expected_default_template() {
    let templates = TemplateRegistry::with_defaults();
    assert!(templates.get("python:3.12").is_some());
}

#[test]
fn unknown_template_returns_error() {
    let templates = TemplateRegistry::with_defaults();
    let err = templates.ensure_exists("missing:1").unwrap_err();
    assert_eq!(err.message(), "template not found: missing:1");
}

#[test]
fn resolves_explicit_template_without_detection() {
    let resolved = resolve_template("python:3.11", &[], "cargo test");
    assert_eq!(resolved.template, "python:3.11");
    assert_eq!(resolved.reason, "explicit");
}

#[test]
fn resolves_auto_template_from_command_hint() {
    let resolved = resolve_template("auto", &[], "cargo test --workspace");
    assert_eq!(resolved.template, "rust:1.75");
    assert_eq!(resolved.reason, "command_hint_rust");
}

fn manifest(name: &str, description: &str) -> TemplateManifest {
    TemplateManifest {
        name: name.to_string(),
        description: description.to_string(),
        rootfs: "rootfs.ext4".to_string(),
        kernel: None,
        tags: vec![],
    }
}

#[test]
fn manifests_stand_in_the_order_of_their_names() {
    let sorted = sort_manifests(vec![
        manifest("python:3.12", "first"),
        manifest("go:1.22", ""),
        manifest("python:3.12", "second"),
        manifest("node:20", ""),
    ]);
    let names: Vec<&str> = sorted.iter().map(|m| m.name.as_str()).collect();
    assert_eq!(names, ["go:1.22", "node:20", "python:3.12", "python:3.12"]);
    assert_eq!(sorted[2].description, "first");
    assert_eq!(sorted[3].description, "second");
}
