//! The helper that runs sandboxes in containers.

use hyperbox::cli::dns_script::ALLOWLIST_DNS_SCRIPT;
use hyperbox::apple::backend::HelperResponse;
use hyperbox::apple::container::CommandResult;
use hyperbox::cli::apple_helper::{
    read_address, read_gateway, sanitize_sandbox_id, AllowlistRuntimeSetup, HelperNetworkMode,
    RuntimeKind,
};
use hyperbox::cli::helper_work::{AppleHelper, HelperEffect, HelperReply, HelperRequest, HelperStep};
use hyperbox::paths::{path_of, relative_names};

#[test]
fn runtime_parser_accepts_supported_values() {
    assert_eq!(
        RuntimeKind::parse("containerization").expect("parse runtime"),
        RuntimeKind::Containerization
    );
    assert_eq!(
        RuntimeKind::parse("virtualization").expect("parse runtime"),
        RuntimeKind::Virtualization
    );
}

#[test]
fn runtime_parser_rejects_unknown_values() {
    assert!(RuntimeKind::parse("unknown").is_err());
}

#[test]
fn relative_path_normalization_blocks_unsafe_paths() {
    assert!(relative_names("/etc/passwd").is_err());
    assert!(relative_names("../secret.txt").is_err());
    assert!(relative_names("a/../../secret.txt").is_err());
}

#[test]
fn relative_path_normalization_accepts_normal_paths() {
    let normalized = relative_names("src/main.rs").expect("normalize path");
    assert_eq!(path_of(&normalized), "src/main.rs");
}

#[test]
fn sandbox_id_validation_rejects_invalid_values() {
    assert!(sanitize_sandbox_id("").is_err());
    assert!(sanitize_sandbox_id("../../bad").is_err());
    assert!(sanitize_sandbox_id("bad name").is_err());
}

#[test]
fn sandbox_id_validation_accepts_safe_values() {
    let value = sanitize_sandbox_id("abc-123_DEF").expect("sanitize sandbox id");
    assert_eq!(value, "abc-123_DEF");
}

#[test]
fn helper_network_parser_accepts_none_and_full() {
    assert_eq!(
        HelperNetworkMode::parse("none", vec![]).expect("none mode"),
        HelperNetworkMode::NoNetwork
    );
    assert_eq!(
        HelperNetworkMode::parse("full", vec![]).expect("full mode"),
        HelperNetworkMode::Full
    );
}

#[test]
fn helper_network_parser_preserves_allowlist_mode() {
    let mode = HelperNetworkMode::parse("allowlist", vec!["pypi.org".to_string()])
        .expect("allowlist mode");
    assert!(matches!(mode, HelperNetworkMode::Allowlist(_)));
    assert!(mode.container_args(None).is_err());
}

#[test]
fn helper_network_allowlist_uses_runtime_dns_and_network() {
    let mode = HelperNetworkMode::parse("allowlist", vec!["pypi.org".to_string()])
        .expect("allowlist mode");
    let setup = AllowlistRuntimeSetup {
        network_name: "hyperbox-net-test".to_string(),
        dns_container_name: "hyperbox-dns-test".to_string(),
        dns_server_ip: "192.168.64.10".to_string(),
    };
    let args = mode
        .container_args(Some(&setup))
        .expect("allowlist args should resolve");
    assert_eq!(
        args,
        vec![
            "--network".to_string(),
            "hyperbox-net-test".to_string(),
            "--dns".to_string(),
            "192.168.64.10".to_string()
        ]
    );
}

#[test]
fn helper_network_parser_rejects_wildcard_allowlist_entries() {
    let err = HelperNetworkMode::parse("allowlist", vec!["*.example.com".to_string()])
        .expect_err("wildcards must be rejected");
    assert!(err.to_string().contains("wildcard"));
}

fn result(exit_code: i32, stdout: &str, stderr: &str) -> CommandResult {
    CommandResult {
        exit_code,
        stdout: stdout.as_bytes().to_vec(),
        stderr: stderr.as_bytes().to_vec(),
        duration_ms: 3,
    }
}

#[test]
fn inspections_are_read_as_json() {
    let gateway = r#"[{"status":{"ipv4Gateway":"192.168.64.1"}}]"#;
    assert_eq!(
        read_gateway("net", &result(0, gateway, "")),
        Ok("192.168.64.1".to_string())
    );
    assert_eq!(
        read_gateway("net", &result(0, "[]", "")).unwrap_err(),
        "network inspect output missing status.ipv4Gateway"
    );
    assert!(read_gateway("net", &result(0, "{", ""))
        .unwrap_err()
        .starts_with("parse network inspect output: "));
    assert!(read_gateway("net", &result(1, "", "gone"))
        .unwrap_err()
        .starts_with("inspect network `net` failed (exit=1)"));
    let address = r#"[{"networks":[{"ipv4Address":"192.168.64.7/24"}]}]"#;
    assert_eq!(
        read_address("dns", &result(0, address, "")),
        Ok("192.168.64.7".to_string())
    );
    assert_eq!(
        read_address("dns", &result(0, "[{}]", "")).unwrap_err(),
        "container inspect output missing networks[0].ipv4Address"
    );
}

fn perform(
    helper: &mut AppleHelper,
    request: HelperRequest,
    failing: Option<&str>,
) -> (Vec<String>, HelperResponse) {
    let (mut work, mut step) = helper.handle_request(request);
    let mut asked = vec![];
    loop {
        match step {
            HelperStep::Answer(answer) => return (asked, answer),
            HelperStep::Ask(effect) => {
                let reply = match effect {
                    HelperEffect::Canonicalize(p) => HelperReply::Canonical(p, true),
                    HelperEffect::Container(call) => {
                        let line = call.args.join(" ");
                        let fails = failing.is_some_and(|word| line.contains(word));
                        let stdout = if line.starts_with("network inspect") {
                            r#"[{"status":{"ipv4Gateway":"192.168.64.1"}}]"#
                        } else if line.starts_with("inspect") {
                            r#"[{"networks":[{"ipv4Address":"192.168.64.7/24"}]}]"#
                        } else {
                            "out"
                        };
                        asked.push(line);
                        HelperReply::Ran(result(if fails { 9 } else { 0 }, stdout, "err"))
                    }
                    _ => HelperReply::Unit,
                };
                (work, step) = work.resume(reply, helper);
            }
            HelperStep::Stray => panic!("the helper got the wrong reply"),
        }
    }
}

fn create(allow: Option<&[&str]>) -> HelperRequest {
    HelperRequest::Create {
        sandbox_id: "box".to_string(),
        template: "python:3.12".to_string(),
        workspace_dir: Some("/work".to_string()),
        runtime: "containerization".to_string(),
        network_mode: Some(if allow.is_some() { "allowlist" } else { "none" }.to_string()),
        network_allowlist: allow.map(|list| list.iter().map(|d| d.to_string()).collect()),
        memory_mb: Some(256),
        vcpu_count: Some(2),
    }
}

#[test]
fn a_sandbox_goes_through_its_requests() {
    let mut helper = AppleHelper::new("/state".to_string());
    let (asked, answer) = perform(&mut helper, create(None), None);
    assert!(matches!(answer, HelperResponse::Ack), "{}", answer.show());
    assert_eq!(asked.len(), 1);
    assert!(asked[0].starts_with("run "));
    assert!(asked[0].contains("--volume /work:/workspace"));
    assert!(asked[0].contains("--memory 256M"));
    assert!(asked[0].contains("--network none"));

    let (_, answer) = perform(&mut helper, create(None), None);
    match answer {
        HelperResponse::Error { message } => assert_eq!(message, "sandbox `box` already exists"),
        other => panic!("{other:?}"),
    }

    let exec = HelperRequest::Exec {
        sandbox_id: "box".to_string(),
        command: vec!["true".to_string()],
        timeout_secs: 1,
    };
    match perform(&mut helper, exec, None).1 {
        HelperResponse::Exec { exit_code, stdout, .. } => {
            assert_eq!((exit_code, stdout.as_str()), (0, "out"))
        }
        other => panic!("{other:?}"),
    }
    let write = HelperRequest::Write {
        sandbox_id: "box".to_string(),
        path: "a/b".to_string(),
        bytes_b64: "aGk=".to_string(),
    };
    let (asked, answer) = perform(&mut helper, write, None);
    assert!(matches!(answer, HelperResponse::Ack));
    assert_eq!(asked.len(), 2);
    let read = HelperRequest::Read {
        sandbox_id: "box".to_string(),
        path: "a/b".to_string(),
    };
    match perform(&mut helper, read, None).1 {
        HelperResponse::Read { bytes_b64 } => assert_eq!(bytes_b64, "b3V0"),
        other => panic!("{other:?}"),
    }
    let destroy = || HelperRequest::Destroy {
        sandbox_id: "box".to_string(),
    };
    assert!(matches!(perform(&mut helper, destroy(), None).1, HelperResponse::Ack));
    assert!(matches!(perform(&mut helper, destroy(), None).1, HelperResponse::Ack));
    let read = HelperRequest::Read {
        sandbox_id: "box".to_string(),
        path: "a".to_string(),
    };
    match perform(&mut helper, read, None).1 {
        HelperResponse::Error { message } => assert_eq!(message, "sandbox `box` not found"),
        other => panic!("{other:?}"),
    }
}

#[test]
fn allowlists_get_a_network_and_a_name_server() {
    let mut helper = AppleHelper::new("/state".to_string());
    let (asked, answer) = perform(&mut helper, create(Some(&["pypi.org"])), None);
    assert!(matches!(answer, HelperResponse::Ack), "{}", answer.show());
    assert!(asked[0].starts_with("network create"));
    let last = asked.last().expect("a container is run");
    assert!(last.contains("--network hyperbox-net-box"));
    assert!(last.contains("--dns 192.168.64.7"));
    let list = base64::Engine::encode(&base64::engine::general_purpose::STANDARD, r#"["pypi.org"]"#);
    assert!(asked.iter().any(|line| line.contains(&format!("HB_ALLOWLIST_B64={list}"))));
}

#[test]
fn preparations_that_fail_are_undone() {
    let mut helper = AppleHelper::new("/state".to_string());
    let (asked, answer) = perform(&mut helper, create(Some(&["pypi.org"])), Some("hyperbox-dns-box --"));
    match answer {
        HelperResponse::Error { message } => {
            assert!(message.contains("prepare allowlist networking for sandbox `box`"), "{message}")
        }
        other => panic!("{other:?}"),
    }
    assert!(asked.iter().any(|line| line.starts_with("network delete")));
    let (_, answer) = perform(&mut helper, create(None), None);
    assert!(matches!(answer, HelperResponse::Ack));
}

#[test]
fn requests_that_make_no_sense_are_refused() {
    let mut helper = AppleHelper::new("/state".to_string());
    let mut odd = create(None);
    if let HelperRequest::Create { runtime, .. } = &mut odd {
        *runtime = "virtualization".to_string();
    }
    match perform(&mut helper, odd, None).1 {
        HelperResponse::Error { message } => assert_eq!(
            message,
            "runtime `virtualization` is not implemented by this helper; use runtime=containerization"
        ),
        other => panic!("{other:?}"),
    }
}

/// What a container program reads that stops at the first flag it does not know.
fn read_name_and_volume(line: &str) -> (Option<String>, Option<String>) {
    let words: Vec<&str> = line.split(' ').skip(1).collect();
    let (mut name, mut volume) = (None, None);
    let mut i = 0;
    while i < words.len() {
        match words[i] {
            "--name" => name = Some(words[i + 1].to_string()),
            "--volume" => volume = Some(words[i + 1].to_string()),
            "--detach" => {
                i += 1;
                continue;
            }
            "--network" | "--workdir" | "--cpus" | "--memory" => {}
            _ => break,
        }
        i += 2;
    }
    (name, volume)
}

#[test]
fn names_and_mounts_come_before_other_flags() {
    let mut helper = AppleHelper::new("/state".to_string());
    let (asked, answer) = perform(&mut helper, create(None), None);
    assert!(matches!(answer, HelperResponse::Ack), "{}", answer.show());
    assert_eq!(
        read_name_and_volume(&asked[0]),
        (Some("hyperbox-box".to_string()), Some("/work:/workspace".to_string()))
    );
    assert!(asked[0].contains("--progress none"));
}

#[test]
fn the_dns_program_is_kept_as_it_is() {
    assert_eq!(ALLOWLIST_DNS_SCRIPT.lines().count(), 86);
    assert!(ALLOWLIST_DNS_SCRIPT.starts_with("import base64\nimport json\nimport os\nimport socket\n\n\ndef load"));
    assert!(ALLOWLIST_DNS_SCRIPT.ends_with("        except Exception:\n            pass\n"));
    assert_eq!(ALLOWLIST_DNS_SCRIPT.matches("\n\n\n").count(), 6);
}
