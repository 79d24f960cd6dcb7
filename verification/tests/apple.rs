//! The backend for Apple hosts.

use hyperbox::apple::backend::{
    ensure_supported_apple_network_mode, helper_network_fields, normalize_relative_path,
    resolve_direct_container_bin, AppleBackendConfig, AppleCreate, AppleEffect, AppleReply,
    AppleRuntimeKind, AppleStep, AppleVzBackend, HelperRequest, HelperResponse, SessionPlan,
};
use hyperbox::apple::capabilities::detect_macos_capabilities;
use hyperbox::apple::container::{
    container_network_args, error_output_is_not_found, stderr_summary, truncate_error_output,
    CommandResult, ContainerCall, ContainerRun, RunEffect, RunReply, RunStep,
};
use hyperbox::apple::operations::{AppleDestroy, AppleExec, AppleRead, AppleWrite};
use hyperbox::apple::snapshots::{AppleRestore, AppleSnapshot};
use hyperbox::config::{Allowlist, NetworkMode, SandboxConfig};
use hyperbox::error::HyperboxError;
use hyperbox::model::{ExecRequest, FilePayload, SandboxId, SandboxLease};
use hyperbox::snapshot::SnapshotId;
use hyperbox::time::Timestamp;

#[test]
fn apple_network_modes_allow_none_and_full() {
    assert!(ensure_supported_apple_network_mode(&NetworkMode::NoNetwork).is_ok());
    assert!(ensure_supported_apple_network_mode(&NetworkMode::Full).is_ok());
}

#[test]
fn apple_network_mode_rejects_allowlist_without_enforcement() {
    let allowlist = Allowlist::parse(&["pypi.org".to_string()]).expect("allowlist");
    let err = ensure_supported_apple_network_mode(&NetworkMode::Allowlist(allowlist))
        .expect_err("allowlist should fail without enforcement");
    assert!(
        err.message().contains("does not enforce allowlist"),
        "unexpected error: {}",
        err.message()
    );
}

#[test]
fn container_network_args_follow_mode() {
    let none_args = container_network_args(&NetworkMode::NoNetwork).expect("none args");
    assert_eq!(none_args, vec!["--network".to_string(), "none".to_string()]);
    let full_args = container_network_args(&NetworkMode::Full).expect("full args");
    assert!(full_args.is_empty());
}

#[test]
fn probe_produces_consistent_backend_choice() {
    let caps = detect_macos_capabilities("macos", "aarch64", Some(b"26.1\n".to_vec()), true, false);
    assert!(caps.supports_containerization_framework);
    if caps.supports_containerization_framework {
        assert_eq!(caps.preferred_backend(), "apple_containerization");
    }
    for odd in [None, Some(b" \n".to_vec()), Some(vec![b'2', b'6', 0xff])] {
        let caps = detect_macos_capabilities("macos", "aarch64", odd, true, false);
        assert_eq!((caps.version.as_str(), caps.major_version), ("0.0.0", 0));
    }
}

fn ran(exit_code: i32, stdout: &[u8], stderr: &[u8]) -> AppleReply {
    AppleReply::Ran(CommandResult {
        exit_code,
        stdout: stdout.to_vec(),
        stderr: stderr.to_vec(),
        duration_ms: 3,
    })
}

fn backend(runtime_kind: AppleRuntimeKind, command: Option<&[&str]>) -> AppleVzBackend {
    let mut config = AppleBackendConfig::defaults("/tmp");
    config.runtime_kind = runtime_kind;
    config.launch_command = command.map(|c| c.iter().map(|w| w.to_string()).collect());
    AppleVzBackend::new(config)
}

fn containers() -> AppleVzBackend {
    backend(
        AppleRuntimeKind::Containerization,
        Some(&["hyperbox", "apple-helper", "--container-bin", "/bin/container"]),
    )
}

fn helped() -> AppleVzBackend {
    backend(AppleRuntimeKind::Virtualization, Some(&["my-helper", "--x"]))
}

fn create(
    backend: &mut AppleVzBackend,
    id: SandboxId,
    config: SandboxConfig,
    answer: HelperResponse,
) -> (Vec<AppleEffect>, Result<SandboxLease, String>) {
    let now = Timestamp::new(1_767_225_600, 0).expect("a time of the calendar");
    let (mut machine, mut step) = AppleCreate::begin(backend, id, now, config, true);
    let mut asked = vec![];
    let mut answer = Some(answer);
    loop {
        match step {
            AppleStep::Done(result) => return (asked, result.map_err(|e| e.message())),
            AppleStep::Ask(effect) => {
                let reply = match &effect {
                    AppleEffect::Canonicalize(p) => AppleReply::Canonical(p.clone(), true),
                    AppleEffect::Container(_) => ran(0, b"", b""),
                    AppleEffect::Helper(_) => AppleReply::Helped(answer.take().expect("one answer")),
                    _ => AppleReply::Unit,
                };
                asked.push(effect);
                (machine, step) = machine.resume(reply, backend);
            }
            AppleStep::Stray => panic!("the backend got the wrong reply"),
        }
    }
}

fn request() -> ExecRequest {
    ExecRequest {
        command: vec!["echo".to_string(), "hi".to_string()],
        timeout_secs: 0,
    }
}

#[test]
fn helpers_have_to_be_configured() {
    let mut bare = backend(AppleRuntimeKind::Virtualization, None);
    let (asked, lease) = create(&mut bare, SandboxId(1), SandboxConfig::default(), HelperResponse::Ack);
    assert!(asked.is_empty());
    assert_eq!(
        lease.unwrap_err(),
        "invalid config: apple backend requires HYPERBOX_APPLE_HELPER to be configured"
    );
    assert!(matches!(helped().plan_session(true), Ok(SessionPlan::Keep)));
    match helped().plan_session(false) {
        Ok(SessionPlan::Spawn(program, args)) => {
            assert_eq!((program.as_str(), args), ("my-helper", vec!["--x".to_string()]))
        }
        other => panic!("{other:?}"),
    }
    assert!(bare.plan_session(false).is_err());
}

#[test]
fn containers_are_run_directly_for_the_own_helper() {
    let mut backend = containers();
    assert!(backend.use_direct_container_mode());
    assert_eq!(backend.runtime_name(), "containerization");
    let config = SandboxConfig {
        workspace_dir: Some("/work".to_string()),
        ..SandboxConfig::default()
    };
    let id = SandboxId(1);
    let (asked, lease) = create(&mut backend, id, config, HelperResponse::Ack);
    lease.expect("a sandbox");
    let call = asked
        .iter()
        .find_map(|effect| match effect {
            AppleEffect::Container(call) => Some(call),
            _ => None,
        })
        .expect("a container is run");
    let line = call.args.join(" ");
    assert!(line.starts_with("run "));
    assert!(line.contains(&format!("--name hyperbox-{}", id.text())));
    assert!(line.contains("--volume /work:/workspace"));
    assert!(line.contains("--network none"));

    let (exec, step) = AppleExec::begin(&backend, id, request());
    match step {
        AppleStep::Ask(AppleEffect::Container(call)) => {
            assert_eq!(call.timeout_secs, 1);
            assert!(call.args.join(" ").ends_with("echo hi"));
        }
        other => panic!("{other:?}"),
    }
    match exec.resume(ran(3, b"o", &[0xff])).1 {
        AppleStep::Done(Ok(o)) => {
            assert_eq!((o.exit_code, o.stdout.as_str(), o.stderr.as_str()), (3, "o", "\u{fffd}"));
            assert_eq!(o.duration_ms, 3);
        }
        other => panic!("{other:?}"),
    }

    let (mut machine, mut step) = AppleDestroy::begin(&mut backend, id);
    let mut removed = false;
    loop {
        match step {
            AppleStep::Done(result) => break result.expect("destroyed"),
            AppleStep::Ask(effect) => {
                removed |= matches!(effect, AppleEffect::RemoveDirAll(_));
                let reply = match effect {
                    AppleEffect::Container(_) => ran(1, b"", b"Error: not found"),
                    _ => AppleReply::Unit,
                };
                (machine, step) = machine.resume(reply);
            }
            AppleStep::Stray => panic!("the backend got the wrong reply"),
        }
    }
    assert!(!removed);
    assert!(backend.inspect(id).is_err());
}

#[test]
fn files_travel_to_the_helper_in_base64() {
    let mut backend = helped();
    let id = SandboxId(1);
    let (asked, lease) = create(&mut backend, id, SandboxConfig::default(), HelperResponse::Ack);
    lease.expect("a sandbox");
    assert!(asked.iter().any(|e| matches!(e, AppleEffect::Helper(HelperRequest::Create { .. }))));

    let payload = FilePayload {
        path: "a.txt".to_string(),
        bytes: vec![0, 255, 16],
    };
    let (machine, step) = AppleWrite::begin(&backend, id, payload);
    match step {
        AppleStep::Ask(AppleEffect::Helper(HelperRequest::Write { bytes_b64, .. })) => {
            assert_eq!(bytes_b64, "AP8Q")
        }
        other => panic!("{other:?}"),
    }
    assert!(matches!(
        machine.resume(AppleReply::Helped(HelperResponse::Ack)).1,
        AppleStep::Done(Ok(()))
    ));

    let (machine, _) = AppleRead::begin(&backend, id, "a.txt");
    let answer = HelperResponse::Read {
        bytes_b64: "AP8Q".to_string(),
    };
    match machine.resume(AppleReply::Helped(answer)).1 {
        AppleStep::Done(Ok(file)) => {
            assert_eq!((file.path.as_str(), file.bytes), ("a.txt", vec![0, 255, 16]))
        }
        other => panic!("{other:?}"),
    }
    let (machine, _) = AppleRead::begin(&backend, id, "a.txt");
    let answer = HelperResponse::Read {
        bytes_b64: "!".to_string(),
    };
    match machine.resume(AppleReply::Helped(answer)).1 {
        AppleStep::Done(Err(e)) => assert!(e.message().contains("decode helper read payload: ")),
        other => panic!("{other:?}"),
    }
}

#[test]
fn odd_answers_of_the_helper_are_shown() {
    let mut backend = helped();
    let answer = HelperResponse::Read {
        bytes_b64: "a\"b".to_string(),
    };
    assert_eq!(answer.show(), "Read { bytes_b64: \"a\\\"b\" }");
    let text = answer.show();
    let (_, lease) = create(&mut backend, SandboxId(1), SandboxConfig::default(), answer);
    assert_eq!(
        lease.unwrap_err(),
        format!("execution failed: unexpected apple helper response on create: {text}")
    );
    let refusal = HelperResponse::Error {
        message: "no".to_string(),
    };
    let (_, lease) = create(&mut backend, SandboxId(1), SandboxConfig::default(), refusal);
    assert_eq!(lease.unwrap_err(), "execution failed: apple helper create failed: no");
    assert!(backend.inspect(SandboxId(1)).is_err());
}

#[test]
fn network_fields_and_paths_for_the_helper() {
    let list = Allowlist::parse(&["a.org".to_string()]).expect("allowlist");
    assert_eq!(
        helper_network_fields(&NetworkMode::Allowlist(list)),
        ("allowlist".to_string(), vec!["a.org".to_string()])
    );
    assert_eq!(helper_network_fields(&NetworkMode::Full), ("full".to_string(), vec![]));
    assert_eq!(normalize_relative_path("a/./b").ok(), Some(vec!["a".to_string(), "b".to_string()]));
    assert_eq!(
        normalize_relative_path("/a").unwrap_err().message(),
        "execution failed: absolute paths are not allowed"
    );
    assert_eq!(
        resolve_direct_container_bin(&Some(vec!["x".to_string(), "apple-helper".to_string()])),
        Some("container".to_string())
    );
    assert_eq!(resolve_direct_container_bin(&Some(vec!["x".to_string()])), None);
}

#[test]
fn error_outputs_are_shortened() {
    assert_eq!(truncate_error_output("  oops \n"), "oops");
    let long = "x".repeat(2000);
    assert_eq!(truncate_error_output(&long), format!("{}... (truncated)", "x".repeat(1024)));
    assert_eq!(stderr_summary(&vec![b' ', 0xff]), "\u{fffd}");
    assert!(error_output_is_not_found(&b"Container Not Found".to_vec()));
    assert!(error_output_is_not_found(&b"no such container".to_vec()));
    assert!(!error_output_is_not_found(&b"busy".to_vec()));
}

fn run_container(slow: bool) -> (Vec<String>, Result<CommandResult, String>) {
    let call = ContainerCall {
        args: vec!["exec".to_string()],
        stdin: Some(b"in".to_vec()),
        timeout_secs: 2,
    };
    let (mut machine, mut step) = ContainerRun::begin("container", call);
    let mut asked = vec![];
    loop {
        match step {
            RunStep::Done(result) => return (asked, result),
            RunStep::Ask(effect) => {
                asked.push(format!("{effect:?}").split('(').next().unwrap_or_default().to_string());
                let reply = match effect {
                    RunEffect::Wait(_) if slow => RunReply::TimedOut,
                    RunEffect::Wait(_) => RunReply::Exited(Some(4)),
                    RunEffect::TakeStdout => RunReply::Bytes(b"out".to_vec()),
                    RunEffect::TakeStderr => RunReply::Bytes(b"err".to_vec()),
                    _ => RunReply::Unit,
                };
                (machine, step) = machine.resume(reply, 7);
            }
            RunStep::Stray => panic!("the command got the wrong reply"),
        }
    }
}

#[test]
fn container_commands_leave_their_results() {
    let (_, result) = run_container(false);
    let result = result.expect("a result");
    assert_eq!((result.exit_code, result.duration_ms), (4, 7));
    assert_eq!((result.stdout, result.stderr), (b"out".to_vec(), b"err".to_vec()));
    let (asked, result) = run_container(true);
    assert!(asked.contains(&"Stop".to_string()));
    assert_eq!(result.unwrap_err(), "command timed out after 2s");
}

#[test]
fn sandboxes_are_restored_only_after_their_archive_was_unpacked() {
    let mut backend = containers();
    let id = SandboxId(1);
    create(&mut backend, id, SandboxConfig::default(), HelperResponse::Ack).1.expect("a sandbox");
    let (_, step) = AppleSnapshot::begin(&backend, id, SnapshotId(2), "/snap.tar.gz".to_string());
    assert!(matches!(step, AppleStep::Ask(AppleEffect::Exec(SandboxId(1), _))));

    for (fails, breaks) in [(false, false), (true, false), (true, true)] {
        let info = backend.inspect(id).expect("a sandbox");
        let (mut machine, mut step) =
            AppleRestore::begin(SnapshotId(2), "/snap.tar.gz".to_string(), SandboxConfig::default());
        let mut destroyed = false;
        let result = loop {
            match step {
                AppleStep::Done(result) => break result,
                AppleStep::Ask(effect) => {
                    let reply = match effect {
                        AppleEffect::Exists(_) => AppleReply::Exists(true),
                        AppleEffect::Create(_) => AppleReply::Lease(SandboxLease {
                            id,
                            info: info.copy(),
                        }),
                        AppleEffect::Exec(_, _) if breaks => {
                            AppleReply::IoFailed("no disk".to_string())
                        }
                        AppleEffect::Destroy(_) if breaks => {
                            destroyed = true;
                            AppleReply::IoFailed("gone".to_string())
                        }
                        AppleEffect::Exec(_, _) => AppleReply::Outcome(hyperbox::model::ExecOutcome {
                            exit_code: if fails { 2 } else { 0 },
                            stdout: String::new(),
                            stderr: "bad archive".to_string(),
                            duration_ms: 1,
                        }),
                        AppleEffect::Destroy(_) => {
                            destroyed = true;
                            AppleReply::Unit
                        }
                        AppleEffect::ReadHost(_) => AppleReply::Bytes(vec![1]),
                        _ => AppleReply::Unit,
                    };
                    (machine, step) = machine.resume(reply, &backend);
                }
                AppleStep::Stray => panic!("the backend got the wrong reply"),
            }
        };
        assert_eq!(result.is_err(), fails);
        assert_eq!(destroyed, fails);
        if breaks {
            assert_eq!(result.unwrap_err(), HyperboxError::Io("no disk".to_string()));
        }
    }
}
