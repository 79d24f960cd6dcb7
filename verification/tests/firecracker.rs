//! Machines, and how they are talked to.

use hyperbox::config::{Allowlist, NetworkMode, SandboxConfig};
use hyperbox::error::HyperboxError;
use hyperbox::firecracker::allowlist::{
    allowlist_refresh_interval_secs, insert_all, insert_ip, FoundIp, LookupReply, LookupStep,
    ResolveAllowlist,
};
use hyperbox::firecracker::api::{
    describe_instance, ensure_success, parse_http_response, write_request, VmCall,
};
use hyperbox::firecracker::backend::{
    FcCreate, FcDestroy, FcEffect, FcReply, FcStep, FirecrackerBackend, FirecrackerBackendConfig,
};
use hyperbox::firecracker::connect::{
    agent_address, refuse_endpoint, ConnectAgent, ConnectEffect, ConnectReply, ConnectStep,
};
use hyperbox::firecracker::snapshots::FcRestore;
use hyperbox::firecracker::vm::{
    FirecrackerBinary, FirecrackerVmConfig, StartVm, VmEffect, VmReply, VmStep,
};
use hyperbox::firecracker::workspace::{
    cleanup_plan, judge_cleanup, AgentWorkspaceBinding, CleanupEnd, CleanupPlan, PathKind,
    PrepareWorkspace, WorkspaceEffect, WorkspaceReply, WorkspaceStep,
};
use hyperbox::model::{SandboxId, SandboxLease};
use hyperbox::network::dns_proxy::HostIp;
use hyperbox::snapshot::SnapshotId;
use hyperbox::time::Timestamp;

#[test]
fn parses_basic_http_response() {
    let raw = b"HTTP/1.1 204 No Content\r\nConnection: close\r\n\r\n";
    let parsed = parse_http_response(raw).expect("parse response");
    assert_eq!(parsed.status_code, 204);
}

const HERE: &str = "/tmp";

fn vm() -> FirecrackerVmConfig {
    FirecrackerVmConfig::minimal(
        "vm".to_string(),
        "/run/vm.sock".to_string(),
        "/vmlinux".to_string(),
        "/disk".to_string(),
        HERE,
    )
}

#[test]
fn answers_that_are_none_are_refused() {
    assert_eq!(
        parse_http_response(b"garbage").unwrap_err(),
        "invalid HTTP response from firecracker"
    );
    assert_eq!(
        parse_http_response(b"HTTP/1.1 what\r\n\r\n").unwrap_err(),
        "missing HTTP status code"
    );
    let answer = parse_http_response("HTTP/1.1 200 OK\r\n\r\n\u{e9}\u{20ac}".as_bytes()).expect("an answer");
    assert_eq!((answer.status_code, answer.body.as_str()), (200, "\u{e9}\u{20ac}"));
    let answer = parse_http_response(b"HTTP/1.1 400 Bad\r\nA: b\r\n\r\noops").expect("an answer");
    assert_eq!((answer.status_code, answer.body.as_str()), (400, "oops"));
    assert_eq!(
        ensure_success(&answer).unwrap_err(),
        "firecracker api failed with status 400: oops"
    );
    assert_eq!(
        describe_instance(answer).unwrap_err(),
        "firecracker describe instance failed: 400 oops"
    );
    let answer = parse_http_response(b"HTTP/1.1 200 OK\r\n\r\n{\"id\":\"vm\",\"n\":3}").expect("an answer");
    let value = describe_instance(answer).expect("a description");
    assert_eq!(value["id"].as_str(), Some("vm"));
    assert_eq!(value["n"].as_u64(), Some(3));
    let answer = parse_http_response(b"HTTP/1.1 399 Odd\r\n\r\nready {").expect("an answer");
    let value = describe_instance(answer).expect("a description");
    assert_eq!(value["raw"].as_str(), Some("ready {"));
    assert_eq!(value.as_object().map(|fields| fields.len()), Some(1));
}

#[test]
fn calls_are_written_as_requests() {
    let call = VmCall::MachineConfig {
        vcpu_count: 2,
        mem_size_mib: 256,
    };
    assert_eq!(call.path(), "/machine-config");
    let body: serde_json::Value =
        serde_json::from_str(&call.body().expect("a body")).expect("an object");
    assert_eq!(body["vcpu_count"], 2);
    assert_eq!(body["mem_size_mib"], 256);
    let request = call.request().expect("a request");
    assert!(request.starts_with("PUT /machine-config HTTP/1.1\r\nHost: localhost\r\n"));
    let length = call.body().expect("a body").len();
    assert!(request.contains(&format!("Content-Length: {length}\r\n")));
    assert!(request.ends_with(&call.body().expect("a body")));
    assert_eq!(
        write_request("GET", "/", ""),
        "GET / HTTP/1.1\r\nHost: localhost\r\nAccept: application/json\r\nContent-Type: application/json\r\nContent-Length: 0\r\nConnection: close\r\n\r\n"
    );
}

#[test]
fn machines_are_started_last() {
    let mut config = vm();
    config.tap_name = Some("tap0".to_string());
    let paths: Vec<&str> = config.boot_calls().iter().map(|c| c.path()).collect();
    assert_eq!(paths.last(), Some(&"/actions"));
    assert_eq!(paths.iter().filter(|p| **p == "/actions").count(), 1);
    for needed in ["/machine-config", "/boot-source", "/drives/rootfs", "/vsock", "/network-interfaces/eth0"] {
        assert!(paths.contains(&needed), "{needed}");
    }
    assert!(!vm().boot_calls().iter().any(|c| c.path() == "/network-interfaces/eth0"));
}

fn start(found: bool) -> (Vec<String>, Result<FirecrackerVmConfig, String>) {
    drive(StartVm::begin(FirecrackerBinary::default(), vm()), found)
}

fn drive(
    begun: (StartVm, VmStep),
    found: bool,
) -> (Vec<String>, Result<FirecrackerVmConfig, String>) {
    let (mut machine, mut step) = begun;
    let mut asked = vec![];
    let mut elapsed: u64 = 0;
    loop {
        match step {
            VmStep::Done(result) => return (asked, result),
            VmStep::Ask(effect) => {
                let reply = match &effect {
                    VmEffect::Exists(_) => VmReply::Exists(found),
                    _ => VmReply::Unit,
                };
                match effect {
                    VmEffect::Spawn(program, args) => asked.push(format!("{program} {}", args.join(" "))),
                    VmEffect::Call(call) => asked.push(call.path().to_string()),
                    VmEffect::Pause(ms) => elapsed += ms,
                    _ => {}
                }
                (machine, step) = machine.resume(reply, elapsed);
            }
            VmStep::Stray => panic!("the machine got the wrong reply"),
        }
    }
}

#[test]
fn machines_are_up_after_all_their_calls() {
    let (asked, result) = start(true);
    assert_eq!(result.expect("a machine").vm_id, "vm");
    assert_eq!(asked.len(), 1 + vm().boot_calls().len());
    assert!(asked[0].starts_with("firecracker --api-sock /run/vm.sock"));
    let (asked, result) = start(false);
    assert_eq!(
        result.unwrap_err(),
        "timed out waiting for firecracker socket: /run/vm.sock"
    );
    assert_eq!(asked.len(), 1);
}

fn backend(dry_run: bool) -> FirecrackerBackend {
    let mut config = FirecrackerBackendConfig::defaults(HERE);
    config.network_dry_run = dry_run;
    config
        .rootfs_by_template
        .insert("python:3.12".to_string(), "/disk".to_string());
    FirecrackerBackend::new(config)
}

fn second(n: usize) -> Timestamp {
    Timestamp::new(1_767_225_600 + n as i64, 0).expect("a time of the calendar")
}

/// Each answer comes one second after the one before.
fn create(
    backend: &mut FirecrackerBackend,
    id: SandboxId,
    config: SandboxConfig,
) -> (Vec<&'static str>, Result<SandboxLease, String>) {
    let (mut machine, mut step) = FcCreate::begin(backend, id, config);
    let mut asked = vec![];
    loop {
        match step {
            FcStep::Done(result) => return (asked, result.map_err(|e| e.message())),
            FcStep::Ask(effect) => {
                let (name, reply) = match effect {
                    FcEffect::CreateDirAll(_) => ("dir", FcReply::Unit),
                    FcEffect::StartVm(_) => ("start", FcReply::Unit),
                    FcEffect::Firewall(_) => ("firewall", FcReply::Unit),
                    FcEffect::Resolve(_) => (
                        "resolve",
                        FcReply::Addresses(vec![FoundIp {
                            ip: HostIp::V4(0x0102_0304),
                            text: "1.2.3.4".to_string(),
                        }]),
                    ),
                    FcEffect::StartSync(_, _) => ("sync", FcReply::Unit),
                    FcEffect::Prepare(_, _) => (
                        "prepare",
                        FcReply::Binding(AgentWorkspaceBinding {
                            path: "/agent/x".to_string(),
                            managed: true,
                            linked_workspace: false,
                        }),
                    ),
                    other => panic!("{other:?}"),
                };
                asked.push(name);
                (machine, step) = machine.resume(reply, second(asked.len()), backend);
            }
            FcStep::Stray => panic!("the backend got the wrong reply"),
        }
    }
}

#[test]
fn networks_are_fenced_before_a_sandbox_is_handed_out() {
    let mut backend = backend(false);
    let list = Allowlist::parse(&["a.org".to_string()]).expect("allowlist");
    let config = SandboxConfig {
        network: NetworkMode::Allowlist(list),
        ..SandboxConfig::default()
    };
    let (asked, lease) = create(&mut backend, SandboxId(1), config);
    let info = lease.expect("a sandbox").info;
    assert_eq!(info.created_at, second(asked.len() - 1));
    assert_eq!(asked, ["dir", "dir", "start", "firewall", "resolve", "firewall", "sync", "prepare"]);
    assert!(backend.inspect(SandboxId(1)).is_ok());
    let (asked, lease) = create(&mut backend, SandboxId(2), SandboxConfig::default());
    lease.expect("a sandbox");
    assert!(!asked.contains(&"resolve"));
}

#[test]
fn dry_runs_make_no_sandbox_with_a_network() {
    let mut backend = backend(true);
    let config = SandboxConfig {
        network: NetworkMode::Full,
        ..SandboxConfig::default()
    };
    let (asked, lease) = create(&mut backend, SandboxId(1), config);
    assert_eq!(
        lease.unwrap_err(),
        "invalid config: network policy requires real firewall enforcement; set HYPERBOX_NETWORK_DRY_RUN=0"
    );
    assert!(!asked.contains(&"start"));
    assert_eq!(
        backend.inspect(SandboxId(1)).unwrap_err().message(),
        format!("sandbox not found: {}", SandboxId(1).text())
    );
}

#[test]
fn templates_without_a_disk_are_refused() {
    let mut backend = backend(false);
    let config = SandboxConfig {
        template: "odd:1".to_string(),
        ..SandboxConfig::default()
    };
    let (_, lease) = create(&mut backend, SandboxId(1), config);
    assert_eq!(
        lease.unwrap_err(),
        "template not found: odd:1 (missing firecracker rootfs mapping)"
    );
}

#[test]
fn parses_agent_socket_addr_from_url() {
    let parsed = agent_address("http://127.0.0.1:60061");
    assert_eq!(parsed.to_string(), "127.0.0.1:60061");
}

#[test]
fn rejects_invalid_agent_endpoint() {
    let mut config = FirecrackerBackendConfig::defaults("/tmp");
    config.agent_endpoint = "http://localhost".to_string();
    let mut backend = FirecrackerBackend::new(config);
    let (machine, _) = ConnectAgent::begin(&backend);
    let (machine, step) = machine.resume(ConnectReply::Failed("refused".to_string()), &mut backend);
    assert!(matches!(
        step,
        ConnectStep::Ask(ConnectEffect::ReadAddress(address)) if address == "localhost"
    ));
    let (_, step) = machine.resume(ConnectReply::Failed("no port".to_string()), &mut backend);
    let ConnectStep::Done(Err(err)) = step else {
        panic!("invalid endpoint must fail");
    };
    assert!(err.message().contains("invalid HYPERBOX_AGENT_ENDPOINT `http://localhost`"));
    assert_eq!(err, refuse_endpoint("http://localhost", "no port"));
}

#[test]
fn addresses_of_endpoints_are_read() {
    assert_eq!(agent_address("https://h:1"), "h:1");
    assert_eq!(agent_address("h:1"), "h:1");
}

#[test]
fn agents_are_not_started_where_that_is_off() {
    let mut config = FirecrackerBackendConfig::defaults("/tmp");
    config.auto_start_agent = false;
    let mut backend = FirecrackerBackend::new(config);
    let (machine, _) = ConnectAgent::begin(&backend);
    let (_, step) = machine.resume(ConnectReply::Failed("refused".to_string()), &mut backend);
    let ConnectStep::Done(Err(err)) = step else {
        panic!("the agent must not be started");
    };
    assert!(err.message().contains("is unavailable and auto-start is disabled"));
    assert!(!backend.agent_started);
}

#[test]
fn the_way_to_the_agent_ends() {
    let mut backend = backend(false);
    let (mut machine, mut step) = ConnectAgent::begin(&backend);
    let mut tries = 0;
    loop {
        match step {
            ConnectStep::Done(result) => {
                assert!(result.unwrap_err().message().contains("after auto-start: refused"));
                break;
            }
            ConnectStep::Ask(effect) => {
                let reply = match effect {
                    ConnectEffect::Connect(_) => {
                        tries += 1;
                        ConnectReply::Failed("refused".to_string())
                    }
                    _ => ConnectReply::Unit,
                };
                (machine, step) = machine.resume(reply, &mut backend);
            }
            ConnectStep::Stray => panic!("the way got the wrong reply"),
        }
    }
    assert_eq!(tries, 1 + 20);
    assert!(!backend.agent_started);
}

#[test]
fn addresses_are_gathered_once_and_in_order() {
    let found = |n: u32| FoundIp {
        ip: HostIp::V4(n),
        text: format!("{n}"),
    };
    let mut list = vec![found(2), found(7)];
    let other = FoundIp {
        ip: HostIp::V4(7),
        text: "seven".to_string(),
    };
    insert_ip(&mut list, other);
    assert_eq!(list, vec![found(2), found(7)]);
    insert_all(&mut list, vec![found(9), found(1), found(5)]);
    assert_eq!(list, vec![found(1), found(2), found(5), found(7), found(9)]);
    let (machine, step) = ResolveAllowlist::begin(&vec!["a.org".to_string(), "b.org".to_string()]);
    assert!(matches!(step, LookupStep::Lookup(name) if name == "a.org"));
    let (machine, step) = machine
        .expect("a name is left")
        .resume(LookupReply::Found(vec![found(9), found(3)]));
    assert!(matches!(step, LookupStep::Lookup(name) if name == "b.org"));
    let (machine, step) = machine
        .expect("a name is left")
        .resume(LookupReply::Found(vec![found(3), found(5)]));
    assert!(machine.is_none());
    match step {
        LookupStep::Done(Ok(list)) => {
            let texts: Vec<&str> = list.iter().map(|f| f.text.as_str()).collect();
            assert_eq!(texts, ["3", "5", "9"]);
        }
        other => panic!("{other:?}"),
    }
    let (machine, _) = ResolveAllowlist::begin(&vec!["a.org".to_string()]);
    match machine.expect("a name is left").resume(LookupReply::Found(vec![])).1 {
        LookupStep::Done(Err(e)) => assert_eq!(
            e.message(),
            "execution failed: allowlist resolution returned zero IP addresses"
        ),
        other => panic!("{other:?}"),
    }
    assert_eq!(allowlist_refresh_interval_secs(&Some("5".to_string())), 5);
}

#[test]
fn given_directories_are_linked_and_only_unlinked() {
    let given = Some("/work".to_string());
    let (mut machine, mut step) = PrepareWorkspace::begin("/agent", SandboxId(1), &given);
    let binding = loop {
        match step {
            WorkspaceStep::Done(result) => break result.expect("a binding"),
            WorkspaceStep::Ask(effect) => {
                let reply = match effect {
                    WorkspaceEffect::Inspect(_) => WorkspaceReply::Kind(PathKind::Absent),
                    WorkspaceEffect::Canonicalize(p) => WorkspaceReply::Canonical(p, true),
                    WorkspaceEffect::CurrentDir => WorkspaceReply::Dir("/here".to_string()),
                    _ => WorkspaceReply::Unit,
                };
                (machine, step) = machine.resume(reply);
            }
            WorkspaceStep::Stray => panic!("the workspace got the wrong reply"),
        }
    };
    assert!(binding.linked_workspace && !binding.managed);
    assert!(matches!(cleanup_plan(&binding), CleanupPlan::Unlink(p) if p == binding.path));
    assert!(judge_cleanup(&binding, CleanupEnd::Absent).is_ok());
    assert!(judge_cleanup(&binding, CleanupEnd::Failed("no".to_string()))
        .unwrap_err()
        .message()
        .contains("remove agent workspace link"));
}

#[test]
fn shared_directories_are_not_restored_into() {
    let mut backend = backend(false);
    let config = SandboxConfig {
        workspace_dir: Some("/work".to_string()),
        ..SandboxConfig::default()
    };
    let (machine, step) = FcRestore::begin(SnapshotId(1), "/snap.tar.gz".to_string(), config.clone());
    assert!(matches!(step, FcStep::Ask(FcEffect::Exists(_))));
    let (_, step) = machine.resume(FcReply::Exists(true), &backend);
    match step {
        FcStep::Done(Err(e)) => assert_eq!(
            e.message(),
            "invalid config: firecracker snapshot restore into shared workspace_dir is not supported"
        ),
        FcStep::Ask(effect) => {
            assert!(matches!(effect, FcEffect::Create(_)), "{effect:?}");
        }
        other => panic!("{other:?}"),
    }
    let (machine, _) = FcRestore::begin(SnapshotId(1), "/snap.tar.gz".to_string(), config);
    match machine.resume(FcReply::Exists(false), &backend).1 {
        FcStep::Done(Err(e)) => assert!(e.message().contains("snapshot artifact missing for ")),
        other => panic!("{other:?}"),
    }
    assert_eq!(
        FcDestroy::begin(&mut backend, SandboxId(4)).1.is_not_found(),
        true
    );
}

/// Restores a snapshot into a new sandbox, with this answer to the unpacking.
fn restore(unpacked: fn() -> FcReply) -> (bool, Result<SandboxLease, String>) {
    let mut backend = backend(false);
    let id = SandboxId(1);
    let config = SandboxConfig::default();
    let mut lease = Some(create(&mut backend, id, config.clone()).1.expect("a sandbox"));
    let (mut machine, mut step) = FcRestore::begin(SnapshotId(9), "/snap.tar.gz".to_string(), config);
    let mut destroyed = false;
    loop {
        let reply = match step {
            FcStep::Done(result) => return (destroyed, result.map_err(|e| e.message())),
            FcStep::Stray => panic!("the backend got the wrong reply"),
            FcStep::Ask(FcEffect::Exists(_)) => FcReply::Exists(true),
            FcStep::Ask(FcEffect::Create(_)) => FcReply::Lease(lease.take().expect("one sandbox")),
            FcStep::Ask(FcEffect::Unpack(archive, _)) => {
                assert_eq!(archive, "/snap.tar.gz");
                unpacked()
            }
            FcStep::Ask(FcEffect::Destroy(gone)) => {
                assert_eq!(gone, id);
                destroyed = true;
                FcReply::IoFailed("no disk".to_string())
            }
            FcStep::Ask(_) => FcReply::Unit,
        };
        (machine, step) = machine.resume(reply, &backend);
    }
}

#[test]
fn sandboxes_that_cannot_be_filled_do_not_stay() {
    let (destroyed, lease) = restore(|| FcReply::Unit);
    assert!(!destroyed);
    assert_eq!(lease.expect("a sandbox").id, SandboxId(1));
    let text = |cause: &str| {
        format!(
            "execution failed: firecracker snapshot restore failed for {}: {cause}",
            SnapshotId(9).text()
        )
    };
    let (destroyed, lease) =
        restore(|| FcReply::Failed(HyperboxError::ExecutionFailed("tar".to_string())));
    assert!(destroyed);
    assert_eq!(lease.unwrap_err(), text("execution failed: tar"));
    let (destroyed, lease) = restore(|| FcReply::IoFailed("tar".to_string()));
    assert!(destroyed);
    assert_eq!(lease.unwrap_err(), text(&HyperboxError::Io("tar".to_string()).message()));
}

trait NotFound {
    fn is_not_found(&self) -> bool;
}

impl NotFound for FcStep<()> {
    fn is_not_found(&self) -> bool {
        matches!(self, FcStep::Done(Err(HyperboxError::SandboxNotFound(_))))
    }
}

#[test]
fn snapshots_are_loaded_last() {
    let begun = StartVm::begin_restore(
        FirecrackerBinary::default(),
        vm(),
        "/snap/state".to_string(),
        "/snap/memory".to_string(),
    );
    let (asked, end) = drive(begun, true);
    assert_eq!(asked.last().map(|s| s.as_str()), Some("/snapshot/load"));
    assert_eq!(asked[asked.len() - 2], "/actions");
    let config = end.expect("a machine");
    assert_eq!(config.boot_args, "");
    assert_eq!(config.kernel_image_path, vm().kernel_image_path);
}
