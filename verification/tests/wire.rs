//! Messages and rows: what is written reads back.

use hyperbox::cli::policy::ServerInfo;
use hyperbox::config::{Allowlist, NetworkMode, SandboxConfig};
use hyperbox::env::{env_from_pairs, env_pairs};
use hyperbox::model::{SandboxId, SandboxInfo, SandboxState};
use hyperbox::process::{
    ProcessDisposition, ProcessId, ProcessInfo, ProcessLogRead, ProcessStatus, StreamName,
};
use hyperbox::server::effects::PreparedRunSandbox;
use hyperbox::server::metrics::MetricsSnapshot;
use hyperbox::server::rows::{
    active_from_row, affinity_from_row, process_from_row, process_to_row, snapshot_from_row,
    snapshot_to_row,
};
use hyperbox::server::run::{StartRunRequest, StartedRun};
use hyperbox::server::wire::{
    at_least_a_second, check_affinity_name, from_proto_config, from_proto_start_run,
    into_proto_config, into_proto_info, into_proto_metrics, into_proto_prepared_run_sandbox,
    into_proto_process, into_proto_process_log, into_proto_server_info, into_proto_snapshot,
    into_proto_start_run, into_proto_started_run, parse_prepared_run_sandbox,
    parse_process_disposition, parse_process_info, parse_process_log, parse_reported_config,
    parse_sandbox_id, parse_sandbox_info, parse_server_info, parse_snapshot_info, parse_started_run,
    parse_stream_name, template_or_default, WireSandboxConfig, WireStartRun,
};
use hyperbox::snapshot::{SnapshotId, SnapshotMetadata};
use hyperbox::time::Timestamp;

fn at(secs: i64) -> Timestamp {
    Timestamp::new(1_767_225_600 + secs, 250_000_000).expect("a time of the calendar")
}

fn config() -> SandboxConfig {
    let list = Allowlist::parse(&["pypi.org".to_string(), "*.github.com".to_string()]);
    SandboxConfig {
        affinity_name: Some("work".to_string()),
        template: "go:1.22".to_string(),
        memory_mb: 256,
        vcpu_count: 2,
        workspace_dir: Some("/w".to_string()),
        network: NetworkMode::Allowlist(list.expect("allowlist")),
        env: env_from_pairs(&vec![("A".to_string(), "1".to_string())]),
        timeout_secs: 9,
    }
}

fn process() -> ProcessInfo {
    ProcessInfo {
        id: ProcessId(7),
        sandbox_id: SandboxId(8),
        requested_sandbox_id: Some(SandboxId(9)),
        disposition: ProcessDisposition::CreatedDueToBusy,
        destroy_sandbox_on_expiry: true,
        command: vec!["echo".to_string(), "a \"b\"".to_string()],
        status: ProcessStatus::Failed,
        stdout_path: "out".to_string(),
        stderr_path: "err".to_string(),
        backend_pid: Some(42),
        exit_code: Some(3),
        started_at: at(0),
        finished_at: Some(at(1)),
        expires_at: None,
    }
}

fn blank_run() -> WireStartRun {
    WireStartRun {
        sandbox_id: String::new(),
        affinity_name: String::new(),
        create_config: None,
        reuse_auto_session: false,
        ensure_commands: vec![],
        writes: vec![],
        command: "true".to_string(),
        destroy_sandbox_on_expiry: false,
    }
}

#[test]
fn configurations_travel() {
    let sent = config();
    let received = from_proto_config(into_proto_config(sent.clone())).expect("a configuration");
    assert_eq!(received.affinity_name, sent.affinity_name);
    assert_eq!(received.template, sent.template);
    assert_eq!((received.memory_mb, received.vcpu_count), (256, 2));
    assert_eq!(received.workspace_dir, sent.workspace_dir);
    assert_eq!(env_pairs(&received.env), env_pairs(&sent.env));
    assert_eq!(received.timeout_secs, 9);
    match received.network {
        NetworkMode::Allowlist(list) => {
            assert_eq!(list.to_strings(), vec!["pypi.org", "*.github.com"])
        }
        other => panic!("{other:?}"),
    }
}

#[test]
fn blank_fields_get_their_defaults() {
    let blank = WireSandboxConfig {
        template: String::new(),
        memory_mb: 0,
        vcpu_count: 0,
        timeout_secs: 0,
        env: vec![],
        network_mode: 77,
        network_allowlist: vec![],
        workspace_dir: String::new(),
        affinity_name: String::new(),
    };
    let config = from_proto_config(blank).expect("a configuration");
    let usual = SandboxConfig::default();
    assert_eq!(config.template, usual.template);
    assert_eq!(config.memory_mb, usual.memory_mb);
    assert_eq!(config.vcpu_count, usual.vcpu_count);
    assert_eq!(config.timeout_secs, usual.timeout_secs);
    assert_eq!(config.affinity_name, None);
    assert_eq!(config.workspace_dir, None);
    assert!(matches!(config.network, NetworkMode::NoNetwork));
    assert_eq!(template_or_default(String::new()), "python:3.12");
    assert_eq!(template_or_default("go:1.22".to_string()), "go:1.22");
    assert_eq!((at_least_a_second(0), at_least_a_second(5)), (1, 5));
}

#[test]
fn sandboxes_and_processes_travel() {
    let info = SandboxInfo {
        id: SandboxId(3),
        template: "go:1.22".to_string(),
        state: SandboxState::Busy,
        created_at: at(5),
    };
    assert_eq!(parse_sandbox_info(into_proto_info(info.clone())), Ok(info));
    assert_eq!(parse_process_info(into_proto_process(process())), Ok(process()));
    let mut running = process();
    running.status = ProcessStatus::Running;
    running.requested_sandbox_id = None;
    running.backend_pid = None;
    running.exit_code = None;
    running.finished_at = None;
    let message = into_proto_process(running);
    assert_eq!(message.requested_sandbox_id, "");
    assert!(!message.has_exit_code);
    let back = parse_process_info(message).expect("a process");
    assert_eq!((back.exit_code, back.backend_pid), (None, None));
    assert_eq!(back.finished_at, None);
    let mut broken = into_proto_process(process());
    broken.started_at = "soon".to_string();
    assert!(parse_process_info(broken).is_err());
}

#[test]
fn log_pieces_travel() {
    let read = ProcessLogRead {
        stream: StreamName::Stderr,
        offset: 3,
        next_offset: 8,
        eof: true,
        contents: "hello".to_string(),
    };
    let message = into_proto_process_log(read);
    assert_eq!(message.stream, "stderr");
    let back = parse_process_log(message);
    assert_eq!((back.stream, back.offset, back.next_offset), (StreamName::Stderr, 3, 8));
    assert_eq!((back.eof, back.contents.as_str()), (true, "hello"));
}

#[test]
fn words_that_mean_nothing_are_refused() {
    assert_eq!(
        parse_process_disposition("Odd").unwrap_err().0,
        "invalid process disposition: Odd"
    );
    assert_eq!(
        parse_process_disposition("").ok(),
        Some(ProcessDisposition::ReusedExisting)
    );
    assert_eq!(parse_stream_name("Stdout").ok(), Some(StreamName::Stdout));
    assert_eq!(parse_stream_name("both").unwrap_err().0, "invalid stream: both");
    assert_eq!(check_affinity_name(" \t").unwrap_err().0, "name must not be empty");
    assert!(check_affinity_name("work").is_ok());
    let error = parse_sandbox_id("x").unwrap_err().0;
    assert_eq!(
        error,
        format!("invalid sandbox_id: {}", uuid::Uuid::parse_str("x").unwrap_err())
    );
}

#[test]
fn runs_are_asked_for() {
    let mut message = blank_run();
    message.sandbox_id = SandboxId(4).text();
    message.affinity_name = "work".to_string();
    message.create_config = Some(into_proto_config(config()));
    message.writes = vec![("a".to_string(), vec![1, 2])];
    let request = from_proto_start_run(message).expect("a request");
    assert_eq!(request.sandbox_id, Some(SandboxId(4)));
    assert_eq!(request.affinity_name.as_deref(), Some("work"));
    assert_eq!(request.create_config.expect("a configuration").template, "go:1.22");
    assert_eq!(request.writes, vec![("a".to_string(), vec![1, 2])]);
    let request = from_proto_start_run(blank_run()).expect("a request");
    assert_eq!((request.sandbox_id, request.affinity_name), (None, None));
    let mut message = blank_run();
    message.sandbox_id = "x".to_string();
    assert!(from_proto_start_run(message).is_err());
}

#[test]
fn snapshots_travel_without_their_configuration() {
    let snapshot = SnapshotMetadata {
        id: SnapshotId(5),
        sandbox_id: SandboxId(6),
        affinity_name: None,
        template: "go:1.22".to_string(),
        config: config(),
        created_at: at(2),
        note: Some("n".to_string()),
    };
    let back = parse_snapshot_info(into_proto_snapshot(snapshot.clone())).expect("a snapshot");
    assert_eq!((back.id, back.sandbox_id), (SnapshotId(5), SandboxId(6)));
    assert_eq!((back.affinity_name, back.note.as_deref()), (None, Some("n")));
    assert_eq!(back.created_at, at(2));
    assert_eq!(back.config.template, "go:1.22");
    assert_eq!(back.config.memory_mb, 512);

    let row = snapshot_to_row(&snapshot);
    let back = snapshot_from_row(row, Ok(config())).expect("a snapshot");
    assert_eq!((back.id, back.sandbox_id), (SnapshotId(5), SandboxId(6)));
    assert_eq!(back.config.memory_mb, 256);
    let row = snapshot_to_row(&snapshot);
    assert_eq!(
        snapshot_from_row(row, Err("bad json".to_string())).err().as_deref(),
        Some("bad json")
    );
}

#[test]
fn process_rows_read_back() {
    let row = process_to_row(&process()).expect("a row");
    assert_eq!(row.command_json, r#"["echo","a \"b\""]"#);
    assert_eq!(row.started_at, "2026-01-01T00:00:00.250+00:00");
    assert!(row.destroy_sandbox_on_expiry);
    assert_eq!(process_from_row(row), Ok(process()));
    let mut broken = process_to_row(&process()).expect("a row");
    broken.command_json = "{}".to_string();
    let error = serde_json::from_str::<Vec<String>>("{}").unwrap_err().to_string();
    assert_eq!(process_from_row(broken), Err(error));
}

#[test]
fn rows_of_names_and_sandboxes_read_back() {
    let record = affinity_from_row(
        "work".to_string(),
        None,
        Some(SnapshotId(5).text()),
        at(1).to_rfc3339(),
    )
    .expect("a record");
    assert_eq!((record.sandbox_id, record.snapshot_id), (None, Some(SnapshotId(5))));
    assert_eq!(record.updated_at, at(1));
    let active = active_from_row(SandboxId(6).text(), Ok(config()), at(2).to_rfc3339())
        .expect("a record");
    assert_eq!((active.sandbox_id, active.created_at), (SandboxId(6), at(2)));
    assert!(active_from_row("x".to_string(), Ok(config()), at(2).to_rfc3339()).is_err());
    assert!(affinity_from_row("w".to_string(), None, None, "x".to_string()).is_err());
}

fn info() -> SandboxInfo {
    SandboxInfo {
        id: SandboxId(8),
        template: "node:20".to_string(),
        state: SandboxState::Busy,
        created_at: at(0),
    }
}

#[test]
fn runs_travel_both_ways() {
    let request = StartRunRequest {
        sandbox_id: Some(SandboxId(5)),
        affinity_name: Some("work".to_string()),
        create_config: Some(config()),
        reuse_auto_session: true,
        ensure_commands: vec!["make".to_string()],
        writes: vec![("a.txt".to_string(), vec![1, 2])],
        command: "ls".to_string(),
        destroy_sandbox_on_expiry: true,
    };
    let message = into_proto_start_run(request);
    assert_eq!(message.sandbox_id, "00000000-0000-0000-0000-000000000005");
    let back = from_proto_start_run(message).expect("a run");
    assert_eq!(back.sandbox_id, Some(SandboxId(5)));
    assert_eq!(back.affinity_name, Some("work".to_string()));
    assert_eq!(back.create_config.expect("a configuration").template, "go:1.22");
    assert!(back.reuse_auto_session && back.destroy_sandbox_on_expiry);
    assert_eq!(back.ensure_commands, vec!["make".to_string()]);
    assert_eq!(back.writes, vec![("a.txt".to_string(), vec![1, 2])]);
    assert_eq!(back.command, "ls");
}

#[test]
fn started_runs_travel() {
    let started = StartedRun {
        process: process(),
        sandbox: info(),
        session_name: Some("auto".to_string()),
        session_created: true,
    };
    let message = into_proto_started_run(started);
    let back = parse_started_run(message.clone()).expect("a started run");
    assert_eq!(back.process, process());
    assert_eq!(back.sandbox, info());
    assert_eq!(back.session_name, Some("auto".to_string()));
    assert!(back.session_created);

    let mut unnamed = message.clone();
    unnamed.session_name = String::new();
    assert_eq!(parse_started_run(unnamed).expect("a started run").session_name, None);

    let mut broken = message;
    broken.sandbox.id = "nowhere".to_string();
    assert!(parse_started_run(broken.clone()).is_err());
    let of_sandbox = parse_started_run(broken.clone()).map(|_| ()).expect_err("a bad sandbox");
    broken.process.process_id = "what".to_string();
    let of_process = parse_started_run(broken).map(|_| ()).expect_err("a bad process");
    assert_ne!(of_sandbox, of_process);
}

#[test]
fn prepared_sandboxes_travel() {
    let message = into_proto_prepared_run_sandbox(PreparedRunSandbox {
        info: info(),
        requested_sandbox_id: Some(SandboxId(9)),
        disposition: ProcessDisposition::CreatedDueToBusy,
    });
    let back = parse_prepared_run_sandbox(message.clone()).expect("a prepared sandbox");
    assert_eq!(back.info, info());
    assert_eq!(back.requested_sandbox_id, Some(SandboxId(9)));
    assert_eq!(back.disposition, ProcessDisposition::CreatedDueToBusy);

    let mut plain = message.clone();
    plain.requested_sandbox_id = String::new();
    let back = parse_prepared_run_sandbox(plain).expect("a prepared sandbox");
    assert_eq!(back.requested_sandbox_id, None);

    let mut broken = message;
    broken.requested_sandbox_id = "nobody".to_string();
    assert!(parse_prepared_run_sandbox(broken).is_err());
}

#[test]
fn what_a_server_says_of_itself_travels() {
    let said = ServerInfo {
        server_version: "0.1.0".to_string(),
        process_id: "77".to_string(),
        executable_path: "/bin/hyperbox".to_string(),
        started_at: at(0).to_rfc3339(),
        backend_requested: "auto".to_string(),
        backend_selected: "apple".to_string(),
        backend_reason: "selected for host".to_string(),
        apple_runtime: Some("containerization".to_string()),
        apple_helper_argv: vec!["hyperbox".to_string(), "apple-helper".to_string()],
    };
    let mut message = into_proto_server_info(said);
    let back = parse_server_info(message.clone());
    assert_eq!(back.process_id, "77");
    assert_eq!(back.backend_selected, "apple");
    assert_eq!(back.apple_runtime, Some("containerization".to_string()));
    assert_eq!(back.apple_helper_argv.len(), 2);
    message.apple_runtime = String::new();
    assert_eq!(parse_server_info(message).apple_runtime, None);
}

#[test]
fn long_times_are_cut_to_their_message() {
    let message = into_proto_metrics(MetricsSnapshot {
        creates: 4,
        destroys: 3,
        execs: 2,
        exec_failures: 1,
        p50_exec_ms: 50,
        p95_exec_ms: (1u128 << 64) + 95,
    });
    assert_eq!((message.creates, message.destroys), (4, 3));
    assert_eq!((message.execs, message.exec_failures), (2, 1));
    assert_eq!((message.p50_exec_ms, message.p95_exec_ms), (50, 95));
}

#[test]
fn reported_configurations_keep_their_blanks() {
    let read = parse_reported_config(into_proto_config(config())).expect("a configuration");
    assert_eq!(read.template, "go:1.22");
    assert_eq!(read.affinity_name, Some("work".to_string()));

    let mut message = into_proto_config(config());
    message.template = String::new();
    message.memory_mb = 0;
    message.vcpu_count = 258;
    let read = parse_reported_config(message).expect("a configuration");
    assert_eq!(read.template, "");
    assert_eq!((read.memory_mb, read.vcpu_count), (0, 2));

    let mut message = into_proto_config(config());
    message.network_allowlist = vec!["*.".to_string()];
    assert!(parse_reported_config(message).is_err());
}
