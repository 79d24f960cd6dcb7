//! The commands of the program.

use hyperbox::agent::shell::ShellEvent;
use hyperbox::cli::bench::{
    bench_affinity_name, BenchEffect, BenchOrder, BenchReply, BenchRun, BenchStep, BenchTally,
    ExecTally, SnapshotBench,
};
use hyperbox::cli::fault::{parse_process_id, parse_sandbox_id, parse_snapshot_id, Fault};
use hyperbox::cli::logs::{
    FollowStep, LogEffect, LogReply, LogStep, ReadLogAll, StreamLogs, CHUNK_BYTES,
};
use hyperbox::cli::plan::{
    plan_create, plan_existing_run, plan_new_run, resolve_profile_config_path, CreateArgs, RunArgs,
};
use hyperbox::cli::policy::{
    build_effective_isolation_summary, build_explain_details, check_run_target, check_shell_target,
    needs_profile_file, resolve_network_policy, NetworkArg, ProfileConfigFile, ProfileDefinition,
    ResolvedNetworkPolicy, ServerInfo,
};
use hyperbox::cli::proxy::{Proxy, ProxyEffect, ProxyReply, ProxyRequest, ProxyResponse, ProxyStep};
use hyperbox::cli::render::{
    isolation_report, list_fault, process_line, process_row, process_start_lines, restore_tip,
    result_report, sandbox_row, shell_tip, snapshot_row, snapshot_tip, template_line,
    ProcessInfoResponse,
};
use hyperbox::cli::session::{
    parse_writes, process_outcome, start_notices, ConnectClient, LinkEffect, LinkReply, LinkStep,
    RunEffect, RunEnd, RunManner, RunOrder, RunReply, RunSession, RunStep,
};
use hyperbox::cli::setup::{
    check_setup_host, check_shasum, installer_name, GitHubAsset, GitHubRelease, Setup, SetupEvent,
    SetupStep,
};
use hyperbox::cli::shell::{
    show_event, OpenEffect, OpenReply, OpenShell, OpenStep, ShellCmdStep, ShellCommand, ShellEffect,
    ShellOrder, ShellReply, ShellShow,
};
use hyperbox::cli::snapshots::{
    destroy_target, RunSnapshot, SandboxTarget, SnapshotCommand, SnapshotEffect, SnapshotEnd,
    SnapshotReply, SnapshotStep,
};
use hyperbox::apple::capabilities::detect_macos_capabilities;
use hyperbox::cli::logs::ProcessLogs;
use hyperbox::config::{Allowlist, NetworkMode, SandboxConfig};
use hyperbox::model::{ExecOutcome, SandboxId, SandboxInfo, SandboxState};
use hyperbox::process::{
    ProcessDisposition, ProcessId, ProcessInfo, ProcessLogRead, ProcessStatus, StreamName,
};
use hyperbox::server::run::StartedRun;
use hyperbox::snapshot::{SnapshotId, SnapshotMetadata};
use hyperbox::time::Timestamp;

fn at(secs: i64) -> Timestamp {
    Timestamp::new(1_767_225_600 + secs, 0).expect("a time of the calendar")
}

fn info(id: u128) -> SandboxInfo {
    SandboxInfo {
        id: SandboxId(id),
        template: "python:3.12".to_string(),
        state: SandboxState::Ready,
        created_at: at(0),
    }
}

fn process(status: ProcessStatus) -> ProcessInfo {
    ProcessInfo {
        id: ProcessId(7),
        sandbox_id: SandboxId(8),
        requested_sandbox_id: None,
        disposition: ProcessDisposition::CreatedNew,
        destroy_sandbox_on_expiry: false,
        command: vec!["echo".to_string(), "hi".to_string()],
        status,
        stdout_path: String::new(),
        stderr_path: String::new(),
        backend_pid: None,
        exit_code: Some(3),
        started_at: at(0),
        finished_at: Some(at(2)),
        expires_at: None,
    }
}

fn started() -> StartedRun {
    StartedRun {
        process: process(ProcessStatus::Running),
        sandbox: info(8),
        session_name: Some("auto-x".to_string()),
        session_created: true,
    }
}

fn server(backend: &str) -> ServerInfo {
    ServerInfo {
        server_version: "x".to_string(),
        process_id: "1".to_string(),
        executable_path: "/tmp/hyperbox".to_string(),
        started_at: "2026-01-01T00:00:00Z".to_string(),
        backend_requested: "auto".to_string(),
        backend_selected: backend.to_string(),
        backend_reason: "selected via auto".to_string(),
        apple_runtime: None,
        apple_helper_argv: vec![],
    }
}

fn failed(text: &str) -> Fault {
    Fault::new(text.to_string())
}

fn outcome(exit_code: i32, stderr: &str) -> ExecOutcome {
    ExecOutcome {
        exit_code,
        stdout: "out".to_string(),
        stderr: stderr.to_string(),
        duration_ms: 5,
    }
}

fn policy(network_mode: NetworkMode) -> ResolvedNetworkPolicy {
    ResolvedNetworkPolicy {
        network_mode,
        profile_label: None,
    }
}

fn run_args() -> RunArgs {
    RunArgs {
        sandbox_id: None,
        name: None,
        cmd: "true".to_string(),
        timeout: 9,
        workspace: None,
        ensure: vec![],
        writes: vec!["a=1".to_string()],
        reads: vec!["a".to_string()],
        json: false,
        ephemeral: false,
        detach: false,
    }
}

#[test]
fn identifiers_on_the_command_line_are_read() {
    let text = SandboxId(5).text();
    assert_eq!(parse_sandbox_id(&text), Ok(SandboxId(5)));
    assert_eq!(parse_process_id(&text), Ok(ProcessId(5)));
    assert_eq!(parse_snapshot_id(&text), Ok(SnapshotId(5)));
    let fault = parse_snapshot_id("x").unwrap_err();
    assert_eq!(fault.message, "invalid snapshot id `x`: expected UUID");
    assert_eq!(
        fault.cause,
        Some(uuid::Uuid::parse_str("x").unwrap_err().to_string())
    );
}

#[test]
fn a_server_is_started_only_at_the_usual_place() {
    let (machine, step) = ConnectClient::begin(Some("http://other:1".to_string()), true);
    assert!(matches!(step, LinkStep::Ask(LinkEffect::Connect(u)) if u == "http://other:1"));
    let (machine, step) = machine.resume(LinkReply::Failed(failed("no")));
    assert!(matches!(step, LinkStep::Ask(LinkEffect::Connect(_))));
    match machine.resume(LinkReply::Failed(failed("no"))).1 {
        LinkStep::Done(Err(fault)) => {
            assert_eq!(
                fault.message,
                "failed to connect to hyperbox control plane at http://other:1"
            );
            assert_eq!(fault.cause.as_deref(), Some("no"));
        }
        other => panic!("{other:?}"),
    }

    let (mut machine, mut step) = ConnectClient::begin(None, true);
    let mut tries = 0;
    let mut spawned = 0;
    loop {
        let reply = match step {
            LinkStep::Ask(LinkEffect::Connect(url)) => {
                assert_eq!(url, "http://127.0.0.1:50051");
                tries += 1;
                LinkReply::Failed(failed("no"))
            }
            LinkStep::Ask(LinkEffect::SpawnServer) => {
                spawned += 1;
                LinkReply::Unit
            }
            LinkStep::Ask(LinkEffect::Pause(ms)) => {
                assert_eq!(ms, 150);
                LinkReply::Unit
            }
            LinkStep::Done(result) => {
                assert!(result.is_err());
                break;
            }
            LinkStep::Stray => panic!("the way got the wrong reply"),
        };
        (machine, step) = machine.resume(reply);
    }
    assert_eq!((tries, spawned), (22, 1));
}

#[test]
fn files_to_write_are_read_from_flags() {
    let writes = parse_writes(&vec!["a=b=c".to_string(), "d=".to_string()]).expect("writes");
    assert_eq!(
        writes,
        vec![("a".to_string(), b"b=c".to_vec()), ("d".to_string(), vec![])]
    );
    assert_eq!(
        parse_writes(&vec!["a".to_string()]).unwrap_err().message,
        "invalid --write value, expected PATH=CONTENT"
    );
}

#[test]
fn outcomes_are_those_of_the_process() {
    let logs = ProcessLogs {
        stdout: "o".to_string(),
        stderr: "e".to_string(),
    };
    let done = process_outcome(&process(ProcessStatus::Failed), logs, 99);
    assert_eq!((done.exit_code, done.duration_ms), (3, 2000));
    let mut unfinished = process(ProcessStatus::Lost);
    unfinished.exit_code = None;
    unfinished.finished_at = None;
    let logs = ProcessLogs {
        stdout: String::new(),
        stderr: String::new(),
    };
    let done = process_outcome(&unfinished, logs, 99);
    assert_eq!((done.exit_code, done.duration_ms), (1, 99));
}

#[test]
fn runs_tell_where_they_take_place() {
    let mut run = started();
    assert_eq!(
        start_notices(&run),
        vec!["session: started `auto-x` (reused automatically on next `run`; use --ephemeral for one-off)"]
    );
    run.session_created = false;
    run.process.disposition = ProcessDisposition::CreatedDueToBusy;
    assert_eq!(
        start_notices(&run),
        vec![
            "session: reusing `auto-x` (use --ephemeral for one-off)".to_string(),
            format!(
                "requested sandbox was busy; created a new sandbox {} for this run",
                SandboxId(8).text()
            )
        ]
    );
}

fn order() -> RunOrder {
    RunOrder {
        sandbox_id: None,
        affinity_name: None,
        create_config: None,
        reuse_auto_session: false,
        ensure_commands: vec![],
        cmd: "true".to_string(),
        writes: vec![],
    }
}

fn manner(detach: bool, destroy: bool) -> RunManner {
    RunManner {
        timeout: 9,
        reads: vec!["a".to_string()],
        json: false,
        detach,
        destroy_after_wait: destroy,
    }
}

fn run(detach: bool, destroy: bool) -> (Vec<&'static str>, Result<RunEnd, Fault>) {
    let (mut machine, mut step) = RunSession::begin(order(), manner(detach, destroy));
    let mut asked = vec![];
    loop {
        let (name, reply) = match step {
            RunStep::Done(result) => return (asked, result),
            RunStep::Stray => panic!("the run got the wrong reply"),
            RunStep::Ask(RunEffect::StartRun(q)) => {
                assert_eq!(q.destroy_sandbox_on_expiry, detach);
                ("start", RunReply::Started(started()))
            }
            RunStep::Ask(RunEffect::Notify(lines)) => {
                assert_eq!(lines.len(), 1);
                ("notify", RunReply::Unit)
            }
            RunStep::Ask(RunEffect::WaitOutcome(_, 9, false)) => {
                ("wait", RunReply::Outcome(outcome(4, "")))
            }
            RunStep::Ask(RunEffect::ReadFile(_, _)) => ("read", RunReply::Bytes(b"x".to_vec())),
            RunStep::Ask(RunEffect::Report(o, files)) => {
                assert_eq!(o.exit_code, 4);
                assert_eq!(files, vec![("a".to_string(), "x".to_string())]);
                ("report", RunReply::Unit)
            }
            RunStep::Ask(RunEffect::DestroySandbox(id)) => {
                assert_eq!(id, SandboxId(8));
                ("destroy", RunReply::Unit)
            }
            RunStep::Ask(other) => panic!("{other:?}"),
        };
        asked.push(name);
        (machine, step) = machine.resume(reply);
    }
}

#[test]
fn runs_end_with_the_exit_code_of_their_process() {
    let (asked, end) = run(false, false);
    assert_eq!(asked, ["start", "notify", "wait", "read", "report"]);
    assert!(matches!(end, Ok(RunEnd::Exited(4))));
    let (asked, end) = run(false, true);
    assert_eq!(asked.last(), Some(&"destroy"));
    assert!(matches!(end, Ok(RunEnd::Exited(4))));
    let (asked, end) = run(true, false);
    assert_eq!(asked, ["start", "notify"]);
    assert!(matches!(end, Ok(RunEnd::Detached(p)) if p.id == ProcessId(7)));
}

#[test]
fn runs_are_planned_from_their_flags() {
    let plan = plan_new_run(run_args(), policy(NetworkMode::NoNetwork), "go:1.22".to_string(), None);
    assert_eq!(plan.summary.writable_paths, vec!["<ephemeral sandbox workspace>", "a"]);
    assert_eq!((plan.summary.backend.as_str(), plan.summary.timeout_secs), ("unknown", 9));
    let (order, manner) = plan.run.expect("a run");
    assert!(order.reuse_auto_session && !manner.destroy_after_wait);
    let config = order.create_config.expect("a configuration");
    assert_eq!((config.template.as_str(), config.timeout_secs), ("go:1.22", 9));

    let mut args = run_args();
    args.ephemeral = true;
    let plan = plan_new_run(args, policy(NetworkMode::Full), "go:1.22".to_string(), None);
    let (order, manner) = plan.run.expect("a run");
    assert!(!order.reuse_auto_session && manner.destroy_after_wait);

    let mut args = run_args();
    args.sandbox_id = Some(SandboxId(5).text());
    let plan = plan_existing_run(args, None).expect("a plan");
    assert_eq!(plan.summary.writable_paths, vec!["<existing sandbox workspace>", "a"]);
    let (order, _) = plan.run.expect("a run");
    assert_eq!(order.sandbox_id, Some(SandboxId(5)));
    assert!(order.create_config.is_none() && !order.reuse_auto_session);

    let mut args = run_args();
    args.sandbox_id = Some("x".to_string());
    assert_eq!(
        plan_existing_run(args, None).unwrap_err().message,
        "invalid sandbox id `x`: expected UUID"
    );
    let mut args = run_args();
    args.name = Some("work".to_string());
    let (order, _) = plan_existing_run(args, None).expect("a plan").run.expect("a run");
    assert_eq!(order.affinity_name.as_deref(), Some("work"));
}

#[test]
fn networks_that_nobody_sees_to_are_refused_after_the_summary() {
    let list = || NetworkMode::Allowlist(Allowlist::parse(&["a.org".to_string()]).expect("a list"));
    let apple = server("apple");
    let plan = plan_new_run(run_args(), policy(list()), "go:1.22".to_string(), Some(&apple));
    assert_eq!(plan.summary.network_enforcement, "unsupported");
    assert!(plan.run.is_err());
    let args = CreateArgs {
        name: Some("work".to_string()),
        timeout: 3,
        memory_mb: 128,
        vcpu_count: 2,
        workspace: Some("/w".to_string()),
    };
    let plan = plan_create(args, policy(NetworkMode::Full), "go:1.22".to_string(), Some(&apple));
    assert_eq!(plan.summary.writable_paths, vec!["/w"]);
    let config = plan.config.expect("a configuration");
    assert_eq!(config.affinity_name.as_deref(), Some("work"));
    assert_eq!((config.memory_mb, config.vcpu_count), (128, 2));
}

#[test]
fn flags_for_new_sandboxes_do_not_go_with_old_ones() {
    assert!(check_run_target(true, false, false, false, false, false).is_ok());
    assert!(check_run_target(false, true, true, true, true, true).is_ok());
    assert!(check_run_target(true, false, false, false, false, true).is_err());
    assert!(check_shell_target(true, false, false, true, false).is_err());
    assert!(check_shell_target(false, false, false, true, false).is_ok());
}

#[test]
fn profiles_come_from_a_file() {
    assert!(!needs_profile_file(Some("WEB")));
    assert!(needs_profile_file(Some("team")));
    assert!(!needs_profile_file(None));
    let file = ProfileConfigFile {
        path: "/p.toml".to_string(),
        profiles: vec![(
            "team".to_string(),
            ProfileDefinition {
                network: "allowlist".to_string(),
                allow: vec!["pypi.org".to_string()],
            },
        )],
    };
    let resolved = resolve_network_policy(Some("team"), None, vec![], Some(&file)).expect("a policy");
    match resolved.network_mode {
        NetworkMode::Allowlist(list) => assert_eq!(list.to_strings(), vec!["pypi.org"]),
        other => panic!("{other:?}"),
    }
    let resolved = resolve_network_policy(Some("team"), Some(NetworkArg::NoNetwork), vec![], Some(&file));
    assert!(matches!(resolved.expect("a policy").network_mode, NetworkMode::NoNetwork));
    assert!(resolve_network_policy(Some("odd"), None, vec![], Some(&file)).is_err());
    let home = Some("/home/u".to_string());
    assert_eq!(
        resolve_profile_config_path(None, home.clone()),
        Ok("/home/u/.hyperbox/profiles.toml".to_string())
    );
    assert_eq!(
        resolve_profile_config_path(Some("/p.toml".to_string()), home),
        Ok("/p.toml".to_string())
    );
    assert_eq!(
        resolve_profile_config_path(None, None).unwrap_err().message,
        "resolve HOME for default profile config path"
    );
}

#[test]
fn isolation_is_told_line_by_line() {
    let local = server("local");
    let summary = build_effective_isolation_summary(
        Some(&local),
        Some(&NetworkMode::Full),
        None,
        vec!["/w".to_string(), "a".to_string()],
        0,
    );
    let reason = summary.network_reason.clone().expect("a reason");
    let details = build_explain_details(&local);
    let lines = isolation_report(&summary, Some(&details));
    assert_eq!(
        lines,
        vec![
            "effective isolation:".to_string(),
            "  backend: local (host)".to_string(),
            "  profile: full".to_string(),
            "  network: full [not_enforced]".to_string(),
            format!("  network_reason: {reason}"),
            "  writable: /w, a".to_string(),
            "explain:".to_string(),
            "  backend_requested: auto".to_string(),
            "  backend_selected: local".to_string(),
            "  backend_reason: selected via auto".to_string(),
        ]
    );
    let summary = build_effective_isolation_summary(None, None, Some("team"), vec![], 7);
    let lines = isolation_report(&summary, None);
    assert_eq!(lines.last().map(|l| l.as_str()), Some("  timeout_secs: 7"));
    assert_eq!(lines[2], "  profile: team");
}

#[test]
fn results_are_shown() {
    let files = vec![
        ("a".to_string(), "x".to_string()),
        ("b".to_string(), "y\n".to_string()),
    ];
    let shown = result_report(&outcome(0, ""), &files, true);
    assert_eq!((shown.out.as_str(), shown.err.as_str()), ("--- a ---\nx\n--- b ---\ny\n", ""));
    let shown = result_report(&outcome(127, "sh: pytest: Not Found"), &vec![], false);
    assert_eq!(shown.out, "out");
    assert!(shown.err.starts_with("sh: pytest: Not Foundtip: install missing tools"));
    let shown = result_report(&outcome(1, "not found"), &vec![], false);
    assert_eq!(shown.err, "not found");
}

#[test]
fn rows_and_lines_are_shown() {
    let p = process(ProcessStatus::Failed);
    let (id, sandbox) = (ProcessId(7).text(), SandboxId(8).text());
    assert_eq!(process_row(&p), format!("{id}  {sandbox}  failed  echo hi"));
    assert_eq!(process_line(&p), format!("{id} {sandbox} failed"));
    assert_eq!(
        process_start_lines(&p),
        vec![
            format!("process_id: {id}"),
            format!("sandbox_id: {sandbox}"),
            "disposition: creatednew".to_string()
        ]
    );
    let texts = ProcessInfoResponse::of(&p);
    assert_eq!((texts.status.as_str(), texts.exit_code), ("failed", Some(3)));
    assert_eq!(texts.finished_at.as_deref(), Some("2026-01-01T00:00:02+00:00"));
    assert_eq!(texts.expires_at, None);
    assert_eq!(
        sandbox_row(&info(8), &None),
        format!("{sandbox}\t-\tpython:3.12\tready\t2026-01-01T00:00:00+00:00")
    );
    let snapshot = SnapshotMetadata {
        id: SnapshotId(7),
        sandbox_id: SandboxId(8),
        affinity_name: Some("work".to_string()),
        template: "go:1.22".to_string(),
        config: SandboxConfig::default(),
        created_at: at(0),
        note: None,
    };
    assert_eq!(
        snapshot_row(&snapshot),
        format!("{id}\tgo:1.22\twork\t2026-01-01T00:00:00+00:00")
    );
    assert!(snapshot_tip(SandboxId(8)).ends_with(&format!("--sandbox-id {sandbox}`")));
    assert!(restore_tip(SnapshotId(7)).ends_with(&format!("--snapshot-id {id}`")));
    assert!(shell_tip(SandboxId(8)).ends_with(&format!("--sandbox-id {sandbox}`")));
    assert_eq!(template_line("go:1.22", "explicit"), "template: auto-selected `go:1.22` (explicit)");
    assert_eq!(list_fault(failed("odd")), failed("odd"));
    assert!(list_fault(failed("status: Unimplemented")).message.contains("stale daemon"));
}

fn chunk(stream: StreamName, offset: u64, text: &str, eof: bool) -> LogReply {
    LogReply::Chunk(ProcessLogRead {
        stream,
        offset,
        next_offset: offset + text.len() as u64,
        eof,
        contents: text.to_string(),
    })
}

#[test]
fn whole_logs_are_read() {
    let (machine, step) = ReadLogAll::begin(ProcessId(7), StreamName::Stdout);
    assert!(matches!(step, LogStep::Ask(LogEffect::Read(_, StreamName::Stdout, 0, CHUNK_BYTES))));
    let (machine, step) = machine.resume(chunk(StreamName::Stdout, 0, "ab", false));
    assert!(matches!(step, LogStep::Ask(LogEffect::Read(_, _, 2, _))));
    match machine.resume(chunk(StreamName::Stdout, 2, "c", true)).1 {
        LogStep::Done(Ok(text)) => assert_eq!(text, "abc"),
        other => panic!("{other:?}"),
    }
}

#[test]
fn followed_logs_are_shown_once() {
    let mut shown = (String::new(), String::new());
    let mut take = |step: &FollowStep| match &step.shown {
        Some((StreamName::Stdout, text)) => shown.0.push_str(text),
        Some((StreamName::Stderr, text)) => shown.1.push_str(text),
        None => {}
    };
    let (mut machine, mut step) = StreamLogs::begin(ProcessId(7), true);
    let (out, err) = ("hello", "oops");
    let mut rounds = 0;
    let logs = loop {
        take(&step);
        let reply = match step.ask {
            LogStep::Done(result) => break result.expect("the logs"),
            LogStep::Stray => panic!("the logs got the wrong reply"),
            LogStep::Ask(LogEffect::Read(_, stream, offset, _)) => {
                let text = if stream == StreamName::Stdout { out } else { err };
                let from = offset as usize;
                let to = (from + 3).min(text.len());
                chunk(stream, offset, &text[from..to], to == text.len())
            }
            LogStep::Ask(LogEffect::Status(_)) => {
                rounds += 1;
                let status = if rounds > 3 { ProcessStatus::Succeeded } else { ProcessStatus::Running };
                LogReply::Process(process(status))
            }
            LogStep::Ask(LogEffect::Pause(_)) => LogReply::Unit,
        };
        (machine, step) = machine.resume(reply);
    };
    assert_eq!((logs.stdout.as_str(), logs.stderr.as_str()), (out, err));
    assert_eq!((shown.0.as_str(), shown.1.as_str()), (out, err));
}

#[test]
fn both_streams_are_followed_from_their_first_byte() {
    let (machine, step) = StreamLogs::begin(ProcessId(7), false);
    assert!(matches!(step.ask, LogStep::Ask(LogEffect::Read(_, StreamName::Stdout, 0, CHUNK_BYTES))));
    let (machine, step) = machine.resume(chunk(StreamName::Stdout, 0, "", false));
    assert!(matches!(step.ask, LogStep::Ask(LogEffect::Read(_, StreamName::Stderr, 0, CHUNK_BYTES))));
    let (machine, _) = machine.resume(chunk(StreamName::Stderr, 0, "oops", false));
    let (machine, _) = machine.resume(LogReply::Process(process(ProcessStatus::Running)));
    let (machine, step) = machine.resume(LogReply::Unit);
    assert!(matches!(step.ask, LogStep::Ask(LogEffect::Read(_, StreamName::Stdout, 0, _))));
    let (machine, step) = machine.resume(chunk(StreamName::Stdout, 0, "hi", true));
    assert!(matches!(step.ask, LogStep::Ask(LogEffect::Read(_, StreamName::Stderr, 4, _))));
    let (machine, _) = machine.resume(chunk(StreamName::Stderr, 4, "", true));
    match machine.resume(LogReply::Process(process(ProcessStatus::Succeeded))).1.ask {
        LogStep::Done(Ok(logs)) => assert_eq!((logs.stdout.as_str(), logs.stderr.as_str()), ("hi", "oops")),
        other => panic!("{other:?}"),
    }
}

#[test]
fn snapshots_are_commanded() {
    let (machine, step) = RunSnapshot::begin(SnapshotCommand::Create {
        sandbox_id: None,
        name: Some("work".to_string()),
        note: None,
    });
    assert!(matches!(step, SnapshotStep::Ask(SnapshotEffect::ResolveAffinity(n)) if n == "work"));
    let (machine, step) = machine.resume(SnapshotReply::Sandbox(info(8)));
    assert!(matches!(step, SnapshotStep::Ask(SnapshotEffect::Create(SandboxId(8), None))));
    let (_, step) = machine.resume(SnapshotReply::Created(SnapshotId(7), "now".to_string()));
    assert!(matches!(
        step,
        SnapshotStep::Done(Ok(SnapshotEnd::Created { snapshot_id: SnapshotId(7), .. }))
    ));
    let (_, step) = RunSnapshot::begin(SnapshotCommand::Create {
        sandbox_id: None,
        name: None,
        note: None,
    });
    match step {
        SnapshotStep::Done(Err(f)) => {
            assert_eq!(f.message, "snapshot create requires either --sandbox-id or --name")
        }
        other => panic!("{other:?}"),
    }
    let (_, step) = RunSnapshot::begin(SnapshotCommand::List { template: None });
    assert!(matches!(step, SnapshotStep::Ask(SnapshotEffect::List(t)) if t == "python:3.12"));
    let (_, step) = RunSnapshot::begin(SnapshotCommand::Restore {
        snapshot_id: "x".to_string(),
    });
    assert!(matches!(step, SnapshotStep::Done(Err(_))));
    assert!(matches!(
        destroy_target(None, Some("work".to_string())),
        Ok(SandboxTarget::Named(n)) if n == "work"
    ));
    assert_eq!(
        destroy_target(None, None).err().map(|f| f.message).as_deref(),
        Some("destroy requires either --sandbox-id or --name")
    );
}

#[test]
fn shells_in_brief_sandboxes_take_them_along() {
    let order = ShellOrder {
        sandbox_id: None,
        affinity_name: None,
        template: "auto".to_string(),
        workspace: None,
        network: NetworkMode::NoNetwork,
        profile: None,
    };
    let (mut machine, mut step) = ShellCommand::begin(order, None);
    let mut destroyed = false;
    let code = loop {
        let reply = match step {
            ShellCmdStep::Done(result) => break result,
            ShellCmdStep::Stray => panic!("the shell got the wrong reply"),
            ShellCmdStep::Ask(ShellEffect::CurrentDir) => ShellReply::Dir("/here".to_string()),
            ShellCmdStep::Ask(ShellEffect::ResolveTemplate(t, dir)) => {
                assert_eq!((t.as_str(), dir.as_str()), ("auto", "/here"));
                ShellReply::Template("go:1.22".to_string())
            }
            ShellCmdStep::Ask(ShellEffect::Summarize(s)) => {
                assert_eq!(s.writable_paths, vec!["/here"]);
                ShellReply::Unit
            }
            ShellCmdStep::Ask(ShellEffect::CreateSandbox(c)) => {
                assert_eq!(c.workspace_dir.as_deref(), Some("/here"));
                ShellReply::Sandbox(info(8))
            }
            ShellCmdStep::Ask(ShellEffect::Open(_)) => ShellReply::Failed(failed("no shell")),
            ShellCmdStep::Ask(ShellEffect::DestroySandbox(id)) => {
                assert_eq!(id, SandboxId(8));
                destroyed = true;
                ShellReply::Unit
            }
            ShellCmdStep::Ask(other) => panic!("{other:?}"),
        };
        (machine, step) = machine.resume(reply, None);
    };
    assert!(destroyed);
    assert_eq!(code.unwrap_err().message, "no shell");
}

#[test]
fn shells_in_old_sandboxes_leave_them() {
    let order = ShellOrder {
        sandbox_id: Some(SandboxId(5).text()),
        affinity_name: None,
        template: "auto".to_string(),
        workspace: None,
        network: NetworkMode::NoNetwork,
        profile: None,
    };
    let (machine, step) = ShellCommand::begin(order, None);
    assert!(matches!(step, ShellCmdStep::Ask(ShellEffect::Summarize(_))));
    let (machine, step) = machine.resume(ShellReply::Unit, None);
    assert!(matches!(step, ShellCmdStep::Ask(ShellEffect::Open(SandboxId(5)))));
    let (_, step) = machine.resume(ShellReply::Exited(3), None);
    assert!(matches!(step, ShellCmdStep::Done(Ok(3))));
}

#[test]
fn shells_are_opened_by_the_backend_of_the_server() {
    let (machine, _) = OpenShell::begin(SandboxId(5), "/bin/bash", true);
    let (machine, step) = machine.resume(OpenReply::Unit);
    assert!(matches!(step, OpenStep::Ask(OpenEffect::ServerInfo)));
    let (machine, step) = machine.resume(OpenReply::Info(server("firecracker")));
    assert!(matches!(step, OpenStep::Ask(OpenEffect::AgentStream(SandboxId(5), s)) if s == "/bin/bash"));
    assert!(matches!(machine.resume(OpenReply::Exited(None)).1, OpenStep::Done(Ok(1))));

    let (machine, _) = OpenShell::begin(SandboxId(5), "/bin/bash", true);
    let (machine, _) = machine.resume(OpenReply::Unit);
    let (machine, step) = machine.resume(OpenReply::Info(server("local")));
    assert!(matches!(step, OpenStep::Ask(OpenEffect::Probe(SandboxId(5), _))));
    let (_, step) = machine.resume(OpenReply::Probed(0, "/work\n".to_string(), String::new()));
    match step {
        OpenStep::Ask(OpenEffect::Launch(launch)) => {
            assert_eq!(launch.program, "/bin/bash");
            assert_eq!(launch.working_dir.as_deref(), Some("/work"));
        }
        other => panic!("{other:?}"),
    }

    let (machine, _) = OpenShell::begin(SandboxId(5), "/bin/bash", true);
    let (machine, _) = machine.resume(OpenReply::Unit);
    match machine.resume(OpenReply::Info(server("odd"))).1 {
        OpenStep::Done(Err(f)) => {
            assert_eq!(f.message, "interactive shell is not supported for backend `odd`")
        }
        other => panic!("{other:?}"),
    }
}

#[test]
fn proxies_answer_every_request() {
    let (mut machine, mut step) = Proxy::begin(SandboxConfig::default());
    let mut lines = vec!["read", "", "bad", "ping", "destroy"].into_iter();
    let mut answers = vec![];
    let mut destroyed = 0;
    loop {
        let reply = match step {
            ProxyStep::Done(result) => {
                assert!(result.is_ok());
                break;
            }
            ProxyStep::Stray => panic!("the proxy got the wrong reply"),
            ProxyStep::Ask(ProxyEffect::CreateSandbox(_)) => ProxyReply::Sandbox(info(8)),
            ProxyStep::Ask(ProxyEffect::Announce(said)) => {
                assert!(said[0].contains(&SandboxId(8).text()));
                ProxyReply::Unit
            }
            ProxyStep::Ask(ProxyEffect::NextLine) => {
                lines.next().map_or(ProxyReply::End, |l| ProxyReply::Line(l.to_string()))
            }
            ProxyStep::Ask(ProxyEffect::Parse(line)) => match line.as_str() {
                "read" => ProxyReply::Request(ProxyRequest::Read { path: "a".to_string() }),
                "ping" => ProxyReply::Request(ProxyRequest::Ping),
                "destroy" => ProxyReply::Request(ProxyRequest::Destroy),
                _ => ProxyReply::Malformed("odd".to_string()),
            },
            ProxyStep::Ask(ProxyEffect::ReadFile(_, _)) => ProxyReply::Bytes(b"x".to_vec()),
            ProxyStep::Ask(ProxyEffect::DestroySandbox(_)) => {
                destroyed += 1;
                ProxyReply::Unit
            }
            ProxyStep::Ask(ProxyEffect::Answer(response)) => {
                answers.push(response);
                ProxyReply::Unit
            }
            ProxyStep::Ask(other) => panic!("{other:?}"),
        };
        (machine, step) = machine.resume(reply);
    }
    assert_eq!(destroyed, 1);
    assert!(matches!(
        answers.as_slice(),
        [
            ProxyResponse::Read { .. },
            ProxyResponse::Error { .. },
            ProxyResponse::Pong,
            ProxyResponse::Destroy
        ]
    ));
    match &answers[1] {
        ProxyResponse::Error { message } => assert_eq!(message, "invalid request: odd"),
        other => panic!("{other:?}"),
    }
}

fn release(digest: Option<&str>) -> GitHubRelease {
    GitHubRelease {
        tag_name: "1.0".to_string(),
        assets: vec![GitHubAsset {
            name: "container-1.0-installer-signed.pkg".to_string(),
            browser_download_url: "https://example.invalid/pkg".to_string(),
            digest: digest.map(|d| d.to_string()),
        }],
    }
}

#[test]
fn installers_are_verified_before_they_run() {
    let caps = detect_macos_capabilities("macos", "aarch64", Some(b"26.1".to_vec()), false, true);
    assert!(check_setup_host("macos", &caps).is_ok());
    assert_eq!(
        check_setup_host("linux", &caps).unwrap_err(),
        "`hyperbox setup` currently supports macOS only"
    );
    let (machine, step) = Setup::begin("macos", &caps);
    assert!(matches!(step, SetupStep::LookForContainer));
    let (machine, step) = machine.resume(SetupEvent::ContainerFound(false));
    assert!(matches!(step, SetupStep::FetchRelease));
    let (machine, step) = machine.resume(SetupEvent::Release(release(Some("sha256:abc"))));
    assert!(matches!(step, SetupStep::Download { .. }));
    let (machine, step) = machine.resume(SetupEvent::Completed);
    assert!(matches!(step, SetupStep::Verify(sum) if sum == "abc"));
    match machine.resume(SetupEvent::Broke("mismatch".to_string())).1 {
        SetupStep::Failed(text) => assert_eq!(text, "mismatch"),
        other => panic!("{other:?}"),
    }
    assert!(check_shasum(b"abc  /p\n", "abc", "/p").is_ok());
    assert_eq!(
        check_shasum(b"abd  /p", "abc", "/p").unwrap_err(),
        "checksum mismatch: expected abc, got abd for /p"
    );
    assert_eq!(check_shasum(b"", "abc", "/p").unwrap_err(), "unexpected shasum output");
    assert_eq!(installer_name("1.0"), "container-1.0-installer-signed.pkg");
}

fn bench(verify: i32) -> (Vec<String>, Result<BenchRun, Fault>) {
    let order = BenchOrder {
        run: 1,
        affinity_name: "bench".to_string(),
        mutate_cmd: "mutate".to_string(),
        verify_cmd: "verify".to_string(),
        timeout_secs: 5,
        keep_snapshot_artifacts: false,
    };
    let (mut machine, mut step) = SnapshotBench::begin(order, SandboxConfig::default());
    let mut asked = vec![];
    let mut elapsed = 0;
    loop {
        let (effect, restart_clock) = match step {
            BenchStep::Done(result) => return (asked, result),
            BenchStep::Stray => panic!("the run got the wrong reply"),
            BenchStep::Ask { effect, restart_clock } => (effect, restart_clock),
        };
        if restart_clock {
            elapsed = 0;
        }
        elapsed += 10;
        let reply = match effect {
            BenchEffect::Create(c) => {
                assert_eq!(c.affinity_name.as_deref(), Some("bench"));
                asked.push("create".to_string());
                BenchReply::Sandbox(info(1))
            }
            BenchEffect::RunSync(id, cmd, 5) => {
                let code = if cmd == "verify" { verify } else { 0 };
                asked.push(format!("{cmd} {}", id.0));
                BenchReply::Ran(code, "bad".to_string())
            }
            BenchEffect::CreateSnapshot(_) => {
                asked.push("snapshot".to_string());
                BenchReply::Snapshot(SnapshotId(3))
            }
            BenchEffect::Destroy(id) => {
                asked.push(format!("destroy {}", id.0));
                BenchReply::Unit
            }
            BenchEffect::ResolveAffinity(name) => {
                asked.push(format!("resolve {name}"));
                BenchReply::Sandbox(info(2))
            }
            BenchEffect::RemoveArtifact(id) => {
                asked.push(format!("remove {}", id.0));
                BenchReply::Unit
            }
            other => panic!("{other:?}"),
        };
        (machine, step) = machine.resume(reply, elapsed);
    }
}

#[test]
fn measurements_go_through_their_stages() {
    let (asked, run) = bench(0);
    assert_eq!(
        asked,
        ["create", "mutate 1", "snapshot", "destroy 1", "resolve bench", "verify 2", "destroy 2", "remove 3"]
    );
    let run = run.expect("a run");
    assert_eq!((run.sandbox_id, run.restored_sandbox_id), (SandboxId(1), SandboxId(2)));
    assert_eq!((run.times.create_ms, run.times.restore_verify_ms), (10, 20));
    assert_eq!(run.times.total_ms(), 70);
    let mut tally = BenchTally::new(1);
    tally.take_up(0, run);
    tally.take_up(1, run);
    tally.take_up(2, run);
    assert_eq!(tally.kept.len(), 2);
    assert_eq!((tally.kept[0].run, tally.kept[1].run), (1, 2));
    assert!(tally.is_countable());
    let figures = tally.figures();
    assert_eq!((figures.total_ms.sum_ms, figures.total_ms.p50_ms), (140, 70));
    assert_eq!(figures.restore_verify_ms.max_ms, 20);
    let mut long = tally.kept[0];
    long.times.create_ms = u128::MAX;
    tally.take_up(3, long);
    assert!(!tally.is_countable());
}

#[test]
fn measurements_that_fail_leave_nothing() {
    let (asked, run) = bench(9);
    assert_eq!(asked[5..], ["verify 2", "destroy 2", "remove 3"]);
    assert_eq!(
        run.unwrap_err().message,
        format!(
            "snapshot benchmark verify command failed (run=1 sandbox_id={} exit=9): bad",
            SandboxId(2).text()
        )
    );
    let mut tally = ExecTally::new(2);
    for (place, ms) in [5u128, 6, 7, 8].into_iter().enumerate() {
        tally.take_up(place, ms);
    }
    assert_eq!(tally.samples, vec![7, 8]);
    assert_eq!(bench_affinity_name(0xab), "benchsnap-000000000000000000000000000000ab");
}

#[test]
fn errors_of_a_shell_are_lines() {
    let bytes = b"a".to_vec();
    assert_eq!(
        show_event(ShellEvent::Stdout(bytes.clone())),
        ShellShow::Stdout(bytes.clone())
    );
    assert_eq!(
        show_event(ShellEvent::Stderr(bytes.clone())),
        ShellShow::Stderr(bytes)
    );
    assert_eq!(
        show_event(ShellEvent::Error("no shell".to_string())),
        ShellShow::Stderr(b"no shell\n".to_vec())
    );
    assert_eq!(show_event(ShellEvent::ExitCode(3)), ShellShow::Exit(3));
}
