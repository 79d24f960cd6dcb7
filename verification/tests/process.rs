//! Sandboxes, processes, and what they may become.

use hyperbox::model::{ExecOutcome, ExecRequest, SandboxId};
use hyperbox::process::{
    ExecStatus, ExecTrace, ProcessDisposition, ProcessId, ProcessInfo, ProcessStatus,
};
use hyperbox::server::managed::{
    cancel_script, inspect_script, parse_process_probe, process_launch_command, process_stderr_path,
    process_stdout_path, process_ttl_days, process_wait_poll_interval,
};
use hyperbox::time::Timestamp;

fn now() -> Timestamp {
    let t = chrono::Utc::now();
    Timestamp::new(t.timestamp(), t.timestamp_subsec_nanos()).expect("a time of the calendar")
}

fn process(status: ProcessStatus, command: &[&str]) -> ProcessInfo {
    let id = ProcessId::new();
    ProcessInfo {
        id,
        sandbox_id: SandboxId::new(),
        requested_sandbox_id: None,
        disposition: ProcessDisposition::ReusedExisting,
        destroy_sandbox_on_expiry: false,
        command: command.iter().map(|word| word.to_string()).collect(),
        status,
        stdout_path: process_stdout_path(&id),
        stderr_path: process_stderr_path(&id),
        backend_pid: None,
        exit_code: None,
        started_at: now(),
        finished_at: None,
        expires_at: None,
    }
}

#[test]
fn sandbox_id_default_generates_id() {
    let id = SandboxId::default();
    assert_ne!(id.0, uuid::Uuid::nil().as_u128());
}

#[test]
fn maps_nonzero_exit() {
    let trace = ExecTrace::from_outcome(
        ExecRequest {
            command: vec!["false".to_string()],
            timeout_secs: 1,
        },
        ExecOutcome {
            exit_code: 1,
            stdout: String::new(),
            stderr: String::new(),
            duration_ms: 1,
        },
    );

    assert!(matches!(trace.status, ExecStatus::NonZeroExit));
}

#[test]
fn process_status_terminal_and_transition_rules() {
    assert!(ProcessStatus::Succeeded.is_terminal());
    assert!(!ProcessStatus::Running.is_terminal());
    assert!(ProcessStatus::Starting.can_transition_to(ProcessStatus::Running));
    assert!(!ProcessStatus::Succeeded.can_transition_to(ProcessStatus::Running));
}

#[test]
fn running_process_is_not_terminal() {
    let process = ProcessInfo {
        id: ProcessId::new(),
        sandbox_id: SandboxId::new(),
        requested_sandbox_id: None,
        disposition: ProcessDisposition::CreatedNew,
        destroy_sandbox_on_expiry: false,
        command: vec!["python".to_string(), "train.py".to_string()],
        status: ProcessStatus::Running,
        stdout_path: ".hyperbox/processes/stdout.log".to_string(),
        stderr_path: ".hyperbox/processes/stderr.log".to_string(),
        backend_pid: Some(123),
        exit_code: None,
        started_at: now(),
        finished_at: None,
        expires_at: None,
    };

    assert!(!process.status.is_terminal());
}

#[test]
fn disallows_terminal_to_running_transition() {
    assert!(!ProcessStatus::Succeeded.can_transition_to(ProcessStatus::Running));
    assert!(ProcessStatus::Starting.can_transition_to(ProcessStatus::Running));
}

#[test]
fn process_launch_command_sets_up_logs_inline() {
    let process = process(ProcessStatus::Starting, &["/bin/sh", "-lc", "printf ok"]);

    let launch = process_launch_command(&process).expect("build launch command");
    assert!(launch.contains("mkdir -p"));
    assert!(launch.contains("nohup /bin/sh -lc"));
    assert!(launch.contains("stdout.log"));
    assert!(launch.contains("stderr.log"));
    assert!(launch.contains("exit_code"));
    assert!(!launch.contains("launch.sh"));
}

#[test]
fn process_probe_scripts_use_shell_builtins_for_metadata_reads() {
    let mut process = process(ProcessStatus::Running, &["sleep", "1"]);
    process.backend_pid = Some(42);

    let inspect = inspect_script(&process);
    assert!(inspect.contains("read -r code"));
    assert!(inspect.contains("read -r pid"));
    assert!(!inspect.contains("cat \"$base/exit_code\""));
    assert!(!inspect.contains("cat \"$base/pid\""));

    let cancel = cancel_script(&process);
    assert!(cancel.contains("read -r pid"));
    assert!(!cancel.contains("cat \"$pid_file\""));
}

#[test]
fn lost_probe_stays_non_terminal_within_grace_period() {
    let now = now();
    let mut process = process(ProcessStatus::Running, &["sleep", "1"]);
    process.stdout_path = "stdout.log".to_string();
    process.stderr_path = "stderr.log".to_string();
    process.backend_pid = Some(123);
    process.started_at = Timestamp::new(now.secs() - 2, now.nanos()).expect("two seconds ago");

    let parsed = parse_process_probe(&process, "lost", now, 7).expect("parse lost probe");
    assert_eq!(parsed.status, ProcessStatus::Starting);
    assert!(parsed.finished_at.is_none());
}

#[test]
fn wait_process_polls_more_aggressively_for_short_lived_work() {
    assert_eq!(process_wait_poll_interval(0), 25);
    assert_eq!(process_wait_poll_interval(999), 25);
    assert_eq!(process_wait_poll_interval(1000), 100);
}

#[test]
fn processes_are_kept_for_days() {
    assert_eq!(process_ttl_days(None), 7);
    assert_eq!(process_ttl_days(Some("3")), 3);
    assert_eq!(process_ttl_days(Some("0")), 7);
    assert_eq!(process_ttl_days(Some("-3")), 7);
    assert_eq!(process_ttl_days(Some("soon")), 7);
}
