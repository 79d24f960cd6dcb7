//! The backend that runs commands on the host, and how a backend is chosen.

use hyperbox::apple::backend::AppleRuntimeKind;
use hyperbox::config::{Allowlist, NetworkMode, SandboxConfig};
use hyperbox::env::env_from_pairs;
use hyperbox::model::{ExecRequest, SandboxId, SandboxLease};
use hyperbox::server::backend_factory::{
    build_apple_config, build_firecracker_config, select_backend, split_words, AppleSettings,
    BackendKind, FirecrackerSettings, HostAbilities,
};
use hyperbox::server::local_backend::{
    judge_exec, network_setting, LocalBackend, LocalCreate, LocalEffect, LocalEnd, LocalReply,
    LocalStep,
};
use hyperbox::time::Timestamp;

fn create(
    backend: &mut LocalBackend,
    id: SandboxId,
    config: SandboxConfig,
    setting: Option<&str>,
) -> (Vec<LocalEffect>, Result<SandboxLease, String>) {
    let now = Timestamp::new(1_767_225_600, 0).expect("a time of the calendar");
    let setting = setting.map(|s| s.to_string());
    let (mut machine, mut step) = LocalCreate::begin(backend, id, now, config, &setting);
    let mut asked = vec![];
    loop {
        match step {
            LocalStep::Done(result) => return (asked, result.map_err(|e| e.message())),
            LocalStep::Ask(effect) => {
                let reply = match &effect {
                    LocalEffect::CurrentDir => LocalReply::Dir("/here".to_string()),
                    _ => LocalReply::Unit,
                };
                asked.push(effect);
                (machine, step) = machine.resume(reply, backend);
            }
            LocalStep::Stray => panic!("the backend got the wrong reply"),
        }
    }
}

#[test]
fn sandboxes_get_a_directory_of_their_own() {
    let mut backend = LocalBackend::new(Some("/root".to_string()), "/tmp");
    let id = SandboxId(1);
    let (_, lease) = create(&mut backend, id, SandboxConfig::default(), None);
    assert_eq!(lease.expect("a sandbox").id, id);
    let dir = backend.sandbox_workdir(id);
    assert_eq!(backend.file_path(id, "a.txt"), Ok(format!("{dir}/a.txt")));
    assert!(backend.inspect(id).is_ok());
    assert_eq!(backend.destroy(id), Ok(Some(dir)));
    assert_eq!(
        backend.destroy(id).unwrap_err().message(),
        format!("sandbox not found: {}", id.text())
    );
}

#[test]
fn given_directories_stay() {
    let mut backend = LocalBackend::new(None, "/tmp");
    let id = SandboxId(1);
    let config = SandboxConfig {
        workspace_dir: Some("/work".to_string()),
        ..SandboxConfig::default()
    };
    let (asked, lease) = create(&mut backend, id, config, None);
    lease.expect("a sandbox");
    assert!(asked
        .iter()
        .any(|effect| matches!(effect, LocalEffect::CreateDirAll(dir) if dir == "/work")));
    assert_eq!(backend.file_path(id, "a.txt"), Ok("/work/a.txt".to_string()));
    assert_eq!(backend.destroy(id), Ok(None));
}

#[test]
fn relative_directories_start_where_the_program_does() {
    let mut backend = LocalBackend::new(None, "/tmp");
    let config = SandboxConfig {
        workspace_dir: Some("work".to_string()),
        ..SandboxConfig::default()
    };
    create(&mut backend, SandboxId(1), config, None).1.expect("a sandbox");
    assert_eq!(
        backend.file_path(SandboxId(1), "a"),
        Ok("/here/work/a".to_string())
    );
}

#[test]
fn networks_that_are_not_enforced_are_refused() {
    let mut backend = LocalBackend::new(None, "/tmp");
    let config = SandboxConfig {
        network: NetworkMode::Full,
        ..SandboxConfig::default()
    };
    let (asked, lease) = create(&mut backend, SandboxId(1), config.clone(), None);
    assert!(asked.is_empty());
    assert!(lease.unwrap_err().starts_with("invalid config: "));
    let (_, lease) = create(&mut backend, SandboxId(1), config, Some("1"));
    assert!(lease.is_ok());
}

#[test]
fn commands_run_with_their_environment() {
    let mut backend = LocalBackend::new(Some("/root".to_string()), "/tmp");
    let id = SandboxId(1);
    let config = SandboxConfig {
        env: env_from_pairs(&vec![("A".to_string(), "1".to_string())]),
        ..SandboxConfig::default()
    };
    create(&mut backend, id, config, None).1.expect("a sandbox");
    let request = ExecRequest {
        command: vec!["echo".to_string(), "hi".to_string()],
        timeout_secs: 5,
    };
    let command = backend.plan_exec(id, &request).expect("a command");
    assert_eq!((command.program.as_str(), command.timeout_secs), ("echo", 5));
    assert_eq!(command.args, vec!["hi"]);
    assert_eq!(command.working_dir, backend.sandbox_workdir(id));
    let expected = [
        ("HYPERBOX_TEMPLATE", "python:3.12"),
        ("HYPERBOX_NETWORK_MODE", "\"none\""),
        ("A", "1"),
    ];
    let env: Vec<(&str, &str)> = command.env.iter().map(|(k, v)| (k.as_str(), v.as_str())).collect();
    assert_eq!(env, expected);
    let nothing = ExecRequest {
        command: vec![],
        timeout_secs: 5,
    };
    assert_eq!(
        backend.plan_exec(id, &nothing).unwrap_err().message(),
        "invalid config: command cannot be empty"
    );
    assert_eq!(
        backend.plan_exec(SandboxId(2), &request).unwrap_err().message(),
        format!("sandbox not found: {}", SandboxId(2).text())
    );
}

#[test]
fn networks_are_written_as_json() {
    assert_eq!(network_setting(&NetworkMode::Full), "\"full\"");
    let list = Allowlist::parse(&["pypi.org".to_string()]).expect("allowlist");
    assert_eq!(
        network_setting(&NetworkMode::Allowlist(list)),
        "{\"allowlist\":[\"pypi.org\"]}"
    );
}

#[test]
fn commands_are_judged() {
    let done = judge_exec(LocalEnd::Exited {
        code: None,
        stdout: vec![b'a', 0xff],
        stderr: b"e".to_vec(),
        elapsed_ms: 12,
    })
    .expect("an outcome");
    assert_eq!((done.exit_code, done.duration_ms), (1, 12));
    assert_eq!((done.stdout.as_str(), done.stderr.as_str()), ("a\u{fffd}", "e"));
    assert_eq!(
        judge_exec(LocalEnd::TimedOut).unwrap_err().message(),
        "execution failed: command timed out"
    );
    assert_eq!(
        judge_exec(LocalEnd::Failed("no".to_string())).unwrap_err().message(),
        "io error: no"
    );
}

#[test]
fn backends_are_chosen_by_name_or_by_host() {
    let host = |os: &str, firecracker: bool, virtualization: bool| HostAbilities {
        os: os.to_string(),
        supports_firecracker: firecracker,
        supports_virtualization: virtualization,
    };
    let named = |name: &str| BackendKind::from_env(&Some(name.to_string()));
    assert_eq!(BackendKind::from_env(&None), BackendKind::Auto);
    assert_eq!(named("odd"), BackendKind::Auto);
    assert_eq!(
        select_backend(named("local"), &host("linux", true, false)),
        BackendKind::Local
    );
    assert_eq!(
        select_backend(named("apple"), &host("linux", true, false)),
        BackendKind::Apple
    );
    assert_eq!(
        select_backend(BackendKind::Auto, &host("linux", true, true)),
        BackendKind::Firecracker
    );
    assert_eq!(
        select_backend(BackendKind::Auto, &host("macos", true, true)),
        BackendKind::Apple
    );
    assert_eq!(
        select_backend(BackendKind::Auto, &host("macos", true, false)),
        BackendKind::Local
    );
}

#[test]
fn firecracker_is_configured_from_its_settings() {
    let blank = FirecrackerSettings {
        work_dir: None,
        kernel: None,
        template_dir: None,
        agent_endpoint: None,
        agent_autostart: None,
        host_iface: None,
        network_dry_run: None,
    };
    let config = build_firecracker_config(blank, "/tmp");
    assert!(config.auto_start_agent);
    assert_eq!(config.work_dir, "/tmp/hyperbox-firecracker");
    assert_eq!(config.kernel_image, "/var/lib/hyperbox/vmlinux");
    assert_eq!((config.host_iface.as_str(), config.network_dry_run), ("eth0", false));
    for (text, dry) in [("0", false), ("FALSE", false), ("1", true)] {
        let settings = FirecrackerSettings {
            work_dir: Some("/vm".to_string()),
            kernel: None,
            template_dir: Some("/disks".to_string()),
            agent_endpoint: None,
            agent_autostart: Some(text.to_string()),
            host_iface: None,
            network_dry_run: Some(text.to_string()),
        };
        let config = build_firecracker_config(settings, "/tmp");
        assert_eq!(config.auto_start_agent, dry);
        assert_eq!(config.network_dry_run, dry);
        assert_eq!(config.work_dir, "/vm");
        let disk = config.rootfs_by_template.get(&"python:3.12".to_string());
        assert!(disk.expect("a disk").starts_with("/disks/"));
    }
}

#[test]
fn apple_is_configured_from_its_settings() {
    let settings = AppleSettings {
        work_dir: None,
        agent_endpoint: None,
        helper: Some("  hyperbox apple-helper\t--x ".to_string()),
        runtime: Some("VIRTUALIZATION".to_string()),
    };
    let config = build_apple_config(settings, "/tmp", true);
    assert_eq!(config.runtime_kind, AppleRuntimeKind::Virtualization);
    assert_eq!(
        config.launch_command,
        Some(vec!["hyperbox".to_string(), "apple-helper".to_string(), "--x".to_string()])
    );
    let blank = AppleSettings {
        work_dir: None,
        agent_endpoint: None,
        helper: Some("  ".to_string()),
        runtime: None,
    };
    let config = build_apple_config(blank, "/tmp", true);
    assert_eq!(config.runtime_kind, AppleRuntimeKind::Containerization);
    assert_eq!(config.launch_command, None);
    assert_eq!(split_words(" a  b "), vec!["a", "b"]);
}
