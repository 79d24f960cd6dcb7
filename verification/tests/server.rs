//! The server: its operations run against a backend and a store that are kept in memory.

use hyperbox::config::{Allowlist, NetworkMode, SandboxConfig};
use hyperbox::error::HyperboxError;
use hyperbox::model::{ExecOutcome, ExecRequest, SandboxId, SandboxInfo, SandboxLease, SandboxState};
use hyperbox::process::{ProcessDisposition, ProcessId, ProcessInfo, ProcessStatus, StreamName};
use hyperbox::server::effects::{Effect, PreparedRunSandbox, ProcessStart, Reply, Step};
use hyperbox::server::launch::{LogRange, ReadProcessLog, StartProcess};
use hyperbox::server::lifecycle::{
    CreateSandbox, CreateSnapshot, DestroySandbox, Hydrate, ListSandboxes, ResolveAffinity,
    RestoreSnapshot,
};
use hyperbox::server::metrics::MetricsCollector;
use hyperbox::server::pool::{Checkout, CheckoutSandbox, FillPool, WarmPoolManager};
use hyperbox::server::processes::{
    CancelProcess, CleanupExpired, Clock, FindActiveProcess, GetProcess, ListProcesses,
    PurgeProcess, ReadLogSize, RefreshProcess, WaitProcess,
};
use hyperbox::server::run::{
    is_affinity_absent_error, PrepareRun, RunEnsure, StartRun, StartRunRequest,
};
use hyperbox::server::state::ServerState;
use hyperbox::server::store::InMemorySnapshotStore;
use hyperbox::snapshot::SnapshotId;
use hyperbox::time::Timestamp;

fn at(secs: i64) -> Timestamp {
    Timestamp::new(1_767_225_600 + secs, 0).expect("a time of the calendar")
}

fn outcome(exit_code: i32, stdout: &str, stderr: &str) -> ExecOutcome {
    ExecOutcome {
        exit_code,
        stdout: stdout.to_string(),
        stderr: stderr.to_string(),
        duration_ms: 1,
    }
}

struct Server {
    state: ServerState,
    store: InMemorySnapshotStore,
    hydrated: bool,
    now: i64,
    elapsed_ms: u64,
    alive: Vec<SandboxId>,
    artifacts: Vec<SnapshotId>,
    scripts: Vec<String>,
    written: Vec<(SandboxId, String)>,
    launch: ExecOutcome,
    probe: String,
    log: String,
    ensure: ExecOutcome,
}

impl Server {
    fn new() -> Self {
        Server {
            state: ServerState::new(),
            store: InMemorySnapshotStore::new(),
            hydrated: false,
            now: 0,
            elapsed_ms: 0,
            alive: vec![],
            artifacts: vec![],
            scripts: vec![],
            written: vec![],
            launch: outcome(0, "", ""),
            probe: "running:42".to_string(),
            log: String::new(),
            ensure: outcome(0, "", ""),
        }
    }

    fn clock(&self) -> Clock {
        Clock {
            now: at(self.now),
            ttl_days: 7,
        }
    }

    fn absent(id: SandboxId) -> Reply {
        Reply::Failed(HyperboxError::SandboxNotFound(id.text()))
    }

    fn lease(&mut self, config: &SandboxConfig) -> SandboxLease {
        let id = SandboxId::new();
        self.alive.push(id);
        let info = SandboxInfo {
            id,
            template: config.template.clone(),
            state: SandboxState::Ready,
            created_at: at(self.now),
        };
        SandboxLease { id, info }
    }

    fn exec(&mut self, id: SandboxId, request: ExecRequest) -> Reply {
        if !self.alive.contains(&id) {
            return Server::absent(id);
        }
        let script = request.command.last().cloned().unwrap_or_default();
        self.scripts.push(script.clone());
        let result = if script.contains("nohup") {
            self.launch.clone()
        } else if script.contains("printf 'lost'") {
            outcome(0, &self.probe, "")
        } else if script.starts_with("pid_file=") {
            self.probe = "cancelled:143".to_string();
            outcome(0, "", "")
        } else if script.contains("wc -c") {
            outcome(0, &self.log.len().to_string(), "")
        } else if script.contains("tail -c") {
            let from = script.split("tail -c +").nth(1).unwrap();
            let from: usize = from.split(' ').next().unwrap().parse().unwrap();
            let count = script.split("head -c ").nth(1).unwrap();
            let count: usize = count.trim().parse().unwrap();
            let rest = &self.log[from - 1..];
            outcome(0, &rest[..count.min(rest.len())], "")
        } else if script.contains(".hyperbox/ensure") {
            self.ensure.clone()
        } else {
            outcome(0, "", "")
        };
        Reply::Outcome(result)
    }

    fn info(&self, id: SandboxId) -> Reply {
        if !self.alive.contains(&id) {
            return Server::absent(id);
        }
        Reply::Info(SandboxInfo {
            id,
            template: "python:3.12".to_string(),
            state: SandboxState::Ready,
            created_at: at(0),
        })
    }

    fn perform(&mut self, effect: Effect) -> Reply {
        match effect {
            Effect::EnsureHydrated => self.hydrate().map_or_else(Reply::Failed, |_| Reply::Unit),
            Effect::CleanupExpired => self.cleanup().map_or_else(Reply::Failed, |_| Reply::Unit),
            Effect::FindActiveProcess(id) => match self.active_process(id) {
                Ok(Some(process)) => Reply::Process(process),
                Ok(None) => Reply::NoProcess,
                Err(e) => Reply::Failed(e),
            },
            Effect::Refresh(p) => self.refresh(p).map_or_else(Reply::Failed, Reply::Process),
            Effect::Purge(p) => self.purge(p).map_or_else(Reply::Failed, |_| Reply::Unit),
            Effect::GetProcess(id) => self
                .get_process(id)
                .map_or_else(Reply::Failed, Reply::Process),
            Effect::CancelProcess(id) => {
                self.cancel(id).map_or_else(Reply::Failed, Reply::Process)
            }
            Effect::ReadLogSize(id, path) => {
                self.log_size(id, path).map_or_else(Reply::Failed, Reply::Size)
            }
            Effect::CreateSandbox(c) => self.create(c).map_or_else(Reply::Failed, Reply::Info),
            Effect::RestoreSnapshot(id) => {
                self.restore(id).map_or_else(Reply::Failed, Reply::Info)
            }
            Effect::ResolveAffinity(name, restore) => self
                .resolve(&name, restore)
                .map_or_else(Reply::Failed, |(info, new)| Reply::Resolved(info, new)),
            Effect::PrepareRun(id, config) => self
                .prepare(id, config)
                .map_or_else(Reply::Failed, Reply::Prepared),
            Effect::RunEnsure(id, commands, secs) => self
                .run_ensure(id, commands, secs)
                .map_or_else(Reply::Failed, |_| Reply::Unit),
            Effect::StartProcess(start) => {
                self.start(start).map_or_else(Reply::Failed, Reply::Process)
            }
            Effect::ValidateConfig(_) => Reply::Unit,
            Effect::BackendCreate(config) => Reply::Lease(self.lease(&config)),
            Effect::Exec(id, request) => self.exec(id, request),
            Effect::WriteFile(id, file) => {
                self.written.push((id, file.path));
                Reply::Unit
            }
            Effect::BackendDestroy(id) => {
                if !self.alive.contains(&id) {
                    return Server::absent(id);
                }
                self.alive.retain(|other| *other != id);
                Reply::Unit
            }
            Effect::Inspect(id) => self.info(id),
            Effect::SaveArtifact(_, snapshot) => {
                self.artifacts.push(snapshot);
                Reply::Unit
            }
            Effect::RestoreArtifact(_, config) => Reply::Lease(self.lease(&config)),
            Effect::StoreCreateSnapshot(id, config, note) => {
                let now = at(self.now);
                Reply::Snapshot(self.store.create_snapshot(&id, &config, note, now))
            }
            Effect::StoreGetSnapshot(id) => self
                .store
                .get_snapshot(&id)
                .map_or(Reply::NoSnapshot, Reply::Snapshot),
            Effect::StoreBind(name, id) => {
                self.store.bind_sandbox(&name, &id, at(self.now));
                Reply::Unit
            }
            Effect::StoreClearBinding(id) => {
                self.store.clear_sandbox_binding(&id, at(self.now));
                Reply::Unit
            }
            Effect::StoreSetAffinitySnapshot(name, id) => {
                self.store.set_affinity_snapshot(&name, &id, at(self.now));
                Reply::Unit
            }
            Effect::StoreGetAffinity(name) => self
                .store
                .get_affinity(&name)
                .map_or(Reply::NoAffinity, Reply::Affinity),
            Effect::StoreUpsertActive(id, config, created_at) => {
                self.store.upsert_active_sandbox(&id, &config, created_at);
                Reply::Unit
            }
            Effect::StoreRemoveActive(id) => {
                self.store.remove_active_sandbox(&id);
                Reply::Unit
            }
            Effect::StoreListActive => Reply::Records(self.store.list_active_sandboxes()),
            Effect::StoreUpsertProcess(p) => {
                self.store.upsert_process(&p);
                Reply::Unit
            }
            Effect::StoreGetProcess(id) => self
                .store
                .get_process(&id)
                .map_or(Reply::NoProcess, Reply::Process),
            Effect::StoreListProcesses => Reply::Processes(self.store.list_processes()),
            Effect::StoreRemoveProcess(id) => {
                self.store.remove_process(&id);
                Reply::Unit
            }
            Effect::FindArtifact(id) => Reply::Artifact(
                format!("/snapshots/{}.tar.gz", id.text()),
                self.artifacts.contains(&id),
            ),
            Effect::Pause(ms) => {
                self.elapsed_ms += ms;
                Reply::Unit
            }
        }
    }

    fn hydrate(&mut self) -> Result<(), HyperboxError> {
        if self.hydrated {
            return Ok(());
        }
        let (mut machine, mut step) = Hydrate::begin();
        loop {
            match step {
                Step::Done(result) => {
                    self.hydrated = result.is_ok();
                    return result;
                }
                Step::Ask(effect) => {
                    let reply = self.perform(effect);
                    (machine, step) = machine.resume(reply, &mut self.state);
                }
                Step::Stray => panic!("an operation got the wrong reply"),
            }
        }
    }

    fn create(&mut self, config: SandboxConfig) -> Result<SandboxInfo, HyperboxError> {
        let (mut machine, mut step) = CreateSandbox::begin(config);
        loop {
            match step {
                Step::Done(result) => return result,
                Step::Ask(effect) => {
                    let reply = self.perform(effect);
                    (machine, step) = machine.resume(reply, &mut self.state);
                }
                Step::Stray => panic!("an operation got the wrong reply"),
            }
        }
    }

    fn destroy(&mut self, id: SandboxId) -> Result<(), HyperboxError> {
        let (mut machine, mut step) = DestroySandbox::begin(id);
        loop {
            match step {
                Step::Done(result) => return result,
                Step::Ask(effect) => {
                    let reply = self.perform(effect);
                    (machine, step) = machine.resume(reply, &mut self.state);
                }
                Step::Stray => panic!("an operation got the wrong reply"),
            }
        }
    }

    fn purge(&mut self, process: ProcessInfo) -> Result<(), HyperboxError> {
        let (mut machine, mut step) = PurgeProcess::begin(process);
        loop {
            match step {
                Step::Done(result) => return result,
                Step::Ask(effect) => {
                    let reply = self.perform(effect);
                    (machine, step) = machine.resume(reply, &mut self.state);
                }
                Step::Stray => panic!("an operation got the wrong reply"),
            }
        }
    }

    fn restore(&mut self, id: SnapshotId) -> Result<SandboxInfo, HyperboxError> {
        let (mut machine, mut step) = RestoreSnapshot::begin(id);
        loop {
            match step {
                Step::Done(result) => return result,
                Step::Ask(effect) => {
                    let reply = self.perform(effect);
                    (machine, step) = machine.resume(reply, &mut self.state);
                }
                Step::Stray => panic!("an operation got the wrong reply"),
            }
        }
    }

    fn list(&mut self) -> Vec<(SandboxId, Option<String>)> {
        let (mut machine, mut step) = ListSandboxes::begin();
        loop {
            match step {
                Step::Done(result) => {
                    let rows = result.expect("a list");
                    return rows.into_iter().map(|r| (r.info.id, r.affinity_name)).collect();
                }
                Step::Ask(effect) => {
                    let reply = self.perform(effect);
                    (machine, step) = machine.resume(reply, &self.state);
                }
                Step::Stray => panic!("an operation got the wrong reply"),
            }
        }
    }

    fn snapshot(&mut self, id: SandboxId) -> Result<SnapshotId, HyperboxError> {
        let (mut machine, mut step) = CreateSnapshot::begin(id, Some("note".to_string()));
        loop {
            match step {
                Step::Done(result) => return result.map(|s| s.id),
                Step::Ask(effect) => {
                    let reply = self.perform(effect);
                    (machine, step) = machine.resume(reply, &self.state);
                }
                Step::Stray => panic!("an operation got the wrong reply"),
            }
        }
    }

    fn resolve(
        &mut self,
        name: &str,
        restore: bool,
    ) -> Result<(SandboxInfo, bool), HyperboxError> {
        let (mut machine, mut step) = ResolveAffinity::begin(name.to_string(), restore);
        loop {
            match step {
                Step::Done(result) => return result,
                Step::Ask(effect) => {
                    let reply = self.perform(effect);
                    (machine, step) = machine.resume(reply);
                }
                Step::Stray => panic!("an operation got the wrong reply"),
            }
        }
    }

    fn cleanup(&mut self) -> Result<(), HyperboxError> {
        let (mut machine, mut step) = CleanupExpired::begin(at(self.now));
        loop {
            match step {
                Step::Done(result) => return result,
                Step::Ask(effect) => {
                    let reply = self.perform(effect);
                    (machine, step) = machine.resume(reply);
                }
                Step::Stray => panic!("an operation got the wrong reply"),
            }
        }
    }

    fn active_process(&mut self, id: SandboxId) -> Result<Option<ProcessInfo>, HyperboxError> {
        let (mut machine, mut step) = FindActiveProcess::begin(id);
        loop {
            match step {
                Step::Done(result) => return result,
                Step::Ask(effect) => {
                    let reply = self.perform(effect);
                    (machine, step) = machine.resume(reply);
                }
                Step::Stray => panic!("an operation got the wrong reply"),
            }
        }
    }

    fn refresh(&mut self, process: ProcessInfo) -> Result<ProcessInfo, HyperboxError> {
        let (mut machine, mut step) = RefreshProcess::begin(process);
        loop {
            match step {
                Step::Done(result) => return result,
                Step::Ask(effect) => {
                    let reply = self.perform(effect);
                    (machine, step) = machine.resume(reply, self.clock());
                }
                Step::Stray => panic!("an operation got the wrong reply"),
            }
        }
    }

    fn get_process(&mut self, id: ProcessId) -> Result<ProcessInfo, HyperboxError> {
        let (mut machine, mut step) = GetProcess::begin(id);
        loop {
            match step {
                Step::Done(result) => return result,
                Step::Ask(effect) => {
                    let reply = self.perform(effect);
                    (machine, step) = machine.resume(reply);
                }
                Step::Stray => panic!("an operation got the wrong reply"),
            }
        }
    }

    fn processes(&mut self) -> Vec<ProcessInfo> {
        let (mut machine, mut step) = ListProcesses::begin();
        loop {
            match step {
                Step::Done(result) => return result.expect("a list"),
                Step::Ask(effect) => {
                    let reply = self.perform(effect);
                    (machine, step) = machine.resume(reply);
                }
                Step::Stray => panic!("an operation got the wrong reply"),
            }
        }
    }

    fn cancel(&mut self, id: ProcessId) -> Result<ProcessInfo, HyperboxError> {
        self.elapsed_ms = 0;
        let (mut machine, mut step) = CancelProcess::begin(id);
        loop {
            match step {
                Step::Done(result) => return result,
                Step::Ask(effect) => {
                    let reply = self.perform(effect);
                    (machine, step) = machine.resume(reply, self.elapsed_ms);
                }
                Step::Stray => panic!("an operation got the wrong reply"),
            }
        }
    }

    fn wait(&mut self, id: ProcessId, secs: u64) -> Result<ProcessInfo, HyperboxError> {
        self.elapsed_ms = 0;
        let (mut machine, mut step) = WaitProcess::begin(id, secs);
        loop {
            match step {
                Step::Done(result) => return result,
                Step::Ask(effect) => {
                    let reply = self.perform(effect);
                    (machine, step) = machine.resume(reply, self.elapsed_ms);
                }
                Step::Stray => panic!("an operation got the wrong reply"),
            }
        }
    }

    fn log_size(&mut self, id: SandboxId, path: String) -> Result<u64, HyperboxError> {
        let (mut machine, mut step) = ReadLogSize::begin(id, path);
        loop {
            match step {
                Step::Done(result) => return result,
                Step::Ask(effect) => {
                    let reply = self.perform(effect);
                    (machine, step) = machine.resume(reply);
                }
                Step::Stray => panic!("an operation got the wrong reply"),
            }
        }
    }

    fn read_log(&mut self, process_id: ProcessId, offset: u64, limit: u64) -> (String, u64, bool) {
        let range = LogRange {
            process_id,
            stream: StreamName::Stdout,
            offset,
            limit,
        };
        let (mut machine, mut step) = ReadProcessLog::begin(range);
        loop {
            match step {
                Step::Done(result) => {
                    let read = result.expect("a piece of the log");
                    return (read.contents, read.next_offset, read.eof);
                }
                Step::Ask(effect) => {
                    let reply = self.perform(effect);
                    (machine, step) = machine.resume(reply);
                }
                Step::Stray => panic!("an operation got the wrong reply"),
            }
        }
    }

    fn start(&mut self, start: ProcessStart) -> Result<ProcessInfo, HyperboxError> {
        let (mut machine, mut step) = StartProcess::begin(start);
        loop {
            match step {
                Step::Done(result) => return result,
                Step::Ask(effect) => {
                    let reply = self.perform(effect);
                    (machine, step) = machine.resume(reply, self.clock());
                }
                Step::Stray => panic!("an operation got the wrong reply"),
            }
        }
    }

    fn prepare(
        &mut self,
        id: SandboxId,
        overflow: Option<SandboxConfig>,
    ) -> Result<PreparedRunSandbox, HyperboxError> {
        let (mut machine, mut step) = PrepareRun::begin(id, overflow);
        loop {
            match step {
                Step::Done(result) => return result,
                Step::Ask(effect) => {
                    let reply = self.perform(effect);
                    (machine, step) = machine.resume(reply);
                }
                Step::Stray => panic!("an operation got the wrong reply"),
            }
        }
    }

    fn run_ensure(
        &mut self,
        id: SandboxId,
        commands: Vec<String>,
        secs: u64,
    ) -> Result<(), HyperboxError> {
        let (mut machine, mut step) = RunEnsure::begin(id, commands, secs);
        loop {
            match step {
                Step::Done(result) => return result,
                Step::Ask(effect) => {
                    let reply = self.perform(effect);
                    (machine, step) = machine.resume(reply);
                }
                Step::Stray => panic!("an operation got the wrong reply"),
            }
        }
    }

    fn run(
        &mut self,
        request: StartRunRequest,
    ) -> Result<(ProcessInfo, Option<String>, bool), HyperboxError> {
        let (mut machine, mut step) = StartRun::begin(request);
        loop {
            match step {
                Step::Done(result) => {
                    return result.map(|r| (r.process, r.session_name, r.session_created))
                }
                Step::Ask(effect) => {
                    let reply = self.perform(effect);
                    (machine, step) = machine.resume(reply, &self.state);
                }
                Step::Stray => panic!("an operation got the wrong reply"),
            }
        }
    }

    fn start_command(&mut self, id: SandboxId, owned: bool) -> Result<ProcessInfo, HyperboxError> {
        self.start(ProcessStart {
            sandbox_id: id,
            command: vec!["sleep".to_string(), "1".to_string()],
            requested_sandbox_id: None,
            disposition: ProcessDisposition::ReusedExisting,
            destroy_sandbox_on_expiry: owned,
        })
    }
}

fn run_request(command: &str) -> StartRunRequest {
    StartRunRequest {
        sandbox_id: None,
        affinity_name: None,
        create_config: None,
        reuse_auto_session: false,
        ensure_commands: vec![],
        writes: vec![],
        command: command.to_string(),
        destroy_sandbox_on_expiry: false,
    }
}

fn named(name: &str) -> SandboxConfig {
    SandboxConfig {
        affinity_name: Some(name.to_string()),
        ..SandboxConfig::default()
    }
}

#[test]
fn sandboxes_come_and_go() {
    let mut server = Server::new();
    let info = server.create(SandboxConfig::default()).expect("create");
    assert_eq!(server.list(), vec![(info.id, None)]);
    assert_eq!(server.state.active_count(), 1);
    server.destroy(info.id).expect("destroy");
    assert_eq!(server.list(), vec![]);
    let metrics = server.state.metrics.snapshot();
    assert_eq!((metrics.creates, metrics.destroys), (1, 1));
}

#[test]
fn unknown_templates_are_refused_before_anything_is_made() {
    let mut server = Server::new();
    let config = SandboxConfig {
        template: "missing:1".to_string(),
        ..SandboxConfig::default()
    };
    let error = server.create(config).unwrap_err();
    assert_eq!(error.message(), "template not found: missing:1");
    assert!(server.alive.is_empty());
}

#[test]
fn the_sandboxes_of_an_earlier_server_are_found_again() {
    let mut server = Server::new();
    let kept = server.create(named("kept")).expect("create").id;
    let gone = server.create(SandboxConfig::default()).expect("create").id;
    server.alive.retain(|id| *id != gone);
    server.state = ServerState::new();
    server.hydrated = false;
    assert_eq!(server.list(), vec![(kept, Some("kept".to_string()))]);
    assert_eq!(server.store.list_active_sandboxes().len(), 2);
}

#[test]
fn names_stand_for_sandboxes_until_these_are_gone() {
    let mut server = Server::new();
    let info = server.create(named("work")).expect("create");
    let (found, restored) = server.resolve("work", false).expect("resolve");
    assert_eq!((found.id, restored), (info.id, false));
    server.destroy(info.id).expect("destroy");
    let error = server.resolve("work", false).unwrap_err();
    assert_eq!(error.message(), "execution failed: affinity `work` has no active sandbox");
    assert!(is_affinity_absent_error(&error));
    let error = server.resolve("work", true).unwrap_err();
    assert_eq!(error.message(), "execution failed: affinity `work` has no snapshot to restore");
    assert!(!is_affinity_absent_error(&error));
    let error = server.resolve("other", true).unwrap_err();
    assert_eq!(error.message(), "execution failed: affinity not found: other");
    assert!(is_affinity_absent_error(&error));
}

#[test]
fn snapshots_bring_a_name_back() {
    let mut server = Server::new();
    let first = server.create(named("work")).expect("create").id;
    server.snapshot(first).expect("snapshot");
    server.destroy(first).expect("destroy");
    let (second, restored) = server.resolve("work", true).expect("resolve");
    assert!(restored);
    assert_ne!(second.id, first);
    let (third, restored) = server.resolve("work", true).expect("resolve");
    assert_eq!((third.id, restored), (second.id, false));
    assert_eq!(server.list(), vec![(second.id, Some("work".to_string()))]);
}

#[test]
fn missing_snapshots_and_files_are_told_apart() {
    let mut server = Server::new();
    let id = server.create(SandboxConfig::default()).expect("create").id;
    let snapshot = server.snapshot(id).expect("snapshot");
    server.artifacts.clear();
    let error = server.restore(snapshot).unwrap_err();
    let text = snapshot.text();
    assert_eq!(
        error.message(),
        format!("execution failed: snapshot artifact missing for {text} at /snapshots/{text}.tar.gz")
    );
    let error = server.restore(SnapshotId(5)).unwrap_err();
    assert_eq!(error.message(), "execution failed: snapshot not found");
}

#[test]
fn a_sandbox_runs_one_process_at_a_time() {
    let mut server = Server::new();
    let id = server.create(SandboxConfig::default()).expect("create").id;
    let process = server.start_command(id, false).expect("start");
    assert_eq!(process.status, ProcessStatus::Running);
    let before = server.scripts.iter().filter(|s| s.contains("nohup")).count();
    let error = server.start_command(id, false).unwrap_err();
    assert_eq!(
        error.message(),
        format!(
            "execution failed: sandbox {} already has a running managed process ({})",
            id.text(),
            process.id.text()
        )
    );
    let after = server.scripts.iter().filter(|s| s.contains("nohup")).count();
    assert_eq!((before, after), (1, 1));
    server.probe = "succeeded:0".to_string();
    server.start_command(id, false).expect("start after the first one ended");
}

#[test]
fn launches_that_fail_are_recorded() {
    let mut server = Server::new();
    let id = server.create(SandboxConfig::default()).expect("create").id;
    server.launch = outcome(1, "", " no shell \n");
    let error = server.start_command(id, false).unwrap_err();
    assert_eq!(
        error.message(),
        "execution failed: failed to launch managed process: no shell"
    );
    let recorded = server.store.list_processes();
    assert_eq!(recorded.len(), 1);
    assert_eq!(recorded[0].status, ProcessStatus::Failed);
    assert!(recorded[0].finished_at.is_some());
}

#[test]
fn empty_commands_are_refused() {
    let mut server = Server::new();
    let id = server.create(SandboxConfig::default()).expect("create").id;
    let error = server
        .start(ProcessStart {
            sandbox_id: id,
            command: vec![],
            requested_sandbox_id: None,
            disposition: ProcessDisposition::CreatedNew,
            destroy_sandbox_on_expiry: false,
        })
        .unwrap_err();
    assert_eq!(error.message(), "invalid config: managed process command cannot be empty");
    let error = server.run(run_request("")).unwrap_err();
    assert_eq!(error.message(), "invalid config: run command cannot be empty");
    let error = server.run(run_request("true")).unwrap_err();
    assert_eq!(
        error.message(),
        "invalid config: run target requires sandbox_id, affinity_name, or create_config"
    );
}

#[test]
fn waits_end_with_a_process_that_is_over() {
    let mut server = Server::new();
    let id = server.create(SandboxConfig::default()).expect("create").id;
    let process = server.start_command(id, false).expect("start");
    let error = server.wait(process.id, 1).unwrap_err();
    assert_eq!(
        error.message(),
        format!("execution failed: timed out waiting for process {}", process.id.text())
    );
    assert!(server.elapsed_ms >= 1000);
    server.probe = "failed:3".to_string();
    let done = server.wait(process.id, 1).expect("wait");
    assert_eq!((done.status, done.exit_code), (ProcessStatus::Failed, Some(3)));
    assert!(done.status.is_terminal());
}

#[test]
fn processes_can_be_cancelled() {
    let mut server = Server::new();
    let id = server.create(SandboxConfig::default()).expect("create").id;
    let process = server.start_command(id, false).expect("start");
    let done = server.cancel(process.id).expect("cancel");
    assert_eq!((done.status, done.exit_code), (ProcessStatus::Cancelled, Some(143)));
    assert_eq!(
        server.written,
        vec![(id, format!(".hyperbox/processes/{}/cancelled", process.id.text()))]
    );
    let again = server.cancel(process.id).expect("cancel again");
    assert_eq!(again, done);
    assert!(again.finished_at.is_some());
    assert_eq!(server.written.len(), 1);
}

#[test]
fn logs_are_read_piece_by_piece() {
    let mut server = Server::new();
    let id = server.create(SandboxConfig::default()).expect("create").id;
    let process = server.start_command(id, false).expect("start").id;
    server.log = "hello world".to_string();
    assert_eq!(server.read_log(process, 0, 5), ("hello".to_string(), 5, false));
    assert_eq!(server.read_log(process, 5, 100), (" world".to_string(), 11, true));
    server.probe = "succeeded:0".to_string();
    assert_eq!(server.read_log(process, 11, 5), (String::new(), 11, true));
    for limit in [0, 1, 4, 100] {
        let (mut offset, mut whole) = (0, String::new());
        loop {
            let (part, next, eof) = server.read_log(process, offset, limit);
            whole.push_str(&part);
            offset = next;
            if eof {
                break;
            }
        }
        assert_eq!(whole, "hello world");
    }
    let missing = ReadProcessLog::begin(LogRange {
        process_id: ProcessId(9),
        stream: StreamName::Stderr,
        offset: 0,
        limit: 1,
    });
    let (machine, _) = missing.0.resume(Reply::Unit);
    match machine.resume(Reply::NoProcess).1 {
        Step::Done(Err(e)) => assert_eq!(
            e.message(),
            "execution failed: process not found: 00000000-0000-0000-0000-000000000009"
        ),
        other => panic!("{other:?}"),
    }
}

#[test]
fn expired_processes_take_the_sandboxes_that_they_own() {
    for owned in [true, false] {
        let mut server = Server::new();
        let id = server.create(SandboxConfig::default()).expect("create").id;
        let process = server.start_command(id, owned).expect("start");
        server.probe = "succeeded:0".to_string();
        server.get_process(process.id).expect("finished");
        server.now = 8 * 86_400;
        server.cleanup().expect("cleanup");
        assert!(server.store.list_processes().is_empty());
        assert_eq!(server.alive.contains(&id), !owned);
        assert_eq!(server.state.active_count(), if owned { 0 } else { 1 });
    }
}

#[test]
fn processes_that_are_not_expired_stay() {
    let mut server = Server::new();
    let id = server.create(SandboxConfig::default()).expect("create").id;
    server.start_command(id, true).expect("start");
    server.probe = "succeeded:0".to_string();
    assert_eq!(server.processes().len(), 1);
    server.now = 6 * 86_400;
    server.cleanup().expect("cleanup");
    assert_eq!(server.store.list_processes().len(), 1);
    assert!(server.alive.contains(&id));
}

#[test]
fn destroying_a_sandbox_cancels_its_processes() {
    let mut server = Server::new();
    let id = server.create(SandboxConfig::default()).expect("create").id;
    server.start_command(id, false).expect("start");
    server.destroy(id).expect("destroy");
    assert!(server.scripts.iter().any(|s| s.starts_with("pid_file=")));
    assert!(server.store.list_processes().is_empty());
    assert!(server.alive.is_empty());
}

#[test]
fn busy_sandboxes_overflow_into_new_ones() {
    let mut server = Server::new();
    let id = server.create(named("work")).expect("create").id;
    server.start_command(id, false).expect("start");
    let prepared = server.prepare(id, Some(named("work"))).expect("prepare");
    assert_ne!(prepared.info.id, id);
    assert_eq!(prepared.requested_sandbox_id, Some(id));
    assert_eq!(prepared.disposition, ProcessDisposition::CreatedDueToBusy);
    assert_eq!(server.resolve("work", false).expect("resolve").0.id, id);
    let error = server.prepare(id, None).unwrap_err();
    assert!(error.message().contains("already has a running managed process"));
    server.probe = "succeeded:0".to_string();
    let prepared = server.prepare(id, None).expect("prepare");
    assert_eq!(prepared.info.id, id);
    assert_eq!(prepared.disposition, ProcessDisposition::ReusedExisting);
}

#[test]
fn runs_reuse_their_session_and_apply_setup_steps() {
    let mut server = Server::new();
    let mut request = run_request("true");
    request.create_config = Some(SandboxConfig::default());
    request.reuse_auto_session = true;
    request.ensure_commands = vec!["pip install x".to_string()];
    request.writes = vec![("a.txt".to_string(), b"hi".to_vec())];
    let (first, name, created) = server.run(request).expect("run");
    assert!(created);
    let name = name.expect("a session");
    assert!(name.starts_with("auto-python-3-12-"));
    let ensure = server.scripts.iter().position(|s| s.contains("pip install x"));
    let launch = server.scripts.iter().position(|s| s.contains("nohup"));
    assert!(ensure.is_some() && ensure < launch);
    assert_eq!(server.written, vec![(first.sandbox_id, "a.txt".to_string())]);

    server.probe = "succeeded:0".to_string();
    let mut request = run_request("true");
    request.create_config = Some(SandboxConfig::default());
    request.reuse_auto_session = true;
    request.ensure_commands = vec!["pip install x".to_string()];
    let (second, again, created) = server.run(request).expect("run");
    assert_eq!(second.sandbox_id, first.sandbox_id);
    assert_eq!(again, Some(name));
    assert!(!created);
    assert_eq!(second.status, ProcessStatus::Running);
    let ensures: Vec<_> = server.scripts.iter().filter(|s| s.contains("pip install x")).collect();
    assert_eq!(ensures.len(), 2);
    assert_eq!(ensures[0], ensures[1]);
}

#[test]
fn setup_steps_that_fail_end_the_run() {
    let mut server = Server::new();
    server.ensure = outcome(2, "", "boom\n");
    let mut request = run_request("true");
    request.create_config = Some(SandboxConfig::default());
    request.ensure_commands = vec!["bad".to_string()];
    let error = server.run(request).unwrap_err();
    assert_eq!(
        error.message(),
        "execution failed: --ensure step failed with exit code 2: boom"
    );
    assert!(!server.scripts.iter().any(|s| s.contains("nohup")));
}

#[test]
fn a_pool_hands_out_and_takes_back() {
    let mut pool = WarmPoolManager::new(SandboxConfig::default(), 2);
    assert!(pool.wants_more());
    pool.put_back(SandboxId(1));
    pool.put_back(SandboxId(2));
    assert!(!pool.wants_more());
    match pool.checkout() {
        Checkout::Ready(id) => {
            assert_eq!(id, SandboxId(1));
            pool.release(id);
        }
        Checkout::Empty => panic!("the pool is not empty"),
    }
    match pool.checkout() {
        Checkout::Ready(id) => assert_eq!(id, SandboxId(2)),
        Checkout::Empty => panic!("the pool is not empty"),
    }
    let stats = pool.stats();
    assert_eq!((stats.available, stats.in_use, stats.target), (1, 1, 2));
    pool.release(SandboxId(2));
    pool.release(SandboxId(2));
    let stats = pool.stats();
    assert_eq!((stats.available, stats.in_use), (2, 0));
    let mut empty = WarmPoolManager::new(SandboxConfig::default(), 1);
    assert!(matches!(empty.checkout(), Checkout::Empty));
    empty.hand_out(SandboxId(3));
    assert_eq!(empty.stats().in_use, 1);
}

fn made(id: u128) -> Reply {
    Reply::Lease(SandboxLease {
        id: SandboxId(id),
        info: SandboxInfo {
            id: SandboxId(id),
            template: "python:3.12".to_string(),
            state: SandboxState::Ready,
            created_at: at(0),
        },
    })
}

fn fill(pool: &mut WarmPoolManager) -> u128 {
    let mut count = 0;
    let (mut op, mut step) = FillPool::begin(pool);
    loop {
        match step {
            Step::Ask(Effect::BackendCreate(config)) => {
                assert_eq!(config.template, "python:3.12");
                count += 1;
                (op, step) = op.resume(made(count), pool);
            }
            Step::Done(result) => {
                result.expect("fill pool");
                return count;
            }
            other => panic!("{other:?}"),
        }
    }
}

#[test]
fn pool_warms_and_reuses() {
    let mut pool = WarmPoolManager::new(SandboxConfig::default(), 2);
    assert_eq!(fill(&mut pool), 2);
    assert_eq!(fill(&mut pool), 0);
    let first = match CheckoutSandbox::begin(&mut pool) {
        (_, Step::Done(Ok(id))) => id,
        (_, other) => panic!("{other:?}"),
    };
    assert_eq!(first, SandboxId(1));
    pool.release(first);

    let stats = pool.stats();
    assert_eq!(stats.target, 2);
    assert_eq!(stats.in_use, 0);
    assert!(stats.available >= 1);
}

#[test]
fn empty_pools_are_filled_before_they_hand_out() {
    let mut pool = WarmPoolManager::new(SandboxConfig::default(), 2);
    let (op, step) = CheckoutSandbox::begin(&mut pool);
    assert!(matches!(step, Step::Ask(Effect::BackendCreate(_))));
    let (op, step) = op.resume(made(5), &mut pool);
    assert!(matches!(step, Step::Ask(Effect::BackendCreate(_))));
    let (_, step) = op.resume(made(6), &mut pool);
    assert!(matches!(step, Step::Done(Ok(SandboxId(5)))));
    let stats = pool.stats();
    assert_eq!((stats.available, stats.in_use), (1, 1));

    let mut pool = WarmPoolManager::new(SandboxConfig::default(), 1);
    let (op, _) = CheckoutSandbox::begin(&mut pool);
    let error = HyperboxError::ExecutionFailed("no room".to_string());
    let (_, step) = op.resume(Reply::Failed(error), &mut pool);
    assert!(matches!(step, Step::Done(Err(e)) if e.message() == "execution failed: no room"));
    assert_eq!(pool.stats().in_use, 0);
}

#[test]
fn metrics_count_and_rank() {
    let mut metrics = MetricsCollector::default();
    metrics.inc_create();
    metrics.inc_exec();
    metrics.inc_exec();
    metrics.inc_exec_failure();
    metrics.inc_destroy();
    for ms in [10, 20, 30, 40, 50] {
        metrics.record_exec_latency(ms);
    }
    let snapshot = metrics.snapshot();
    assert_eq!((snapshot.creates, snapshot.destroys), (1, 1));
    assert_eq!((snapshot.execs, snapshot.exec_failures), (2, 1));
    assert_eq!((snapshot.p50_exec_ms, snapshot.p95_exec_ms), (30, 50));
}

#[test]
fn executions_are_counted_with_their_outcome() {
    let mut state = ServerState::new();
    state.count_exec();
    state.count_outcome(&Ok(outcome(0, "", "")));
    state.count_exec();
    state.count_outcome(&Err(HyperboxError::Io("gone".to_string())));
    let snapshot = state.metrics.snapshot();
    assert_eq!((snapshot.execs, snapshot.exec_failures), (2, 1));
    assert_eq!(snapshot.p50_exec_ms, 1);
}

#[test]
fn stores_give_back_what_was_put_in() {
    let mut store = InMemorySnapshotStore::new();
    let sandbox = SandboxId(1);
    let list = Allowlist::parse(&["pypi.org".to_string()]).expect("allowlist");
    let config = SandboxConfig {
        network: NetworkMode::Allowlist(list),
        ..named("work")
    };
    let snapshot = store.create_snapshot(&sandbox, &config, Some("n".to_string()), at(1));
    let found = store.get_snapshot(&snapshot.id).expect("a snapshot");
    assert_eq!(found.sandbox_id, sandbox);
    assert_eq!(found.affinity_name.as_deref(), Some("work"));
    assert_eq!(found.note.as_deref(), Some("n"));
    assert_eq!(store.list_for_template("python:3.12").len(), 1);
    assert!(store.list_for_template("go:1.22").is_empty());

    store.set_affinity_snapshot("work", &snapshot.id, at(2));
    store.bind_sandbox("work", &sandbox, at(3));
    store.bind_sandbox("other", &SandboxId(2), at(3));
    let record = store.get_affinity("work").expect("a name");
    assert_eq!(record.sandbox_id, Some(sandbox));
    assert_eq!(record.snapshot_id, Some(snapshot.id));
    store.clear_sandbox_binding(&sandbox, at(4));
    let record = store.get_affinity("work").expect("a name");
    assert_eq!(record.sandbox_id, None);
    assert_eq!(record.snapshot_id, Some(snapshot.id));
    assert_eq!(record.updated_at, at(4));
    let record = store.get_affinity("other").expect("a name");
    assert_eq!((record.sandbox_id, record.updated_at), (Some(SandboxId(2)), at(3)));

    store.upsert_active_sandbox(&sandbox, &config, at(5));
    assert_eq!(store.list_active_sandboxes().len(), 1);
    store.remove_active_sandbox(&sandbox);
    assert!(store.list_active_sandboxes().is_empty());
    assert!(store.get_process(&ProcessId(1)).is_none());
}

#[test]
fn only_ends_need_a_time_in_the_calendar() {
    let far = Clock {
        now: at(0),
        ttl_days: i64::MAX,
    };
    assert!(!far.in_calendar());
    let mut server = Server::new();
    assert!(server.clock().in_calendar());
    let id = server.create(SandboxConfig::default()).expect("create").id;
    let process = server.start_command(id, false).expect("start");
    let probe = |text: &str| Reply::Outcome(outcome(0, text, ""));

    let (refresh, _) = RefreshProcess::begin(process.clone());
    assert!(refresh.is_ended_by(&probe("succeeded:0"), &far));
    assert!(!refresh.is_ended_by(&probe("lost"), &far));
    assert!(!refresh.is_ended_by(&probe("running:7"), &far));
    let (_, step) = refresh.resume(probe("running:7"), far);
    assert!(matches!(step, Step::Ask(Effect::StoreUpsertProcess(p)) if p.backend_pid == Some(7)));

    let (start, _) = StartProcess::begin(ProcessStart {
        sandbox_id: id,
        command: vec!["true".to_string()],
        requested_sandbox_id: None,
        disposition: ProcessDisposition::CreatedNew,
        destroy_sandbox_on_expiry: false,
    });
    let (start, _) = start.resume(Reply::Unit, far);
    let (start, _) = start.resume(Reply::Unit, far);
    let (start, _) = start.resume(Reply::NoProcess, far);
    let (start, _) = start.resume(Reply::Unit, far);
    assert!(start.is_ended_by(&Reply::Outcome(outcome(1, "", ""))));
    assert!(!start.is_ended_by(&Reply::Outcome(outcome(0, "", ""))));
    let (_, step) = start.resume(Reply::Outcome(outcome(0, "", "")), far);
    assert!(matches!(step, Step::Ask(Effect::StoreUpsertProcess(p)) if p.finished_at.is_none()));
}
