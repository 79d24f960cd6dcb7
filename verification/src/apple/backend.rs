//! The backend that keeps sandboxes in Apple containers, with the container tool or by way of
//! a helper program.

use crate::apple::container::{
    allowlist_complaint, container_network_args, exit_report, plain_call, report_exit,
    stderr_summary, summary, CallModel, CommandResult, ContainerCall, DEFAULT_IO_TIMEOUT_SECS,
};
use crate::codec::{quote, quoted};
use crate::config::{ConfigModel, NetworkMode, NetworkModel, SandboxConfig};
use crate::error::{execution_failed, invalid_config, sandbox_not_found, HyperboxError};
use crate::ids::hyphenated;
use crate::model::{
    shell_model, ExecOutcome, ExecRequest, FilePayload, SandboxId, SandboxInfo, SandboxLease,
    SandboxState,
};
use crate::numbers::{at_least_one, decimal, decimal_int, i64_text, one_or_more, u64_text};
use crate::paths::{below, join_path, names_below, relative_names, PathFault};
use crate::snapshot::SnapshotId;
use crate::table::Table;
use crate::text::{cat2, cat3, cat4, clone_opt, clone_texts, opt_view, same, texts, views};
use crate::time::Timestamp;
use vstd::prelude::*;

verus! {

#[derive(Debug, Clone, Copy, PartialEq, Eq, Structural)]
pub enum AppleRuntimeKind {
    Containerization,
    Virtualization,
}

impl AppleRuntimeKind {
    pub open spec fn word(self) -> Seq<char> {
        match self {
            AppleRuntimeKind::Containerization => "containerization"@,
            AppleRuntimeKind::Virtualization => "virtualization"@,
        }
    }
}

#[derive(Debug)]
pub struct AppleBackendConfig {
    pub work_dir: String,
    pub agent_endpoint: String,
    pub launch_command: Option<Vec<String>>,
    pub runtime_kind: AppleRuntimeKind,
}

impl AppleBackendConfig {
    /// What holds where nothing else is set, below the directory for temporary files.
    pub fn defaults(temp_dir: &str) -> (r: Self)
        ensures
            r.work_dir@ == below(temp_dir@, "hyperbox-apple"@),
            r.agent_endpoint@ == "http://127.0.0.1:60061"@,
            r.launch_command is None,
            r.runtime_kind == AppleRuntimeKind::Virtualization,
    {
        AppleBackendConfig {
            work_dir: join_path(temp_dir, "hyperbox-apple"),
            agent_endpoint: "http://127.0.0.1:60061".to_owned(),
            launch_command: None,
            runtime_kind: AppleRuntimeKind::Virtualization,
        }
    }
}

/// A request to the helper program.
#[derive(Debug, Clone, PartialEq, Eq)]
pub enum HelperRequest {
    Create {
        sandbox_id: String,
        template: String,
        workspace_dir: Option<String>,
        runtime: String,
        network_mode: String,
        network_allowlist: Vec<String>,
        memory_mb: Option<u32>,
        vcpu_count: Option<u32>,
    },
    Exec { sandbox_id: String, command: Vec<String>, timeout_secs: u64 },
    Read { sandbox_id: String, path: String },
    Write { sandbox_id: String, path: String, bytes_b64: String },
    Destroy { sandbox_id: String },
}

/// A request as a value.
pub enum RequestModel {
    Create {
        sandbox_id: Seq<char>,
        template: Seq<char>,
        workspace_dir: Option<Seq<char>>,
        runtime: Seq<char>,
        network_mode: Seq<char>,
        network_allowlist: Seq<Seq<char>>,
        memory_mb: Option<u32>,
        vcpu_count: Option<u32>,
    },
    Exec { sandbox_id: Seq<char>, command: Seq<Seq<char>>, timeout_secs: u64 },
    Read { sandbox_id: Seq<char>, path: Seq<char> },
    Write { sandbox_id: Seq<char>, path: Seq<char>, bytes_b64: Seq<char> },
    Destroy { sandbox_id: Seq<char> },
}

impl View for HelperRequest {
    type V = RequestModel;

    open spec fn view(&self) -> RequestModel {
        match self {
            HelperRequest::Create {
                sandbox_id,
                template,
                workspace_dir,
                runtime,
                network_mode,
                network_allowlist,
                memory_mb,
                vcpu_count,
            } => RequestModel::Create {
                sandbox_id: sandbox_id@,
                template: template@,
                workspace_dir: opt_view(*workspace_dir),
                runtime: runtime@,
                network_mode: network_mode@,
                network_allowlist: views(network_allowlist@),
                memory_mb: *memory_mb,
                vcpu_count: *vcpu_count,
            },
            HelperRequest::Exec { sandbox_id, command, timeout_secs } => RequestModel::Exec {
                sandbox_id: sandbox_id@,
                command: views(command@),
                timeout_secs: *timeout_secs,
            },
            HelperRequest::Read { sandbox_id, path } => RequestModel::Read {
                sandbox_id: sandbox_id@,
                path: path@,
            },
            HelperRequest::Write { sandbox_id, path, bytes_b64 } => RequestModel::Write {
                sandbox_id: sandbox_id@,
                path: path@,
                bytes_b64: bytes_b64@,
            },
            HelperRequest::Destroy { sandbox_id } => RequestModel::Destroy {
                sandbox_id: sandbox_id@,
            },
        }
    }
}

/// An answer of the helper program.
#[derive(Debug, Clone, PartialEq, Eq)]
pub enum HelperResponse {
    Ack,
    Exec { exit_code: i32, stdout: String, stderr: String, duration_ms: u64 },
    Read { bytes_b64: String },
    Error { message: String },
}

impl HelperResponse {
    /// The answer as a message shows it.
    pub open spec fn shown(self) -> Seq<char> {
        match self {
            HelperResponse::Ack => "Ack"@,
            HelperResponse::Exec { exit_code, stdout, stderr, duration_ms } => "Exec { exit_code: "@
                + decimal_int(exit_code as int) + ", stdout: "@ + quoted(stdout@) + ", stderr: "@
                + quoted(stderr@) + ", duration_ms: "@ + decimal(duration_ms as nat) + " }"@,
            HelperResponse::Read { bytes_b64 } => "Read { bytes_b64: "@ + quoted(bytes_b64@)
                + " }"@,
            HelperResponse::Error { message } => "Error { message: "@ + quoted(message@) + " }"@,
        }
    }

    pub fn show(&self) -> (r: String)
        ensures
            r@ == self.shown(),
    {
        match self {
            HelperResponse::Ack => "Ack".to_owned(),
            HelperResponse::Exec { exit_code, stdout, stderr, duration_ms } => {
                let code = i64_text(*exit_code as i64);
                let out = quote(stdout.as_str());
                let err = quote(stderr.as_str());
                let ms = u64_text(*duration_ms);
                let head = cat4("Exec { exit_code: ", code.as_str(), ", stdout: ", out.as_str());
                let middle = cat4(head.as_str(), ", stderr: ", err.as_str(), ", duration_ms: ");
                cat3(middle.as_str(), ms.as_str(), " }")
            },
            HelperResponse::Read { bytes_b64 } => cat3(
                "Read { bytes_b64: ",
                quote(bytes_b64.as_str()).as_str(),
                " }",
            ),
            HelperResponse::Error { message } => cat3(
                "Error { message: ",
                quote(message.as_str()).as_str(),
                " }",
            ),
        }
    }
}

/// A sandbox that stands in a container of its own.
#[derive(Debug, Clone, PartialEq, Eq)]
pub struct DirectContainerSandbox {
    pub container_name: String,
    pub workspace_host: String,
    pub ephemeral_workspace: bool,
}

impl DirectContainerSandbox {
    pub fn copy(&self) -> (r: Self)
        ensures
            r == *self,
    {
        DirectContainerSandbox {
            container_name: self.container_name.clone(),
            workspace_host: self.workspace_host.clone(),
            ephemeral_workspace: self.ephemeral_workspace,
        }
    }
}

#[derive(Debug)]
pub struct AppleSandbox {
    pub info: SandboxInfo,
    pub config: SandboxConfig,
    pub direct_container: Option<DirectContainerSandbox>,
}

#[derive(Debug)]
pub struct AppleVzBackend {
    pub config: AppleBackendConfig,
    pub sandboxes: Table<u128, AppleSandbox>,
    pub direct_container_bin: Option<String>,
}

/// The argument behind a flag, where the flag stands first.
pub open spec fn argument_after(args: Seq<Seq<char>>, flag: Seq<char>) -> Option<Seq<char>>
    decreases args.len(),
{
    if args.len() == 0 {
        None
    } else if args[0] == flag {
        if args.len() > 1 {
            Some(args[1])
        } else {
            None
        }
    } else {
        argument_after(args.subrange(1, args.len() as int), flag)
    }
}

pub fn extract_container_bin_from_helper_args(args: &Vec<String>) -> (r: Option<String>)
    ensures
        opt_view(r) == argument_after(views(args@), "--container-bin"@),
{
    let mut i: usize = 0;
    let ghost all = views(args@);
    assert(all.subrange(0, all.len() as int) =~= all);
    while i < args.len()
        invariant
            i <= args.len(),
            all == views(args@),
            argument_after(all, "--container-bin"@) == argument_after(
                all.subrange(i as int, all.len() as int),
                "--container-bin"@,
            ),
        decreases args.len() - i,
    {
        let ghost rest = all.subrange(i as int, all.len() as int);
        assert(rest[0] == args@[i as int]@);
        if same(args[i].as_str(), "--container-bin") {
            if i + 1 < args.len() {
                assert(rest[1] == args@[i + 1]@);
                return Some(args[i + 1].clone());
            }
            return None;
        }
        assert(rest.subrange(1, rest.len() as int) =~= all.subrange(i + 1, all.len() as int));
        i = i + 1;
    }
    None
}

/// The container tool that is called directly: only with the helper that comes with this
/// program, and then the one that the helper is told of.
pub open spec fn direct_bin(command: Option<Seq<Seq<char>>>) -> Option<Seq<char>> {
    match command {
        None => None,
        Some(args) => if args.len() < 2 || args[1] != "apple-helper"@ {
            None
        } else {
            match argument_after(args, "--container-bin"@) {
                Some(bin) => Some(bin),
                None => Some("container"@),
            }
        },
    }
}

pub open spec fn command_view(command: Option<Vec<String>>) -> Option<Seq<Seq<char>>> {
    match command {
        Some(c) => Some(views(c@)),
        None => None,
    }
}

pub fn resolve_direct_container_bin(launch_command: &Option<Vec<String>>) -> (r: Option<String>)
    ensures
        opt_view(r) == direct_bin(command_view(*launch_command)),
{
    match launch_command {
        None => None,
        Some(command) => {
            if command.len() < 2 {
                return None;
            }
            assert(views(command@)[1] == command@[1]@);
            if !same(command[1].as_str(), "apple-helper") {
                return None;
            }
            match extract_container_bin_from_helper_args(command) {
                Some(bin) => Some(bin),
                None => Some("container".to_owned()),
            }
        },
    }
}

/// Networks that the containers can hold to.
pub fn ensure_supported_apple_network_mode(network: &NetworkMode) -> (r: Result<(), HyperboxError>)
    ensures
        network@ is Allowlist ==> invalid_config(r, allowlist_complaint()),
        !(network@ is Allowlist) ==> r is Ok,
{
    match network {
        NetworkMode::Allowlist(_) => Err(
            HyperboxError::InvalidConfig(
                "apple backend does not enforce allowlist yet; use network=none or network=full".to_owned(),
            ),
        ),
        _ => Ok(()),
    }
}

/// A network in a request to the helper program.
pub open spec fn network_fields(network: NetworkModel) -> (Seq<char>, Seq<Seq<char>>) {
    match network {
        NetworkModel::NoNetwork => ("none"@, Seq::<Seq<char>>::empty()),
        NetworkModel::Full => ("full"@, Seq::<Seq<char>>::empty()),
        NetworkModel::Allowlist(list) => ("allowlist"@, crate::config::patterns(list)),
    }
}

pub fn helper_network_fields(network: &NetworkMode) -> (r: (String, Vec<String>))
    ensures
        (r.0@, views(r.1@)) == network_fields(network@),
{
    match network {
        NetworkMode::NoNetwork => {
            let none: Vec<String> = Vec::new();
            assert(views(none@) =~= Seq::<Seq<char>>::empty());
            ("none".to_owned(), none)
        },
        NetworkMode::Full => {
            let none: Vec<String> = Vec::new();
            assert(views(none@) =~= Seq::<Seq<char>>::empty());
            ("full".to_owned(), none)
        },
        NetworkMode::Allowlist(list) => ("allowlist".to_owned(), list.to_strings()),
    }
}

/// The path of a snapshot's archive below the workspace.
pub open spec fn archive_path(id: SnapshotId) -> Seq<char> {
    ".hyperbox/snapshots"@ + "/"@ + hyphenated(id.0) + ".tar.gz"@
}

pub fn snapshot_archive_relpath(snapshot_id: &SnapshotId) -> (r: String)
    ensures
        r@ == archive_path(*snapshot_id),
{
    cat4(".hyperbox/snapshots", "/", snapshot_id.text().as_str(), ".tar.gz")
}

/// The script that packs the system of a sandbox.
pub open spec fn pack_script(archive: Seq<char>) -> Seq<char> {
    "set -eu; mkdir -p /workspace/.hyperbox/snapshots; set --; for d in bin boot etc home lib lib64 opt root sbin srv usr var; do [ -e \"/$d\" ] && set -- \"$@\" \"$d\"; done; [ \"$#\" -gt 0 ]; tar --ignore-failed-read -czf "@
        + archive + " -C / \"$@\""@
}

pub fn snapshot_create_command(snapshot_archive_abs: &str) -> (r: String)
    ensures
        r@ == pack_script(snapshot_archive_abs@),
{
    cat3(
        "set -eu; mkdir -p /workspace/.hyperbox/snapshots; set --; for d in bin boot etc home lib lib64 opt root sbin srv usr var; do [ -e \"/$d\" ] && set -- \"$@\" \"$d\"; done; [ \"$#\" -gt 0 ]; tar --ignore-failed-read -czf ",
        snapshot_archive_abs,
        " -C / \"$@\"",
    )
}

/// The script that unpacks the system of a sandbox.
pub open spec fn unpack_script(archive: Seq<char>) -> Seq<char> {
    "tar --no-same-owner --no-same-permissions --no-overwrite-dir --touch -xzf "@ + archive
        + " -C /"@
}

pub fn snapshot_restore_command(snapshot_archive_abs: &str) -> (r: String)
    ensures
        r@ == unpack_script(snapshot_archive_abs@),
{
    cat3(
        "tar --no-same-owner --no-same-permissions --no-overwrite-dir --touch -xzf ",
        snapshot_archive_abs,
        " -C /",
    )
}

/// What a path that does not stay below the workspace is refused with.
pub open spec fn path_complaint(fault: PathFault) -> Seq<char> {
    match fault {
        PathFault::Absolute => "absolute paths are not allowed"@,
        PathFault::Traversal => "path traversal is not allowed"@,
        PathFault::Empty => "path cannot be empty"@,
    }
}

pub fn complain_of_path(fault: PathFault) -> (r: String)
    ensures
        r@ == path_complaint(fault),
{
    match fault {
        PathFault::Absolute => "absolute paths are not allowed".to_owned(),
        PathFault::Traversal => "path traversal is not allowed".to_owned(),
        PathFault::Empty => "path cannot be empty".to_owned(),
    }
}

/// The names of a path below the workspace.
pub fn normalize_relative_path(raw: &str) -> (r: Result<Vec<String>, HyperboxError>)
    ensures
        match names_below(raw@) {
            Ok(names) => r matches Ok(list) && views(list@) == names,
            Err(fault) => execution_failed(r, path_complaint(fault)),
        },
{
    match relative_names(raw) {
        Ok(list) => Ok(list),
        Err(fault) => Err(HyperboxError::ExecutionFailed(complain_of_path(fault))),
    }
}

/// What an operation of the backend asks for.
#[derive(Debug)]
pub enum AppleEffect {
    // The files of the host.
    CreateDirAll(String),
    Canonicalize(String),
    RemoveDirAll(String),
    /// Remove the directory that this path stands in, if it is empty.
    RemoveParent(String),
    /// Make the directories that this path stands in.
    MakeParents(String),
    Exists(String),
    Copy(String, String),
    ReadHost(String),
    WriteHost(String, Vec<u8>),
    RemoveFile(String),
    // The container tool, the helper program and the agent.
    Container(ContainerCall),
    Helper(HelperRequest),
    AgentExec(String, ExecRequest),
    AgentRead(String, String),
    AgentWrite(String, FilePayload),
    // Other operations of the backend.
    Create(SandboxConfig),
    Exec(SandboxId, ExecRequest),
    ReadFile(SandboxId, String),
    WriteFile(SandboxId, FilePayload),
    Destroy(SandboxId),
}

/// What came of it.
#[derive(Debug)]
pub enum AppleReply {
    IoFailed(String),
    Failed(HyperboxError),
    /// The agent cannot be reached.
    Unreachable(String),
    /// The agent refused.
    Refused(String),
    Unit,
    Canonical(String, bool),
    Ran(CommandResult),
    Helped(HelperResponse),
    Outcome(ExecOutcome),
    Bytes(Vec<u8>),
    Payload(FilePayload),
    Lease(SandboxLease),
    Exists(bool),
}

#[derive(Debug)]
pub enum AppleStep<T> {
    Ask(AppleEffect),
    Done(Result<T, HyperboxError>),
    /// The reply does not answer what was asked.
    Stray,
}

/// The operation ends with this execution complaint.
pub open spec fn ends_in<T>(step: AppleStep<T>, text: Seq<char>) -> bool {
    step matches AppleStep::Done(r) && execution_failed(r, text)
}

/// The operation ends with this error of the file system.
pub open spec fn ends_in_io<T>(step: AppleStep<T>, text: Seq<char>) -> bool {
    step matches AppleStep::Done(Err(HyperboxError::Io(s))) && s@ == text
}

/// The operation ends with this configuration complaint.
pub open spec fn ends_in_config<T>(step: AppleStep<T>, text: Seq<char>) -> bool {
    step matches AppleStep::Done(r) && invalid_config(r, text)
}

/// The operation ends because the sandbox is not there.
pub open spec fn ends_unfound<T>(step: AppleStep<T>, id: SandboxId) -> bool {
    step matches AppleStep::Done(r) && sandbox_not_found(r, hyphenated(id.0))
}

pub open spec fn asks_container<T>(step: AppleStep<T>, call: CallModel) -> bool {
    step matches AppleStep::Ask(AppleEffect::Container(c)) && c@ == call
}

pub open spec fn asks_helper<T>(step: AppleStep<T>, request: RequestModel) -> bool {
    step matches AppleStep::Ask(AppleEffect::Helper(h)) && h@ == request
}

pub open spec fn asks_shell<T>(
    step: AppleStep<T>,
    id: SandboxId,
    script: Seq<char>,
    timeout_secs: u64,
) -> bool {
    step matches AppleStep::Ask(AppleEffect::Exec(i, r)) && i == id && r@ == shell_model(
        script,
        timeout_secs,
    )
}

pub open spec fn asks_dir<T>(step: AppleStep<T>, path: Seq<char>) -> bool {
    step matches AppleStep::Ask(AppleEffect::CreateDirAll(p)) && p@ == path
}

/// The helper answered with something else than what was asked for.
pub open spec fn ends_with_answer<T>(
    step: AppleStep<T>,
    what: Seq<char>,
    response: HelperResponse,
) -> bool {
    ends_in(
        step,
        match response {
            HelperResponse::Error { message } => "apple helper "@ + what + " failed: "@ + message@,
            _ => "unexpected apple helper response on "@ + what + ": "@ + response.shown(),
        },
    )
}

pub(crate) fn refuse_answer(what: &str, response: HelperResponse) -> (r: HyperboxError)
    ensures
        r matches HyperboxError::ExecutionFailed(s) && s@ == match response {
            HelperResponse::Error { message } => "apple helper "@ + what@ + " failed: "@ + message@,
            _ => "unexpected apple helper response on "@ + what@ + ": "@ + response.shown(),
        },
{
    match response {
        HelperResponse::Error { message } => HyperboxError::ExecutionFailed(
            cat4("apple helper ", what, " failed: ", message.as_str()),
        ),
        other => {
            let shown = other.show();
            HyperboxError::ExecutionFailed(
                cat4("unexpected apple helper response on ", what, ": ", shown.as_str()),
            )
        },
    }
}

/// The backend afterwards is the one before but for the sandboxes that it keeps.
pub open spec fn keeping(
    before: AppleVzBackend,
    after: AppleVzBackend,
    sandboxes: Map<u128, AppleSandbox>,
) -> bool {
    &&& after.config == before.config
    &&& after.direct_container_bin == before.direct_container_bin
    &&& after.sandboxes@ == sandboxes
}

/// Whether the helper program has to be started before a request.
#[derive(Debug, PartialEq, Eq)]
pub enum SessionPlan {
    Keep,
    Spawn(String, Vec<String>),
}

impl AppleVzBackend {
    pub fn new(config: AppleBackendConfig) -> (r: Self)
        ensures
            r.config == config,
            r.sandboxes@ == Map::<u128, AppleSandbox>::empty(),
            opt_view(r.direct_container_bin) == direct_bin(command_view(config.launch_command)),
    {
        let direct_container_bin = resolve_direct_container_bin(&config.launch_command);
        AppleVzBackend { config, sandboxes: Table::new(), direct_container_bin }
    }

    pub fn runtime_name(&self) -> (r: &'static str)
        ensures
            r@ == self.config.runtime_kind.word(),
    {
        match self.config.runtime_kind {
            AppleRuntimeKind::Containerization => "containerization",
            AppleRuntimeKind::Virtualization => "virtualization",
        }
    }

    pub fn use_direct_container_mode(&self) -> (r: bool)
        ensures
            r == self.direct_container_bin is Some,
    {
        self.direct_container_bin.is_some()
    }

    /// What is to be done before a request to the helper program, given whether one runs.
    pub fn plan_session(&self, running: bool) -> (r: Result<SessionPlan, HyperboxError>)
        ensures
            running ==> r == Ok::<SessionPlan, HyperboxError>(SessionPlan::Keep),
            !running ==> match self.config.launch_command {
                None => invalid_config(r, "apple helper session is not available"@),
                Some(command) => if command@.len() == 0 {
                    invalid_config(r, "apple launch command is empty"@)
                } else {
                    r matches Ok(SessionPlan::Spawn(program, args)) && program@ == command@[0]@
                        && views(args@) == views(command@).subrange(1, command@.len() as int)
                },
            },
    {
        if running {
            return Ok(SessionPlan::Keep);
        }
        match &self.config.launch_command {
            None => Err(
                HyperboxError::InvalidConfig("apple helper session is not available".to_owned()),
            ),
            Some(command) => {
                if command.len() == 0 {
                    return Err(
                        HyperboxError::InvalidConfig("apple launch command is empty".to_owned()),
                    );
                }
                let mut args = clone_texts(command);
                let ghost all = views(args@);
                assert(all == views(command@) && all.len() == args@.len());
                let program = args.remove(0);
                assert(all[0] == command@[0]@);
                assert(views(args@) =~= all.subrange(1, all.len() as int));
                Ok(SessionPlan::Spawn(program, args))
            },
        }
    }

    /// The container of a sandbox, if it has one of its own.
    pub fn direct_of(&self, id: SandboxId) -> (r: Result<
        Option<DirectContainerSandbox>,
        HyperboxError,
    >)
        ensures
            self.sandboxes@.contains_key(id.0) ==> r == Ok::<
                Option<DirectContainerSandbox>,
                HyperboxError,
            >(self.sandboxes@[id.0].direct_container),
            !self.sandboxes@.contains_key(id.0) ==> sandbox_not_found(r, hyphenated(id.0)),
    {
        match self.sandboxes.get(&id.0) {
            None => Err(HyperboxError::SandboxNotFound(id.text())),
            Some(sandbox) => match &sandbox.direct_container {
                Some(direct) => Ok(Some(direct.copy())),
                None => Ok(None),
            },
        }
    }

    pub fn inspect(&self, id: SandboxId) -> (r: Result<SandboxInfo, HyperboxError>)
        ensures
            self.sandboxes@.contains_key(id.0) ==> r == Ok::<SandboxInfo, HyperboxError>(
                self.sandboxes@[id.0].info,
            ),
            !self.sandboxes@.contains_key(id.0) ==> sandbox_not_found(r, hyphenated(id.0)),
    {
        match self.sandboxes.get(&id.0) {
            None => Err(HyperboxError::SandboxNotFound(id.text())),
            Some(sandbox) => Ok(sandbox.info.copy()),
        }
    }
}

/// The arguments that start the container of a sandbox.
pub open spec fn run_args(
    name: Seq<char>,
    workspace: Seq<char>,
    network: Seq<Seq<char>>,
    config: ConfigModel,
) -> Seq<Seq<char>> {
    seq![
        "run"@,
        "--detach"@,
        "--progress"@,
        "none"@,
        "--name"@,
        name,
        "--cpus"@,
        decimal(at_least_one(config.vcpu_count as u64) as nat),
        "--memory"@,
        decimal(at_least_one(config.memory_mb as u64) as nat) + "M"@,
        "--workdir"@,
        "/workspace"@,
        "--volume"@,
        workspace + ":/workspace"@,
    ] + network + seq![config.template, "sleep"@, "infinity"@]
}

/// The network arguments of a container that may be started.
pub open spec fn open_network_args(network: NetworkModel) -> Seq<Seq<char>> {
    match network {
        NetworkModel::NoNetwork => seq!["--network"@, "none"@],
        _ => Seq::<Seq<char>>::empty(),
    }
}

/// Texts at the end of a list.
pub(crate) fn append_texts(list: &mut Vec<String>, more: Vec<String>)
    ensures
        views(final(list)@) == views(old(list)@) + views(more@),
{
    let mut more = more;
    let ghost first = list@;
    let ghost last = more@;
    list.append(&mut more);
    assert(views(list@) =~= views(first) + views(last));
}

fn run_call(name: &str, workspace: &str, config: &SandboxConfig) -> (r: Result<
    ContainerCall,
    HyperboxError,
>)
    ensures
        config@.network is Allowlist ==> invalid_config(r, allowlist_complaint()),
        !(config@.network is Allowlist) ==> (r matches Ok(c) && c@ == plain_call(
            run_args(name@, workspace@, open_network_args(config@.network), config@),
            DEFAULT_IO_TIMEOUT_SECS,
        )),
{
    let cpus = u64_text(one_or_more(config.vcpu_count as u64));
    let memory = cat2(u64_text(one_or_more(config.memory_mb as u64)).as_str(), "M");
    let mount = cat2(workspace, ":/workspace");
    let network = match container_network_args(&config.network) {
        Ok(args) => args,
        Err(e) => {
            return Err(e);
        },
    };
    assert(views(network@) =~= open_network_args(config@.network));
    let mut args = texts(
        &[
            "run",
            "--detach",
            "--progress",
            "none",
            "--name",
            name,
            "--cpus",
            cpus.as_str(),
            "--memory",
            memory.as_str(),
            "--workdir",
            "/workspace",
            "--volume",
            mount.as_str(),
        ],
    );
    append_texts(&mut args, network);
    let tail = texts(&[config.template.as_str(), "sleep", "infinity"]);
    append_texts(&mut args, tail);
    assert(views(args@) =~= run_args(
        name@,
        workspace@,
        open_network_args(config@.network),
        config@,
    ));
    Ok(ContainerCall { args, stdin: None, timeout_secs: DEFAULT_IO_TIMEOUT_SECS })
}

/// The name of the container of a sandbox.
pub open spec fn container_name(id: SandboxId) -> Seq<char> {
    "hyperbox-"@ + hyphenated(id.0)
}

/// A sandbox on its way into a container.
#[derive(Debug)]
pub struct NewSandbox {
    pub id: SandboxId,
    pub created_at: Timestamp,
    pub config: SandboxConfig,
}

impl NewSandbox {
    /// What is known of the sandbox once it stands.
    pub open spec fn info(self) -> SandboxInfo {
        SandboxInfo {
            id: self.id,
            template: self.config.template,
            state: SandboxState::Ready,
            created_at: self.created_at,
        }
    }

    pub open spec fn request(self, runtime: AppleRuntimeKind) -> RequestModel {
        RequestModel::Create {
            sandbox_id: hyphenated(self.id.0),
            template: self.config.template@,
            workspace_dir: opt_view(self.config.workspace_dir),
            runtime: runtime.word(),
            network_mode: network_fields(self.config.network@).0,
            network_allowlist: network_fields(self.config.network@).1,
            memory_mb: Some(self.config.memory_mb),
            vcpu_count: Some(self.config.vcpu_count as u32),
        }
    }
}

/// The making of a sandbox.
#[derive(Debug)]
pub enum AppleCreate {
    MakingWorkDir(NewSandbox),
    Canonicalizing(NewSandbox, String),
    MakingWorkspace(NewSandbox, String),
    Running(NewSandbox, DirectContainerSandbox),
    Requesting(NewSandbox),
    Over,
}

/// Why a sandbox cannot be made at all.
pub open spec fn create_complaint(
    config: AppleBackendConfig,
    network: NetworkModel,
    containers_supported: bool,
) -> Option<Seq<char>> {
    if network is Allowlist {
        Some(allowlist_complaint())
    } else if let Some(command) = config.launch_command {
        if config.runtime_kind == AppleRuntimeKind::Containerization && !containers_supported {
            if command@.len() >= 2 && command@[1]@ == "apple-helper"@ {
                Some(
                    "apple built-in helper currently supports only containerization runtime, but this host does not support Apple Containerization framework; set HYPERBOX_BACKEND=local or configure an external virtualization-capable helper via HYPERBOX_APPLE_HELPER"@,
                )
            } else {
                Some("apple containerization runtime requested but not available on this host"@)
            }
        } else {
            None
        }
    } else {
        Some("apple backend requires HYPERBOX_APPLE_HELPER to be configured"@)
    }
}

impl AppleCreate {
    pub fn begin(
        backend: &AppleVzBackend,
        id: SandboxId,
        created_at: Timestamp,
        config: SandboxConfig,
        containers_supported: bool,
    ) -> (r: (Self, AppleStep<SandboxLease>))
        ensures
            match create_complaint(backend.config, config@.network, containers_supported) {
                Some(text) => r.0 is Over && ends_in_config(r.1, text),
                None => r.0 == AppleCreate::MakingWorkDir(NewSandbox { id, created_at, config })
                    && asks_dir(r.1, backend.config.work_dir@),
            },
    {
        if let Err(e) = ensure_supported_apple_network_mode(&config.network) {
            return (AppleCreate::Over, AppleStep::Done(Err(e)));
        }
        let command = match &backend.config.launch_command {
            Some(c) => c,
            None => {
                return (
                    AppleCreate::Over,
                    AppleStep::Done(
                        Err(
                            HyperboxError::InvalidConfig(
                                "apple backend requires HYPERBOX_APPLE_HELPER to be configured".to_owned(),
                            ),
                        ),
                    ),
                );
            },
        };
        if backend.config.runtime_kind == AppleRuntimeKind::Containerization
            && !containers_supported {
            let message = if command.len() >= 2 && same(command[1].as_str(), "apple-helper") {
                "apple built-in helper currently supports only containerization runtime, but this host does not support Apple Containerization framework; set HYPERBOX_BACKEND=local or configure an external virtualization-capable helper via HYPERBOX_APPLE_HELPER"
            } else {
                "apple containerization runtime requested but not available on this host"
            };
            return (
                AppleCreate::Over,
                AppleStep::Done(Err(HyperboxError::InvalidConfig(message.to_owned()))),
            );
        }
        (
            AppleCreate::MakingWorkDir(NewSandbox { id, created_at, config }),
            AppleStep::Ask(AppleEffect::CreateDirAll(backend.config.work_dir.clone())),
        )
    }

    /// The container of the sandbox is started.
    pub open spec fn starts(
        new: NewSandbox,
        workspace: Seq<char>,
        next: Self,
        step: AppleStep<SandboxLease>,
    ) -> bool {
        if new.config@.network is Allowlist {
            next is Over && ends_in_config(step, allowlist_complaint())
        } else {
            &&& next matches AppleCreate::Running(n, direct)
            &&& n == new
            &&& direct.container_name@ == container_name(new.id)
            &&& direct.workspace_host@ == workspace
            &&& direct.ephemeral_workspace == new.config.workspace_dir is None
            &&& asks_container(
                step,
                plain_call(
                    run_args(
                        container_name(new.id),
                        workspace,
                        open_network_args(new.config@.network),
                        new.config@,
                    ),
                    DEFAULT_IO_TIMEOUT_SECS,
                ),
            )
        }
    }

    /// The sandbox is kept and handed out.
    pub open spec fn settles(
        new: NewSandbox,
        direct: Option<DirectContainerSandbox>,
        before: AppleVzBackend,
        after: AppleVzBackend,
        next: Self,
        step: AppleStep<SandboxLease>,
    ) -> bool {
        &&& next is Over
        &&& step == AppleStep::Done(Ok(SandboxLease { id: new.id, info: new.info() }))
        &&& keeping(
            before,
            after,
            before.sandboxes@.insert(
                new.id.0,
                AppleSandbox { info: new.info(), config: new.config, direct_container: direct },
            ),
        )
    }

    /// What a reply leads to. The sandbox is kept only once its container runs, or once the
    /// helper program has acknowledged it.
    pub open spec fn follows(
        self,
        reply: AppleReply,
        before: AppleVzBackend,
        after: AppleVzBackend,
        next: Self,
        step: AppleStep<SandboxLease>,
    ) -> bool {
        match (self, reply) {
            (AppleCreate::Over, _) => next is Over && step is Stray && after == before,
            (AppleCreate::MakingWorkDir(new), AppleReply::Unit) => after == before
                && if before.direct_container_bin is None {
                next == AppleCreate::Requesting(new) && asks_helper(
                    step,
                    new.request(before.config.runtime_kind),
                )
            } else {
                match new.config.workspace_dir {
                    Some(dir) => (next matches AppleCreate::Canonicalizing(n, d) && n == new && d@
                        == dir@) && (step matches AppleStep::Ask(AppleEffect::Canonicalize(p))
                        && p@ == dir@),
                    None => {
                        let path = below(
                            below(before.config.work_dir@, hyphenated(new.id.0)),
                            "workspace"@,
                        );
                        (next matches AppleCreate::MakingWorkspace(n, p) && n == new && p@ == path)
                            && asks_dir(step, path)
                    },
                }
            },
            (AppleCreate::MakingWorkDir(_), AppleReply::IoFailed(e)) => next is Over && ends_in_io(
                step,
                e@,
            ) && after == before,
            (AppleCreate::Canonicalizing(new, _), AppleReply::Canonical(path, is_dir)) => after
                == before && if is_dir {
                Self::starts(new, path@, next, step)
            } else {
                next is Over && ends_in(step, "workspace_dir must be a directory: "@ + path@)
            },
            (AppleCreate::Canonicalizing(_, dir), AppleReply::IoFailed(e)) => next is Over
                && ends_in(
                step,
                "workspace_dir does not exist or is not accessible `"@ + dir@ + "`: "@ + e@,
            ) && after == before,
            (AppleCreate::MakingWorkspace(new, path), AppleReply::Unit) => Self::starts(
                new,
                path@,
                next,
                step,
            ) && after == before,
            (AppleCreate::MakingWorkspace(_, path), AppleReply::IoFailed(e)) => next is Over
                && ends_in(step, "create workspace directory `"@ + path@ + "`: "@ + e@) && after
                == before,
            (AppleCreate::Running(new, direct), AppleReply::Ran(result)) => if result.exit_code
                == 0 {
                Self::settles(new, Some(direct), before, after, next, step)
            } else {
                next is Over && ends_in(
                    step,
                    exit_report("container run"@, result.exit_code, summary(result.stderr@)),
                ) && after == before
            },
            (AppleCreate::Requesting(new), AppleReply::Helped(response)) => if response is Ack {
                Self::settles(new, None, before, after, next, step)
            } else {
                next is Over && ends_with_answer(step, "create"@, response) && after == before
            },
            (_, AppleReply::Failed(e)) => next is Over && step == AppleStep::<SandboxLease>::Done(
                Err(e),
            ) && after == before,
            _ => next == self && step is Stray && after == before,
        }
    }

    fn start(new: NewSandbox, workspace: String) -> (r: (Self, AppleStep<SandboxLease>))
        ensures
            Self::starts(new, workspace@, r.0, r.1),
    {
        let name = cat2("hyperbox-", new.id.text().as_str());
        match run_call(name.as_str(), workspace.as_str(), &new.config) {
            Err(e) => (AppleCreate::Over, AppleStep::Done(Err(e))),
            Ok(call) => {
                let direct = DirectContainerSandbox {
                    container_name: name,
                    workspace_host: workspace,
                    ephemeral_workspace: new.config.workspace_dir.is_none(),
                };
                (
                    AppleCreate::Running(new, direct),
                    AppleStep::Ask(AppleEffect::Container(call)),
                )
            },
        }
    }

    fn settle(
        new: NewSandbox,
        direct: Option<DirectContainerSandbox>,
        backend: &mut AppleVzBackend,
    ) -> (r: (Self, AppleStep<SandboxLease>))
        ensures
            Self::settles(new, direct, *old(backend), *final(backend), r.0, r.1),
    {
        let info = SandboxInfo {
            id: new.id,
            template: new.config.template.clone(),
            state: SandboxState::Ready,
            created_at: new.created_at,
        };
        let kept = info.copy();
        backend.sandboxes.insert(
            new.id.0,
            AppleSandbox { info: kept, config: new.config, direct_container: direct },
        );
        (AppleCreate::Over, AppleStep::Done(Ok(SandboxLease { id: new.id, info })))
    }

    fn fail(text: String) -> (r: (Self, AppleStep<SandboxLease>))
        ensures
            r.0 is Over,
            ends_in(r.1, text@),
    {
        (AppleCreate::Over, AppleStep::Done(Err(HyperboxError::ExecutionFailed(text))))
    }

    pub fn resume(self, reply: AppleReply, backend: &mut AppleVzBackend) -> (r: (
        Self,
        AppleStep<SandboxLease>,
    ))
        ensures
            self.follows(reply, *old(backend), *final(backend), r.0, r.1),
    {
        match (self, reply) {
            (AppleCreate::Over, _) => (AppleCreate::Over, AppleStep::Stray),
            (AppleCreate::MakingWorkDir(new), AppleReply::Unit) => {
                if backend.direct_container_bin.is_none() {
                    let (network_mode, network_allowlist) = helper_network_fields(
                        &new.config.network,
                    );
                    let request = HelperRequest::Create {
                        sandbox_id: new.id.text(),
                        template: new.config.template.clone(),
                        workspace_dir: clone_opt(&new.config.workspace_dir),
                        runtime: backend.runtime_name().to_owned(),
                        network_mode,
                        network_allowlist,
                        memory_mb: Some(new.config.memory_mb),
                        vcpu_count: Some(new.config.vcpu_count as u32),
                    };
                    return (
                        AppleCreate::Requesting(new),
                        AppleStep::Ask(AppleEffect::Helper(request)),
                    );
                }
                match &new.config.workspace_dir {
                    Some(dir) => {
                        let kept = dir.clone();
                        let asked = dir.clone();
                        (
                            AppleCreate::Canonicalizing(new, kept),
                            AppleStep::Ask(AppleEffect::Canonicalize(asked)),
                        )
                    },
                    None => {
                        let root = join_path(
                            backend.config.work_dir.as_str(),
                            new.id.text().as_str(),
                        );
                        let path = join_path(root.as_str(), "workspace");
                        let asked = path.clone();
                        (
                            AppleCreate::MakingWorkspace(new, path),
                            AppleStep::Ask(AppleEffect::CreateDirAll(asked)),
                        )
                    },
                }
            },
            (AppleCreate::MakingWorkDir(_), AppleReply::IoFailed(e)) => (
                AppleCreate::Over,
                AppleStep::Done(Err(HyperboxError::Io(e))),
            ),
            (AppleCreate::Canonicalizing(new, _), AppleReply::Canonical(path, is_dir)) => {
                if is_dir {
                    Self::start(new, path)
                } else {
                    Self::fail(cat2("workspace_dir must be a directory: ", path.as_str()))
                }
            },
            (AppleCreate::Canonicalizing(_, dir), AppleReply::IoFailed(e)) => Self::fail(
                cat4(
                    "workspace_dir does not exist or is not accessible `",
                    dir.as_str(),
                    "`: ",
                    e.as_str(),
                ),
            ),
            (AppleCreate::MakingWorkspace(new, path), AppleReply::Unit) => Self::start(new, path),
            (AppleCreate::MakingWorkspace(_, path), AppleReply::IoFailed(e)) => Self::fail(
                cat4("create workspace directory `", path.as_str(), "`: ", e.as_str()),
            ),
            (AppleCreate::Running(new, direct), AppleReply::Ran(result)) => {
                if result.exit_code == 0 {
                    Self::settle(new, Some(direct), backend)
                } else {
                    let detail = stderr_summary(&result.stderr);
                    Self::fail(report_exit("container run", result.exit_code, detail.as_str()))
                }
            },
            (AppleCreate::Requesting(new), AppleReply::Helped(response)) => match response {
                HelperResponse::Ack => Self::settle(new, None, backend),
                other => (
                    AppleCreate::Over,
                    AppleStep::Done(Err(refuse_answer("create", other))),
                ),
            },
            (_, AppleReply::Failed(e)) => (AppleCreate::Over, AppleStep::Done(Err(e))),
            (state, _) => (state, AppleStep::Stray),
        }
    }
}

} // verus!
