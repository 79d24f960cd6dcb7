//! The backend that keeps each sandbox in a machine of its own.

use crate::config::{patterns, NetworkMode, NetworkModel, SandboxConfig};
use crate::error::{execution_failed, invalid_config, sandbox_not_found, HyperboxError};
use crate::firecracker::allowlist::FoundIp;
use crate::firecracker::vm::{FirecrackerBinary, FirecrackerVmConfig};
use crate::firecracker::workspace::AgentWorkspaceBinding;
use crate::ids::hyphenated;
use crate::model::{
    ExecOutcome, ExecRequest, FilePayload, SandboxId, SandboxInfo, SandboxLease, SandboxState,
};
use crate::network::firewall::{
    apply_plan, build_allowlist_population_plan, build_apply_plan, build_teardown_plan,
    command_views, population_plan, teardown_plan, CommandSpec, VmNetworkSpec,
};
use crate::paths::{below, join_path};
use crate::table::Table;
use crate::text::{cat2, first_chars, opt_view, take_chars, views};
use crate::time::Timestamp;
use vstd::prelude::*;

verus! {

#[derive(Debug)]
pub struct FirecrackerBackendConfig {
    pub work_dir: String,
    pub firecracker_binary: FirecrackerBinary,
    pub kernel_image: String,
    pub agent_endpoint: String,
    pub agent_root: String,
    pub auto_start_agent: bool,
    pub rootfs_by_template: Table<String, String>,
    pub host_iface: String,
    pub network_dry_run: bool,
}

impl FirecrackerBackendConfig {
    /// What holds where nothing else is set, below the directory for temporary files.
    pub fn defaults(temp_dir: &str) -> (r: Self)
        ensures
            r.work_dir@ == below(temp_dir@, "hyperbox-firecracker"@),
            r.firecracker_binary.firecracker_path@ == "firecracker"@,
            r.kernel_image@ == "/var/lib/hyperbox/vmlinux"@,
            r.agent_endpoint@ == "http://127.0.0.1:60061"@,
            r.agent_root@ == below(temp_dir@, "hyperbox-agentd"@),
            r.auto_start_agent,
            r.rootfs_by_template@ == Map::<Seq<char>, String>::empty(),
            r.host_iface@ == "eth0"@,
            r.network_dry_run,
    {
        FirecrackerBackendConfig {
            work_dir: join_path(temp_dir, "hyperbox-firecracker"),
            firecracker_binary: FirecrackerBinary {
                firecracker_path: "firecracker".to_owned(),
            },
            kernel_image: "/var/lib/hyperbox/vmlinux".to_owned(),
            agent_endpoint: "http://127.0.0.1:60061".to_owned(),
            agent_root: join_path(temp_dir, "hyperbox-agentd"),
            auto_start_agent: true,
            rootfs_by_template: Table::new(),
            host_iface: "eth0".to_owned(),
            network_dry_run: true,
        }
    }
}

#[derive(Debug)]
pub struct FirecrackerSandbox {
    pub config: SandboxConfig,
    pub info: SandboxInfo,
    pub network_spec: Option<VmNetworkSpec>,
    pub agent_workspace: AgentWorkspaceBinding,
}

#[derive(Debug)]
pub struct FirecrackerBackend {
    pub config: FirecrackerBackendConfig,
    pub sandboxes: Table<u128, FirecrackerSandbox>,
    /// Whether the agent of this program was started.
    pub agent_started: bool,
}

/// What an operation of the backend asks for.
#[derive(Debug)]
pub enum FcEffect {
    CreateDirAll(String),
    StartVm(FirecrackerVmConfig),
    /// Run these commands in their order, up to the first that fails.
    Firewall(Vec<CommandSpec>),
    /// Look the names of an allowlist up.
    Resolve(Vec<String>),
    /// Look them up again from time to time, and let the machine reach what is found.
    StartSync(String, Vec<String>),
    StopSync(SandboxId),
    /// Make the directory of the sandbox ready.
    Prepare(SandboxId, Option<String>),
    /// Give the directory of the sandbox up.
    Cleanup(AgentWorkspaceBinding),
    Terminate(SandboxId),
    // The agent.
    Connect,
    AgentExec(String, ExecRequest),
    AgentRead(String, String),
    AgentWrite(String, FilePayload),
    // Files of the host.
    Canonicalize(String),
    MakeParents(String),
    Exists(String),
    RemoveFile(String),
    RemoveDirAll(String),
    /// Pack a directory into an archive.
    Archive(String, String),
    /// Unpack an archive into a directory.
    Unpack(String, String),
    // Other operations of the backend.
    Create(SandboxConfig),
    Destroy(SandboxId),
}

/// What came of it.
#[derive(Debug)]
pub enum FcReply {
    Unit,
    IoFailed(String),
    Failed(HyperboxError),
    /// It failed for this reason.
    Refused(String),
    Addresses(Vec<FoundIp>),
    Binding(AgentWorkspaceBinding),
    Outcome(ExecOutcome),
    Bytes(Vec<u8>),
    Canonical(String, bool),
    Exists(bool),
    Lease(SandboxLease),
}

#[derive(Debug)]
pub enum FcStep<T> {
    Ask(FcEffect),
    Done(Result<T, HyperboxError>),
    Stray,
}

pub open spec fn fc_ends<T>(step: FcStep<T>, text: Seq<char>) -> bool {
    step matches FcStep::Done(r) && execution_failed(r, text)
}

pub open spec fn fc_config<T>(step: FcStep<T>, text: Seq<char>) -> bool {
    step matches FcStep::Done(r) && invalid_config(r, text)
}

pub open spec fn fc_io<T>(step: FcStep<T>, text: Seq<char>) -> bool {
    step matches FcStep::Done(Err(HyperboxError::Io(s))) && s@ == text
}

pub open spec fn fc_unfound<T>(step: FcStep<T>, id: SandboxId) -> bool {
    step matches FcStep::Done(r) && sandbox_not_found(r, hyphenated(id.0))
}

pub open spec fn fc_makes<T>(step: FcStep<T>, path: Seq<char>) -> bool {
    step matches FcStep::Ask(FcEffect::CreateDirAll(p)) && p@ == path
}

/// The backend afterwards is the one before but for the sandboxes that it keeps.
pub open spec fn fc_keeping(
    before: FirecrackerBackend,
    after: FirecrackerBackend,
    sandboxes: Map<u128, FirecrackerSandbox>,
) -> bool {
    &&& after.config == before.config
    &&& after.agent_started == before.agent_started
    &&& after.sandboxes@ == sandboxes
}

impl FirecrackerBackend {
    pub fn new(config: FirecrackerBackendConfig) -> (r: Self)
        ensures
            r.config == config,
            r.sandboxes@ == Map::<u128, FirecrackerSandbox>::empty(),
            !r.agent_started,
    {
        FirecrackerBackend { config, sandboxes: Table::new(), agent_started: false }
    }

    /// The disk of a template.
    pub fn resolve_rootfs(&self, template: &String) -> (r: Result<String, HyperboxError>)
        ensures
            self.config.rootfs_by_template@.contains_key(template@) ==> r == Ok::<
                String,
                HyperboxError,
            >(self.config.rootfs_by_template@[template@]),
            !self.config.rootfs_by_template@.contains_key(template@) ==> (r matches Err(
                HyperboxError::TemplateNotFound(s),
            ) && s@ == template@ + " (missing firecracker rootfs mapping)"@),
    {
        match self.config.rootfs_by_template.get(template) {
            Some(path) => Ok(path.clone()),
            None => Err(
                HyperboxError::TemplateNotFound(
                    cat2(template.as_str(), " (missing firecracker rootfs mapping)"),
                ),
            ),
        }
    }

    /// The directory of a machine.
    pub open spec fn vm_dir(self, id: SandboxId) -> Seq<char> {
        below(self.config.work_dir@, hyphenated(id.0))
    }

    /// The socket, the way to the agent and the log of a machine.
    pub fn vm_paths(&self, sandbox_id: SandboxId) -> (r: (String, String, String))
        ensures
            r.0@ == below(self.vm_dir(sandbox_id), "firecracker.sock"@),
            r.1@ == below(self.vm_dir(sandbox_id), "vsock.sock"@),
            r.2@ == below(self.vm_dir(sandbox_id), "firecracker.log"@),
    {
        let base = join_path(self.config.work_dir.as_str(), sandbox_id.text().as_str());
        (
            join_path(base.as_str(), "firecracker.sock"),
            join_path(base.as_str(), "vsock.sock"),
            join_path(base.as_str(), "firecracker.log"),
        )
    }

    pub fn inspect(&self, id: SandboxId) -> (r: Result<SandboxInfo, HyperboxError>)
        ensures
            self.sandboxes@.contains_key(id.0) ==> r == Ok::<SandboxInfo, HyperboxError>(
                self.sandboxes@[id.0].info,
            ),
            !self.sandboxes@.contains_key(id.0) ==> sandbox_not_found(r, hyphenated(id.0)),
    {
        match self.sandboxes.get(&id.0) {
            None => Err(HyperboxError::SandboxNotFound(id.text())),
            Some(sandbox) => Ok(sandbox.info.copy()),
        }
    }
}

/// A sandbox on its way into a machine.
#[derive(Debug)]
pub struct NewMachine {
    pub id: SandboxId,
    pub config: SandboxConfig,
}

impl NewMachine {
    pub open spec fn info(self, created_at: Timestamp) -> SandboxInfo {
        SandboxInfo {
            id: self.id,
            template: self.config.template,
            state: SandboxState::Ready,
            created_at,
        }
    }

    /// The network device of the machine on the host.
    pub open spec fn tap(self) -> Seq<char> {
        "hbx"@ + first_chars(hyphenated(self.id.0), 8)
    }

    fn tap_text(&self) -> (r: String)
        ensures
            r@ == self.tap(),
    {
        cat2("hbx", take_chars(self.id.text().as_str(), 8).as_str())
    }

    /// The machine of the sandbox.
    pub open spec fn machine(self, backend: FirecrackerBackend, vm: FirecrackerVmConfig) -> bool {
        &&& vm.vm_id@ == hyphenated(self.id.0)
        &&& vm.socket_path@ == below(backend.vm_dir(self.id), "firecracker.sock"@)
        &&& vm.kernel_image_path == backend.config.kernel_image
        &&& vm.rootfs_path == backend.config.rootfs_by_template@[self.config.template@]
        &&& vm.log_path@ == below(backend.vm_dir(self.id), "firecracker.log"@)
        &&& vm.memory_mb == self.config.memory_mb
        &&& vm.vcpu_count == self.config.vcpu_count
        &&& vm.boot_args@ == "console=ttyS0 reboot=k panic=1 pci=off"@
        &&& opt_view(vm.tap_name) == (if self.config@.network is NoNetwork {
            None::<Seq<char>>
        } else {
            Some(self.tap())
        })
        &&& vm.vsock_guest_cid == 3
        &&& vm.vsock_uds_path@ == below(backend.vm_dir(self.id), "vsock.sock"@)
    }

    /// The network of the machine.
    pub open spec fn network(self, backend: FirecrackerBackend, spec: VmNetworkSpec) -> bool {
        &&& spec.vm_id@ == hyphenated(self.id.0)
        &&& spec.tap_name@ == self.tap()
        &&& spec.host_iface == backend.config.host_iface
        &&& spec.guest_cidr@ == "172.16.0.0/30"@
        &&& spec.guest_ip@ == "172.16.0.2"@
    }
}

/// The texts of addresses.
pub open spec fn ip_texts(list: Seq<FoundIp>) -> Seq<Seq<char>> {
    Seq::new(list.len(), |i: int| list[i].text@)
}

fn texts_of(list: &Vec<FoundIp>) -> (r: Vec<String>)
    ensures
        views(r@) == ip_texts(list@),
{
    let mut out: Vec<String> = Vec::new();
    let mut i: usize = 0;
    while i < list.len()
        invariant
            i <= list.len(),
            views(out@) == ip_texts(list@).take(i as int),
        decreases list.len() - i,
    {
        let ghost before = out@;
        let text = list[i].text.clone();
        out.push(text);
        assert(views(out@) =~= views(before).push(text@));
        assert(ip_texts(list@).take(i + 1) =~= ip_texts(list@).take(i as int).push(text@));
        i = i + 1;
    }
    assert(ip_texts(list@).take(list@.len() as int) =~= ip_texts(list@));
    out
}

/// The making of a sandbox.
#[derive(Debug)]
pub enum FcCreate {
    MakingWorkDir(NewMachine),
    MakingVmDir(NewMachine),
    Starting(NewMachine),
    Firewalling(NewMachine, VmNetworkSpec),
    Resolving(NewMachine, VmNetworkSpec),
    Populating(NewMachine, VmNetworkSpec),
    Syncing(NewMachine, VmNetworkSpec),
    /// The machine is up and fenced in since this time.
    Preparing(NewMachine, Timestamp, Option<VmNetworkSpec>),
    Over,
}

/// Why a sandbox cannot be made at all.
pub open spec fn fc_complaint(dry_run: bool, network: NetworkModel) -> Option<Seq<char>> {
    if !(network is NoNetwork) && dry_run {
        Some(
            "network policy requires real firewall enforcement; set HYPERBOX_NETWORK_DRY_RUN=0"@,
        )
    } else if network matches NetworkModel::Allowlist(list) && list.len() == 0 {
        Some("allowlist mode requires at least one --allow domain"@)
    } else {
        None
    }
}

pub open spec fn runs<T>(
    step: FcStep<T>,
    commands: Seq<crate::network::firewall::CommandModel>,
) -> bool {
    step matches FcStep::Ask(FcEffect::Firewall(list)) && command_views(list@) == commands
}

impl FcCreate {
    pub fn begin(
        backend: &FirecrackerBackend,
        id: SandboxId,
        config: SandboxConfig,
    ) -> (r: (Self, FcStep<SandboxLease>))
        ensures
            match fc_complaint(backend.config.network_dry_run, config@.network) {
                Some(text) => r.0 is Over && fc_config(r.1, text),
                None => r.0 == FcCreate::MakingWorkDir(NewMachine { id, config })
                    && fc_makes(r.1, backend.config.work_dir@),
            },
    {
        let networked = match &config.network {
            NetworkMode::NoNetwork => false,
            _ => true,
        };
        if networked && backend.config.network_dry_run {
            return (
                FcCreate::Over,
                FcStep::Done(
                    Err(
                        HyperboxError::InvalidConfig(
                            "network policy requires real firewall enforcement; set HYPERBOX_NETWORK_DRY_RUN=0".to_owned(),
                        ),
                    ),
                ),
            );
        }
        if let NetworkMode::Allowlist(list) = &config.network {
            if list.is_empty() {
                return (
                    FcCreate::Over,
                    FcStep::Done(
                        Err(
                            HyperboxError::InvalidConfig(
                                "allowlist mode requires at least one --allow domain".to_owned(),
                            ),
                        ),
                    ),
                );
            }
        }
        (
            FcCreate::MakingWorkDir(NewMachine { id, config }),
            FcStep::Ask(FcEffect::CreateDirAll(backend.config.work_dir.clone())),
        )
    }

    /// The directory of the sandbox is made ready.
    pub open spec fn prepares(
        new: NewMachine,
        now: Timestamp,
        spec: Option<VmNetworkSpec>,
        next: Self,
        step: FcStep<SandboxLease>,
    ) -> bool {
        &&& next == FcCreate::Preparing(new, now, spec)
        &&& step matches FcStep::Ask(FcEffect::Prepare(id, dir))
        &&& id == new.id
        &&& opt_view(dir) == opt_view(new.config.workspace_dir)
    }

    /// What a reply leads to. The machine runs before its firewall is built; an allowlist is
    /// looked up and let through before the sandbox is handed out. It counts as made when its
    /// machine is up with its network.
    pub open spec fn follows(
        self,
        reply: FcReply,
        now: Timestamp,
        before: FirecrackerBackend,
        after: FirecrackerBackend,
        next: Self,
        step: FcStep<SandboxLease>,
    ) -> bool {
        match (self, reply) {
            (FcCreate::Over, _) => next is Over && step is Stray && after == before,
            (FcCreate::MakingWorkDir(new), FcReply::Unit) => after == before && next
                == FcCreate::MakingVmDir(new) && fc_makes(step, before.vm_dir(new.id)),
            (FcCreate::MakingVmDir(new), FcReply::Unit) => after == before
                && if before.config.rootfs_by_template@.contains_key(new.config.template@) {
                next == FcCreate::Starting(new) && (step matches FcStep::Ask(FcEffect::StartVm(vm))
                    && new.machine(before, vm))
            } else {
                next is Over && (step matches FcStep::Done(Err(HyperboxError::TemplateNotFound(s)))
                    && s@ == new.config.template@ + " (missing firecracker rootfs mapping)"@)
            },
            (FcCreate::Starting(new), FcReply::Unit) => after == before
                && if new.config@.network is NoNetwork {
                Self::prepares(new, now, None, next, step)
            } else {
                &&& next matches FcCreate::Firewalling(n, spec)
                &&& n == new
                &&& new.network(before, spec)
                &&& runs(step, apply_plan(spec, new.config@.network))
            },
            (FcCreate::Starting(_), FcReply::Refused(e)) => after == before && next is Over
                && fc_ends(step, "start firecracker vm: "@ + e@),
            (FcCreate::Firewalling(new, spec), FcReply::Unit) => after == before
                && match new.config@.network {
                NetworkModel::Allowlist(list) => next == FcCreate::Resolving(new, spec) && (step
                    matches FcStep::Ask(FcEffect::Resolve(domains)) && views(domains@) == patterns(
                    list,
                )),
                _ => Self::prepares(new, now, Some(spec), next, step),
            },
            (FcCreate::Firewalling(_, _), FcReply::Refused(e)) => after == before && next is Over
                && fc_ends(
                step,
                (if before.config.network_dry_run {
                    "dry-run firewall apply: "@
                } else {
                    "firewall apply: "@
                }) + e@,
            ),
            (FcCreate::Resolving(new, spec), FcReply::Addresses(list)) => after == before && next
                == FcCreate::Populating(new, spec) && runs(
                step,
                population_plan(spec.vm_id@, ip_texts(list@)),
            ),
            (FcCreate::Populating(new, spec), FcReply::Unit) => after == before && next
                == FcCreate::Syncing(new, spec) && (step matches FcStep::Ask(
                FcEffect::StartSync(vm_id, domains),
            ) && vm_id@ == spec.vm_id@ && views(domains@) == allowed_patterns(
                new.config@.network,
            )),
            (FcCreate::Populating(_, _), FcReply::Refused(e)) => after == before && next is Over
                && fc_ends(step, "populate allowlist ipset: "@ + e@),
            (FcCreate::Syncing(new, spec), FcReply::Unit) => after == before && Self::prepares(
                new,
                now,
                Some(spec),
                next,
                step,
            ),
            (FcCreate::Preparing(new, created_at, spec), FcReply::Binding(binding)) => {
                &&& next is Over
                &&& step == FcStep::Done(Ok(SandboxLease { id: new.id, info: new.info(created_at) }))
                &&& fc_keeping(
                    before,
                    after,
                    before.sandboxes@.insert(
                        new.id.0,
                        FirecrackerSandbox {
                            config: new.config,
                            info: new.info(created_at),
                            network_spec: spec,
                            agent_workspace: binding,
                        },
                    ),
                )
            },
            (_, FcReply::IoFailed(e)) => after == before && next is Over && fc_io(step, e@),
            (_, FcReply::Failed(e)) => after == before && next is Over && step == FcStep::<
                SandboxLease,
            >::Done(Err(e)),
            _ => after == before && next == self && step is Stray,
        }
    }

    fn fail(text: String) -> (r: (Self, FcStep<SandboxLease>))
        ensures
            r.0 is Over,
            fc_ends(r.1, text@),
    {
        (FcCreate::Over, FcStep::Done(Err(HyperboxError::ExecutionFailed(text))))
    }

    fn prepare(new: NewMachine, now: Timestamp, spec: Option<VmNetworkSpec>) -> (r: (
        Self,
        FcStep<SandboxLease>,
    ))
        ensures
            Self::prepares(new, now, spec, r.0, r.1),
    {
        let dir = crate::text::clone_opt(&new.config.workspace_dir);
        let id = new.id;
        (FcCreate::Preparing(new, now, spec), FcStep::Ask(FcEffect::Prepare(id, dir)))
    }

    pub fn resume(self, reply: FcReply, now: Timestamp, backend: &mut FirecrackerBackend) -> (r: (
        Self,
        FcStep<SandboxLease>,
    ))
        ensures
            self.follows(reply, now, *old(backend), *final(backend), r.0, r.1),
    {
        match (self, reply) {
            (FcCreate::Over, _) => (FcCreate::Over, FcStep::Stray),
            (FcCreate::MakingWorkDir(new), FcReply::Unit) => {
                let dir = join_path(backend.config.work_dir.as_str(), new.id.text().as_str());
                (FcCreate::MakingVmDir(new), FcStep::Ask(FcEffect::CreateDirAll(dir)))
            },
            (FcCreate::MakingVmDir(new), FcReply::Unit) => {
                let rootfs_path = match backend.resolve_rootfs(&new.config.template) {
                    Ok(path) => path,
                    Err(e) => {
                        return (FcCreate::Over, FcStep::Done(Err(e)));
                    },
                };
                let (socket_path, vsock_uds_path, log_path) = backend.vm_paths(new.id);
                let tap_name = match &new.config.network {
                    NetworkMode::NoNetwork => None,
                    _ => Some(new.tap_text()),
                };
                let vm = FirecrackerVmConfig {
                    vm_id: new.id.text(),
                    socket_path,
                    kernel_image_path: backend.config.kernel_image.clone(),
                    rootfs_path,
                    log_path,
                    memory_mb: new.config.memory_mb,
                    vcpu_count: new.config.vcpu_count,
                    boot_args: "console=ttyS0 reboot=k panic=1 pci=off".to_owned(),
                    tap_name,
                    vsock_guest_cid: 3,
                    vsock_uds_path,
                };
                (FcCreate::Starting(new), FcStep::Ask(FcEffect::StartVm(vm)))
            },
            (FcCreate::Starting(new), FcReply::Unit) => {
                if let NetworkMode::NoNetwork = &new.config.network {
                    return Self::prepare(new, now, None);
                }
                let spec = VmNetworkSpec {
                    vm_id: new.id.text(),
                    tap_name: new.tap_text(),
                    host_iface: backend.config.host_iface.clone(),
                    guest_cidr: "172.16.0.0/30".to_owned(),
                    guest_ip: "172.16.0.2".to_owned(),
                };
                let plan = build_apply_plan(&spec, &new.config.network);
                (FcCreate::Firewalling(new, spec), FcStep::Ask(FcEffect::Firewall(plan)))
            },
            (FcCreate::Starting(_), FcReply::Refused(e)) => Self::fail(
                cat2("start firecracker vm: ", e.as_str()),
            ),
            (FcCreate::Firewalling(new, spec), FcReply::Unit) => {
                if let NetworkMode::Allowlist(list) = &new.config.network {
                    let domains = list.to_strings();
                    return (
                        FcCreate::Resolving(new, spec),
                        FcStep::Ask(FcEffect::Resolve(domains)),
                    );
                }
                Self::prepare(new, now, Some(spec))
            },
            (FcCreate::Firewalling(_, _), FcReply::Refused(e)) => {
                let what = if backend.config.network_dry_run {
                    "dry-run firewall apply: "
                } else {
                    "firewall apply: "
                };
                Self::fail(cat2(what, e.as_str()))
            },
            (FcCreate::Resolving(new, spec), FcReply::Addresses(list)) => {
                let ips = texts_of(&list);
                let plan = build_allowlist_population_plan(spec.vm_id.as_str(), &ips);
                (FcCreate::Populating(new, spec), FcStep::Ask(FcEffect::Firewall(plan)))
            },
            (FcCreate::Populating(new, spec), FcReply::Unit) => {
                let domains = match &new.config.network {
                    NetworkMode::Allowlist(list) => list.to_strings(),
                    _ => {
                        let none: Vec<String> = Vec::new();
                        assert(views(none@) =~= Seq::<Seq<char>>::empty());
                        none
                    },
                };
                let vm_id = spec.vm_id.clone();
                (
                    FcCreate::Syncing(new, spec),
                    FcStep::Ask(FcEffect::StartSync(vm_id, domains)),
                )
            },
            (FcCreate::Populating(_, _), FcReply::Refused(e)) => Self::fail(
                cat2("populate allowlist ipset: ", e.as_str()),
            ),
            (FcCreate::Syncing(new, spec), FcReply::Unit) => Self::prepare(new, now, Some(spec)),
            (FcCreate::Preparing(new, created_at, spec), FcReply::Binding(binding)) => {
                let info = SandboxInfo {
                    id: new.id,
                    template: new.config.template.clone(),
                    state: SandboxState::Ready,
                    created_at,
                };
                let kept = info.copy();
                backend.sandboxes.insert(
                    new.id.0,
                    FirecrackerSandbox {
                        config: new.config,
                        info: kept,
                        network_spec: spec,
                        agent_workspace: binding,
                    },
                );
                (FcCreate::Over, FcStep::Done(Ok(SandboxLease { id: new.id, info })))
            },
            (_, FcReply::IoFailed(e)) => (FcCreate::Over, FcStep::Done(Err(HyperboxError::Io(e)))),
            (_, FcReply::Failed(e)) => (FcCreate::Over, FcStep::Done(Err(e))),
            (state, _) => (state, FcStep::Stray),
        }
    }
}

/// The patterns of an allowlist; none for another network.
pub open spec fn allowed_patterns(network: NetworkModel) -> Seq<Seq<char>> {
    match network {
        NetworkModel::Allowlist(list) => patterns(list),
        _ => Seq::<Seq<char>>::empty(),
    }
}

/// The end of a sandbox.
#[derive(Debug)]
pub enum FcDestroy {
    StoppingSync(SandboxId, Option<VmNetworkSpec>, AgentWorkspaceBinding),
    TearingDown(SandboxId, AgentWorkspaceBinding),
    Terminating(AgentWorkspaceBinding),
    Cleaning,
    Over,
}

impl FcDestroy {
    /// The sandbox is forgotten at once, whatever comes of its machine.
    pub fn begin(backend: &mut FirecrackerBackend, id: SandboxId) -> (r: (Self, FcStep<()>))
        ensures
            fc_keeping(*old(backend), *final(backend), old(backend).sandboxes@.remove(id.0)),
            !old(backend).sandboxes@.contains_key(id.0) ==> r.0 is Over && fc_unfound(r.1, id),
            old(backend).sandboxes@.contains_key(id.0) ==> {
                let sandbox = old(backend).sandboxes@[id.0];
                &&& r.0 == FcDestroy::StoppingSync(
                    id,
                    sandbox.network_spec,
                    sandbox.agent_workspace,
                )
                &&& r.1 == FcStep::<()>::Ask(FcEffect::StopSync(id))
            },
    {
        match backend.sandboxes.take(&id.0) {
            None => (FcDestroy::Over, FcStep::Done(Err(HyperboxError::SandboxNotFound(id.text())))),
            Some(sandbox) => (
                FcDestroy::StoppingSync(id, sandbox.network_spec, sandbox.agent_workspace),
                FcStep::Ask(FcEffect::StopSync(id)),
            ),
        }
    }

    /// What a reply leads to.
    pub open spec fn follows(self, reply: FcReply, dry_run: bool, next: Self, step: FcStep<()>)
     -> bool {
        match (self, reply) {
            (FcDestroy::Over, _) => next is Over && step is Stray,
            (FcDestroy::StoppingSync(id, spec, binding), FcReply::Unit) => match spec {
                Some(s) => next == FcDestroy::TearingDown(id, binding) && runs(
                    step,
                    teardown_plan(s),
                ),
                None => next == FcDestroy::Terminating(binding) && step == FcStep::<()>::Ask(
                    FcEffect::Terminate(id),
                ),
            },
            (FcDestroy::TearingDown(id, binding), FcReply::Unit) => next == FcDestroy::Terminating(
                binding,
            ) && step == FcStep::<()>::Ask(FcEffect::Terminate(id)),
            (FcDestroy::TearingDown(_, _), FcReply::Refused(e)) => next is Over && fc_ends(
                step,
                (if dry_run {
                    "dry-run firewall teardown: "@
                } else {
                    "firewall teardown: "@
                }) + e@,
            ),
            (FcDestroy::Terminating(binding), FcReply::Unit) => next is Cleaning && step
                == FcStep::<()>::Ask(FcEffect::Cleanup(binding)),
            (FcDestroy::Terminating(_), FcReply::Refused(e)) => next is Over && fc_ends(
                step,
                "terminate vm: "@ + e@,
            ),
            (FcDestroy::Cleaning, FcReply::Unit) => next is Over && step == FcStep::<()>::Done(
                Ok(()),
            ),
            (_, FcReply::Failed(e)) => next is Over && step == FcStep::<()>::Done(Err(e)),
            _ => next == self && step is Stray,
        }
    }

    fn fail(text: String) -> (r: (Self, FcStep<()>))
        ensures
            r.0 is Over,
            fc_ends(r.1, text@),
    {
        (FcDestroy::Over, FcStep::Done(Err(HyperboxError::ExecutionFailed(text))))
    }

    pub fn resume(self, reply: FcReply, dry_run: bool) -> (r: (Self, FcStep<()>))
        ensures
            self.follows(reply, dry_run, r.0, r.1),
    {
        match (self, reply) {
            (FcDestroy::Over, _) => (FcDestroy::Over, FcStep::Stray),
            (FcDestroy::StoppingSync(id, spec, binding), FcReply::Unit) => match spec {
                Some(s) => {
                    let plan = build_teardown_plan(&s);
                    (
                        FcDestroy::TearingDown(id, binding),
                        FcStep::Ask(FcEffect::Firewall(plan)),
                    )
                },
                None => (
                    FcDestroy::Terminating(binding),
                    FcStep::Ask(FcEffect::Terminate(id)),
                ),
            },
            (FcDestroy::TearingDown(id, binding), FcReply::Unit) => (
                FcDestroy::Terminating(binding),
                FcStep::Ask(FcEffect::Terminate(id)),
            ),
            (FcDestroy::TearingDown(_, _), FcReply::Refused(e)) => {
                let what = if dry_run {
                    "dry-run firewall teardown: "
                } else {
                    "firewall teardown: "
                };
                Self::fail(cat2(what, e.as_str()))
            },
            (FcDestroy::Terminating(binding), FcReply::Unit) => (
                FcDestroy::Cleaning,
                FcStep::Ask(FcEffect::Cleanup(binding)),
            ),
            (FcDestroy::Terminating(_), FcReply::Refused(e)) => Self::fail(
                cat2("terminate vm: ", e.as_str()),
            ),
            (FcDestroy::Cleaning, FcReply::Unit) => (FcDestroy::Over, FcStep::Done(Ok(()))),
            (_, FcReply::Failed(e)) => (FcDestroy::Over, FcStep::Done(Err(e))),
            (state, _) => (state, FcStep::Stray),
        }
    }
}

/// A sandbox with an allowlist is handed out only after the addresses of its names were let
/// through, and one with any network only after its firewall was built.
pub proof fn networks_are_fenced_first(
    state: FcCreate,
    reply: FcReply,
    now: Timestamp,
    before: FirecrackerBackend,
    after: FirecrackerBackend,
    next: FcCreate,
    step: FcStep<SandboxLease>,
)
    requires
        state.follows(reply, now, before, after, next, step),
        next is Preparing,
        !(state is Preparing),
    ensures
        next matches FcCreate::Preparing(new, created_at, spec) && {
            &&& created_at == now
            &&& new.config@.network is NoNetwork || spec is Some
            &&& new.config@.network is Allowlist && !(state is Starting) ==> state is Syncing
            &&& state is Starting ==> new.config@.network is NoNetwork
        },
{
}

/// Without a real firewall no sandbox with a network is made.
pub proof fn dry_runs_have_no_network(network: NetworkModel)
    ensures
        fc_complaint(true, network) is None <==> network is NoNetwork,
{
}

} // verus!
