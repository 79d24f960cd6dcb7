//! How the helper program carries out a request.

use crate::apple::backend::{append_texts, complain_of_path, path_complaint, HelperResponse};
use crate::apple::container::{
    container_path, delete_call, delete_model, error_output_is_not_found, exec_args, exec_call,
    parent_call, parent_model, path_in_container, plain_call, read_call, read_model, says_absent,
    write_call, write_model, CallModel, CommandResult, ContainerCall, DEFAULT_DESTROY_TIMEOUT_SECS,
    DEFAULT_IO_TIMEOUT_SECS,
};
use crate::cli::apple_helper::{
    asked_network, checked_id, full_report, inspected_address, inspected_gateway, network_args,
    read_address, read_gateway, report_in_full, sanitize_sandbox_id, AllowlistRuntime,
    AllowlistRuntimeSetup, HelperNetworkMode, RuntimeKind,
};
use crate::cli::dns_script::{ALLOWLIST_DNS_BOOTSTRAP, ALLOWLIST_DNS_SCRIPT};
use crate::codec::{
    base64_bytes, base64_decode, base64_encode, base64_text, json_list, json_list_text, lossy_text,
    utf8_lossy,
};
use crate::numbers::{at_least_one, decimal, one_or_more, u64_text};
use crate::paths::{below, join_path, names_below, path_of, plain_path, relative_names};
use crate::table::Table;
use crate::text::{cat2, cat3, cat4, lowercase, texts, views};
use vstd::prelude::*;

verus! {

/// A request as it comes in.
#[derive(Debug, Clone, PartialEq, Eq)]
pub enum HelperRequest {
    Create {
        sandbox_id: String,
        template: String,
        workspace_dir: Option<String>,
        runtime: String,
        network_mode: Option<String>,
        network_allowlist: Option<Vec<String>>,
        memory_mb: Option<u32>,
        vcpu_count: Option<u32>,
    },
    Exec { sandbox_id: String, command: Vec<String>, timeout_secs: u64 },
    Read { sandbox_id: String, path: String },
    Write { sandbox_id: String, path: String, bytes_b64: String },
    Destroy { sandbox_id: String },
}

/// A sandbox of the helper.
#[derive(Debug)]
pub struct SandboxSession {
    pub container_name: String,
    pub workspace_host: String,
    pub ephemeral_workspace: bool,
    pub allowlist_runtime: Option<AllowlistRuntime>,
}

#[derive(Debug)]
pub struct AppleHelper {
    pub state_root: String,
    pub sandboxes: Table<String, SandboxSession>,
}

/// What the helper asks for.
#[derive(Debug)]
pub enum HelperEffect {
    Canonicalize(String),
    CreateDirAll(String),
    Container(ContainerCall),
    RemoveDirAll(String),
    /// Remove the directory that this path stands in, if it is empty.
    RemoveParent(String),
}

/// What came of it.
#[derive(Debug)]
pub enum HelperReply {
    Failed(String),
    Unit,
    Canonical(String, bool),
    Ran(CommandResult),
}

#[derive(Debug)]
pub enum HelperStep {
    Ask(HelperEffect),
    Answer(HelperResponse),
    /// The reply does not answer what was asked.
    Stray,
}

pub open spec fn answers_error(step: HelperStep, text: Seq<char>) -> bool {
    step matches HelperStep::Answer(HelperResponse::Error { message }) && message@ == text
}

pub open spec fn asks_call(step: HelperStep, call: CallModel) -> bool {
    step matches HelperStep::Ask(HelperEffect::Container(c)) && c@ == call
}

/// A sandbox that is asked for.
#[derive(Debug)]
pub struct CreateOrder {
    pub sandbox_id: String,
    pub template: String,
    pub network: HelperNetworkMode,
    pub memory_mb: Option<u32>,
    pub vcpu_count: Option<u32>,
    pub ephemeral: bool,
}

impl CreateOrder {
    pub open spec fn network_name(self) -> Seq<char> {
        "hyperbox-net-"@ + self.sandbox_id@
    }

    pub open spec fn dns_name(self) -> Seq<char> {
        "hyperbox-dns-"@ + self.sandbox_id@
    }

    pub open spec fn container_name(self) -> Seq<char> {
        "hyperbox-"@ + self.sandbox_id@
    }

    fn network_text(&self) -> (r: String)
        ensures
            r@ == self.network_name(),
    {
        cat2("hyperbox-net-", self.sandbox_id.as_str())
    }

    fn dns_text(&self) -> (r: String)
        ensures
            r@ == self.dns_name(),
    {
        cat2("hyperbox-dns-", self.sandbox_id.as_str())
    }

    /// What a failure to prepare the network is reported as.
    pub open spec fn unprepared(self, e: Seq<char>) -> Seq<char> {
        "prepare allowlist networking for sandbox `"@ + self.sandbox_id@ + "`: "@ + e
    }

    fn report_unprepared(&self, e: &str) -> (r: String)
        ensures
            r@ == self.unprepared(e@),
    {
        cat4("prepare allowlist networking for sandbox `", self.sandbox_id.as_str(), "`: ", e)
    }

    /// What a failure to start the container is reported as.
    pub open spec fn unstarted(self, e: Seq<char>) -> Seq<char> {
        "start container runtime for sandbox `"@ + self.sandbox_id@ + "` using template `"@
            + self.template@ + "`: "@ + e
    }

    fn report_unstarted(&self, e: &str) -> (r: String)
        ensures
            r@ == self.unstarted(e@),
    {
        let head = cat4(
            "start container runtime for sandbox `",
            self.sandbox_id.as_str(),
            "` using template `",
            self.template.as_str(),
        );
        cat3(head.as_str(), "`: ", e)
    }
}

/// The arguments that start the container of a sandbox. The name and the mount come before
/// `--progress`: a container program that does not know that flag stops there, and has read them
/// by then.
pub open spec fn start_args(order: CreateOrder, workspace: Seq<char>, network: Seq<Seq<char>>)
 -> Seq<Seq<char>> {
    let cpus = match order.vcpu_count {
        Some(n) => at_least_one(n as u64),
        None => 1,
    };
    let memory = match order.memory_mb {
        Some(n) => at_least_one(n as u64),
        None => 512,
    };
    seq![
        "run"@,
        "--detach"@,
        "--name"@,
        order.container_name(),
        "--cpus"@,
        decimal(cpus as nat),
        "--memory"@,
        decimal(memory as nat) + "M"@,
        "--workdir"@,
        "/workspace"@,
        "--volume"@,
        workspace + ":/workspace"@,
        "--progress"@,
        "none"@,
    ] + network + seq![order.template@, "sleep"@, "infinity"@]
}

fn start_call(order: &CreateOrder, workspace: &str, network: Vec<String>) -> (r: ContainerCall)
    ensures
        r@ == plain_call(
            start_args(*order, workspace@, views(network@)),
            DEFAULT_IO_TIMEOUT_SECS,
        ),
{
    let cpus: u64 = match order.vcpu_count {
        Some(n) => one_or_more(n as u64),
        None => 1,
    };
    let memory: u64 = match order.memory_mb {
        Some(n) => one_or_more(n as u64),
        None => 512,
    };
    let cpus = u64_text(cpus);
    let memory = cat2(u64_text(memory).as_str(), "M");
    let name = cat2("hyperbox-", order.sandbox_id.as_str());
    let mount = cat2(workspace, ":/workspace");
    let ghost net = views(network@);
    let mut args = texts(
        &[
            "run",
            "--detach",
            "--name",
            name.as_str(),
            "--cpus",
            cpus.as_str(),
            "--memory",
            memory.as_str(),
            "--workdir",
            "/workspace",
            "--volume",
            mount.as_str(),
            "--progress",
            "none",
        ],
    );
    append_texts(&mut args, network);
    let tail = texts(&[order.template.as_str(), "sleep", "infinity"]);
    append_texts(&mut args, tail);
    assert(views(args@) =~= start_args(*order, workspace@, net));
    ContainerCall { args, stdin: None, timeout_secs: DEFAULT_IO_TIMEOUT_SECS }
}

/// The arguments that start the name server of a sandbox.
pub open spec fn dns_args(
    dns_name: Seq<char>,
    network_name: Seq<char>,
    allowlist_json: Seq<char>,
    gateway: Seq<char>,
) -> Seq<Seq<char>> {
    seq![
        "run"@,
        "--detach"@,
        "--progress"@,
        "none"@,
        "--name"@,
        dns_name,
        "--network"@,
        network_name,
        "--cpus"@,
        "1"@,
        "--memory"@,
        "256M"@,
        "--env"@,
        "HB_ALLOWLIST_B64="@ + base64_text(vstd::utf8::encode_utf8(allowlist_json)),
        "--env"@,
        "HB_DNS_UPSTREAM="@ + gateway,
        "--env"@,
        "HB_DNS_SCRIPT_B64="@ + base64_text(vstd::utf8::encode_utf8(ALLOWLIST_DNS_SCRIPT@)),
        "python:3.12"@,
        "python3"@,
        "-u"@,
        "-c"@,
        ALLOWLIST_DNS_BOOTSTRAP@,
    ]
}

fn dns_call(dns_name: &str, network_name: &str, allowlist_json: &str, gateway: &str) -> (r:
    ContainerCall)
    ensures
        r@ == plain_call(
            dns_args(dns_name@, network_name@, allowlist_json@, gateway@),
            DEFAULT_IO_TIMEOUT_SECS,
        ),
{
    let list = cat2("HB_ALLOWLIST_B64=", base64_encode(allowlist_json.as_bytes()).as_str());
    let upstream = cat2("HB_DNS_UPSTREAM=", gateway);
    let script = cat2(
        "HB_DNS_SCRIPT_B64=",
        base64_encode(ALLOWLIST_DNS_SCRIPT.as_bytes()).as_str(),
    );
    let args = texts(
        &[
            "run",
            "--detach",
            "--progress",
            "none",
            "--name",
            dns_name,
            "--network",
            network_name,
            "--cpus",
            "1",
            "--memory",
            "256M",
            "--env",
            list.as_str(),
            "--env",
            upstream.as_str(),
            "--env",
            script.as_str(),
            "python:3.12",
            "python3",
            "-u",
            "-c",
            ALLOWLIST_DNS_BOOTSTRAP,
        ],
    );
    assert(views(args@) =~= dns_args(dns_name@, network_name@, allowlist_json@, gateway@));
    ContainerCall { args, stdin: None, timeout_secs: DEFAULT_IO_TIMEOUT_SECS }
}

/// A command about a network.
pub open spec fn network_model(verb: Seq<char>, name: Seq<char>, secs: u64) -> CallModel {
    plain_call(seq!["network"@, verb, name], secs)
}

fn network_call(verb: &str, name: &str, secs: u64) -> (r: ContainerCall)
    ensures
        r@ == network_model(verb@, name@, secs),
{
    let args = texts(&["network", verb, name]);
    assert(views(args@) =~= seq!["network"@, verb@, name@]);
    ContainerCall { args, stdin: None, timeout_secs: secs }
}

/// The command that inspects a container.
pub open spec fn inspect_model(name: Seq<char>) -> CallModel {
    plain_call(seq!["inspect"@, name], DEFAULT_IO_TIMEOUT_SECS)
}

fn inspect_call(name: &str) -> (r: ContainerCall)
    ensures
        r@ == inspect_model(name@),
{
    let args = texts(&["inspect", name]);
    assert(views(args@) =~= seq!["inspect"@, name@]);
    ContainerCall { args, stdin: None, timeout_secs: DEFAULT_IO_TIMEOUT_SECS }
}

/// A request on its way.
#[derive(Debug)]
pub enum HelperWork {
    Canonicalizing(CreateOrder, String),
    MakingWorkspace(CreateOrder, String),
    CreatingNetwork(CreateOrder, String),
    InspectingNetwork(CreateOrder, String),
    StartingDns(CreateOrder, String),
    InspectingDns(CreateOrder, String),
    Starting(CreateOrder, String, Option<AllowlistRuntimeSetup>),
    /// The name server goes, then its network; then this is reported.
    UndoingDns(String, String),
    UndoingNetwork(String),
    Executing,
    Reading,
    MakingParent(String, String, Vec<u8>),
    Writing,
    Deleting(SandboxSession),
    TearingDns(SandboxSession, String),
    TearingNetwork(SandboxSession),
    RemovingWorkspace(String),
    RemovingRoot,
    Over,
}

/// The sandboxes of the helper as a value.
pub type Sessions = Map<Seq<char>, SandboxSession>;

impl HelperWork {
    /// The request is answered with this complaint.
    pub open spec fn refused(next: Self, step: HelperStep, text: Seq<char>) -> bool {
        next is Over && answers_error(step, text)
    }

    /// The container is started, with what was made ready for its network.
    pub open spec fn starts(
        order: CreateOrder,
        workspace: String,
        setup: Option<AllowlistRuntimeSetup>,
        next: Self,
        step: HelperStep,
    ) -> bool {
        match network_args(order.network@, setup) {
            Ok(network) => next == HelperWork::Starting(order, workspace, setup) && asks_call(
                step,
                plain_call(start_args(order, workspace@, network), DEFAULT_IO_TIMEOUT_SECS),
            ),
            Err(e) => Self::undone(order, setup, order.unstarted(e), next, step),
        }
    }

    /// What was made ready for the network goes again, where there is something; then the
    /// complaint is reported.
    pub open spec fn undone(
        order: CreateOrder,
        setup: Option<AllowlistRuntimeSetup>,
        text: Seq<char>,
        next: Self,
        step: HelperStep,
    ) -> bool {
        match setup {
            None => Self::refused(next, step, text),
            Some(s) => {
                &&& next matches HelperWork::UndoingDns(network, told)
                &&& network@ == s.network_name@
                &&& told@ == text
                &&& asks_call(step, delete_model(s.dns_container_name@))
            },
        }
    }

    /// The network of an allowlist is made first; any other sandbox starts at once.
    pub open spec fn placed(order: CreateOrder, workspace: String, next: Self, step: HelperStep)
     -> bool {
        if order.network is Allowlist {
            next == HelperWork::CreatingNetwork(order, workspace) && asks_call(
                step,
                network_model("create"@, order.network_name(), DEFAULT_IO_TIMEOUT_SECS),
            )
        } else {
            Self::starts(order, workspace, None, next, step)
        }
    }

    /// The preparation of the network failed after the network was made.
    pub open spec fn unprepared(order: CreateOrder, e: Seq<char>, next: Self, step: HelperStep)
     -> bool {
        &&& next matches HelperWork::UndoingDns(network, told)
        &&& network@ == order.network_name()
        &&& told@ == order.unprepared(e)
        &&& asks_call(step, delete_model(order.dns_name()))
    }

    /// The sandbox stands in the table and is acknowledged.
    pub open spec fn settles(
        order: CreateOrder,
        workspace: String,
        setup: Option<AllowlistRuntimeSetup>,
        before: Sessions,
        after: Sessions,
        next: Self,
        step: HelperStep,
    ) -> bool {
        &&& next is Over
        &&& step == HelperStep::Answer(HelperResponse::Ack)
        &&& after.dom() == before.dom().insert(order.sandbox_id@)
        &&& after.remove(order.sandbox_id@) == before.remove(order.sandbox_id@)
        &&& {
            let s = after[order.sandbox_id@];
            &&& s.container_name@ == order.container_name()
            &&& s.workspace_host == workspace
            &&& s.ephemeral_workspace == order.ephemeral
            &&& match setup {
                None => s.allowlist_runtime is None,
                Some(made) => s.allowlist_runtime matches Some(kept) && kept.network_name
                    == made.network_name && kept.dns_container_name == made.dns_container_name,
            }
        }
    }

    /// A workspace that was made for a sandbox goes with it.
    pub open spec fn clears(session: SandboxSession, next: Self, step: HelperStep) -> bool {
        if session.ephemeral_workspace {
            (next matches HelperWork::RemovingWorkspace(p) && p == session.workspace_host) && (step
                matches HelperStep::Ask(HelperEffect::RemoveDirAll(p)) && p@
                == session.workspace_host@)
        } else {
            next is Over && step == HelperStep::Answer(HelperResponse::Ack)
        }
    }

    /// What a reply leads to.
    pub open spec fn follows(
        self,
        reply: HelperReply,
        before: Sessions,
        after: Sessions,
        next: Self,
        step: HelperStep,
    ) -> bool {
        match (self, reply) {
            (HelperWork::Over, _) => next is Over && step is Stray && after == before,
            (HelperWork::Canonicalizing(order, _), HelperReply::Canonical(path, is_dir)) => after
                == before && if is_dir {
                Self::placed(order, path, next, step)
            } else {
                Self::refused(next, step, "workspace_dir must be a directory: "@ + path@)
            },
            (HelperWork::Canonicalizing(_, dir), HelperReply::Failed(e)) => after == before
                && Self::refused(
                next,
                step,
                "workspace_dir does not exist or is not accessible: "@ + dir@ + ": "@ + e@,
            ),
            (HelperWork::MakingWorkspace(order, path), HelperReply::Unit) => after == before
                && Self::placed(order, path, next, step),
            (HelperWork::MakingWorkspace(_, path), HelperReply::Failed(e)) => after == before
                && Self::refused(next, step, "create workspace directory "@ + path@ + ": "@ + e@),
            (HelperWork::CreatingNetwork(order, workspace), HelperReply::Ran(result)) => after
                == before && if result.exit_code == 0 {
                next == HelperWork::InspectingNetwork(order, workspace) && asks_call(
                    step,
                    network_model("inspect"@, order.network_name(), DEFAULT_IO_TIMEOUT_SECS),
                )
            } else {
                Self::refused(
                    next,
                    step,
                    order.unprepared(full_report("create allowlist network"@, result)),
                )
            },
            (HelperWork::CreatingNetwork(order, _), HelperReply::Failed(e)) => after == before
                && Self::refused(next, step, order.unprepared(e@)),
            (HelperWork::InspectingNetwork(order, workspace), HelperReply::Ran(result)) => after
                == before && match inspected_gateway(order.network_name(), result) {
                Err(e) => Self::unprepared(order, e, next, step),
                Ok(gateway) => match json_list_text(allowed_names(order)) {
                    Err(e) => Self::unprepared(
                        order,
                        "serialize allowlist domains: "@ + e,
                        next,
                        step,
                    ),
                    Ok(json) => next == HelperWork::StartingDns(order, workspace) && asks_call(
                        step,
                        plain_call(
                            dns_args(order.dns_name(), order.network_name(), json, gateway),
                            DEFAULT_IO_TIMEOUT_SECS,
                        ),
                    ),
                },
            },
            (HelperWork::StartingDns(order, workspace), HelperReply::Ran(result)) => after == before
                && if result.exit_code == 0 {
                next == HelperWork::InspectingDns(order, workspace) && asks_call(
                    step,
                    inspect_model(order.dns_name()),
                )
            } else {
                Self::unprepared(
                    order,
                    full_report("start allowlist DNS sidecar"@, result),
                    next,
                    step,
                )
            },
            (HelperWork::InspectingDns(order, workspace), HelperReply::Ran(result)) => after
                == before && match inspected_address(order.dns_name(), result) {
                Err(e) => Self::unprepared(order, e, next, step),
                Ok(address) => {
                    &&& next matches HelperWork::Starting(_, _, Some(setup))
                    &&& is_setup(setup, order, address)
                    &&& Self::starts(order, workspace, Some(setup), next, step)
                },
            },
            (HelperWork::InspectingNetwork(order, _), HelperReply::Failed(e))
            | (HelperWork::StartingDns(order, _), HelperReply::Failed(e))
            | (HelperWork::InspectingDns(order, _), HelperReply::Failed(e)) => after == before
                && Self::unprepared(order, e@, next, step),
            (HelperWork::Starting(order, workspace, setup), HelperReply::Ran(result)) => if result.exit_code
                == 0 {
                Self::settles(order, workspace, setup, before, after, next, step)
            } else {
                after == before && Self::undone(
                    order,
                    setup,
                    order.unstarted(full_report("container run"@, result)),
                    next,
                    step,
                )
            },
            (HelperWork::Starting(order, _, setup), HelperReply::Failed(e)) => after == before
                && Self::undone(order, setup, order.unstarted(e@), next, step),
            (HelperWork::UndoingDns(network, told), HelperReply::Ran(_))
            | (HelperWork::UndoingDns(network, told), HelperReply::Failed(_)) => after == before
                && next == HelperWork::UndoingNetwork(told) && asks_call(
                step,
                network_model("delete"@, network@, DEFAULT_DESTROY_TIMEOUT_SECS),
            ),
            (HelperWork::UndoingNetwork(told), HelperReply::Ran(_))
            | (HelperWork::UndoingNetwork(told), HelperReply::Failed(_)) => after == before
                && Self::refused(next, step, told@),
            (HelperWork::Executing, HelperReply::Ran(result)) => after == before && next is Over
                && (step matches HelperStep::Answer(
                HelperResponse::Exec { exit_code, stdout, stderr, duration_ms },
            ) && exit_code == result.exit_code && stdout@ == utf8_lossy(result.stdout@) && stderr@
                == utf8_lossy(result.stderr@) && duration_ms == result.duration_ms),
            (HelperWork::Reading, HelperReply::Ran(result)) => after == before
                && if result.exit_code == 0 {
                next is Over && (step matches HelperStep::Answer(
                    HelperResponse::Read { bytes_b64 },
                ) && bytes_b64@ == base64_text(result.stdout@))
            } else {
                Self::refused(next, step, full_report("read"@, result))
            },
            (HelperWork::MakingParent(container, path, bytes), HelperReply::Ran(result)) => after
                == before && if result.exit_code == 0 {
                next is Writing && asks_call(
                    step,
                    write_model(container@, path@, bytes@, DEFAULT_IO_TIMEOUT_SECS),
                )
            } else {
                Self::refused(next, step, full_report("create parent directory"@, result))
            },
            (HelperWork::Writing, HelperReply::Ran(result)) => after == before
                && if result.exit_code == 0 {
                next is Over && step == HelperStep::Answer(HelperResponse::Ack)
            } else {
                Self::refused(next, step, full_report("write"@, result))
            },
            (HelperWork::Deleting(session), HelperReply::Ran(result)) => after == before
                && if result.exit_code != 0 && !says_absent(result.stderr@) {
                Self::refused(next, step, full_report("container delete"@, result))
            } else {
                match session.allowlist_runtime {
                    Some(runtime) => (next matches HelperWork::TearingDns(s, network) && s
                        == session && network@ == runtime.network_name@) && asks_call(
                        step,
                        delete_model(runtime.dns_container_name@),
                    ),
                    None => Self::clears(session, next, step),
                }
            },
            (HelperWork::TearingDns(session, network), HelperReply::Ran(_))
            | (HelperWork::TearingDns(session, network), HelperReply::Failed(_)) => after == before
                && next == HelperWork::TearingNetwork(session) && asks_call(
                step,
                network_model("delete"@, network@, DEFAULT_DESTROY_TIMEOUT_SECS),
            ),
            (HelperWork::TearingNetwork(session), HelperReply::Ran(_))
            | (HelperWork::TearingNetwork(session), HelperReply::Failed(_)) => after == before
                && Self::clears(session, next, step),
            (HelperWork::RemovingWorkspace(path), HelperReply::Unit) => after == before
                && next is RemovingRoot && step == HelperStep::Ask(
                HelperEffect::RemoveParent(path),
            ),
            (HelperWork::RemovingWorkspace(path), HelperReply::Failed(e)) => after == before
                && Self::refused(next, step, "remove ephemeral workspace "@ + path@ + ": "@ + e@),
            (HelperWork::RemovingRoot, HelperReply::Unit)
            | (HelperWork::RemovingRoot, HelperReply::Failed(_)) => after == before && next is Over
                && step == HelperStep::Answer(HelperResponse::Ack),
            (_, HelperReply::Failed(e)) => after == before && Self::refused(next, step, e@),
            _ => after == before && next == self && step is Stray,
        }
    }

    fn refuse(text: String) -> (r: (Self, HelperStep))
        ensures
            Self::refused(r.0, r.1, text@),
    {
        (HelperWork::Over, HelperStep::Answer(HelperResponse::Error { message: text }))
    }

    fn ask(state: Self, call: ContainerCall) -> (r: (Self, HelperStep))
        ensures
            r.0 == state,
            asks_call(r.1, call@),
    {
        (state, HelperStep::Ask(HelperEffect::Container(call)))
    }

    fn undo(order: &CreateOrder, setup: Option<AllowlistRuntimeSetup>, text: String) -> (r: (
        Self,
        HelperStep,
    ))
        ensures
            Self::undone(*order, setup, text@, r.0, r.1),
    {
        match setup {
            None => Self::refuse(text),
            Some(s) => {
                let call = delete_call(s.dns_container_name.as_str());
                Self::ask(HelperWork::UndoingDns(s.network_name, text), call)
            },
        }
    }

    fn start(order: CreateOrder, workspace: String, setup: Option<AllowlistRuntimeSetup>) -> (r: (
        Self,
        HelperStep,
    ))
        ensures
            Self::starts(order, workspace, setup, r.0, r.1),
    {
        match order.network.container_args(setup.as_ref()) {
            Ok(network) => {
                let call = start_call(&order, workspace.as_str(), network);
                Self::ask(HelperWork::Starting(order, workspace, setup), call)
            },
            Err(e) => {
                let text = order.report_unstarted(e.as_str());
                Self::undo(&order, setup, text)
            },
        }
    }

    fn place(order: CreateOrder, workspace: String) -> (r: (Self, HelperStep))
        ensures
            Self::placed(order, workspace, r.0, r.1),
    {
        if let HelperNetworkMode::Allowlist(_) = &order.network {
            let call = network_call(
                "create",
                order.network_text().as_str(),
                DEFAULT_IO_TIMEOUT_SECS,
            );
            return Self::ask(HelperWork::CreatingNetwork(order, workspace), call);
        }
        Self::start(order, workspace, None)
    }

    fn give_up(order: &CreateOrder, e: &str) -> (r: (Self, HelperStep))
        ensures
            Self::unprepared(*order, e@, r.0, r.1),
    {
        let text = order.report_unprepared(e);
        let call = delete_call(order.dns_text().as_str());
        Self::ask(HelperWork::UndoingDns(order.network_text(), text), call)
    }

    fn clear(session: SandboxSession) -> (r: (Self, HelperStep))
        ensures
            Self::clears(session, r.0, r.1),
    {
        if session.ephemeral_workspace {
            let asked = session.workspace_host.clone();
            (
                HelperWork::RemovingWorkspace(session.workspace_host),
                HelperStep::Ask(HelperEffect::RemoveDirAll(asked)),
            )
        } else {
            (HelperWork::Over, HelperStep::Answer(HelperResponse::Ack))
        }
    }

    fn settle(
        order: CreateOrder,
        workspace: String,
        setup: Option<AllowlistRuntimeSetup>,
        helper: &mut AppleHelper,
    ) -> (r: (Self, HelperStep))
        ensures
            Self::settles(
                order,
                workspace,
                setup,
                old(helper).sandboxes@,
                final(helper).sandboxes@,
                r.0,
                r.1,
            ),
            final(helper).state_root == old(helper).state_root,
    {
        let allowlist_runtime = match setup {
            None => None,
            Some(s) => Some(
                AllowlistRuntime {
                    network_name: s.network_name,
                    dns_container_name: s.dns_container_name,
                },
            ),
        };
        let container_name = cat2("hyperbox-", order.sandbox_id.as_str());
        let session = SandboxSession {
            container_name,
            workspace_host: workspace,
            ephemeral_workspace: order.ephemeral,
            allowlist_runtime,
        };
        let ghost before = helper.sandboxes@;
        let ghost key = order.sandbox_id@;
        helper.sandboxes.insert(order.sandbox_id, session);
        assert(helper.sandboxes@ == before.insert(key, session));
        assert(helper.sandboxes@.dom() =~= before.dom().insert(key));
        assert(helper.sandboxes@.remove(key) =~= before.remove(key));
        (HelperWork::Over, HelperStep::Answer(HelperResponse::Ack))
    }

    pub fn resume(self, reply: HelperReply, helper: &mut AppleHelper) -> (r: (Self, HelperStep))
        ensures
            self.follows(reply, old(helper).sandboxes@, final(helper).sandboxes@, r.0, r.1),
            final(helper).state_root == old(helper).state_root,
    {
        match (self, reply) {
            (HelperWork::Over, _) => (HelperWork::Over, HelperStep::Stray),
            (HelperWork::Canonicalizing(order, _), HelperReply::Canonical(path, is_dir)) => {
                if is_dir {
                    Self::place(order, path)
                } else {
                    Self::refuse(cat2("workspace_dir must be a directory: ", path.as_str()))
                }
            },
            (HelperWork::Canonicalizing(_, dir), HelperReply::Failed(e)) => Self::refuse(
                cat4(
                    "workspace_dir does not exist or is not accessible: ",
                    dir.as_str(),
                    ": ",
                    e.as_str(),
                ),
            ),
            (HelperWork::MakingWorkspace(order, path), HelperReply::Unit) => Self::place(
                order,
                path,
            ),
            (HelperWork::MakingWorkspace(_, path), HelperReply::Failed(e)) => Self::refuse(
                cat4("create workspace directory ", path.as_str(), ": ", e.as_str()),
            ),
            (HelperWork::CreatingNetwork(order, workspace), HelperReply::Ran(result)) => {
                if result.exit_code == 0 {
                    let call = network_call(
                        "inspect",
                        order.network_text().as_str(),
                        DEFAULT_IO_TIMEOUT_SECS,
                    );
                    Self::ask(HelperWork::InspectingNetwork(order, workspace), call)
                } else {
                    let report = report_in_full("create allowlist network", &result);
                    Self::refuse(order.report_unprepared(report.as_str()))
                }
            },
            (HelperWork::CreatingNetwork(order, _), HelperReply::Failed(e)) => Self::refuse(
                order.report_unprepared(e.as_str()),
            ),
            (HelperWork::InspectingNetwork(order, workspace), HelperReply::Ran(result)) => {
                let gateway = match read_gateway(order.network_text().as_str(), &result) {
                    Ok(g) => g,
                    Err(e) => {
                        return Self::give_up(&order, e.as_str());
                    },
                };
                let listed = match &order.network {
                    HelperNetworkMode::Allowlist(list) => json_list(list),
                    _ => {
                        let none: Vec<String> = Vec::new();
                        assert(views(none@) =~= Seq::<Seq<char>>::empty());
                        json_list(&none)
                    },
                };
                match listed {
                    Err(e) => {
                        let text = cat2("serialize allowlist domains: ", e.as_str());
                        Self::give_up(&order, text.as_str())
                    },
                    Ok(json) => {
                        let call = dns_call(
                            order.dns_text().as_str(),
                            order.network_text().as_str(),
                            json.as_str(),
                            gateway.as_str(),
                        );
                        Self::ask(HelperWork::StartingDns(order, workspace), call)
                    },
                }
            },
            (HelperWork::StartingDns(order, workspace), HelperReply::Ran(result)) => {
                if result.exit_code == 0 {
                    let call = inspect_call(order.dns_text().as_str());
                    Self::ask(HelperWork::InspectingDns(order, workspace), call)
                } else {
                    let report = report_in_full("start allowlist DNS sidecar", &result);
                    Self::give_up(&order, report.as_str())
                }
            },
            (HelperWork::InspectingDns(order, workspace), HelperReply::Ran(result)) => {
                match read_address(order.dns_text().as_str(), &result) {
                    Err(e) => Self::give_up(&order, e.as_str()),
                    Ok(dns_server_ip) => {
                        let setup = AllowlistRuntimeSetup {
                            network_name: order.network_text(),
                            dns_container_name: order.dns_text(),
                            dns_server_ip,
                        };
                        Self::start(order, workspace, Some(setup))
                    },
                }
            },
            (HelperWork::InspectingNetwork(order, _), HelperReply::Failed(e)) => Self::give_up(
                &order,
                e.as_str(),
            ),
            (HelperWork::StartingDns(order, _), HelperReply::Failed(e)) => Self::give_up(
                &order,
                e.as_str(),
            ),
            (HelperWork::InspectingDns(order, _), HelperReply::Failed(e)) => Self::give_up(
                &order,
                e.as_str(),
            ),
            (HelperWork::Starting(order, workspace, setup), HelperReply::Ran(result)) => {
                if result.exit_code == 0 {
                    Self::settle(order, workspace, setup, helper)
                } else {
                    let report = report_in_full("container run", &result);
                    let text = order.report_unstarted(report.as_str());
                    Self::undo(&order, setup, text)
                }
            },
            (HelperWork::Starting(order, _, setup), HelperReply::Failed(e)) => {
                let text = order.report_unstarted(e.as_str());
                Self::undo(&order, setup, text)
            },
            (HelperWork::UndoingDns(network, told), HelperReply::Ran(_)) => Self::ask(
                HelperWork::UndoingNetwork(told),
                network_call("delete", network.as_str(), DEFAULT_DESTROY_TIMEOUT_SECS),
            ),
            (HelperWork::UndoingDns(network, told), HelperReply::Failed(_)) => Self::ask(
                HelperWork::UndoingNetwork(told),
                network_call("delete", network.as_str(), DEFAULT_DESTROY_TIMEOUT_SECS),
            ),
            (HelperWork::UndoingNetwork(told), HelperReply::Ran(_)) => Self::refuse(told),
            (HelperWork::UndoingNetwork(told), HelperReply::Failed(_)) => Self::refuse(told),
            (HelperWork::Executing, HelperReply::Ran(result)) => {
                let stdout = lossy_text(result.stdout.as_slice());
                let stderr = lossy_text(result.stderr.as_slice());
                let response = HelperResponse::Exec {
                    exit_code: result.exit_code,
                    stdout,
                    stderr,
                    duration_ms: result.duration_ms,
                };
                (HelperWork::Over, HelperStep::Answer(response))
            },
            (HelperWork::Reading, HelperReply::Ran(result)) => {
                if result.exit_code == 0 {
                    let bytes_b64 = base64_encode(result.stdout.as_slice());
                    (HelperWork::Over, HelperStep::Answer(HelperResponse::Read { bytes_b64 }))
                } else {
                    Self::refuse(report_in_full("read", &result))
                }
            },
            (HelperWork::MakingParent(container, path, bytes), HelperReply::Ran(result)) => {
                if result.exit_code == 0 {
                    let call = write_call(
                        container.as_str(),
                        path.as_str(),
                        bytes,
                        DEFAULT_IO_TIMEOUT_SECS,
                    );
                    Self::ask(HelperWork::Writing, call)
                } else {
                    Self::refuse(report_in_full("create parent directory", &result))
                }
            },
            (HelperWork::Writing, HelperReply::Ran(result)) => {
                if result.exit_code == 0 {
                    (HelperWork::Over, HelperStep::Answer(HelperResponse::Ack))
                } else {
                    Self::refuse(report_in_full("write", &result))
                }
            },
            (HelperWork::Deleting(session), HelperReply::Ran(result)) => {
                if result.exit_code != 0 && !error_output_is_not_found(&result.stderr) {
                    return Self::refuse(report_in_full("container delete", &result));
                }
                match &session.allowlist_runtime {
                    Some(runtime) => {
                        let call = delete_call(runtime.dns_container_name.as_str());
                        let network = runtime.network_name.clone();
                        Self::ask(HelperWork::TearingDns(session, network), call)
                    },
                    None => Self::clear(session),
                }
            },
            (HelperWork::TearingDns(session, network), HelperReply::Ran(_)) => Self::ask(
                HelperWork::TearingNetwork(session),
                network_call("delete", network.as_str(), DEFAULT_DESTROY_TIMEOUT_SECS),
            ),
            (HelperWork::TearingDns(session, network), HelperReply::Failed(_)) => Self::ask(
                HelperWork::TearingNetwork(session),
                network_call("delete", network.as_str(), DEFAULT_DESTROY_TIMEOUT_SECS),
            ),
            (HelperWork::TearingNetwork(session), HelperReply::Ran(_)) => Self::clear(session),
            (HelperWork::TearingNetwork(session), HelperReply::Failed(_)) => Self::clear(session),
            (HelperWork::RemovingWorkspace(path), HelperReply::Unit) => (
                HelperWork::RemovingRoot,
                HelperStep::Ask(HelperEffect::RemoveParent(path)),
            ),
            (HelperWork::RemovingWorkspace(path), HelperReply::Failed(e)) => Self::refuse(
                cat4("remove ephemeral workspace ", path.as_str(), ": ", e.as_str()),
            ),
            (HelperWork::RemovingRoot, HelperReply::Unit) => (
                HelperWork::Over,
                HelperStep::Answer(HelperResponse::Ack),
            ),
            (HelperWork::RemovingRoot, HelperReply::Failed(_)) => (
                HelperWork::Over,
                HelperStep::Answer(HelperResponse::Ack),
            ),
            (_, HelperReply::Failed(e)) => Self::refuse(e),
            (state, _) => (state, HelperStep::Stray),
        }
    }
}

/// The names that the sandbox may look up.
pub open spec fn allowed_names(order: CreateOrder) -> Seq<Seq<char>> {
    match order.network {
        HelperNetworkMode::Allowlist(list) => views(list@),
        _ => Seq::<Seq<char>>::empty(),
    }
}

/// What was made ready for the network of a sandbox.
pub open spec fn is_setup(
    setup: AllowlistRuntimeSetup,
    order: CreateOrder,
    address: Seq<char>,
) -> bool {
    &&& setup.network_name@ == order.network_name()
    &&& setup.dns_container_name@ == order.dns_name()
    &&& setup.dns_server_ip@ == address
}

/// A request for a sandbox, judged before anything is done for it.
pub open spec fn create_fault(
    known: Set<Seq<char>>,
    sandbox_id: Seq<char>,
    runtime: Seq<char>,
    network_mode: Option<Seq<char>>,
    allowlist: Option<Seq<Seq<char>>>,
) -> Option<Seq<char>> {
    let mode = match network_mode {
        Some(m) => m,
        None => "none"@,
    };
    let list = match allowlist {
        Some(l) => l,
        None => Seq::<Seq<char>>::empty(),
    };
    match checked_id(sandbox_id) {
        Err(e) => Some(e),
        Ok(_) => if lowercase(runtime) == "virtualization"@ {
            Some(
                "runtime `virtualization` is not implemented by this helper; use runtime=containerization"@,
            )
        } else if lowercase(runtime) != "containerization"@ {
            Some("unknown runtime `"@ + lowercase(runtime) + "`"@)
        } else {
            match asked_network(mode, list) {
                Err(e) => Some(e),
                Ok(_) => if known.contains(sandbox_id) {
                    Some("sandbox `"@ + sandbox_id + "` already exists"@)
                } else {
                    None
                },
            }
        },
    }
}

pub open spec fn list_view(list: Option<Vec<String>>) -> Option<Seq<Seq<char>>> {
    match list {
        Some(l) => Some(views(l@)),
        None => None,
    }
}

/// The order that a request comes to.
pub open spec fn is_order(
    order: CreateOrder,
    sandbox_id: String,
    template: String,
    workspace_dir: Option<String>,
    network_mode: Option<String>,
    network_allowlist: Option<Vec<String>>,
    memory_mb: Option<u32>,
    vcpu_count: Option<u32>,
) -> bool {
    &&& order.sandbox_id@ == sandbox_id@
    &&& order.template == template
    &&& order.memory_mb == memory_mb
    &&& order.vcpu_count == vcpu_count
    &&& order.ephemeral == workspace_dir is None
    &&& asked_network(
        match network_mode {
            Some(m) => m@,
            None => "none"@,
        },
        match network_allowlist {
            Some(l) => views(l@),
            None => Seq::<Seq<char>>::empty(),
        },
    ) == Ok::<crate::cli::apple_helper::HelperNetwork, Seq<char>>(order.network@)
}

/// What is answered about a sandbox that is not there.
pub open spec fn unknown_sandbox(sandbox_id: Seq<char>) -> Seq<char> {
    "sandbox `"@ + sandbox_id + "` not found"@
}

impl HelperWork {
    /// What a request leads to.
    pub open spec fn opens(
        request: HelperRequest,
        state_root: Seq<char>,
        before: Sessions,
        after: Sessions,
        next: Self,
        step: HelperStep,
    ) -> bool {
        match request {
            HelperRequest::Create {
                sandbox_id,
                template,
                workspace_dir,
                runtime,
                network_mode,
                network_allowlist,
                memory_mb,
                vcpu_count,
            } => after == before && match create_fault(
                before.dom(),
                sandbox_id@,
                runtime@,
                crate::text::opt_view(network_mode),
                list_view(network_allowlist),
            ) {
                Some(text) => Self::refused(next, step, text),
                None => match workspace_dir {
                    Some(dir) => (next matches HelperWork::Canonicalizing(order, d) && d@ == dir@
                        && is_order(
                        order,
                        sandbox_id,
                        template,
                        workspace_dir,
                        network_mode,
                        network_allowlist,
                        memory_mb,
                        vcpu_count,
                    )) && (step matches HelperStep::Ask(HelperEffect::Canonicalize(p)) && p@
                        == dir@),
                    None => {
                        let path = below(below(state_root, sandbox_id@), "workspace"@);
                        (next matches HelperWork::MakingWorkspace(order, p) && p@ == path
                            && is_order(
                            order,
                            sandbox_id,
                            template,
                            workspace_dir,
                            network_mode,
                            network_allowlist,
                            memory_mb,
                            vcpu_count,
                        )) && (step matches HelperStep::Ask(HelperEffect::CreateDirAll(p)) && p@
                            == path)
                    },
                },
            },
            HelperRequest::Exec { sandbox_id, command, timeout_secs } => after == before
                && if command@.len() == 0 {
                Self::refused(next, step, "command cannot be empty"@)
            } else if !before.contains_key(sandbox_id@) {
                Self::refused(next, step, unknown_sandbox(sandbox_id@))
            } else {
                next is Executing && asks_call(
                    step,
                    plain_call(
                        exec_args(before[sandbox_id@].container_name@, views(command@)),
                        at_least_one(timeout_secs),
                    ),
                )
            },
            HelperRequest::Read { sandbox_id, path } => after == before && if !before.contains_key(
                sandbox_id@,
            ) {
                Self::refused(next, step, unknown_sandbox(sandbox_id@))
            } else {
                match names_below(path@) {
                    Err(fault) => Self::refused(next, step, path_complaint(fault)),
                    Ok(names) => next is Reading && asks_call(
                        step,
                        read_model(
                            before[sandbox_id@].container_name@,
                            names,
                            DEFAULT_IO_TIMEOUT_SECS,
                        ),
                    ),
                }
            },
            HelperRequest::Write { sandbox_id, path, bytes_b64 } => after == before
                && if !before.contains_key(sandbox_id@) {
                Self::refused(next, step, unknown_sandbox(sandbox_id@))
            } else {
                match (names_below(path@), base64_bytes(bytes_b64@)) {
                    (Err(fault), _) => Self::refused(next, step, path_complaint(fault)),
                    (Ok(_), Err(e)) => Self::refused(
                        next,
                        step,
                        "decode write payload bytes_b64: "@ + e,
                    ),
                    (Ok(names), Ok(bytes)) => Self::opens_write(
                        before[sandbox_id@].container_name@,
                        names,
                        bytes,
                        next,
                        step,
                    ),
                }
            },
            HelperRequest::Destroy { sandbox_id } => after == before.remove(sandbox_id@)
                && if before.contains_key(sandbox_id@) {
                next == HelperWork::Deleting(before[sandbox_id@]) && asks_call(
                    step,
                    delete_model(before[sandbox_id@].container_name@),
                )
            } else {
                next is Over && step == HelperStep::Answer(HelperResponse::Ack)
            },
        }
    }

    /// The directory of the file is made where it stands in one; else the file is filled at
    /// once.
    pub open spec fn opens_write(
        container: Seq<char>,
        names: Seq<Seq<char>>,
        bytes: Seq<u8>,
        next: Self,
        step: HelperStep,
    ) -> bool {
        let path = container_path(plain_path(names));
        match parent_model(container, names, DEFAULT_IO_TIMEOUT_SECS) {
            Some(call) => (next matches HelperWork::MakingParent(c, p, b) && c@ == container && p@
                == path && b@ == bytes) && asks_call(step, call),
            None => next is Writing && asks_call(
                step,
                write_model(container, path, bytes, DEFAULT_IO_TIMEOUT_SECS),
            ),
        }
    }

    fn open_write(container: String, names: &Vec<String>, bytes: Vec<u8>) -> (r: (Self, HelperStep))
        ensures
            Self::opens_write(container@, views(names@), bytes@, r.0, r.1),
    {
        let path = path_in_container(path_of(names).as_str());
        match parent_call(container.as_str(), names, DEFAULT_IO_TIMEOUT_SECS) {
            Some(call) => Self::ask(HelperWork::MakingParent(container, path, bytes), call),
            None => {
                let call = write_call(
                    container.as_str(),
                    path.as_str(),
                    bytes,
                    DEFAULT_IO_TIMEOUT_SECS,
                );
                Self::ask(HelperWork::Writing, call)
            },
        }
    }
}

impl AppleHelper {
    pub fn new(state_root: String) -> (r: Self)
        ensures
            r.state_root == state_root,
            r.sandboxes@ == Map::<Seq<char>, SandboxSession>::empty(),
    {
        AppleHelper { state_root, sandboxes: Table::new() }
    }

    fn create_sandbox(
        &self,
        sandbox_id: String,
        template: String,
        workspace_dir: Option<String>,
        runtime: String,
        network_mode: Option<String>,
        network_allowlist: Option<Vec<String>>,
        memory_mb: Option<u32>,
        vcpu_count: Option<u32>,
    ) -> (r: (HelperWork, HelperStep))
        ensures
            HelperWork::opens(
                HelperRequest::Create {
                    sandbox_id,
                    template,
                    workspace_dir,
                    runtime,
                    network_mode,
                    network_allowlist,
                    memory_mb,
                    vcpu_count,
                },
                self.state_root@,
                self.sandboxes@,
                self.sandboxes@,
                r.0,
                r.1,
            ),
    {
        proof {
            reveal_strlit("containerization");
            reveal_strlit("virtualization");
            assert("containerization"@.len() == 16);
            assert("virtualization"@.len() == 14);
        }
        let id = match sanitize_sandbox_id(sandbox_id.as_str()) {
            Ok(id) => id,
            Err(e) => {
                return HelperWork::refuse(e);
            },
        };
        match RuntimeKind::parse(runtime.as_str()) {
            Err(e) => {
                return HelperWork::refuse(e);
            },
            Ok(RuntimeKind::Virtualization) => {
                return HelperWork::refuse(
                    "runtime `virtualization` is not implemented by this helper; use runtime=containerization".to_owned(),
                );
            },
            Ok(RuntimeKind::Containerization) => {},
        }
        let mode = match network_mode {
            Some(m) => m,
            None => "none".to_owned(),
        };
        let list = match network_allowlist {
            Some(l) => l,
            None => {
                let none: Vec<String> = Vec::new();
                assert(views(none@) =~= Seq::<Seq<char>>::empty());
                none
            },
        };
        let network = match HelperNetworkMode::parse(mode.as_str(), list) {
            Ok(n) => n,
            Err(e) => {
                return HelperWork::refuse(e);
            },
        };
        if self.sandboxes.contains(&id) {
            return HelperWork::refuse(cat3("sandbox `", id.as_str(), "` already exists"));
        }
        let path = join_path(join_path(self.state_root.as_str(), id.as_str()).as_str(), "workspace");
        let order = CreateOrder {
            sandbox_id: id,
            template,
            network,
            memory_mb,
            vcpu_count,
            ephemeral: workspace_dir.is_none(),
        };
        match workspace_dir {
            Some(dir) => {
                let asked = dir.clone();
                (
                    HelperWork::Canonicalizing(order, dir),
                    HelperStep::Ask(HelperEffect::Canonicalize(asked)),
                )
            },
            None => {
                let asked = path.clone();
                (
                    HelperWork::MakingWorkspace(order, path),
                    HelperStep::Ask(HelperEffect::CreateDirAll(asked)),
                )
            },
        }
    }

    /// Takes up a request.
    pub fn handle_request(&mut self, request: HelperRequest) -> (r: (HelperWork, HelperStep))
        ensures
            HelperWork::opens(
                request,
                old(self).state_root@,
                old(self).sandboxes@,
                final(self).sandboxes@,
                r.0,
                r.1,
            ),
            final(self).state_root == old(self).state_root,
    {
        match request {
            HelperRequest::Create {
                sandbox_id,
                template,
                workspace_dir,
                runtime,
                network_mode,
                network_allowlist,
                memory_mb,
                vcpu_count,
            } => self.create_sandbox(
                sandbox_id,
                template,
                workspace_dir,
                runtime,
                network_mode,
                network_allowlist,
                memory_mb,
                vcpu_count,
            ),
            HelperRequest::Exec { sandbox_id, command, timeout_secs } => {
                if command.len() == 0 {
                    return HelperWork::refuse("command cannot be empty".to_owned());
                }
                match self.sandboxes.get(&sandbox_id) {
                    None => HelperWork::refuse(
                        cat3("sandbox `", sandbox_id.as_str(), "` not found"),
                    ),
                    Some(session) => {
                        let call = exec_call(
                            session.container_name.as_str(),
                            &command,
                            one_or_more(timeout_secs),
                        );
                        HelperWork::ask(HelperWork::Executing, call)
                    },
                }
            },
            HelperRequest::Read { sandbox_id, path } => match self.sandboxes.get(&sandbox_id) {
                None => HelperWork::refuse(cat3("sandbox `", sandbox_id.as_str(), "` not found")),
                Some(session) => match relative_names(path.as_str()) {
                    Err(fault) => HelperWork::refuse(complain_of_path(fault)),
                    Ok(names) => {
                        let call = read_call(
                            session.container_name.as_str(),
                            &names,
                            DEFAULT_IO_TIMEOUT_SECS,
                        );
                        HelperWork::ask(HelperWork::Reading, call)
                    },
                },
            },
            HelperRequest::Write { sandbox_id, path, bytes_b64 } => match self.sandboxes.get(
                &sandbox_id,
            ) {
                None => HelperWork::refuse(cat3("sandbox `", sandbox_id.as_str(), "` not found")),
                Some(session) => match relative_names(path.as_str()) {
                    Err(fault) => HelperWork::refuse(complain_of_path(fault)),
                    Ok(names) => match base64_decode(bytes_b64.as_str()) {
                        Err(e) => HelperWork::refuse(
                            cat2("decode write payload bytes_b64: ", e.as_str()),
                        ),
                        Ok(bytes) => HelperWork::open_write(
                            session.container_name.clone(),
                            &names,
                            bytes,
                        ),
                    },
                },
            },
            HelperRequest::Destroy { sandbox_id } => {
                match self.sandboxes.take(&sandbox_id) {
                    None => (HelperWork::Over, HelperStep::Answer(HelperResponse::Ack)),
                    Some(session) => {
                        let call = delete_call(session.container_name.as_str());
                        HelperWork::ask(HelperWork::Deleting(session), call)
                    },
                }
            },
        }
    }
}

/// A preparation that fails after the network was made takes the name server and the network
/// away again, and only then is the failure reported.
pub proof fn failed_preparations_are_undone(
    order: CreateOrder,
    e: Seq<char>,
    first: HelperWork,
    asked: HelperStep,
    reply: HelperReply,
    second: HelperWork,
    then: HelperStep,
    last_reply: HelperReply,
    third: HelperWork,
    told: HelperStep,
    sessions: Sessions,
    after_second: Sessions,
    after_third: Sessions,
)
    requires
        HelperWork::unprepared(order, e, first, asked),
        reply is Ran || reply is Failed,
        first.follows(reply, sessions, after_second, second, then),
        last_reply is Ran || last_reply is Failed,
        second.follows(last_reply, after_second, after_third, third, told),
    ensures
        asks_call(asked, delete_model(order.dns_name())),
        asks_call(then, network_model("delete"@, order.network_name(), DEFAULT_DESTROY_TIMEOUT_SECS)),
        answers_error(told, order.unprepared(e)),
        after_third == sessions,
{
}

/// A container of a sandbox with an allowlist is never started without the network and the
/// name server that were made for it.
pub proof fn allowlists_start_on_their_network(
    order: CreateOrder,
    workspace: String,
    setup: Option<AllowlistRuntimeSetup>,
    next: HelperWork,
    step: HelperStep,
)
    requires
        order.network is Allowlist,
        HelperWork::starts(order, workspace, setup, next, step),
        next is Starting,
    ensures
        setup matches Some(s) && asks_call(
            step,
            plain_call(
                start_args(
                    order,
                    workspace@,
                    seq!["--network"@, s.network_name@, "--dns"@, s.dns_server_ip@],
                ),
                DEFAULT_IO_TIMEOUT_SECS,
            ),
        ),
{
}

/// The helper keeps a sandbox only once its container was started without a complaint, and
/// forgets one only on request.
pub proof fn sessions_follow_the_containers(
    state: HelperWork,
    reply: HelperReply,
    before: Sessions,
    after: Sessions,
    next: HelperWork,
    step: HelperStep,
)
    requires
        state.follows(reply, before, after, next, step),
        after != before,
    ensures
        state is Starting,
        reply matches HelperReply::Ran(result) && result.exit_code == 0,
        step == HelperStep::Answer(HelperResponse::Ack),
{
}

/// A request about a sandbox goes to the container of that sandbox and no other: its command is run
/// there word for word, a file is read and written there with the bytes that the request stands
/// for, and what the container gave is what is answered. A sandbox that is not there is refused, but
/// for its removal, which then has nothing to do.
pub proof fn requests_go_to_their_container(
    request: HelperRequest,
    state_root: Seq<char>,
    before: Sessions,
    after: Sessions,
    state: HelperWork,
    step: HelperStep,
    result: CommandResult,
    last: HelperWork,
    told: HelperStep,
)
    requires
        HelperWork::opens(request, state_root, before, after, state, step),
        state.follows(HelperReply::Ran(result), after, after, last, told),
    ensures
        match request {
            HelperRequest::Exec { sandbox_id, command, timeout_secs } => {
                let known = before.contains_key(sandbox_id@) && command@.len() > 0;
                &&& after == before
                &&& known ==> {
                    &&& step matches HelperStep::Ask(HelperEffect::Container(c))
                    &&& c@.args[0] == "exec"@ && c@.args[3]
                        == before[sandbox_id@].container_name@
                    &&& c@.args.skip(4) == views(command@)
                    &&& c@.stdin is None
                    &&& timeout_secs >= 1 ==> c@.timeout_secs == timeout_secs
                    &&& told matches HelperStep::Answer(
                        HelperResponse::Exec { exit_code, stdout, stderr, duration_ms: _ },
                    )
                    &&& exit_code == result.exit_code
                    &&& stdout@ == utf8_lossy(result.stdout@)
                    &&& stderr@ == utf8_lossy(result.stderr@)
                }
                &&& !known ==> (step matches HelperStep::Answer(HelperResponse::Error { message: _ }))
            },
            HelperRequest::Read { sandbox_id, path } => {
                let known = before.contains_key(sandbox_id@) && names_below(path@) is Ok;
                &&& after == before
                &&& known ==> {
                    &&& step matches HelperStep::Ask(HelperEffect::Container(c))
                    &&& c@.args[3] == before[sandbox_id@].container_name@
                    &&& c@.args[5] == "cat"@
                    &&& c@.args[6] == container_path(plain_path(names_below(path@)->Ok_0))
                    &&& result.exit_code == 0 ==> (told matches HelperStep::Answer(
                        HelperResponse::Read { bytes_b64 },
                    ) && bytes_b64@ == base64_text(result.stdout@))
                    &&& result.exit_code != 0 ==> (told matches HelperStep::Answer(
                        HelperResponse::Error { message: _ },
                    ))
                }
                &&& !known ==> (step matches HelperStep::Answer(HelperResponse::Error { message: _ }))
            },
            HelperRequest::Write { sandbox_id, path, bytes_b64 } => {
                let known = before.contains_key(sandbox_id@) && names_below(path@) is Ok
                    && base64_bytes(bytes_b64@) is Ok;
                let names = names_below(path@)->Ok_0;
                let filling = if names.len() < 2 {
                    step
                } else {
                    told
                };
                &&& after == before
                &&& known && (names.len() < 2 || result.exit_code == 0) ==> {
                    &&& filling matches HelperStep::Ask(HelperEffect::Container(c))
                    &&& c@.args[4] == before[sandbox_id@].container_name@
                    &&& c@.args[6] == "tee"@
                    &&& c@.args[7] == container_path(plain_path(names))
                    &&& c@.stdin == Some(base64_bytes(bytes_b64@)->Ok_0)
                }
                &&& !known ==> (step matches HelperStep::Answer(HelperResponse::Error { message: _ }))
            },
            HelperRequest::Destroy { sandbox_id } => {
                &&& after == before.remove(sandbox_id@)
                &&& before.contains_key(sandbox_id@) ==> (step matches HelperStep::Ask(
                    HelperEffect::Container(c),
                ) && c@.args[0] == "delete"@ && c@.args.last()
                    == before[sandbox_id@].container_name@)
                &&& !before.contains_key(sandbox_id@) ==> step == HelperStep::Answer(
                    HelperResponse::Ack,
                )
            },
            _ => after == before,
        },
{
    if let HelperRequest::Exec { sandbox_id, command, timeout_secs } = request {
        if before.contains_key(sandbox_id@) && command@.len() > 0 {
            let name = before[sandbox_id@].container_name@;
            assert(exec_args(name, views(command@)).skip(4) =~= views(command@));
        }
    }
}

} // verus!
