//! How a Firecracker machine is started.

use crate::firecracker::api::{VmCall, VmCallModel};
use crate::paths::{below, join_path};
use crate::text::{cat2, texts, views};
use vstd::prelude::*;

verus! {

/// How long the socket of a process is waited for, in milliseconds.
pub const SOCKET_TIMEOUT_MS: u64 = 3000;

/// How long to wait between two looks at the socket, in milliseconds.
pub const SOCKET_POLL_MS: u64 = 30;

#[derive(Debug, Clone, PartialEq, Eq)]
pub struct FirecrackerBinary {
    pub firecracker_path: String,
}

impl Default for FirecrackerBinary {
    fn default() -> (r: Self)
        ensures
            r.firecracker_path@ == "firecracker"@,
    {
        FirecrackerBinary { firecracker_path: "firecracker".to_owned() }
    }
}

#[derive(Debug, Clone, PartialEq, Eq)]
pub struct FirecrackerVmConfig {
    pub vm_id: String,
    pub socket_path: String,
    pub kernel_image_path: String,
    pub rootfs_path: String,
    pub log_path: String,
    pub memory_mb: u32,
    pub vcpu_count: u8,
    pub boot_args: String,
    pub tap_name: Option<String>,
    pub vsock_guest_cid: u32,
    pub vsock_uds_path: String,
}

impl FirecrackerVmConfig {
    /// A small machine, with its files in the directory for temporary files.
    pub fn minimal(
        vm_id: String,
        socket_path: String,
        kernel: String,
        rootfs: String,
        temp_dir: &str,
    ) -> (r: Self)
        ensures
            r.vm_id == vm_id,
            r.socket_path == socket_path,
            r.kernel_image_path == kernel,
            r.rootfs_path == rootfs,
            r.log_path@ == below(temp_dir@, "hyperbox-firecracker.log"@),
            r.memory_mb == 512,
            r.vcpu_count == 1,
            r.boot_args@ == "console=ttyS0 reboot=k panic=1 pci=off"@,
            r.tap_name is None,
            r.vsock_guest_cid == 3,
            r.vsock_uds_path@ == below(temp_dir@, "hyperbox-vsock.sock"@),
    {
        FirecrackerVmConfig {
            vm_id,
            socket_path,
            kernel_image_path: kernel,
            rootfs_path: rootfs,
            log_path: join_path(temp_dir, "hyperbox-firecracker.log"),
            memory_mb: 512,
            vcpu_count: 1,
            boot_args: "console=ttyS0 reboot=k panic=1 pci=off".to_owned(),
            tap_name: None,
            vsock_guest_cid: 3,
            vsock_uds_path: join_path(temp_dir, "hyperbox-vsock.sock"),
        }
    }

    /// The calls that bring the machine up, in their order. The last of them starts it.
    pub open spec fn boot_plan(self) -> Seq<VmCallModel> {
        let head = seq![
            VmCallModel::MachineConfig {
                vcpu_count: self.vcpu_count,
                mem_size_mib: self.memory_mb,
            },
            VmCallModel::BootSource {
                kernel_image_path: self.kernel_image_path@,
                boot_args: self.boot_args@,
            },
            VmCallModel::Rootfs { path_on_host: self.rootfs_path@, is_read_only: false },
            VmCallModel::Vsock {
                guest_cid: self.vsock_guest_cid,
                uds_path: self.vsock_uds_path@,
            },
        ];
        match self.tap_name {
            Some(tap) => head.push(VmCallModel::Network { tap_name: tap@ }).push(
                VmCallModel::Start,
            ),
            None => head.push(VmCallModel::Start),
        }
    }

    pub fn boot_calls(&self) -> (r: Vec<VmCall>)
        ensures
            call_models(r@) == self.boot_plan(),
    {
        let mut calls: Vec<VmCall> = Vec::new();
        calls.push(
            VmCall::MachineConfig { vcpu_count: self.vcpu_count, mem_size_mib: self.memory_mb },
        );
        calls.push(
            VmCall::BootSource {
                kernel_image_path: self.kernel_image_path.clone(),
                boot_args: self.boot_args.clone(),
            },
        );
        calls.push(VmCall::Rootfs { path_on_host: self.rootfs_path.clone(), is_read_only: false });
        calls.push(
            VmCall::Vsock {
                guest_cid: self.vsock_guest_cid,
                uds_path: self.vsock_uds_path.clone(),
            },
        );
        if let Some(tap) = &self.tap_name {
            calls.push(VmCall::Network { tap_name: tap.clone() });
        }
        calls.push(VmCall::Start);
        assert(call_models(calls@) =~= self.boot_plan());
        calls
    }
}

pub open spec fn call_models(calls: Seq<VmCall>) -> Seq<VmCallModel> {
    Seq::new(calls.len(), |i: int| calls[i]@)
}

/// What is asked for while a machine is started.
#[derive(Debug, PartialEq, Eq)]
pub enum VmEffect {
    /// Make the directories that this path stands in.
    MakeParents(String),
    RemoveFile(String),
    Spawn(String, Vec<String>),
    /// Say whether something stands at this path.
    Exists(String),
    /// Wait for this many milliseconds.
    Pause(u64),
    Call(VmCall),
}

/// What came of it.
#[derive(Debug)]
pub enum VmReply {
    Unit,
    Failed(String),
    Exists(bool),
}

#[derive(Debug)]
pub enum VmStep {
    Ask(VmEffect),
    Done(Result<FirecrackerVmConfig, String>),
    Stray,
}

pub open spec fn vm_fails(step: VmStep, text: Seq<char>) -> bool {
    step matches VmStep::Done(Err(e)) && e@ == text
}

/// A machine on its way up.
#[derive(Debug)]
pub enum StartVm {
    MakingParents(FirecrackerVmConfig, FirecrackerBinary, Vec<VmCall>),
    Clearing(FirecrackerVmConfig, FirecrackerBinary, Vec<VmCall>),
    Spawning(FirecrackerVmConfig, Vec<VmCall>),
    Looking(FirecrackerVmConfig, Vec<VmCall>),
    Pausing(FirecrackerVmConfig, Vec<VmCall>),
    /// These calls are left, after the one that is on its way.
    Calling(FirecrackerVmConfig, Vec<VmCall>),
    Over,
}

impl StartVm {
    /// The calls are made once the process is up.
    pub open spec fn opens(
        config: FirecrackerVmConfig,
        binary: FirecrackerBinary,
        calls: Seq<VmCallModel>,
        next: Self,
        step: VmStep,
    ) -> bool {
        &&& next matches StartVm::MakingParents(c, b, list)
        &&& c == config
        &&& b == binary
        &&& call_models(list@) == calls
        &&& step matches VmStep::Ask(VmEffect::MakeParents(p))
        &&& p@ == config.socket_path@
    }

    /// A machine that starts from its disk.
    pub fn begin(binary: FirecrackerBinary, config: FirecrackerVmConfig) -> (r: (Self, VmStep))
        ensures
            Self::opens(config, binary, config.boot_plan(), r.0, r.1),
    {
        let calls = config.boot_calls();
        let asked = config.socket_path.clone();
        (
            StartVm::MakingParents(config, binary, calls),
            VmStep::Ask(VmEffect::MakeParents(asked)),
        )
    }

    /// A machine that goes on from a snapshot: it starts without arguments for its kernel, and
    /// the snapshot is loaded last.
    pub fn begin_restore(
        binary: FirecrackerBinary,
        config: FirecrackerVmConfig,
        snapshot_path: String,
        mem_path: String,
    ) -> (r: (Self, VmStep))
        ensures
            exists|plain: FirecrackerVmConfig| #[trigger]
                without_arguments(config, plain) && Self::opens(
                    plain,
                    binary,
                    plain.boot_plan().push(
                        VmCallModel::LoadSnapshot {
                            mem_file_path: mem_path@,
                            snapshot_path: snapshot_path@,
                        },
                    ),
                    r.0,
                    r.1,
                ),
    {
        let ghost given = config;
        let mut config = config;
        config.boot_args = String::new();
        assert(config.boot_args@ =~= Seq::<char>::empty());
        assert(without_arguments(given, config));
        let mut calls = config.boot_calls();
        let ghost boot = calls@;
        let load = VmCall::LoadSnapshot { mem_file_path: mem_path, snapshot_path };
        calls.push(load);
        assert(call_models(calls@) =~= call_models(boot).push(load@));
        let asked = config.socket_path.clone();
        (
            StartVm::MakingParents(config, binary, calls),
            VmStep::Ask(VmEffect::MakeParents(asked)),
        )
    }

    /// The socket is looked at while there is time left.
    pub open spec fn looks(
        config: FirecrackerVmConfig,
        calls: Seq<VmCall>,
        elapsed_ms: u64,
        next: Self,
        step: VmStep,
    ) -> bool {
        if elapsed_ms < SOCKET_TIMEOUT_MS {
            (next matches StartVm::Looking(c, list) && c == config && list@ == calls) && (step
                matches VmStep::Ask(VmEffect::Exists(p)) && p@ == config.socket_path@)
        } else {
            next is Over && vm_fails(
                step,
                "timed out waiting for firecracker socket: "@ + config.socket_path@,
            )
        }
    }

    /// The next call is made; after the last one the machine is up.
    pub open spec fn calls_on(
        config: FirecrackerVmConfig,
        calls: Seq<VmCall>,
        next: Self,
        step: VmStep,
    ) -> bool {
        if calls.len() == 0 {
            next is Over && step == VmStep::Done(Ok(config))
        } else {
            &&& next matches StartVm::Calling(c, rest)
            &&& c == config
            &&& rest@ == calls.subrange(1, calls.len() as int)
            &&& step == VmStep::Ask(VmEffect::Call(calls[0]))
        }
    }

    /// What a reply leads to, given how long the socket has been waited for. Whether the old
    /// socket could be removed does not matter.
    pub open spec fn follows(self, reply: VmReply, elapsed_ms: u64, next: Self, step: VmStep)
     -> bool {
        match (self, reply) {
            (StartVm::Over, _) => next is Over && step is Stray,
            (StartVm::MakingParents(config, binary, calls), VmReply::Unit) => next
                == StartVm::Clearing(config, binary, calls) && (step matches VmStep::Ask(
                VmEffect::RemoveFile(p),
            ) && p@ == config.socket_path@),
            (StartVm::Clearing(config, binary, calls), VmReply::Unit) | (
                StartVm::Clearing(config, binary, calls),
                VmReply::Failed(_),
            ) => next == StartVm::Spawning(config, calls) && (step matches VmStep::Ask(
                VmEffect::Spawn(program, args),
            ) && program == binary.firecracker_path && views(args@) == seq![
                "--api-sock"@,
                config.socket_path@,
                "--log-path"@,
                config.log_path@,
            ]),
            (StartVm::Spawning(config, calls), VmReply::Unit) => Self::looks(
                config,
                calls@,
                elapsed_ms,
                next,
                step,
            ),
            (StartVm::Looking(config, calls), VmReply::Exists(there)) => if there {
                Self::calls_on(config, calls@, next, step)
            } else {
                next == StartVm::Pausing(config, calls) && step == VmStep::Ask(
                    VmEffect::Pause(SOCKET_POLL_MS),
                )
            },
            (StartVm::Pausing(config, calls), VmReply::Unit) => Self::looks(
                config,
                calls@,
                elapsed_ms,
                next,
                step,
            ),
            (StartVm::Calling(config, rest), VmReply::Unit) => Self::calls_on(
                config,
                rest@,
                next,
                step,
            ),
            (_, VmReply::Failed(e)) => next is Over && vm_fails(step, e@),
            _ => next == self && step is Stray,
        }
    }

    fn look(config: FirecrackerVmConfig, calls: Vec<VmCall>, elapsed_ms: u64) -> (r: (Self, VmStep))
        ensures
            Self::looks(config, calls@, elapsed_ms, r.0, r.1),
    {
        if elapsed_ms < SOCKET_TIMEOUT_MS {
            let asked = config.socket_path.clone();
            (StartVm::Looking(config, calls), VmStep::Ask(VmEffect::Exists(asked)))
        } else {
            let text = cat2(
                "timed out waiting for firecracker socket: ",
                config.socket_path.as_str(),
            );
            (StartVm::Over, VmStep::Done(Err(text)))
        }
    }

    fn call_on(config: FirecrackerVmConfig, calls: Vec<VmCall>) -> (r: (Self, VmStep))
        ensures
            Self::calls_on(config, calls@, r.0, r.1),
    {
        let mut calls = calls;
        if calls.len() == 0 {
            return (StartVm::Over, VmStep::Done(Ok(config)));
        }
        let ghost all = calls@;
        let call = calls.remove(0);
        assert(calls@ =~= all.subrange(1, all.len() as int));
        (StartVm::Calling(config, calls), VmStep::Ask(VmEffect::Call(call)))
    }

    fn spawn(config: FirecrackerVmConfig, binary: FirecrackerBinary, calls: Vec<VmCall>) -> (r: (
        Self,
        VmStep,
    ))
        ensures
            StartVm::Clearing(config, binary, calls).follows(VmReply::Unit, 0, r.0, r.1),
    {
        let args = texts(
            &["--api-sock", config.socket_path.as_str(), "--log-path", config.log_path.as_str()],
        );
        assert(views(args@) =~= seq![
            "--api-sock"@,
            config.socket_path@,
            "--log-path"@,
            config.log_path@,
        ]);
        (
            StartVm::Spawning(config, calls),
            VmStep::Ask(VmEffect::Spawn(binary.firecracker_path, args)),
        )
    }

    pub fn resume(self, reply: VmReply, elapsed_ms: u64) -> (r: (Self, VmStep))
        ensures
            self.follows(reply, elapsed_ms, r.0, r.1),
    {
        match (self, reply) {
            (StartVm::Over, _) => (StartVm::Over, VmStep::Stray),
            (StartVm::MakingParents(config, binary, calls), VmReply::Unit) => {
                let asked = config.socket_path.clone();
                (
                    StartVm::Clearing(config, binary, calls),
                    VmStep::Ask(VmEffect::RemoveFile(asked)),
                )
            },
            (StartVm::Clearing(config, binary, calls), VmReply::Unit) => Self::spawn(
                config,
                binary,
                calls,
            ),
            (StartVm::Clearing(config, binary, calls), VmReply::Failed(_)) => Self::spawn(
                config,
                binary,
                calls,
            ),
            (StartVm::Spawning(config, calls), VmReply::Unit) => Self::look(
                config,
                calls,
                elapsed_ms,
            ),
            (StartVm::Looking(config, calls), VmReply::Exists(there)) => {
                if there {
                    Self::call_on(config, calls)
                } else {
                    (
                        StartVm::Pausing(config, calls),
                        VmStep::Ask(VmEffect::Pause(SOCKET_POLL_MS)),
                    )
                }
            },
            (StartVm::Pausing(config, calls), VmReply::Unit) => Self::look(
                config,
                calls,
                elapsed_ms,
            ),
            (StartVm::Calling(config, rest), VmReply::Unit) => Self::call_on(config, rest),
            (_, VmReply::Failed(e)) => (StartVm::Over, VmStep::Done(Err(e))),
            (state, _) => (state, VmStep::Stray),
        }
    }
}

/// The same machine without arguments for its kernel.
pub open spec fn without_arguments(given: FirecrackerVmConfig, plain: FirecrackerVmConfig) -> bool {
    plain == (FirecrackerVmConfig { boot_args: plain.boot_args, ..given }) && plain.boot_args@.len()
        == 0
}

/// A machine is never started before it has its size, its kernel, its disk and its way to the
/// agent, nor before the network that it was given is attached.
pub proof fn machines_start_last(config: FirecrackerVmConfig)
    ensures
        config.boot_plan().last() == VmCallModel::Start,
        forall|i: int|
            0 <= i < config.boot_plan().len() - 1 ==> config.boot_plan()[i] != VmCallModel::Start,
        config.tap_name matches Some(tap) ==> config.boot_plan().contains(
            VmCallModel::Network { tap_name: tap@ },
        ),
        config.tap_name is None ==> forall|i: int|
            0 <= i < config.boot_plan().len() ==> !(#[trigger] config.boot_plan()[i] is Network),
{
    if let Some(tap) = config.tap_name {
        assert(config.boot_plan()[4] == VmCallModel::Network { tap_name: tap@ });
    }
}

/// A machine is reported as up only after every call of its plan succeeded.
pub proof fn machines_are_up_after_all_calls(
    state: StartVm,
    reply: VmReply,
    elapsed_ms: u64,
    next: StartVm,
    step: VmStep,
    config: FirecrackerVmConfig,
)
    requires
        state.follows(reply, elapsed_ms, next, step),
        step == VmStep::Done(Ok(config)),
    ensures
        reply is Unit && (state matches StartVm::Calling(c, rest) && c == config && rest@.len()
            == 0) || (state matches StartVm::Looking(c, calls) && c == config && calls@.len() == 0),
{
}

} // verus!
