//! Machines from their beginning to their sandbox: what they are started with, and what their
//! packets come to.

use crate::codec::JsonPlainModel;
use crate::config::{patterns, NetworkModel, SandboxConfig};
use crate::firecracker::api::{call_fields, call_path, VmCallModel};
use crate::firecracker::backend::{
    ip_texts, FcCreate, FcEffect, FcReply, FcStep, FirecrackerBackend, NewMachine,
};
use crate::firecracker::vm::FirecrackerVmConfig;
use crate::ids::hyphenated;
use crate::model::{SandboxId, SandboxLease};
use crate::network::effect::{
    after_commands, fate, fenced, firewalls_do_what_the_mode_says, knows_nothing_of, Firewall,
};
use crate::network::firewall::{
    apply_plan, command_views, population_plan, CommandModel, VmNetworkSpec,
};
use crate::text::{opt_view, views};
use crate::time::Timestamp;
use vstd::prelude::*;

verus! {

/// The making of a sandbox from its beginning on: the states and steps that follow from each other
/// by the replies, each with its time, and the backend as it goes along.
pub struct FcCourse {
    pub states: Seq<FcCreate>,
    pub steps: Seq<FcStep<SandboxLease>>,
    pub replies: Seq<FcReply>,
    pub times: Seq<Timestamp>,
    pub backends: Seq<FirecrackerBackend>,
}

impl FcCourse {
    pub open spec fn wf(self) -> bool {
        &&& self.states.len() == self.replies.len() + 1
        &&& self.steps.len() == self.replies.len() + 1
        &&& self.backends.len() == self.replies.len() + 1
        &&& self.times.len() == self.replies.len()
        &&& forall|i: int|
            0 <= i < self.replies.len() ==> self.steps[i] is Ask && self.states[i].follows(
                #[trigger] self.replies[i],
                self.times[i],
                self.backends[i],
                self.backends[i + 1],
                self.states[i + 1],
                self.steps[i + 1],
            )
    }

    /// The firewall commands of a step.
    pub open spec fn commands(self, i: int) -> Seq<CommandModel> {
        command_views(self.steps[i]->Ask_0->Firewall_0@)
    }

    proof fn one_step(self, i: int)
        requires
            self.wf(),
            0 <= i < self.steps.len(),
            self.steps[i] is Ask,
            self.steps.last() is Done,
        ensures
            i < self.replies.len(),
            self.states[i].follows(
                self.replies[i],
                self.times[i],
                self.backends[i],
                self.backends[i + 1],
                self.states[i + 1],
                self.steps[i + 1],
            ),
            self.steps[i + 1] is Done ==> i + 1 == self.replies.len(),
            !(self.steps[i + 1] is Stray),
    {
        assert(self.steps.last() == self.steps[self.replies.len() as int]);
        let r = self.replies[i];
        if i + 1 < self.replies.len() {
            let s = self.replies[i + 1];
            assert(self.steps[i + 1] is Ask);
        }
    }
}

/// The machine of a sandbox is started with what the sandbox is configured for, and with a network
/// device exactly where it has a network. Then its firewall is built for that device and that
/// network; with an allowlist, its names are looked up, the addresses that are found are let
/// through, and they are kept up to date; and only then the sandbox is handed out.
pub proof fn machines_are_started_and_fenced(
    id: SandboxId,
    config: SandboxConfig,
    course: FcCourse,
    lease: SandboxLease,
)
    requires
        course.wf(),
        course.states[0] == FcCreate::MakingWorkDir(NewMachine { id, config }),
        course.steps[0] is Ask,
        course.steps.last() == FcStep::Done(Ok(lease)),
    ensures
        lease.id == id,
        lease.info.id == id,
        course.replies.len() >= 4,
        course.steps[2] matches FcStep::Ask(FcEffect::StartVm(vm)) && {
            &&& vm.vm_id@ == hyphenated(id.0)
            &&& vm.memory_mb == config.memory_mb
            &&& vm.vcpu_count == config.vcpu_count
            &&& course.backends[1].config.rootfs_by_template@.contains_key(config.template@)
            &&& vm.rootfs_path
                == course.backends[1].config.rootfs_by_template@[config.template@]
            &&& vm.kernel_image_path == course.backends[1].config.kernel_image
            &&& vm.tap_name is None <==> config@.network is NoNetwork
            &&& match config@.network {
                NetworkModel::NoNetwork => course.replies.len() == 4,
                NetworkModel::Full => course.replies.len() == 5,
                NetworkModel::Allowlist(_) => course.replies.len() == 8,
            }
            &&& !(config@.network is NoNetwork) ==> exists|spec: VmNetworkSpec|
                course.commands(3) == #[trigger] apply_plan(spec, config@.network)
                    && Some(spec.tap_name@) == opt_view(vm.tap_name) && spec.vm_id@ == vm.vm_id@
            &&& config@.network matches NetworkModel::Allowlist(list) ==> {
                &&& course.steps[4] matches FcStep::Ask(FcEffect::Resolve(names))
                &&& views(names@) == patterns(list)
                &&& course.replies[4] matches FcReply::Addresses(found)
                &&& course.commands(5) == population_plan(vm.vm_id@, ip_texts(found@))
                &&& course.steps[6] matches FcStep::Ask(FcEffect::StartSync(of, domains))
                &&& of@ == vm.vm_id@
                &&& views(domains@) == patterns(list)
            }
        },
        course.backends.last().sandboxes@.contains_key(id.0),
        course.backends.last().sandboxes@[id.0].config == config,
        course.backends.last().sandboxes@[id.0].info == lease.info,
{
    let new = NewMachine { id, config };
    course.one_step(0);
    course.one_step(1);
    course.one_step(2);
    let vm = course.steps[2]->Ask_0->StartVm_0;
    course.one_step(3);
    let last = course.replies.len() as int;
    assert(course.backends.last() == course.backends[last]);
    if config@.network is NoNetwork {
    } else {
        let spec = course.states[3]->Firewalling_1;
        assert(course.commands(3) == apply_plan(spec, config@.network));
        assert(Some(spec.tap_name@) == opt_view(vm.tap_name));
        course.one_step(4);
        if config@.network is Allowlist {
            course.one_step(5);
            course.one_step(6);
            course.one_step(7);
        }
    }
}

/// What becomes of the packets of a machine that is handed out: with the full network all of them
/// are let through, and with an allowlist exactly those to an address that was found for one of
/// its names. A machine without a network has no device to send them by.
pub proof fn packets_go_where_the_network_lets_them(
    id: SandboxId,
    config: SandboxConfig,
    course: FcCourse,
    lease: SandboxLease,
    f: Firewall,
    to: Seq<char>,
)
    requires
        course.wf(),
        course.states[0] == FcCreate::MakingWorkDir(NewMachine { id, config }),
        course.steps[0] is Ask,
        course.steps.last() == FcStep::Done(Ok(lease)),
        knows_nothing_of(f, hyphenated(id.0)),
    ensures
        course.steps[2] matches FcStep::Ask(FcEffect::StartVm(vm)) && match config@.network {
            NetworkModel::NoNetwork => vm.tap_name is None,
            NetworkModel::Full => vm.tap_name matches Some(tap) && fate(
                after_commands(f, course.commands(3)),
                vm.vm_id@,
                tap@,
                to,
            ) == Some("accept"@),
            NetworkModel::Allowlist(_) => vm.tap_name matches Some(tap) && course.replies[4]
                matches FcReply::Addresses(found) && fate(
                after_commands(after_commands(f, course.commands(3)), course.commands(5)),
                vm.vm_id@,
                tap@,
                to,
            ) == Some(
                if ip_texts(found@).contains(to) {
                    "accept"@
                } else {
                    "drop"@
                },
            ),
        },
{
    machines_are_started_and_fenced(id, config, course, lease);
    let vm = course.steps[2]->Ask_0->StartVm_0;
    if !(config@.network is NoNetwork) {
        let spec = choose|spec: VmNetworkSpec|
            course.commands(3) == #[trigger] apply_plan(spec, config@.network)
                && Some(spec.tap_name@) == opt_view(vm.tap_name) && spec.vm_id@ == vm.vm_id@;
        let other = spec.tap_name@.push('x');
        assert(other.len() != spec.tap_name@.len());
        if config@.network is Full {
            let none = Seq::<Seq<char>>::empty();
            firewalls_do_what_the_mode_says(f, spec, config@.network, none, to, other);
            let plan = population_plan(spec.vm_id@, none);
            assert(plan.len() == 0);
            assert(fenced(f, spec, config@.network, none) == after_commands(f, course.commands(3)));
        } else {
            let found = course.replies[4]->Addresses_0;
            firewalls_do_what_the_mode_says(
                f,
                spec,
                config@.network,
                ip_texts(found@),
                to,
                other,
            );
        }
    }
}

/// The calls that bring a machine up give it what it is configured for: so many processors and so
/// much memory, its kernel, a disk that it may write to, the way to its agent, and its network
/// device where it has one, and no other. The start comes last, and once.
pub proof fn machines_are_brought_up_as_configured(config: FirecrackerVmConfig)
    ensures
        ({
            let plan = config.boot_plan();
            let n = plan.len() as int;
            &&& n == (if config.tap_name is Some {
                6int
            } else {
                5int
            })
            &&& plan[n - 1] is Start
            &&& forall|i: int| 0 <= i < n - 1 ==> !((#[trigger] plan[i]) is Start)
            &&& plan.contains(
                VmCallModel::MachineConfig {
                    vcpu_count: config.vcpu_count,
                    mem_size_mib: config.memory_mb,
                },
            )
            &&& plan.contains(
                VmCallModel::BootSource {
                    kernel_image_path: config.kernel_image_path@,
                    boot_args: config.boot_args@,
                },
            )
            &&& plan.contains(
                VmCallModel::Rootfs { path_on_host: config.rootfs_path@, is_read_only: false },
            )
            &&& plan.contains(
                VmCallModel::Vsock {
                    guest_cid: config.vsock_guest_cid,
                    uds_path: config.vsock_uds_path@,
                },
            )
            &&& forall|tap: Seq<char>| #[trigger]
                plan.contains(VmCallModel::Network { tap_name: tap }) <==> opt_view(config.tap_name)
                    == Some(tap)
        }),
{
    let plan = config.boot_plan();
    assert(plan[0] == VmCallModel::MachineConfig {
        vcpu_count: config.vcpu_count,
        mem_size_mib: config.memory_mb,
    });
    assert(plan[1] is BootSource);
    assert(plan[2] is Rootfs);
    assert(plan[3] is Vsock);
    if let Some(tap) = config.tap_name {
        assert(plan[4] == VmCallModel::Network { tap_name: tap@ });
    }
}

/// The value of a field.
pub open spec fn field(fields: Seq<(Seq<char>, JsonPlainModel)>, key: Seq<char>) -> Option<
    JsonPlainModel,
>
    decreases fields.len(),
{
    if fields.len() == 0 {
        None
    } else if fields[0].0 == key {
        Some(fields[0].1)
    } else {
        field(fields.subrange(1, fields.len() as int), key)
    }
}

/// The calls to a Firecracker process say in their fields, and by their path, what they are for.
pub proof fn calls_say_what_they_are_for(a: Seq<char>, b: Seq<char>, n: u8, m: u32, flag: bool)
    ensures
        ({
            let call = VmCallModel::MachineConfig { vcpu_count: n, mem_size_mib: m };
            &&& call_path(call) == "/machine-config"@
            &&& field(call_fields(call), "vcpu_count"@) == Some(JsonPlainModel::Number(n as u64))
            &&& field(call_fields(call), "mem_size_mib"@) == Some(JsonPlainModel::Number(m as u64))
        }),
        ({
            let call = VmCallModel::BootSource { kernel_image_path: a, boot_args: b };
            &&& call_path(call) == "/boot-source"@
            &&& field(call_fields(call), "kernel_image_path"@) == Some(JsonPlainModel::Text(a))
            &&& field(call_fields(call), "boot_args"@) == Some(JsonPlainModel::Text(b))
        }),
        ({
            let call = VmCallModel::Rootfs { path_on_host: a, is_read_only: flag };
            &&& call_path(call) == "/drives/rootfs"@
            &&& field(call_fields(call), "path_on_host"@) == Some(JsonPlainModel::Text(a))
            &&& field(call_fields(call), "is_root_device"@) == Some(JsonPlainModel::Flag(true))
            &&& field(call_fields(call), "is_read_only"@) == Some(JsonPlainModel::Flag(flag))
        }),
        ({
            let call = VmCallModel::Vsock { guest_cid: m, uds_path: a };
            &&& call_path(call) == "/vsock"@
            &&& field(call_fields(call), "guest_cid"@) == Some(JsonPlainModel::Number(m as u64))
            &&& field(call_fields(call), "uds_path"@) == Some(JsonPlainModel::Text(a))
        }),
        ({
            let call = VmCallModel::Network { tap_name: a };
            &&& call_path(call) == "/network-interfaces/eth0"@
            &&& field(call_fields(call), "iface_id"@) == Some(JsonPlainModel::Text("eth0"@))
            &&& field(call_fields(call), "host_dev_name"@) == Some(JsonPlainModel::Text(a))
        }),
        ({
            let call = VmCallModel::Start;
            &&& call_path(call) == "/actions"@
            &&& field(call_fields(call), "action_type"@) == Some(
                JsonPlainModel::Text("InstanceStart"@),
            )
        }),
        ({
            let call = VmCallModel::CreateSnapshot { mem_file_path: a, snapshot_path: b };
            &&& call_path(call) == "/snapshot/create"@
            &&& field(call_fields(call), "mem_file_path"@) == Some(JsonPlainModel::Text(a))
            &&& field(call_fields(call), "snapshot_path"@) == Some(JsonPlainModel::Text(b))
        }),
        ({
            let call = VmCallModel::LoadSnapshot { mem_file_path: a, snapshot_path: b };
            &&& call_path(call) == "/snapshot/load"@
            &&& field(call_fields(call), "mem_file_path"@) == Some(JsonPlainModel::Text(a))
            &&& field(call_fields(call), "snapshot_path"@) == Some(JsonPlainModel::Text(b))
            &&& field(call_fields(call), "resume_vm"@) == Some(JsonPlainModel::Flag(true))
        }),
{
    reveal_with_fuel(field, 5);
    reveal_strlit("vcpu_count");
    reveal_strlit("mem_size_mib");
    reveal_strlit("kernel_image_path");
    reveal_strlit("boot_args");
    reveal_strlit("drive_id");
    reveal_strlit("path_on_host");
    reveal_strlit("is_root_device");
    reveal_strlit("is_read_only");
    reveal_strlit("vsock_id");
    reveal_strlit("guest_cid");
    reveal_strlit("uds_path");
    reveal_strlit("iface_id");
    reveal_strlit("host_dev_name");
    reveal_strlit("snapshot_type");
    reveal_strlit("snapshot_path");
    reveal_strlit("mem_file_path");
    reveal_strlit("enable_diff_snapshots");
    reveal_strlit("resume_vm");
    assert("vcpu_count"@[0] == 'v' && "mem_size_mib"@[0] == 'm');
    assert("kernel_image_path"@[0] == 'k' && "boot_args"@[0] == 'b');
    assert("drive_id"@[0] == 'd' && "path_on_host"@[0] == 'p');
    assert("is_root_device"@.len() == 14 && "is_read_only"@.len() == 12);
    assert("is_root_device"@[0] == 'i' && "is_read_only"@[0] == 'i');
    assert("vsock_id"@[0] == 'v' && "guest_cid"@[0] == 'g' && "uds_path"@[0] == 'u');
    assert("iface_id"@[0] == 'i' && "host_dev_name"@[0] == 'h');
    assert("snapshot_type"@[9] == 't' && "snapshot_path"@[9] == 'p' && "mem_file_path"@[0] == 'm');
    assert("snapshot_type"@[0] == 's' && "snapshot_path"@[0] == 's');
    assert("enable_diff_snapshots"@[0] == 'e' && "resume_vm"@[0] == 'r');
}

} // verus!
