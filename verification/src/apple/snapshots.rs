//! Snapshots of the sandboxes of the Apple backend: archives of their systems.

use crate::apple::backend::{
    archive_path, asks_shell, ends_in, ends_in_io, ends_unfound, pack_script,
    snapshot_archive_relpath, snapshot_create_command, snapshot_restore_command, unpack_script,
    AppleEffect, AppleReply, AppleStep, AppleVzBackend, DirectContainerSandbox,
};
use crate::apple::container::{
    container_path, exit_report, path_in_container, report_exit, shortened, truncate_error_output,
};
use crate::config::SandboxConfig;
use crate::error::HyperboxError;
use crate::ids::hyphenated;
use crate::model::{ExecRequest, FilePayload, SandboxId, SandboxLease};
use crate::paths::{below, join_path};
use crate::snapshot::SnapshotId;
use crate::text::{cat2, cat4};
use vstd::prelude::*;

verus! {

/// The script that removes an archive.
pub open spec fn removal_script(archive: Seq<char>) -> Seq<char> {
    "rm -f "@ + archive
}

/// An archive of a sandbox, in the sandbox and outside of it.
#[derive(Debug)]
pub struct ArchivePlace {
    pub sandbox_id: SandboxId,
    pub snapshot_id: SnapshotId,
    pub artifact_path: String,
}

impl ArchivePlace {
    /// Where the archive stands in the sandbox.
    pub open spec fn inside(self) -> Seq<char> {
        container_path(archive_path(self.snapshot_id))
    }

    fn inside_text(&self) -> (r: String)
        ensures
            r@ == self.inside(),
    {
        path_in_container(snapshot_archive_relpath(&self.snapshot_id).as_str())
    }

    /// Where the archive stands in the workspace of the host.
    pub open spec fn on_host(self, direct: DirectContainerSandbox) -> Seq<char> {
        below(direct.workspace_host@, archive_path(self.snapshot_id))
    }

    fn on_host_text(&self, direct: &DirectContainerSandbox) -> (r: String)
        ensures
            r@ == self.on_host(*direct),
    {
        join_path(
            direct.workspace_host.as_str(),
            snapshot_archive_relpath(&self.snapshot_id).as_str(),
        )
    }
}

pub open spec fn asks_copy<T>(step: AppleStep<T>, from: Seq<char>, to: Seq<char>) -> bool {
    step matches AppleStep::Ask(AppleEffect::Copy(f, t)) && f@ == from && t@ == to
}

pub open spec fn asks_removal<T>(step: AppleStep<T>, path: Seq<char>) -> bool {
    step matches AppleStep::Ask(AppleEffect::RemoveFile(p)) && p@ == path
}

pub open spec fn asks_parents<T>(step: AppleStep<T>, path: Seq<char>) -> bool {
    step matches AppleStep::Ask(AppleEffect::MakeParents(p)) && p@ == path
}

/// The making of a snapshot.
#[derive(Debug)]
pub enum AppleSnapshot {
    Packing(ArchivePlace, Option<DirectContainerSandbox>),
    MakingParents(ArchivePlace, Option<DirectContainerSandbox>),
    Copying(ArchivePlace, DirectContainerSandbox),
    Reading(ArchivePlace),
    Writing(ArchivePlace),
    CleaningUp,
    Over,
}

impl AppleSnapshot {
    /// The system of the sandbox is packed to an archive.
    pub open spec fn begins(
        backend: AppleVzBackend,
        place: ArchivePlace,
        next: Self,
        step: AppleStep<()>,
    ) -> bool {
        if !backend.sandboxes@.contains_key(place.sandbox_id.0) {
            next is Over && ends_unfound(step, place.sandbox_id)
        } else {
            &&& next == AppleSnapshot::Packing(
                place,
                backend.sandboxes@[place.sandbox_id.0].direct_container,
            )
            &&& asks_shell(step, place.sandbox_id, pack_script(place.inside()), 1800)
        }
    }

    pub fn begin(
        backend: &AppleVzBackend,
        sandbox_id: SandboxId,
        snapshot_id: SnapshotId,
        artifact_path: String,
    ) -> (r: (Self, AppleStep<()>))
        ensures
            Self::begins(
                *backend,
                ArchivePlace { sandbox_id, snapshot_id, artifact_path },
                r.0,
                r.1,
            ),
    {
        match backend.direct_of(sandbox_id) {
            Err(e) => (AppleSnapshot::Over, AppleStep::Done(Err(e))),
            Ok(direct) => {
                let place = ArchivePlace { sandbox_id, snapshot_id, artifact_path };
                let script = snapshot_create_command(place.inside_text().as_str());
                (
                    AppleSnapshot::Packing(place, direct),
                    AppleStep::Ask(
                        AppleEffect::Exec(sandbox_id, ExecRequest::shell(script, 1800)),
                    ),
                )
            },
        }
    }

    /// What a reply leads to. The archive is copied from the workspace of the host where there
    /// is one, else read out of the sandbox; then it is removed from where it was made, and
    /// whether that succeeds does not matter.
    pub open spec fn follows(self, reply: AppleReply, next: Self, step: AppleStep<()>) -> bool {
        match (self, reply) {
            (AppleSnapshot::Over, _) => next is Over && step is Stray,
            (AppleSnapshot::Packing(place, direct), AppleReply::Outcome(o)) => if o.exit_code
                == 0 {
                next == AppleSnapshot::MakingParents(place, direct) && asks_parents(
                    step,
                    place.artifact_path@,
                )
            } else {
                next is Over && ends_in(
                    step,
                    exit_report("snapshot archive create"@, o.exit_code, shortened(o.stderr@)),
                )
            },
            (AppleSnapshot::MakingParents(place, Some(direct)), AppleReply::Unit) => next
                == AppleSnapshot::Copying(place, direct) && asks_copy(
                step,
                place.on_host(direct),
                place.artifact_path@,
            ),
            (AppleSnapshot::MakingParents(place, None), AppleReply::Unit) => next
                == AppleSnapshot::Reading(place) && (step matches AppleStep::Ask(
                AppleEffect::ReadFile(id, path),
            ) && id == place.sandbox_id && path@ == archive_path(place.snapshot_id)),
            (AppleSnapshot::Copying(place, direct), AppleReply::Unit) => next is CleaningUp
                && asks_removal(step, place.on_host(direct)),
            (AppleSnapshot::Reading(place), AppleReply::Payload(payload)) => next
                == AppleSnapshot::Writing(place) && (step matches AppleStep::Ask(
                AppleEffect::WriteHost(path, bytes),
            ) && path@ == place.artifact_path@ && bytes == payload.bytes),
            (AppleSnapshot::Writing(place), AppleReply::Unit) => next is CleaningUp && asks_shell(
                step,
                place.sandbox_id,
                removal_script(place.inside()),
                30,
            ),
            (AppleSnapshot::CleaningUp, AppleReply::Unit)
            | (AppleSnapshot::CleaningUp, AppleReply::Outcome(_))
            | (AppleSnapshot::CleaningUp, AppleReply::IoFailed(_))
            | (AppleSnapshot::CleaningUp, AppleReply::Failed(_)) => next is Over && step
                == AppleStep::<()>::Done(Ok(())),
            (_, AppleReply::IoFailed(e)) => next is Over && ends_in_io(step, e@),
            (_, AppleReply::Failed(e)) => next is Over && step == AppleStep::<()>::Done(Err(e)),
            _ => next == self && step is Stray,
        }
    }

    pub fn resume(self, reply: AppleReply) -> (r: (Self, AppleStep<()>))
        ensures
            self.follows(reply, r.0, r.1),
    {
        match (self, reply) {
            (AppleSnapshot::Over, _) => (AppleSnapshot::Over, AppleStep::Stray),
            (AppleSnapshot::Packing(place, direct), AppleReply::Outcome(o)) => {
                if o.exit_code == 0 {
                    let asked = place.artifact_path.clone();
                    (
                        AppleSnapshot::MakingParents(place, direct),
                        AppleStep::Ask(AppleEffect::MakeParents(asked)),
                    )
                } else {
                    let detail = truncate_error_output(o.stderr.as_str());
                    let report = report_exit(
                        "snapshot archive create",
                        o.exit_code,
                        detail.as_str(),
                    );
                    (
                        AppleSnapshot::Over,
                        AppleStep::Done(Err(HyperboxError::ExecutionFailed(report))),
                    )
                }
            },
            (AppleSnapshot::MakingParents(place, Some(direct)), AppleReply::Unit) => {
                let from = place.on_host_text(&direct);
                let to = place.artifact_path.clone();
                (
                    AppleSnapshot::Copying(place, direct),
                    AppleStep::Ask(AppleEffect::Copy(from, to)),
                )
            },
            (AppleSnapshot::MakingParents(place, None), AppleReply::Unit) => {
                let path = snapshot_archive_relpath(&place.snapshot_id);
                let id = place.sandbox_id;
                (
                    AppleSnapshot::Reading(place),
                    AppleStep::Ask(AppleEffect::ReadFile(id, path)),
                )
            },
            (AppleSnapshot::Copying(place, direct), AppleReply::Unit) => {
                let path = place.on_host_text(&direct);
                (AppleSnapshot::CleaningUp, AppleStep::Ask(AppleEffect::RemoveFile(path)))
            },
            (AppleSnapshot::Reading(place), AppleReply::Payload(payload)) => {
                let path = place.artifact_path.clone();
                (
                    AppleSnapshot::Writing(place),
                    AppleStep::Ask(AppleEffect::WriteHost(path, payload.bytes)),
                )
            },
            (AppleSnapshot::Writing(place), AppleReply::Unit) => {
                let script = cat2("rm -f ", place.inside_text().as_str());
                (
                    AppleSnapshot::CleaningUp,
                    AppleStep::Ask(
                        AppleEffect::Exec(place.sandbox_id, ExecRequest::shell(script, 30)),
                    ),
                )
            },
            (AppleSnapshot::CleaningUp, AppleReply::Unit) => (
                AppleSnapshot::Over,
                AppleStep::Done(Ok(())),
            ),
            (AppleSnapshot::CleaningUp, AppleReply::Outcome(_)) => (
                AppleSnapshot::Over,
                AppleStep::Done(Ok(())),
            ),
            (AppleSnapshot::CleaningUp, AppleReply::IoFailed(_)) => (
                AppleSnapshot::Over,
                AppleStep::Done(Ok(())),
            ),
            (AppleSnapshot::CleaningUp, AppleReply::Failed(_)) => (
                AppleSnapshot::Over,
                AppleStep::Done(Ok(())),
            ),
            (_, AppleReply::IoFailed(e)) => (
                AppleSnapshot::Over,
                AppleStep::Done(Err(HyperboxError::Io(e))),
            ),
            (_, AppleReply::Failed(e)) => (AppleSnapshot::Over, AppleStep::Done(Err(e))),
            (state, _) => (state, AppleStep::Stray),
        }
    }
}

/// The making of a sandbox from a snapshot.
#[derive(Debug)]
pub enum AppleRestore {
    Looking(SnapshotId, String, SandboxConfig),
    Creating(SnapshotId, String),
    MakingParents(SandboxLease, ArchivePlace, String),
    Copying(SandboxLease, ArchivePlace),
    Loading(SandboxLease, ArchivePlace),
    Placing(SandboxLease, ArchivePlace),
    Unpacking(SandboxLease, ArchivePlace),
    CleaningUp(SandboxLease),
    GivingUp(HyperboxError),
    Over,
}

impl AppleRestore {
    pub fn begin(snapshot_id: SnapshotId, artifact_path: String, config: SandboxConfig) -> (r: (
        Self,
        AppleStep<SandboxLease>,
    ))
        ensures
            r.0 matches AppleRestore::Looking(s, p, c) && s == snapshot_id && p == artifact_path
                && c == config,
            r.1 matches AppleStep::Ask(AppleEffect::Exists(p)) && p@ == artifact_path@,
    {
        let asked = artifact_path.clone();
        (
            AppleRestore::Looking(snapshot_id, artifact_path, config),
            AppleStep::Ask(AppleEffect::Exists(asked)),
        )
    }

    /// The archive is unpacked in the sandbox.
    pub open spec fn unpacks(
        lease: SandboxLease,
        place: ArchivePlace,
        next: Self,
        step: AppleStep<SandboxLease>,
    ) -> bool {
        next == AppleRestore::Unpacking(lease, place) && asks_shell(
            step,
            lease.id,
            unpack_script(place.inside()),
            1800,
        )
    }

    /// The sandbox goes again, and the operation fails.
    pub open spec fn gives_up(
        lease: SandboxLease,
        next: Self,
        step: AppleStep<SandboxLease>,
        e: HyperboxError,
    ) -> bool {
        next == AppleRestore::GivingUp(e) && step == AppleStep::<SandboxLease>::Ask(
            AppleEffect::Destroy(lease.id),
        )
    }

    /// What a reply leads to. Once the archive stands in the sandbox, a failure takes the
    /// sandbox away again; the archive is removed after it was unpacked, and whether that
    /// succeeds does not matter.
    pub open spec fn follows(
        self,
        reply: AppleReply,
        backend: AppleVzBackend,
        next: Self,
        step: AppleStep<SandboxLease>,
    ) -> bool {
        match (self, reply) {
            (AppleRestore::Over, _) => next is Over && step is Stray,
            (AppleRestore::Looking(id, path, config), AppleReply::Exists(there)) => if there {
                next == AppleRestore::Creating(id, path) && step == AppleStep::<SandboxLease>::Ask(
                    AppleEffect::Create(config),
                )
            } else {
                next is Over && ends_in(
                    step,
                    "snapshot artifact missing for "@ + hyphenated(id.0) + " at "@ + path@,
                )
            },
            (AppleRestore::Creating(id, path), AppleReply::Lease(lease)) => {
                let place = ArchivePlace {
                    sandbox_id: lease.id,
                    snapshot_id: id,
                    artifact_path: path,
                };
                if !backend.sandboxes@.contains_key(lease.id.0) {
                    next is Over && ends_unfound(step, lease.id)
                } else if let Some(direct) = backend.sandboxes@[lease.id.0].direct_container {
                    (next matches AppleRestore::MakingParents(l, p, host) && l == lease && p == place
                        && host@ == place.on_host(direct)) && asks_parents(
                        step,
                        place.on_host(direct),
                    )
                } else {
                    next == AppleRestore::Loading(lease, place) && (step
                        matches AppleStep::Ask(AppleEffect::ReadHost(p)) && p@ == path@)
                }
            },
            (AppleRestore::MakingParents(lease, place, host), AppleReply::Unit) => next
                == AppleRestore::Copying(lease, place) && asks_copy(
                step,
                place.artifact_path@,
                host@,
            ),
            (AppleRestore::Copying(lease, place), AppleReply::Unit) => Self::unpacks(
                lease,
                place,
                next,
                step,
            ),
            (AppleRestore::Loading(lease, place), AppleReply::Bytes(bytes)) => next
                == AppleRestore::Placing(lease, place) && (step matches AppleStep::Ask(
                AppleEffect::WriteFile(id, payload),
            ) && id == lease.id && payload.path@ == archive_path(place.snapshot_id)
                && payload.bytes == bytes),
            (AppleRestore::Placing(lease, place), AppleReply::Unit) => Self::unpacks(
                lease,
                place,
                next,
                step,
            ),
            (AppleRestore::Placing(lease, _), AppleReply::Failed(e)) => Self::gives_up(
                lease,
                next,
                step,
                e,
            ),
            (AppleRestore::Placing(lease, _), AppleReply::IoFailed(e)) => Self::gives_up(
                lease,
                next,
                step,
                HyperboxError::Io(e),
            ),
            (AppleRestore::Unpacking(lease, place), AppleReply::Outcome(o)) => if o.exit_code
                != 0 {
                &&& next matches AppleRestore::GivingUp(HyperboxError::ExecutionFailed(s))
                &&& s@ == "snapshot restore failed: "@ + shortened(o.stderr@)
                &&& step == AppleStep::<SandboxLease>::Ask(AppleEffect::Destroy(lease.id))
            } else {
                next == AppleRestore::CleaningUp(lease) && if backend.sandboxes@.contains_key(
                    lease.id.0,
                ) && backend.sandboxes@[lease.id.0].direct_container is Some {
                    asks_removal(
                        step,
                        place.on_host(backend.sandboxes@[lease.id.0].direct_container->Some_0),
                    )
                } else {
                    asks_shell(step, lease.id, removal_script(place.inside()), 30)
                }
            },
            (AppleRestore::Unpacking(lease, _), AppleReply::Failed(e)) => Self::gives_up(
                lease,
                next,
                step,
                e,
            ),
            (AppleRestore::Unpacking(lease, _), AppleReply::IoFailed(e)) => Self::gives_up(
                lease,
                next,
                step,
                HyperboxError::Io(e),
            ),
            (AppleRestore::CleaningUp(lease), AppleReply::Unit)
            | (AppleRestore::CleaningUp(lease), AppleReply::Outcome(_))
            | (AppleRestore::CleaningUp(lease), AppleReply::IoFailed(_))
            | (AppleRestore::CleaningUp(lease), AppleReply::Failed(_)) => next is Over && step
                == AppleStep::<SandboxLease>::Done(Ok(lease)),
            (AppleRestore::GivingUp(e), AppleReply::Unit)
            | (AppleRestore::GivingUp(e), AppleReply::IoFailed(_))
            | (AppleRestore::GivingUp(e), AppleReply::Failed(_)) => next is Over && step
                == AppleStep::<SandboxLease>::Done(Err(e)),
            (_, AppleReply::IoFailed(e)) => next is Over && ends_in_io(step, e@),
            (_, AppleReply::Failed(e)) => next is Over && step == AppleStep::<SandboxLease>::Done(
                Err(e),
            ),
            _ => next == self && step is Stray,
        }
    }

    fn unpack(lease: SandboxLease, place: ArchivePlace) -> (r: (Self, AppleStep<SandboxLease>))
        ensures
            Self::unpacks(lease, place, r.0, r.1),
    {
        let script = snapshot_restore_command(place.inside_text().as_str());
        let id = lease.id;
        (
            AppleRestore::Unpacking(lease, place),
            AppleStep::Ask(AppleEffect::Exec(id, ExecRequest::shell(script, 1800))),
        )
    }

    fn give_up(lease: SandboxLease, e: HyperboxError) -> (r: (Self, AppleStep<SandboxLease>))
        ensures
            Self::gives_up(lease, r.0, r.1, e),
    {
        (AppleRestore::GivingUp(e), AppleStep::Ask(AppleEffect::Destroy(lease.id)))
    }

    pub fn resume(self, reply: AppleReply, backend: &AppleVzBackend) -> (r: (
        Self,
        AppleStep<SandboxLease>,
    ))
        ensures
            self.follows(reply, *backend, r.0, r.1),
    {
        match (self, reply) {
            (AppleRestore::Over, _) => (AppleRestore::Over, AppleStep::Stray),
            (AppleRestore::Looking(id, path, config), AppleReply::Exists(there)) => {
                if there {
                    (
                        AppleRestore::Creating(id, path),
                        AppleStep::Ask(AppleEffect::Create(config)),
                    )
                } else {
                    let text = cat4(
                        "snapshot artifact missing for ",
                        id.text().as_str(),
                        " at ",
                        path.as_str(),
                    );
                    (AppleRestore::Over, AppleStep::Done(Err(HyperboxError::ExecutionFailed(text))))
                }
            },
            (AppleRestore::Creating(id, path), AppleReply::Lease(lease)) => {
                match backend.direct_of(lease.id) {
                    Err(e) => (AppleRestore::Over, AppleStep::Done(Err(e))),
                    Ok(Some(direct)) => {
                        let place = ArchivePlace {
                            sandbox_id: lease.id,
                            snapshot_id: id,
                            artifact_path: path,
                        };
                        let host = place.on_host_text(&direct);
                        let asked = host.clone();
                        (
                            AppleRestore::MakingParents(lease, place, host),
                            AppleStep::Ask(AppleEffect::MakeParents(asked)),
                        )
                    },
                    Ok(None) => {
                        let asked = path.clone();
                        let place = ArchivePlace {
                            sandbox_id: lease.id,
                            snapshot_id: id,
                            artifact_path: path,
                        };
                        (
                            AppleRestore::Loading(lease, place),
                            AppleStep::Ask(AppleEffect::ReadHost(asked)),
                        )
                    },
                }
            },
            (AppleRestore::MakingParents(lease, place, host), AppleReply::Unit) => {
                let from = place.artifact_path.clone();
                (
                    AppleRestore::Copying(lease, place),
                    AppleStep::Ask(AppleEffect::Copy(from, host)),
                )
            },
            (AppleRestore::Copying(lease, place), AppleReply::Unit) => Self::unpack(lease, place),
            (AppleRestore::Loading(lease, place), AppleReply::Bytes(bytes)) => {
                let path = snapshot_archive_relpath(&place.snapshot_id);
                let id = lease.id;
                (
                    AppleRestore::Placing(lease, place),
                    AppleStep::Ask(AppleEffect::WriteFile(id, FilePayload { path, bytes })),
                )
            },
            (AppleRestore::Placing(lease, place), AppleReply::Unit) => Self::unpack(lease, place),
            (AppleRestore::Placing(lease, _), AppleReply::Failed(e)) => Self::give_up(lease, e),
            (AppleRestore::Placing(lease, _), AppleReply::IoFailed(e)) => Self::give_up(
                lease,
                HyperboxError::Io(e),
            ),
            (AppleRestore::Unpacking(lease, place), AppleReply::Outcome(o)) => {
                if o.exit_code != 0 {
                    let detail = truncate_error_output(o.stderr.as_str());
                    let text = cat2("snapshot restore failed: ", detail.as_str());
                    return Self::give_up(lease, HyperboxError::ExecutionFailed(text));
                }
                let id = lease.id;
                match backend.direct_of(id) {
                    Ok(Some(direct)) => {
                        let path = place.on_host_text(&direct);
                        (
                            AppleRestore::CleaningUp(lease),
                            AppleStep::Ask(AppleEffect::RemoveFile(path)),
                        )
                    },
                    _ => {
                        let script = cat2("rm -f ", place.inside_text().as_str());
                        (
                            AppleRestore::CleaningUp(lease),
                            AppleStep::Ask(AppleEffect::Exec(id, ExecRequest::shell(script, 30))),
                        )
                    },
                }
            },
            (AppleRestore::Unpacking(lease, _), AppleReply::Failed(e)) => Self::give_up(lease, e),
            (AppleRestore::Unpacking(lease, _), AppleReply::IoFailed(e)) => Self::give_up(
                lease,
                HyperboxError::Io(e),
            ),
            (AppleRestore::CleaningUp(lease), AppleReply::Unit) => (
                AppleRestore::Over,
                AppleStep::Done(Ok(lease)),
            ),
            (AppleRestore::CleaningUp(lease), AppleReply::Outcome(_)) => (
                AppleRestore::Over,
                AppleStep::Done(Ok(lease)),
            ),
            (AppleRestore::CleaningUp(lease), AppleReply::IoFailed(_)) => (
                AppleRestore::Over,
                AppleStep::Done(Ok(lease)),
            ),
            (AppleRestore::CleaningUp(lease), AppleReply::Failed(_)) => (
                AppleRestore::Over,
                AppleStep::Done(Ok(lease)),
            ),
            (AppleRestore::GivingUp(e), AppleReply::Unit) => (
                AppleRestore::Over,
                AppleStep::Done(Err(e)),
            ),
            (AppleRestore::GivingUp(e), AppleReply::IoFailed(_)) => (
                AppleRestore::Over,
                AppleStep::Done(Err(e)),
            ),
            (AppleRestore::GivingUp(e), AppleReply::Failed(_)) => (
                AppleRestore::Over,
                AppleStep::Done(Err(e)),
            ),
            (_, AppleReply::IoFailed(e)) => (
                AppleRestore::Over,
                AppleStep::Done(Err(HyperboxError::Io(e))),
            ),
            (_, AppleReply::Failed(e)) => (AppleRestore::Over, AppleStep::Done(Err(e))),
            (state, _) => (state, AppleStep::Stray),
        }
    }
}

/// A sandbox whose archive could not be put in place or unpacked is taken away again before
/// the failure is reported, and whether that succeeds does not matter.
pub proof fn failed_restores_leave_no_sandbox(
    lease: SandboxLease,
    place: ArchivePlace,
    e: HyperboxError,
    reply: AppleReply,
    backend: AppleVzBackend,
    second: AppleRestore,
    asked: AppleStep<SandboxLease>,
    answer: AppleReply,
    last: AppleRestore,
    told: AppleStep<SandboxLease>,
)
    requires
        reply == AppleReply::Failed(e) || (reply matches AppleReply::IoFailed(t) && e
            == HyperboxError::Io(t)),
        AppleRestore::Placing(lease, place).follows(reply, backend, second, asked)
            || AppleRestore::Unpacking(lease, place).follows(reply, backend, second, asked),
        answer is Unit || answer is Failed || answer is IoFailed,
        second.follows(answer, backend, last, told),
    ensures
        asked == AppleStep::<SandboxLease>::Ask(AppleEffect::Destroy(lease.id)),
        told == AppleStep::<SandboxLease>::Done(Err(e)),
{
}

/// A sandbox is handed out only after the archive was unpacked in it without a complaint.
pub proof fn restored_sandboxes_were_unpacked(
    state: AppleRestore,
    reply: AppleReply,
    backend: AppleVzBackend,
    next: AppleRestore,
    step: AppleStep<SandboxLease>,
)
    requires
        state.follows(reply, backend, next, step),
        next is CleaningUp || step matches AppleStep::Done(Ok(_)),
    ensures
        next is CleaningUp && !(state is CleaningUp) ==> (state is Unpacking && (reply
            matches AppleReply::Outcome(o) && o.exit_code == 0)),
        step matches AppleStep::Done(Ok(_)) ==> state is CleaningUp,
{
}

} // verus!
