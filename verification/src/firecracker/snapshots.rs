//! Snapshots of the sandboxes of the Firecracker backend: archives of their directories.

use crate::config::SandboxConfig;
use crate::error::HyperboxError;
use crate::firecracker::backend::{
    fc_ends, fc_io, fc_makes, fc_unfound, FcEffect, FcReply, FcStep, FirecrackerBackend,
};
use crate::ids::hyphenated;
use crate::model::{SandboxId, SandboxLease};
use crate::snapshot::SnapshotId;
use crate::text::{cat2, cat4};
use vstd::prelude::*;

verus! {

/// The making of a snapshot.
#[derive(Debug)]
pub enum FcSnapshot {
    Canonicalizing(String, String),
    MakingParents(String, String),
    Looking(String, String),
    Removing(String, String),
    Archiving,
    Over,
}

impl FcSnapshot {
    pub fn begin(backend: &FirecrackerBackend, id: SandboxId, artifact_path: String) -> (r: (
        Self,
        FcStep<()>,
    ))
        ensures
            !backend.sandboxes@.contains_key(id.0) ==> r.0 is Over && fc_unfound(r.1, id),
            backend.sandboxes@.contains_key(id.0) ==> {
                let path = backend.sandboxes@[id.0].agent_workspace.path;
                &&& r.0 matches FcSnapshot::Canonicalizing(p, a)
                &&& p == path
                &&& a == artifact_path
                &&& r.1 matches FcStep::Ask(FcEffect::Canonicalize(asked))
                &&& asked@ == path@
            },
    {
        match backend.sandboxes.get(&id.0) {
            None => (
                FcSnapshot::Over,
                FcStep::Done(Err(HyperboxError::SandboxNotFound(id.text()))),
            ),
            Some(sandbox) => {
                let path = sandbox.agent_workspace.path.clone();
                let asked = sandbox.agent_workspace.path.clone();
                (
                    FcSnapshot::Canonicalizing(path, artifact_path),
                    FcStep::Ask(FcEffect::Canonicalize(asked)),
                )
            },
        }
    }

    /// What a reply leads to.
    pub open spec fn follows(self, reply: FcReply, next: Self, step: FcStep<()>) -> bool {
        match (self, reply) {
            (FcSnapshot::Over, _) => next is Over && step is Stray,
            (FcSnapshot::Canonicalizing(_, artifact), FcReply::Canonical(source, is_dir)) => if is_dir {
                next == FcSnapshot::MakingParents(source, artifact) && (step
                    matches FcStep::Ask(FcEffect::MakeParents(p)) && p@ == artifact@)
            } else {
                next is Over && fc_ends(
                    step,
                    "snapshot source is not a directory: "@ + source@,
                )
            },
            (FcSnapshot::Canonicalizing(path, _), FcReply::Refused(e)) => next is Over && fc_ends(
                step,
                "snapshot source does not exist `"@ + path@ + "`: "@ + e@,
            ),
            (FcSnapshot::MakingParents(source, artifact), FcReply::Unit) => next
                == FcSnapshot::Looking(source, artifact) && (step matches FcStep::Ask(
                FcEffect::Exists(p),
            ) && p@ == artifact@),
            (FcSnapshot::Looking(source, artifact), FcReply::Exists(there)) => if there {
                next == FcSnapshot::Removing(source, artifact) && (step matches FcStep::Ask(
                    FcEffect::RemoveFile(p),
                ) && p@ == artifact@)
            } else {
                next is Archiving && step == FcStep::<()>::Ask(FcEffect::Archive(source, artifact))
            },
            (FcSnapshot::Removing(source, artifact), FcReply::Unit) => next is Archiving && step
                == FcStep::<()>::Ask(FcEffect::Archive(source, artifact)),
            (FcSnapshot::Archiving, FcReply::Unit) => next is Over && step == FcStep::<()>::Done(
                Ok(()),
            ),
            (_, FcReply::IoFailed(e)) => next is Over && fc_io(step, e@),
            (_, FcReply::Failed(e)) => next is Over && step == FcStep::<()>::Done(Err(e)),
            _ => next == self && step is Stray,
        }
    }

    fn fail(text: String) -> (r: (Self, FcStep<()>))
        ensures
            r.0 is Over,
            fc_ends(r.1, text@),
    {
        (FcSnapshot::Over, FcStep::Done(Err(HyperboxError::ExecutionFailed(text))))
    }

    pub fn resume(self, reply: FcReply) -> (r: (Self, FcStep<()>))
        ensures
            self.follows(reply, r.0, r.1),
    {
        match (self, reply) {
            (FcSnapshot::Over, _) => (FcSnapshot::Over, FcStep::Stray),
            (FcSnapshot::Canonicalizing(_, artifact), FcReply::Canonical(source, is_dir)) => {
                if is_dir {
                    let asked = artifact.clone();
                    (
                        FcSnapshot::MakingParents(source, artifact),
                        FcStep::Ask(FcEffect::MakeParents(asked)),
                    )
                } else {
                    Self::fail(cat2("snapshot source is not a directory: ", source.as_str()))
                }
            },
            (FcSnapshot::Canonicalizing(path, _), FcReply::Refused(e)) => Self::fail(
                cat4("snapshot source does not exist `", path.as_str(), "`: ", e.as_str()),
            ),
            (FcSnapshot::MakingParents(source, artifact), FcReply::Unit) => {
                let asked = artifact.clone();
                (
                    FcSnapshot::Looking(source, artifact),
                    FcStep::Ask(FcEffect::Exists(asked)),
                )
            },
            (FcSnapshot::Looking(source, artifact), FcReply::Exists(there)) => {
                if there {
                    let asked = artifact.clone();
                    (
                        FcSnapshot::Removing(source, artifact),
                        FcStep::Ask(FcEffect::RemoveFile(asked)),
                    )
                } else {
                    (FcSnapshot::Archiving, FcStep::Ask(FcEffect::Archive(source, artifact)))
                }
            },
            (FcSnapshot::Removing(source, artifact), FcReply::Unit) => (
                FcSnapshot::Archiving,
                FcStep::Ask(FcEffect::Archive(source, artifact)),
            ),
            (FcSnapshot::Archiving, FcReply::Unit) => (FcSnapshot::Over, FcStep::Done(Ok(()))),
            (_, FcReply::IoFailed(e)) => (
                FcSnapshot::Over,
                FcStep::Done(Err(HyperboxError::Io(e))),
            ),
            (_, FcReply::Failed(e)) => (FcSnapshot::Over, FcStep::Done(Err(e))),
            (state, _) => (state, FcStep::Stray),
        }
    }
}

/// The making of a sandbox from a snapshot.
#[derive(Debug)]
pub enum FcRestore {
    Looking(SnapshotId, String, SandboxConfig),
    Creating(SnapshotId, String),
    LookingAtPlace(SnapshotId, String, SandboxLease, String),
    Clearing(SnapshotId, String, SandboxLease, String),
    Making(SnapshotId, String, SandboxLease, String),
    Unpacking(SnapshotId, SandboxLease),
    GivingUp(HyperboxError),
    Over,
}

impl FcRestore {
    pub fn begin(snapshot_id: SnapshotId, artifact_path: String, config: SandboxConfig) -> (r: (
        Self,
        FcStep<SandboxLease>,
    ))
        ensures
            r.0 matches FcRestore::Looking(s, p, c) && s == snapshot_id && p == artifact_path && c
                == config,
            r.1 matches FcStep::Ask(FcEffect::Exists(p)) && p@ == artifact_path@,
    {
        let asked = artifact_path.clone();
        (
            FcRestore::Looking(snapshot_id, artifact_path, config),
            FcStep::Ask(FcEffect::Exists(asked)),
        )
    }

    /// The new sandbox goes again, and the operation fails.
    pub open spec fn gives_up(
        id: SnapshotId,
        lease: SandboxLease,
        cause: Seq<char>,
        next: Self,
        step: FcStep<SandboxLease>,
    ) -> bool {
        &&& next matches FcRestore::GivingUp(HyperboxError::ExecutionFailed(s))
        &&& s@ == "firecracker snapshot restore failed for "@ + hyphenated(id.0) + ": "@ + cause
        &&& step == FcStep::<SandboxLease>::Ask(FcEffect::Destroy(lease.id))
    }

    fn give_up(id: SnapshotId, lease: SandboxLease, cause: HyperboxError) -> (r: (
        Self,
        FcStep<SandboxLease>,
    ))
        ensures
            Self::gives_up(id, lease, cause.text(), r.0, r.1),
    {
        let text = cat4(
            "firecracker snapshot restore failed for ",
            id.text().as_str(),
            ": ",
            cause.message().as_str(),
        );
        (
            FcRestore::GivingUp(HyperboxError::ExecutionFailed(text)),
            FcStep::Ask(FcEffect::Destroy(lease.id)),
        )
    }

    /// What a reply leads to. A sandbox whose directory is shared is not filled, and neither
    /// such a sandbox nor one in which the archive could not be unpacked stays.
    pub open spec fn follows(
        self,
        reply: FcReply,
        backend: FirecrackerBackend,
        next: Self,
        step: FcStep<SandboxLease>,
    ) -> bool {
        match (self, reply) {
            (FcRestore::Over, _) => next is Over && step is Stray,
            (FcRestore::Looking(id, path, config), FcReply::Exists(there)) => if there {
                next == FcRestore::Creating(id, path) && step == FcStep::<SandboxLease>::Ask(
                    FcEffect::Create(config),
                )
            } else {
                next is Over && fc_ends(
                    step,
                    "snapshot artifact missing for "@ + hyphenated(id.0) + " at "@ + path@,
                )
            },
            (FcRestore::Creating(id, path), FcReply::Lease(lease)) => if !backend.sandboxes@.contains_key(
                lease.id.0,
            ) {
                next is Over && fc_unfound(step, lease.id)
            } else {
                let binding = backend.sandboxes@[lease.id.0].agent_workspace;
                if binding.linked_workspace {
                    &&& next matches FcRestore::GivingUp(HyperboxError::ExecutionFailed(s))
                    &&& s@
                        == "firecracker snapshot restore into shared workspace_dir is not supported"@
                    &&& step == FcStep::<SandboxLease>::Ask(FcEffect::Destroy(lease.id))
                } else {
                    next == FcRestore::LookingAtPlace(id, path, lease, binding.path) && (step
                        matches FcStep::Ask(FcEffect::Exists(p)) && p@ == binding.path@)
                }
            },
            (FcRestore::LookingAtPlace(id, path, lease, place), FcReply::Exists(there)) => if there {
                next == FcRestore::Clearing(id, path, lease, place) && (step
                    matches FcStep::Ask(FcEffect::RemoveDirAll(p)) && p@ == place@)
            } else {
                next == FcRestore::Making(id, path, lease, place) && fc_makes(step, place@)
            },
            (FcRestore::Clearing(id, path, lease, place), FcReply::Unit) => next
                == FcRestore::Making(id, path, lease, place) && fc_makes(step, place@),
            (FcRestore::Making(id, path, lease, place), FcReply::Unit) => next
                == FcRestore::Unpacking(id, lease) && step == FcStep::<SandboxLease>::Ask(
                FcEffect::Unpack(path, place),
            ),
            (FcRestore::Unpacking(_, lease), FcReply::Unit) => next is Over && step == FcStep::<
                SandboxLease,
            >::Done(Ok(lease)),
            (FcRestore::Unpacking(id, lease), FcReply::Failed(e)) => Self::gives_up(
                id,
                lease,
                e.text(),
                next,
                step,
            ),
            (FcRestore::Unpacking(id, lease), FcReply::IoFailed(e)) => Self::gives_up(
                id,
                lease,
                HyperboxError::Io(e).text(),
                next,
                step,
            ),
            (FcRestore::GivingUp(e), FcReply::Unit)
            | (FcRestore::GivingUp(e), FcReply::IoFailed(_))
            | (FcRestore::GivingUp(e), FcReply::Failed(_)) => next is Over && step == FcStep::<
                SandboxLease,
            >::Done(Err(e)),
            (_, FcReply::IoFailed(e)) => next is Over && fc_io(step, e@),
            (_, FcReply::Failed(e)) => next is Over && step == FcStep::<SandboxLease>::Done(Err(e)),
            _ => next == self && step is Stray,
        }
    }

    pub fn resume(self, reply: FcReply, backend: &FirecrackerBackend) -> (r: (
        Self,
        FcStep<SandboxLease>,
    ))
        ensures
            self.follows(reply, *backend, r.0, r.1),
    {
        match (self, reply) {
            (FcRestore::Over, _) => (FcRestore::Over, FcStep::Stray),
            (FcRestore::Looking(id, path, config), FcReply::Exists(there)) => {
                if there {
                    (FcRestore::Creating(id, path), FcStep::Ask(FcEffect::Create(config)))
                } else {
                    let text = cat4(
                        "snapshot artifact missing for ",
                        id.text().as_str(),
                        " at ",
                        path.as_str(),
                    );
                    (FcRestore::Over, FcStep::Done(Err(HyperboxError::ExecutionFailed(text))))
                }
            },
            (FcRestore::Creating(id, path), FcReply::Lease(lease)) => {
                match backend.sandboxes.get(&lease.id.0) {
                    None => (
                        FcRestore::Over,
                        FcStep::Done(Err(HyperboxError::SandboxNotFound(lease.id.text()))),
                    ),
                    Some(sandbox) => {
                        if sandbox.agent_workspace.linked_workspace {
                            let text =
                                "firecracker snapshot restore into shared workspace_dir is not supported".to_owned();
                            return (
                                FcRestore::GivingUp(HyperboxError::ExecutionFailed(text)),
                                FcStep::Ask(FcEffect::Destroy(lease.id)),
                            );
                        }
                        let place = sandbox.agent_workspace.path.clone();
                        let asked = sandbox.agent_workspace.path.clone();
                        (
                            FcRestore::LookingAtPlace(id, path, lease, place),
                            FcStep::Ask(FcEffect::Exists(asked)),
                        )
                    },
                }
            },
            (FcRestore::LookingAtPlace(id, path, lease, place), FcReply::Exists(there)) => {
                let asked = place.clone();
                if there {
                    (
                        FcRestore::Clearing(id, path, lease, place),
                        FcStep::Ask(FcEffect::RemoveDirAll(asked)),
                    )
                } else {
                    (
                        FcRestore::Making(id, path, lease, place),
                        FcStep::Ask(FcEffect::CreateDirAll(asked)),
                    )
                }
            },
            (FcRestore::Clearing(id, path, lease, place), FcReply::Unit) => {
                let asked = place.clone();
                (
                    FcRestore::Making(id, path, lease, place),
                    FcStep::Ask(FcEffect::CreateDirAll(asked)),
                )
            },
            (FcRestore::Making(id, path, lease, place), FcReply::Unit) => (
                FcRestore::Unpacking(id, lease),
                FcStep::Ask(FcEffect::Unpack(path, place)),
            ),
            (FcRestore::Unpacking(_, lease), FcReply::Unit) => (
                FcRestore::Over,
                FcStep::Done(Ok(lease)),
            ),
            (FcRestore::Unpacking(id, lease), FcReply::Failed(e)) => Self::give_up(id, lease, e),
            (FcRestore::Unpacking(id, lease), FcReply::IoFailed(e)) => Self::give_up(
                id,
                lease,
                HyperboxError::Io(e),
            ),
            (FcRestore::GivingUp(e), FcReply::Unit) => (FcRestore::Over, FcStep::Done(Err(e))),
            (FcRestore::GivingUp(e), FcReply::IoFailed(_)) => (
                FcRestore::Over,
                FcStep::Done(Err(e)),
            ),
            (FcRestore::GivingUp(e), FcReply::Failed(_)) => (
                FcRestore::Over,
                FcStep::Done(Err(e)),
            ),
            (_, FcReply::IoFailed(e)) => (
                FcRestore::Over,
                FcStep::Done(Err(HyperboxError::Io(e))),
            ),
            (_, FcReply::Failed(e)) => (FcRestore::Over, FcStep::Done(Err(e))),
            (state, _) => (state, FcStep::Stray),
        }
    }
}

/// A sandbox in which the archive could not be unpacked is taken away again before the failure
/// is reported, and whether that succeeds does not matter.
pub proof fn failed_unpacking_leaves_no_sandbox(
    id: SnapshotId,
    lease: SandboxLease,
    reply: FcReply,
    backend: FirecrackerBackend,
    second: FcRestore,
    asked: FcStep<SandboxLease>,
    answer: FcReply,
    last: FcRestore,
    told: FcStep<SandboxLease>,
)
    requires
        reply is Failed || reply is IoFailed,
        FcRestore::Unpacking(id, lease).follows(reply, backend, second, asked),
        answer is Unit || answer is Failed || answer is IoFailed,
        second.follows(answer, backend, last, told),
    ensures
        asked == FcStep::<SandboxLease>::Ask(FcEffect::Destroy(lease.id)),
        fc_ends(
            told,
            "firecracker snapshot restore failed for "@ + hyphenated(id.0) + ": "@ + match reply {
                FcReply::Failed(e) => e.text(),
                FcReply::IoFailed(e) => HyperboxError::Io(e).text(),
                _ => Seq::<char>::empty(),
            },
        ),
{
}

/// A directory that a sandbox shares with the host is never cleared for a snapshot.
pub proof fn shared_directories_are_not_cleared(
    state: FcRestore,
    reply: FcReply,
    backend: FirecrackerBackend,
    next: FcRestore,
    step: FcStep<SandboxLease>,
)
    requires
        state.follows(reply, backend, next, step),
        next is LookingAtPlace,
        !(state is LookingAtPlace),
    ensures
        reply matches FcReply::Lease(lease) && backend.sandboxes@.contains_key(lease.id.0)
            && !backend.sandboxes@[lease.id.0].agent_workspace.linked_workspace,
{
}

/// A snapshot is the archive of the directory of the sandbox, put where snapshots are kept in place
/// of what stood there; what is archived in the one is unpacked in the other, in the directory of
/// the sandbox that was made for it, after that was cleared.
pub proof fn directories_are_archived_and_unpacked(
    path: String,
    artifact: String,
    source: String,
    there: bool,
    archiving: FcSnapshot,
    first: FcStep<()>,
    looking: FcSnapshot,
    second: FcStep<()>,
    packing: FcSnapshot,
    third: FcStep<()>,
    id: SnapshotId,
    lease: SandboxLease,
    place: String,
    backend: FirecrackerBackend,
    clearing: FcRestore,
    fourth: FcStep<SandboxLease>,
    unpacking: FcRestore,
    fifth: FcStep<SandboxLease>,
    last: FcRestore,
    told: FcStep<SandboxLease>,
)
    requires
        FcSnapshot::Canonicalizing(path, artifact).follows(
            FcReply::Canonical(source, true),
            archiving,
            first,
        ),
        archiving.follows(FcReply::Unit, looking, second),
        looking.follows(FcReply::Exists(false), packing, third),
        FcRestore::LookingAtPlace(id, artifact, lease, place).follows(
            FcReply::Exists(there),
            backend,
            clearing,
            fourth,
        ),
        FcRestore::Making(id, artifact, lease, place).follows(
            FcReply::Unit,
            backend,
            unpacking,
            fifth,
        ),
        unpacking.follows(FcReply::Unit, backend, last, told),
    ensures
        third matches FcStep::Ask(FcEffect::Archive(from, to)) && from@ == source@ && to@
            == artifact@,
        there ==> (fourth matches FcStep::Ask(FcEffect::RemoveDirAll(p)) && p@ == place@),
        !there ==> (fourth matches FcStep::Ask(FcEffect::CreateDirAll(p)) && p@ == place@),
        fifth matches FcStep::Ask(FcEffect::Unpack(from, to)) && from@ == artifact@ && to@ == place@,
        told == FcStep::Done(Ok::<SandboxLease, HyperboxError>(lease)),
{
}

} // verus!
