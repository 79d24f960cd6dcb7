//! What the operations of the server ask of their surroundings, and what they hear back.
//!
//! An operation is a value that says what it waits for. It is begun, then resumed with the
//! reply to each thing that it asked for, until it is done. Whoever runs it carries out the
//! effects: calls of the backend, calls of the store, pauses, and other operations.

use crate::config::SandboxConfig;
use crate::error::HyperboxError;
use crate::model::{ExecOutcome, ExecRequest, FilePayload, SandboxId, SandboxInfo, SandboxLease};
use crate::process::{ProcessDisposition, ProcessId, ProcessInfo};
use crate::snapshot::{ActiveSandboxRecord, AffinityRecord, SnapshotId, SnapshotMetadata};
use crate::time::Timestamp;
use vstd::prelude::*;

verus! {

/// A managed process that is to be started.
#[derive(Debug)]
pub struct ProcessStart {
    pub sandbox_id: SandboxId,
    pub command: Vec<String>,
    pub requested_sandbox_id: Option<SandboxId>,
    pub disposition: ProcessDisposition,
    pub destroy_sandbox_on_expiry: bool,
}

/// The sandbox that a run will take place in.
#[derive(Debug)]
pub struct PreparedRunSandbox {
    pub info: SandboxInfo,
    pub requested_sandbox_id: Option<SandboxId>,
    pub disposition: ProcessDisposition,
}

/// Something that an operation asks for.
#[derive(Debug)]
pub enum Effect {
    // Other operations of the server.
    EnsureHydrated,
    CleanupExpired,
    FindActiveProcess(SandboxId),
    Refresh(ProcessInfo),
    Purge(ProcessInfo),
    GetProcess(ProcessId),
    CancelProcess(ProcessId),
    ReadLogSize(SandboxId, String),
    CreateSandbox(SandboxConfig),
    RestoreSnapshot(SnapshotId),
    ResolveAffinity(String, bool),
    PrepareRun(SandboxId, Option<SandboxConfig>),
    RunEnsure(SandboxId, Vec<String>, u64),
    StartProcess(ProcessStart),
    // The backend.
    ValidateConfig(SandboxConfig),
    BackendCreate(SandboxConfig),
    Exec(SandboxId, ExecRequest),
    WriteFile(SandboxId, FilePayload),
    BackendDestroy(SandboxId),
    Inspect(SandboxId),
    SaveArtifact(SandboxId, SnapshotId),
    RestoreArtifact(SnapshotId, SandboxConfig),
    // The store.
    StoreCreateSnapshot(SandboxId, SandboxConfig, Option<String>),
    StoreGetSnapshot(SnapshotId),
    StoreBind(String, SandboxId),
    StoreClearBinding(SandboxId),
    StoreSetAffinitySnapshot(String, SnapshotId),
    StoreGetAffinity(String),
    StoreUpsertActive(SandboxId, SandboxConfig, Timestamp),
    StoreRemoveActive(SandboxId),
    StoreListActive,
    StoreUpsertProcess(ProcessInfo),
    StoreGetProcess(ProcessId),
    StoreListProcesses,
    StoreRemoveProcess(ProcessId),
    // The file of a snapshot.
    FindArtifact(SnapshotId),
    // A pause, in milliseconds.
    Pause(u64),
}

/// What came of an effect.
#[derive(Debug)]
pub enum Reply {
    Failed(HyperboxError),
    Unit,
    Info(SandboxInfo),
    Lease(SandboxLease),
    Outcome(ExecOutcome),
    Process(ProcessInfo),
    NoProcess,
    Processes(Vec<ProcessInfo>),
    Size(u64),
    Prepared(PreparedRunSandbox),
    Resolved(SandboxInfo, bool),
    Affinity(AffinityRecord),
    NoAffinity,
    Snapshot(SnapshotMetadata),
    NoSnapshot,
    Records(Vec<ActiveSandboxRecord>),
    Artifact(String, bool),
}

/// What an operation wants next.
#[derive(Debug)]
pub enum Step<T> {
    /// Carry this out and resume the operation with what came of it.
    Ask(Effect),
    /// The operation is over.
    Done(Result<T, HyperboxError>),
    /// The reply does not answer what was asked. The operation waits as before.
    Stray,
}

/// The operation asks for exactly this.
pub open spec fn asks<T>(step: Step<T>, effect: Effect) -> bool {
    step == Step::<T>::Ask(effect)
}

/// The operation ends with exactly this error.
pub open spec fn fails<T>(step: Step<T>, e: HyperboxError) -> bool {
    step == Step::<T>::Done(Err(e))
}

/// The operation asks for a command in a sandbox.
pub open spec fn asks_exec<T>(
    step: Step<T>,
    sandbox_id: SandboxId,
    request: crate::model::ExecModel,
) -> bool {
    step matches Step::Ask(Effect::Exec(id, r)) && id == sandbox_id && r@ == request
}

/// The operation asks that a process be recorded.
pub open spec fn asks_record<T>(step: Step<T>, process: crate::process::ProcessModel) -> bool {
    step matches Step::Ask(Effect::StoreUpsertProcess(p)) && p@ == process
}

/// The operation ends with this process.
pub open spec fn ends_with_process(
    step: Step<ProcessInfo>,
    process: crate::process::ProcessModel,
) -> bool {
    step matches Step::Done(Ok(p)) && p@ == process
}

/// The operation ends with an execution error of this text.
pub open spec fn fails_with<T>(step: Step<T>, detail: Seq<char>) -> bool {
    step matches Step::Done(Err(HyperboxError::ExecutionFailed(s))) && s@ == detail
}

/// Something that an operation asked for, what it heard back, and its surroundings then.
pub struct Exchange<W> {
    pub effect: Effect,
    pub reply: Reply,
    pub world: W,
}

/// An operation, as far as what replies lead to goes.
pub trait Operation: Sized {
    /// What the operation comes to.
    type Output;

    /// What an operation sees beside the replies.
    type World;

    spec fn moves(
        self,
        reply: Reply,
        world: Self::World,
        next: Self,
        step: Step<Self::Output>,
    ) -> bool;
}

/// An operation that is at a step goes through exchanges, each the answer to what it asked for
/// last, to its end.
pub open spec fn comes_to<O: Operation>(
    op: O,
    step: Step<O::Output>,
    exchanges: Seq<Exchange<O::World>>,
    end: Result<O::Output, HyperboxError>,
) -> bool
    decreases exchanges.len(),
{
    if exchanges.len() == 0 {
        step == Step::Done(end)
    } else {
        let x = exchanges[0];
        &&& step == Step::<O::Output>::Ask(x.effect)
        &&& exists|next: O, s: Step<O::Output>| #[trigger]
            op.moves(x.reply, x.world, next, s) && comes_to(next, s, exchanges.drop_first(), end)
    }
}

/// The first exchange of an operation on its way to its end, and what it leads to.
pub proof fn goes_through<O: Operation>(
    op: O,
    step: Step<O::Output>,
    exchanges: Seq<Exchange<O::World>>,
    end: Result<O::Output, HyperboxError>,
) -> (r: (O, Step<O::Output>))
    requires
        comes_to(op, step, exchanges, end),
        step is Ask,
    ensures
        exchanges.len() > 0,
        step == Step::<O::Output>::Ask(exchanges[0].effect),
        op.moves(exchanges[0].reply, exchanges[0].world, r.0, r.1),
        comes_to(r.0, r.1, exchanges.drop_first(), end),
{
    let x = exchanges[0];
    choose|next: O, s: Step<O::Output>| #[trigger]
        op.moves(x.reply, x.world, next, s) && comes_to(next, s, exchanges.drop_first(), end)
}

} // verus!
