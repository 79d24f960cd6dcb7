//! Measurements: how long a sandbox takes from its making to its restoring.

use crate::cli::fault::Fault;
use crate::config::{ConfigModel, SandboxConfig};
use crate::ids::hyphenated;
use crate::model::{SandboxId, SandboxInfo};
use crate::numbers::{decimal, decimal_int, hex_digits, hex_text, i64_text, u64_text};
use crate::snapshot::SnapshotId;
use crate::stats::{figures, summarize_samples, total, total_of_prefix, SampleFigures};
use crate::text::{cat2, cat4};
use vstd::prelude::*;

verus! {

/// How long each stage of a run took, in milliseconds.
#[derive(Debug, Clone, Copy, PartialEq, Eq, Structural)]
pub struct StageTimes {
    pub create_ms: u128,
    pub mutate_ms: u128,
    pub snapshot_create_ms: u128,
    pub destroy_initial_ms: u128,
    pub restore_verify_ms: u128,
    pub destroy_restored_ms: u128,
}

impl StageTimes {
    pub open spec fn sum(self) -> nat {
        self.create_ms as nat + self.mutate_ms as nat + self.snapshot_create_ms as nat
            + self.destroy_initial_ms as nat + self.restore_verify_ms as nat
            + self.destroy_restored_ms as nat
    }

    /// The whole, which can be counted.
    pub fn total_ms(&self) -> (r: u128)
        requires
            self.sum() <= u128::MAX,
        ensures
            r == self.sum(),
    {
        self.create_ms + self.mutate_ms + self.snapshot_create_ms + self.destroy_initial_ms
            + self.restore_verify_ms + self.destroy_restored_ms
    }

    /// The whole, where it can be counted.
    fn checked_total(&self) -> (r: Option<u128>)
        ensures
            r is Some <==> self.sum() <= u128::MAX,
            r matches Some(n) ==> n == self.sum(),
    {
        let a = match self.create_ms.checked_add(self.mutate_ms) {
            Some(n) => n,
            None => return None,
        };
        let b = match a.checked_add(self.snapshot_create_ms) {
            Some(n) => n,
            None => return None,
        };
        let c = match b.checked_add(self.destroy_initial_ms) {
            Some(n) => n,
            None => return None,
        };
        let d = match c.checked_add(self.restore_verify_ms) {
            Some(n) => n,
            None => return None,
        };
        d.checked_add(self.destroy_restored_ms)
    }
}

/// A run that went through.
#[derive(Debug, Clone, Copy, PartialEq, Eq, Structural)]
pub struct BenchRun {
    pub run: usize,
    pub sandbox_id: SandboxId,
    pub restored_sandbox_id: SandboxId,
    pub snapshot_id: SnapshotId,
    pub times: StageTimes,
}

/// What a run is about.
#[derive(Debug)]
pub struct BenchOrder {
    pub run: usize,
    pub affinity_name: String,
    pub mutate_cmd: String,
    pub verify_cmd: String,
    pub timeout_secs: u64,
    pub keep_snapshot_artifacts: bool,
}

/// What there is to clean up, and how long the stages took so far.
#[derive(Debug, Clone, Copy, PartialEq, Eq, Structural)]
pub struct BenchMarks {
    pub created: Option<SandboxId>,
    pub restored: Option<SandboxId>,
    pub snapshot: Option<SnapshotId>,
    pub times: StageTimes,
}

/// What is asked for during a run.
#[derive(Debug)]
pub enum BenchEffect {
    Create(SandboxConfig),
    RunSync(SandboxId, String, u64),
    CreateSnapshot(SandboxId),
    Destroy(SandboxId),
    /// The sandbox of a name, brought back.
    ResolveAffinity(String),
    /// Remove the file of a snapshot, if it is there.
    RemoveArtifact(SnapshotId),
}

/// What came of it.
#[derive(Debug)]
pub enum BenchReply {
    Sandbox(SandboxInfo),
    Ran(i32, String),
    Snapshot(SnapshotId),
    Unit,
    Failed(Fault),
}

/// What happens next. Where the clock starts again, the time that is given with the reply
/// counts from there.
#[derive(Debug)]
pub enum BenchStep {
    Ask { effect: BenchEffect, restart_clock: bool },
    Done(Result<BenchRun, Fault>),
    Stray,
}

pub open spec fn bench_asks(step: BenchStep, effect: BenchEffect, restart: bool) -> bool {
    step == (BenchStep::Ask { effect, restart_clock: restart })
}

/// A run on its way.
#[derive(Debug)]
pub enum SnapshotBench {
    Creating(BenchOrder),
    Mutating(BenchOrder, SandboxId, BenchMarks),
    Snapshotting(BenchOrder, SandboxId, BenchMarks),
    DestroyingFirst(BenchOrder, SandboxId, SnapshotId, BenchMarks),
    Restoring(BenchOrder, SandboxId, SnapshotId, BenchMarks),
    Verifying(BenchOrder, SandboxId, SnapshotId, SandboxId, BenchMarks),
    DestroyingRestored(BenchOrder, SandboxId, SnapshotId, SandboxId, BenchMarks),
    /// What is left over goes, one after the other; the result is kept.
    CleaningRestored(bool, BenchMarks, Result<BenchRun, Fault>),
    CleaningCreated(bool, BenchMarks, Result<BenchRun, Fault>),
    CleaningArtifact(Result<BenchRun, Fault>),
    Over,
}

/// What a command that failed is reported as.
pub open spec fn bench_complaint(
    what: Seq<char>,
    run: usize,
    id: SandboxId,
    code: i32,
    stderr: Seq<char>,
) -> Seq<char> {
    "snapshot benchmark "@ + what + " command failed (run="@ + decimal(run as nat)
        + " sandbox_id="@ + hyphenated(id.0) + " exit="@ + decimal_int(code as int) + "): "@ + stderr
}

fn complain(what: &str, run: usize, id: SandboxId, code: i32, stderr: &str) -> (r: Fault)
    ensures
        r.says(bench_complaint(what@, run, id, code, stderr@)),
{
    let number = u64_text(run as u64);
    let head = cat4("snapshot benchmark ", what, " command failed (run=", number.as_str());
    let middle = cat4(head.as_str(), " sandbox_id=", id.text().as_str(), " exit=");
    Fault::new(cat4(middle.as_str(), i64_text(code as i64).as_str(), "): ", stderr))
}

impl SnapshotBench {
    pub fn begin(order: BenchOrder, config: SandboxConfig) -> (r: (Self, BenchStep))
        ensures
            r.0 == SnapshotBench::Creating(order),
            r.1 matches BenchStep::Ask { effect: BenchEffect::Create(c), restart_clock }
                && restart_clock && c@ == (ConfigModel {
                affinity_name: Some(order.affinity_name@),
                ..config@
            }),
    {
        let mut config = config;
        config.affinity_name = Some(order.affinity_name.clone());
        (
            SnapshotBench::Creating(order),
            BenchStep::Ask { effect: BenchEffect::Create(config), restart_clock: true },
        )
    }

    /// What is left over goes: first the restored sandbox, then the first one, last the file of
    /// the snapshot unless it is to be kept.
    pub open spec fn cleans(
        keep: bool,
        marks: BenchMarks,
        result: Result<BenchRun, Fault>,
        next: Self,
        step: BenchStep,
    ) -> bool {
        if let Some(id) = marks.restored {
            next == SnapshotBench::CleaningRestored(keep, marks, result) && bench_asks(
                step,
                BenchEffect::Destroy(id),
                false,
            )
        } else {
            Self::cleans_created(keep, marks, result, next, step)
        }
    }

    pub open spec fn cleans_created(
        keep: bool,
        marks: BenchMarks,
        result: Result<BenchRun, Fault>,
        next: Self,
        step: BenchStep,
    ) -> bool {
        if let Some(id) = marks.created {
            next == SnapshotBench::CleaningCreated(keep, marks, result) && bench_asks(
                step,
                BenchEffect::Destroy(id),
                false,
            )
        } else {
            Self::cleans_artifact(keep, marks, result, next, step)
        }
    }

    pub open spec fn cleans_artifact(
        keep: bool,
        marks: BenchMarks,
        result: Result<BenchRun, Fault>,
        next: Self,
        step: BenchStep,
    ) -> bool {
        if marks.snapshot is Some && !keep {
            next == SnapshotBench::CleaningArtifact(result) && bench_asks(
                step,
                BenchEffect::RemoveArtifact(marks.snapshot->Some_0),
                false,
            )
        } else {
            next is Over && step == BenchStep::Done(result)
        }
    }

    /// The run fails, after what is left over went.
    pub open spec fn fails(
        order: BenchOrder,
        marks: BenchMarks,
        text: Seq<char>,
        next: Self,
        step: BenchStep,
    ) -> bool {
        exists|f: Fault| #[trigger]
            f.says(text) && Self::cleans(
                order.keep_snapshot_artifacts,
                marks,
                Err(f),
                next,
                step,
            )
    }

    /// What a reply leads to, given how long the stage has taken.
    pub open spec fn follows(self, reply: BenchReply, elapsed_ms: u128, next: Self, step: BenchStep)
     -> bool {
        match (self, reply) {
            (SnapshotBench::Over, _) => next is Over && step is Stray,
            (SnapshotBench::Creating(order), BenchReply::Sandbox(info)) => {
                let marks = BenchMarks {
                    created: Some(info.id),
                    restored: None,
                    snapshot: None,
                    times: StageTimes {
                        create_ms: elapsed_ms,
                        mutate_ms: 0,
                        snapshot_create_ms: 0,
                        destroy_initial_ms: 0,
                        restore_verify_ms: 0,
                        destroy_restored_ms: 0,
                    },
                };
                next == SnapshotBench::Mutating(order, info.id, marks) && (step
                    matches BenchStep::Ask { effect: BenchEffect::RunSync(i, cmd, t), restart_clock }
                    && restart_clock && i == info.id && cmd@ == order.mutate_cmd@ && t
                    == order.timeout_secs)
            },
            (SnapshotBench::Creating(_), BenchReply::Failed(f)) => next is Over && step
                == BenchStep::Done(Err(f)),
            (SnapshotBench::Mutating(order, id, marks), BenchReply::Ran(code, stderr)) => if code
                != 0 {
                Self::fails(
                    order,
                    marks,
                    bench_complaint("mutate"@, order.run, id, code, stderr@),
                    next,
                    step,
                )
            } else {
                next == SnapshotBench::Snapshotting(
                    order,
                    id,
                    BenchMarks {
                        times: StageTimes { mutate_ms: elapsed_ms, ..marks.times },
                        ..marks
                    },
                ) && bench_asks(step, BenchEffect::CreateSnapshot(id), true)
            },
            (SnapshotBench::Snapshotting(order, id, marks), BenchReply::Snapshot(snapshot)) => next
                == SnapshotBench::DestroyingFirst(
                order,
                id,
                snapshot,
                BenchMarks {
                    snapshot: Some(snapshot),
                    times: StageTimes { snapshot_create_ms: elapsed_ms, ..marks.times },
                    ..marks
                },
            ) && bench_asks(step, BenchEffect::Destroy(id), true),
            (SnapshotBench::DestroyingFirst(order, id, snapshot, marks), BenchReply::Unit) => next
                == SnapshotBench::Restoring(
                order,
                id,
                snapshot,
                BenchMarks {
                    created: None,
                    times: StageTimes { destroy_initial_ms: elapsed_ms, ..marks.times },
                    ..marks
                },
            ) && (step matches BenchStep::Ask {
                effect: BenchEffect::ResolveAffinity(name),
                restart_clock,
            } && restart_clock && name@ == order.affinity_name@),
            (SnapshotBench::Restoring(order, id, snapshot, marks), BenchReply::Sandbox(info)) => next
                == SnapshotBench::Verifying(
                order,
                id,
                snapshot,
                info.id,
                BenchMarks { restored: Some(info.id), ..marks },
            ) && (step matches BenchStep::Ask {
                effect: BenchEffect::RunSync(i, cmd, t),
                restart_clock,
            } && !restart_clock && i == info.id && cmd@ == order.verify_cmd@ && t
                == order.timeout_secs),
            (
                SnapshotBench::Verifying(order, id, snapshot, restored, marks),
                BenchReply::Ran(code, stderr),
            ) => if code != 0 {
                Self::fails(
                    order,
                    marks,
                    bench_complaint("verify"@, order.run, restored, code, stderr@),
                    next,
                    step,
                )
            } else {
                next == SnapshotBench::DestroyingRestored(
                    order,
                    id,
                    snapshot,
                    restored,
                    BenchMarks {
                        times: StageTimes { restore_verify_ms: elapsed_ms, ..marks.times },
                        ..marks
                    },
                ) && bench_asks(step, BenchEffect::Destroy(restored), true)
            },
            (
                SnapshotBench::DestroyingRestored(order, id, snapshot, restored, marks),
                BenchReply::Unit,
            ) => {
                let times = StageTimes { destroy_restored_ms: elapsed_ms, ..marks.times };
                Self::cleans(
                    order.keep_snapshot_artifacts,
                    BenchMarks { restored: None, times, ..marks },
                    Ok(
                        BenchRun {
                            run: order.run,
                            sandbox_id: id,
                            restored_sandbox_id: restored,
                            snapshot_id: snapshot,
                            times,
                        },
                    ),
                    next,
                    step,
                )
            },
            (SnapshotBench::Mutating(order, _, marks), BenchReply::Failed(f))
            | (SnapshotBench::Snapshotting(order, _, marks), BenchReply::Failed(f))
            | (SnapshotBench::DestroyingFirst(order, _, _, marks), BenchReply::Failed(f))
            | (SnapshotBench::Restoring(order, _, _, marks), BenchReply::Failed(f))
            | (SnapshotBench::Verifying(order, _, _, _, marks), BenchReply::Failed(f))
            | (SnapshotBench::DestroyingRestored(order, _, _, _, marks), BenchReply::Failed(f)) => Self::cleans(
                order.keep_snapshot_artifacts,
                marks,
                Err(f),
                next,
                step,
            ),
            (SnapshotBench::CleaningRestored(keep, marks, result), BenchReply::Unit)
            | (SnapshotBench::CleaningRestored(keep, marks, result), BenchReply::Failed(_)) => Self::cleans_created(
                keep,
                marks,
                result,
                next,
                step,
            ),
            (SnapshotBench::CleaningCreated(keep, marks, result), BenchReply::Unit)
            | (SnapshotBench::CleaningCreated(keep, marks, result), BenchReply::Failed(_)) => Self::cleans_artifact(
                keep,
                marks,
                result,
                next,
                step,
            ),
            (SnapshotBench::CleaningArtifact(result), BenchReply::Unit)
            | (SnapshotBench::CleaningArtifact(result), BenchReply::Failed(_)) => next is Over
                && step == BenchStep::Done(result),
            _ => next == self && step is Stray,
        }
    }

    fn ask(state: Self, effect: BenchEffect, restart_clock: bool) -> (r: (Self, BenchStep))
        ensures
            r.0 == state,
            bench_asks(r.1, effect, restart_clock),
    {
        (state, BenchStep::Ask { effect, restart_clock })
    }

    fn clean(keep: bool, marks: BenchMarks, result: Result<BenchRun, Fault>) -> (r: (
        Self,
        BenchStep,
    ))
        ensures
            Self::cleans(keep, marks, result, r.0, r.1),
    {
        if let Some(id) = marks.restored {
            return Self::ask(
                SnapshotBench::CleaningRestored(keep, marks, result),
                BenchEffect::Destroy(id),
                false,
            );
        }
        Self::clean_created(keep, marks, result)
    }

    fn clean_created(keep: bool, marks: BenchMarks, result: Result<BenchRun, Fault>) -> (r: (
        Self,
        BenchStep,
    ))
        ensures
            Self::cleans_created(keep, marks, result, r.0, r.1),
    {
        if let Some(id) = marks.created {
            return Self::ask(
                SnapshotBench::CleaningCreated(keep, marks, result),
                BenchEffect::Destroy(id),
                false,
            );
        }
        Self::clean_artifact(keep, marks, result)
    }

    fn clean_artifact(keep: bool, marks: BenchMarks, result: Result<BenchRun, Fault>) -> (r: (
        Self,
        BenchStep,
    ))
        ensures
            Self::cleans_artifact(keep, marks, result, r.0, r.1),
    {
        if let Some(id) = marks.snapshot {
            if !keep {
                return Self::ask(
                    SnapshotBench::CleaningArtifact(result),
                    BenchEffect::RemoveArtifact(id),
                    false,
                );
            }
        }
        (SnapshotBench::Over, BenchStep::Done(result))
    }

    pub fn resume(self, reply: BenchReply, elapsed_ms: u128) -> (r: (Self, BenchStep))
        ensures
            self.follows(reply, elapsed_ms, r.0, r.1),
    {
        match (self, reply) {
            (SnapshotBench::Over, _) => (SnapshotBench::Over, BenchStep::Stray),
            (SnapshotBench::Creating(order), BenchReply::Sandbox(info)) => {
                let marks = BenchMarks {
                    created: Some(info.id),
                    restored: None,
                    snapshot: None,
                    times: StageTimes {
                        create_ms: elapsed_ms,
                        mutate_ms: 0,
                        snapshot_create_ms: 0,
                        destroy_initial_ms: 0,
                        restore_verify_ms: 0,
                        destroy_restored_ms: 0,
                    },
                };
                let cmd = order.mutate_cmd.clone();
                let secs: u64 = order.timeout_secs;
                Self::ask(
                    SnapshotBench::Mutating(order, info.id, marks),
                    BenchEffect::RunSync(info.id, cmd, secs),
                    true,
                )
            },
            (SnapshotBench::Creating(_), BenchReply::Failed(f)) => (
                SnapshotBench::Over,
                BenchStep::Done(Err(f)),
            ),
            (SnapshotBench::Mutating(order, id, marks), BenchReply::Ran(code, stderr)) => {
                if code != 0 {
                    let f = complain("mutate", order.run, id, code, stderr.as_str());
                    let ghost told = f;
                    let r = Self::clean(order.keep_snapshot_artifacts, marks, Err(f));
                    assert(told.says(
                        bench_complaint("mutate"@, order.run, id, code, stderr@),
                    ));
                    return r;
                }
                let mut marks = marks;
                marks.times.mutate_ms = elapsed_ms;
                Self::ask(
                    SnapshotBench::Snapshotting(order, id, marks),
                    BenchEffect::CreateSnapshot(id),
                    true,
                )
            },
            (SnapshotBench::Snapshotting(order, id, marks), BenchReply::Snapshot(snapshot)) => {
                let mut marks = marks;
                marks.times.snapshot_create_ms = elapsed_ms;
                marks.snapshot = Some(snapshot);
                Self::ask(
                    SnapshotBench::DestroyingFirst(order, id, snapshot, marks),
                    BenchEffect::Destroy(id),
                    true,
                )
            },
            (SnapshotBench::DestroyingFirst(order, id, snapshot, marks), BenchReply::Unit) => {
                let mut marks = marks;
                marks.times.destroy_initial_ms = elapsed_ms;
                marks.created = None;
                let name = order.affinity_name.clone();
                Self::ask(
                    SnapshotBench::Restoring(order, id, snapshot, marks),
                    BenchEffect::ResolveAffinity(name),
                    true,
                )
            },
            (SnapshotBench::Restoring(order, id, snapshot, marks), BenchReply::Sandbox(info)) => {
                let mut marks = marks;
                marks.restored = Some(info.id);
                let cmd = order.verify_cmd.clone();
                let secs: u64 = order.timeout_secs;
                Self::ask(
                    SnapshotBench::Verifying(order, id, snapshot, info.id, marks),
                    BenchEffect::RunSync(info.id, cmd, secs),
                    false,
                )
            },
            (
                SnapshotBench::Verifying(order, id, snapshot, restored, marks),
                BenchReply::Ran(code, stderr),
            ) => {
                if code != 0 {
                    let f = complain("verify", order.run, restored, code, stderr.as_str());
                    let ghost told = f;
                    let r = Self::clean(order.keep_snapshot_artifacts, marks, Err(f));
                    assert(told.says(
                        bench_complaint("verify"@, order.run, restored, code, stderr@),
                    ));
                    return r;
                }
                let mut marks = marks;
                marks.times.restore_verify_ms = elapsed_ms;
                Self::ask(
                    SnapshotBench::DestroyingRestored(order, id, snapshot, restored, marks),
                    BenchEffect::Destroy(restored),
                    true,
                )
            },
            (
                SnapshotBench::DestroyingRestored(order, id, snapshot, restored, marks),
                BenchReply::Unit,
            ) => {
                let mut marks = marks;
                marks.times.destroy_restored_ms = elapsed_ms;
                marks.restored = None;
                let run = BenchRun {
                    run: order.run,
                    sandbox_id: id,
                    restored_sandbox_id: restored,
                    snapshot_id: snapshot,
                    times: marks.times,
                };
                Self::clean(order.keep_snapshot_artifacts, marks, Ok(run))
            },
            (SnapshotBench::Mutating(order, _, marks), BenchReply::Failed(f)) => Self::clean(
                order.keep_snapshot_artifacts,
                marks,
                Err(f),
            ),
            (SnapshotBench::Snapshotting(order, _, marks), BenchReply::Failed(f)) => Self::clean(
                order.keep_snapshot_artifacts,
                marks,
                Err(f),
            ),
            (SnapshotBench::DestroyingFirst(order, _, _, marks), BenchReply::Failed(f)) => {
                Self::clean(order.keep_snapshot_artifacts, marks, Err(f))
            },
            (SnapshotBench::Restoring(order, _, _, marks), BenchReply::Failed(f)) => Self::clean(
                order.keep_snapshot_artifacts,
                marks,
                Err(f),
            ),
            (SnapshotBench::Verifying(order, _, _, _, marks), BenchReply::Failed(f)) => {
                Self::clean(order.keep_snapshot_artifacts, marks, Err(f))
            },
            (SnapshotBench::DestroyingRestored(order, _, _, _, marks), BenchReply::Failed(f)) => {
                Self::clean(order.keep_snapshot_artifacts, marks, Err(f))
            },
            (SnapshotBench::CleaningRestored(keep, marks, result), BenchReply::Unit) => {
                Self::clean_created(keep, marks, result)
            },
            (SnapshotBench::CleaningRestored(keep, marks, result), BenchReply::Failed(_)) => {
                Self::clean_created(keep, marks, result)
            },
            (SnapshotBench::CleaningCreated(keep, marks, result), BenchReply::Unit) => {
                Self::clean_artifact(keep, marks, result)
            },
            (SnapshotBench::CleaningCreated(keep, marks, result), BenchReply::Failed(_)) => {
                Self::clean_artifact(keep, marks, result)
            },
            (SnapshotBench::CleaningArtifact(result), BenchReply::Unit) => (
                SnapshotBench::Over,
                BenchStep::Done(result),
            ),
            (SnapshotBench::CleaningArtifact(result), BenchReply::Failed(_)) => (
                SnapshotBench::Over,
                BenchStep::Done(result),
            ),
            (state, _) => (state, BenchStep::Stray),
        }
    }
}

/// The runs that count. Runs to warm up come first and are left out; the others are counted
/// from one.
#[derive(Debug)]
pub struct BenchTally {
    pub warmup: usize,
    pub kept: Vec<BenchRun>,
}

/// The figures of each stage.
#[derive(Debug, Clone, Copy, PartialEq, Eq, Structural)]
pub struct BenchFigures {
    pub create_ms: SampleFigures,
    pub mutate_ms: SampleFigures,
    pub snapshot_create_ms: SampleFigures,
    pub destroy_initial_ms: SampleFigures,
    pub restore_verify_ms: SampleFigures,
    pub destroy_restored_ms: SampleFigures,
    pub total_ms: SampleFigures,
}

/// A stage of a run, or the whole.
#[derive(Debug, Clone, Copy, PartialEq, Eq, Structural)]
pub enum Stage {
    Create,
    Mutate,
    SnapshotCreate,
    DestroyInitial,
    RestoreVerify,
    DestroyRestored,
    Total,
}

pub open spec fn stage_ms(run: BenchRun, stage: Stage) -> u128 {
    match stage {
        Stage::Create => run.times.create_ms,
        Stage::Mutate => run.times.mutate_ms,
        Stage::SnapshotCreate => run.times.snapshot_create_ms,
        Stage::DestroyInitial => run.times.destroy_initial_ms,
        Stage::RestoreVerify => run.times.restore_verify_ms,
        Stage::DestroyRestored => run.times.destroy_restored_ms,
        Stage::Total => run.times.sum() as u128,
    }
}

/// What a stage took, run by run.
pub open spec fn column(runs: Seq<BenchRun>, stage: Stage) -> Seq<u128> {
    Seq::new(runs.len(), |i: int| stage_ms(runs[i], stage))
}

/// The times of some runs can be added up.
pub open spec fn countable(runs: Seq<BenchRun>) -> bool {
    &&& forall|i: int| 0 <= i < runs.len() ==> (#[trigger] runs[i]).times.sum() <= u128::MAX
    &&& total(column(runs, Stage::Total)) <= u128::MAX
}

proof fn stages_are_countable(runs: Seq<BenchRun>, stage: Stage)
    requires
        forall|i: int| 0 <= i < runs.len() ==> (#[trigger] runs[i]).times.sum() <= u128::MAX,
    ensures
        total(column(runs, stage)) <= total(column(runs, Stage::Total)),
    decreases runs.len(),
{
    if runs.len() > 0 {
        let init = runs.drop_last();
        assert forall|i: int| 0 <= i < init.len() implies (#[trigger] init[i]).times.sum()
            <= u128::MAX by {
            assert(init[i] == runs[i]);
        }
        stages_are_countable(init, stage);
        assert(column(runs, stage).drop_last() =~= column(init, stage));
        assert(column(runs, Stage::Total).drop_last() =~= column(init, Stage::Total));
        assert(runs.last().times.sum() <= u128::MAX);
    }
}

fn read_column(runs: &Vec<BenchRun>, stage: Stage) -> (r: Vec<u128>)
    requires
        countable(runs@),
    ensures
        r@ == column(runs@, stage),
{
    let mut out: Vec<u128> = Vec::new();
    let mut i: usize = 0;
    while i < runs.len()
        invariant
            i <= runs.len(),
            countable(runs@),
            out@ == column(runs@, stage).take(i as int),
        decreases runs.len() - i,
    {
        let run = runs[i];
        let ms: u128 = match stage {
            Stage::Create => run.times.create_ms,
            Stage::Mutate => run.times.mutate_ms,
            Stage::SnapshotCreate => run.times.snapshot_create_ms,
            Stage::DestroyInitial => run.times.destroy_initial_ms,
            Stage::RestoreVerify => run.times.restore_verify_ms,
            Stage::DestroyRestored => run.times.destroy_restored_ms,
            Stage::Total => run.times.total_ms(),
        };
        out.push(ms);
        assert(column(runs@, stage).take(i + 1) =~= column(runs@, stage).take(i as int).push(ms));
        i = i + 1;
    }
    assert(column(runs@, stage).take(runs@.len() as int) =~= column(runs@, stage));
    out
}

fn stage_figures(runs: &Vec<BenchRun>, stage: Stage) -> (r: SampleFigures)
    requires
        countable(runs@),
    ensures
        r == figures(column(runs@, stage)),
{
    let samples = read_column(runs, stage);
    proof {
        stages_are_countable(runs@, stage);
    }
    summarize_samples(samples)
}

impl BenchTally {
    pub fn new(warmup: usize) -> (r: Self)
        ensures
            r.warmup == warmup,
            r.kept@.len() == 0,
    {
        BenchTally { warmup, kept: Vec::new() }
    }

    /// Takes up the run at a place, counted from zero over all runs.
    pub fn take_up(&mut self, place: usize, run: BenchRun)
        requires
            place < usize::MAX,
        ensures
            final(self).warmup == old(self).warmup,
            place < old(self).warmup ==> final(self).kept@ == old(self).kept@,
            place >= old(self).warmup ==> final(self).kept@ == old(
                self,
            ).kept@.push(BenchRun { run: (place - old(self).warmup + 1) as usize, ..run }),
    {
        if place >= self.warmup {
            let mut run = run;
            run.run = place - self.warmup + 1;
            self.kept.push(run);
        }
    }

    /// Whether the times of the runs that count can be added up.
    pub fn is_countable(&self) -> (r: bool)
        ensures
            r == countable(self.kept@),
    {
        let ghost all = column(self.kept@, Stage::Total);
        let mut sum: u128 = 0;
        let mut i: usize = 0;
        while i < self.kept.len()
            invariant
                i <= self.kept.len(),
                all == column(self.kept@, Stage::Total),
                forall|k: int|
                    0 <= k < i ==> (#[trigger] self.kept@[k]).times.sum() <= u128::MAX,
                sum == total(all.take(i as int)),
            decreases self.kept.len() - i,
        {
            proof {
                assert(all.take(i + 1).drop_last() =~= all.take(i as int));
                total_of_prefix(all, i + 1);
            }
            match self.kept[i].times.checked_total() {
                Some(ms) => match sum.checked_add(ms) {
                    Some(more) => {
                        sum = more;
                    },
                    None => return false,
                },
                None => return false,
            }
            i = i + 1;
        }
        assert(all.take(all.len() as int) =~= all);
        true
    }

    /// The figures over the runs that count.
    pub fn figures(&self) -> (r: BenchFigures)
        requires
            countable(self.kept@),
        ensures
            r.create_ms == figures(column(self.kept@, Stage::Create)),
            r.mutate_ms == figures(column(self.kept@, Stage::Mutate)),
            r.snapshot_create_ms == figures(column(self.kept@, Stage::SnapshotCreate)),
            r.destroy_initial_ms == figures(column(self.kept@, Stage::DestroyInitial)),
            r.restore_verify_ms == figures(column(self.kept@, Stage::RestoreVerify)),
            r.destroy_restored_ms == figures(column(self.kept@, Stage::DestroyRestored)),
            r.total_ms == figures(column(self.kept@, Stage::Total)),
    {
        BenchFigures {
            create_ms: stage_figures(&self.kept, Stage::Create),
            mutate_ms: stage_figures(&self.kept, Stage::Mutate),
            snapshot_create_ms: stage_figures(&self.kept, Stage::SnapshotCreate),
            destroy_initial_ms: stage_figures(&self.kept, Stage::DestroyInitial),
            restore_verify_ms: stage_figures(&self.kept, Stage::RestoreVerify),
            destroy_restored_ms: stage_figures(&self.kept, Stage::DestroyRestored),
            total_ms: stage_figures(&self.kept, Stage::Total),
        }
    }
}

/// How long the commands of a measurement took, one after the other. Those to warm up are left
/// out.
#[derive(Debug)]
pub struct ExecTally {
    pub warmup: usize,
    pub samples: Vec<u128>,
}

impl ExecTally {
    pub fn new(warmup: usize) -> (r: Self)
        ensures
            r.warmup == warmup,
            r.samples@.len() == 0,
    {
        ExecTally { warmup, samples: Vec::new() }
    }

    /// Takes up the time of the command at a place, counted from zero over all commands.
    pub fn take_up(&mut self, place: usize, duration_ms: u128)
        ensures
            final(self).warmup == old(self).warmup,
            final(self).samples@ == (if place >= old(self).warmup {
                old(self).samples@.push(duration_ms)
            } else {
                old(self).samples@
            }),
    {
        if place >= self.warmup {
            self.samples.push(duration_ms);
        }
    }
}

/// The name that a run of the measurement gives its sandbox.
pub fn bench_affinity_name(id: u128) -> (r: String)
    ensures
        r@ == "benchsnap-"@ + hex_digits(id as nat, 32),
{
    cat2("benchsnap-", hex_text(id, 32).as_str())
}

impl SnapshotBench {
    /// The run has made this sandbox, and its end has been neither seen nor asked for as a part
    /// of the cleaning up.
    pub open spec fn standing(self, id: SandboxId) -> bool {
        match self {
            SnapshotBench::Mutating(_, _, marks)
            | SnapshotBench::Snapshotting(_, _, marks)
            | SnapshotBench::DestroyingFirst(_, _, _, marks)
            | SnapshotBench::Restoring(_, _, _, marks)
            | SnapshotBench::Verifying(_, _, _, _, marks)
            | SnapshotBench::DestroyingRestored(_, _, _, _, marks) => marks.created == Some(id)
                || marks.restored == Some(id),
            SnapshotBench::CleaningRestored(_, marks, _) => marks.created == Some(id),
            _ => false,
        }
    }

    /// There is one sandbox at a time: no restored one before the first is gone, and no first
    /// one after that.
    pub open spec fn one_at_a_time(self) -> bool {
        match self {
            SnapshotBench::Mutating(_, _, marks)
            | SnapshotBench::Snapshotting(_, _, marks)
            | SnapshotBench::DestroyingFirst(_, _, _, marks) => marks.restored is None,
            SnapshotBench::Restoring(_, _, _, marks) => marks.created is None && marks.restored
                is None,
            SnapshotBench::Verifying(_, _, _, _, marks)
            | SnapshotBench::DestroyingRestored(_, _, _, _, marks) => marks.created is None,
            _ => true,
        }
    }

    /// A stage of the run waits for the end of this sandbox.
    pub open spec fn ending(self, id: SandboxId) -> bool {
        match self {
            SnapshotBench::DestroyingFirst(_, _, _, marks) => marks.created == Some(id),
            SnapshotBench::DestroyingRestored(_, _, _, _, marks) => marks.restored == Some(id),
            _ => false,
        }
    }
}

/// No run leaves a sandbox behind. Every sandbox that a run gets stands, and one that stands
/// stays known until its end was seen or is asked for; so no run ends before, whether it
/// succeeds or fails. There is never more than one, which holds at the start and is kept.
pub proof fn runs_leave_no_sandbox(
    state: SnapshotBench,
    reply: BenchReply,
    elapsed_ms: u128,
    next: SnapshotBench,
    step: BenchStep,
    id: SandboxId,
)
    requires
        state.one_at_a_time(),
        state.follows(reply, elapsed_ms, next, step),
    ensures
        next.one_at_a_time(),
        !(step is Stray) && (reply matches BenchReply::Sandbox(info) && info.id == id)
            ==> next.standing(id),
        state.standing(id) ==> next.standing(id) || bench_asks(
            step,
            BenchEffect::Destroy(id),
            false,
        ) || (state.ending(id) && reply is Unit),
        step is Done ==> (state.standing(id) ==> state.ending(id) && reply is Unit)
            && !next.standing(id),
{
}

} // verus!
