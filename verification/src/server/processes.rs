//! The operations on managed processes.

use crate::error::HyperboxError;
use crate::ids::hyphenated;
use crate::model::{shell_model, ExecRequest, FilePayload, SandboxId};
use crate::numbers::{parse_u64, parsed_nat};
use crate::order::{ordered, sort_stable};
use crate::process::{ProcessId, ProcessInfo, ProcessModel, ProcessStatus};
use crate::server::effects::{
    asks, asks_exec, asks_record, ends_with_process, fails, fails_with, Effect, Reply, Step,
};
use crate::server::managed::{
    cancel_script, dir_of, ended, expiry_fits, inspect_script, is_end, kill_script, parse_process_probe,
    probe_script, probed, process_cancel_path, process_dir, process_wait_poll_interval, tells_end,
};
use crate::server::state::{ServerState, StateModel};
use crate::shell::{shell_escape, shell_word};
use crate::text::{cat2, cat3, cat4, trim, trimmed};
use crate::time::{TimeModel, Timestamp, MAX_SECS};
use vstd::prelude::*;

verus! {

/// The time at which an operation is resumed, and for how many days a finished process is
/// kept.
#[derive(Debug, Clone, Copy)]
pub struct Clock {
    pub now: Timestamp,
    pub ttl_days: i64,
}

impl Clock {
    /// The end of the time that a process which ends now is kept for is in the calendar.
    pub open spec fn fits(self) -> bool {
        expiry_fits(self.now@, self.ttl_days)
    }

    pub open spec fn expiry(self) -> TimeModel {
        self.now@.days_later(self.ttl_days as int)
    }

    /// Whether the end of that time is in the calendar.
    pub fn in_calendar(&self) -> (r: bool)
        ensures
            r == self.fits(),
    {
        let end: i128 = self.now.secs() as i128 + self.ttl_days as i128 * 86_400;
        0 <= self.ttl_days && end <= MAX_SECS as i128
    }
}

/// Bringing the record of a process up to date.
#[derive(Debug)]
pub enum RefreshProcess {
    Probing(ProcessInfo),
    Saving(ProcessInfo),
    Over,
}

impl RefreshProcess {
    pub fn begin(process: ProcessInfo) -> (r: (Self, Step<ProcessInfo>))
        ensures
            process.status.terminal() ==> r == (
                RefreshProcess::Over,
                Step::<ProcessInfo>::Done(Ok(process)),
            ),
            !process.status.terminal() ==> r.0 == RefreshProcess::Probing(process) && asks_exec(
                r.1,
                process.sandbox_id,
                shell_model(probe_script(process.id), 5),
            ),
    {
        if process.status.is_terminal() {
            return (RefreshProcess::Over, Step::Done(Ok(process)));
        }
        let script = inspect_script(&process);
        let id = process.sandbox_id;
        (
            RefreshProcess::Probing(process),
            Step::Ask(Effect::Exec(id, ExecRequest::shell(script, 5))),
        )
    }

    /// What a reply leads to: a probe that failed leaves the record as it is, and a record is
    /// saved only where the probe changed it.
    pub open spec fn follows(
        self,
        reply: Reply,
        clock: Clock,
        next: Self,
        step: Step<ProcessInfo>,
    ) -> bool {
        match (self, reply) {
            (RefreshProcess::Probing(p), Reply::Outcome(o)) => {
                let q = probed(p@, trimmed(o.stdout@), clock.now@, clock.expiry());
                if o.exit_code != 0 {
                    next is Over && step == Step::<ProcessInfo>::Done(Ok(p))
                } else if q == p@ {
                    next is Over && ends_with_process(step, q)
                } else {
                    next matches RefreshProcess::Saving(s) && s@ == q && asks_record(step, q)
                }
            },
            (RefreshProcess::Saving(p), Reply::Unit) => next is Over && step == Step::<
                ProcessInfo,
            >::Done(Ok(p)),
            (RefreshProcess::Over, _) => next is Over && step is Stray,
            (_, Reply::Failed(e)) => next is Over && fails(step, e),
            _ => next == self && step is Stray,
        }
    }

    /// A reply by which the process has ended.
    pub open spec fn ends(self, reply: Reply, clock: Clock) -> bool {
        match (self, reply) {
            (RefreshProcess::Probing(p), Reply::Outcome(o)) => o.exit_code == 0 && tells_end(
                p@,
                trimmed(o.stdout@),
                clock.now@,
            ),
            _ => false,
        }
    }

    /// Whether a reply says that the process has ended, so that an end is recorded.
    pub fn is_ended_by(&self, reply: &Reply, clock: &Clock) -> (r: bool)
        ensures
            r == self.ends(*reply, *clock),
    {
        match (self, reply) {
            (RefreshProcess::Probing(p), Reply::Outcome(o)) => {
                let answer = trim(o.stdout.as_str());
                o.exit_code == 0 && is_end(p, answer.as_str(), &clock.now)
            },
            _ => false,
        }
    }

    pub fn resume(self, reply: Reply, clock: Clock) -> (r: (Self, Step<ProcessInfo>))
        requires
            self.ends(reply, clock) ==> clock.fits(),
        ensures
            self.follows(reply, clock, r.0, r.1),
    {
        match (self, reply) {
            (RefreshProcess::Probing(p), Reply::Outcome(o)) => {
                if o.exit_code != 0 {
                    return (RefreshProcess::Over, Step::Done(Ok(p)));
                }
                let answer = trim(o.stdout.as_str());
                match parse_process_probe(&p, answer.as_str(), clock.now, clock.ttl_days) {
                    Ok(inspected) => if inspected.same_process(&p) {
                        (RefreshProcess::Over, Step::Done(Ok(inspected)))
                    } else {
                        let record = inspected.clone();
                        (
                            RefreshProcess::Saving(inspected),
                            Step::Ask(Effect::StoreUpsertProcess(record)),
                        )
                    },
                    Err(e) => (RefreshProcess::Over, Step::Done(Err(e))),
                }
            },
            (RefreshProcess::Saving(p), Reply::Unit) => (
                RefreshProcess::Over,
                Step::Done(Ok(p)),
            ),
            (RefreshProcess::Over, _) => (RefreshProcess::Over, Step::Stray),
            (_, Reply::Failed(e)) => (RefreshProcess::Over, Step::Done(Err(e))),
            (op, _) => (op, Step::Stray),
        }
    }
}

/// The script that prints the size of a log.
pub open spec fn log_size_script(path: Seq<char>) -> Seq<char> {
    "path="@ + shell_word(path)
        + "; if [ ! -f \"$path\" ]; then printf 0; else wc -c < \"$path\" | tr -d ' '; fi"@
}

/// What the answer of that script says.
pub open spec fn log_size(path: Seq<char>, stdout: Seq<char>) -> Result<u64, Seq<char>> {
    let text = trimmed(stdout);
    if text.len() == 0 {
        Ok(0)
    } else {
        match parsed_nat(text, u64::MAX as nat) {
            Ok(v) => Ok(v as u64),
            Err(e) => Err("invalid log size for "@ + path + ": "@ + e.text()),
        }
    }
}

/// Finding out how long a log is.
#[derive(Debug)]
pub enum ReadLogSize {
    Measuring(String),
    Over,
}

impl ReadLogSize {
    pub fn begin(sandbox_id: SandboxId, path: String) -> (r: (Self, Step<u64>))
        ensures
            r.0 == ReadLogSize::Measuring(path),
            asks_exec(r.1, sandbox_id, shell_model(log_size_script(path@), 5)),
    {
        let word = shell_escape(path.as_str());
        let script = cat3(
            "path=",
            word.as_str(),
            "; if [ ! -f \"$path\" ]; then printf 0; else wc -c < \"$path\" | tr -d ' '; fi",
        );
        (
            ReadLogSize::Measuring(path),
            Step::Ask(Effect::Exec(sandbox_id, ExecRequest::shell(script, 5))),
        )
    }

    pub open spec fn follows(self, reply: Reply, next: Self, step: Step<u64>) -> bool {
        match (self, reply) {
            (ReadLogSize::Measuring(path), Reply::Outcome(o)) => next is Over && match log_size(
                path@,
                o.stdout@,
            ) {
                Ok(n) => step == Step::<u64>::Done(Ok(n)),
                Err(m) => fails_with(step, m),
            },
            (ReadLogSize::Measuring(_), Reply::Failed(e)) => next is Over && fails(step, e),
            _ => next == self && step is Stray,
        }
    }

    pub fn resume(self, reply: Reply) -> (r: (Self, Step<u64>))
        ensures
            self.follows(reply, r.0, r.1),
    {
        match (self, reply) {
            (ReadLogSize::Measuring(path), Reply::Outcome(o)) => {
                let text = trim(o.stdout.as_str());
                if text.as_str().is_empty() {
                    return (ReadLogSize::Over, Step::Done(Ok(0)));
                }
                match parse_u64(text.as_str()) {
                    Ok(n) => (ReadLogSize::Over, Step::Done(Ok(n))),
                    Err(e) => {
                        let m = cat4("invalid log size for ", path.as_str(), ": ", e.message());
                        (
                            ReadLogSize::Over,
                            Step::Done(Err(HyperboxError::ExecutionFailed(m))),
                        )
                    },
                }
            },
            (ReadLogSize::Measuring(_), Reply::Failed(e)) => (
                ReadLogSize::Over,
                Step::Done(Err(e)),
            ),
            (op, _) => (op, Step::Stray),
        }
    }
}

/// Removing a process and what belongs to it.
#[derive(Debug)]
pub enum PurgeProcess {
    Inspecting(ProcessInfo),
    Destroying(ProcessInfo),
    Unbinding(ProcessInfo),
    Deactivating(ProcessInfo),
    Sweeping(ProcessInfo),
    Removing,
    Over,
}

/// The script that removes the files of a process.
pub open spec fn sweep_script(id: ProcessId) -> Seq<char> {
    "rm -rf "@ + shell_word(dir_of(id))
}

impl PurgeProcess {
    pub fn begin(process: ProcessInfo) -> (r: (Self, Step<()>))
        ensures
            r.0 == PurgeProcess::Inspecting(process),
            asks(r.1, Effect::Inspect(process.sandbox_id)),
    {
        let id = process.sandbox_id;
        (PurgeProcess::Inspecting(process), Step::Ask(Effect::Inspect(id)))
    }

    /// What a reply leads to, and what the server remembers after it. A sandbox that belongs
    /// to the process goes with it; in another one only the files of the process go. That the
    /// sandbox is gone already is no error.
    pub open spec fn follows(
        self,
        reply: Reply,
        next: Self,
        step: Step<()>,
        before: StateModel,
        after: StateModel,
    ) -> bool {
        match (self, reply) {
            (PurgeProcess::Inspecting(p), Reply::Info(_)) => after == before && if p.destroy_sandbox_on_expiry {
                next == PurgeProcess::Destroying(p) && asks(
                    step,
                    Effect::BackendDestroy(p.sandbox_id),
                )
            } else {
                next == PurgeProcess::Sweeping(p) && asks_exec(
                    step,
                    p.sandbox_id,
                    shell_model(sweep_script(p.id), 5),
                )
            },
            (
                PurgeProcess::Inspecting(p),
                Reply::Failed(HyperboxError::SandboxNotFound(_)),
            ) => if p.destroy_sandbox_on_expiry {
                next == PurgeProcess::Unbinding(p) && asks(
                    step,
                    Effect::StoreClearBinding(p.sandbox_id),
                ) && after == before.without_sandbox(p.sandbox_id)
            } else {
                next is Removing && asks(step, Effect::StoreRemoveProcess(p.id)) && after == before
            },
            (PurgeProcess::Destroying(p), Reply::Unit) => next == PurgeProcess::Unbinding(p)
                && asks(step, Effect::StoreClearBinding(p.sandbox_id)) && after
                == before.without_sandbox(p.sandbox_id),
            (PurgeProcess::Unbinding(p), Reply::Unit) => next == PurgeProcess::Deactivating(p)
                && asks(step, Effect::StoreRemoveActive(p.sandbox_id)) && after == before,
            (PurgeProcess::Deactivating(p), Reply::Unit) => next is Removing && asks(
                step,
                Effect::StoreRemoveProcess(p.id),
            ) && after == before,
            (PurgeProcess::Sweeping(p), Reply::Outcome(_))
            | (PurgeProcess::Sweeping(p), Reply::Failed(_)) => next is Removing && asks(
                step,
                Effect::StoreRemoveProcess(p.id),
            ) && after == before,
            (PurgeProcess::Removing, Reply::Unit) => next is Over && step == Step::<()>::Done(
                Ok(()),
            ) && after == before,
            (PurgeProcess::Over, _) => next is Over && step is Stray && after == before,
            (_, Reply::Failed(e)) => next is Over && fails(step, e) && after == before,
            _ => next == self && step is Stray && after == before,
        }
    }

    pub fn resume(self, reply: Reply, state: &mut ServerState) -> (r: (Self, Step<()>))
        ensures
            self.follows(reply, r.0, r.1, old(state)@, final(state)@),
    {
        match (self, reply) {
            (PurgeProcess::Inspecting(p), Reply::Info(_)) => {
                let id = p.sandbox_id;
                if p.destroy_sandbox_on_expiry {
                    (PurgeProcess::Destroying(p), Step::Ask(Effect::BackendDestroy(id)))
                } else {
                    let dir = process_dir(&p.id);
                    let word = shell_escape(dir.as_str());
                    let script = cat2("rm -rf ", word.as_str());
                    (
                        PurgeProcess::Sweeping(p),
                        Step::Ask(Effect::Exec(id, ExecRequest::shell(script, 5))),
                    )
                }
            },
            (PurgeProcess::Inspecting(p), Reply::Failed(HyperboxError::SandboxNotFound(_))) => {
                if p.destroy_sandbox_on_expiry {
                    let id = p.sandbox_id;
                    state.forget_sandbox(id);
                    (PurgeProcess::Unbinding(p), Step::Ask(Effect::StoreClearBinding(id)))
                } else {
                    (PurgeProcess::Removing, Step::Ask(Effect::StoreRemoveProcess(p.id)))
                }
            },
            (PurgeProcess::Destroying(p), Reply::Unit) => {
                let id = p.sandbox_id;
                state.forget_sandbox(id);
                (PurgeProcess::Unbinding(p), Step::Ask(Effect::StoreClearBinding(id)))
            },
            (PurgeProcess::Unbinding(p), Reply::Unit) => {
                let id = p.sandbox_id;
                (PurgeProcess::Deactivating(p), Step::Ask(Effect::StoreRemoveActive(id)))
            },
            (PurgeProcess::Deactivating(p), Reply::Unit) => (
                PurgeProcess::Removing,
                Step::Ask(Effect::StoreRemoveProcess(p.id)),
            ),
            (PurgeProcess::Sweeping(p), Reply::Outcome(_)) => (
                PurgeProcess::Removing,
                Step::Ask(Effect::StoreRemoveProcess(p.id)),
            ),
            (PurgeProcess::Sweeping(p), Reply::Failed(_)) => (
                PurgeProcess::Removing,
                Step::Ask(Effect::StoreRemoveProcess(p.id)),
            ),
            (PurgeProcess::Removing, Reply::Unit) => (PurgeProcess::Over, Step::Done(Ok(()))),
            (PurgeProcess::Over, _) => (PurgeProcess::Over, Step::Stray),
            (_, Reply::Failed(e)) => (PurgeProcess::Over, Step::Done(Err(e))),
            (op, _) => (op, Step::Stray),
        }
    }
}

/// Purging touches no sandbox but the one of the process, and that one only where it belongs
/// to the process.
pub proof fn purge_spares_other_sandboxes(
    op: PurgeProcess,
    reply: Reply,
    next: PurgeProcess,
    step: Step<()>,
    before: StateModel,
    after: StateModel,
    process: ProcessInfo,
    other: u128,
)
    requires
        op.follows(reply, next, step, before, after),
        op.about(process),
        other != process.sandbox_id.0 || !process.destroy_sandbox_on_expiry,
    ensures
        after.sandboxes.contains_key(other) == before.sandboxes.contains_key(other),
        before.sandboxes.contains_key(other) ==> after.sandboxes[other] == before.sandboxes[other],
        next.about(process),
        step matches Step::Ask(Effect::BackendDestroy(id)) ==> id == process.sandbox_id
            && process.destroy_sandbox_on_expiry,
        step matches Step::Ask(Effect::StoreRemoveProcess(id)) ==> id == process.id,
{
}

impl PurgeProcess {
    /// The operation is about this process, and has reached only what that process allows.
    pub open spec fn about(self, process: ProcessInfo) -> bool {
        match self {
            PurgeProcess::Inspecting(p) => p == process,
            PurgeProcess::Destroying(p) => p == process && p.destroy_sandbox_on_expiry,
            PurgeProcess::Unbinding(p) => p == process && p.destroy_sandbox_on_expiry,
            PurgeProcess::Deactivating(p) => p == process && p.destroy_sandbox_on_expiry,
            PurgeProcess::Sweeping(p) => p == process && !p.destroy_sandbox_on_expiry,
            PurgeProcess::Removing => true,
            PurgeProcess::Over => true,
        }
    }
}

/// The time that a process was kept for is over.
pub open spec fn expired(p: ProcessModel, now: TimeModel) -> bool {
    p.expires_at matches Some(t) && !now.before(t)
}

fn has_expired(p: &ProcessInfo, now: &Timestamp) -> (r: bool)
    ensures
        r == expired(p@, now@),
{
    match p.expires_at {
        Some(t) => t.at_or_before(now),
        None => false,
    }
}

/// The first process of a list that is due, and what comes after it.
pub open spec fn first_due(list: Seq<ProcessInfo>, due: spec_fn(ProcessModel) -> bool) -> int
    decreases list.len(),
{
    if list.len() == 0 {
        0
    } else if due(list[0]@) {
        0
    } else {
        1 + first_due(list.subrange(1, list.len() as int), due)
    }
}

pub(crate) proof fn first_due_bounds(list: Seq<ProcessInfo>, due: spec_fn(ProcessModel) -> bool)
    ensures
        0 <= first_due(list, due) <= list.len(),
        forall|i: int| 0 <= i < first_due(list, due) ==> !due((#[trigger] list[i])@),
        first_due(list, due) < list.len() ==> due(list[first_due(list, due)]@),
    decreases list.len(),
{
    if list.len() > 0 && !due(list[0]@) {
        let rest = list.subrange(1, list.len() as int);
        first_due_bounds(rest, due);
        assert forall|i: int| 0 <= i < first_due(list, due) implies !due((#[trigger] list[i])@) by {
            if i > 0 {
                assert(rest[i - 1] == list[i]);
            }
        }
    }
}

/// Removing the processes whose time is over.
#[derive(Debug)]
pub enum CleanupExpired {
    Listing(Timestamp),
    Purging(Timestamp, Vec<ProcessInfo>),
    Over,
}

impl CleanupExpired {
    /// One point in time decides over all processes.
    pub fn begin(now: Timestamp) -> (r: (Self, Step<()>))
        ensures
            r.0 == CleanupExpired::Listing(now),
            asks(r.1, Effect::StoreListProcesses),
    {
        (CleanupExpired::Listing(now), Step::Ask(Effect::StoreListProcesses))
    }

    /// The next process of a list whose time is over is purged; without one the work is done.
    pub open spec fn goes_on(
        list: Seq<ProcessInfo>,
        now: Timestamp,
        next: Self,
        step: Step<()>,
    ) -> bool {
        let k = first_due(list, |p: ProcessModel| expired(p, now@));
        if k < list.len() {
            &&& next matches CleanupExpired::Purging(t, rest)
            &&& t == now
            &&& rest@ == list.subrange(k + 1, list.len() as int)
            &&& asks(step, Effect::Purge(list[k]))
        } else {
            next is Over && step == Step::<()>::Done(Ok(()))
        }
    }

    pub open spec fn follows(
        self,
        reply: Reply,
        next: Self,
        step: Step<()>,
    ) -> bool {
        match (self, reply) {
            (CleanupExpired::Listing(now), Reply::Processes(list)) => Self::goes_on(
                list@,
                now,
                next,
                step,
            ),
            (CleanupExpired::Purging(now, rest), Reply::Unit) => Self::goes_on(
                rest@,
                now,
                next,
                step,
            ),
            (CleanupExpired::Over, _) => next is Over && step is Stray,
            (_, Reply::Failed(e)) => next is Over && fails(step, e),
            _ => next == self && step is Stray,
        }
    }

    fn go_on(list: Vec<ProcessInfo>, now: Timestamp) -> (r: (Self, Step<()>))
        ensures
            Self::goes_on(list@, now, r.0, r.1),
    {
        let ghost due = |p: ProcessModel| expired(p, now@);
        let mut rest = list;
        let ghost mut passed: int = 0;
        assert(list@.subrange(0, list@.len() as int) =~= list@);
        while rest.len() > 0
            invariant
                due == (|p: ProcessModel| expired(p, now@)),
                0 <= passed <= list@.len(),
                rest@ == list@.subrange(passed, list@.len() as int),
                first_due(list@, due) == passed + first_due(rest@, due),
            decreases rest@.len(),
        {
            let p = rest.remove(0);
            let ghost before = list@.subrange(passed, list@.len() as int);
            assert(rest@ =~= before.subrange(1, before.len() as int));
            assert(rest@ =~= list@.subrange(passed + 1, list@.len() as int));
            if has_expired(&p, &now) {
                return (CleanupExpired::Purging(now, rest), Step::Ask(Effect::Purge(p)));
            }
            proof {
                passed = passed + 1;
            }
        }
        (CleanupExpired::Over, Step::Done(Ok(())))
    }

    pub fn resume(self, reply: Reply) -> (r: (Self, Step<()>))
        ensures
            self.follows(reply, r.0, r.1),
    {
        match (self, reply) {
            (CleanupExpired::Listing(now), Reply::Processes(list)) => Self::go_on(list, now),
            (CleanupExpired::Purging(now, rest), Reply::Unit) => Self::go_on(rest, now),
            (CleanupExpired::Over, _) => (CleanupExpired::Over, Step::Stray),
            (_, Reply::Failed(e)) => (CleanupExpired::Over, Step::Done(Err(e))),
            (op, _) => (op, Step::Stray),
        }
    }
}

/// Cleaning up purges only processes whose time is over, all by the time at which it began.
pub proof fn cleanup_purges_only_expired(
    op: CleanupExpired,
    reply: Reply,
    next: CleanupExpired,
    step: Step<()>,
    now: Timestamp,
)
    requires
        op.follows(reply, next, step),
        op.judges_by(now),
    ensures
        next.judges_by(now),
        step matches Step::Ask(Effect::Purge(p)) ==> expired(p@, now@),
        step matches Step::Done(Ok(_)) ==> forall|i: int|
            0 <= i < op.pending(reply).len() ==> !expired(
                (#[trigger] op.pending(reply)[i])@,
                now@,
            ),
{
    first_due_bounds(op.pending(reply), |p: ProcessModel| expired(p, now@));
}

impl CleanupExpired {
    /// The processes that are still to be looked at when a reply comes.
    pub open spec fn pending(self, reply: Reply) -> Seq<ProcessInfo> {
        match (self, reply) {
            (CleanupExpired::Listing(_), Reply::Processes(list)) => list@,
            (CleanupExpired::Purging(_, rest), _) => rest@,
            _ => Seq::<ProcessInfo>::empty(),
        }
    }

    /// What is still to be looked at is judged by this time.
    pub open spec fn judges_by(self, now: Timestamp) -> bool {
        match self {
            CleanupExpired::Listing(t) => t == now,
            CleanupExpired::Purging(t, _) => t == now,
            CleanupExpired::Over => true,
        }
    }
}

/// Finding the process that runs in a sandbox.
#[derive(Debug)]
pub enum FindActiveProcess {
    Listing(SandboxId),
    Refreshing(SandboxId, Vec<ProcessInfo>),
    Over,
}

impl FindActiveProcess {
    pub fn begin(sandbox_id: SandboxId) -> (r: (Self, Step<Option<ProcessInfo>>))
        ensures
            r.0 == FindActiveProcess::Listing(sandbox_id),
            asks(r.1, Effect::StoreListProcesses),
    {
        (FindActiveProcess::Listing(sandbox_id), Step::Ask(Effect::StoreListProcesses))
    }

    /// The next process of the sandbox in a list is refreshed; without one there is none.
    pub open spec fn goes_on(
        id: SandboxId,
        list: Seq<ProcessInfo>,
        next: Self,
        step: Step<Option<ProcessInfo>>,
    ) -> bool {
        let k = first_due(list, |p: ProcessModel| p.sandbox_id == id);
        if k < list.len() {
            &&& next matches FindActiveProcess::Refreshing(i, rest)
            &&& i == id
            &&& rest@ == list.subrange(k + 1, list.len() as int)
            &&& asks(step, Effect::Refresh(list[k]))
        } else {
            next is Over && step == Step::<Option<ProcessInfo>>::Done(Ok(None))
        }
    }

    pub open spec fn follows(
        self,
        reply: Reply,
        next: Self,
        step: Step<Option<ProcessInfo>>,
    ) -> bool {
        match (self, reply) {
            (FindActiveProcess::Listing(id), Reply::Processes(list)) => Self::goes_on(
                id,
                list@,
                next,
                step,
            ),
            (FindActiveProcess::Refreshing(id, rest), Reply::Process(p)) => if p.status.terminal() {
                Self::goes_on(id, rest@, next, step)
            } else {
                next is Over && step == Step::<Option<ProcessInfo>>::Done(Ok(Some(p)))
            },
            (FindActiveProcess::Over, _) => next is Over && step is Stray,
            (_, Reply::Failed(e)) => next is Over && fails(step, e),
            _ => next == self && step is Stray,
        }
    }

    fn go_on(id: SandboxId, list: Vec<ProcessInfo>) -> (r: (Self, Step<Option<ProcessInfo>>))
        ensures
            Self::goes_on(id, list@, r.0, r.1),
    {
        let ghost due = |p: ProcessModel| p.sandbox_id == id;
        let mut rest = list;
        let ghost mut passed: int = 0;
        assert(list@.subrange(0, list@.len() as int) =~= list@);
        while rest.len() > 0
            invariant
                due == (|p: ProcessModel| p.sandbox_id == id),
                0 <= passed <= list@.len(),
                rest@ == list@.subrange(passed, list@.len() as int),
                first_due(list@, due) == passed + first_due(rest@, due),
            decreases rest@.len(),
        {
            let p = rest.remove(0);
            let ghost before = list@.subrange(passed, list@.len() as int);
            assert(rest@ =~= before.subrange(1, before.len() as int));
            assert(rest@ =~= list@.subrange(passed + 1, list@.len() as int));
            if p.sandbox_id == id {
                return (FindActiveProcess::Refreshing(id, rest), Step::Ask(Effect::Refresh(p)));
            }
            proof {
                passed = passed + 1;
            }
        }
        (FindActiveProcess::Over, Step::Done(Ok(None)))
    }

    pub fn resume(self, reply: Reply) -> (r: (Self, Step<Option<ProcessInfo>>))
        ensures
            self.follows(reply, r.0, r.1),
    {
        match (self, reply) {
            (FindActiveProcess::Listing(id), Reply::Processes(list)) => Self::go_on(id, list),
            (FindActiveProcess::Refreshing(id, rest), Reply::Process(p)) => {
                if p.status.is_terminal() {
                    Self::go_on(id, rest)
                } else {
                    (FindActiveProcess::Over, Step::Done(Ok(Some(p))))
                }
            },
            (FindActiveProcess::Over, _) => (FindActiveProcess::Over, Step::Stray),
            (_, Reply::Failed(e)) => (FindActiveProcess::Over, Step::Done(Err(e))),
            (op, _) => (op, Step::Stray),
        }
    }
}

pub open spec fn process_not_found(id: ProcessId) -> Seq<char> {
    "process not found: "@ + hyphenated(id.0)
}

/// Looking a process up.
#[derive(Debug)]
pub enum GetProcess {
    Hydrating(ProcessId),
    Cleaning(ProcessId),
    Reading(ProcessId),
    Refreshing,
    Over,
}

impl GetProcess {
    pub fn begin(id: ProcessId) -> (r: (Self, Step<ProcessInfo>))
        ensures
            r.0 == GetProcess::Hydrating(id),
            asks(r.1, Effect::EnsureHydrated),
    {
        (GetProcess::Hydrating(id), Step::Ask(Effect::EnsureHydrated))
    }

    pub open spec fn follows(self, reply: Reply, next: Self, step: Step<ProcessInfo>) -> bool {
        match (self, reply) {
            (GetProcess::Hydrating(id), Reply::Unit) => next == GetProcess::Cleaning(id) && asks(
                step,
                Effect::CleanupExpired,
            ),
            (GetProcess::Cleaning(id), Reply::Unit) => next == GetProcess::Reading(id) && asks(
                step,
                Effect::StoreGetProcess(id),
            ),
            (GetProcess::Reading(_), Reply::Process(p)) => next is Refreshing && asks(
                step,
                Effect::Refresh(p),
            ),
            (GetProcess::Reading(id), Reply::NoProcess) => next is Over && fails_with(
                step,
                process_not_found(id),
            ),
            (GetProcess::Refreshing, Reply::Process(p)) => next is Over && step == Step::<
                ProcessInfo,
            >::Done(Ok(p)),
            (GetProcess::Over, _) => next is Over && step is Stray,
            (_, Reply::Failed(e)) => next is Over && fails(step, e),
            _ => next == self && step is Stray,
        }
    }

    pub fn resume(self, reply: Reply) -> (r: (Self, Step<ProcessInfo>))
        ensures
            self.follows(reply, r.0, r.1),
    {
        match (self, reply) {
            (GetProcess::Hydrating(id), Reply::Unit) => (
                GetProcess::Cleaning(id),
                Step::Ask(Effect::CleanupExpired),
            ),
            (GetProcess::Cleaning(id), Reply::Unit) => (
                GetProcess::Reading(id),
                Step::Ask(Effect::StoreGetProcess(id)),
            ),
            (GetProcess::Reading(_), Reply::Process(p)) => (
                GetProcess::Refreshing,
                Step::Ask(Effect::Refresh(p)),
            ),
            (GetProcess::Reading(id), Reply::NoProcess) => {
                let text = id.text();
                let m = cat2("process not found: ", text.as_str());
                (GetProcess::Over, Step::Done(Err(HyperboxError::ExecutionFailed(m))))
            },
            (GetProcess::Refreshing, Reply::Process(p)) => (GetProcess::Over, Step::Done(Ok(p))),
            (GetProcess::Over, _) => (GetProcess::Over, Step::Stray),
            (_, Reply::Failed(e)) => (GetProcess::Over, Step::Done(Err(e))),
            (op, _) => (op, Step::Stray),
        }
    }
}

/// The order in which processes are listed: the one that started last comes first.
pub open spec fn started_later(a: ProcessInfo, b: ProcessInfo) -> bool {
    b.started_at@.before(a.started_at@)
}

pub open spec fn latest_first(list: Seq<ProcessInfo>) -> Seq<ProcessInfo> {
    ordered(list, |a: ProcessInfo, b: ProcessInfo| started_later(a, b))
}

fn sort_latest_first(list: Vec<ProcessInfo>) -> (r: Vec<ProcessInfo>)
    ensures
        r@ == latest_first(list@),
{
    let later = |a: &ProcessInfo, b: &ProcessInfo| -> (r: bool)
        ensures
            r == started_later(*a, *b),
    { !a.started_at.at_or_before(&b.started_at) };
    sort_stable(list, later, Ghost(|a: ProcessInfo, b: ProcessInfo| started_later(a, b)))
}

/// Sorting works on that order.
pub proof fn start_times_have_an_order()
    ensures
        crate::order::is_order(|a: ProcessInfo, b: ProcessInfo| started_later(a, b)),
{
}

/// Listing the processes.
#[derive(Debug)]
pub enum ListProcesses {
    Hydrating,
    Cleaning,
    Listing,
    Refreshing(Vec<ProcessInfo>, Vec<ProcessInfo>),
    Over,
}

impl ListProcesses {
    pub fn begin() -> (r: (Self, Step<Vec<ProcessInfo>>))
        ensures
            r.0 is Hydrating,
            asks(r.1, Effect::EnsureHydrated),
    {
        (ListProcesses::Hydrating, Step::Ask(Effect::EnsureHydrated))
    }

    /// With processes left the next one is refreshed; then those that could be refreshed are
    /// listed, the latest first.
    pub open spec fn goes_on(
        left: Seq<ProcessInfo>,
        fresh: Seq<ProcessInfo>,
        next: Self,
        step: Step<Vec<ProcessInfo>>,
    ) -> bool {
        if left.len() > 0 {
            &&& next matches ListProcesses::Refreshing(rest, kept)
            &&& rest@ == left.subrange(1, left.len() as int)
            &&& kept@ == fresh
            &&& asks(step, Effect::Refresh(left[0]))
        } else {
            &&& next is Over
            &&& step matches Step::Done(Ok(list))
            &&& list@ == latest_first(fresh)
        }
    }

    pub open spec fn follows(
        self,
        reply: Reply,
        next: Self,
        step: Step<Vec<ProcessInfo>>,
    ) -> bool {
        match (self, reply) {
            (ListProcesses::Hydrating, Reply::Unit) => next is Cleaning && asks(
                step,
                Effect::CleanupExpired,
            ),
            (ListProcesses::Cleaning, Reply::Unit) => next is Listing && asks(
                step,
                Effect::StoreListProcesses,
            ),
            (ListProcesses::Listing, Reply::Processes(list)) => Self::goes_on(
                list@,
                Seq::<ProcessInfo>::empty(),
                next,
                step,
            ),
            (ListProcesses::Refreshing(left, fresh), Reply::Process(p)) => Self::goes_on(
                left@,
                fresh@.push(p),
                next,
                step,
            ),
            (ListProcesses::Refreshing(left, fresh), Reply::Failed(_)) => Self::goes_on(
                left@,
                fresh@,
                next,
                step,
            ),
            (ListProcesses::Over, _) => next is Over && step is Stray,
            (_, Reply::Failed(e)) => next is Over && fails(step, e),
            _ => next == self && step is Stray,
        }
    }

    fn go_on(left: Vec<ProcessInfo>, fresh: Vec<ProcessInfo>) -> (r: (
        Self,
        Step<Vec<ProcessInfo>>,
    ))
        ensures
            Self::goes_on(left@, fresh@, r.0, r.1),
    {
        let mut left = left;
        if left.len() > 0 {
            let ghost all = left@;
            let p = left.remove(0);
            assert(left@ =~= all.subrange(1, all.len() as int));
            (ListProcesses::Refreshing(left, fresh), Step::Ask(Effect::Refresh(p)))
        } else {
            (ListProcesses::Over, Step::Done(Ok(sort_latest_first(fresh))))
        }
    }

    pub fn resume(self, reply: Reply) -> (r: (Self, Step<Vec<ProcessInfo>>))
        ensures
            self.follows(reply, r.0, r.1),
    {
        match (self, reply) {
            (ListProcesses::Hydrating, Reply::Unit) => (
                ListProcesses::Cleaning,
                Step::Ask(Effect::CleanupExpired),
            ),
            (ListProcesses::Cleaning, Reply::Unit) => (
                ListProcesses::Listing,
                Step::Ask(Effect::StoreListProcesses),
            ),
            (ListProcesses::Listing, Reply::Processes(list)) => Self::go_on(list, Vec::new()),
            (ListProcesses::Refreshing(left, fresh), Reply::Process(p)) => {
                let mut fresh = fresh;
                fresh.push(p);
                Self::go_on(left, fresh)
            },
            (ListProcesses::Refreshing(left, fresh), Reply::Failed(_)) => Self::go_on(left, fresh),
            (ListProcesses::Over, _) => (ListProcesses::Over, Step::Stray),
            (_, Reply::Failed(e)) => (ListProcesses::Over, Step::Done(Err(e))),
            (op, _) => (op, Step::Stray),
        }
    }
}

/// Waiting until a process is over.
#[derive(Debug, Clone, Copy, PartialEq, Eq, Structural)]
pub enum WaitProcess {
    Hydrating(ProcessId, u64),
    Looking(ProcessId, u64),
    Pausing(ProcessId, u64),
    Over,
}

/// The time to wait is over: at least a second is waited.
pub open spec fn wait_is_over(timeout_secs: u64, elapsed_ms: u64) -> bool {
    elapsed_ms >= 1000 * (if timeout_secs == 0 {
        1
    } else {
        timeout_secs as int
    })
}

pub open spec fn poll_pause(elapsed_ms: u64) -> u64 {
    if elapsed_ms < 1000 {
        25
    } else {
        100
    }
}

impl WaitProcess {
    pub fn begin(id: ProcessId, timeout_secs: u64) -> (r: (Self, Step<ProcessInfo>))
        ensures
            r.0 == WaitProcess::Hydrating(id, timeout_secs),
            asks(r.1, Effect::EnsureHydrated),
    {
        (WaitProcess::Hydrating(id, timeout_secs), Step::Ask(Effect::EnsureHydrated))
    }

    /// What a reply leads to, some milliseconds after the wait began. A process that is over
    /// is handed out even when the time is up.
    pub open spec fn follows(
        self,
        reply: Reply,
        elapsed_ms: u64,
        next: Self,
        step: Step<ProcessInfo>,
    ) -> bool {
        match (self, reply) {
            (WaitProcess::Hydrating(id, t), Reply::Unit) => next == WaitProcess::Looking(id, t)
                && asks(step, Effect::GetProcess(id)),
            (WaitProcess::Looking(id, t), Reply::Process(p)) => if p.status.terminal() {
                next is Over && step == Step::<ProcessInfo>::Done(Ok(p))
            } else if wait_is_over(t, elapsed_ms) {
                next is Over && fails_with(
                    step,
                    "timed out waiting for process "@ + hyphenated(id.0),
                )
            } else {
                next == WaitProcess::Pausing(id, t) && asks(
                    step,
                    Effect::Pause(poll_pause(elapsed_ms)),
                )
            },
            (WaitProcess::Pausing(id, t), Reply::Unit) => next == WaitProcess::Looking(id, t)
                && asks(step, Effect::GetProcess(id)),
            (WaitProcess::Over, _) => next is Over && step is Stray,
            (_, Reply::Failed(e)) => next is Over && fails(step, e),
            _ => next == self && step is Stray,
        }
    }

    pub fn resume(self, reply: Reply, elapsed_ms: u64) -> (r: (Self, Step<ProcessInfo>))
        ensures
            self.follows(reply, elapsed_ms, r.0, r.1),
    {
        match (self, reply) {
            (WaitProcess::Hydrating(id, t), Reply::Unit) => (
                WaitProcess::Looking(id, t),
                Step::Ask(Effect::GetProcess(id)),
            ),
            (WaitProcess::Looking(id, t), Reply::Process(p)) => {
                if p.status.is_terminal() {
                    return (WaitProcess::Over, Step::Done(Ok(p)));
                }
                let secs: u128 = if t == 0 {
                    1
                } else {
                    t as u128
                };
                if elapsed_ms as u128 >= secs * 1000 {
                    let text = id.text();
                    let m = cat2("timed out waiting for process ", text.as_str());
                    return (WaitProcess::Over, Step::Done(Err(HyperboxError::ExecutionFailed(m))));
                }
                (
                    WaitProcess::Pausing(id, t),
                    Step::Ask(Effect::Pause(process_wait_poll_interval(elapsed_ms))),
                )
            },
            (WaitProcess::Pausing(id, t), Reply::Unit) => (
                WaitProcess::Looking(id, t),
                Step::Ask(Effect::GetProcess(id)),
            ),
            (WaitProcess::Over, _) => (WaitProcess::Over, Step::Stray),
            (_, Reply::Failed(e)) => (WaitProcess::Over, Step::Done(Err(e))),
            (op, _) => (op, Step::Stray),
        }
    }
}

/// Ending a process before its time.
#[derive(Debug)]
pub enum CancelProcess {
    Hydrating(ProcessId),
    Looking(ProcessId),
    Marking(ProcessInfo),
    Killing(ProcessId),
    Watching(ProcessId),
    Pausing(ProcessId),
    Over,
}

impl CancelProcess {
    pub fn begin(id: ProcessId) -> (r: (Self, Step<ProcessInfo>))
        ensures
            r.0 == CancelProcess::Hydrating(id),
            asks(r.1, Effect::EnsureHydrated),
    {
        (CancelProcess::Hydrating(id), Step::Ask(Effect::EnsureHydrated))
    }

    /// What a reply leads to, some milliseconds after the processes were told to end. The mark
    /// of the cancellation is written before anything is killed.
    pub open spec fn follows(
        self,
        reply: Reply,
        elapsed_ms: u64,
        next: Self,
        step: Step<ProcessInfo>,
    ) -> bool {
        match (self, reply) {
            (CancelProcess::Hydrating(id), Reply::Unit) => next == CancelProcess::Looking(id)
                && asks(step, Effect::GetProcess(id)),
            (CancelProcess::Looking(_), Reply::Process(p)) => if p.status.terminal() {
                next is Over && step == Step::<ProcessInfo>::Done(Ok(p))
            } else {
                &&& next == CancelProcess::Marking(p)
                &&& step matches Step::Ask(Effect::WriteFile(id, file))
                &&& id == p.sandbox_id
                &&& file.path@ == dir_of(p.id) + "/cancelled"@
                &&& file.bytes@ == Seq::<u8>::empty()
            },
            (CancelProcess::Marking(p), Reply::Unit) => next == CancelProcess::Killing(p.id)
                && asks_exec(step, p.sandbox_id, shell_model(kill_script(p.id), 5)),
            (CancelProcess::Killing(id), Reply::Outcome(_)) => next == CancelProcess::Watching(id)
                && asks(step, Effect::GetProcess(id)),
            (CancelProcess::Watching(id), Reply::Process(p)) => if p.status.terminal() {
                next is Over && step == Step::<ProcessInfo>::Done(Ok(p))
            } else if elapsed_ms >= 5000 {
                next is Over && fails_with(
                    step,
                    "timed out cancelling process "@ + hyphenated(id.0),
                )
            } else {
                next == CancelProcess::Pausing(id) && asks(step, Effect::Pause(100))
            },
            (CancelProcess::Pausing(id), Reply::Unit) => next == CancelProcess::Watching(id)
                && asks(step, Effect::GetProcess(id)),
            (CancelProcess::Over, _) => next is Over && step is Stray,
            (_, Reply::Failed(e)) => next is Over && fails(step, e),
            _ => next == self && step is Stray,
        }
    }

    pub fn resume(self, reply: Reply, elapsed_ms: u64) -> (r: (Self, Step<ProcessInfo>))
        ensures
            self.follows(reply, elapsed_ms, r.0, r.1),
    {
        match (self, reply) {
            (CancelProcess::Hydrating(id), Reply::Unit) => (
                CancelProcess::Looking(id),
                Step::Ask(Effect::GetProcess(id)),
            ),
            (CancelProcess::Looking(_), Reply::Process(p)) => {
                if p.status.is_terminal() {
                    return (CancelProcess::Over, Step::Done(Ok(p)));
                }
                let file = FilePayload { path: process_cancel_path(&p.id), bytes: Vec::new() };
                let id = p.sandbox_id;
                (CancelProcess::Marking(p), Step::Ask(Effect::WriteFile(id, file)))
            },
            (CancelProcess::Marking(p), Reply::Unit) => {
                let script = cancel_script(&p);
                (
                    CancelProcess::Killing(p.id),
                    Step::Ask(Effect::Exec(p.sandbox_id, ExecRequest::shell(script, 5))),
                )
            },
            (CancelProcess::Killing(id), Reply::Outcome(_)) => (
                CancelProcess::Watching(id),
                Step::Ask(Effect::GetProcess(id)),
            ),
            (CancelProcess::Watching(id), Reply::Process(p)) => {
                if p.status.is_terminal() {
                    return (CancelProcess::Over, Step::Done(Ok(p)));
                }
                if elapsed_ms >= 5000 {
                    let text = id.text();
                    let m = cat2("timed out cancelling process ", text.as_str());
                    return (
                        CancelProcess::Over,
                        Step::Done(Err(HyperboxError::ExecutionFailed(m))),
                    );
                }
                (CancelProcess::Pausing(id), Step::Ask(Effect::Pause(100)))
            },
            (CancelProcess::Pausing(id), Reply::Unit) => (
                CancelProcess::Watching(id),
                Step::Ask(Effect::GetProcess(id)),
            ),
            (CancelProcess::Over, _) => (CancelProcess::Over, Step::Stray),
            (_, Reply::Failed(e)) => (CancelProcess::Over, Step::Done(Err(e))),
            (op, _) => (op, Step::Stray),
        }
    }
}

/// Only a process that is over is handed out by a wait or a cancellation.
pub proof fn waits_end_with_a_finished_process(
    wait: WaitProcess,
    cancel: CancelProcess,
    reply: Reply,
    elapsed_ms: u64,
    next_wait: WaitProcess,
    next_cancel: CancelProcess,
    wait_step: Step<ProcessInfo>,
    cancel_step: Step<ProcessInfo>,
)
    requires
        wait.follows(reply, elapsed_ms, next_wait, wait_step),
        cancel.follows(reply, elapsed_ms, next_cancel, cancel_step),
    ensures
        wait_step matches Step::Done(Ok(p)) ==> p.status.terminal(),
        cancel_step matches Step::Done(Ok(p)) ==> p.status.terminal(),
{
}

/// A process that has ended is kept for as many days as it is to be kept, and is due from then on
/// and not before.
pub proof fn ended_processes_are_due_after_their_days(
    p: ProcessModel,
    status: ProcessStatus,
    code: Option<i32>,
    at: TimeModel,
    days: int,
    now: TimeModel,
)
    requires
        p.expires_at is None,
        p.finished_at is None,
        days >= 0,
        at.nanos < 1_000_000_000,
    ensures
        ({
            let q = ended(p, status, code, at, at.days_later(days));
            &&& q.status == status && q.exit_code == code
            &&& q.finished_at == Some(at)
            &&& !expired(p, now)
            &&& now.secs < at.secs + days * 86_400 ==> !expired(q, now)
            &&& now.secs > at.secs + days * 86_400 ==> expired(q, now)
            &&& now.secs == at.secs + days * 86_400 ==> (expired(q, now) <==> now.nanos >= at.nanos)
        }),
{
}

} // verus!
