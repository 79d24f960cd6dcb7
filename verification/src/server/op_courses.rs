//! The operations of the server from their beginning to their end: what they come to by what they
//! hear.

use crate::config::{ConfigModel, SandboxConfig};
use crate::error::HyperboxError;
use crate::model::{SandboxId, SandboxInfo};
use crate::order::ordered_is_sorted;
use crate::process::{ProcessId, ProcessInfo, ProcessModel, ProcessStatus};
use crate::server::effects::{
    comes_to, goes_through, Effect, Exchange, Operation, PreparedRunSandbox, ProcessStart, Reply,
    Step,
};
use crate::server::launch::StartProcess;
use crate::server::lifecycle::{
    creation_times_have_an_order, made_earlier, oldest_first, ActiveSandboxInfo, CreateSnapshot,
    DestroySandbox, ResolveAffinity, RestoreSnapshot,
};
use crate::server::managed::{dir_of, kill_script, launch_script};
use crate::server::processes::{
    first_due_bounds, latest_first, start_times_have_an_order, started_later, CancelProcess, Clock,
    ListProcesses, WaitProcess,
};
use crate::server::run::{ensure_script, PrepareRun, RunEnsure};
use crate::server::state::StateModel;
use crate::snapshot::{SnapshotId, SnapshotMetadata};
use crate::text::views;
use vstd::prelude::*;

verus! {

/// A sandbox that is idle is the one that a run takes place in. In place of a busy one a new one
/// is made, like it but without its name, where that is wanted; else the run is refused.
pub proof fn runs_go_where_there_is_room(
    id: SandboxId,
    overflow: Option<SandboxConfig>,
    exchanges: Seq<Exchange<()>>,
    end: Result<PreparedRunSandbox, HyperboxError>,
)
    requires
        comes_to(
            PrepareRun::Hydrating(id, overflow),
            Step::Ask(Effect::EnsureHydrated),
            exchanges,
            end,
        ),
        exchanges.len() > 2,
        exchanges[2].reply is NoProcess || exchanges[2].reply is Process,
    ensures
        exchanges[2].effect == Effect::FindActiveProcess(id),
        exchanges.len() == 4,
        exchanges[2].reply is NoProcess ==> {
            &&& exchanges[3].effect == Effect::Inspect(id)
            &&& end matches Ok(p) ==> exchanges[3].reply == Reply::Info(p.info)
                && p.requested_sandbox_id is None && p.disposition is ReusedExisting
            &&& exchanges[3].reply is Info ==> end is Ok
        },
        exchanges[2].reply is Process ==> match overflow {
            None => end is Err,
            Some(config) => {
                &&& exchanges[3].effect matches Effect::CreateSandbox(c)
                &&& c@ == (ConfigModel { affinity_name: None, ..config@ })
                &&& end matches Ok(p) ==> exchanges[3].reply == Reply::Info(p.info)
                    && p.requested_sandbox_id == Some(id) && p.disposition is CreatedDueToBusy
                &&& exchanges[3].reply is Info ==> end is Ok
            },
        },
{
    let begin = PrepareRun::Hydrating(id, overflow);
    let hydrate = Step::<PreparedRunSandbox>::Ask(Effect::EnsureHydrated);
    let (a, s) = goes_through(begin, hydrate, exchanges, end);
    let e1 = exchanges.drop_first();
    assert(s is Ask);
    let (b, t) = goes_through(a, s, e1, end);
    assert(e1[0] == exchanges[1]);
    let e2 = e1.drop_first();
    assert(t is Ask);
    let (c, u) = goes_through(b, t, e2, end);
    assert(e2[0] == exchanges[2]);
    let e3 = e2.drop_first();
    let (d, v) = goes_through(c, u, e3, end);
    assert(e3[0] == exchanges[3]);
    assert(e3.drop_first().len() == 0);
}

/// A command for a sandbox.
pub open spec fn is_script(effect: Effect, id: SandboxId, script: Seq<char>) -> bool {
    effect matches Effect::Exec(to, request) && to == id && request@.command == seq![
        "/bin/sh"@,
        "-lc"@,
        script,
    ]
}

/// A process that is started is recorded first, in a sandbox that runs none; then it is launched
/// there by its script; and it runs where the launch succeeds. Where the launch fails, the process
/// is recorded as one that has failed with that code, and the start fails.
pub proof fn processes_are_recorded_and_launched(
    start: ProcessStart,
    exchanges: Seq<Exchange<Clock>>,
    end: Result<ProcessInfo, HyperboxError>,
)
    requires
        comes_to(
            StartProcess::Hydrating(start),
            Step::Ask(Effect::EnsureHydrated),
            exchanges,
            end,
        ),
        exchanges.len() > 4,
    ensures
        start.command@.len() > 0,
        exchanges[2].effect == Effect::FindActiveProcess(start.sandbox_id),
        exchanges[2].reply is NoProcess,
        exchanges[3].effect matches Effect::StoreUpsertProcess(p) && {
            &&& p@.sandbox_id == start.sandbox_id
            &&& p@.requested_sandbox_id == start.requested_sandbox_id
            &&& p@.disposition == start.disposition
            &&& p@.destroy_sandbox_on_expiry == start.destroy_sandbox_on_expiry
            &&& p@.command == views(start.command@)
            &&& p@.status is Starting
            &&& p@.started_at == exchanges[2].world.now@
            &&& p@.finished_at is None
            &&& p@.exit_code is None
            &&& is_script(exchanges[4].effect, p@.sandbox_id, launch_script(p@.id, p@.command))
            &&& exchanges[4].reply matches Reply::Outcome(o) ==> exchanges.len() == 6 && (
            exchanges[5].effect matches Effect::StoreUpsertProcess(q) && if o.exit_code == 0 {
                &&& q@ == (ProcessModel { status: ProcessStatus::Running, ..p@ })
                &&& end matches Ok(r) ==> r@ == q@
                &&& exchanges[5].reply is Unit ==> end is Ok
            } else {
                &&& q@.status is Failed
                &&& q@.exit_code == Some(o.exit_code)
                &&& q@.finished_at == Some(exchanges[4].world.now@)
                &&& q@.expires_at == Some(exchanges[4].world.expiry())
                &&& q@.id == p@.id
                &&& end is Err
            })
        },
{
    let begin = StartProcess::Hydrating(start);
    let hydrate = Step::<ProcessInfo>::Ask(Effect::EnsureHydrated);
    let (a, s) = goes_through(begin, hydrate, exchanges, end);
    let e1 = exchanges.drop_first();
    assert(s is Ask);
    let (b, t) = goes_through(a, s, e1, end);
    assert(e1[0] == exchanges[1]);
    let e2 = e1.drop_first();
    assert(t is Ask);
    let (c, u) = goes_through(b, t, e2, end);
    assert(e2[0] == exchanges[2]);
    let e3 = e2.drop_first();
    assert(u is Ask);
    let (d, v) = goes_through(c, u, e3, end);
    assert(e3[0] == exchanges[3]);
    let e4 = e3.drop_first();
    assert(v is Ask);
    let (e, w) = goes_through(d, v, e4, end);
    assert(e4[0] == exchanges[4]);
    let p = c->Recording_0;
    assert(p@.id == p.id && p@.sandbox_id == p.sandbox_id);
    let e5 = e4.drop_first();
    if w is Ask {
        let (f, x) = goes_through(e, w, e5, end);
        assert(e5[0] == exchanges[5]);
        assert(e5.drop_first().len() == 0);
    }
}

/// A process that runs is cancelled by a mark in its directory, which a probe looks for, and after
/// that by the script that ends it, both in its own sandbox.
pub proof fn running_processes_are_marked_and_ended(
    id: ProcessId,
    exchanges: Seq<Exchange<u64>>,
    end: Result<ProcessInfo, HyperboxError>,
)
    requires
        comes_to(
            CancelProcess::Hydrating(id),
            Step::Ask(Effect::EnsureHydrated),
            exchanges,
            end,
        ),
        exchanges.len() > 2,
    ensures
        exchanges[1].effect == Effect::GetProcess(id),
        exchanges[1].reply matches Reply::Process(p) && {
            &&& !p.status.terminal()
            &&& exchanges[2].effect matches Effect::WriteFile(to, file)
            &&& to == p.sandbox_id
            &&& file.path@ == dir_of(p.id) + "/cancelled"@
            &&& exchanges[2].reply is Unit ==> exchanges.len() > 3 && is_script(
                exchanges[3].effect,
                p.sandbox_id,
                kill_script(p.id),
            )
            &&& !(exchanges[2].reply is Unit) ==> end is Err
        },
{
    let begin = CancelProcess::Hydrating(id);
    let hydrate = Step::<ProcessInfo>::Ask(Effect::EnsureHydrated);
    let (a, s) = goes_through(begin, hydrate, exchanges, end);
    let e1 = exchanges.drop_first();
    assert(s is Ask);
    let (b, t) = goes_through(a, s, e1, end);
    assert(e1[0] == exchanges[1]);
    let e2 = e1.drop_first();
    assert(t is Ask);
    let (c, u) = goes_through(b, t, e2, end);
    assert(e2[0] == exchanges[2]);
    let e3 = e2.drop_first();
    if u is Ask {
        let (d, v) = goes_through(c, u, e3, end);
        assert(e3[0] == exchanges[3]);
    }
}

impl Operation for WaitProcess {
    type Output = ProcessInfo;

    /// The milliseconds since the wait began.
    type World = u64;

    open spec fn moves(
        self,
        reply: Reply,
        world: u64,
        next: Self,
        step: Step<ProcessInfo>,
    ) -> bool {
        self.follows(reply, world, next, step)
    }
}

/// An exchange of a wait: the process is looked at, or some milliseconds go by, few of them at
/// first.
pub open spec fn is_wait(exchanges: Seq<Exchange<u64>>, i: int, id: ProcessId) -> bool {
    match exchanges[i].effect {
        Effect::EnsureHydrated => i == 0,
        Effect::GetProcess(asked) => asked == id,
        Effect::Pause(ms) => i > 0 && ms == (if exchanges[i - 1].world < 1000 {
            25u64
        } else {
            100u64
        }),
        _ => false,
    }
}

proof fn wait_goes_on(
    op: WaitProcess,
    step: Step<ProcessInfo>,
    id: ProcessId,
    timeout_secs: u64,
    all: Seq<Exchange<u64>>,
    k: int,
    end: Result<ProcessInfo, HyperboxError>,
)
    requires
        0 <= k <= all.len(),
        comes_to(op, step, all.skip(k), end),
        match op {
            WaitProcess::Hydrating(i, t) => i == id && t == timeout_secs && k == 0 && step == Step::<
                ProcessInfo,
            >::Ask(Effect::EnsureHydrated),
            WaitProcess::Looking(i, t) => i == id && t == timeout_secs && step == Step::<
                ProcessInfo,
            >::Ask(Effect::GetProcess(id)),
            WaitProcess::Pausing(i, t) => i == id && t == timeout_secs && k > 0 && step == Step::<
                ProcessInfo,
            >::Ask(
                Effect::Pause(
                    if all[k - 1].world < 1000 {
                        25u64
                    } else {
                        100u64
                    },
                ),
            ),
            WaitProcess::Over => false,
        },
    ensures
        forall|i: int| k <= i < all.len() ==> #[trigger] is_wait(all, i, id),
        all.len() > k,
        end matches Ok(p) ==> p.status.terminal() && all.last().effect == Effect::GetProcess(id)
            && all.last().reply == Reply::Process(p),
        end is Err ==> all.last().reply is Failed || (all.last().world >= 1000 && all.last().world
            >= 1000 * timeout_secs && (all.last().reply matches Reply::Process(p)
            && !p.status.terminal())),
    decreases all.len() - k,
{
    let rest = all.skip(k);
    let (next, s) = goes_through(op, step, rest, end);
    assert(rest[0] == all[k]);
    assert(rest.drop_first() =~= all.skip(k + 1));
    assert(is_wait(all, k, id));
    if s is Ask {
        wait_goes_on(next, s, id, timeout_secs, all, k + 1, end);
    } else {
        assert(all.skip(k + 1).len() == 0);
        assert(all.last() == all[k]);
    }
}

/// A wait looks at its process again and again, and ends with it once it is over. It gives up only
/// where its time is up, which is a second at least, and the process still runs then.
pub proof fn waits_last_until_the_process_is_over(
    id: ProcessId,
    timeout_secs: u64,
    exchanges: Seq<Exchange<u64>>,
    end: Result<ProcessInfo, HyperboxError>,
)
    requires
        comes_to(
            WaitProcess::Hydrating(id, timeout_secs),
            Step::Ask(Effect::EnsureHydrated),
            exchanges,
            end,
        ),
    ensures
        exchanges.len() > 0,
        forall|i: int| 0 <= i < exchanges.len() ==> #[trigger] is_wait(exchanges, i, id),
        end matches Ok(p) ==> p.status.terminal() && exchanges.last().effect == Effect::GetProcess(
            id,
        ) && exchanges.last().reply == Reply::Process(p),
        end is Err ==> exchanges.last().reply is Failed || (exchanges.last().world >= 1000
            && exchanges.last().world >= 1000 * timeout_secs && (exchanges.last().reply
            matches Reply::Process(p) && !p.status.terminal())),
{
    assert(exchanges.skip(0) =~= exchanges);
    wait_goes_on(
        WaitProcess::Hydrating(id, timeout_secs),
        Step::Ask(Effect::EnsureHydrated),
        id,
        timeout_secs,
        exchanges,
        0,
        end,
    );
}

impl Operation for CreateSnapshot {
    type Output = SnapshotMetadata;

    type World = StateModel;

    open spec fn moves(
        self,
        reply: Reply,
        world: StateModel,
        next: Self,
        step: Step<SnapshotMetadata>,
    ) -> bool {
        self.follows(reply, next, step, world)
    }
}

/// A snapshot is recorded with the settings that the server knows of the sandbox and with its note,
/// and holds that sandbox; where the sandbox has a name, the name stands for the snapshot then.
pub proof fn snapshots_hold_their_sandbox(
    id: SandboxId,
    note: Option<String>,
    exchanges: Seq<Exchange<StateModel>>,
    snapshot: SnapshotMetadata,
)
    requires
        comes_to(
            CreateSnapshot::Hydrating(id, note),
            Step::Ask(Effect::EnsureHydrated),
            exchanges,
            Ok(snapshot),
        ),
    ensures
        exchanges.len() >= 3,
        exchanges[0].world.sandboxes.contains_key(id.0),
        exchanges[1].effect matches Effect::StoreCreateSnapshot(of, config, n) && of == id
            && config@ == exchanges[0].world.sandboxes[id.0] && n == note,
        exchanges[1].reply == Reply::Snapshot(snapshot),
        exchanges[2].effect == Effect::SaveArtifact(id, snapshot.id),
        exchanges[2].reply is Unit,
        match exchanges[0].world.sandboxes[id.0].affinity_name {
            Some(name) => exchanges.len() == 4 && (exchanges[3].effect
                matches Effect::StoreSetAffinitySnapshot(n, s) && n@ == name && s == snapshot.id),
            None => exchanges.len() == 3,
        },
{
    let begin = CreateSnapshot::Hydrating(id, note);
    let hydrate = Step::<SnapshotMetadata>::Ask(Effect::EnsureHydrated);
    let end = Ok::<SnapshotMetadata, HyperboxError>(snapshot);
    let (a, s) = goes_through(begin, hydrate, exchanges, end);
    let e1 = exchanges.drop_first();
    assert(s is Ask);
    let (b, t) = goes_through(a, s, e1, end);
    assert(e1[0] == exchanges[1]);
    let e2 = e1.drop_first();
    assert(t is Ask);
    let (c, u) = goes_through(b, t, e2, end);
    assert(e2[0] == exchanges[2]);
    let e3 = e2.drop_first();
    if u is Ask {
        let (d, v) = goes_through(c, u, e3, end);
        assert(e3[0] == exchanges[3]);
        assert(e3.drop_first().len() == 0);
    } else {
        assert(e3.len() == 0);
    }
}

impl Operation for RestoreSnapshot {
    type Output = SandboxInfo;

    /// What the server remembers before and after.
    type World = (StateModel, StateModel);

    open spec fn moves(
        self,
        reply: Reply,
        world: (StateModel, StateModel),
        next: Self,
        step: Step<SandboxInfo>,
    ) -> bool {
        self.follows(reply, next, step, world.0, world.1)
    }
}

/// A sandbox is restored from the file of its snapshot, with the settings that are recorded of it.
/// It takes over their name where they have one, and is known under them.
pub proof fn sandboxes_are_restored_as_they_were(
    id: SnapshotId,
    exchanges: Seq<Exchange<(StateModel, StateModel)>>,
    info: SandboxInfo,
)
    requires
        comes_to(
            RestoreSnapshot::Hydrating(id),
            Step::Ask(Effect::EnsureHydrated),
            exchanges,
            Ok(info),
        ),
    ensures
        exchanges.len() >= 5,
        exchanges[1].effect == Effect::StoreGetSnapshot(id),
        exchanges[2].effect == Effect::FindArtifact(id),
        exchanges[2].reply matches Reply::Artifact(_, there) && there,
        exchanges[1].reply matches Reply::Snapshot(s) && {
            &&& exchanges[3].effect matches Effect::RestoreArtifact(of, config)
            &&& of == id
            &&& config@ == s.config@
            &&& exchanges[3].reply matches Reply::Lease(lease)
            &&& lease.info == info
            &&& s.config@.affinity_name matches Some(name) ==> (exchanges[4].effect
                matches Effect::StoreBind(n, to) && n@ == name && to == lease.id)
            &&& s.config@.affinity_name is None ==> exchanges.len() == 5
            &&& exchanges.last().world.1.sandboxes.contains_key(lease.id.0)
            &&& exchanges.last().world.1.sandboxes[lease.id.0] == s.config@
            &&& exchanges.last().effect matches Effect::StoreUpsertActive(to, c, _)
            &&& to == lease.id
            &&& c@ == s.config@
        },
{
    let begin = RestoreSnapshot::Hydrating(id);
    let hydrate = Step::<SandboxInfo>::Ask(Effect::EnsureHydrated);
    let end = Ok::<SandboxInfo, HyperboxError>(info);
    let (a, s) = goes_through(begin, hydrate, exchanges, end);
    let e1 = exchanges.drop_first();
    assert(s is Ask);
    let (b, t) = goes_through(a, s, e1, end);
    assert(e1[0] == exchanges[1]);
    let e2 = e1.drop_first();
    assert(t is Ask);
    let (c, u) = goes_through(b, t, e2, end);
    assert(e2[0] == exchanges[2]);
    let e3 = e2.drop_first();
    assert(u is Ask);
    let (d, v) = goes_through(c, u, e3, end);
    assert(e3[0] == exchanges[3]);
    let e4 = e3.drop_first();
    assert(v is Ask);
    let (e, w) = goes_through(d, v, e4, end);
    assert(e4[0] == exchanges[4]);
    let e5 = e4.drop_first();
    if w is Ask {
        let (f, x) = goes_through(e, w, e5, end);
        assert(e5[0] == exchanges[5]);
        assert(e5.drop_first().len() == 0);
        assert(exchanges.last() == exchanges[5]);
    } else {
        assert(e5.len() == 0);
        assert(exchanges.last() == exchanges[4]);
    }
}

/// A name is resolved to the sandbox that it is bound to while that is there, or else to one that
/// is restored from its snapshot, where that is wanted.
pub proof fn names_lead_to_their_sandbox(
    name: String,
    restore: bool,
    exchanges: Seq<Exchange<()>>,
    found: (SandboxInfo, bool),
)
    requires
        comes_to(
            ResolveAffinity::Hydrating(name, restore),
            Step::Ask(Effect::EnsureHydrated),
            exchanges,
            Ok(found),
        ),
    ensures
        exchanges.len() >= 3,
        exchanges[1].effect matches Effect::StoreGetAffinity(n) && n@ == name@,
        exchanges[1].reply matches Reply::Affinity(a) && if !found.1 {
            &&& a.sandbox_id matches Some(id)
            &&& exchanges.len() == 3
            &&& exchanges[2].effect == Effect::Inspect(id)
            &&& exchanges[2].reply == Reply::Info(found.0)
        } else {
            &&& restore
            &&& a.snapshot_id matches Some(s)
            &&& exchanges.last().effect == Effect::RestoreSnapshot(s)
            &&& exchanges.last().reply == Reply::Info(found.0)
            &&& a.sandbox_id matches Some(id) ==> exchanges[2].effect == Effect::Inspect(id)
                && exchanges[2].reply is Failed && exchanges[3].effect
                == Effect::StoreClearBinding(id)
        },
{
    let begin = ResolveAffinity::Hydrating(name, restore);
    let hydrate = Step::<(SandboxInfo, bool)>::Ask(Effect::EnsureHydrated);
    let end = Ok::<(SandboxInfo, bool), HyperboxError>(found);
    let (a, s) = goes_through(begin, hydrate, exchanges, end);
    let e1 = exchanges.drop_first();
    assert(s is Ask);
    let (b, t) = goes_through(a, s, e1, end);
    assert(e1[0] == exchanges[1]);
    let e2 = e1.drop_first();
    assert(t is Ask);
    let (c, u) = goes_through(b, t, e2, end);
    assert(e2[0] == exchanges[2]);
    let e3 = e2.drop_first();
    if u is Ask {
        let (d, v) = goes_through(c, u, e3, end);
        assert(e3[0] == exchanges[3]);
        let e4 = e3.drop_first();
        if v is Ask {
            let (e, w) = goes_through(d, v, e4, end);
            assert(e4[0] == exchanges[4]);
            assert(e4.drop_first().len() == 0);
            assert(exchanges.last() == exchanges[4]);
        } else {
            assert(e4.len() == 0);
            assert(exchanges.last() == exchanges[3]);
        }
    } else {
        assert(e3.len() == 0);
        assert(exchanges.last() == exchanges[2]);
    }
}

/// The processes of a list, the latest first: none stands behind one that started before it, and
/// they are the same ones.
pub proof fn processes_are_listed_latest_first(list: Seq<ProcessInfo>)
    ensures
        ({
            let out = latest_first(list);
            &&& out.to_multiset() == list.to_multiset()
            &&& forall|i: int, j: int|
                0 <= i < j < out.len() ==> !(#[trigger] out[i]).started_at@.before(
                    (#[trigger] out[j]).started_at@,
                )
        }),
{
    let later = |a: ProcessInfo, b: ProcessInfo| started_later(a, b);
    start_times_have_an_order();
    ordered_is_sorted(list, later);
    let out = latest_first(list);
    assert forall|i: int, j: int| 0 <= i < j < out.len() implies !(
    #[trigger] out[i]).started_at@.before((#[trigger] out[j]).started_at@) by {
        assert(!later(out[j], out[i]));
    }
}

/// The sandboxes of a list, the oldest first: none stands behind one that was made after it.
pub proof fn sandboxes_are_listed_oldest_first(rows: Seq<ActiveSandboxInfo>)
    ensures
        ({
            let out = oldest_first(rows);
            &&& out.to_multiset() == rows.to_multiset()
            &&& forall|i: int, j: int|
                0 <= i < j < out.len() ==> !(#[trigger] out[j]).info.created_at@.before(
                    (#[trigger] out[i]).info.created_at@,
                )
        }),
{
    let earlier = |a: ActiveSandboxInfo, b: ActiveSandboxInfo| made_earlier(a, b);
    creation_times_have_an_order();
    ordered_is_sorted(rows, earlier);
    let out = oldest_first(rows);
    assert forall|i: int, j: int| 0 <= i < j < out.len() implies !(
    #[trigger] out[j]).info.created_at@.before((#[trigger] out[i]).info.created_at@) by {
        assert(!earlier(out[j], out[i]));
    }
}

impl Operation for ListProcesses {
    type Output = Vec<ProcessInfo>;

    type World = ();

    open spec fn moves(
        self,
        reply: Reply,
        world: (),
        next: Self,
        step: Step<Vec<ProcessInfo>>,
    ) -> bool {
        self.follows(reply, next, step)
    }
}

/// The processes that were heard of, in order.
pub open spec fn processes_heard(exchanges: Seq<Exchange<()>>) -> Seq<ProcessInfo>
    decreases exchanges.len(),
{
    if exchanges.len() == 0 {
        Seq::<ProcessInfo>::empty()
    } else {
        let rest = processes_heard(exchanges.drop_last());
        match exchanges.last().reply {
            Reply::Process(p) => rest.push(p),
            _ => rest,
        }
    }
}

proof fn listing_goes_on(
    op: ListProcesses,
    step: Step<Vec<ProcessInfo>>,
    left: Seq<ProcessInfo>,
    all: Seq<Exchange<()>>,
    k: int,
    list: Vec<ProcessInfo>,
)
    requires
        0 <= k <= all.len(),
        comes_to(op, step, all.skip(k), Ok(list)),
        ListProcesses::goes_on(left, processes_heard(all.take(k)), op, step),
    ensures
        all.len() == k + left.len(),
        forall|i: int|
            0 <= i < left.len() ==> (#[trigger] all[k + i]).effect == Effect::Refresh(left[i]),
        list@ == latest_first(processes_heard(all)),
    decreases all.len() - k,
{
    let rest = all.skip(k);
    if left.len() > 0 {
        let (next, s) = goes_through(op, step, rest, Ok(list));
        assert(rest[0] == all[k]);
        assert(rest.drop_first() =~= all.skip(k + 1));
        assert(all.take(k + 1).drop_last() =~= all.take(k));
        assert(all.take(k + 1).last() == all[k]);
        let more = left.subrange(1, left.len() as int);
        listing_goes_on(next, s, more, all, k + 1, list);
        assert forall|i: int| 0 <= i < left.len() implies (#[trigger] all[k + i]).effect
            == Effect::Refresh(left[i]) by {
            if i > 0 {
                assert(all[(k + 1) + (i - 1)].effect == Effect::Refresh(more[i - 1]));
            }
        }
    } else {
        assert(rest.len() == 0);
        assert(all.take(k) =~= all);
    }
}

/// A list of the processes holds each one that is stored, as it is after a look at it, unless it
/// could not be looked at; the latest comes first.
pub proof fn all_processes_are_listed(exchanges: Seq<Exchange<()>>, list: Vec<ProcessInfo>)
    requires
        comes_to(
            ListProcesses::Hydrating,
            Step::Ask(Effect::EnsureHydrated),
            exchanges,
            Ok(list),
        ),
    ensures
        exchanges.len() >= 3,
        exchanges[1].effect == Effect::CleanupExpired,
        exchanges[2].effect == Effect::StoreListProcesses,
        exchanges[2].reply matches Reply::Processes(stored) && {
            &&& exchanges.len() == 3 + stored@.len()
            &&& forall|i: int|
                0 <= i < stored@.len() ==> (#[trigger] exchanges[3 + i]).effect == Effect::Refresh(
                    stored@[i],
                )
        },
        list@.to_multiset() == processes_heard(exchanges).to_multiset(),
        forall|i: int, j: int|
            0 <= i < j < list@.len() ==> !(#[trigger] list@[i]).started_at@.before(
                (#[trigger] list@[j]).started_at@,
            ),
{
    let end = Ok::<Vec<ProcessInfo>, HyperboxError>(list);
    let hydrate = Step::<Vec<ProcessInfo>>::Ask(Effect::EnsureHydrated);
    let (a, s) = goes_through(ListProcesses::Hydrating, hydrate, exchanges, end);
    let e1 = exchanges.drop_first();
    assert(s is Ask);
    let (b, t) = goes_through(a, s, e1, end);
    assert(e1[0] == exchanges[1]);
    let e2 = e1.drop_first();
    assert(t is Ask);
    let (c, u) = goes_through(b, t, e2, end);
    assert(e2[0] == exchanges[2]);
    assert(e2.drop_first() =~= exchanges.skip(3));
    let stored = exchanges[2].reply->Processes_0@;
    assert(exchanges.take(3).drop_last() =~= exchanges.take(2));
    assert(exchanges.take(2).drop_last() =~= exchanges.take(1));
    assert(exchanges.take(1).drop_last() =~= exchanges.take(0));
    assert(exchanges.take(3).last() == exchanges[2]);
    assert(exchanges.take(2).last() == exchanges[1]);
    assert(exchanges.take(1).last() == exchanges[0]);
    reveal_with_fuel(processes_heard, 4);
    assert(processes_heard(exchanges.take(3)) =~= Seq::<ProcessInfo>::empty());
    listing_goes_on(c, u, stored, exchanges, 3, list);
    processes_are_listed_latest_first(processes_heard(exchanges));
}

impl Operation for DestroySandbox {
    type Output = ();

    /// What the server remembers before and after.
    type World = (StateModel, StateModel);

    open spec fn moves(
        self,
        reply: Reply,
        world: (StateModel, StateModel),
        next: Self,
        step: Step<()>,
    ) -> bool {
        self.follows(reply, next, step, world.0, world.1)
    }
}

/// On the way to its end an operation touches no sandbox but one, and that last.
pub open spec fn purged_in(
    exchanges: Seq<Exchange<(StateModel, StateModel)>>,
    id: SandboxId,
) -> bool {
    forall|i: int|
        0 <= i < exchanges.len() ==> match (#[trigger] exchanges[i]).effect {
            Effect::BackendDestroy(to) => to == id && i == exchanges.len() - 3,
            Effect::StoreClearBinding(to) => to == id && i == exchanges.len() - 2,
            Effect::StoreRemoveActive(to) => to == id && i == exchanges.len() - 1,
            Effect::Refresh(p) => p.sandbox_id == id,
            Effect::Exec(_, _) | Effect::WriteFile(_, _) | Effect::StoreRemoveProcess(_) => false,
            _ => true,
        }
}

spec fn destroys(op: DestroySandbox, step: Step<()>, id: SandboxId) -> bool {
    match op {
        DestroySandbox::Hydrating(i) => i == id && step == Step::<()>::Ask(Effect::EnsureHydrated),
        DestroySandbox::Listing(i) => i == id && step == Step::<()>::Ask(
            Effect::StoreListProcesses,
        ),
        DestroySandbox::Refreshing(i, _) => i == id && (step matches Step::Ask(Effect::Refresh(p))
            && p.sandbox_id == id),
        DestroySandbox::Cancelling(i, _, _) => i == id && (step matches Step::Ask(e) && e
            is CancelProcess),
        DestroySandbox::Purging(i, _) => i == id && (step matches Step::Ask(e) && e is Purge),
        DestroySandbox::Destroying(i) => i == id && step == Step::<()>::Ask(
            Effect::BackendDestroy(id),
        ),
        _ => false,
    }
}

proof fn destruction_goes_on(
    op: DestroySandbox,
    step: Step<()>,
    id: SandboxId,
    exchanges: Seq<Exchange<(StateModel, StateModel)>>,
)
    requires
        destroys(op, step, id),
        comes_to(op, step, exchanges, Ok(())),
    ensures
        exchanges.len() >= 3,
        ({
            let n = exchanges.len() as int;
            &&& exchanges[n - 3].effect == Effect::BackendDestroy(id)
            &&& exchanges[n - 2].effect == Effect::StoreClearBinding(id)
            &&& exchanges[n - 1].effect == Effect::StoreRemoveActive(id)
            &&& exchanges[n - 3].world.1.sandboxes == exchanges[n - 3].world.0.sandboxes.remove(id.0)
        }),
        purged_in(exchanges, id),
    decreases exchanges.len(),
{
    let end = Ok::<(), HyperboxError>(());
    let (next, s) = goes_through(op, step, exchanges, end);
    let rest = exchanges.drop_first();
    assert(s is Ask);
    if op is Destroying {
        let (b, t) = goes_through(next, s, rest, end);
        assert(rest[0] == exchanges[1]);
        let e2 = rest.drop_first();
        assert(t is Ask);
        let (c, u) = goes_through(b, t, e2, end);
        assert(e2[0] == exchanges[2]);
        assert(e2.drop_first().len() == 0);
    } else {
        let x = exchanges[0];
        let list = match (op, x.reply) {
            (DestroySandbox::Listing(_), Reply::Processes(l)) => l@,
            (DestroySandbox::Purging(_, l), _) => l@,
            _ => Seq::<ProcessInfo>::empty(),
        };
        first_due_bounds(list, |p: ProcessModel| p.sandbox_id == id);
        assert(forall|p: ProcessInfo| (#[trigger] p@).sandbox_id == p.sandbox_id);
        destruction_goes_on(next, s, id, rest);
        let n = exchanges.len() as int;
        assert(rest[n - 2] == exchanges[n - 1]);
        assert(rest[n - 3] == exchanges[n - 2]);
        assert(rest[n - 4] == exchanges[n - 3]);
        assert forall|i: int| 0 <= i < exchanges.len() implies match (
        #[trigger] exchanges[i]).effect {
            Effect::BackendDestroy(to) => to == id && i == exchanges.len() - 3,
            Effect::StoreClearBinding(to) => to == id && i == exchanges.len() - 2,
            Effect::StoreRemoveActive(to) => to == id && i == exchanges.len() - 1,
            Effect::Refresh(p) => p.sandbox_id == id,
            Effect::Exec(_, _) | Effect::WriteFile(_, _) | Effect::StoreRemoveProcess(_) => false,
            _ => true,
        } by {
            if i > 0 {
                assert(rest[i - 1] == exchanges[i]);
            }
        }
    }
}

/// A sandbox that is destroyed goes last: its processes are ended and purged before, no other
/// sandbox is touched, and then the backend gives it up, its names stand for it no more, and what
/// is remembered of it goes.
pub proof fn destroyed_sandboxes_are_gone(
    id: SandboxId,
    exchanges: Seq<Exchange<(StateModel, StateModel)>>,
)
    requires
        comes_to(
            DestroySandbox::Hydrating(id),
            Step::Ask(Effect::EnsureHydrated),
            exchanges,
            Ok(()),
        ),
    ensures
        exchanges.len() >= 3,
        ({
            let n = exchanges.len() as int;
            &&& exchanges[n - 3].effect == Effect::BackendDestroy(id)
            &&& exchanges[n - 2].effect == Effect::StoreClearBinding(id)
            &&& exchanges[n - 1].effect == Effect::StoreRemoveActive(id)
            &&& exchanges[n - 3].world.1.sandboxes == exchanges[n - 3].world.0.sandboxes.remove(id.0)
        }),
        purged_in(exchanges, id),
{
    destruction_goes_on(
        DestroySandbox::Hydrating(id),
        Step::Ask(Effect::EnsureHydrated),
        id,
        exchanges,
    );
}

/// The setup steps of a run are carried out in their order, each by its script, until one fails;
/// the setup succeeds exactly where all of them do.
pub proof fn setup_steps_go_in_order(
    op: RunEnsure,
    step: Step<()>,
    id: SandboxId,
    commands: Seq<String>,
    timeout_secs: u64,
    exchanges: Seq<Exchange<()>>,
    end: Result<(), HyperboxError>,
)
    requires
        RunEnsure::goes_on(id, commands, timeout_secs, op, step),
        comes_to(op, step, exchanges, end),
    ensures
        exchanges.len() <= commands.len(),
        end is Ok ==> exchanges.len() == commands.len(),
        forall|i: int|
            0 <= i < exchanges.len() ==> is_script(
                (#[trigger] exchanges[i]).effect,
                id,
                ensure_script(commands[i]@),
            ),
        forall|i: int|
            0 <= i < exchanges.len() ==> ((#[trigger] exchanges[i]).reply matches Reply::Outcome(o)
                && o.exit_code == 0) || (i == exchanges.len() - 1 && end is Err),
    decreases commands.len(),
{
    if commands.len() > 0 {
        let (next, s) = goes_through(op, step, exchanges, end);
        let rest = exchanges.drop_first();
        let left = commands.subrange(1, commands.len() as int);
        if exchanges[0].reply is Outcome && exchanges[0].reply->Outcome_0.exit_code == 0 {
            setup_steps_go_in_order(next, s, id, left, timeout_secs, rest, end);
            assert forall|i: int| 0 <= i < exchanges.len() implies is_script(
                (#[trigger] exchanges[i]).effect,
                id,
                ensure_script(commands[i]@),
            ) by {
                if i > 0 {
                    assert(rest[i - 1] == exchanges[i]);
                }
            }
            assert forall|i: int| 0 <= i < exchanges.len() implies ((
            #[trigger] exchanges[i]).reply matches Reply::Outcome(o) && o.exit_code == 0) || (i
                == exchanges.len() - 1 && end is Err) by {
                if i > 0 {
                    assert(rest[i - 1] == exchanges[i]);
                }
            }
        } else {
            assert(rest.len() == 0);
        }
    }
}

} // verus!
