//! The operations of the server in a world of its own: a store that gives back what it was given,
//! a backend with its sandboxes, and the server's memory. Operations that ask for other operations
//! hear what those come to in the same world.

use crate::error::HyperboxError;
use crate::model::{shell_model, SandboxId};
use crate::numbers::{decimal, decimal_reads_back};
use crate::process::{ProcessId, ProcessInfo, ProcessLogRead, ProcessModel};
use crate::server::courses::ends_agree;
use crate::server::effects::{asks_exec, Effect, Operation, Reply, Step};
use crate::server::launch::{is_read_of, log_part, log_path, log_script, LogRange, ReadProcessLog};
use crate::server::processes::{
    expired, first_due, first_due_bounds, log_size_script, CancelProcess, CleanupExpired, Clock,
    GetProcess, PurgeProcess, ReadLogSize, RefreshProcess,
};
use crate::server::state::StateModel;
use crate::server::store::{bound, unbound, StoreModel};
use crate::snapshot::{ActiveModel, AffinityModel};
use crate::text::trimmed;
use crate::time::{TimeModel, Timestamp};
use vstd::prelude::*;

verus! {

/// What the server works in.
pub struct World {
    pub store: StoreModel,
    /// What the server remembers.
    pub memory: StateModel,
    /// The sandboxes that the backend has.
    pub boxes: Set<u128>,
}

/// What effects may come to: an effect, its reply, and the world before and after it.
pub type Answers = spec_fn(Effect, Reply, World, World) -> bool;

/// An operation as it goes on in a world.
pub trait Placed: Operation {
    /// What the operation sees in a world when it hears a reply, and the world that it leaves.
    spec fn sees(seen: Self::World, before: World, after: World) -> bool;
}

/// Something that an operation asked for, what it heard, the world then, what it saw of it, and
/// the world that it left.
pub struct Event<W> {
    pub effect: Effect,
    pub reply: Reply,
    pub heard: World,
    pub seen: W,
    pub after: World,
}

/// An operation that is at a step goes through events from one world to another, to its end.
pub open spec fn runs<O: Placed>(
    op: O,
    step: Step<O::Output>,
    events: Seq<Event<O::World>>,
    answers: Answers,
    from: World,
    to: World,
    end: Result<O::Output, HyperboxError>,
) -> bool
    decreases events.len(),
{
    if events.len() == 0 {
        step == Step::Done(end) && to == from
    } else {
        let x = events[0];
        &&& step == Step::<O::Output>::Ask(x.effect)
        &&& answers(x.effect, x.reply, from, x.heard)
        &&& O::sees(x.seen, x.heard, x.after)
        &&& exists|next: O, s: Step<O::Output>| #[trigger]
            op.moves(x.reply, x.seen, next, s) && runs(
                next,
                s,
                events.drop_first(),
                answers,
                x.after,
                to,
                end,
            )
    }
}

/// The first event of an operation on its way, and what it leads to.
pub(crate) proof fn goes<O: Placed>(
    op: O,
    step: Step<O::Output>,
    events: Seq<Event<O::World>>,
    answers: Answers,
    from: World,
    to: World,
    end: Result<O::Output, HyperboxError>,
) -> (r: (O, Step<O::Output>))
    requires
        runs(op, step, events, answers, from, to, end),
        step is Ask,
    ensures
        events.len() > 0,
        step == Step::<O::Output>::Ask(events[0].effect),
        answers(events[0].effect, events[0].reply, from, events[0].heard),
        O::sees(events[0].seen, events[0].heard, events[0].after),
        op.moves(events[0].reply, events[0].seen, r.0, r.1),
        runs(r.0, r.1, events.drop_first(), answers, events[0].after, to, end),
{
    let x = events[0];
    choose|next: O, s: Step<O::Output>| #[trigger]
        op.moves(x.reply, x.seen, next, s) && runs(
            next,
            s,
            events.drop_first(),
            answers,
            x.after,
            to,
            end,
        )
}

/// The processes of a store are under their own identifiers, and each is over exactly where it has
/// an end.
pub open spec fn keeps_processes(store: StoreModel) -> bool {
    forall|k: u128| #[trigger]
        store.processes.contains_key(k) ==> store.processes[k].id.0 == k && ends_agree(
            store.processes[k],
        )
}

/// A list of the processes of a store.
pub open spec fn lists_processes(list: Seq<ProcessInfo>, store: StoreModel) -> bool {
    &&& forall|i: int|
        0 <= i < list.len() ==> store.processes.contains_key((#[trigger] list[i]).id.0)
            && store.processes[list[i].id.0] == list[i]@
    &&& forall|k: u128| #[trigger]
        store.processes.contains_key(k) ==> exists|i: int|
            0 <= i < list.len() && (#[trigger] list[i]).id.0 == k
}

/// The world with other processes.
pub open spec fn with_processes(w: World, processes: Map<u128, ProcessModel>) -> World {
    World { store: StoreModel { processes, ..w.store }, ..w }
}

/// The world in which a sandbox has no names.
pub open spec fn with_names_cleared(w: World, id: SandboxId, now: TimeModel) -> World {
    let affinities = w.store.affinities.map_values(|a: AffinityModel| unbound(a, id, now));
    World { store: StoreModel { affinities, ..w.store }, ..w }
}

/// The world in which a name stands for a sandbox.
pub open spec fn with_name(w: World, name: Seq<char>, id: SandboxId, now: TimeModel) -> World {
    let affinities = w.store.affinities.insert(name, bound(w.store.affinities, name, id, now));
    World { store: StoreModel { affinities, ..w.store }, ..w }
}

/// The backend does not have the sandbox, and no process is recorded to run in it.
pub open spec fn is_new(id: SandboxId, w: World) -> bool {
    &&& !w.boxes.contains(id.0)
    &&& forall|k: u128| #[trigger]
        w.store.processes.contains_key(k) ==> w.store.processes[k].sandbox_id != id
}

/// What holds for a while: processes are judged by times up to a limit, and where all goes
/// smoothly, commands in sandboxes succeed and files are written.
pub struct Terms {
    pub limit: TimeModel,
    pub smooth: bool,
}

/// What the store and the backend reply while they work.
pub open spec fn plainly(
    effect: Effect,
    reply: Reply,
    from: World,
    to: World,
    terms: Terms,
) -> bool {
    match effect {
        Effect::EnsureHydrated | Effect::Pause(_) => to == from && reply is Unit,
        Effect::StoreGetProcess(id) => to == from && if from.store.processes.contains_key(id.0) {
            reply matches Reply::Process(p) && p@ == from.store.processes[id.0]
        } else {
            reply is NoProcess
        },
        Effect::StoreListProcesses => to == from && (reply matches Reply::Processes(list)
            && lists_processes(list@, from.store)),
        Effect::StoreUpsertProcess(p) => reply is Unit && to == with_processes(
            from,
            from.store.processes.insert(p.id.0, p@),
        ),
        Effect::StoreRemoveProcess(id) => reply is Unit && to == with_processes(
            from,
            from.store.processes.remove(id.0),
        ),
        Effect::StoreClearBinding(id) => reply is Unit && exists|now: TimeModel|
            to == #[trigger] with_names_cleared(from, id, now),
        Effect::StoreRemoveActive(id) => reply is Unit && to == (World {
            store: StoreModel { active: from.store.active.remove(id.0), ..from.store },
            ..from
        }),
        Effect::StoreGetAffinity(name) => to == from && if from.store.affinities.contains_key(
            name@,
        ) {
            reply matches Reply::Affinity(a) && a@ == from.store.affinities[name@]
        } else {
            reply is NoAffinity
        },
        Effect::StoreBind(name, id) => reply is Unit && exists|now: TimeModel|
            to == #[trigger] with_name(from, name@, id, now),
        Effect::StoreUpsertActive(id, config, created_at) => reply is Unit && to == (World {
            store: StoreModel {
                active: from.store.active.insert(
                    id.0,
                    ActiveModel {
                        sandbox_id: id,
                        config: config@,
                        created_at: created_at@,
                    },
                ),
                ..from.store
            },
            ..from
        }),
        Effect::ValidateConfig(_) => to == from && (reply is Unit || reply is Failed),
        Effect::BackendCreate(_) => match reply {
            Reply::Lease(lease) => {
                &&& lease.info.id == lease.id
                &&& is_new(lease.id, from)
                &&& to == (World { boxes: from.boxes.insert(lease.id.0), ..from })
            },
            _ => reply is Failed && to == from,
        },
        Effect::Inspect(id) => to == from && if from.boxes.contains(id.0) {
            reply matches Reply::Info(info) && info.id == id
        } else {
            reply matches Reply::Failed(HyperboxError::SandboxNotFound(_))
        },
        Effect::BackendDestroy(id) => reply is Unit && to == (World {
            boxes: from.boxes.remove(id.0),
            ..from
        }),
        Effect::Exec(_, _) => to == from && match reply {
            Reply::Outcome(o) => terms.smooth ==> o.exit_code == 0,
            Reply::Failed(_) => !terms.smooth,
            _ => false,
        },
        Effect::WriteFile(_, _) => to == from && (reply is Unit || (reply is Failed
            && !terms.smooth)),
        _ => false,
    }
}

pub open spec fn plain(terms: Terms) -> Answers {
    |e: Effect, r: Reply, v: World, w: World| plainly(e, r, v, w, terms)
}

impl Placed for RefreshProcess {
    open spec fn sees(seen: Clock, before: World, after: World) -> bool {
        after == before
    }
}

impl Operation for PurgeProcess {
    type Output = ();

    /// What the server remembers before and after.
    type World = (StateModel, StateModel);

    open spec fn moves(
        self,
        reply: Reply,
        world: (StateModel, StateModel),
        next: Self,
        step: Step<()>,
    ) -> bool {
        self.follows(reply, next, step, world.0, world.1)
    }
}

impl Placed for PurgeProcess {
    open spec fn sees(seen: (StateModel, StateModel), before: World, after: World) -> bool {
        seen.0 == before.memory && after == (World { memory: seen.1, ..before })
    }
}

impl Operation for CleanupExpired {
    type Output = ();

    type World = ();

    open spec fn moves(self, reply: Reply, world: (), next: Self, step: Step<()>) -> bool {
        self.follows(reply, next, step)
    }
}

impl Placed for CleanupExpired {
    open spec fn sees(seen: (), before: World, after: World) -> bool {
        after == before
    }
}

impl Placed for GetProcess {
    open spec fn sees(seen: (), before: World, after: World) -> bool {
        after == before
    }
}

impl Placed for CancelProcess {
    open spec fn sees(seen: u64, before: World, after: World) -> bool {
        after == before
    }
}

/// The reply to a request for an operation that ends with a process.
pub open spec fn tells_process(reply: Reply, end: Result<ProcessInfo, HyperboxError>) -> bool {
    match end {
        Ok(p) => reply == Reply::Process(p),
        Err(e) => reply == Reply::Failed(e),
    }
}

/// The reply to a request for an operation that ends with nothing.
pub open spec fn tells_unit(reply: Reply, end: Result<(), HyperboxError>) -> bool {
    match end {
        Ok(_) => reply is Unit,
        Err(e) => reply == Reply::Failed(e),
    }
}

/// A refresh of a process comes to this.
pub open spec fn refreshes(
    p: ProcessInfo,
    events: Seq<Event<Clock>>,
    answers: Answers,
    from: World,
    to: World,
    end: Result<ProcessInfo, HyperboxError>,
) -> bool {
    if p.status.terminal() {
        runs(RefreshProcess::Over, Step::Done(Ok(p)), events, answers, from, to, end)
    } else {
        exists|step: Step<ProcessInfo>|
            step matches Step::Ask(e) && e is Exec && #[trigger] runs(
                RefreshProcess::Probing(p),
                step,
                events,
                answers,
                from,
                to,
                end,
            )
    }
}

/// Beside plain effects, processes are refreshed and purged.
pub open spec fn with_refreshing(
    effect: Effect,
    reply: Reply,
    from: World,
    to: World,
    terms: Terms,
) -> bool {
    match effect {
        Effect::Refresh(p) => exists|
            events: Seq<Event<Clock>>,
            end: Result<ProcessInfo, HyperboxError>,
        |
            tells_process(reply, end) && #[trigger] refreshes(
                p,
                events,
                plain(terms),
                from,
                to,
                end,
            ),
        Effect::Purge(p) => exists|
            events: Seq<Event<(StateModel, StateModel)>>,
            end: Result<(), HyperboxError>,
        |
            tells_unit(reply, end) && #[trigger] runs(
                PurgeProcess::Inspecting(p),
                Step::Ask(Effect::Inspect(p.sandbox_id)),
                events,
                plain(terms),
                from,
                to,
                end,
            ),
        _ => plainly(effect, reply, from, to, terms),
    }
}

pub open spec fn refreshing(terms: Terms) -> Answers {
    |e: Effect, r: Reply, v: World, w: World| with_refreshing(e, r, v, w, terms)
}

/// Beside those, processes whose time is over are cleaned up, by a time up to the limit.
pub open spec fn with_cleaning(
    effect: Effect,
    reply: Reply,
    from: World,
    to: World,
    terms: Terms,
) -> bool {
    match effect {
        Effect::CleanupExpired => exists|
            now: Timestamp,
            events: Seq<Event<()>>,
            end: Result<(), HyperboxError>,
        |
            tells_unit(reply, end) && !terms.limit.before(now@) && #[trigger] runs(
                CleanupExpired::Listing(now),
                Step::Ask(Effect::StoreListProcesses),
                events,
                refreshing(terms),
                from,
                to,
                end,
            ),
        _ => with_refreshing(effect, reply, from, to, terms),
    }
}

pub open spec fn cleaning(terms: Terms) -> Answers {
    |e: Effect, r: Reply, v: World, w: World| with_cleaning(e, r, v, w, terms)
}

/// Beside those, processes are looked up.
pub open spec fn with_lookups(
    effect: Effect,
    reply: Reply,
    from: World,
    to: World,
    terms: Terms,
) -> bool {
    match effect {
        Effect::GetProcess(id) => exists|
            events: Seq<Event<()>>,
            end: Result<ProcessInfo, HyperboxError>,
        |
            tells_process(reply, end) && #[trigger] runs(
                GetProcess::Hydrating(id),
                Step::Ask(Effect::EnsureHydrated),
                events,
                cleaning(terms),
                from,
                to,
                end,
            ),
        _ => with_cleaning(effect, reply, from, to, terms),
    }
}

pub open spec fn looking_up(terms: Terms) -> Answers {
    |e: Effect, r: Reply, v: World, w: World| with_lookups(e, r, v, w, terms)
}

/// A refresh records what it comes to under the identifier of the process, and touches no other
/// process.
proof fn refresh_is_recorded(
    p: ProcessInfo,
    events: Seq<Event<Clock>>,
    from: World,
    to: World,
    end: Result<ProcessInfo, HyperboxError>,
    terms: Terms,
)
    requires
        keeps_processes(from.store),
        from.store.processes.contains_key(p.id.0),
        from.store.processes[p.id.0] == p@,
        refreshes(p, events, plain(terms), from, to, end),
    ensures
        keeps_processes(to.store),
        p.status.terminal() ==> to == from && end == Ok::<ProcessInfo, HyperboxError>(p),
        match end {
            Ok(q) => q.id == p.id && to == with_processes(
                from,
                from.store.processes.insert(p.id.0, q@),
            ),
            Err(_) => to == from,
        },
{
    let processes = from.store.processes;
    assert(processes.insert(p.id.0, p@) =~= processes);
    if !p.status.terminal() {
        let step = choose|step: Step<ProcessInfo>|
            step matches Step::Ask(e) && e is Exec && #[trigger] runs(
                RefreshProcess::Probing(p),
                step,
                events,
                plain(terms),
                from,
                to,
                end,
            );
        let (a, s) = goes(RefreshProcess::Probing(p), step, events, plain(terms), from, to, end);
        assert(plainly(events[0].effect, events[0].reply, from, events[0].heard, terms));
        if s is Ask {
            let rest = events.drop_first();
            let (b, t) = goes(a, s, rest, plain(terms), events[0].after, to, end);
            assert(plainly(rest[0].effect, rest[0].reply, events[0].after, rest[0].heard, terms));
        }
    }
}

/// A sandbox is as it was: the backend has it, the server knows it, and it has its names.
pub open spec fn spares(id: SandboxId, from: World, to: World) -> bool {
    &&& from.boxes.contains(id.0) ==> to.boxes.contains(id.0)
    &&& from.memory.sandboxes.contains_key(id.0) ==> to.memory.sandboxes.contains_key(id.0)
        && to.memory.sandboxes[id.0] == from.memory.sandboxes[id.0]
    &&& forall|name: Seq<char>|
        from.store.affinities.contains_key(name) && (#[trigger] from.store.affinities[name]).sandbox_id
            == Some(id) ==> to.store.affinities.contains_key(name) && to.store.affinities[name]
            == from.store.affinities[name]
}

/// A purge of a process is at this step.
spec fn purges(op: PurgeProcess, step: Step<()>, p: ProcessInfo) -> bool {
    match op {
        PurgeProcess::Inspecting(q) => q == p && step == Step::<()>::Ask(
            Effect::Inspect(p.sandbox_id),
        ),
        PurgeProcess::Destroying(q) => q == p && p.destroy_sandbox_on_expiry && step == Step::<
            (),
        >::Ask(Effect::BackendDestroy(p.sandbox_id)),
        PurgeProcess::Unbinding(q) => q == p && p.destroy_sandbox_on_expiry && step == Step::<
            (),
        >::Ask(Effect::StoreClearBinding(p.sandbox_id)),
        PurgeProcess::Deactivating(q) => q == p && step == Step::<()>::Ask(
            Effect::StoreRemoveActive(p.sandbox_id),
        ),
        PurgeProcess::Sweeping(q) => q == p && (step matches Step::Ask(e) && e is Exec),
        PurgeProcess::Removing => step == Step::<()>::Ask(Effect::StoreRemoveProcess(p.id)),
        PurgeProcess::Over => false,
    }
}

/// A purge removes its process and no other, and takes no sandbox but its own.
proof fn purge_removes_one(
    op: PurgeProcess,
    step: Step<()>,
    p: ProcessInfo,
    events: Seq<Event<(StateModel, StateModel)>>,
    from: World,
    to: World,
    end: Result<(), HyperboxError>,
    terms: Terms,
)
    requires
        purges(op, step, p),
        runs(op, step, events, plain(terms), from, to, end),
    ensures
        end is Ok,
        to.store.processes == from.store.processes.remove(p.id.0),
        forall|id: SandboxId|
            !(p.destroy_sandbox_on_expiry && p.sandbox_id == id) ==> #[trigger] spares(id, from, to),
    decreases events.len(),
{
    let (next, s) = goes(op, step, events, plain(terms), from, to, end);
    let x = events[0];
    assert(plainly(x.effect, x.reply, from, x.heard, terms));
    assert forall|id: SandboxId|
        !(p.destroy_sandbox_on_expiry && p.sandbox_id == id) implies #[trigger] spares(
        id,
        from,
        x.after,
    ) by {
        if op is Unbinding {
            let now = choose|now: TimeModel|
                x.heard == #[trigger] with_names_cleared(from, p.sandbox_id, now);
            assert(x.heard == with_names_cleared(from, p.sandbox_id, now));
        }
    }
    if !(next is Over) {
        purge_removes_one(next, s, p, events.drop_first(), x.after, to, end, terms);
        assert forall|id: SandboxId|
            !(p.destroy_sandbox_on_expiry && p.sandbox_id == id) implies #[trigger] spares(
            id,
            from,
            to,
        ) by {
            assert(spares(id, from, x.after));
            assert(spares(id, x.after, to));
        }
    }
}

/// No process that would take this sandbox with it is expired.
pub open spec fn box_lasts(id: SandboxId, w: World, limit: TimeModel) -> bool {
    forall|k: u128| #[trigger]
        w.store.processes.contains_key(k) && w.store.processes[k].sandbox_id == id
            && w.store.processes[k].destroy_sandbox_on_expiry ==> !expired(
            w.store.processes[k],
            limit,
        )
}

/// Processes are gone, but none whose time is not over, and no sandbox of such a process.
pub open spec fn cleaned(from: World, to: World, limit: TimeModel) -> bool {
    &&& forall|k: u128| #[trigger]
        to.store.processes.contains_key(k) ==> from.store.processes.contains_key(k)
            && to.store.processes[k] == from.store.processes[k]
    &&& forall|k: u128| #[trigger]
        from.store.processes.contains_key(k) && !expired(from.store.processes[k], limit)
            ==> to.store.processes.contains_key(k)
    &&& forall|id: SandboxId| box_lasts(id, from, limit) ==> #[trigger] spares(id, from, to)
}

proof fn cleaning_goes_on(
    list: Seq<ProcessInfo>,
    now: Timestamp,
    op: CleanupExpired,
    step: Step<()>,
    events: Seq<Event<()>>,
    start: World,
    from: World,
    to: World,
    end: Result<(), HyperboxError>,
    terms: Terms,
)
    requires
        CleanupExpired::goes_on(list, now, op, step),
        !terms.limit.before(now@),
        forall|i: int|
            0 <= i < list.len() ==> start.store.processes.contains_key((#[trigger] list[i]).id.0)
                && start.store.processes[list[i].id.0] == list[i]@,
        cleaned(start, from, terms.limit),
        runs(op, step, events, refreshing(terms), from, to, end),
    ensures
        end is Ok,
        cleaned(start, to, terms.limit),
    decreases events.len(),
{
    let due = |p: ProcessModel| expired(p, now@);
    first_due_bounds(list, due);
    let k = first_due(list, due);
    if k < list.len() {
        let p = list[k];
        let (next, s) = goes(op, step, events, refreshing(terms), from, to, end);
        let x = events[0];
        assert(with_refreshing(x.effect, x.reply, from, x.heard, terms));
        let (inner, inner_end) = choose|
            inner: Seq<Event<(StateModel, StateModel)>>,
            inner_end: Result<(), HyperboxError>,
        |
            tells_unit(x.reply, inner_end) && #[trigger] runs(
                PurgeProcess::Inspecting(p),
                Step::Ask(Effect::Inspect(p.sandbox_id)),
                inner,
                plain(terms),
                from,
                x.heard,
                inner_end,
            );
        purge_removes_one(
            PurgeProcess::Inspecting(p),
            Step::Ask(Effect::Inspect(p.sandbox_id)),
            p,
            inner,
            from,
            x.heard,
            inner_end,
            terms,
        );
        assert(expired(p@, terms.limit));
        assert(cleaned(start, x.after, terms.limit)) by {
            assert forall|id: SandboxId| box_lasts(id, start, terms.limit) implies #[trigger] spares(
                id,
                start,
                x.after,
            ) by {
                assert(start.store.processes.contains_key(p.id.0));
                assert(spares(id, start, from));
                assert(spares(id, from, x.heard));
            }
        }
        let rest = list.subrange(k + 1, list.len() as int);
        assert forall|i: int| 0 <= i < rest.len() implies start.store.processes.contains_key(
            (#[trigger] rest[i]).id.0,
        ) && start.store.processes[rest[i].id.0] == rest[i]@ by {
            assert(rest[i] == list[k + 1 + i]);
        }
        cleaning_goes_on(
            rest,
            now,
            next,
            s,
            events.drop_first(),
            start,
            x.after,
            to,
            end,
            terms,
        );
    }
}

/// Cleaning up succeeds, and takes only what is expired.
proof fn cleaning_takes_what_is_expired(
    now: Timestamp,
    events: Seq<Event<()>>,
    from: World,
    to: World,
    end: Result<(), HyperboxError>,
    terms: Terms,
)
    requires
        !terms.limit.before(now@),
        runs(
            CleanupExpired::Listing(now),
            Step::Ask(Effect::StoreListProcesses),
            events,
            refreshing(terms),
            from,
            to,
            end,
        ),
    ensures
        end is Ok,
        cleaned(from, to, terms.limit),
        keeps_processes(from.store) ==> keeps_processes(to.store),
{
    let (next, s) = goes(
        CleanupExpired::Listing(now),
        Step::Ask(Effect::StoreListProcesses),
        events,
        refreshing(terms),
        from,
        to,
        end,
    );
    let x = events[0];
    assert(plainly(x.effect, x.reply, from, x.heard, terms));
    let list = x.reply->Processes_0@;
    assert(cleaned(from, from, terms.limit));
    cleaning_goes_on(list, now, next, s, events.drop_first(), from, from, to, end, terms);
    if keeps_processes(from.store) {
        assert forall|k: u128| #[trigger] to.store.processes.contains_key(k) implies
            to.store.processes[k].id.0 == k && ends_agree(to.store.processes[k]) by {
            assert(from.store.processes.contains_key(k));
        }
    }
}

/// A reply to a request for a cleanup: it succeeds.
pub(crate) proof fn cleanup_is_heard(reply: Reply, from: World, to: World, terms: Terms)
    requires
        keeps_processes(from.store),
        with_cleaning(Effect::CleanupExpired, reply, from, to, terms),
    ensures
        reply is Unit,
        cleaned(from, to, terms.limit),
        keeps_processes(to.store),
{
    let (now, events, end) = choose|
        now: Timestamp,
        events: Seq<Event<()>>,
        end: Result<(), HyperboxError>,
    |
        tells_unit(reply, end) && !terms.limit.before(now@) && #[trigger] runs(
            CleanupExpired::Listing(now),
            Step::Ask(Effect::StoreListProcesses),
            events,
            refreshing(terms),
            from,
            to,
            end,
        );
    cleaning_takes_what_is_expired(now, events, from, to, end, terms);
}

/// A reply to a request for a refresh of a process that is stored.
pub(crate) proof fn refresh_is_heard(p: ProcessInfo, reply: Reply, from: World, to: World, terms: Terms)
    requires
        keeps_processes(from.store),
        from.store.processes.contains_key(p.id.0),
        from.store.processes[p.id.0] == p@,
        with_refreshing(Effect::Refresh(p), reply, from, to, terms),
    ensures
        keeps_processes(to.store),
        p.status.terminal() ==> to == from && reply == Reply::Process(p),
        match reply {
            Reply::Process(q) => q.id == p.id && to == with_processes(
                from,
                from.store.processes.insert(p.id.0, q@),
            ),
            _ => reply is Failed && to == from,
        },
{
    let (events, end) = choose|
        events: Seq<Event<Clock>>,
        end: Result<ProcessInfo, HyperboxError>,
    |
        tells_process(reply, end) && #[trigger] refreshes(p, events, plain(terms), from, to, end);
    refresh_is_recorded(p, events, from, to, end, terms);
}

/// A process that is looked up is the one that is stored then; one that is over, and whose time is
/// not, is found as it was.
proof fn lookup_gives_what_is_stored(
    id: ProcessId,
    events: Seq<Event<()>>,
    from: World,
    to: World,
    end: Result<ProcessInfo, HyperboxError>,
    terms: Terms,
)
    requires
        keeps_processes(from.store),
        runs(
            GetProcess::Hydrating(id),
            Step::Ask(Effect::EnsureHydrated),
            events,
            cleaning(terms),
            from,
            to,
            end,
        ),
    ensures
        keeps_processes(to.store),
        end matches Ok(q) ==> to.store.processes.contains_key(id.0) && to.store.processes[id.0]
            == q@,
        from.store.processes.contains_key(id.0) && from.store.processes[id.0].status.terminal()
            && !expired(from.store.processes[id.0], terms.limit) ==> (end matches Ok(q) && q@
            == from.store.processes[id.0]),
{
    let all = cleaning(terms);
    let (a, s) = goes(
        GetProcess::Hydrating(id),
        Step::Ask(Effect::EnsureHydrated),
        events,
        all,
        from,
        to,
        end,
    );
    let x = events[0];
    assert(with_cleaning(x.effect, x.reply, from, x.heard, terms));
    let rest = events.drop_first();
    let (b, t) = goes(a, s, rest, all, from, to, end);
    let y = rest[0];
    assert(with_cleaning(y.effect, y.reply, from, y.heard, terms));
    cleanup_is_heard(y.reply, from, y.heard, terms);
    let rest = rest.drop_first();
    let (c, u) = goes(b, t, rest, all, y.after, to, end);
    let z = rest[0];
    assert(with_cleaning(z.effect, z.reply, y.after, z.heard, terms));
    if u is Ask {
        let p = z.reply->Process_0;
        let rest = rest.drop_first();
        let (d, v) = goes(c, u, rest, all, z.after, to, end);
        let last = rest[0];
        assert(with_cleaning(last.effect, last.reply, z.after, last.heard, terms));
        assert(p.id.0 == p@.id.0);
        refresh_is_heard(p, last.reply, z.after, last.heard, terms);
    }
}

/// The reply to a request for a process.
proof fn lookup_is_heard(id: ProcessId, reply: Reply, from: World, to: World, terms: Terms)
    requires
        keeps_processes(from.store),
        with_lookups(Effect::GetProcess(id), reply, from, to, terms),
    ensures
        keeps_processes(to.store),
        reply is Process || reply is Failed,
        reply matches Reply::Process(q) ==> to.store.processes.contains_key(id.0)
            && to.store.processes[id.0] == q@,
        from.store.processes.contains_key(id.0) && from.store.processes[id.0].status.terminal()
            && !expired(from.store.processes[id.0], terms.limit) ==> (reply matches Reply::Process(q)
            && q@ == from.store.processes[id.0]),
{
    let (events, end) = choose|
        events: Seq<Event<()>>,
        end: Result<ProcessInfo, HyperboxError>,
    |
        tells_process(reply, end) && #[trigger] runs(
            GetProcess::Hydrating(id),
            Step::Ask(Effect::EnsureHydrated),
            events,
            cleaning(terms),
            from,
            to,
            end,
        );
    lookup_gives_what_is_stored(id, events, from, to, end, terms);
}

/// A cancellation is at this step.
spec fn cancels(op: CancelProcess, step: Step<ProcessInfo>, id: ProcessId, w: World) -> bool {
    match op {
        CancelProcess::Hydrating(i) => i == id && step == Step::<ProcessInfo>::Ask(
            Effect::EnsureHydrated,
        ),
        CancelProcess::Looking(i) => i == id && step == Step::<ProcessInfo>::Ask(
            Effect::GetProcess(id),
        ),
        CancelProcess::Marking(p) => p.id == id && (step matches Step::Ask(e) && e is WriteFile),
        CancelProcess::Killing(i) => i == id && (step matches Step::Ask(e) && e is Exec),
        CancelProcess::Watching(i) => i == id && step == Step::<ProcessInfo>::Ask(
            Effect::GetProcess(id),
        ),
        CancelProcess::Pausing(i) => i == id && step == Step::<ProcessInfo>::Ask(
            Effect::Pause(100),
        ),
        CancelProcess::Over => step matches Step::Done(done) && (done matches Ok(p)
            ==> p.status.terminal() && w.store.processes.contains_key(id.0)
            && w.store.processes[id.0] == p@),
    }
}

/// A process that a cancellation hands out is over, and is stored as it is handed out.
proof fn cancelled_processes_are_stored(
    op: CancelProcess,
    step: Step<ProcessInfo>,
    id: ProcessId,
    events: Seq<Event<u64>>,
    from: World,
    to: World,
    end: Result<ProcessInfo, HyperboxError>,
    terms: Terms,
)
    requires
        keeps_processes(from.store),
        cancels(op, step, id, from),
        runs(op, step, events, looking_up(terms), from, to, end),
    ensures
        keeps_processes(to.store),
        end matches Ok(p) ==> p.status.terminal() && to.store.processes.contains_key(id.0)
            && to.store.processes[id.0] == p@,
    decreases events.len(),
{
    if step is Ask {
        let (next, s) = goes(op, step, events, looking_up(terms), from, to, end);
        let x = events[0];
        assert(with_lookups(x.effect, x.reply, from, x.heard, terms));
        if op is Looking || op is Watching {
            lookup_is_heard(id, x.reply, from, x.heard, terms);
            if x.reply is Process {
                let p = x.reply->Process_0;
                assert(x.heard.store.processes.contains_key(id.0));
                assert(p.id == p@.id);
            }
        }
        cancelled_processes_are_stored(
            next,
            s,
            id,
            events.drop_first(),
            x.after,
            to,
            end,
            terms,
        );
    }
}

/// A process that was cancelled is over, has an end, and is stored. While its record stays and its
/// time is not over, cancelling it once more gives the same process, and so does cancelling one
/// that has ended by itself: nothing is written to its sandbox, and nothing is run there.
pub proof fn cancelled_processes_stay_as_they_are(
    id: ProcessId,
    first: Seq<Event<u64>>,
    start: World,
    between: World,
    p: ProcessInfo,
    later: World,
    second: Seq<Event<u64>>,
    to: World,
    end: Result<ProcessInfo, HyperboxError>,
    terms: Terms,
)
    requires
        keeps_processes(start.store),
        runs(
            CancelProcess::Hydrating(id),
            Step::Ask(Effect::EnsureHydrated),
            first,
            looking_up(terms),
            start,
            between,
            Ok(p),
        ),
        // What happened since has left the record of the process.
        keeps_processes(later.store),
        later.store.processes.contains_key(id.0),
        later.store.processes[id.0] == between.store.processes[id.0],
        !expired(p@, terms.limit),
        runs(
            CancelProcess::Hydrating(id),
            Step::Ask(Effect::EnsureHydrated),
            second,
            looking_up(terms),
            later,
            to,
            end,
        ),
    ensures
        p.status.terminal(),
        p@.finished_at is Some,
        between.store.processes.contains_key(id.0),
        between.store.processes[id.0] == p@,
        end matches Ok(q) && q@ == p@,
        second.len() == 2,
        second[0].effect == Effect::EnsureHydrated,
        second[1].effect == Effect::GetProcess(id),
{
    cancelled_processes_are_stored(
        CancelProcess::Hydrating(id),
        Step::Ask(Effect::EnsureHydrated),
        id,
        first,
        start,
        between,
        Ok(p),
        terms,
    );
    finished_processes_are_not_cancelled(id, later, second, to, end, terms);
}

/// Cancelling a process that is over, and whose time is not, gives it as it is stored: nothing is
/// written to its sandbox, and nothing is run there.
pub proof fn finished_processes_are_not_cancelled(
    id: ProcessId,
    from: World,
    events: Seq<Event<u64>>,
    to: World,
    end: Result<ProcessInfo, HyperboxError>,
    terms: Terms,
)
    requires
        keeps_processes(from.store),
        from.store.processes.contains_key(id.0),
        from.store.processes[id.0].status.terminal(),
        !expired(from.store.processes[id.0], terms.limit),
        runs(
            CancelProcess::Hydrating(id),
            Step::Ask(Effect::EnsureHydrated),
            events,
            looking_up(terms),
            from,
            to,
            end,
        ),
    ensures
        end matches Ok(q) && q@ == from.store.processes[id.0] && q@.finished_at is Some,
        events.len() == 2,
        events[0].effect == Effect::EnsureHydrated,
        events[1].effect == Effect::GetProcess(id),
{
    let all = looking_up(terms);
    let (a, s) = goes(
        CancelProcess::Hydrating(id),
        Step::Ask(Effect::EnsureHydrated),
        events,
        all,
        from,
        to,
        end,
    );
    let x = events[0];
    assert(with_lookups(x.effect, x.reply, from, x.heard, terms));
    let rest = events.drop_first();
    let (b, t) = goes(a, s, rest, all, from, to, end);
    assert(rest[0] == events[1]);
    let y = rest[0];
    assert(with_lookups(y.effect, y.reply, from, y.heard, terms));
    lookup_is_heard(id, y.reply, from, y.heard, terms);
    assert(t is Done);
    assert(rest.drop_first().len() == 0);
}

impl Operation for ReadLogSize {
    type Output = u64;

    type World = ();

    open spec fn moves(self, reply: Reply, world: (), next: Self, step: Step<u64>) -> bool {
        self.follows(reply, next, step)
    }
}

impl Placed for ReadLogSize {
    open spec fn sees(seen: (), before: World, after: World) -> bool {
        after == before
    }
}

impl Placed for ReadProcessLog {
    open spec fn sees(seen: (), before: World, after: World) -> bool {
        after == before
    }
}

/// A file in a sandbox that holds a text.
pub struct HeldFile {
    pub sandbox_id: SandboxId,
    pub path: Seq<char>,
    pub text: Seq<char>,
}

impl HeldFile {
    /// The commands that measure and read the file print what they are for.
    pub open spec fn is_printed(self, effect: Effect, reply: Reply) -> bool {
        match effect {
            Effect::Exec(id, request) => id == self.sandbox_id ==> {
                &&& request@ == shell_model(log_size_script(self.path), 5) ==> (reply
                    matches Reply::Outcome(o) && trimmed(o.stdout@) == decimal(self.text.len()))
                &&& forall|offset: u64, limit: u64|
                    request@ == shell_model(#[trigger] log_script(self.path, offset, limit), 5) ==> (
                    reply matches Reply::Outcome(o) && o.stdout@ == log_part(
                        self.text,
                        offset as int,
                        limit,
                    ))
            },
            _ => true,
        }
    }
}

/// Beside refreshes, a file is measured and read.
pub open spec fn plainly_with_file(
    effect: Effect,
    reply: Reply,
    from: World,
    to: World,
    file: HeldFile,
    terms: Terms,
) -> bool {
    with_refreshing(effect, reply, from, to, terms) && file.is_printed(effect, reply)
}

pub open spec fn holding(file: HeldFile, terms: Terms) -> Answers {
    |e: Effect, r: Reply, v: World, w: World| plainly_with_file(e, r, v, w, file, terms)
}

/// The reply to a request for a size.
pub open spec fn tells_size(reply: Reply, end: Result<u64, HyperboxError>) -> bool {
    match end {
        Ok(n) => reply == Reply::Size(n),
        Err(e) => reply == Reply::Failed(e),
    }
}

/// A measurement of a log comes to this.
pub open spec fn measures(
    id: SandboxId,
    path: String,
    events: Seq<Event<()>>,
    answers: Answers,
    from: World,
    to: World,
    end: Result<u64, HyperboxError>,
) -> bool {
    exists|step: Step<u64>|
        asks_exec(step, id, shell_model(log_size_script(path@), 5)) && #[trigger] runs(
            ReadLogSize::Measuring(path),
            step,
            events,
            answers,
            from,
            to,
            end,
        )
}

/// Beside those, logs are measured.
pub open spec fn with_measuring(
    effect: Effect,
    reply: Reply,
    from: World,
    to: World,
    file: HeldFile,
    terms: Terms,
) -> bool {
    match effect {
        Effect::ReadLogSize(id, path) => exists|
            events: Seq<Event<()>>,
            end: Result<u64, HyperboxError>,
        |
            tells_size(reply, end) && #[trigger] measures(
                id,
                path,
                events,
                holding(file, terms),
                from,
                to,
                end,
            ),
        _ => plainly_with_file(effect, reply, from, to, file, terms),
    }
}

pub open spec fn measuring(file: HeldFile, terms: Terms) -> Answers {
    |e: Effect, r: Reply, v: World, w: World| with_measuring(e, r, v, w, file, terms)
}

/// The size that is heard of a log is that of the file.
proof fn size_is_heard(path: String, reply: Reply, from: World, to: World, file: HeldFile, terms: Terms)
    requires
        path@ == file.path,
        file.text.len() <= u64::MAX,
        with_measuring(Effect::ReadLogSize(file.sandbox_id, path), reply, from, to, file, terms),
    ensures
        reply == Reply::Size(file.text.len() as u64),
        to == from,
{
    let (events, end) = choose|
        events: Seq<Event<()>>,
        end: Result<u64, HyperboxError>,
    |
        tells_size(reply, end) && #[trigger] measures(
            file.sandbox_id,
            path,
            events,
            holding(file, terms),
            from,
            to,
            end,
        );
    let step = choose|step: Step<u64>|
        asks_exec(step, file.sandbox_id, shell_model(log_size_script(path@), 5))
            && #[trigger] runs(
            ReadLogSize::Measuring(path),
            step,
            events,
            holding(file, terms),
            from,
            to,
            end,
        );
    let (a, s) = goes(ReadLogSize::Measuring(path), step, events, holding(file, terms), from, to, end);
    let x = events[0];
    assert(plainly_with_file(x.effect, x.reply, from, x.heard, file, terms));
    decimal_reads_back(file.text.len(), u64::MAX as nat);
}

/// Of a process that is over, a read hands out the part of the log that was asked for. The log is
/// any text in ASCII; its files are where the process is recorded to have them, and the commands
/// that measure and read them print what they are for.
pub proof fn logs_of_finished_processes_are_read(
    range: LogRange,
    log: Seq<char>,
    from: World,
    events: Seq<Event<()>>,
    to: World,
    end: Result<ProcessLogRead, HyperboxError>,
    terms: Terms,
)
    requires
        keeps_processes(from.store),
        from.store.processes.contains_key(range.process_id.0),
        from.store.processes[range.process_id.0].status.terminal(),
        vstd::utf8::is_ascii_chars(log),
        log.len() <= u64::MAX,
        runs(
            ReadProcessLog::Hydrating(range),
            Step::Ask(Effect::EnsureHydrated),
            events,
            measuring(
                HeldFile {
                    sandbox_id: from.store.processes[range.process_id.0].sandbox_id,
                    path: log_path(range, from.store.processes[range.process_id.0]),
                    text: log,
                },
                terms,
            ),
            from,
            to,
            end,
        ),
    ensures
        end matches Ok(r) && is_read_of(log, range, r),
        to == from,
{
    let p = from.store.processes[range.process_id.0];
    let file = HeldFile { sandbox_id: p.sandbox_id, path: log_path(range, p), text: log };
    let all = measuring(file, terms);
    let part = log_part(log, range.offset as int, range.limit);
    assert(vstd::utf8::is_ascii_chars(part));
    vstd::utf8::is_ascii_chars_encode_utf8(part);
    let (a, s) = goes(
        ReadProcessLog::Hydrating(range),
        Step::Ask(Effect::EnsureHydrated),
        events,
        all,
        from,
        to,
        end,
    );
    let x = events[0];
    assert(with_measuring(x.effect, x.reply, from, x.heard, file, terms));
    let rest = events.drop_first();
    let (b, t) = goes(a, s, rest, all, from, to, end);
    let y = rest[0];
    assert(with_measuring(y.effect, y.reply, from, y.heard, file, terms));
    let found = y.reply->Process_0;
    let rest = rest.drop_first();
    let (c, u) = goes(b, t, rest, all, from, to, end);
    let z = rest[0];
    assert(with_measuring(z.effect, z.reply, from, z.heard, file, terms));
    let path = z.effect->ReadLogSize_1;
    assert(found@.sandbox_id == found.sandbox_id);
    size_is_heard(path, z.reply, from, z.heard, file, terms);
    let rest = rest.drop_first();
    let (d, v) = goes(c, u, rest, all, from, to, end);
    let last = rest[0];
    assert(with_measuring(last.effect, last.reply, from, last.heard, file, terms));
    if last.effect is Refresh {
        let again = last.effect->Refresh_0;
        assert(again@ == found@);
        assert(again.id == again@.id && again.status == again@.status);
        refresh_is_heard(again, last.reply, from, last.heard, terms);
    } else {
        assert(log_script(file.path, range.offset, range.limit) == log_script(
            log_path(range, found@),
            range.offset,
            range.limit,
        ));
    }
    assert(v is Done);
    assert(rest.drop_first().len() == 0);
}

} // verus!
