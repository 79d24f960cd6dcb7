//! Runs that share a session, in a world of sandboxes, names and processes.

use crate::config::{ConfigModel, SandboxConfig};
use crate::error::HyperboxError;
use crate::model::{SandboxId, SandboxInfo};
use crate::process::{ProcessInfo, ProcessModel};
use crate::server::courses::{in_session, is_reuse, name_of_session, wants_session};
use crate::server::effects::{Effect, Operation, PreparedRunSandbox, ProcessStart, Reply, Step};
use crate::server::launch::StartProcess;
use crate::server::lifecycle::{CreateSandbox, ResolveAffinity};
use crate::server::processes::{first_due, first_due_bounds, Clock, FindActiveProcess};
use crate::server::run::{PrepareRun, RunEnsure, StartRun, StartRunRequest, StartedRun};
use crate::server::state::StateModel;
use crate::server::world::{
    box_lasts, cleaned, cleanup_is_heard, goes, keeps_processes, lists_processes, plain, plainly,
    refresh_is_heard, refreshing, runs, spares, tells_process, tells_unit, with_cleaning, with_name,
    with_refreshing, Answers, Event, Placed, Terms, World,
};
use crate::text::{opt_view, trimmed, views};
use crate::time::TimeModel;
use vstd::prelude::*;

verus! {

impl Placed for FindActiveProcess {
    open spec fn sees(seen: (), before: World, after: World) -> bool {
        after == before
    }
}

impl Placed for ResolveAffinity {
    open spec fn sees(seen: (), before: World, after: World) -> bool {
        after == before
    }
}

impl Placed for PrepareRun {
    open spec fn sees(seen: (), before: World, after: World) -> bool {
        after == before
    }
}

impl Placed for StartProcess {
    open spec fn sees(seen: Clock, before: World, after: World) -> bool {
        after == before
    }
}

impl Placed for StartRun {
    open spec fn sees(seen: StateModel, before: World, after: World) -> bool {
        seen == before.memory && after == before
    }
}

impl Placed for CreateSandbox {
    open spec fn sees(seen: (StateModel, StateModel), before: World, after: World) -> bool {
        seen.0 == before.memory && after == (World { memory: seen.1, ..before })
    }
}

impl Operation for RunEnsure {
    type Output = ();

    type World = ();

    open spec fn moves(self, reply: Reply, world: (), next: Self, step: Step<()>) -> bool {
        self.follows(reply, next, step)
    }
}

impl Placed for RunEnsure {
    open spec fn sees(seen: (), before: World, after: World) -> bool {
        after == before
    }
}

/// The reply to a request for the process that runs.
pub open spec fn tells_active(
    reply: Reply,
    end: Result<Option<ProcessInfo>, HyperboxError>,
) -> bool {
    match end {
        Ok(Some(p)) => reply == Reply::Process(p),
        Ok(None) => reply is NoProcess,
        Err(e) => reply == Reply::Failed(e),
    }
}

/// The reply to a request for a new sandbox.
pub open spec fn tells_info(reply: Reply, end: Result<SandboxInfo, HyperboxError>) -> bool {
    match end {
        Ok(info) => reply == Reply::Info(info),
        Err(e) => reply == Reply::Failed(e),
    }
}

/// The reply to a request for the sandbox of a name.
pub open spec fn tells_resolved(
    reply: Reply,
    end: Result<(SandboxInfo, bool), HyperboxError>,
) -> bool {
    match end {
        Ok(found) => reply == Reply::Resolved(found.0, found.1),
        Err(e) => reply == Reply::Failed(e),
    }
}

/// The reply to a request for a sandbox to run in.
pub open spec fn tells_prepared(
    reply: Reply,
    end: Result<PreparedRunSandbox, HyperboxError>,
) -> bool {
    match end {
        Ok(prepared) => reply == Reply::Prepared(prepared),
        Err(e) => reply == Reply::Failed(e),
    }
}

/// The setup steps of a run come to this.
pub open spec fn ensures_all(
    id: SandboxId,
    commands: Seq<String>,
    timeout_secs: u64,
    events: Seq<Event<()>>,
    answers: Answers,
    from: World,
    to: World,
    end: Result<(), HyperboxError>,
) -> bool {
    exists|op: RunEnsure, step: Step<()>|
        RunEnsure::goes_on(id, commands, timeout_secs, op, step) && #[trigger] runs(
            op,
            step,
            events,
            answers,
            from,
            to,
            end,
        )
}

/// Beside cleaning up, the process of a sandbox is looked for, sandboxes are made and found by
/// their names, and setup steps are carried out.
pub open spec fn with_finding(
    effect: Effect,
    reply: Reply,
    from: World,
    to: World,
    terms: Terms,
) -> bool {
    match effect {
        Effect::FindActiveProcess(id) => exists|
            events: Seq<Event<()>>,
            end: Result<Option<ProcessInfo>, HyperboxError>,
        |
            tells_active(reply, end) && #[trigger] runs(
                FindActiveProcess::Listing(id),
                Step::Ask(Effect::StoreListProcesses),
                events,
                refreshing(terms),
                from,
                to,
                end,
            ),
        Effect::CreateSandbox(config) => exists|
            events: Seq<Event<(StateModel, StateModel)>>,
            end: Result<SandboxInfo, HyperboxError>,
        |
            tells_info(reply, end) && #[trigger] runs(
                CreateSandbox::Hydrating(config),
                Step::Ask(Effect::EnsureHydrated),
                events,
                plain(terms),
                from,
                to,
                end,
            ),
        Effect::ResolveAffinity(name, restore) => exists|
            events: Seq<Event<()>>,
            end: Result<(SandboxInfo, bool), HyperboxError>,
        |
            tells_resolved(reply, end) && #[trigger] runs(
                ResolveAffinity::Hydrating(name, restore),
                Step::Ask(Effect::EnsureHydrated),
                events,
                plain(terms),
                from,
                to,
                end,
            ),
        Effect::RunEnsure(id, commands, timeout_secs) => exists|
            events: Seq<Event<()>>,
            end: Result<(), HyperboxError>,
        |
            tells_unit(reply, end) && #[trigger] ensures_all(
                id,
                commands@,
                timeout_secs,
                events,
                plain(terms),
                from,
                to,
                end,
            ),
        _ => with_cleaning(effect, reply, from, to, terms),
    }
}

pub open spec fn finding(terms: Terms) -> Answers {
    |e: Effect, r: Reply, v: World, w: World| with_finding(e, r, v, w, terms)
}

/// Beside those, runs are prepared and processes started.
pub open spec fn with_starting(
    effect: Effect,
    reply: Reply,
    from: World,
    to: World,
    terms: Terms,
) -> bool {
    match effect {
        Effect::PrepareRun(id, overflow) => exists|
            events: Seq<Event<()>>,
            end: Result<PreparedRunSandbox, HyperboxError>,
        |
            tells_prepared(reply, end) && #[trigger] runs(
                PrepareRun::Hydrating(id, overflow),
                Step::Ask(Effect::EnsureHydrated),
                events,
                finding(terms),
                from,
                to,
                end,
            ),
        Effect::StartProcess(start) => exists|
            events: Seq<Event<Clock>>,
            end: Result<ProcessInfo, HyperboxError>,
        |
            tells_process(reply, end) && #[trigger] runs(
                StartProcess::Hydrating(start),
                Step::Ask(Effect::EnsureHydrated),
                events,
                finding(terms),
                from,
                to,
                end,
            ),
        _ => with_finding(effect, reply, from, to, terms),
    }
}

pub open spec fn starting(terms: Terms) -> Answers {
    |e: Effect, r: Reply, v: World, w: World| with_starting(e, r, v, w, terms)
}

/// The session of a name is there: the name stands for a sandbox that the backend has and the
/// server knows.
pub open spec fn holds_session(w: World, name: Seq<char>, id: SandboxId) -> bool {
    &&& w.store.affinities.contains_key(name)
    &&& w.store.affinities[name].sandbox_id == Some(id)
    &&& w.boxes.contains(id.0)
    &&& w.memory.sandboxes.contains_key(id.0)
}

/// All processes that are recorded to run in a sandbox are over.
pub open spec fn is_idle(id: SandboxId, w: World) -> bool {
    forall|k: u128| #[trigger]
        w.store.processes.contains_key(k) && w.store.processes[k].sandbox_id == id
            ==> w.store.processes[k].status.terminal()
}

proof fn session_is_found(
    name: String,
    id: SandboxId,
    reply: Reply,
    from: World,
    to: World,
    terms: Terms,
)
    requires
        holds_session(from, name@, id),
        with_finding(Effect::ResolveAffinity(name, false), reply, from, to, terms),
    ensures
        to == from,
        reply matches Reply::Resolved(info, restored) && info.id == id && !restored,
{
    let (events, end) = choose|
        events: Seq<Event<()>>,
        end: Result<(SandboxInfo, bool), HyperboxError>,
    |
        tells_resolved(reply, end) && #[trigger] runs(
            ResolveAffinity::Hydrating(name, false),
            Step::Ask(Effect::EnsureHydrated),
            events,
            plain(terms),
            from,
            to,
            end,
        );
    let (a, s) = goes(
        ResolveAffinity::Hydrating(name, false),
        Step::Ask(Effect::EnsureHydrated),
        events,
        plain(terms),
        from,
        to,
        end,
    );
    let x = events[0];
    assert(plainly(x.effect, x.reply, from, x.heard, terms));
    let rest = events.drop_first();
    let (b, t) = goes(a, s, rest, plain(terms), from, to, end);
    let y = rest[0];
    assert(plainly(y.effect, y.reply, from, y.heard, terms));
    let rest = rest.drop_first();
    let record = y.reply->Affinity_0;
    assert(record@.sandbox_id == record.sandbox_id);
    let (c, u) = goes(b, t, rest, plain(terms), from, to, end);
    let z = rest[0];
    assert(plainly(z.effect, z.reply, from, z.heard, terms));
    assert(u is Done);
    assert(rest.drop_first().len() == 0);
}

proof fn no_process_is_found(
    id: SandboxId,
    list: Seq<ProcessInfo>,
    op: FindActiveProcess,
    step: Step<Option<ProcessInfo>>,
    events: Seq<Event<()>>,
    from: World,
    to: World,
    end: Result<Option<ProcessInfo>, HyperboxError>,
    terms: Terms,
)
    requires
        FindActiveProcess::goes_on(id, list, op, step),
        keeps_processes(from.store),
        is_idle(id, from),
        forall|i: int|
            0 <= i < list.len() ==> from.store.processes.contains_key((#[trigger] list[i]).id.0)
                && from.store.processes[list[i].id.0] == list[i]@,
        runs(op, step, events, refreshing(terms), from, to, end),
    ensures
        to == from,
        end == Ok::<Option<ProcessInfo>, HyperboxError>(None),
    decreases events.len(),
{
    let due = |p: ProcessModel| p.sandbox_id == id;
    first_due_bounds(list, due);
    let k = first_due(list, due);
    if k < list.len() {
        let p = list[k];
        assert(from.store.processes.contains_key(p.id.0));
        assert(p@.status == p.status);
        let (next, s) = goes(op, step, events, refreshing(terms), from, to, end);
        let x = events[0];
        assert(with_refreshing(x.effect, x.reply, from, x.heard, terms));
        refresh_is_heard(p, x.reply, from, x.heard, terms);
        let rest = list.subrange(k + 1, list.len() as int);
        assert forall|i: int| 0 <= i < rest.len() implies from.store.processes.contains_key(
            (#[trigger] rest[i]).id.0,
        ) && from.store.processes[rest[i].id.0] == rest[i]@ by {
            assert(rest[i] == list[k + 1 + i]);
        }
        no_process_is_found(id, rest, next, s, events.drop_first(), from, to, end, terms);
    }
}

proof fn idle_is_heard(id: SandboxId, reply: Reply, from: World, to: World, terms: Terms)
    requires
        keeps_processes(from.store),
        is_idle(id, from),
        with_finding(Effect::FindActiveProcess(id), reply, from, to, terms),
    ensures
        to == from,
        reply is NoProcess,
{
    let (events, end) = choose|
        events: Seq<Event<()>>,
        end: Result<Option<ProcessInfo>, HyperboxError>,
    |
        tells_active(reply, end) && #[trigger] runs(
            FindActiveProcess::Listing(id),
            Step::Ask(Effect::StoreListProcesses),
            events,
            refreshing(terms),
            from,
            to,
            end,
        );
    let (next, s) = goes(
        FindActiveProcess::Listing(id),
        Step::Ask(Effect::StoreListProcesses),
        events,
        refreshing(terms),
        from,
        to,
        end,
    );
    let x = events[0];
    assert(with_refreshing(x.effect, x.reply, from, x.heard, terms));
    let list = x.reply->Processes_0@;
    assert(lists_processes(list, from.store));
    no_process_is_found(id, list, next, s, events.drop_first(), from, to, end, terms);
}

/// What stays of a sandbox and its processes where others are cleaned up.
proof fn cleaning_leaves_idle(id: SandboxId, from: World, to: World, terms: Terms)
    requires
        cleaned(from, to, terms.limit),
        box_lasts(id, from, terms.limit),
    ensures
        spares(id, from, to),
        box_lasts(id, to, terms.limit),
        is_idle(id, from) ==> is_idle(id, to),
        forall|name: Seq<char>| #[trigger]
            holds_session(from, name, id) ==> holds_session(to, name, id),
{
    assert(spares(id, from, to));
}

proof fn idle_box_is_prepared(
    id: SandboxId,
    overflow: Option<SandboxConfig>,
    name: Seq<char>,
    reply: Reply,
    from: World,
    to: World,
    terms: Terms,
)
    requires
        keeps_processes(from.store),
        is_idle(id, from),
        box_lasts(id, from, terms.limit),
        holds_session(from, name, id),
        with_starting(Effect::PrepareRun(id, overflow), reply, from, to, terms),
    ensures
        keeps_processes(to.store),
        is_idle(id, to),
        box_lasts(id, to, terms.limit),
        holds_session(to, name, id),
        reply matches Reply::Prepared(p) && p.info.id == id,
{
    let (events, end) = choose|
        events: Seq<Event<()>>,
        end: Result<PreparedRunSandbox, HyperboxError>,
    |
        tells_prepared(reply, end) && #[trigger] runs(
            PrepareRun::Hydrating(id, overflow),
            Step::Ask(Effect::EnsureHydrated),
            events,
            finding(terms),
            from,
            to,
            end,
        );
    let all = finding(terms);
    let (a, s) = goes(
        PrepareRun::Hydrating(id, overflow),
        Step::Ask(Effect::EnsureHydrated),
        events,
        all,
        from,
        to,
        end,
    );
    let x = events[0];
    assert(with_finding(x.effect, x.reply, from, x.heard, terms));
    let rest = events.drop_first();
    let (b, t) = goes(a, s, rest, all, from, to, end);
    let y = rest[0];
    assert(with_finding(y.effect, y.reply, from, y.heard, terms));
    cleanup_is_heard(y.reply, from, y.heard, terms);
    cleaning_leaves_idle(id, from, y.heard, terms);
    let clean = y.heard;
    let rest = rest.drop_first();
    let (c, u) = goes(b, t, rest, all, clean, to, end);
    let z = rest[0];
    assert(with_finding(z.effect, z.reply, clean, z.heard, terms));
    idle_is_heard(id, z.reply, clean, z.heard, terms);
    let rest = rest.drop_first();
    let (d, v) = goes(c, u, rest, all, clean, to, end);
    let last = rest[0];
    assert(with_finding(last.effect, last.reply, clean, last.heard, terms));
    assert(v is Done);
    assert(rest.drop_first().len() == 0);
}

proof fn setup_goes_on(
    id: SandboxId,
    commands: Seq<String>,
    timeout_secs: u64,
    op: RunEnsure,
    step: Step<()>,
    events: Seq<Event<()>>,
    from: World,
    to: World,
    end: Result<(), HyperboxError>,
    terms: Terms,
)
    requires
        RunEnsure::goes_on(id, commands, timeout_secs, op, step),
        runs(op, step, events, plain(terms), from, to, end),
    ensures
        to == from,
        terms.smooth ==> end is Ok,
    decreases events.len(),
{
    if commands.len() > 0 {
        let (next, s) = goes(op, step, events, plain(terms), from, to, end);
        let x = events[0];
        assert(plainly(x.effect, x.reply, from, x.heard, terms));
        if s is Ask {
            let rest = commands.subrange(1, commands.len() as int);
            setup_goes_on(
                id,
                rest,
                timeout_secs,
                next,
                s,
                events.drop_first(),
                from,
                to,
                end,
                terms,
            );
        }
    }
}

proof fn setup_is_heard(
    id: SandboxId,
    commands: Vec<String>,
    timeout_secs: u64,
    reply: Reply,
    from: World,
    to: World,
    terms: Terms,
)
    requires
        with_finding(Effect::RunEnsure(id, commands, timeout_secs), reply, from, to, terms),
    ensures
        to == from,
        reply is Unit || reply is Failed,
        terms.smooth ==> reply is Unit,
{
    let (events, end) = choose|
        events: Seq<Event<()>>,
        end: Result<(), HyperboxError>,
    |
        tells_unit(reply, end) && #[trigger] ensures_all(
            id,
            commands@,
            timeout_secs,
            events,
            plain(terms),
            from,
            to,
            end,
        );
    let (op, step) = choose|op: RunEnsure, step: Step<()>|
        RunEnsure::goes_on(id, commands@, timeout_secs, op, step) && #[trigger] runs(
            op,
            step,
            events,
            plain(terms),
            from,
            to,
            end,
        );
    setup_goes_on(id, commands@, timeout_secs, op, step, events, from, to, end, terms);
}

/// A session that is there and idle.
pub open spec fn has_idle_session(
    w: World,
    name: Seq<char>,
    id: SandboxId,
    terms: Terms,
) -> bool {
    &&& keeps_processes(w.store)
    &&& holds_session(w, name, id)
    &&& is_idle(id, w)
    &&& box_lasts(id, w, terms.limit)
}

/// A start in an idle session leaves the session there; where all goes smoothly, the process runs.
proof fn start_is_heard(
    start: ProcessStart,
    name: Seq<char>,
    reply: Reply,
    from: World,
    to: World,
    terms: Terms,
)
    requires
        has_idle_session(from, name, start.sandbox_id, terms),
        start.command@.len() > 0,
        with_starting(Effect::StartProcess(start), reply, from, to, terms),
    ensures
        holds_session(to, name, start.sandbox_id),
        reply is Process || reply is Failed,
        terms.smooth ==> (reply matches Reply::Process(p) && p.status is Running),
{
    let id = start.sandbox_id;
    let (events, end) = choose|
        events: Seq<Event<Clock>>,
        end: Result<ProcessInfo, HyperboxError>,
    |
        tells_process(reply, end) && #[trigger] runs(
            StartProcess::Hydrating(start),
            Step::Ask(Effect::EnsureHydrated),
            events,
            finding(terms),
            from,
            to,
            end,
        );
    let all = finding(terms);
    let (a, s) = goes(
        StartProcess::Hydrating(start),
        Step::Ask(Effect::EnsureHydrated),
        events,
        all,
        from,
        to,
        end,
    );
    let x = events[0];
    assert(with_finding(x.effect, x.reply, from, x.heard, terms));
    let rest = events.drop_first();
    let (b, t) = goes(a, s, rest, all, from, to, end);
    let y = rest[0];
    assert(with_finding(y.effect, y.reply, from, y.heard, terms));
    cleanup_is_heard(y.reply, from, y.heard, terms);
    cleaning_leaves_idle(id, from, y.heard, terms);
    let clean = y.heard;
    let rest = rest.drop_first();
    let (c, u) = goes(b, t, rest, all, clean, to, end);
    let z = rest[0];
    assert(with_finding(z.effect, z.reply, clean, z.heard, terms));
    idle_is_heard(id, z.reply, clean, z.heard, terms);
    let rest = rest.drop_first();
    let (d, v) = goes(c, u, rest, all, clean, to, end);
    let recorded = rest[0];
    assert(with_finding(recorded.effect, recorded.reply, clean, recorded.heard, terms));
    let rest = rest.drop_first();
    let (e, w) = goes(d, v, rest, all, recorded.after, to, end);
    let launched = rest[0];
    assert(with_finding(launched.effect, launched.reply, recorded.after, launched.heard, terms));
    if w is Ask {
        let rest = rest.drop_first();
        let (f, o) = goes(e, w, rest, all, launched.after, to, end);
        let saved = rest[0];
        assert(with_finding(saved.effect, saved.reply, launched.after, saved.heard, terms));
        assert(o is Done);
        assert(rest.drop_first().len() == 0);
        if e is SavingRunning {
            let q = e->SavingRunning_0;
            assert(q@.status == q.status);
        }
    }
}

/// A run on its way in the session of its settings, which is there and idle.
spec fn reuses(
    op: StartRun,
    step: Step<StartedRun>,
    w: World,
    config: ConfigModel,
    id: SandboxId,
    terms: Terms,
) -> bool {
    let name = name_of_session(config);
    match op {
        StartRun::Hydrating(r) => has_idle_session(w, name, id, terms) && wants_session(r, config)
            && trimmed(r.command@).len() > 0 && step == Step::<StartedRun>::Ask(
            Effect::EnsureHydrated,
        ),
        StartRun::Cleaning(r) => has_idle_session(w, name, id, terms) && wants_session(r, config)
            && trimmed(r.command@).len() > 0 && step == Step::<StartedRun>::Ask(
            Effect::CleanupExpired,
        ),
        StartRun::ResolvingSession(plan, _) => has_idle_session(w, name, id, terms) && in_session(
            plan,
            config,
        ) && !plan.session_created && (step matches Step::Ask(Effect::ResolveAffinity(n, restore))
            && n@ == name && !restore),
        StartRun::Preparing(plan) => has_idle_session(w, name, id, terms) && in_session(
            plan,
            config,
        ) && !plan.session_created && (step matches Step::Ask(Effect::PrepareRun(i, _)) && i == id),
        StartRun::Writing(plan, prepared) => has_idle_session(w, name, id, terms) && in_session(
            plan,
            config,
        ) && !plan.session_created && prepared.info.id == id && (step matches Step::Ask(e)
            && e is WriteFile),
        StartRun::Ensuring(plan, prepared) => has_idle_session(w, name, id, terms) && in_session(
            plan,
            config,
        ) && !plan.session_created && prepared.info.id == id && (step matches Step::Ask(e)
            && e is RunEnsure),
        StartRun::Starting(plan, info) => has_idle_session(w, name, id, terms) && in_session(
            plan,
            config,
        ) && !plan.session_created && info.id == id && (step matches Step::Ask(
            Effect::StartProcess(start),
        ) && start.sandbox_id == id && start.command@.len() > 0),
        StartRun::Over => step matches Step::Done(Ok(run)) && is_reuse(run, config, id),
        _ => false,
    }
}

proof fn run_reuses(
    op: StartRun,
    step: Step<StartedRun>,
    events: Seq<Event<StateModel>>,
    from: World,
    to: World,
    end: Result<StartedRun, HyperboxError>,
    config: ConfigModel,
    id: SandboxId,
    terms: Terms,
)
    requires
        terms.smooth,
        reuses(op, step, from, config, id, terms),
        runs(op, step, events, starting(terms), from, to, end),
    ensures
        end matches Ok(run) && is_reuse(run, config, id),
    decreases events.len(),
{
    if step is Ask {
        let name = name_of_session(config);
        let (next, s) = goes(op, step, events, starting(terms), from, to, end);
        let x = events[0];
        assert(with_starting(x.effect, x.reply, from, x.heard, terms));
        match x.effect {
            Effect::CleanupExpired => {
                cleanup_is_heard(x.reply, from, x.heard, terms);
                cleaning_leaves_idle(id, from, x.heard, terms);
                assert(holds_session(x.heard, name, id));
            },
            Effect::ResolveAffinity(n, _) => {
                session_is_found(n, id, x.reply, from, x.heard, terms);
            },
            Effect::PrepareRun(i, overflow) => {
                idle_box_is_prepared(i, overflow, name, x.reply, from, x.heard, terms);
            },
            Effect::RunEnsure(i, commands, secs) => {
                setup_is_heard(i, commands, secs, x.reply, from, x.heard, terms);
            },
            Effect::StartProcess(start) => {
                start_is_heard(start, name, x.reply, from, x.heard, terms);
            },
            _ => {},
        }
        if s is Ask && (s->Ask_0 is StartProcess) {
            let start = s->Ask_0->StartProcess_0;
            assert(views(start.command@).len() == 3);
        }
        run_reuses(next, s, events.drop_first(), x.after, to, end, config, id, terms);
    }
}

/// A sandbox that is made under a name is the session of that name, and idle.
proof fn creation_is_heard(
    config: SandboxConfig,
    name: Seq<char>,
    reply: Reply,
    from: World,
    to: World,
    terms: Terms,
)
    requires
        keeps_processes(from.store),
        config@.affinity_name == Some(name),
        with_finding(Effect::CreateSandbox(config), reply, from, to, terms),
    ensures
        reply is Info || reply is Failed,
        reply matches Reply::Info(info) ==> has_idle_session(to, name, info.id, terms),
{
    let (events, end) = choose|
        events: Seq<Event<(StateModel, StateModel)>>,
        end: Result<SandboxInfo, HyperboxError>,
    |
        tells_info(reply, end) && #[trigger] runs(
            CreateSandbox::Hydrating(config),
            Step::Ask(Effect::EnsureHydrated),
            events,
            plain(terms),
            from,
            to,
            end,
        );
    let all = plain(terms);
    let (a, s) = goes(
        CreateSandbox::Hydrating(config),
        Step::Ask(Effect::EnsureHydrated),
        events,
        all,
        from,
        to,
        end,
    );
    let x = events[0];
    assert(plainly(x.effect, x.reply, from, x.heard, terms));
    if s is Ask {
        let rest = events.drop_first();
        let (b, t) = goes(a, s, rest, all, x.after, to, end);
        let y = rest[0];
        assert(plainly(y.effect, y.reply, x.after, y.heard, terms));
        if t is Ask {
            let rest = rest.drop_first();
            let (c, u) = goes(b, t, rest, all, y.after, to, end);
            let z = rest[0];
            assert(plainly(z.effect, z.reply, y.after, z.heard, terms));
            if u is Ask {
                let lease = z.reply->Lease_0;
                let rest = rest.drop_first();
                let (d, v) = goes(c, u, rest, all, z.after, to, end);
                let bound = rest[0];
                assert(plainly(bound.effect, bound.reply, z.after, bound.heard, terms));
                let now = choose|now: TimeModel|
                    bound.heard == #[trigger] with_name(z.after, name, lease.id, now);
                assert(bound.heard == with_name(z.after, name, lease.id, now));
                let rest = rest.drop_first();
                let (e, w) = goes(d, v, rest, all, bound.after, to, end);
                let active = rest[0];
                assert(plainly(active.effect, active.reply, bound.after, active.heard, terms));
                assert(w is Done);
                assert(rest.drop_first().len() == 0);
                assert(to.store.processes == from.store.processes);
            }
        }
    }
}

/// Looking for the sandbox of a name changes no process.
proof fn search_is_heard(name: String, reply: Reply, from: World, to: World, terms: Terms)
    requires
        with_finding(Effect::ResolveAffinity(name, false), reply, from, to, terms),
    ensures
        reply is Resolved || reply is Failed,
        to.store.processes == from.store.processes,
{
    let (events, end) = choose|
        events: Seq<Event<()>>,
        end: Result<(SandboxInfo, bool), HyperboxError>,
    |
        tells_resolved(reply, end) && #[trigger] runs(
            ResolveAffinity::Hydrating(name, false),
            Step::Ask(Effect::EnsureHydrated),
            events,
            plain(terms),
            from,
            to,
            end,
        );
    let all = plain(terms);
    let (a, s) = goes(
        ResolveAffinity::Hydrating(name, false),
        Step::Ask(Effect::EnsureHydrated),
        events,
        all,
        from,
        to,
        end,
    );
    let x = events[0];
    assert(plainly(x.effect, x.reply, from, x.heard, terms));
    let rest = events.drop_first();
    let (b, t) = goes(a, s, rest, all, from, to, end);
    let y = rest[0];
    assert(plainly(y.effect, y.reply, from, y.heard, terms));
    if t is Ask {
        let rest = rest.drop_first();
        let (c, u) = goes(b, t, rest, all, from, to, end);
        let z = rest[0];
        assert(plainly(z.effect, z.reply, from, z.heard, terms));
        if u is Ask {
            let rest = rest.drop_first();
            let (d, v) = goes(c, u, rest, all, z.after, to, end);
            let cleared = rest[0];
            assert(plainly(cleared.effect, cleared.reply, z.after, cleared.heard, terms));
            assert(v is Done);
        }
    }
}

/// A run on its way in the session of its settings, which it may create.
spec fn opens(
    op: StartRun,
    step: Step<StartedRun>,
    w: World,
    config: ConfigModel,
    terms: Terms,
) -> bool {
    let name = name_of_session(config);
    let named = ConfigModel { affinity_name: Some(name), ..config };
    match op {
        StartRun::Hydrating(r) => keeps_processes(w.store) && wants_session(r, config) && step
            == Step::<StartedRun>::Ask(Effect::EnsureHydrated),
        StartRun::Cleaning(r) => keeps_processes(w.store) && wants_session(r, config) && step
            == Step::<StartedRun>::Ask(Effect::CleanupExpired),
        StartRun::ResolvingName(_) => false,
        StartRun::ResolvingSession(plan, c) => keeps_processes(w.store) && in_session(plan, config)
            && !plan.session_created && c@ == named && (step matches Step::Ask(
            Effect::ResolveAffinity(_, restore),
        ) && !restore),
        StartRun::Creating(plan) => keeps_processes(w.store) && in_session(plan, config)
            && plan.session_created && (step matches Step::Ask(Effect::CreateSandbox(c)) && c@
            == named),
        StartRun::Preparing(plan) => in_session(plan, config) && !plan.session_created && (step
            matches Step::Ask(e) && e is PrepareRun),
        StartRun::Writing(plan, prepared) => in_session(plan, config) && (plan.session_created
            ==> has_idle_session(w, name, prepared.info.id, terms)) && (step matches Step::Ask(e)
            && e is WriteFile),
        StartRun::Ensuring(plan, prepared) => in_session(plan, config) && (plan.session_created
            ==> has_idle_session(w, name, prepared.info.id, terms)) && (step matches Step::Ask(e)
            && e is RunEnsure),
        StartRun::Starting(plan, info) => in_session(plan, config) && (plan.session_created
            ==> has_idle_session(w, name, info.id, terms)) && (step matches Step::Ask(
            Effect::StartProcess(start),
        ) && start.sandbox_id == info.id && start.command@.len() > 0),
        StartRun::Over => step matches Step::Done(done) && (done matches Ok(run) ==> opt_view(
            run.session_name,
        ) == Some(name) && (run.session_created ==> holds_session(w, name, run.sandbox.id))),
    }
}

proof fn run_opens(
    op: StartRun,
    step: Step<StartedRun>,
    events: Seq<Event<StateModel>>,
    from: World,
    to: World,
    end: Result<StartedRun, HyperboxError>,
    config: ConfigModel,
    terms: Terms,
)
    requires
        opens(op, step, from, config, terms),
        runs(op, step, events, starting(terms), from, to, end),
    ensures
        end matches Ok(run) ==> opt_view(run.session_name) == Some(name_of_session(config)) && (
        run.session_created ==> holds_session(to, name_of_session(config), run.sandbox.id)),
    decreases events.len(),
{
    if step is Ask {
        let name = name_of_session(config);
        let (next, s) = goes(op, step, events, starting(terms), from, to, end);
        let x = events[0];
        assert(with_starting(x.effect, x.reply, from, x.heard, terms));
        match x.effect {
            Effect::CleanupExpired => {
                cleanup_is_heard(x.reply, from, x.heard, terms);
            },
            Effect::ResolveAffinity(n, _) => {
                search_is_heard(n, x.reply, from, x.heard, terms);
            },
            Effect::CreateSandbox(c) => {
                creation_is_heard(c, name, x.reply, from, x.heard, terms);
            },
            Effect::PrepareRun(i, overflow) => {
                assert(x.reply is Prepared || x.reply is Failed);
            },
            Effect::RunEnsure(i, commands, secs) => {
                setup_is_heard(i, commands, secs, x.reply, from, x.heard, terms);
            },
            Effect::StartProcess(start) => {
                if op->Starting_0.session_created {
                    start_is_heard(start, name, x.reply, from, x.heard, terms);
                } else {
                    assert(x.reply is Process || x.reply is Failed);
                }
            },
            _ => {},
        }
        if s is Ask && (s->Ask_0 is StartProcess) {
            let start = s->Ask_0->StartProcess_0;
            assert(views(start.command@).len() == 3);
        }
        run_opens(next, s, events.drop_first(), x.after, to, end, config, terms);
    }
}

/// A run that has created the session of its settings leaves it there: its name stands for the
/// sandbox of the run, which the backend has and the server knows.
pub proof fn created_sessions_are_there(
    request: StartRunRequest,
    config: ConfigModel,
    events: Seq<Event<StateModel>>,
    from: World,
    to: World,
    run: StartedRun,
    terms: Terms,
)
    requires
        keeps_processes(from.store),
        wants_session(request, config),
        runs(
            StartRun::Hydrating(request),
            Step::Ask(Effect::EnsureHydrated),
            events,
            starting(terms),
            from,
            to,
            Ok(run),
        ),
    ensures
        opt_view(run.session_name) == Some(name_of_session(config)),
        run.session_created ==> holds_session(to, name_of_session(config), run.sandbox.id),
{
    run_opens(
        StartRun::Hydrating(request),
        Step::Ask(Effect::EnsureHydrated),
        events,
        from,
        to,
        Ok(run),
        config,
        terms,
    );
}

/// Two runs with the same settings share one session. Once the first has created it, and while the
/// sandbox is spared and all its processes are over, the second takes place in the same sandbox
/// under the same name, creates nothing, and its process runs, where all goes smoothly.
pub proof fn runs_with_the_same_settings_share_a_session(
    config: ConfigModel,
    first_request: StartRunRequest,
    first_events: Seq<Event<StateModel>>,
    start: World,
    between: World,
    first: StartedRun,
    first_terms: Terms,
    later: World,
    second_request: StartRunRequest,
    second_events: Seq<Event<StateModel>>,
    to: World,
    end: Result<StartedRun, HyperboxError>,
    terms: Terms,
)
    requires
        keeps_processes(start.store),
        wants_session(first_request, config),
        runs(
            StartRun::Hydrating(first_request),
            Step::Ask(Effect::EnsureHydrated),
            first_events,
            starting(first_terms),
            start,
            between,
            Ok(first),
        ),
        first.session_created,
        // What happened since has left the sandbox there; its processes have ended, and those
        // that would take it with them are still kept.
        spares(first.sandbox.id, between, later),
        keeps_processes(later.store),
        is_idle(first.sandbox.id, later),
        box_lasts(first.sandbox.id, later, terms.limit),
        wants_session(second_request, config),
        trimmed(second_request.command@).len() > 0,
        terms.smooth,
        runs(
            StartRun::Hydrating(second_request),
            Step::Ask(Effect::EnsureHydrated),
            second_events,
            starting(terms),
            later,
            to,
            end,
        ),
    ensures
        end matches Ok(second) && {
            &&& !second.session_created
            &&& second.session_name is Some
            &&& opt_view(second.session_name) == opt_view(first.session_name)
            &&& second.sandbox.id == first.sandbox.id
            &&& second.process.status is Running
        },
{
    created_sessions_are_there(
        first_request,
        config,
        first_events,
        start,
        between,
        first,
        first_terms,
    );
    run_reuses(
        StartRun::Hydrating(second_request),
        Step::Ask(Effect::EnsureHydrated),
        second_events,
        later,
        to,
        end,
        config,
        first.sandbox.id,
        terms,
    );
}

} // verus!
