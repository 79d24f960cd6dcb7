//! Operations from their beginning to their end: what they ask for, what they hear, and what they
//! come to.

use crate::affinity::{session_name, workspace_scope};
use crate::config::{ConfigModel, SandboxConfig};
use crate::error::HyperboxError;
use crate::model::{SandboxId, SandboxInfo};
use crate::process::{ProcessInfo, ProcessLogRead, ProcessModel};
use crate::server::effects::{
    comes_to, goes_through, Effect, Exchange, Operation, PreparedRunSandbox, ProcessStart, Reply,
    Step,
};
use crate::server::launch::{ReadProcessLog, StartProcess};
use crate::server::lifecycle::{CreateSandbox, ResolveAffinity};
use crate::server::processes::{
    CancelProcess, Clock, FindActiveProcess, GetProcess, RefreshProcess,
};
use crate::server::run::{PrepareRun, RunPlan, StartRun, StartRunRequest, StartedRun};
use crate::server::state::StateModel;
use crate::text::opt_view;
use vstd::prelude::*;

verus! {

impl Operation for CancelProcess {
    type Output = ProcessInfo;

    /// The milliseconds since the processes were told to end.
    type World = u64;

    open spec fn moves(
        self,
        reply: Reply,
        world: u64,
        next: Self,
        step: Step<ProcessInfo>,
    ) -> bool {
        self.follows(reply, world, next, step)
    }
}

impl Operation for GetProcess {
    type Output = ProcessInfo;

    type World = ();

    open spec fn moves(self, reply: Reply, world: (), next: Self, step: Step<ProcessInfo>) -> bool {
        self.follows(reply, next, step)
    }
}

impl Operation for RefreshProcess {
    type Output = ProcessInfo;

    type World = Clock;

    open spec fn moves(
        self,
        reply: Reply,
        world: Clock,
        next: Self,
        step: Step<ProcessInfo>,
    ) -> bool {
        self.follows(reply, world, next, step)
    }
}

impl Operation for ReadProcessLog {
    type Output = ProcessLogRead;

    type World = ();

    open spec fn moves(
        self,
        reply: Reply,
        world: (),
        next: Self,
        step: Step<ProcessLogRead>,
    ) -> bool {
        self.follows(reply, next, step)
    }
}

/// A process is over exactly where it has an end and an expiry.
pub open spec fn ends_agree(p: ProcessModel) -> bool {
    p.status.terminal() == (p.finished_at is Some) && p.status.terminal() == (p.expires_at is Some)
}

/// Whatever a refresh comes to is on record: it is as it was recorded, or it was recorded on the
/// way.
pub proof fn refreshed_processes_are_recorded(
    p: ProcessInfo,
    script: Effect,
    exchanges: Seq<Exchange<Clock>>,
    q: ProcessInfo,
)
    requires
        comes_to(RefreshProcess::Probing(p), Step::Ask(script), exchanges, Ok(q)),
    ensures
        q@ == p@ || exists|i: int|
            0 <= i < exchanges.len() && ((#[trigger] exchanges[i]).effect
                matches Effect::StoreUpsertProcess(r) && r@ == q@) && exchanges[i].reply is Unit,
{
    let (a, s) = goes_through(
        RefreshProcess::Probing(p),
        Step::Ask(script),
        exchanges,
        Ok(q),
    );
    if s is Ask {
        let rest = exchanges.drop_first();
        let (b, t) = goes_through(a, s, rest, Ok(q));
        assert(rest[0] == exchanges[1]);
        assert(t == Step::<ProcessInfo>::Done(Ok(q)));
    } else {
        assert(s == Step::<ProcessInfo>::Done(Ok(q)));
    }
}

/// Every process that is recorded on the way is over exactly where it has an end.
pub open spec fn records_agreeing<W>(exchanges: Seq<Exchange<W>>) -> bool {
    forall|i: int|
        0 <= i < exchanges.len() ==> ((#[trigger] exchanges[i]).effect
            matches Effect::StoreUpsertProcess(p) ==> ends_agree(p@))
}

/// Where a step records a process or ends with one, that process is over exactly where it has an
/// end.
spec fn tells_agreeing(step: Step<ProcessInfo>) -> bool {
    match step {
        Step::Ask(Effect::StoreUpsertProcess(p)) => ends_agree(p@),
        Step::Done(Ok(p)) => ends_agree(p@),
        _ => true,
    }
}

spec fn start_agrees(op: StartProcess) -> bool {
    match op {
        StartProcess::Recording(p) | StartProcess::Launching(p) => p.status is Starting
            && ends_agree(p@),
        StartProcess::SavingRunning(p) => ends_agree(p@),
        _ => true,
    }
}

proof fn start_keeps_agreeing(
    op: StartProcess,
    step: Step<ProcessInfo>,
    exchanges: Seq<Exchange<Clock>>,
    end: Result<ProcessInfo, HyperboxError>,
)
    requires
        start_agrees(op),
        tells_agreeing(step),
        comes_to(op, step, exchanges, end),
    ensures
        records_agreeing(exchanges),
        end matches Ok(p) ==> ends_agree(p@),
    decreases exchanges.len(),
{
    if step is Ask {
        let (next, s) = goes_through(op, step, exchanges, end);
        let rest = exchanges.drop_first();
        start_keeps_agreeing(next, s, rest, end);
        assert forall|i: int| 0 <= i < exchanges.len() implies ((#[trigger] exchanges[i]).effect
            matches Effect::StoreUpsertProcess(p) ==> ends_agree(p@)) by {
            if i > 0 {
                assert(exchanges[i] == rest[i - 1]);
            }
        }
    }
}

/// Every process that a start records or hands out is over exactly where it has an end and an
/// expiry.
pub proof fn started_processes_agree(
    start: ProcessStart,
    exchanges: Seq<Exchange<Clock>>,
    end: Result<ProcessInfo, HyperboxError>,
)
    requires
        comes_to(
            StartProcess::Hydrating(start),
            Step::Ask(Effect::EnsureHydrated),
            exchanges,
            end,
        ),
    ensures
        records_agreeing(exchanges),
        end matches Ok(p) ==> ends_agree(p@),
{
    start_keeps_agreeing(
        StartProcess::Hydrating(start),
        Step::Ask(Effect::EnsureHydrated),
        exchanges,
        end,
    );
}

spec fn refresh_agrees(op: RefreshProcess) -> bool {
    match op {
        RefreshProcess::Probing(p) | RefreshProcess::Saving(p) => ends_agree(p@),
        RefreshProcess::Over => true,
    }
}

proof fn refresh_keeps_agreeing(
    op: RefreshProcess,
    step: Step<ProcessInfo>,
    exchanges: Seq<Exchange<Clock>>,
    end: Result<ProcessInfo, HyperboxError>,
)
    requires
        refresh_agrees(op),
        tells_agreeing(step),
        comes_to(op, step, exchanges, end),
    ensures
        records_agreeing(exchanges),
        end matches Ok(p) ==> ends_agree(p@),
    decreases exchanges.len(),
{
    if step is Ask {
        let (next, s) = goes_through(op, step, exchanges, end);
        let rest = exchanges.drop_first();
        refresh_keeps_agreeing(next, s, rest, end);
        assert forall|i: int| 0 <= i < exchanges.len() implies ((#[trigger] exchanges[i]).effect
            matches Effect::StoreUpsertProcess(p) ==> ends_agree(p@)) by {
            if i > 0 {
                assert(exchanges[i] == rest[i - 1]);
            }
        }
    }
}

/// A refresh keeps it so: a process that is over exactly where it has an end and an expiry is
/// recorded and handed out as one that is.
pub proof fn refreshed_processes_agree(
    p: ProcessInfo,
    step: Step<ProcessInfo>,
    exchanges: Seq<Exchange<Clock>>,
    end: Result<ProcessInfo, HyperboxError>,
)
    requires
        ends_agree(p@),
        comes_to(RefreshProcess::Probing(p), step, exchanges, end),
        step matches Step::Ask(e) && e is Exec,
    ensures
        records_agreeing(exchanges),
        end matches Ok(q) ==> ends_agree(q@),
{
    refresh_keeps_agreeing(RefreshProcess::Probing(p), step, exchanges, end);
}

impl Operation for StartRun {
    type Output = StartedRun;

    type World = StateModel;

    open spec fn moves(
        self,
        reply: Reply,
        world: StateModel,
        next: Self,
        step: Step<StartedRun>,
    ) -> bool {
        self.follows(reply, next, step, world)
    }
}

impl Operation for CreateSandbox {
    type Output = SandboxInfo;

    /// What the server remembers before and after.
    type World = (StateModel, StateModel);

    open spec fn moves(
        self,
        reply: Reply,
        world: (StateModel, StateModel),
        next: Self,
        step: Step<SandboxInfo>,
    ) -> bool {
        self.follows(reply, next, step, world.0, world.1)
    }
}

impl Operation for ResolveAffinity {
    type Output = (SandboxInfo, bool);

    type World = ();

    open spec fn moves(
        self,
        reply: Reply,
        world: (),
        next: Self,
        step: Step<(SandboxInfo, bool)>,
    ) -> bool {
        self.follows(reply, next, step)
    }
}

impl Operation for PrepareRun {
    type Output = PreparedRunSandbox;

    type World = ();

    open spec fn moves(
        self,
        reply: Reply,
        world: (),
        next: Self,
        step: Step<PreparedRunSandbox>,
    ) -> bool {
        self.follows(reply, next, step)
    }
}

impl Operation for FindActiveProcess {
    type Output = Option<ProcessInfo>;

    type World = ();

    open spec fn moves(
        self,
        reply: Reply,
        world: (),
        next: Self,
        step: Step<Option<ProcessInfo>>,
    ) -> bool {
        self.follows(reply, next, step)
    }
}

impl Operation for StartProcess {
    type Output = ProcessInfo;

    type World = Clock;

    open spec fn moves(
        self,
        reply: Reply,
        world: Clock,
        next: Self,
        step: Step<ProcessInfo>,
    ) -> bool {
        self.follows(reply, world, next, step)
    }
}

/// A request for a run in the session of its settings.
pub open spec fn wants_session(request: StartRunRequest, config: ConfigModel) -> bool {
    &&& request.sandbox_id is None
    &&& request.affinity_name is None
    &&& request.reuse_auto_session
    &&& request.create_config matches Some(c)
    &&& c@ == config
}

/// The name of the session of some settings.
pub open spec fn name_of_session(config: ConfigModel) -> Seq<char> {
    session_name(config.template, workspace_scope(config.workspace_dir), config.network)
}

/// The plan belongs to the session.
pub open spec fn in_session(plan: RunPlan, config: ConfigModel) -> bool {
    opt_view(plan.session_name) == Some(name_of_session(config))
}

/// A run on its way that belongs to the session of its settings.
spec fn stays_in_session(op: StartRun, step: Step<StartedRun>, config: ConfigModel) -> bool {
    match op {
        StartRun::Hydrating(r) => wants_session(r, config) && !(step is Done),
        StartRun::Cleaning(r) => wants_session(r, config) && !(step is Done),
        StartRun::ResolvingName(_) => false,
        StartRun::ResolvingSession(plan, c) => in_session(plan, config) && c@ == (ConfigModel {
            affinity_name: Some(name_of_session(config)),
            ..config
        }) && !plan.session_created && !(step is Done),
        StartRun::Preparing(plan) => in_session(plan, config) && !plan.session_created && !(
        step is Done),
        StartRun::Creating(plan) => in_session(plan, config) && plan.session_created && (step is Ask
            ==> (step matches Step::Ask(Effect::CreateSandbox(c)) && c@ == (ConfigModel {
            affinity_name: Some(name_of_session(config)),
            ..config
        }))) && !(step is Done),
        StartRun::Writing(plan, _) => in_session(plan, config) && !(step is Done),
        StartRun::Ensuring(plan, _) => in_session(plan, config) && !(step is Done),
        StartRun::Starting(plan, _) => in_session(plan, config) && !(step is Done),
        StartRun::Over => step matches Step::Done(Ok(run)) ==> opt_view(run.session_name) == Some(
            name_of_session(config),
        ),
    }
}

/// A run on its way in this sandbox, of a session that was created or not.
spec fn stays_in(op: StartRun, step: Step<StartedRun>, info: SandboxInfo, created: bool) -> bool {
    match op {
        StartRun::Writing(plan, prepared) => prepared.info == info && plan.session_created
            == created && !(step is Done),
        StartRun::Ensuring(plan, prepared) => prepared.info == info && plan.session_created
            == created && !(step is Done),
        StartRun::Starting(plan, i) => i == info && plan.session_created == created && !(
        step is Done),
        StartRun::Over => step matches Step::Done(Ok(run)) ==> run.sandbox == info
            && run.session_created == created,
        _ => false,
    }
}

proof fn run_ends_where_it_is(
    op: StartRun,
    step: Step<StartedRun>,
    exchanges: Seq<Exchange<StateModel>>,
    run: StartedRun,
    info: SandboxInfo,
    created: bool,
)
    requires
        stays_in(op, step, info, created),
        comes_to(op, step, exchanges, Ok(run)),
    ensures
        run.sandbox == info,
        run.session_created == created,
    decreases exchanges.len(),
{
    if step is Ask {
        let (next, s) = goes_through(op, step, exchanges, Ok(run));
        run_ends_where_it_is(next, s, exchanges.drop_first(), run, info, created);
    }
}

/// The sandbox was made for the session of some settings, under its name.
pub open spec fn made_for_session(
    x: Exchange<StateModel>,
    config: ConfigModel,
    info: SandboxInfo,
) -> bool {
    &&& x.effect matches Effect::CreateSandbox(c)
    &&& c@ == (ConfigModel { affinity_name: Some(name_of_session(config)), ..config })
    &&& x.reply == Reply::Info(info)
}

proof fn run_ends_in_its_session(
    op: StartRun,
    step: Step<StartedRun>,
    exchanges: Seq<Exchange<StateModel>>,
    run: StartedRun,
    config: ConfigModel,
)
    requires
        stays_in_session(op, step, config),
        comes_to(op, step, exchanges, Ok(run)),
    ensures
        opt_view(run.session_name) == Some(name_of_session(config)),
        run.session_created && !(op is Writing || op is Ensuring || op is Starting || op is Over)
            ==> exists|i: int|
            0 <= i < exchanges.len() && made_for_session(
                #[trigger] exchanges[i],
                config,
                run.sandbox,
            ),
    decreases exchanges.len(),
{
    if step is Ask {
        let (next, s) = goes_through(op, step, exchanges, Ok(run));
        let rest = exchanges.drop_first();
        run_ends_in_its_session(next, s, rest, run, config);
        if op is Creating && exchanges[0].reply is Info {
            let info = exchanges[0].reply->Info_0;
            run_ends_where_it_is(next, s, rest, run, info, true);
            assert(made_for_session(exchanges[0], config, run.sandbox));
        } else if run.session_created && !(op is Writing || op is Ensuring || op is Starting
            || op is Over) {
            if op is Preparing && exchanges[0].reply is Prepared {
                let prepared = exchanges[0].reply->Prepared_0;
                run_ends_where_it_is(next, s, rest, run, prepared.info, false);
            }
            if !(next is Over) {
                let i = choose|i: int|
                    0 <= i < rest.len() && made_for_session(
                        #[trigger] rest[i],
                        config,
                        run.sandbox,
                    );
                assert(rest[i] == exchanges[i + 1]);
            }
        }
    }
}

/// A run in the session of its settings is named by them alone, and says so. Where the session is
/// created for it, its sandbox is made under that name.
pub proof fn settings_name_the_session(
    request: StartRunRequest,
    config: ConfigModel,
    exchanges: Seq<Exchange<StateModel>>,
    run: StartedRun,
)
    requires
        wants_session(request, config),
        comes_to(
            StartRun::Hydrating(request),
            Step::Ask(Effect::EnsureHydrated),
            exchanges,
            Ok(run),
        ),
    ensures
        opt_view(run.session_name) == Some(name_of_session(config)),
        run.session_created ==> exists|i: int|
            0 <= i < exchanges.len() && made_for_session(
                #[trigger] exchanges[i],
                config,
                run.sandbox,
            ),
{
    run_ends_in_its_session(
        StartRun::Hydrating(request),
        Step::Ask(Effect::EnsureHydrated),
        exchanges,
        run,
        config,
    );
}

/// A sandbox that is made with a name is bound to it in the store, and known to the server,
/// before it is handed out.
pub proof fn named_sandboxes_are_bound(
    config: SandboxConfig,
    exchanges: Seq<Exchange<(StateModel, StateModel)>>,
    info: SandboxInfo,
    name: Seq<char>,
)
    requires
        config@.affinity_name == Some(name),
        comes_to(
            CreateSandbox::Hydrating(config),
            Step::Ask(Effect::EnsureHydrated),
            exchanges,
            Ok(info),
        ),
    ensures
        exchanges.len() == 5,
        exchanges[2].reply matches Reply::Lease(lease) && lease.info == info && (
        exchanges[3].effect matches Effect::StoreBind(n, id) && n@ == name && id == lease.id)
            && exchanges[3].reply is Unit && exchanges[4].world.1.sandboxes.contains_key(
            lease.id.0,
        ),
{
    let begin = CreateSandbox::Hydrating(config);
    let hydrate = Step::<SandboxInfo>::Ask(Effect::EnsureHydrated);
    let (a, s) = goes_through(begin, hydrate, exchanges, Ok(info));
    let rest = exchanges.drop_first();
    assert(s is Ask);
    let (b, t) = goes_through(a, s, rest, Ok(info));
    assert(rest[0] == exchanges[1]);
    let rest = rest.drop_first();
    assert(t is Ask);
    let (c, u) = goes_through(b, t, rest, Ok(info));
    assert(rest[0] == exchanges[2]);
    let rest = rest.drop_first();
    assert(u is Ask);
    let (d, v) = goes_through(c, u, rest, Ok(info));
    assert(rest[0] == exchanges[3]);
    let rest = rest.drop_first();
    assert(v is Ask);
    let (e, w) = goes_through(d, v, rest, Ok(info));
    assert(rest[0] == exchanges[4]);
    assert(rest.drop_first().len() == 0);
}

/// A process that a start hands out runs.
pub proof fn started_processes_run(
    op: StartProcess,
    step: Step<ProcessInfo>,
    exchanges: Seq<Exchange<Clock>>,
    p: ProcessInfo,
)
    requires
        op matches StartProcess::SavingRunning(q) ==> q.status is Running,
        step matches Step::Done(Ok(q)) ==> q.status is Running,
        comes_to(op, step, exchanges, Ok(p)),
    ensures
        p.status is Running,
    decreases exchanges.len(),
{
    if step is Ask {
        let (next, s) = goes_through(op, step, exchanges, Ok(p));
        started_processes_run(next, s, exchanges.drop_first(), p);
    }
}

/// The run took place in this sandbox, as the session of its settings, which was there already.
pub open spec fn is_reuse(run: StartedRun, config: ConfigModel, id: SandboxId) -> bool {
    &&& !run.session_created
    &&& opt_view(run.session_name) == Some(name_of_session(config))
    &&& run.sandbox.id == id
    &&& run.process.status is Running
}

} // verus!
