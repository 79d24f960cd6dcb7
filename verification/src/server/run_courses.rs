//! Runs from their request to their process: which sandbox they take, what is done there before,
//! and what is started.

use crate::config::ConfigModel;
use crate::model::SandboxId;
use crate::server::effects::{
    comes_to, goes_through, Effect, Exchange, PreparedRunSandbox, Reply, Step,
};
use crate::server::run::{PrepareRun, RunPlan, StartRun, StartRunRequest, StartedRun};
use crate::server::state::StateModel;
use crate::text::views;
use vstd::prelude::*;

verus! {

/// The work of a plan is that of a request.
spec fn serves(plan: RunPlan, request: StartRunRequest) -> bool {
    &&& plan.ensure_commands == request.ensure_commands
    &&& plan.command == request.command
    &&& plan.destroy_sandbox_on_expiry == request.destroy_sandbox_on_expiry
}

/// The last of some exchanges start the command of a request in a sandbox, after its setup.
pub open spec fn starts_command(
    last: Seq<Exchange<StateModel>>,
    request: StartRunRequest,
    run: StartedRun,
) -> bool {
    let n = last.len() as int;
    &&& n >= 2
    &&& last[n - 2].effect matches Effect::RunEnsure(id, commands, _)
    &&& id == run.sandbox.id
    &&& views(commands@) == views(request.ensure_commands@)
    &&& last[n - 2].reply is Unit
    &&& last[n - 1].effect matches Effect::StartProcess(start)
    &&& start.sandbox_id == run.sandbox.id
    &&& views(start.command@) == seq!["/bin/sh"@, "-lc"@, request.command@]
    &&& request.destroy_sandbox_on_expiry ==> start.destroy_sandbox_on_expiry
    &&& start.destroy_sandbox_on_expiry ==> request.destroy_sandbox_on_expiry
        || start.disposition is CreatedDueToBusy
    &&& last[n - 1].reply == Reply::Process(run.process)
}

/// Files are written to a sandbox, in their order.
pub open spec fn writes_files(
    exchanges: Seq<Exchange<StateModel>>,
    id: SandboxId,
    files: Seq<(String, Vec<u8>)>,
) -> bool {
    exchanges.len() >= files.len() && forall|i: int|
        0 <= i < files.len() ==> ((#[trigger] exchanges[i]).effect matches Effect::WriteFile(to, f)
            && to == id && f.path == files[i].0 && f.bytes == files[i].1 && exchanges[i].reply
            is Unit)
}

proof fn files_come_before_the_start(
    op: StartRun,
    plan: RunPlan,
    prepared: PreparedRunSandbox,
    state: StateModel,
    step: Step<StartedRun>,
    request: StartRunRequest,
    exchanges: Seq<Exchange<StateModel>>,
    run: StartedRun,
)
    requires
        StartRun::writes_on(plan, prepared, state, op, step),
        serves(plan, request),
        comes_to(op, step, exchanges, Ok(run)),
    ensures
        exchanges.len() == plan.writes@.len() + 2,
        writes_files(exchanges, prepared.info.id, plan.writes@),
        run.sandbox == prepared.info,
        starts_command(exchanges, request, run),
        run.session_name == plan.session_name,
        run.session_created == plan.session_created,
    decreases plan.writes@.len(),
{
    assert(step is Ask);
    if plan.writes@.len() > 0 {
        let p = op->Writing_0;
        let (next, s) = goes_through(op, step, exchanges, Ok(run));
        let rest = exchanges.drop_first();
        files_come_before_the_start(
            next,
            p,
            prepared,
            exchanges[0].world,
            s,
            request,
            rest,
            run,
        );
        let n = exchanges.len() as int;
        assert(rest[n - 2] == exchanges[n - 1] && rest[n - 3] == exchanges[n - 2]);
        assert forall|i: int| 0 <= i < plan.writes@.len() implies ((
        #[trigger] exchanges[i]).effect matches Effect::WriteFile(to, f) && to == prepared.info.id
            && f.path == plan.writes@[i].0 && f.bytes == plan.writes@[i].1 && exchanges[i].reply
            is Unit) by {
            if i > 0 {
                assert(rest[i - 1] == exchanges[i]);
                assert(p.writes@[i - 1] == plan.writes@[i]);
            }
        }
    } else {
        let p = op->Ensuring_0;
        setup_of_any_plan(p, prepared, step, request, exchanges, run);
    }
}

proof fn setup_of_any_plan(
    plan: RunPlan,
    prepared: PreparedRunSandbox,
    step: Step<StartedRun>,
    request: StartRunRequest,
    exchanges: Seq<Exchange<StateModel>>,
    run: StartedRun,
)
    requires
        plan.command == request.command,
        plan.destroy_sandbox_on_expiry == request.destroy_sandbox_on_expiry,
        step matches Step::Ask(Effect::RunEnsure(id, commands, _)) && id == prepared.info.id
            && commands == request.ensure_commands,
        comes_to(StartRun::Ensuring(plan, prepared), step, exchanges, Ok(run)),
    ensures
        exchanges.len() == 2,
        run.sandbox == prepared.info,
        starts_command(exchanges, request, run),
        run.session_name == plan.session_name,
        run.session_created == plan.session_created,
{
    let (a, s) = goes_through(StartRun::Ensuring(plan, prepared), step, exchanges, Ok(run));
    let rest = exchanges.drop_first();
    let (b, t) = goes_through(a, s, rest, Ok(run));
    assert(rest[0] == exchanges[1]);
    assert(rest.drop_first().len() == 0);
}

/// The run goes to the sandbox with this identifier, or to one in place of it.
pub open spec fn prepares_in(x: Exchange<StateModel>, id: SandboxId, run: StartedRun) -> bool {
    &&& x.effect matches Effect::PrepareRun(asked, Some(_))
    &&& asked == id
    &&& x.reply matches Reply::Prepared(prepared)
    &&& prepared.info == run.sandbox
}

/// The sandbox of a run: the one that the request names by identifier, or else by name, restored
/// where it has to be, or else that of the session of its settings, or else a new one.
pub open spec fn takes_its_sandbox(
    request: StartRunRequest,
    exchanges: Seq<Exchange<StateModel>>,
    run: StartedRun,
    k: int,
) -> bool {
    match (request.sandbox_id, request.affinity_name, request.create_config) {
        (Some(id), _, _) => {
            &&& k == 3
            &&& prepares_in(exchanges[2], id, run)
            &&& run.session_name is None
            &&& !run.session_created
        },
        (None, Some(name), _) => {
            &&& k == 4
            &&& exchanges[2].effect matches Effect::ResolveAffinity(asked, restore)
            &&& asked@ == name@
            &&& restore
            &&& exchanges[2].reply matches Reply::Resolved(info, _)
            &&& prepares_in(exchanges[3], info.id, run)
            &&& run.session_name is None
            &&& !run.session_created
        },
        (None, None, Some(config)) => if !request.reuse_auto_session {
            &&& k == 3
            &&& exchanges[2].effect == Effect::CreateSandbox(config)
            &&& exchanges[2].reply == Reply::Info(run.sandbox)
            &&& run.session_name is None
            &&& !run.session_created
        } else {
            &&& k == 4
            &&& run.session_name matches Some(name)
            &&& exchanges[2].effect matches Effect::ResolveAffinity(asked, restore)
            &&& asked@ == name@
            &&& !restore
            &&& match exchanges[2].reply {
                Reply::Resolved(info, _) => prepares_in(exchanges[3], info.id, run)
                    && !run.session_created,
                _ => {
                    &&& exchanges[2].reply is Failed
                    &&& exchanges[3].effect matches Effect::CreateSandbox(c)
                    &&& c@ == (ConfigModel { affinity_name: Some(name@), ..config@ })
                    &&& exchanges[3].reply == Reply::Info(run.sandbox)
                    &&& run.session_created
                },
            }
        },
        (None, None, None) => false,
    }
}

proof fn run_goes_on_from(
    op: StartRun,
    step: Step<StartedRun>,
    request: StartRunRequest,
    exchanges: Seq<Exchange<StateModel>>,
    run: StartedRun,
)
    requires
        match op {
            StartRun::Preparing(plan) => serves(plan, request) && plan.writes == request.writes,
            StartRun::Creating(plan) => serves(plan, request) && plan.writes == request.writes,
            _ => false,
        },
        step is Ask,
        comes_to(op, step, exchanges, Ok(run)),
    ensures
        exchanges.len() == request.writes@.len() + 3,
        writes_files(exchanges.skip(1), run.sandbox.id, request.writes@),
        starts_command(exchanges, request, run),
        step == Step::<StartedRun>::Ask(exchanges[0].effect),
        match op {
            StartRun::Preparing(plan) => run.session_name == plan.session_name
                && run.session_created == plan.session_created && (exchanges[0].reply
                matches Reply::Prepared(p) && p.info == run.sandbox),
            StartRun::Creating(plan) => run.session_name == plan.session_name
                && run.session_created == plan.session_created && exchanges[0].reply
                == Reply::Info(run.sandbox),
            _ => true,
        },
{
    let (next, s) = goes_through(op, step, exchanges, Ok(run));
    let rest = exchanges.drop_first();
    let x = exchanges[0];
    let plan = match op {
        StartRun::Preparing(plan) => plan,
        StartRun::Creating(plan) => plan,
        _ => arbitrary(),
    };
    if s is Done {
        assert(rest.len() == 0);
        assert(false);
    }
    let prepared = match x.reply {
        Reply::Prepared(p) => p,
        _ => PreparedRunSandbox {
            info: x.reply->Info_0,
            requested_sandbox_id: None,
            disposition: crate::process::ProcessDisposition::CreatedNew,
        },
    };
    files_come_before_the_start(next, plan, prepared, x.world, s, request, rest, run);
    assert(exchanges.skip(1) =~= rest);
    let n = exchanges.len() as int;
    assert(rest[n - 2] == exchanges[n - 1] && rest[n - 3] == exchanges[n - 2]);
}

/// A run that has started is what was asked for. It took place in the sandbox that the request
/// names, in that of its session, or in a new one; the files of the request were written there
/// first, in their order, then its setup steps were carried out, and then its command was handed
/// to a shell. The process that came of that is the one of the run.
pub proof fn runs_do_what_is_asked(
    request: StartRunRequest,
    exchanges: Seq<Exchange<StateModel>>,
    run: StartedRun,
)
    requires
        comes_to(
            StartRun::Hydrating(request),
            Step::Ask(Effect::EnsureHydrated),
            exchanges,
            Ok(run),
        ),
    ensures
        ({
            let k = exchanges.len() - request.writes@.len() - 2;
            &&& k >= 3
            &&& exchanges[0].effect is EnsureHydrated
            &&& exchanges[1].effect is CleanupExpired
            &&& takes_its_sandbox(request, exchanges, run, k)
            &&& writes_files(exchanges.skip(k), run.sandbox.id, request.writes@)
            &&& starts_command(exchanges, request, run)
        }),
{
    let begin = StartRun::Hydrating(request);
    let hydrate = Step::<StartedRun>::Ask(Effect::EnsureHydrated);
    let (a, s) = goes_through(begin, hydrate, exchanges, Ok(run));
    let e1 = exchanges.drop_first();
    assert(s is Ask);
    let (b, t) = goes_through(a, s, e1, Ok(run));
    assert(e1[0] == exchanges[1]);
    let e2 = e1.drop_first();
    if t is Done {
        assert(e2.len() == 0);
        assert(false);
    }
    if b is Preparing || b is Creating {
        run_goes_on_from(b, t, request, e2, run);
        assert(e2[0] == exchanges[2]);
        assert(exchanges.skip(3) =~= e2.skip(1));
        let n = exchanges.len() as int;
        assert(e2[n - 3] == exchanges[n - 1] && e2[n - 4] == exchanges[n - 2]);
    } else {
        let (c, u) = goes_through(b, t, e2, Ok(run));
        assert(e2[0] == exchanges[2]);
        let e3 = e2.drop_first();
        if u is Done {
            assert(e3.len() == 0);
            assert(false);
        }
        run_goes_on_from(c, u, request, e3, run);
        assert(e3[0] == exchanges[3]);
        assert(exchanges.skip(4) =~= e3.skip(1));
        let n = exchanges.len() as int;
        assert(e3[n - 4] == exchanges[n - 1] && e3[n - 5] == exchanges[n - 2]);
    }
}

} // verus!
