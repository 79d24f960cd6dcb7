//! Runs: choosing the sandbox, preparing it, and starting the command in it.

use crate::affinity::{
    derive_auto_run_affinity_name, fnv1a64, session_name, text_hash, workspace_scope,
};
use crate::config::{ConfigModel, SandboxConfig};
use crate::error::{invalid_config, sandbox_not_found, HyperboxError};
use crate::ids::hyphenated;
use crate::model::{shell_model, ExecRequest, FilePayload, SandboxId, SandboxInfo};
use crate::numbers::{decimal_int, hex_digits, hex_text, i64_text};
use crate::process::{ProcessDisposition, ProcessInfo};
use crate::server::effects::{
    asks, asks_exec, fails, fails_with, Effect, PreparedRunSandbox, ProcessStart, Reply, Step,
};
use crate::server::launch::{busy_error, sandbox_is_busy};
use crate::server::state::{ServerState, StateModel};
use crate::text::{cat2, cat3, cat4, cat5, contains, has_text, opt_view, trim, trimmed, views};
use vstd::prelude::*;

verus! {

/// What a run is asked to be.
#[derive(Debug)]
pub struct StartRunRequest {
    pub sandbox_id: Option<SandboxId>,
    pub affinity_name: Option<String>,
    pub create_config: Option<SandboxConfig>,
    pub reuse_auto_session: bool,
    pub ensure_commands: Vec<String>,
    pub writes: Vec<(String, Vec<u8>)>,
    pub command: String,
    pub destroy_sandbox_on_expiry: bool,
}

/// A run that has started.
#[derive(Debug)]
pub struct StartedRun {
    pub process: ProcessInfo,
    pub sandbox: SandboxInfo,
    pub session_name: Option<String>,
    pub session_created: bool,
}

/// The file that marks a setup step as done.
pub open spec fn ensure_marker(command: Seq<char>) -> Seq<char> {
    ".hyperbox/ensure/"@ + hex_digits(text_hash(command) as nat, 16) + ".done"@
}

/// The script that carries out a setup step once.
pub open spec fn ensure_script(command: Seq<char>) -> Seq<char> {
    "set -e\nmkdir -p .hyperbox/ensure\nif [ ! -f \""@ + ensure_marker(command) + "\" ]; then\n"@
        + command + "\ntouch \""@ + ensure_marker(command) + "\"\nfi"@
}

/// A script that carries a step out where a file is not there, and makes the file after it.
pub open spec fn guarded(file: Seq<char>, step: Seq<char>) -> Seq<char> {
    "set -e\nmkdir -p .hyperbox/ensure\nif [ ! -f \""@ + file + "\" ]; then\n"@ + step
        + "\ntouch \""@ + file + "\"\nfi"@
}

/// A shell carries this step out when it runs the script where these files are.
pub open spec fn carries_out(script: Seq<char>, files: Set<Seq<char>>, step: Seq<char>) -> bool {
    exists|file: Seq<char>| #[trigger]
        guarded(file, step) == script && !file.contains('"') && !files.contains(file)
}

proof fn hex_has_no_quote(n: nat, width: nat)
    ensures
        !hex_digits(n, width).contains('"'),
    decreases width,
{
    if width > 0 {
        hex_has_no_quote(n / 16, (width - 1) as nat);
        let init = hex_digits(n / 16, (width - 1) as nat);
        let all = hex_digits(n, width);
        assert forall|i: int| 0 <= i < all.len() implies all[i] != '"' by {
            if i < init.len() {
                assert(init.contains(init[i]));
            } else {
                assert(all[i] == crate::numbers::hex_char(n % 16));
            }
        }
    }
}

proof fn guard_is_told_apart(a: Seq<char>, step: Seq<char>, b: Seq<char>, other: Seq<char>)
    requires
        !a.contains('"'),
        !b.contains('"'),
        guarded(a, step) == guarded(b, other),
    ensures
        a == b,
{
    reveal_strlit("\" ]; then\n");
    let head = "set -e\nmkdir -p .hyperbox/ensure\nif [ ! -f \""@;
    let n = head.len() as int;
    let s = guarded(a, step);
    if a.len() < b.len() {
        assert(s[n + a.len()] == '"');
        assert(guarded(b, other)[n + a.len()] == b[a.len() as int]);
        assert(b.contains(b[a.len() as int]));
    } else if b.len() < a.len() {
        assert(guarded(b, other)[n + b.len()] == '"');
        assert(s[n + b.len()] == a[b.len() as int]);
        assert(a.contains(a[b.len() as int]));
    } else {
        assert(s.subrange(n, n + a.len()) =~= a);
        assert(guarded(b, other).subrange(n, n + a.len()) =~= b);
    }
}

/// A setup step is carried out once: its script carries it out where its mark is not there, and
/// nothing once the mark is. The mark depends on the step alone, so that it is the same for every
/// run in the sandbox.
pub proof fn setup_steps_are_carried_out_once(command: Seq<char>, files: Set<Seq<char>>)
    ensures
        !files.contains(ensure_marker(command)) ==> carries_out(
            ensure_script(command),
            files,
            command,
        ),
        files.contains(ensure_marker(command)) ==> forall|step: Seq<char>|
            !carries_out(ensure_script(command), files, step),
{
    reveal_strlit(".hyperbox/ensure/");
    reveal_strlit(".done");
    let marker = ensure_marker(command);
    hex_has_no_quote(text_hash(command) as nat, 16);
    let digits = hex_digits(text_hash(command) as nat, 16);
    assert(!marker.contains('"')) by {
        let head = ".hyperbox/ensure/"@;
        assert forall|i: int| 0 <= i < marker.len() implies marker[i] != '"' by {
            if head.len() <= i < head.len() + digits.len() {
                assert(marker[i] == digits[i - head.len()]);
                assert(digits.contains(digits[i - head.len()]));
            }
        }
    }
    assert(guarded(marker, command) == ensure_script(command));
    assert forall|step: Seq<char>| files.contains(marker) implies !carries_out(
        ensure_script(command),
        files,
        step,
    ) by {
        if carries_out(ensure_script(command), files, step) {
            let file = choose|file: Seq<char>| #[trigger]
                guarded(file, step) == ensure_script(command) && !file.contains('"')
                    && !files.contains(file);
            guard_is_told_apart(marker, command, file, step);
        }
    }
}

/// What is said of a setup step that failed.
pub open spec fn ensure_failure(exit_code: i32, stderr: Seq<char>) -> Seq<char> {
    let why = trimmed(stderr);
    if why.len() == 0 {
        "--ensure step failed with exit code "@ + decimal_int(exit_code as int)
    } else {
        "--ensure step failed with exit code "@ + decimal_int(exit_code as int) + ": "@ + why
    }
}

/// Carrying out the setup steps of a run, one after the other.
#[derive(Debug)]
pub enum RunEnsure {
    Running(SandboxId, Vec<String>, u64),
    Over,
}

impl RunEnsure {
    /// With steps left the next one is carried out.
    pub open spec fn goes_on(
        id: SandboxId,
        left: Seq<String>,
        timeout_secs: u64,
        next: Self,
        step: Step<()>,
    ) -> bool {
        if left.len() > 0 {
            &&& next matches RunEnsure::Running(i, rest, t)
            &&& i == id
            &&& rest@ == left.subrange(1, left.len() as int)
            &&& t == timeout_secs
            &&& asks_exec(step, id, shell_model(ensure_script(left[0]@), timeout_secs))
        } else {
            next is Over && step == Step::<()>::Done(Ok(()))
        }
    }

    fn script(command: &str) -> (r: String)
        ensures
            r@ == ensure_script(command@),
    {
        let hash: u64 = fnv1a64(command.as_bytes());
        let digits = hex_text(hash as u128, 16);
        let marker = cat3(".hyperbox/ensure/", digits.as_str(), ".done");
        let mut script = cat5(
            "set -e\nmkdir -p .hyperbox/ensure\nif [ ! -f \"",
            marker.as_str(),
            "\" ]; then\n",
            command,
            "\ntouch \"",
        );
        script.push_str(marker.as_str());
        script.push_str("\"\nfi");
        script
    }

    fn go_on(id: SandboxId, left: Vec<String>, timeout_secs: u64) -> (r: (Self, Step<()>))
        ensures
            Self::goes_on(id, left@, timeout_secs, r.0, r.1),
    {
        let mut left = left;
        if left.len() > 0 {
            let ghost all = left@;
            let command = left.remove(0);
            assert(left@ =~= all.subrange(1, all.len() as int));
            let script = Self::script(command.as_str());
            (
                RunEnsure::Running(id, left, timeout_secs),
                Step::Ask(Effect::Exec(id, ExecRequest::shell(script, timeout_secs))),
            )
        } else {
            (RunEnsure::Over, Step::Done(Ok(())))
        }
    }

    pub fn begin(id: SandboxId, commands: Vec<String>, timeout_secs: u64) -> (r: (Self, Step<()>))
        ensures
            Self::goes_on(id, commands@, timeout_secs, r.0, r.1),
    {
        Self::go_on(id, commands, timeout_secs)
    }

    /// What a reply leads to. The first step that fails ends the setup.
    pub open spec fn follows(self, reply: Reply, next: Self, step: Step<()>) -> bool {
        match (self, reply) {
            (RunEnsure::Running(id, left, t), Reply::Outcome(o)) => if o.exit_code != 0 {
                next is Over && fails_with(step, ensure_failure(o.exit_code, o.stderr@))
            } else {
                Self::goes_on(id, left@, t, next, step)
            },
            (RunEnsure::Running(_, _, _), Reply::Failed(e)) => next is Over && fails(step, e),
            _ => next == self && step is Stray,
        }
    }

    pub fn resume(self, reply: Reply) -> (r: (Self, Step<()>))
        ensures
            self.follows(reply, r.0, r.1),
    {
        match (self, reply) {
            (RunEnsure::Running(id, left, t), Reply::Outcome(o)) => {
                if o.exit_code != 0 {
                    let code = i64_text(o.exit_code as i64);
                    let why = trim(o.stderr.as_str());
                    let m = if why.as_str().is_empty() {
                        cat2("--ensure step failed with exit code ", code.as_str())
                    } else {
                        cat4(
                            "--ensure step failed with exit code ",
                            code.as_str(),
                            ": ",
                            why.as_str(),
                        )
                    };
                    return (RunEnsure::Over, Step::Done(Err(HyperboxError::ExecutionFailed(m))));
                }
                Self::go_on(id, left, t)
            },
            (RunEnsure::Running(_, _, _), Reply::Failed(e)) => (
                RunEnsure::Over,
                Step::Done(Err(e)),
            ),
            (op, _) => (op, Step::Stray),
        }
    }
}

/// Choosing between a sandbox and a new one, by whether the sandbox is busy.
#[derive(Debug)]
pub enum PrepareRun {
    Hydrating(SandboxId, Option<SandboxConfig>),
    Cleaning(SandboxId, Option<SandboxConfig>),
    Checking(SandboxId, Option<SandboxConfig>),
    Inspecting,
    CheckingAgain(SandboxId),
    Creating(SandboxId),
    Over,
}

impl PrepareRun {
    pub fn begin(id: SandboxId, overflow: Option<SandboxConfig>) -> (r: (
        Self,
        Step<PreparedRunSandbox>,
    ))
        ensures
            r.0 == PrepareRun::Hydrating(id, overflow),
            asks(r.1, Effect::EnsureHydrated),
    {
        (PrepareRun::Hydrating(id, overflow), Step::Ask(Effect::EnsureHydrated))
    }

    /// What a reply leads to. A sandbox that is idle is used; in place of a busy one a new
    /// one is made, without the name of the first, where a configuration for it is given.
    pub open spec fn follows(
        self,
        reply: Reply,
        next: Self,
        step: Step<PreparedRunSandbox>,
    ) -> bool {
        match (self, reply) {
            (PrepareRun::Hydrating(id, overflow), Reply::Unit) => next == PrepareRun::Cleaning(
                id,
                overflow,
            ) && asks(step, Effect::CleanupExpired),
            (PrepareRun::Cleaning(id, overflow), Reply::Unit) => next == PrepareRun::Checking(
                id,
                overflow,
            ) && asks(step, Effect::FindActiveProcess(id)),
            (PrepareRun::Checking(id, _), Reply::NoProcess) => next is Inspecting && asks(
                step,
                Effect::Inspect(id),
            ),
            (PrepareRun::Inspecting, Reply::Info(info)) => next is Over && step == Step::<
                PreparedRunSandbox,
            >::Done(
                Ok(
                    PreparedRunSandbox {
                        info,
                        requested_sandbox_id: None,
                        disposition: ProcessDisposition::ReusedExisting,
                    },
                ),
            ),
            (PrepareRun::Checking(id, None), Reply::Process(_)) => next
                == PrepareRun::CheckingAgain(id) && asks(step, Effect::FindActiveProcess(id)),
            (PrepareRun::CheckingAgain(id), Reply::Process(p)) => next is Over && fails_with(
                step,
                sandbox_is_busy(id, p.id),
            ),
            (PrepareRun::CheckingAgain(id), Reply::NoProcess) => next is Over && fails_with(
                step,
                "sandbox "@ + hyphenated(id.0) + " became idle while preparing run target"@,
            ),
            (PrepareRun::Checking(id, Some(config)), Reply::Process(_)) => {
                &&& next == PrepareRun::Creating(id)
                &&& step matches Step::Ask(Effect::CreateSandbox(c))
                &&& c@ == (ConfigModel { affinity_name: None, ..config@ })
            },
            (PrepareRun::Creating(id), Reply::Info(info)) => next is Over && step == Step::<
                PreparedRunSandbox,
            >::Done(
                Ok(
                    PreparedRunSandbox {
                        info,
                        requested_sandbox_id: Some(id),
                        disposition: ProcessDisposition::CreatedDueToBusy,
                    },
                ),
            ),
            (PrepareRun::Over, _) => next is Over && step is Stray,
            (_, Reply::Failed(e)) => next is Over && fails(step, e),
            _ => next == self && step is Stray,
        }
    }

    pub fn resume(self, reply: Reply) -> (r: (Self, Step<PreparedRunSandbox>))
        ensures
            self.follows(reply, r.0, r.1),
    {
        match (self, reply) {
            (PrepareRun::Hydrating(id, overflow), Reply::Unit) => (
                PrepareRun::Cleaning(id, overflow),
                Step::Ask(Effect::CleanupExpired),
            ),
            (PrepareRun::Cleaning(id, overflow), Reply::Unit) => (
                PrepareRun::Checking(id, overflow),
                Step::Ask(Effect::FindActiveProcess(id)),
            ),
            (PrepareRun::Checking(id, _), Reply::NoProcess) => (
                PrepareRun::Inspecting,
                Step::Ask(Effect::Inspect(id)),
            ),
            (PrepareRun::Inspecting, Reply::Info(info)) => (
                PrepareRun::Over,
                Step::Done(
                    Ok(
                        PreparedRunSandbox {
                            info,
                            requested_sandbox_id: None,
                            disposition: ProcessDisposition::ReusedExisting,
                        },
                    ),
                ),
            ),
            (PrepareRun::Checking(id, None), Reply::Process(_)) => (
                PrepareRun::CheckingAgain(id),
                Step::Ask(Effect::FindActiveProcess(id)),
            ),
            (PrepareRun::CheckingAgain(id), Reply::Process(p)) => (
                PrepareRun::Over,
                Step::Done(Err(busy_error(&id, &p.id))),
            ),
            (PrepareRun::CheckingAgain(id), Reply::NoProcess) => {
                let text = id.text();
                let m = cat3(
                    "sandbox ",
                    text.as_str(),
                    " became idle while preparing run target",
                );
                (PrepareRun::Over, Step::Done(Err(HyperboxError::ExecutionFailed(m))))
            },
            (PrepareRun::Checking(id, Some(config)), Reply::Process(_)) => {
                let mut config = config;
                config.affinity_name = None;
                (PrepareRun::Creating(id), Step::Ask(Effect::CreateSandbox(config)))
            },
            (PrepareRun::Creating(id), Reply::Info(info)) => (
                PrepareRun::Over,
                Step::Done(
                    Ok(
                        PreparedRunSandbox {
                            info,
                            requested_sandbox_id: Some(id),
                            disposition: ProcessDisposition::CreatedDueToBusy,
                        },
                    ),
                ),
            ),
            (PrepareRun::Over, _) => (PrepareRun::Over, Step::Stray),
            (_, Reply::Failed(e)) => (PrepareRun::Over, Step::Done(Err(e))),
            (op, _) => (op, Step::Stray),
        }
    }
}

/// A sandbox that is made because another one is busy never takes over its name, and says
/// which one was asked for.
pub proof fn overflow_never_takes_a_name(
    op: PrepareRun,
    reply: Reply,
    next: PrepareRun,
    step: Step<PreparedRunSandbox>,
)
    requires
        op.follows(reply, next, step),
    ensures
        step matches Step::Ask(Effect::CreateSandbox(c)) ==> c@.affinity_name is None,
        step matches Step::Done(Ok(p)) ==> ((p.disposition is CreatedDueToBusy)
            == (p.requested_sandbox_id is Some)),
{
}

/// Whether an error says that a name stands for no sandbox that runs.
pub open spec fn says_absent(e: HyperboxError) -> bool {
    has_text(e.text(), "affinity not found"@) || has_text(e.text(), "has no active sandbox"@)
}

pub fn is_affinity_absent_error(err: &HyperboxError) -> (r: bool)
    ensures
        r == says_absent(*err),
{
    let message = err.message();
    contains(message.as_str(), "affinity not found") || contains(
        message.as_str(),
        "has no active sandbox",
    )
}

/// What a run needs once its sandbox is chosen.
#[derive(Debug)]
pub struct RunPlan {
    pub ensure_commands: Vec<String>,
    pub writes: Vec<(String, Vec<u8>)>,
    pub command: String,
    pub destroy_sandbox_on_expiry: bool,
    pub session_name: Option<String>,
    pub session_created: bool,
}

/// Starting a run.
#[derive(Debug)]
pub enum StartRun {
    Hydrating(StartRunRequest),
    Cleaning(StartRunRequest),
    ResolvingName(RunPlan),
    ResolvingSession(RunPlan, SandboxConfig),
    Preparing(RunPlan),
    Creating(RunPlan),
    Writing(RunPlan, PreparedRunSandbox),
    Ensuring(RunPlan, PreparedRunSandbox),
    Starting(RunPlan, SandboxInfo),
    Over,
}

/// The same plan, some files later and with another session.
pub open spec fn same_work(a: RunPlan, b: RunPlan) -> bool {
    &&& a.ensure_commands == b.ensure_commands
    &&& a.command == b.command
    &&& a.destroy_sandbox_on_expiry == b.destroy_sandbox_on_expiry
}

impl StartRun {
    pub fn begin(request: StartRunRequest) -> (r: (Self, Step<StartedRun>))
        ensures
            r.0 == StartRun::Hydrating(request),
            asks(r.1, Effect::EnsureHydrated),
    {
        (StartRun::Hydrating(request), Step::Ask(Effect::EnsureHydrated))
    }

    /// The run goes to a sandbox that the server knows, or to a new one like it while that
    /// one is busy.
    pub open spec fn prepares(
        plan: RunPlan,
        id: SandboxId,
        state: StateModel,
        next: Self,
        step: Step<StartedRun>,
    ) -> bool {
        if state.sandboxes.contains_key(id.0) {
            &&& next == StartRun::Preparing(plan)
            &&& step matches Step::Ask(Effect::PrepareRun(i, Some(config)))
            &&& i == id
            &&& config@ == state.sandboxes[id.0]
        } else {
            &&& next is Over
            &&& step matches Step::Done(r)
            &&& sandbox_not_found(r, hyphenated(id.0))
        }
    }

    /// The request names its sandbox, by identifier before name before configuration.
    pub open spec fn chooses(
        request: StartRunRequest,
        state: StateModel,
        next: Self,
        step: Step<StartedRun>,
    ) -> bool {
        if trimmed(request.command@).len() == 0 {
            &&& next is Over
            &&& step matches Step::Done(r)
            &&& invalid_config(r, "run command cannot be empty"@)
        } else if let Some(id) = request.sandbox_id {
            Self::prepares(plan_like(request), id, state, next, step)
        } else if let Some(name) = request.affinity_name {
            &&& next == StartRun::ResolvingName(plan_like(request))
            &&& step matches Step::Ask(Effect::ResolveAffinity(n, restore))
            &&& n@ == name@
            &&& restore
        } else if let Some(config) = request.create_config {
            if request.reuse_auto_session {
                let name = session_name(
                    config.template@,
                    workspace_scope(opt_view(config.workspace_dir)),
                    config.network@,
                );
                &&& next matches StartRun::ResolvingSession(plan, c)
                &&& same_work(plan, plan_like(request))
                &&& plan.writes == request.writes
                &&& opt_view(plan.session_name) == Some(name)
                &&& !plan.session_created
                &&& c@ == (ConfigModel { affinity_name: Some(name), ..config@ })
                &&& step matches Step::Ask(Effect::ResolveAffinity(n, restore))
                &&& n@ == name
                &&& !restore
            } else {
                &&& next == StartRun::Creating(plan_like(request))
                &&& asks(step, Effect::CreateSandbox(config))
            }
        } else {
            &&& next is Over
            &&& step matches Step::Done(r)
            &&& invalid_config(
                r,
                "run target requires sandbox_id, affinity_name, or create_config"@,
            )
        }
    }

    /// With files left the next one is written; then the setup steps are carried out, with
    /// the time limit of the sandbox.
    pub open spec fn writes_on(
        plan: RunPlan,
        prepared: PreparedRunSandbox,
        state: StateModel,
        next: Self,
        step: Step<StartedRun>,
    ) -> bool {
        if plan.writes@.len() > 0 {
            &&& next matches StartRun::Writing(p, q)
            &&& same_work(p, plan)
            &&& p.session_name == plan.session_name
            &&& p.session_created == plan.session_created
            &&& p.writes@ == plan.writes@.subrange(1, plan.writes@.len() as int)
            &&& q == prepared
            &&& step matches Step::Ask(Effect::WriteFile(id, file))
            &&& id == prepared.info.id
            &&& file.path == plan.writes@[0].0
            &&& file.bytes == plan.writes@[0].1
        } else if state.sandboxes.contains_key(prepared.info.id.0) {
            &&& next matches StartRun::Ensuring(p, q)
            &&& p.command == plan.command
            &&& p.destroy_sandbox_on_expiry == plan.destroy_sandbox_on_expiry
            &&& p.session_name == plan.session_name
            &&& p.session_created == plan.session_created
            &&& q == prepared
            &&& asks(
                step,
                Effect::RunEnsure(
                    prepared.info.id,
                    plan.ensure_commands,
                    state.sandboxes[prepared.info.id.0].timeout_secs,
                ),
            )
        } else {
            &&& next is Over
            &&& step matches Step::Done(r)
            &&& sandbox_not_found(r, hyphenated(prepared.info.id.0))
        }
    }

    /// The command is started in the chosen sandbox. A sandbox that was made because another
    /// one was busy goes with its process.
    pub open spec fn starts(
        plan: RunPlan,
        prepared: PreparedRunSandbox,
        next: Self,
        step: Step<StartedRun>,
    ) -> bool {
        &&& next matches StartRun::Starting(p, info)
        &&& p.session_name == plan.session_name
        &&& p.session_created == plan.session_created
        &&& info == prepared.info
        &&& step matches Step::Ask(Effect::StartProcess(start))
        &&& start.sandbox_id == prepared.info.id
        &&& views(start.command@) == seq!["/bin/sh"@, "-lc"@, plan.command@]
        &&& start.requested_sandbox_id == prepared.requested_sandbox_id
        &&& start.disposition == prepared.disposition
        &&& start.destroy_sandbox_on_expiry == (plan.destroy_sandbox_on_expiry
            || prepared.disposition is CreatedDueToBusy)
    }

    /// What a reply leads to.
    pub open spec fn follows(
        self,
        reply: Reply,
        next: Self,
        step: Step<StartedRun>,
        state: StateModel,
    ) -> bool {
        match (self, reply) {
            (StartRun::Hydrating(request), Reply::Unit) => next == StartRun::Cleaning(request)
                && asks(step, Effect::CleanupExpired),
            (StartRun::Cleaning(request), Reply::Unit) => Self::chooses(
                request,
                state,
                next,
                step,
            ),
            (StartRun::ResolvingName(plan), Reply::Resolved(info, _)) => Self::prepares(
                plan,
                info.id,
                state,
                next,
                step,
            ),
            (
                StartRun::ResolvingSession(plan, _),
                Reply::Resolved(info, _),
            ) => if state.sandboxes.contains_key(info.id.0) {
                &&& next == StartRun::Preparing(plan)
                &&& step matches Step::Ask(Effect::PrepareRun(id, Some(config)))
                &&& id == info.id
                &&& config@ == (ConfigModel {
                    affinity_name: None,
                    ..state.sandboxes[info.id.0]
                })
            } else {
                &&& next is Over
                &&& step matches Step::Done(r)
                &&& sandbox_not_found(r, hyphenated(info.id.0))
            },
            (StartRun::ResolvingSession(plan, config), Reply::Failed(e)) => if says_absent(e) {
                &&& next matches StartRun::Creating(p)
                &&& same_work(p, plan)
                &&& p.writes == plan.writes
                &&& p.session_name == plan.session_name
                &&& p.session_created
                &&& asks(step, Effect::CreateSandbox(config))
            } else {
                next is Over && fails(step, e)
            },
            (StartRun::Preparing(plan), Reply::Prepared(prepared)) => Self::writes_on(
                plan,
                prepared,
                state,
                next,
                step,
            ),
            (StartRun::Creating(plan), Reply::Info(info)) => Self::writes_on(
                plan,
                PreparedRunSandbox {
                    info,
                    requested_sandbox_id: None,
                    disposition: ProcessDisposition::CreatedNew,
                },
                state,
                next,
                step,
            ),
            (StartRun::Writing(plan, prepared), Reply::Unit) => Self::writes_on(
                plan,
                prepared,
                state,
                next,
                step,
            ),
            (StartRun::Ensuring(plan, prepared), Reply::Unit) => Self::starts(
                plan,
                prepared,
                next,
                step,
            ),
            (StartRun::Starting(plan, info), Reply::Process(process)) => next is Over && step
                == Step::<StartedRun>::Done(
                Ok(
                    StartedRun {
                        process,
                        sandbox: info,
                        session_name: plan.session_name,
                        session_created: plan.session_created,
                    },
                ),
            ),
            (StartRun::Over, _) => next is Over && step is Stray,
            (_, Reply::Failed(e)) => next is Over && fails(step, e),
            _ => next == self && step is Stray,
        }
    }

    fn prepare(plan: RunPlan, id: SandboxId, state: &ServerState) -> (r: (Self, Step<StartedRun>))
        ensures
            Self::prepares(plan, id, state@, r.0, r.1),
    {
        match state.sandbox_config(&id) {
            Ok(config) => (
                StartRun::Preparing(plan),
                Step::Ask(Effect::PrepareRun(id, Some(config))),
            ),
            Err(e) => (StartRun::Over, Step::Done(Err(e))),
        }
    }

    fn pick(request: StartRunRequest, state: &ServerState) -> (r: (Self, Step<StartedRun>))
        ensures
            Self::chooses(request, state@, r.0, r.1),
    {
        let bare = trim(request.command.as_str());
        if bare.as_str().is_empty() {
            let m = "run command cannot be empty".to_owned();
            return (StartRun::Over, Step::Done(Err(HyperboxError::InvalidConfig(m))));
        }
        let mut plan = RunPlan {
            ensure_commands: request.ensure_commands,
            writes: request.writes,
            command: request.command,
            destroy_sandbox_on_expiry: request.destroy_sandbox_on_expiry,
            session_name: None,
            session_created: false,
        };
        if let Some(id) = request.sandbox_id {
            return Self::prepare(plan, id, state);
        }
        if let Some(name) = request.affinity_name {
            return (
                StartRun::ResolvingName(plan),
                Step::Ask(Effect::ResolveAffinity(name, true)),
            );
        }
        match request.create_config {
            Some(config) => {
                if request.reuse_auto_session {
                    let mut config = config;
                    let workspace = match &config.workspace_dir {
                        Some(dir) => Some(dir.as_str()),
                        None => None,
                    };
                    let name = derive_auto_run_affinity_name(
                        config.template.as_str(),
                        workspace,
                        &config.network,
                    );
                    let ask = name.clone();
                    plan.session_name = Some(name.clone());
                    config.affinity_name = Some(name);
                    (
                        StartRun::ResolvingSession(plan, config),
                        Step::Ask(Effect::ResolveAffinity(ask, false)),
                    )
                } else {
                    (StartRun::Creating(plan), Step::Ask(Effect::CreateSandbox(config)))
                }
            },
            None => {
                let m =
                    "run target requires sandbox_id, affinity_name, or create_config".to_owned();
                (StartRun::Over, Step::Done(Err(HyperboxError::InvalidConfig(m))))
            },
        }
    }

    fn write_on(plan: RunPlan, prepared: PreparedRunSandbox, state: &ServerState) -> (r: (
        Self,
        Step<StartedRun>,
    ))
        ensures
            Self::writes_on(plan, prepared, state@, r.0, r.1),
    {
        let mut plan = plan;
        let id = prepared.info.id;
        if plan.writes.len() > 0 {
            let ghost all = plan.writes@;
            let (path, bytes) = plan.writes.remove(0);
            assert(plan.writes@ =~= all.subrange(1, all.len() as int));
            return (
                StartRun::Writing(plan, prepared),
                Step::Ask(Effect::WriteFile(id, FilePayload { path, bytes })),
            );
        }
        match state.sandbox_config(&id) {
            Ok(config) => {
                let mut commands: Vec<String> = Vec::new();
                std::mem::swap(&mut commands, &mut plan.ensure_commands);
                (
                    StartRun::Ensuring(plan, prepared),
                    Step::Ask(Effect::RunEnsure(id, commands, config.timeout_secs)),
                )
            },
            Err(e) => (StartRun::Over, Step::Done(Err(e))),
        }
    }

    fn start(plan: RunPlan, prepared: PreparedRunSandbox) -> (r: (Self, Step<StartedRun>))
        ensures
            Self::starts(plan, prepared, r.0, r.1),
    {
        let mut plan = plan;
        let mut script = String::new();
        std::mem::swap(&mut script, &mut plan.command);
        let command = vec!["/bin/sh".to_owned(), "-lc".to_owned(), script];
        assert(views(command@) =~= seq!["/bin/sh"@, "-lc"@, script@]);
        let overflow = prepared.disposition == ProcessDisposition::CreatedDueToBusy;
        let start = ProcessStart {
            sandbox_id: prepared.info.id,
            command,
            requested_sandbox_id: prepared.requested_sandbox_id,
            disposition: prepared.disposition,
            destroy_sandbox_on_expiry: plan.destroy_sandbox_on_expiry || overflow,
        };
        (StartRun::Starting(plan, prepared.info), Step::Ask(Effect::StartProcess(start)))
    }

    pub fn resume(self, reply: Reply, state: &ServerState) -> (r: (Self, Step<StartedRun>))
        ensures
            self.follows(reply, r.0, r.1, state@),
    {
        match (self, reply) {
            (StartRun::Hydrating(request), Reply::Unit) => (
                StartRun::Cleaning(request),
                Step::Ask(Effect::CleanupExpired),
            ),
            (StartRun::Cleaning(request), Reply::Unit) => Self::pick(request, state),
            (StartRun::ResolvingName(plan), Reply::Resolved(info, _)) => Self::prepare(
                plan,
                info.id,
                state,
            ),
            (StartRun::ResolvingSession(plan, _), Reply::Resolved(info, _)) => {
                match state.sandbox_config(&info.id) {
                    Ok(config) => {
                        let mut config = config;
                        config.affinity_name = None;
                        (
                            StartRun::Preparing(plan),
                            Step::Ask(Effect::PrepareRun(info.id, Some(config))),
                        )
                    },
                    Err(e) => (StartRun::Over, Step::Done(Err(e))),
                }
            },
            (StartRun::ResolvingSession(plan, config), Reply::Failed(e)) => {
                if is_affinity_absent_error(&e) {
                    let mut plan = plan;
                    plan.session_created = true;
                    (StartRun::Creating(plan), Step::Ask(Effect::CreateSandbox(config)))
                } else {
                    (StartRun::Over, Step::Done(Err(e)))
                }
            },
            (StartRun::Preparing(plan), Reply::Prepared(prepared)) => Self::write_on(
                plan,
                prepared,
                state,
            ),
            (StartRun::Creating(plan), Reply::Info(info)) => Self::write_on(
                plan,
                PreparedRunSandbox {
                    info,
                    requested_sandbox_id: None,
                    disposition: ProcessDisposition::CreatedNew,
                },
                state,
            ),
            (StartRun::Writing(plan, prepared), Reply::Unit) => Self::write_on(
                plan,
                prepared,
                state,
            ),
            (StartRun::Ensuring(plan, prepared), Reply::Unit) => Self::start(plan, prepared),
            (StartRun::Starting(plan, info), Reply::Process(process)) => (
                StartRun::Over,
                Step::Done(
                    Ok(
                        StartedRun {
                            process,
                            sandbox: info,
                            session_name: plan.session_name,
                            session_created: plan.session_created,
                        },
                    ),
                ),
            ),
            (StartRun::Over, _) => (StartRun::Over, Step::Stray),
            (_, Reply::Failed(e)) => (StartRun::Over, Step::Done(Err(e))),
            (op, _) => (op, Step::Stray),
        }
    }
}

/// The work of a request.
pub open spec fn plan_like(request: StartRunRequest) -> RunPlan {
    RunPlan {
        ensure_commands: request.ensure_commands,
        writes: request.writes,
        command: request.command,
        destroy_sandbox_on_expiry: request.destroy_sandbox_on_expiry,
        session_name: None,
        session_created: false,
    }
}

/// A run starts only when every file is written and every setup step is done: the start
/// follows the setup, the setup comes when no file is left, and each file goes to the sandbox
/// that the command will run in.
pub proof fn runs_start_after_their_setup(
    op: StartRun,
    reply: Reply,
    next: StartRun,
    step: Step<StartedRun>,
    state: StateModel,
)
    requires
        op.follows(reply, next, step, state),
    ensures
        step matches Step::Ask(Effect::StartProcess(start)) ==> (op matches StartRun::Ensuring(
            _,
            prepared,
        ) && reply is Unit && start.sandbox_id == prepared.info.id),
        step matches Step::Ask(Effect::RunEnsure(id, _, _)) ==> (next matches StartRun::Ensuring(
            plan,
            prepared,
        ) && id == prepared.info.id && op.files_left(reply) == 0),
        step matches Step::Ask(Effect::WriteFile(id, _)) ==> (next matches StartRun::Writing(
            plan,
            prepared,
        ) && id == prepared.info.id && plan.writes@.len() + 1 == op.files_left(reply)),
        step matches Step::Done(Ok(run)) ==> op is Starting,
{
}

impl StartRun {
    /// How many files are to be written when a reply comes to an operation that has chosen
    /// its sandbox.
    pub open spec fn files_left(self, reply: Reply) -> nat {
        match self {
            StartRun::Preparing(plan) => plan.writes@.len(),
            StartRun::Creating(plan) => plan.writes@.len(),
            StartRun::Writing(plan, _) => plan.writes@.len(),
            _ => 0,
        }
    }
}

/// A session that is found again is used again: it is created only where its name stands for
/// no sandbox that runs.
pub proof fn sessions_are_reused(
    plan: RunPlan,
    config: SandboxConfig,
    reply: Reply,
    next: StartRun,
    step: Step<StartedRun>,
    state: StateModel,
)
    requires
        StartRun::ResolvingSession(plan, config).follows(reply, next, step, state),
    ensures
        reply matches Reply::Resolved(info, _) ==> !(step matches Step::Ask(
            Effect::CreateSandbox(_),
        )),
        step matches Step::Ask(Effect::CreateSandbox(_)) ==> (reply matches Reply::Failed(e)
            && says_absent(e)),
{
}

} // verus!
