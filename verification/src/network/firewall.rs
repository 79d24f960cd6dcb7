//! The firewall of a virtual machine, as commands to run.

use crate::config::{NetworkMode, NetworkModel};
use crate::text::{cat2, cat3, str_views, texts, views};
use vstd::prelude::*;

verus! {

#[derive(Debug, Clone, PartialEq, Eq)]
pub struct VmNetworkSpec {
    pub vm_id: String,
    pub tap_name: String,
    pub host_iface: String,
    pub guest_cidr: String,
    pub guest_ip: String,
}

#[derive(Debug, Clone, PartialEq, Eq)]
pub struct CommandSpec {
    pub program: String,
    pub args: Vec<String>,
}

/// A command as a value.
#[verifier::ext_equal]
pub struct CommandModel {
    pub program: Seq<char>,
    pub args: Seq<Seq<char>>,
}

impl View for CommandSpec {
    type V = CommandModel;

    open spec fn view(&self) -> CommandModel {
        CommandModel { program: self.program@, args: views(self.args@) }
    }
}

pub open spec fn command_views(list: Seq<CommandSpec>) -> Seq<CommandModel> {
    Seq::new(list.len(), |i: int| list[i]@)
}

/// The firewall table of a machine.
pub open spec fn table_name(vm_id: Seq<char>) -> Seq<char> {
    "vm_"@ + vm_id
}

/// The set of the addresses that a machine may reach.
pub open spec fn set_name(vm_id: Seq<char>) -> Seq<char> {
    "vm_"@ + vm_id + "_allowed"@
}

pub open spec fn nft(args: Seq<Seq<char>>) -> CommandModel {
    CommandModel { program: "nft"@, args }
}

pub open spec fn ipset(args: Seq<Seq<char>>) -> CommandModel {
    CommandModel { program: "ipset"@, args }
}

/// The rule that drops whatever comes from a machine.
pub open spec fn drop_rule(spec: VmNetworkSpec) -> CommandModel {
    nft(
        seq![
            "add"@,
            "rule"@,
            "inet"@,
            table_name(spec.vm_id@),
            "forward"@,
            "iifname"@,
            spec.tap_name@,
            "drop"@,
        ],
    )
}

/// The rule that lets everything from a machine through.
pub open spec fn accept_rule(spec: VmNetworkSpec) -> CommandModel {
    nft(
        seq![
            "add"@,
            "rule"@,
            "inet"@,
            table_name(spec.vm_id@),
            "forward"@,
            "iifname"@,
            spec.tap_name@,
            "accept"@,
        ],
    )
}

/// The rule that lets through what goes to an address of the machine's set.
pub open spec fn accept_listed_rule(spec: VmNetworkSpec) -> CommandModel {
    nft(
        seq![
            "add"@,
            "rule"@,
            "inet"@,
            table_name(spec.vm_id@),
            "forward"@,
            "iifname"@,
            spec.tap_name@,
            "ip"@,
            "daddr"@,
            "@"@ + set_name(spec.vm_id@),
            "accept"@,
        ],
    )
}

/// The rules that a network mode comes to, in the order in which they are tried.
pub open spec fn mode_rules(spec: VmNetworkSpec, mode: NetworkModel) -> Seq<CommandModel> {
    match mode {
        NetworkModel::NoNetwork => seq![drop_rule(spec)],
        NetworkModel::Full => seq![accept_rule(spec)],
        NetworkModel::Allowlist(_) => seq![accept_listed_rule(spec), drop_rule(spec)],
    }
}

pub open spec fn create_set(spec: VmNetworkSpec) -> CommandModel {
    ipset(
        seq!["create"@, set_name(spec.vm_id@), "hash:ip"@, "timeout"@, "300"@, "-exist"@],
    )
}

pub open spec fn create_table(spec: VmNetworkSpec) -> CommandModel {
    nft(seq!["add"@, "table"@, "inet"@, table_name(spec.vm_id@)])
}

pub open spec fn create_chain(spec: VmNetworkSpec) -> CommandModel {
    nft(
        seq![
            "add"@,
            "chain"@,
            "inet"@,
            table_name(spec.vm_id@),
            "forward"@,
            "{"@,
            "type"@,
            "filter"@,
            "hook"@,
            "forward"@,
            "priority"@,
            "0"@,
            ";"@,
            "}"@,
        ],
    )
}

pub open spec fn masquerade(spec: VmNetworkSpec) -> CommandModel {
    nft(
        seq![
            "add"@,
            "rule"@,
            "nat"@,
            "postrouting"@,
            "ip"@,
            "saddr"@,
            spec.guest_ip@,
            "oifname"@,
            spec.host_iface@,
            "masquerade"@,
        ],
    )
}

/// The commands that put the firewall of a machine up.
pub open spec fn apply_plan(spec: VmNetworkSpec, mode: NetworkModel) -> Seq<CommandModel> {
    seq![create_set(spec), create_table(spec), create_chain(spec)] + mode_rules(spec, mode)
        + seq![masquerade(spec)]
}

/// The commands that take it down.
pub open spec fn teardown_plan(spec: VmNetworkSpec) -> Seq<CommandModel> {
    seq![
        nft(seq!["delete"@, "table"@, "inet"@, table_name(spec.vm_id@)]),
        ipset(seq!["destroy"@, set_name(spec.vm_id@)]),
    ]
}

fn command(program: &str, args: &[&str]) -> (r: CommandSpec)
    ensures
        r@ == (CommandModel { program: program@, args: str_views(args@) }),
{
    CommandSpec { program: program.to_owned(), args: texts(args) }
}

fn table_of(spec: &VmNetworkSpec) -> (r: String)
    ensures
        r@ == table_name(spec.vm_id@),
{
    cat2("vm_", spec.vm_id.as_str())
}

fn set_of(vm_id: &str) -> (r: String)
    ensures
        r@ == set_name(vm_id@),
{
    cat3("vm_", vm_id, "_allowed")
}

fn drop_command(spec: &VmNetworkSpec) -> (r: CommandSpec)
    ensures
        r@ == drop_rule(*spec),
{
    let table = table_of(spec);
    let args = [
        "add",
        "rule",
        "inet",
        table.as_str(),
        "forward",
        "iifname",
        spec.tap_name.as_str(),
        "drop",
    ];
    assert(str_views(args@) =~= drop_rule(*spec).args);
    command("nft", &args)
}

fn accept_command(spec: &VmNetworkSpec) -> (r: CommandSpec)
    ensures
        r@ == accept_rule(*spec),
{
    let table = table_of(spec);
    let args = [
        "add",
        "rule",
        "inet",
        table.as_str(),
        "forward",
        "iifname",
        spec.tap_name.as_str(),
        "accept",
    ];
    assert(str_views(args@) =~= accept_rule(*spec).args);
    command("nft", &args)
}

fn accept_listed_command(spec: &VmNetworkSpec) -> (r: CommandSpec)
    ensures
        r@ == accept_listed_rule(*spec),
{
    let table = table_of(spec);
    let set = set_of(spec.vm_id.as_str());
    let reference = cat2("@", set.as_str());
    let args = [
        "add",
        "rule",
        "inet",
        table.as_str(),
        "forward",
        "iifname",
        spec.tap_name.as_str(),
        "ip",
        "daddr",
        reference.as_str(),
        "accept",
    ];
    assert(str_views(args@) =~= accept_listed_rule(*spec).args);
    command("nft", &args)
}

fn foundation(spec: &VmNetworkSpec) -> (r: Vec<CommandSpec>)
    ensures
        command_views(r@) == seq![create_set(*spec), create_table(*spec), create_chain(*spec)],
{
    let table = table_of(spec);
    let set = set_of(spec.vm_id.as_str());
    let make_set = ["create", set.as_str(), "hash:ip", "timeout", "300", "-exist"];
    assert(str_views(make_set@) =~= create_set(*spec).args);
    let make_table = ["add", "table", "inet", table.as_str()];
    assert(str_views(make_table@) =~= create_table(*spec).args);
    let make_chain = [
        "add",
        "chain",
        "inet",
        table.as_str(),
        "forward",
        "{",
        "type",
        "filter",
        "hook",
        "forward",
        "priority",
        "0",
        ";",
        "}",
    ];
    assert(str_views(make_chain@) =~= create_chain(*spec).args);
    let r = vec![command("ipset", &make_set), command("nft", &make_table), command("nft", &make_chain)];
    assert(command_views(r@) =~= seq![
        create_set(*spec),
        create_table(*spec),
        create_chain(*spec),
    ]);
    r
}

pub fn build_apply_plan(spec: &VmNetworkSpec, mode: &NetworkMode) -> (r: Vec<CommandSpec>)
    ensures
        command_views(r@) == apply_plan(*spec, mode@),
{
    let mut commands = foundation(spec);
    let ghost base = command_views(commands@);
    match mode {
        NetworkMode::NoNetwork => commands.push(drop_command(spec)),
        NetworkMode::Full => commands.push(accept_command(spec)),
        NetworkMode::Allowlist(_) => {
            commands.push(accept_listed_command(spec));
            commands.push(drop_command(spec));
        },
    }
    assert(command_views(commands@) =~= base + mode_rules(*spec, mode@));
    let rule = [
        "add",
        "rule",
        "nat",
        "postrouting",
        "ip",
        "saddr",
        spec.guest_ip.as_str(),
        "oifname",
        spec.host_iface.as_str(),
        "masquerade",
    ];
    assert(str_views(rule@) =~= masquerade(*spec).args);
    let ghost before = command_views(commands@);
    commands.push(command("nft", &rule));
    assert(command_views(commands@) =~= before + seq![masquerade(*spec)]);
    commands
}

pub fn build_teardown_plan(spec: &VmNetworkSpec) -> (r: Vec<CommandSpec>)
    ensures
        command_views(r@) == teardown_plan(*spec),
{
    let table = table_of(spec);
    let set = set_of(spec.vm_id.as_str());
    let delete = ["delete", "table", "inet", table.as_str()];
    let destroy = ["destroy", set.as_str()];
    assert(str_views(delete@) =~= seq!["delete"@, "table"@, "inet"@, table_name(spec.vm_id@)]);
    assert(str_views(destroy@) =~= seq!["destroy"@, set_name(spec.vm_id@)]);
    let r = vec![command("nft", &delete), command("ipset", &destroy)];
    assert(command_views(r@) =~= teardown_plan(*spec));
    r
}

/// The commands that put addresses into the set of a machine, for as long as the set keeps
/// them.
pub open spec fn population_plan(vm_id: Seq<char>, ips: Seq<Seq<char>>) -> Seq<CommandModel> {
    Seq::new(
        ips.len(),
        |i: int| ipset(seq!["add"@, set_name(vm_id), ips[i], "timeout"@, "300"@, "-exist"@]),
    )
}

pub fn build_allowlist_population_plan(vm_id: &str, ips: &Vec<String>) -> (r: Vec<CommandSpec>)
    ensures
        command_views(r@) == population_plan(vm_id@, views(ips@)),
{
    let set = set_of(vm_id);
    let ghost want = population_plan(vm_id@, views(ips@));
    let mut out: Vec<CommandSpec> = Vec::new();
    let mut i: usize = 0;
    while i < ips.len()
        invariant
            i <= ips.len(),
            set@ == set_name(vm_id@),
            want == population_plan(vm_id@, views(ips@)),
            command_views(out@) == want.take(i as int),
        decreases ips.len() - i,
    {
        let args = ["add", set.as_str(), ips[i].as_str(), "timeout", "300", "-exist"];
        assert(str_views(args@) =~= want[i as int].args);
        let c = command("ipset", &args);
        let ghost before = out@;
        out.push(c);
        assert(command_views(out@) =~= command_views(before).push(c@));
        assert(want.take(i + 1) =~= want.take(i as int).push(want[i as int]));
        i = i + 1;
    }
    assert(want.take(want.len() as int) =~= want);
    out
}

/// A machine without a network gets no rule that lets anything through; one with an allowlist
/// lets through only what goes to its set, and drops the rest after that.
pub proof fn closed_networks_stay_closed(spec: VmNetworkSpec, mode: NetworkModel)
    ensures
        mode is NoNetwork ==> mode_rules(spec, mode) == seq![drop_rule(spec)],
        mode is Allowlist ==> mode_rules(spec, mode).last() == drop_rule(spec),
        !(mode is Full) ==> !mode_rules(spec, mode).contains(accept_rule(spec)),
{
    reveal_strlit("drop");
    reveal_strlit("accept");
    reveal_strlit("ip");
    assert(drop_rule(spec).args[7] == "drop"@);
    assert(accept_rule(spec).args[7] == "accept"@);
    assert("drop"@.len() != "accept"@.len());
    assert(accept_listed_rule(spec).args.len() == 11);
    assert(accept_rule(spec).args.len() == 8);
}

/// Taking a firewall down removes the table and the set that putting it up made.
pub proof fn teardown_matches_apply(spec: VmNetworkSpec, mode: NetworkModel)
    ensures
        apply_plan(spec, mode)[0].args[1] == teardown_plan(spec)[1].args[1],
        apply_plan(spec, mode)[1].args[3] == teardown_plan(spec)[0].args[3],
        forall|i: int|
            2 <= i < apply_plan(spec, mode).len() - 1 ==> (#[trigger] apply_plan(
                spec,
                mode,
            )[i]).args[3] == table_name(spec.vm_id@),
{
    let plan = apply_plan(spec, mode);
    assert(plan[0] == create_set(spec));
    assert(plan[1] == create_table(spec));
    assert(plan[2] == create_chain(spec));
    assert forall|i: int| 2 <= i < plan.len() - 1 implies (#[trigger] plan[i]).args[3]
        == table_name(spec.vm_id@) by {
        if i > 2 {
            assert(plan[i] == mode_rules(spec, mode)[i - 3]);
        }
    }
}

/// What happens next while commands are run.
#[derive(Debug)]
pub enum CommandStep {
    /// This is run, and its outcome handed on.
    Run(CommandSpec, RunCommands),
    Done(Result<(), String>),
}

/// The running of commands one after the other, up to the first that fails.
#[derive(Debug)]
pub struct RunCommands {
    /// The commands that come after the one that runs.
    pub rest: Vec<CommandSpec>,
}

impl RunCommands {
    /// The first of the commands that are left is next, if there is one.
    pub open spec fn goes_on(left: Seq<CommandSpec>, step: CommandStep) -> bool {
        if left.len() == 0 {
            step == CommandStep::Done(Ok(()))
        } else {
            step matches CommandStep::Run(command, op) && command == left[0] && op.rest@
                == left.drop_first()
        }
    }

    pub fn begin(plan: Vec<CommandSpec>) -> (r: CommandStep)
        ensures
            Self::goes_on(plan@, r),
    {
        let mut rest = plan;
        if rest.len() == 0 {
            return CommandStep::Done(Ok(()));
        }
        let first = rest.remove(0);
        assert(rest@ =~= plan@.drop_first());
        CommandStep::Run(first, RunCommands { rest })
    }

    /// What the outcome of a command leads to.
    pub open spec fn follows(self, outcome: Result<(), String>, step: CommandStep) -> bool {
        match outcome {
            Ok(_) => Self::goes_on(self.rest@, step),
            Err(e) => step == CommandStep::Done(Err(e)),
        }
    }

    pub fn resume(self, outcome: Result<(), String>) -> (r: CommandStep)
        ensures
            self.follows(outcome, r),
    {
        match outcome {
            Ok(_) => Self::begin(self.rest),
            Err(e) => CommandStep::Done(Err(e)),
        }
    }
}

/// The steps follow from each other by these outcomes.
pub open spec fn steps_follow(
    steps: Seq<CommandStep>,
    outcomes: Seq<Result<(), String>>,
) -> bool {
    &&& steps.len() == outcomes.len() + 1
    &&& forall|i: int|
        0 <= i < outcomes.len() ==> (steps[i] matches CommandStep::Run(_, op) && op.follows(
            #[trigger] outcomes[i],
            steps[i + 1],
        ))
}

proof fn commands_run_in_order(
    plan: Seq<CommandSpec>,
    steps: Seq<CommandStep>,
    outcomes: Seq<Result<(), String>>,
    k: int,
)
    requires
        steps_follow(steps, outcomes),
        RunCommands::goes_on(plan, steps[0]),
        0 <= k <= outcomes.len(),
    ensures
        k <= plan.len(),
        forall|i: int|
            0 <= i < k ==> (#[trigger] steps[i] matches CommandStep::Run(command, _) && command
                == plan[i]),
        forall|i: int| 0 <= i < k - 1 ==> (#[trigger] outcomes[i]) is Ok,
        k == 0 || outcomes[k - 1] is Ok ==> RunCommands::goes_on(plan.skip(k), steps[k]),
    decreases k,
{
    if k == 0 {
        assert(plan.skip(0) =~= plan);
    } else {
        commands_run_in_order(plan, steps, outcomes, k - 1);
        let outcome = outcomes[k - 1];
        assert(steps[k - 1] matches CommandStep::Run(_, op) && op.follows(outcome, steps[k]));
        assert(plan.skip(k - 1).drop_first() =~= plan.skip(k));
    }
}

/// The commands of a plan are run in their order. Where each of them succeeds, all are run, and
/// the plan succeeds; else nothing is run after the first that fails, and its error is the result.
pub proof fn commands_run_up_to_the_first_failure(
    plan: Seq<CommandSpec>,
    steps: Seq<CommandStep>,
    outcomes: Seq<Result<(), String>>,
    end: Result<(), String>,
)
    requires
        RunCommands::goes_on(plan, steps[0]),
        steps_follow(steps, outcomes),
        steps.last() == CommandStep::Done(end),
    ensures
        outcomes.len() <= plan.len(),
        forall|i: int|
            0 <= i < outcomes.len() ==> (#[trigger] steps[i] matches CommandStep::Run(command, _)
                && command == plan[i]),
        forall|i: int| 0 <= i < outcomes.len() - 1 ==> (#[trigger] outcomes[i]) is Ok,
        match end {
            Ok(_) => outcomes.len() == plan.len() && (plan.len() > 0 ==> outcomes.last() is Ok),
            Err(e) => outcomes.len() > 0 && outcomes.last() == Err::<(), String>(e),
        },
{
    commands_run_in_order(plan, steps, outcomes, outcomes.len() as int);
    if outcomes.len() > 0 {
        let outcome = outcomes.last();
        assert(steps[outcomes.len() - 1] matches CommandStep::Run(_, op) && op.follows(
            outcome,
            steps.last(),
        ));
    }
}

/// Something that runs commands.
pub trait CommandExecutor {
    /// The commands that it was given, in order.
    spec fn given(&self) -> Seq<CommandModel>;

    /// What came of each of them.
    spec fn outcomes(&self) -> Seq<Result<(), Seq<char>>>;

    fn run(&mut self, cmd: CommandSpec) -> (r: Result<(), String>)
        ensures
            final(self).given() == old(self).given().push(cmd@),
            final(self).outcomes() == old(self).outcomes().push(outcome_view(r)),
    ;
}

/// What came of a command, with the characters of its error.
pub open spec fn outcome_view(r: Result<(), String>) -> Result<(), Seq<char>> {
    match r {
        Ok(_) => Ok(()),
        Err(e) => Err(e@),
    }
}

/// Keeps the commands that it is given and runs none.
#[derive(Debug)]
pub struct RecordingExecutor {
    pub commands: Vec<CommandSpec>,
}

impl Default for RecordingExecutor {
    fn default() -> (r: Self)
        ensures
            r.commands@ == Seq::<CommandSpec>::empty(),
    {
        RecordingExecutor { commands: Vec::new() }
    }
}

impl CommandExecutor for RecordingExecutor {
    open spec fn given(&self) -> Seq<CommandModel> {
        command_views(self.commands@)
    }

    open spec fn outcomes(&self) -> Seq<Result<(), Seq<char>>> {
        Seq::new(self.commands@.len(), |i: int| Ok(()))
    }

    fn run(&mut self, cmd: CommandSpec) -> (r: Result<(), String>)
        ensures
            r is Ok,
    {
        let ghost before = self.commands@;
        let ghost c = cmd@;
        self.commands.push(cmd);
        assert(command_views(self.commands@) =~= command_views(before).push(c));
        assert(self.outcomes() =~= old(self).outcomes().push(Ok(())));
        Ok(())
    }
}

/// Puts firewalls up and takes them down.
#[derive(Debug)]
pub struct FirewallManager<E: CommandExecutor> {
    pub executor: E,
}

/// The outcomes that came after others.
pub open spec fn outcomes_since<E: CommandExecutor>(before: E, after: E) -> Seq<
    Result<(), Seq<char>>,
> {
    after.outcomes().skip(before.outcomes().len() as int)
}

/// A plan was given to an executor, command by command: all of it where every command did its
/// work, else up to and with the first that failed, whose error is the result.
pub open spec fn ran<E: CommandExecutor>(
    before: E,
    after: E,
    plan: Seq<CommandModel>,
    r: Result<(), String>,
) -> bool {
    let outcomes = outcomes_since(before, after);
    &&& after.outcomes() == before.outcomes() + outcomes
    &&& outcomes.len() <= plan.len()
    &&& after.given() == before.given() + plan.take(outcomes.len() as int)
    &&& forall|i: int| 0 <= i < outcomes.len() - 1 ==> (#[trigger] outcomes[i]) is Ok
    &&& match r {
        Ok(_) => outcomes.len() == plan.len() && (outcomes.len() > 0 ==> outcomes.last() is Ok),
        Err(e) => outcomes.len() > 0 && outcomes.last() == Err::<(), Seq<char>>(e@),
    }
}

impl<E: CommandExecutor> FirewallManager<E> {
    pub fn new(executor: E) -> (r: Self)
        ensures
            r.executor == executor,
    {
        FirewallManager { executor }
    }

    /// Runs the commands of a plan in their order, up to the first that fails.
    pub fn run_all(&mut self, plan: Vec<CommandSpec>) -> (r: Result<(), String>)
        ensures
            ran(old(self).executor, final(self).executor, command_views(plan@), r),
    {
        let ghost before = self.executor;
        let ghost all = command_views(plan@);
        let ghost mut done: int = 0;
        let mut step = RunCommands::begin(plan);
        assert(plan@.skip(0) =~= plan@);
        assert(before.given() + all.take(0) =~= before.given());
        assert(outcomes_since(before, before).len() == 0);
        assert(before.outcomes() + outcomes_since(before, before) =~= before.outcomes());
        loop
            invariant
                before == old(self).executor,
                all == command_views(plan@),
                0 <= done <= all.len(),
                self.executor.given() == before.given() + all.take(done),
                self.executor.outcomes() == before.outcomes() + outcomes_since(
                    before,
                    self.executor,
                ),
                outcomes_since(before, self.executor).len() == done,
                forall|i: int|
                    0 <= i < done - 1 ==> (#[trigger] outcomes_since(before, self.executor)[i]) is Ok,
                done == 0 || outcomes_since(before, self.executor)[done - 1] is Ok
                    ==> RunCommands::goes_on(plan@.skip(done), step),
                done > 0 ==> (outcomes_since(before, self.executor)[done - 1] matches Err(m) ==> (
                step matches CommandStep::Done(Err(e)) && e@ == m)),
            decreases all.len() - done,
        {
            match step {
                CommandStep::Run(command, op) => {
                    let ghost so_far = self.executor;
                    assert(command == plan@[done]);
                    let outcome = self.executor.run(command);
                    proof {
                        assert((before.given() + all.take(done)).push(all[done]) =~= before.given()
                            + all.take(done + 1));
                        let answer = outcome_view(outcome);
                        assert(outcomes_since(before, self.executor) =~= outcomes_since(
                            before,
                            so_far,
                        ).push(answer));
                        assert(self.executor.outcomes() =~= before.outcomes() + outcomes_since(
                            before,
                            self.executor,
                        ));
                        assert(plan@.skip(done).drop_first() =~= plan@.skip(done + 1));
                        done = done + 1;
                    }
                    step = op.resume(outcome);
                },
                CommandStep::Done(r) => {
                    assert(all.take(all.len() as int) =~= all);
                    return r;
                },
            }
        }
    }

    pub fn apply(&mut self, spec: &VmNetworkSpec, mode: &NetworkMode) -> (r: Result<(), String>)
        ensures
            ran(old(self).executor, final(self).executor, apply_plan(*spec, mode@), r),
    {
        let plan = build_apply_plan(spec, mode);
        self.run_all(plan)
    }

    pub fn teardown(&mut self, spec: &VmNetworkSpec) -> (r: Result<(), String>)
        ensures
            ran(old(self).executor, final(self).executor, teardown_plan(*spec), r),
    {
        let plan = build_teardown_plan(spec);
        self.run_all(plan)
    }
}

/// The result of a plan is what its commands came to: it succeeds exactly where all of them
/// did, and one that fails is the last that was given.
pub proof fn plans_stop_at_the_first_failure<E: CommandExecutor>(
    before: E,
    after: E,
    plan: Seq<CommandModel>,
    r: Result<(), String>,
    k: int,
)
    requires
        ran(before, after, plan, r),
        0 <= k < outcomes_since(before, after).len(),
    ensures
        r is Ok <==> (outcomes_since(before, after).len() == plan.len() && forall|i: int|
            0 <= i < plan.len() ==> (#[trigger] outcomes_since(before, after)[i]) is Ok),
        outcomes_since(before, after)[k] matches Err(m) ==> {
            &&& r matches Err(e)
            &&& e@ == m
            &&& after.given() == before.given() + plan.take(k + 1)
        },
{
    let outcomes = outcomes_since(before, after);
    if r is Ok {
        assert(outcomes.last() == outcomes[plan.len() - 1]);
    } else {
        assert(!(outcomes[outcomes.len() - 1] is Ok));
    }
}

/// With an executor that only keeps its commands every plan succeeds, and all of it is kept.
pub proof fn recorded_plans_succeed(
    before: RecordingExecutor,
    after: RecordingExecutor,
    plan: Seq<CommandModel>,
    r: Result<(), String>,
)
    requires
        ran(before, after, plan, r),
    ensures
        r is Ok,
        after.given() == before.given() + plan,
{
    let outcomes = outcomes_since(before, after);
    if outcomes.len() > 0 {
        assert(outcomes.last() == after.outcomes()[after.outcomes().len() - 1]);
    }
    assert(plan.take(plan.len() as int) =~= plan);
}

} // verus!
