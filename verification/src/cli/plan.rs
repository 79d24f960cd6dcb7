//! What the flags of a command come to.

use crate::cli::fault::{fails_because, fails_saying, id_complaint, parse_sandbox_id, Fault};
use crate::cli::policy::{
    backend_name, build_effective_isolation_summary, enforcement, ensure_network_mode_supported,
    isolation_class_of, network_word, opt_server, profile_word, strictly_rising,
    summaries_say_what_holds, writable_scope_from_workspace_and_writes, writable_scope_from_writes,
    writes_to, EffectiveIsolationSummary, ResolvedNetworkPolicy, ServerInfo,
};
use crate::cli::session::{RunManner, RunOrder};
use crate::config::{default_config, ConfigModel, NetworkModel, SandboxConfig};
use crate::ids::uuid_parsed;
use crate::model::SandboxId;
use crate::paths::{below, join_path};
use crate::text::{opt_view, views};
use vstd::prelude::*;

verus! {

/// The flags of a run.
#[derive(Debug)]
pub struct RunArgs {
    pub sandbox_id: Option<String>,
    pub name: Option<String>,
    pub cmd: String,
    pub timeout: u64,
    pub workspace: Option<String>,
    pub ensure: Vec<String>,
    pub writes: Vec<String>,
    pub reads: Vec<String>,
    pub json: bool,
    pub ephemeral: bool,
    pub detach: bool,
}

/// A run as it is to be shown and then carried out. It may be refused after it was shown.
#[derive(Debug)]
pub struct RunPlan {
    pub summary: EffectiveIsolationSummary,
    pub run: Result<(RunOrder, RunManner), Fault>,
}

/// A summary says how the isolation comes out.
pub open spec fn summarizes(
    s: EffectiveIsolationSummary,
    server: Option<ServerInfo>,
    network: Option<NetworkModel>,
    profile: Option<Seq<char>>,
    timeout: u64,
) -> bool {
    &&& s.backend@ == backend_name(server)
    &&& s.isolation_class@ == isolation_class_of(s.backend@)
    &&& s.profile@ == profile_word(profile, network)
    &&& s.network_mode@ == network_word(network)
    &&& (s.network_enforcement@, opt_view(s.network_reason)) == enforcement(server, network)
    &&& s.timeout_secs == timeout
}

/// The places are these: one, and those that flags write to.
pub open spec fn covers(places: Seq<Seq<char>>, place: Seq<char>, writes: Seq<Seq<char>>) -> bool {
    &&& strictly_rising(places)
    &&& forall|p: Seq<char>| #[trigger]
        places.contains(p) <==> p == place || writes_to(writes, p)
}

/// What every run takes over from its flags.
pub open spec fn carries_over(args: RunArgs, order: RunOrder, manner: RunManner) -> bool {
    &&& order.ensure_commands == args.ensure
    &&& order.cmd == args.cmd
    &&& order.writes == args.writes
    &&& manner.timeout == args.timeout
    &&& manner.reads == args.reads
    &&& manner.json == args.json
    &&& manner.detach == args.detach
}

/// A plan for a run in a sandbox that is there.
pub open spec fn is_existing_run(
    args: RunArgs,
    server: Option<ServerInfo>,
    r: Result<RunPlan, Fault>,
) -> bool {
    match r {
        Ok(plan) => {
            &&& summarizes(plan.summary, server, None, None, args.timeout)
            &&& covers(
                views(plan.summary.writable_paths@),
                "<existing sandbox workspace>"@,
                views(args.writes@),
            )
            &&& plan.run matches Ok((order, manner))
            &&& carries_over(args, order, manner)
            &&& order.create_config is None
            &&& !order.reuse_auto_session
            &&& !manner.destroy_after_wait
            &&& match args.sandbox_id {
                Some(raw) => order.affinity_name is None && (uuid_parsed(raw@) matches Ok(id)
                    && order.sandbox_id == Some(SandboxId(id))),
                None => order.sandbox_id is None && order.affinity_name == args.name,
            }
        },
        Err(_) => args.sandbox_id matches Some(raw) && (uuid_parsed(raw@) matches Err(e)
            && fails_because(r, id_complaint("sandbox"@, raw@), e)),
    }
}

/// A run in a sandbox that is there, named by its identifier or by its name.
pub fn plan_existing_run(args: RunArgs, server: Option<&ServerInfo>) -> (r: Result<RunPlan, Fault>)
    requires
        args.sandbox_id is Some || args.name is Some,
    ensures
        is_existing_run(args, opt_server(server), r),
{
    let (sandbox_id, affinity_name) = match args.sandbox_id {
        Some(raw) => match parse_sandbox_id(raw.as_str()) {
            Ok(id) => (Some(id), None),
            Err(f) => {
                return Err(f);
            },
        },
        None => (None, args.name),
    };
    let places = writable_scope_from_writes(args.writes.as_slice(), true);
    let summary = build_effective_isolation_summary(server, None, None, places, args.timeout);
    let order = RunOrder {
        sandbox_id,
        affinity_name,
        create_config: None,
        reuse_auto_session: false,
        ensure_commands: args.ensure,
        cmd: args.cmd,
        writes: args.writes,
    };
    let manner = RunManner {
        timeout: args.timeout,
        reads: args.reads,
        json: args.json,
        detach: args.detach,
        destroy_after_wait: false,
    };
    Ok(RunPlan { summary, run: Ok((order, manner)) })
}

/// The complaint about a network that the backend cannot see to, if it cannot.
pub open spec fn network_complaint(server: Option<ServerInfo>, network: NetworkModel) -> Option<
    Seq<char>,
> {
    let e = enforcement(server, Some(network));
    if e.0 == "unsupported"@ {
        match e.1 {
            Some(reason) => Some(reason),
            None => Some("requested network mode is unsupported by active backend"@),
        }
    } else {
        None
    }
}

/// The place that a new sandbox works in, for the summary.
pub open spec fn new_place(workspace: Option<String>) -> Seq<char> {
    match workspace {
        Some(dir) => dir@,
        None => "<ephemeral sandbox workspace>"@,
    }
}

fn opt_str(s: &Option<String>) -> (r: Option<&str>)
    ensures
        crate::cli::policy::opt_str_view(r) == opt_view(*s),
{
    match s {
        Some(t) => Some(t.as_str()),
        None => None,
    }
}

fn network_fault(server: Option<&ServerInfo>, config: &SandboxConfig) -> (r: Result<(), Fault>)
    ensures
        match network_complaint(opt_server(server), config.network@) {
            Some(text) => fails_saying(r, text),
            None => r is Ok,
        },
{
    match ensure_network_mode_supported(server, &config.network) {
        Ok(()) => Ok(()),
        Err(m) => Err(Fault::new(m)),
    }
}

/// A plan for a run in a new sandbox.
pub open spec fn is_new_run(
    args: RunArgs,
    policy: ResolvedNetworkPolicy,
    template: Seq<char>,
    server: Option<ServerInfo>,
    plan: RunPlan,
) -> bool {
    &&& summarizes(
        plan.summary,
        server,
        Some(policy.network_mode@),
        opt_view(policy.profile_label),
        args.timeout,
    )
    &&& covers(
        views(plan.summary.writable_paths@),
        new_place(args.workspace),
        views(args.writes@),
    )
    &&& match network_complaint(server, policy.network_mode@) {
        Some(text) => fails_saying(plan.run, text),
        None => {
            &&& plan.run matches Ok((order, manner))
            &&& carries_over(args, order, manner)
            &&& order.sandbox_id is None
            &&& order.affinity_name is None
            &&& order.create_config matches Some(config)
            &&& config@ == (ConfigModel {
                template,
                network: policy.network_mode@,
                timeout_secs: args.timeout,
                workspace_dir: opt_view(args.workspace),
                ..default_config()
            })
            &&& order.reuse_auto_session == !args.ephemeral
            &&& manner.destroy_after_wait == (args.ephemeral && !args.detach)
        },
    }
}

/// A run in a new sandbox. One that is not ephemeral takes place in the session of the
/// directory; one that is goes with its sandbox, unless it goes on by itself.
pub fn plan_new_run(
    args: RunArgs,
    policy: ResolvedNetworkPolicy,
    template: String,
    server: Option<&ServerInfo>,
) -> (plan: RunPlan)
    ensures
        is_new_run(args, policy, template@, opt_server(server), plan),
{
    let places = writable_scope_from_workspace_and_writes(
        opt_str(&args.workspace),
        args.writes.as_slice(),
    );
    let summary = build_effective_isolation_summary(
        server,
        Some(&policy.network_mode),
        opt_str(&policy.profile_label),
        places,
        args.timeout,
    );
    let mut config = SandboxConfig::default();
    config.template = template;
    config.network = policy.network_mode;
    config.timeout_secs = args.timeout;
    config.workspace_dir = args.workspace;
    match network_fault(server, &config) {
        Err(f) => RunPlan { summary, run: Err(f) },
        Ok(()) => {
            let order = RunOrder {
                sandbox_id: None,
                affinity_name: None,
                create_config: Some(config),
                reuse_auto_session: !args.ephemeral,
                ensure_commands: args.ensure,
                cmd: args.cmd,
                writes: args.writes,
            };
            let manner = RunManner {
                timeout: args.timeout,
                reads: args.reads,
                json: args.json,
                detach: args.detach,
                destroy_after_wait: args.ephemeral && !args.detach,
            };
            RunPlan { summary, run: Ok((order, manner)) }
        },
    }
}

/// The flags of a sandbox that is made without a run.
#[derive(Debug)]
pub struct CreateArgs {
    pub name: Option<String>,
    pub timeout: u64,
    pub memory_mb: u32,
    pub vcpu_count: u8,
    pub workspace: Option<String>,
}

/// A sandbox as it is to be shown and then made. It may be refused after it was shown.
#[derive(Debug)]
pub struct CreatePlan {
    pub summary: EffectiveIsolationSummary,
    pub config: Result<SandboxConfig, Fault>,
}

pub fn plan_create(
    args: CreateArgs,
    policy: ResolvedNetworkPolicy,
    template: String,
    server: Option<&ServerInfo>,
) -> (plan: CreatePlan)
    ensures
        summarizes(
            plan.summary,
            opt_server(server),
            Some(policy.network_mode@),
            opt_view(policy.profile_label),
            args.timeout,
        ),
        covers(
            views(plan.summary.writable_paths@),
            new_place(args.workspace),
            Seq::<Seq<char>>::empty(),
        ),
        match network_complaint(opt_server(server), policy.network_mode@) {
            Some(text) => fails_saying(plan.config, text),
            None => plan.config matches Ok(config) && config@ == (ConfigModel {
                affinity_name: opt_view(args.name),
                template: template@,
                memory_mb: args.memory_mb,
                vcpu_count: args.vcpu_count,
                network: policy.network_mode@,
                timeout_secs: args.timeout,
                workspace_dir: opt_view(args.workspace),
                ..default_config()
            }),
        },
{
    let nothing: Vec<String> = Vec::new();
    let places = writable_scope_from_workspace_and_writes(
        opt_str(&args.workspace),
        nothing.as_slice(),
    );
    assert(views(nothing@) =~= Seq::<Seq<char>>::empty());
    let summary = build_effective_isolation_summary(
        server,
        Some(&policy.network_mode),
        opt_str(&policy.profile_label),
        places,
        args.timeout,
    );
    let mut config = SandboxConfig::default();
    config.affinity_name = args.name;
    config.template = template;
    config.memory_mb = args.memory_mb;
    config.vcpu_count = args.vcpu_count;
    config.network = policy.network_mode;
    config.timeout_secs = args.timeout;
    config.workspace_dir = args.workspace;
    match network_fault(server, &config) {
        Err(f) => CreatePlan { summary, config: Err(f) },
        Ok(()) => CreatePlan { summary, config: Ok(config) },
    }
}

/// Where the profiles stand: in the file that is named, or below the home directory.
pub fn resolve_profile_config_path(named: Option<String>, home: Option<String>) -> (r: Result<
    String,
    Fault,
>)
    ensures
        match (named, home) {
            (Some(path), _) => r == Ok::<String, Fault>(path),
            (None, Some(dir)) => r matches Ok(path) && path@ == below(
                dir@,
                ".hyperbox/profiles.toml"@,
            ),
            (None, None) => fails_saying(r, "resolve HOME for default profile config path"@),
        },
{
    match named {
        Some(path) => Ok(path),
        None => match home {
            Some(dir) => Ok(join_path(dir.as_str(), ".hyperbox/profiles.toml")),
            None => Err(
                Fault::new("resolve HOME for default profile config path".to_owned()),
            ),
        },
    }
}

/// A run does in its sandbox what its flags say, under the network that was resolved and no other.
/// A new sandbox that is ephemeral goes after the run unless the run goes on by itself, and belongs
/// to no session; any other one belongs to its session and stays. A sandbox that is there already
/// stays too, and is the one that was named. A network that the backend cannot see to is refused.
pub proof fn runs_follow_their_flags(
    args: RunArgs,
    policy: ResolvedNetworkPolicy,
    template: Seq<char>,
    server: Option<ServerInfo>,
    plan: RunPlan,
    there: Result<RunPlan, Fault>,
)
    requires
        is_new_run(args, policy, template, server, plan),
        is_existing_run(args, server, there),
    ensures
        enforcement(server, Some(policy.network_mode@)).0 == "unsupported"@ <==> plan.run is Err,
        plan.run matches Ok((order, manner)) ==> {
            &&& order.cmd@ == args.cmd@
            &&& order.ensure_commands == args.ensure
            &&& order.writes == args.writes
            &&& manner.reads == args.reads
            &&& manner.timeout == args.timeout
            &&& manner.detach == args.detach
            &&& order.create_config matches Some(config)
            &&& config.network@ == policy.network_mode@
            &&& config.template@ == template
            &&& config.timeout_secs == args.timeout
            &&& opt_view(config.workspace_dir) == opt_view(args.workspace)
            &&& config@.affinity_name is None
            &&& args.ephemeral ==> !order.reuse_auto_session
            &&& !args.ephemeral ==> order.reuse_auto_session && !manner.destroy_after_wait
            &&& args.ephemeral && args.detach ==> !manner.destroy_after_wait
            &&& args.ephemeral && !args.detach ==> manner.destroy_after_wait
        },
        there matches Ok(p) ==> {
            &&& p.run matches Ok((order, manner))
            &&& order.cmd@ == args.cmd@
            &&& order.create_config is None
            &&& !manner.destroy_after_wait
            &&& args.sandbox_id is None ==> order.sandbox_id is None && order.affinity_name
                == args.name
            &&& args.sandbox_id matches Some(raw) ==> (uuid_parsed(raw@) matches Ok(id)
                && order.sandbox_id == Some(SandboxId(id)))
        },
        plan.summary.network_mode@ == "none"@ <==> policy.network_mode@ is NoNetwork,
        plan.summary.timeout_secs == args.timeout,
        views(plan.summary.writable_paths@).contains(
            match args.workspace {
                Some(dir) => dir@,
                None => "<ephemeral sandbox workspace>"@,
            },
        ),
{
    summaries_say_what_holds(Some(policy.network_mode@), None, Seq::empty());
}

} // verus!
