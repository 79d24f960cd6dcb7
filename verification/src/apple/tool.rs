//! What the container tool reads from its arguments: flags of their own, flags with a value,
//! settings of the environment, and behind them what they are for.

use crate::apple::backend::{open_network_args, run_args};
use crate::apple::container::{
    container_path, delete_model, exec_args, parent_model, read_model, write_model,
};
use crate::cli::apple_helper::{network_args, AllowlistRuntimeSetup, HelperNetwork};
use crate::cli::dns_script::{ALLOWLIST_DNS_BOOTSTRAP, ALLOWLIST_DNS_SCRIPT};
use crate::cli::helper_work::{dns_args, start_args, CreateOrder};
use crate::codec::base64_text;
use crate::config::ConfigModel;
use crate::numbers::decimal;
use crate::paths::plain_path;
use vstd::prelude::*;

verus! {

/// What is read from arguments.
#[verifier::ext_equal]
pub struct Reading {
    pub switches: Set<Seq<char>>,
    pub values: Map<Seq<char>, Seq<char>>,
    pub env: Seq<Seq<char>>,
    pub rest: Seq<Seq<char>>,
}

pub open spec fn is_switch(flag: Seq<char>) -> bool {
    flag == "--detach"@ || flag == "--interactive"@ || flag == "--force"@
}

pub open spec fn takes_value(flag: Seq<char>) -> bool {
    flag == "--progress"@ || flag == "--name"@ || flag == "--cpus"@ || flag == "--memory"@ || flag
        == "--workdir"@ || flag == "--volume"@ || flag == "--network"@ || flag == "--dns"@
}

/// A word that the tool takes for a flag.
pub open spec fn is_flag(word: Seq<char>) -> bool {
    is_switch(word) || takes_value(word) || word == "--env"@
}

/// What the tool reads behind its verb.
pub open spec fn reading(args: Seq<Seq<char>>) -> Reading
    decreases args.len(),
{
    if args.len() > 0 && is_switch(args[0]) {
        let r = reading(args.subrange(1, args.len() as int));
        Reading { switches: r.switches.insert(args[0]), ..r }
    } else if args.len() > 1 && args[0] == "--env"@ {
        let r = reading(args.subrange(2, args.len() as int));
        Reading { env: seq![args[1]] + r.env, ..r }
    } else if args.len() > 1 && takes_value(args[0]) {
        let r = reading(args.subrange(2, args.len() as int));
        Reading { values: r.values.insert(args[0], args[1]), ..r }
    } else {
        Reading { switches: Set::empty(), values: Map::empty(), env: Seq::empty(), rest: args }
    }
}

proof fn flags_differ()
    ensures
        forall|f: Seq<char>| #[trigger] takes_value(f) ==> !is_switch(f) && f != "--env"@,
        !is_switch("--env"@),
        "--progress"@ != "--name"@,
        "--name"@ != "--cpus"@,
        "--name"@ != "--memory"@,
        "--name"@ != "--workdir"@,
        "--name"@ != "--volume"@,
        "--name"@ != "--network"@,
        "--name"@ != "--dns"@,
        "--cpus"@ != "--progress"@,
        "--cpus"@ != "--memory"@,
        "--cpus"@ != "--workdir"@,
        "--cpus"@ != "--volume"@,
        "--cpus"@ != "--network"@,
        "--cpus"@ != "--dns"@,
        "--memory"@ != "--progress"@,
        "--memory"@ != "--workdir"@,
        "--memory"@ != "--volume"@,
        "--memory"@ != "--network"@,
        "--memory"@ != "--dns"@,
        "--workdir"@ != "--progress"@,
        "--workdir"@ != "--volume"@,
        "--workdir"@ != "--network"@,
        "--workdir"@ != "--dns"@,
        "--volume"@ != "--progress"@,
        "--volume"@ != "--network"@,
        "--volume"@ != "--dns"@,
        "--network"@ != "--progress"@,
        "--network"@ != "--dns"@,
        "--dns"@ != "--progress"@,
{
    reveal_strlit("--detach");
    reveal_strlit("--interactive");
    reveal_strlit("--force");
    reveal_strlit("--env");
    reveal_strlit("--progress");
    reveal_strlit("--name");
    reveal_strlit("--cpus");
    reveal_strlit("--memory");
    reveal_strlit("--workdir");
    reveal_strlit("--volume");
    reveal_strlit("--network");
    reveal_strlit("--dns");
    assert("--detach"@[2] == 'd' && "--detach"@.len() == 8);
    assert("--interactive"@[2] == 'i');
    assert("--force"@[2] == 'f');
    assert("--env"@[2] == 'e');
    assert("--progress"@[2] == 'p');
    assert("--name"@[2] == 'n' && "--name"@.len() == 6);
    assert("--cpus"@[2] == 'c');
    assert("--memory"@[2] == 'm');
    assert("--workdir"@[2] == 'w');
    assert("--volume"@[2] == 'v');
    assert("--network"@[2] == 'n' && "--network"@.len() == 9);
    assert("--dns"@[2] == 'd' && "--dns"@.len() == 5);
}

proof fn a_switch(flag: Seq<char>, rest: Seq<Seq<char>>)
    requires
        is_switch(flag),
    ensures
        reading(seq![flag] + rest) == (Reading {
            switches: reading(rest).switches.insert(flag),
            ..reading(rest)
        }),
{
    let args = seq![flag] + rest;
    assert(args.subrange(1, args.len() as int) =~= rest);
}

proof fn a_value(flag: Seq<char>, value: Seq<char>, rest: Seq<Seq<char>>)
    requires
        takes_value(flag),
    ensures
        reading(seq![flag, value] + rest) == (Reading {
            values: reading(rest).values.insert(flag, value),
            ..reading(rest)
        }),
{
    flags_differ();
    let args = seq![flag, value] + rest;
    assert(args.subrange(2, args.len() as int) =~= rest);
}

proof fn a_setting(value: Seq<char>, rest: Seq<Seq<char>>)
    ensures
        reading(seq!["--env"@, value] + rest) == (Reading {
            env: seq![value] + reading(rest).env,
            ..reading(rest)
        }),
{
    flags_differ();
    let args = seq!["--env"@, value] + rest;
    assert(args.subrange(2, args.len() as int) =~= rest);
}

/// A container for a sandbox: it stays in the background under this name, with so many processors
/// and so much memory, it works in the directory that the workspace is mounted at, and it runs
/// nothing but a wait in the image of the template.
pub open spec fn keeps_a_sandbox(
    r: Reading,
    name: Seq<char>,
    workspace: Seq<char>,
    cpus: nat,
    memory_mb: nat,
    template: Seq<char>,
) -> bool {
    &&& r.switches == set!["--detach"@]
    &&& r.env.len() == 0
    &&& r.values["--name"@] == name
    &&& r.values["--cpus"@] == decimal(cpus)
    &&& r.values["--memory"@] == decimal(memory_mb) + "M"@
    &&& r.values["--workdir"@] == "/workspace"@
    &&& r.values["--volume"@] == workspace + ":/workspace"@
    &&& r.rest == seq![template, "sleep"@, "infinity"@]
}

/// One where there is none.
pub open spec fn one_at_least(n: nat) -> nat {
    if n == 0 {
        1
    } else {
        n
    }
}

/// The container of a sandbox is started as its configuration says. It has no network where it is
/// to have none, and the one that containers have anyway where it is to have the full one.
pub proof fn containers_start_as_configured(
    name: Seq<char>,
    workspace: Seq<char>,
    config: ConfigModel,
)
    requires
        !is_flag(config.template),
        !(config.network is Allowlist),
    ensures
        ({
            let args = run_args(name, workspace, open_network_args(config.network), config);
            let r = reading(args.skip(1));
            &&& args[0] == "run"@
            &&& keeps_a_sandbox(
                r,
                name,
                workspace,
                one_at_least(config.vcpu_count as nat),
                one_at_least(config.memory_mb as nat),
                config.template,
            )
            &&& config.network is NoNetwork ==> r.values.contains_key("--network"@)
                && r.values["--network"@] == "none"@
            &&& config.network is Full ==> !r.values.contains_key("--network"@)
        }),
{
    flags_differ();
    let net = open_network_args(config.network);
    let args = run_args(name, workspace, net, config);
    let cpus = args[7];
    let memory = args[9];
    let mount = args[13];
    let tail = seq![config.template, "sleep"@, "infinity"@];
    let e = if config.network is NoNetwork {
        seq!["--network"@, "none"@] + tail
    } else {
        tail
    };
    let d = seq!["--volume"@, mount] + e;
    let c = seq!["--workdir"@, "/workspace"@] + d;
    let b = seq!["--memory"@, memory] + c;
    let a = seq!["--cpus"@, cpus] + b;
    let n = seq!["--name"@, name] + a;
    let p = seq!["--progress"@, "none"@] + n;
    let all = seq!["--detach"@] + p;
    assert(args.skip(1) =~= all);
    if config.network is NoNetwork {
        a_value("--network"@, "none"@, tail);
    }
    a_value("--volume"@, mount, e);
    a_value("--workdir"@, "/workspace"@, d);
    a_value("--memory"@, memory, c);
    a_value("--cpus"@, cpus, b);
    a_value("--name"@, name, a);
    a_value("--progress"@, "none"@, n);
    a_switch("--detach"@, p);
    assert(reading(all).switches =~= set!["--detach"@]);
}

/// The helper starts the container of a sandbox as it was ordered: without a network, with the one
/// that containers have anyway, or on the network of the sandbox with its own name server.
pub proof fn helpers_start_what_is_ordered(
    order: CreateOrder,
    workspace: Seq<char>,
    setup: Option<AllowlistRuntimeSetup>,
)
    requires
        !is_flag(order.template@),
        order.network@ is Allowlist ==> setup is Some,
    ensures
        network_args(order.network@, setup) matches Ok(net) && {
            let args = start_args(order, workspace, net);
            let r = reading(args.skip(1));
            &&& args[0] == "run"@
            &&& keeps_a_sandbox(
                r,
                "hyperbox-"@ + order.sandbox_id@,
                workspace,
                match order.vcpu_count {
                    Some(n) => one_at_least(n as nat),
                    None => 1,
                },
                match order.memory_mb {
                    Some(n) => one_at_least(n as nat),
                    None => 512,
                },
                order.template@,
            )
            &&& match order.network@ {
                HelperNetwork::NoNetwork => r.values.contains_key("--network"@)
                    && r.values["--network"@] == "none"@ && !r.values.contains_key("--dns"@),
                HelperNetwork::Full => !r.values.contains_key("--network"@)
                    && !r.values.contains_key("--dns"@),
                HelperNetwork::Allowlist(_) => r.values.contains_key("--network"@)
                    && r.values["--network"@] == setup->0.network_name@ && r.values.contains_key(
                    "--dns"@,
                ) && r.values["--dns"@] == setup->0.dns_server_ip@,
            }
        },
{
    flags_differ();
    let net = network_args(order.network@, setup)->Ok_0;
    let args = start_args(order, workspace, net);
    let name = args[3];
    let cpus = args[5];
    let memory = args[7];
    let mount = args[11];
    let tail = seq![order.template@, "sleep"@, "infinity"@];
    let e = net + tail;
    match order.network@ {
        HelperNetwork::NoNetwork => {
            a_value("--network"@, "none"@, tail);
        },
        HelperNetwork::Full => {
            assert(e =~= tail);
        },
        HelperNetwork::Allowlist(_) => {
            let s = setup->0;
            let f = seq!["--dns"@, s.dns_server_ip@] + tail;
            a_value("--dns"@, s.dns_server_ip@, tail);
            a_value("--network"@, s.network_name@, f);
            assert(e =~= seq!["--network"@, s.network_name@] + f);
        },
    }
    let p = seq!["--progress"@, "none"@] + e;
    let d = seq!["--volume"@, mount] + p;
    let c = seq!["--workdir"@, "/workspace"@] + d;
    let b = seq!["--memory"@, memory] + c;
    let a = seq!["--cpus"@, cpus] + b;
    let n = seq!["--name"@, name] + a;
    let all = seq!["--detach"@] + n;
    assert(args.skip(1) =~= all);
    a_value("--progress"@, "none"@, e);
    a_value("--volume"@, mount, p);
    a_value("--workdir"@, "/workspace"@, d);
    a_value("--memory"@, memory, c);
    a_value("--cpus"@, cpus, b);
    a_value("--name"@, name, a);
    a_switch("--detach"@, n);
    assert(reading(all).switches =~= set!["--detach"@]);
}

/// The name server of a sandbox is started on the network of the sandbox, with its allowlist, the
/// gateway to ask, and its program.
pub proof fn name_servers_know_their_allowlist(
    dns_name: Seq<char>,
    network_name: Seq<char>,
    allowlist_json: Seq<char>,
    gateway: Seq<char>,
)
    ensures
        ({
            let args = dns_args(dns_name, network_name, allowlist_json, gateway);
            let r = reading(args.skip(1));
            &&& args[0] == "run"@
            &&& r.switches == set!["--detach"@]
            &&& r.values["--name"@] == dns_name
            &&& r.values["--network"@] == network_name
            &&& r.env == seq![
                "HB_ALLOWLIST_B64="@ + base64_text(vstd::utf8::encode_utf8(allowlist_json)),
                "HB_DNS_UPSTREAM="@ + gateway,
                "HB_DNS_SCRIPT_B64="@ + base64_text(vstd::utf8::encode_utf8(ALLOWLIST_DNS_SCRIPT@)),
            ]
            &&& r.rest == seq![
                "python:3.12"@,
                "python3"@,
                "-u"@,
                "-c"@,
                ALLOWLIST_DNS_BOOTSTRAP@,
            ]
        }),
{
    flags_differ();
    let args = dns_args(dns_name, network_name, allowlist_json, gateway);
    let x = args[13];
    let y = args[15];
    let z = args[17];
    let tail = seq!["python:3.12"@, "python3"@, "-u"@, "-c"@, ALLOWLIST_DNS_BOOTSTRAP@];
    reveal_strlit("python:3.12");
    reveal_strlit("--detach");
    reveal_strlit("--interactive");
    reveal_strlit("--force");
    reveal_strlit("--env");
    reveal_strlit("--progress");
    reveal_strlit("--name");
    reveal_strlit("--cpus");
    reveal_strlit("--memory");
    reveal_strlit("--workdir");
    reveal_strlit("--volume");
    reveal_strlit("--network");
    reveal_strlit("--dns");
    assert("python:3.12"@[0] == 'p');
    assert(!is_flag("python:3.12"@));
    let h = seq!["--env"@, z] + tail;
    let g = seq!["--env"@, y] + h;
    let f = seq!["--env"@, x] + g;
    let e = seq!["--memory"@, "256M"@] + f;
    let d = seq!["--cpus"@, "1"@] + e;
    let c = seq!["--network"@, network_name] + d;
    let b = seq!["--name"@, dns_name] + c;
    let a = seq!["--progress"@, "none"@] + b;
    let all = seq!["--detach"@] + a;
    assert(args.skip(1) =~= all);
    a_setting(z, tail);
    a_setting(y, h);
    a_setting(x, g);
    a_value("--memory"@, "256M"@, f);
    a_value("--cpus"@, "1"@, e);
    a_value("--network"@, network_name, d);
    a_value("--name"@, dns_name, c);
    a_value("--progress"@, "none"@, b);
    a_switch("--detach"@, a);
    assert(reading(all).switches =~= set!["--detach"@]);
    assert(reading(all).env =~= seq![x, y, z]);
}

/// A command for a container is run in it, word for word, in the directory of the workspace. A file
/// is read by putting it out, its directory is made before it, and it is filled from the input of
/// the command, which is what is to be written.
pub proof fn commands_run_in_their_container(
    container: Seq<char>,
    command: Seq<Seq<char>>,
    names: Seq<Seq<char>>,
    path: Seq<char>,
    bytes: Seq<u8>,
    secs: u64,
)
    requires
        !is_flag(container),
    ensures
        ({
            let args = exec_args(container, command);
            let r = reading(args.skip(1));
            &&& args[0] == "exec"@
            &&& r.switches.len() == 0 && r.env.len() == 0
            &&& r.values == map!["--workdir"@ => "/workspace"@]
            &&& r.rest == seq![container] + command
        }),
        ({
            let call = read_model(container, names, secs);
            let r = reading(call.args.skip(1));
            &&& call.args[0] == "exec"@
            &&& r.rest == seq![
                container,
                "/usr/bin/env"@,
                "cat"@,
                container_path(plain_path(names)),
            ]
            &&& call.stdin is None
            &&& call.timeout_secs == secs
        }),
        parent_model(container, names, secs) is None <==> names.len() < 2,
        parent_model(container, names, secs) matches Some(call) ==> reading(
            call.args.skip(1),
        ).rest == seq![
            container,
            "/usr/bin/env"@,
            "mkdir"@,
            "-p"@,
            container_path(plain_path(names.drop_last())),
        ] && call.stdin is None,
        ({
            let call = write_model(container, path, bytes, secs);
            let r = reading(call.args.skip(1));
            &&& call.args[0] == "exec"@
            &&& r.switches == set!["--interactive"@]
            &&& r.rest == seq![container, "/usr/bin/env"@, "tee"@, path]
            &&& call.stdin == Some(bytes)
        }),
        ({
            let call = delete_model(container);
            let r = reading(call.args.skip(1));
            &&& call.args[0] == "delete"@
            &&& r.switches == set!["--force"@]
            &&& r.rest == seq![container]
        }),
{
    flags_differ();
    exec_is_read(container, command);
    let cat = seq!["/usr/bin/env"@, "cat"@, container_path(plain_path(names))];
    exec_is_read(container, cat);
    assert(seq![container] + cat =~= seq![
        container,
        "/usr/bin/env"@,
        "cat"@,
        container_path(plain_path(names)),
    ]);
    let mkdir = seq![
        "/usr/bin/env"@,
        "mkdir"@,
        "-p"@,
        container_path(plain_path(names.drop_last())),
    ];
    exec_is_read(container, mkdir);
    assert(seq![container] + mkdir =~= seq![
        container,
        "/usr/bin/env"@,
        "mkdir"@,
        "-p"@,
        container_path(plain_path(names.drop_last())),
    ]);
    let tee = seq![container, "/usr/bin/env"@, "tee"@, path];
    let w = seq!["--workdir"@, "/workspace"@] + tee;
    a_value("--workdir"@, "/workspace"@, tee);
    a_switch("--interactive"@, w);
    assert(write_model(container, path, bytes, secs).args.skip(1) =~= seq!["--interactive"@] + w);
    assert(reading(seq!["--interactive"@] + w).switches =~= set!["--interactive"@]);
    let gone = seq![container];
    a_switch("--force"@, gone);
    assert(delete_model(container).args.skip(1) =~= seq!["--force"@] + gone);
    assert(reading(seq!["--force"@] + gone).switches =~= set!["--force"@]);
}

proof fn exec_is_read(container: Seq<char>, command: Seq<Seq<char>>)
    requires
        !is_flag(container),
    ensures
        ({
            let args = exec_args(container, command);
            let r = reading(args.skip(1));
            &&& args[0] == "exec"@
            &&& r.switches.len() == 0 && r.env.len() == 0
            &&& r.values == map!["--workdir"@ => "/workspace"@]
            &&& r.rest == seq![container] + command
        }),
{
    let tail = seq![container] + command;
    a_value("--workdir"@, "/workspace"@, tail);
    assert(exec_args(container, command).skip(1) =~= seq!["--workdir"@, "/workspace"@] + tail);
    let r = reading(seq!["--workdir"@, "/workspace"@] + tail);
    assert(r.values =~= map!["--workdir"@ => "/workspace"@]);
}

} // verus!
