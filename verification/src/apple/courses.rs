//! Where the operations on a sandbox go, from its making to its end.

use crate::apple::backend::{
    asks_dir, ends_unfound, network_fields, open_network_args, run_args, AppleCreate, AppleEffect,
    AppleReply, AppleRuntimeKind, AppleStep, AppleVzBackend, HelperResponse, NewSandbox,
    RequestModel,
};
use crate::apple::container::{exec_args, CallModel, CommandResult};
use crate::apple::operations::{AppleDestroy, AppleExec, AppleRead, AppleWrite};
use crate::cli::apple_helper::{asked_network, first_wildcard, HelperNetwork, RuntimeKind};
use crate::codec::{base64_text, stands_for, utf8_lossy};
use crate::config::{
    list_patterns_read_back, pattern, patterns, valid_entry, valid_list, EntryModel, NetworkModel,
};
use crate::ids::hyphenated;
use crate::model::{ExecOutcome, ExecRequest, FilePayload, SandboxId, SandboxLease};
use crate::paths::{below, names_below};
use crate::text::{has_text, lowercase, opt_view, starts, views};
use vstd::prelude::*;

verus! {

/// A sandbox is known to the backend.
pub open spec fn is_known(backend: AppleVzBackend, id: SandboxId) -> bool {
    backend.sandboxes@.contains_key(id.0)
}

/// The name of the container that a sandbox has of its own, where the backend runs containers.
pub open spec fn own_container(backend: AppleVzBackend, id: SandboxId) -> Option<Seq<char>> {
    if is_known(backend, id) && backend.direct_container_bin is Some {
        match backend.sandboxes@[id.0].direct_container {
            Some(direct) => Some(direct.container_name@),
            None => None,
        }
    } else {
        None
    }
}

/// The sandbox is one of the helper program's.
pub open spec fn is_helped(backend: AppleVzBackend, id: SandboxId) -> bool {
    &&& is_known(backend, id)
    &&& backend.sandboxes@[id.0].direct_container is None
    &&& backend.config.launch_command is Some
}

/// The sandbox is reached by the agent alone.
pub open spec fn is_called(backend: AppleVzBackend, id: SandboxId) -> bool {
    &&& is_known(backend, id)
    &&& backend.sandboxes@[id.0].direct_container is None
    &&& backend.config.launch_command is None
}

/// What a call writes to a container: the file that `tee` is given, and the input.
pub open spec fn written_by(call: CallModel, container: Seq<char>) -> Option<(Seq<char>, Seq<u8>)> {
    let n = call.args.len();
    if n == 8 && call.args[0] == "exec"@ && call.args[1] == "--interactive"@ && call.args[4]
        == container && call.args[6] == "tee"@ && call.stdin is Some {
        Some((call.args[7], call.stdin->Some_0))
    } else {
        None
    }
}

/// What a call reads from a container: the file that `cat` is given.
pub open spec fn read_by(call: CallModel, container: Seq<char>) -> Option<Seq<char>> {
    let n = call.args.len();
    if n == 7 && call.args[0] == "exec"@ && call.args[3] == container && call.args[5] == "cat"@ {
        Some(call.args[6])
    } else {
        None
    }
}

/// A command is handed on word for word to where the sandbox runs, and what came of it is what is
/// told: the exit code and each of the outputs of its own.
pub proof fn commands_reach_their_sandbox(
    backend: AppleVzBackend,
    id: SandboxId,
    request: ExecRequest,
    state: AppleExec,
    step: AppleStep<ExecOutcome>,
    reply: AppleReply,
    last: AppleExec,
    told: AppleStep<ExecOutcome>,
)
    requires
        AppleExec::begins(backend, id, request, state, step),
        state.follows(reply, last, told),
    ensures
        !is_known(backend, id) ==> ends_unfound(step, id),
        own_container(backend, id) matches Some(name) ==> {
            &&& step matches AppleStep::Ask(AppleEffect::Container(c))
            &&& c@.args.len() == 4 + request.command@.len()
            &&& c@.args[0] == "exec"@
            &&& c@.args[3] == name
            &&& c@.args.skip(4) == views(request.command@)
            &&& c@.stdin is None
            &&& c@.timeout_secs >= 1
            &&& request.timeout_secs >= 1 ==> c@.timeout_secs == request.timeout_secs
            &&& reply matches AppleReply::Ran(result) ==> {
                &&& told matches AppleStep::Done(Ok(o))
                &&& o.exit_code == result.exit_code
                &&& o.stdout@ == utf8_lossy(result.stdout@)
                &&& o.stderr@ == utf8_lossy(result.stderr@)
                &&& o.duration_ms == result.duration_ms
            }
        },
        is_helped(backend, id) ==> {
            &&& step matches AppleStep::Ask(AppleEffect::Helper(h))
            &&& h@ matches RequestModel::Exec { sandbox_id, command, timeout_secs }
            &&& sandbox_id == hyphenated(id.0)
            &&& command == views(request.command@)
            &&& timeout_secs == request.timeout_secs
            &&& reply matches AppleReply::Helped(
                HelperResponse::Exec { exit_code, stdout, stderr, duration_ms },
            ) ==> {
                &&& told matches AppleStep::Done(Ok(o))
                &&& o.exit_code == exit_code
                &&& o.stdout@ == stdout@
                &&& o.stderr@ == stderr@
            }
            &&& (reply matches AppleReply::Helped(r) && !(r is Exec)) ==> (told
                matches AppleStep::Done(Err(_)))
        },
        is_called(backend, id) ==> {
            &&& step matches AppleStep::Ask(AppleEffect::AgentExec(text, asked))
            &&& text@ == hyphenated(id.0)
            &&& asked == request
            &&& reply matches AppleReply::Outcome(outcome) ==> told == AppleStep::<
                ExecOutcome,
            >::Done(Ok(outcome))
        },
{
    if own_container(backend, id) is Some {
        let name = own_container(backend, id)->Some_0;
        assert(exec_args(name, views(request.command@)).skip(4) =~= views(request.command@));
    }
}

/// What is written to a file is read back: the reading goes to where the writing went, to the same
/// file, with the bytes that were handed over, whether the sandbox has a container of its own, is
/// the helper program's, or is reached by the agent. The directory of the file is made first.
pub proof fn written_files_are_read_back(
    backend: AppleVzBackend,
    id: SandboxId,
    payload: FilePayload,
    writing: AppleWrite,
    first: AppleStep<()>,
    made: CommandResult,
    second: AppleWrite,
    then: AppleStep<()>,
    reading: AppleRead,
    asked: AppleStep<FilePayload>,
    reply: AppleReply,
    last: AppleRead,
    told: AppleStep<FilePayload>,
)
    requires
        AppleWrite::begins(backend, id, payload, writing, first),
        made.exit_code == 0,
        writing.follows(AppleReply::Ran(made), second, then),
        AppleRead::begins(backend, id, payload.path@, reading, asked),
        reading.follows(reply, last, told),
        is_known(backend, id),
    ensures
        own_container(backend, id) matches Some(name) ==> (names_below(payload.path@) matches Ok(
            names,
        ) ==> {
            let filling = if names.len() < 2 {
                first
            } else {
                then
            };
            &&& filling matches AppleStep::Ask(AppleEffect::Container(w))
            &&& asked matches AppleStep::Ask(AppleEffect::Container(r))
            &&& read_by(r@, name) is Some
            &&& written_by(w@, name) == Some((read_by(r@, name)->Some_0, payload.bytes@))
            &&& names.len() >= 2 ==> (first matches AppleStep::Ask(AppleEffect::Container(m))
                && m@.args.contains("mkdir"@) && m@.args[3] == name && m@.stdin is None)
            &&& (reply matches AppleReply::Ran(result) && result.exit_code == 0 && result.stdout@
                == payload.bytes@) ==> (told matches AppleStep::Done(Ok(p)) && p.path@
                == payload.path@ && p.bytes@ == payload.bytes@)
            &&& (reply matches AppleReply::Ran(result) && result.exit_code != 0) ==> (told
                matches AppleStep::Done(Err(_)))
        }),
        is_helped(backend, id) ==> {
            &&& first matches AppleStep::Ask(AppleEffect::Helper(w))
            &&& w@ matches RequestModel::Write { sandbox_id: to, path: into, bytes_b64: sent }
            &&& asked matches AppleStep::Ask(AppleEffect::Helper(r))
            &&& r@ matches RequestModel::Read { sandbox_id: from, path: out_of }
            &&& to == hyphenated(id.0) && from == to
            &&& into == payload.path@ && out_of == into
            &&& sent == base64_text(payload.bytes@)
            &&& (reply matches AppleReply::Helped(HelperResponse::Read { bytes_b64 }) && bytes_b64@
                == sent && stands_for(sent, payload.bytes@)) ==> (told matches AppleStep::Done(
                Ok(p),
            ) && p.path@ == payload.path@ && p.bytes@ == payload.bytes@)
        },
        is_called(backend, id) ==> {
            &&& first matches AppleStep::Ask(AppleEffect::AgentWrite(to, sent))
            &&& asked matches AppleStep::Ask(AppleEffect::AgentRead(from, out_of))
            &&& to@ == hyphenated(id.0) && from@ == to@
            &&& sent == payload && out_of@ == payload.path@
            &&& (reply matches AppleReply::Bytes(bytes) && bytes@ == payload.bytes@) ==> (told
                matches AppleStep::Done(Ok(p)) && p.path@ == payload.path@ && p.bytes@
                == payload.bytes@)
        },
{
    if own_container(backend, id) is Some {
        let name = own_container(backend, id)->Some_0;
        if let Ok(names) = names_below(payload.path@) {
            if names.len() >= 2 {
                if let AppleStep::Ask(AppleEffect::Container(m)) = first {
                    assert(m@.args[5] == "mkdir"@);
                }
            }
        }
    }
}

/// A sandbox that was made with a container of its own runs in the container that was started for
/// it, with the workspace that it was given, or one made for it alone where none was; from then on
/// its commands go there. With a helper program the helper is asked for what was configured, and
/// its commands go to the helper. A sandbox whose container does not start is not kept.
pub proof fn made_sandboxes_are_reached(
    before: AppleVzBackend,
    new: NewSandbox,
    placing: AppleReply,
    placed: AppleCreate,
    second: AppleStep<SandboxLease>,
    found: AppleReply,
    starting: AppleCreate,
    third: AppleStep<SandboxLease>,
    ran: AppleReply,
    after: AppleVzBackend,
    last: AppleCreate,
    told: AppleStep<SandboxLease>,
    request: ExecRequest,
    running: AppleExec,
    step: AppleStep<ExecOutcome>,
)
    requires
        placing is Unit,
        AppleCreate::MakingWorkDir(new).follows(placing, before, before, placed, second),
        placed.follows(found, before, before, starting, third),
        starting.follows(ran, before, after, last, told),
        AppleExec::begins(after, new.id, request, running, step),
        !(new.config@.network is Allowlist),
        before.config.launch_command is Some,
        !is_known(before, new.id),
        before.direct_container_bin is Some ==> (match new.config.workspace_dir {
            Some(_) => found matches AppleReply::Canonical(_, true),
            None => found is Unit,
        }) && ran is Ran,
        before.direct_container_bin is None ==> ran is Failed,
    ensures
        before.direct_container_bin is Some ==> {
            let workspace = match found {
                AppleReply::Canonical(path, _) => path@,
                _ => below(
                    below(before.config.work_dir@, hyphenated(new.id.0)),
                    "workspace"@,
                ),
            };
            &&& new.config.workspace_dir matches Some(dir) ==> (second matches AppleStep::Ask(
                AppleEffect::Canonicalize(p),
            ) && p@ == dir@)
            &&& new.config.workspace_dir is None ==> asks_dir(second, workspace)
            &&& third matches AppleStep::Ask(AppleEffect::Container(c))
            &&& c@.args == run_args(
                "hyperbox-"@ + hyphenated(new.id.0),
                workspace,
                open_network_args(new.config@.network),
                new.config@,
            )
            &&& ran->Ran_0.exit_code == 0 ==> {
                &&& told matches AppleStep::Done(Ok(lease))
                &&& lease.id == new.id && lease.info.id == new.id
                &&& lease.info.template@ == new.config.template@
                &&& lease.info.state is Ready
                &&& own_container(after, new.id) == Some("hyperbox-"@ + hyphenated(new.id.0))
                &&& step matches AppleStep::Ask(AppleEffect::Container(e))
                &&& e@.args[3] == "hyperbox-"@ + hyphenated(new.id.0)
                &&& after.sandboxes@[new.id.0].direct_container matches Some(d)
                &&& d.workspace_host@ == workspace
                &&& d.ephemeral_workspace == new.config.workspace_dir is None
            }
            &&& ran->Ran_0.exit_code != 0 ==> (told matches AppleStep::Done(Err(_))) && after
                == before && ends_unfound(step, new.id)
        },
        before.direct_container_bin is None ==> {
            &&& second matches AppleStep::Ask(AppleEffect::Helper(h))
            &&& h@ == new.request(before.config.runtime_kind)
        },
{
}

/// The helper program is asked for a sandbox as it is configured, under its own name.
pub proof fn helpers_are_asked_for_what_is_configured(new: NewSandbox, runtime: AppleRuntimeKind)
    ensures
        (new.request(runtime) matches RequestModel::Create {
            sandbox_id,
            template,
            workspace_dir,
            runtime: word,
            network_mode,
            network_allowlist,
            memory_mb,
            vcpu_count,
        } && {
            &&& sandbox_id == hyphenated(new.id.0)
            &&& template == new.config.template@
            &&& workspace_dir == opt_view(new.config.workspace_dir)
            &&& memory_mb == Some(new.config.memory_mb)
            &&& vcpu_count == Some(new.config.vcpu_count as u32)
            &&& word == (if runtime is Containerization {
                "containerization"@
            } else {
                "virtualization"@
            })
            &&& match new.config@.network {
                NetworkModel::NoNetwork => network_mode == "none"@ && network_allowlist.len() == 0,
                NetworkModel::Full => network_mode == "full"@ && network_allowlist.len() == 0,
                NetworkModel::Allowlist(list) => network_mode == "allowlist"@
                    && network_allowlist.len() == list.len() && forall|i: int|
                    0 <= i < list.len() ==> network_allowlist[i] == pattern(#[trigger] list[i]),
            }
        }),
{
}

proof fn wildcards_come_first(list: Seq<Seq<char>>)
    ensures
        first_wildcard(list) is None <==> forall|i: int|
            0 <= i < list.len() ==> !starts(#[trigger] list[i], "*."@),
    decreases list.len(),
{
    if list.len() > 0 && !starts(list[0], "*."@) {
        let rest = list.subrange(1, list.len() as int);
        wildcards_come_first(rest);
        if first_wildcard(list) is None {
            assert forall|i: int| 0 <= i < list.len() implies !starts(#[trigger] list[i], "*."@) by {
                if i > 0 {
                    assert(rest[i - 1] == list[i]);
                }
            }
        } else {
            let j = choose|j: int| 0 <= j < rest.len() && starts(#[trigger] rest[j], "*."@);
            assert(list[j + 1] == rest[j]);
        }
    } else if list.len() > 0 {
        assert(starts(list[0], "*."@));
    }
}

/// The helper program takes a network for what it was asked as: none for none, all for all, and a
/// list of names for the same names. It refuses a list with a wildcard, and none without. The words
/// for runtimes are the same on both sides.
pub proof fn helpers_understand_their_networks(list: Seq<EntryModel>)
    requires
        valid_list(list),
    ensures
        asked_network(
            network_fields(NetworkModel::NoNetwork).0,
            network_fields(NetworkModel::NoNetwork).1,
        ) == Ok::<HelperNetwork, Seq<char>>(HelperNetwork::NoNetwork),
        asked_network(
            network_fields(NetworkModel::Full).0,
            network_fields(NetworkModel::Full).1,
        ) == Ok::<HelperNetwork, Seq<char>>(HelperNetwork::Full),
        ({
            let fields = network_fields(NetworkModel::Allowlist(list));
            let asked = asked_network(fields.0, fields.1);
            let wild = exists|i: int| 0 <= i < list.len() && (#[trigger] list[i]).wildcard;
            &&& wild <==> asked is Err
            &&& !wild ==> (asked matches Ok(HelperNetwork::Allowlist(names)) && names.len()
                == list.len() && forall|i: int|
                0 <= i < list.len() ==> #[trigger] names[i] == list[i].host)
        }),
        AppleRuntimeKind::Containerization.word() == RuntimeKind::Containerization.word(),
        AppleRuntimeKind::Virtualization.word() == RuntimeKind::Virtualization.word(),
        AppleRuntimeKind::Containerization.word() != AppleRuntimeKind::Virtualization.word(),
{
    reveal_strlit("none");
    reveal_strlit("full");
    reveal_strlit("allowlist");
    reveal_strlit("*.");
    reveal_strlit("containerization");
    reveal_strlit("virtualization");
    assert(lowercase("none"@) =~= "none"@);
    assert(lowercase("full"@) =~= "full"@);
    assert(lowercase("allowlist"@) =~= "allowlist"@);
    assert("none"@[0] == 'n' && "full"@[0] == 'f' && "allowlist"@[0] == 'a');
    assert("containerization"@[0] == 'c' && "virtualization"@[0] == 'v');
    list_patterns_read_back(list);
    let all = patterns(list);
    wildcards_come_first(all);
    assert forall|i: int| 0 <= i < list.len() implies starts(#[trigger] all[i], "*."@)
        == list[i].wildcard by {
        let e = list[i];
        assert(valid_entry(e));
        if e.wildcard {
            assert(all[i].subrange(0, 2) =~= "*."@);
        } else if starts(all[i], "*."@) {
            assert(all[i].subrange(0, 2)[0] == '*');
            assert(e.host[0] == '*');
        }
    }
    if exists|i: int| 0 <= i < list.len() && (#[trigger] list[i]).wildcard {
        let i = choose|i: int| 0 <= i < list.len() && (#[trigger] list[i]).wildcard;
        assert(starts(all[i], "*."@));
    } else {
        assert forall|i: int| 0 <= i < all.len() implies !starts(#[trigger] all[i], "*."@) by {
            assert(!list[i].wildcard);
        }
    }
}

/// A sandbox that ends is forgotten and its container removed by its name, with a workspace that
/// was made for it; one that was given is left alone. That the container was gone already is no
/// failure, and any other complaint of the container tool is.
pub proof fn ended_sandboxes_are_removed(
    backend: AppleVzBackend,
    id: SandboxId,
    state: AppleDestroy,
    step: AppleStep<()>,
    result: CommandResult,
    next: AppleDestroy,
    then: AppleStep<()>,
)
    requires
        AppleDestroy::begins(backend, id, state, step),
        state.follows(AppleReply::Ran(result), next, then),
    ensures
        !is_known(backend, id) ==> ends_unfound(step, id),
        own_container(backend, id) matches Some(name) ==> {
            let direct = backend.sandboxes@[id.0].direct_container->Some_0;
            let gone = result.exit_code == 0 || has_text(
                lowercase(utf8_lossy(result.stderr@)),
                "not found"@,
            );
            &&& step matches AppleStep::Ask(AppleEffect::Container(c))
            &&& c@.args[0] == "delete"@ && c@.args.last() == name
            &&& !gone ==> (then matches AppleStep::Done(Err(_)))
            &&& gone && direct.ephemeral_workspace ==> (then matches AppleStep::Ask(
                AppleEffect::RemoveDirAll(p),
            ) && p@ == direct.workspace_host@)
            &&& gone && !direct.ephemeral_workspace ==> then == AppleStep::<()>::Done(Ok(()))
        },
        is_helped(backend, id) ==> (step matches AppleStep::Ask(AppleEffect::Helper(h)) && h@
            == (RequestModel::Destroy { sandbox_id: hyphenated(id.0) })),
{
}

} // verus!
