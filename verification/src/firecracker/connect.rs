//! The way to the agent, and commands and files by way of it.

use crate::error::{execution_failed, invalid_config, HyperboxError};
use crate::firecracker::backend::{
    fc_config, fc_ends, fc_unfound, FcEffect, FcReply, FcStep, FirecrackerBackend,
};
use crate::ids::hyphenated;
use crate::model::{ExecOutcome, ExecRequest, FilePayload, SandboxId};
use crate::text::{cat2, cat3, cat4, cat5, starts, strip_prefix, without_prefix};
use vstd::prelude::*;

verus! {

/// How often the agent is tried after it was started.
pub const CONNECT_TRIES: u8 = 20;

/// How long to wait before each of these tries, in milliseconds.
pub const CONNECT_PAUSE_MS: u64 = 100;

/// The host and port of an endpoint.
pub open spec fn endpoint_address(endpoint: Seq<char>) -> Seq<char> {
    if starts(endpoint, "http://"@) {
        without_prefix(endpoint, "http://"@)
    } else if starts(endpoint, "https://"@) {
        without_prefix(endpoint, "https://"@)
    } else {
        endpoint
    }
}

pub fn agent_address(endpoint: &str) -> (r: String)
    ensures
        r@ == endpoint_address(endpoint@),
{
    match strip_prefix(endpoint, "http://") {
        Some(rest) => rest,
        None => match strip_prefix(endpoint, "https://") {
            Some(rest) => rest,
            None => endpoint.to_owned(),
        },
    }
}

/// What an endpoint without a host and port is refused with.
pub open spec fn endpoint_complaint(endpoint: Seq<char>, e: Seq<char>) -> Seq<char> {
    "invalid HYPERBOX_AGENT_ENDPOINT `"@ + endpoint + "`: expected host:port ("@ + e + ")"@
}

pub fn refuse_endpoint(endpoint: &str, e: &str) -> (r: HyperboxError)
    ensures
        r matches HyperboxError::InvalidConfig(s) && s@ == endpoint_complaint(endpoint@, e@),
{
    HyperboxError::InvalidConfig(
        cat5("invalid HYPERBOX_AGENT_ENDPOINT `", endpoint, "`: expected host:port (", e, ")"),
    )
}

/// What is asked for on the way to the agent.
#[derive(Debug, PartialEq, Eq)]
pub enum ConnectEffect {
    /// Try the endpoint.
    Connect(String),
    /// Read a host and port.
    ReadAddress(String),
    /// Start the agent of this program at this address, with this directory.
    StartAgent(String, String),
    Pause(u64),
}

/// What came of it.
#[derive(Debug)]
pub enum ConnectReply {
    Connected,
    Failed(String),
    Unit,
}

#[derive(Debug)]
pub enum ConnectStep {
    Ask(ConnectEffect),
    Done(Result<(), HyperboxError>),
    Stray,
}

pub open spec fn tries(step: ConnectStep, endpoint: Seq<char>) -> bool {
    step matches ConnectStep::Ask(ConnectEffect::Connect(e)) && e@ == endpoint
}

pub open spec fn pauses(step: ConnectStep) -> bool {
    step == ConnectStep::Ask(ConnectEffect::Pause(CONNECT_PAUSE_MS))
}

/// The way to the agent.
#[derive(Debug)]
pub enum ConnectAgent {
    Trying,
    ReadingAddress(String),
    Starting(String),
    /// So many tries are left, this one counted; the text is the last failure.
    Pausing(u8, String),
    Retrying(u8, String),
    Over,
}

impl ConnectAgent {
    pub fn begin(backend: &FirecrackerBackend) -> (r: (Self, ConnectStep))
        ensures
            r.0 is Trying,
            tries(r.1, backend.config.agent_endpoint@),
    {
        (
            ConnectAgent::Trying,
            ConnectStep::Ask(ConnectEffect::Connect(backend.config.agent_endpoint.clone())),
        )
    }

    /// What a reply leads to. The agent is started at most once, and only if that is allowed;
    /// then it is tried a fixed number of times, and after the last failure it counts as not
    /// started.
    pub open spec fn follows(
        self,
        reply: ConnectReply,
        before: FirecrackerBackend,
        after: FirecrackerBackend,
        next: Self,
        step: ConnectStep,
    ) -> bool {
        let endpoint = before.config.agent_endpoint@;
        &&& after.config == before.config
        &&& after.sandboxes == before.sandboxes
        &&& match (self, reply) {
            (ConnectAgent::Over, _) => next is Over && step is Stray && after == before,
            (ConnectAgent::Trying, ConnectReply::Connected) => next is Over && step
                == ConnectStep::Done(Ok(())) && after == before,
            (ConnectAgent::Trying, ConnectReply::Failed(e)) => after == before
                && if before.config.auto_start_agent {
                next == ConnectAgent::ReadingAddress(e) && (step matches ConnectStep::Ask(
                    ConnectEffect::ReadAddress(a),
                ) && a@ == endpoint_address(endpoint))
            } else {
                next is Over && (step matches ConnectStep::Done(r) && execution_failed(
                    r,
                    "connect agent: endpoint "@ + endpoint
                        + " is unavailable and auto-start is disabled"@,
                ))
            },
            (ConnectAgent::ReadingAddress(last), ConnectReply::Unit) => after.agent_started
                && if before.agent_started {
                next == ConnectAgent::Pausing(CONNECT_TRIES, last) && pauses(step)
            } else {
                next == ConnectAgent::Starting(last) && (step matches ConnectStep::Ask(
                    ConnectEffect::StartAgent(a, root),
                ) && a@ == endpoint_address(endpoint) && root == before.config.agent_root)
            },
            (ConnectAgent::ReadingAddress(_), ConnectReply::Failed(e)) => after == before
                && next is Over && (step matches ConnectStep::Done(r) && invalid_config(
                r,
                endpoint_complaint(endpoint, e@),
            )),
            (ConnectAgent::Starting(last), ConnectReply::Unit) => after == before && next
                == ConnectAgent::Pausing(CONNECT_TRIES, last) && pauses(step),
            (ConnectAgent::Pausing(left, last), ConnectReply::Unit) => after == before && next
                == ConnectAgent::Retrying(left, last) && tries(step, endpoint),
            (ConnectAgent::Retrying(_, _), ConnectReply::Connected) => after == before
                && next is Over && step == ConnectStep::Done(Ok(())),
            (ConnectAgent::Retrying(left, _), ConnectReply::Failed(e)) => if left > 1 {
                after == before && next == ConnectAgent::Pausing((left - 1) as u8, e) && pauses(
                    step,
                )
            } else {
                &&& !after.agent_started
                &&& next is Over
                &&& step matches ConnectStep::Done(r)
                &&& execution_failed(
                    r,
                    "connect agent at "@ + endpoint + " after auto-start: "@ + e@,
                )
            },
            _ => after == before && next == self && step is Stray,
        }
    }

    pub fn resume(self, reply: ConnectReply, backend: &mut FirecrackerBackend) -> (r: (
        Self,
        ConnectStep,
    ))
        ensures
            self.follows(reply, *old(backend), *final(backend), r.0, r.1),
    {
        match (self, reply) {
            (ConnectAgent::Over, _) => (ConnectAgent::Over, ConnectStep::Stray),
            (ConnectAgent::Trying, ConnectReply::Connected) => (
                ConnectAgent::Over,
                ConnectStep::Done(Ok(())),
            ),
            (ConnectAgent::Trying, ConnectReply::Failed(e)) => {
                if backend.config.auto_start_agent {
                    let address = agent_address(backend.config.agent_endpoint.as_str());
                    (
                        ConnectAgent::ReadingAddress(e),
                        ConnectStep::Ask(ConnectEffect::ReadAddress(address)),
                    )
                } else {
                    let text = cat3(
                        "connect agent: endpoint ",
                        backend.config.agent_endpoint.as_str(),
                        " is unavailable and auto-start is disabled",
                    );
                    (
                        ConnectAgent::Over,
                        ConnectStep::Done(Err(HyperboxError::ExecutionFailed(text))),
                    )
                }
            },
            (ConnectAgent::ReadingAddress(last), ConnectReply::Unit) => {
                if backend.agent_started {
                    return (
                        ConnectAgent::Pausing(CONNECT_TRIES, last),
                        ConnectStep::Ask(ConnectEffect::Pause(CONNECT_PAUSE_MS)),
                    );
                }
                backend.agent_started = true;
                let address = agent_address(backend.config.agent_endpoint.as_str());
                let root = backend.config.agent_root.clone();
                (
                    ConnectAgent::Starting(last),
                    ConnectStep::Ask(ConnectEffect::StartAgent(address, root)),
                )
            },
            (ConnectAgent::ReadingAddress(_), ConnectReply::Failed(e)) => (
                ConnectAgent::Over,
                ConnectStep::Done(
                    Err(refuse_endpoint(backend.config.agent_endpoint.as_str(), e.as_str())),
                ),
            ),
            (ConnectAgent::Starting(last), ConnectReply::Unit) => (
                ConnectAgent::Pausing(CONNECT_TRIES, last),
                ConnectStep::Ask(ConnectEffect::Pause(CONNECT_PAUSE_MS)),
            ),
            (ConnectAgent::Pausing(left, last), ConnectReply::Unit) => (
                ConnectAgent::Retrying(left, last),
                ConnectStep::Ask(ConnectEffect::Connect(backend.config.agent_endpoint.clone())),
            ),
            (ConnectAgent::Retrying(_, _), ConnectReply::Connected) => (
                ConnectAgent::Over,
                ConnectStep::Done(Ok(())),
            ),
            (ConnectAgent::Retrying(left, _), ConnectReply::Failed(e)) => {
                if left > 1 {
                    (
                        ConnectAgent::Pausing(left - 1, e),
                        ConnectStep::Ask(ConnectEffect::Pause(CONNECT_PAUSE_MS)),
                    )
                } else {
                    backend.agent_started = false;
                    let text = cat4(
                        "connect agent at ",
                        backend.config.agent_endpoint.as_str(),
                        " after auto-start: ",
                        e.as_str(),
                    );
                    (
                        ConnectAgent::Over,
                        ConnectStep::Done(Err(HyperboxError::ExecutionFailed(text))),
                    )
                }
            },
            (state, _) => (state, ConnectStep::Stray),
        }
    }

    /// How many replies a way to the agent can still take.
    pub open spec fn left(self) -> nat {
        match self {
            ConnectAgent::Trying => 4 + 2 * CONNECT_TRIES as nat,
            ConnectAgent::ReadingAddress(_) => 3 + 2 * CONNECT_TRIES as nat,
            ConnectAgent::Starting(_) => 2 + 2 * CONNECT_TRIES as nat,
            ConnectAgent::Pausing(n, _) => if n == 0 {
                3
            } else {
                1 + 2 * n as nat
            },
            ConnectAgent::Retrying(n, _) => if n == 0 {
                2
            } else {
                2 * n as nat
            },
            ConnectAgent::Over => 0,
        }
    }
}

/// The way to the agent ends: each reply that is taken brings its end nearer.
pub proof fn connecting_ends(
    state: ConnectAgent,
    reply: ConnectReply,
    before: FirecrackerBackend,
    after: FirecrackerBackend,
    next: ConnectAgent,
    step: ConnectStep,
)
    requires
        state.follows(reply, before, after, next, step),
        !(step is Stray),
    ensures
        next.left() < state.left(),
{
}

/// A command or a file by way of the agent.
#[derive(Debug)]
pub enum AgentWork {
    Exec(ExecRequest),
    Read(String),
    Write(FilePayload),
}

/// What it comes to.
#[derive(Debug)]
pub enum AgentResult {
    Outcome(ExecOutcome),
    Payload(FilePayload),
    Written,
}

/// A call of the agent: the way to it, then the call.
#[derive(Debug)]
pub enum AgentCall {
    Connecting(SandboxId, AgentWork),
    Executing,
    Reading(String),
    Writing,
    Over,
}

impl AgentCall {
    pub fn begin(backend: &FirecrackerBackend, id: SandboxId, work: AgentWork) -> (r: (
        Self,
        FcStep<AgentResult>,
    ))
        ensures
            if work matches AgentWork::Exec(request) && request.command@.len() == 0 {
                r.0 is Over && fc_config(r.1, "command cannot be empty"@)
            } else if !backend.sandboxes@.contains_key(id.0) {
                r.0 is Over && fc_unfound(r.1, id)
            } else {
                r.0 == AgentCall::Connecting(id, work) && r.1 == FcStep::<AgentResult>::Ask(
                    FcEffect::Connect,
                )
            },
    {
        if let AgentWork::Exec(request) = &work {
            if request.command.len() == 0 {
                return (
                    AgentCall::Over,
                    FcStep::Done(
                        Err(HyperboxError::InvalidConfig("command cannot be empty".to_owned())),
                    ),
                );
            }
        }
        if !backend.sandboxes.contains(&id.0) {
            return (
                AgentCall::Over,
                FcStep::Done(Err(HyperboxError::SandboxNotFound(id.text()))),
            );
        }
        (AgentCall::Connecting(id, work), FcStep::Ask(FcEffect::Connect))
    }

    /// What a reply leads to.
    pub open spec fn follows(self, reply: FcReply, next: Self, step: FcStep<AgentResult>) -> bool {
        match (self, reply) {
            (AgentCall::Over, _) => next is Over && step is Stray,
            (AgentCall::Connecting(id, AgentWork::Exec(request)), FcReply::Unit) => next
                is Executing && (step matches FcStep::Ask(FcEffect::AgentExec(text, asked)) && text@
                == hyphenated(id.0) && asked == request),
            (AgentCall::Connecting(id, AgentWork::Read(path)), FcReply::Unit) => (next
                matches AgentCall::Reading(p) && p@ == path@) && (step matches FcStep::Ask(
                FcEffect::AgentRead(text, asked),
            ) && text@ == hyphenated(id.0) && asked == path),
            (AgentCall::Connecting(id, AgentWork::Write(payload)), FcReply::Unit) => next is Writing
                && (step matches FcStep::Ask(FcEffect::AgentWrite(text, asked)) && text@
                == hyphenated(id.0) && asked == payload),
            (AgentCall::Executing, FcReply::Outcome(o)) => next is Over && step == FcStep::Done(
                Ok(AgentResult::Outcome(o)),
            ),
            (AgentCall::Executing, FcReply::Refused(e)) => next is Over && fc_ends(
                step,
                "exec via agent: "@ + e@,
            ),
            (AgentCall::Reading(path), FcReply::Bytes(bytes)) => next is Over && step
                == FcStep::Done(Ok(AgentResult::Payload(FilePayload { path, bytes }))),
            (AgentCall::Reading(_), FcReply::Refused(e)) => next is Over && fc_ends(
                step,
                "read file via agent: "@ + e@,
            ),
            (AgentCall::Writing, FcReply::Unit) => next is Over && step == FcStep::Done(
                Ok(AgentResult::Written),
            ),
            (AgentCall::Writing, FcReply::Refused(e)) => next is Over && fc_ends(
                step,
                "write file via agent: "@ + e@,
            ),
            (_, FcReply::Failed(e)) => next is Over && step == FcStep::<AgentResult>::Done(Err(e)),
            _ => next == self && step is Stray,
        }
    }

    fn fail(text: String) -> (r: (Self, FcStep<AgentResult>))
        ensures
            r.0 is Over,
            fc_ends(r.1, text@),
    {
        (AgentCall::Over, FcStep::Done(Err(HyperboxError::ExecutionFailed(text))))
    }

    pub fn resume(self, reply: FcReply) -> (r: (Self, FcStep<AgentResult>))
        ensures
            self.follows(reply, r.0, r.1),
    {
        match (self, reply) {
            (AgentCall::Over, _) => (AgentCall::Over, FcStep::Stray),
            (AgentCall::Connecting(id, AgentWork::Exec(request)), FcReply::Unit) => (
                AgentCall::Executing,
                FcStep::Ask(FcEffect::AgentExec(id.text(), request)),
            ),
            (AgentCall::Connecting(id, AgentWork::Read(path)), FcReply::Unit) => {
                let kept = path.clone();
                (AgentCall::Reading(kept), FcStep::Ask(FcEffect::AgentRead(id.text(), path)))
            },
            (AgentCall::Connecting(id, AgentWork::Write(payload)), FcReply::Unit) => (
                AgentCall::Writing,
                FcStep::Ask(FcEffect::AgentWrite(id.text(), payload)),
            ),
            (AgentCall::Executing, FcReply::Outcome(o)) => (
                AgentCall::Over,
                FcStep::Done(Ok(AgentResult::Outcome(o))),
            ),
            (AgentCall::Executing, FcReply::Refused(e)) => Self::fail(
                cat2("exec via agent: ", e.as_str()),
            ),
            (AgentCall::Reading(path), FcReply::Bytes(bytes)) => (
                AgentCall::Over,
                FcStep::Done(Ok(AgentResult::Payload(FilePayload { path, bytes }))),
            ),
            (AgentCall::Reading(_), FcReply::Refused(e)) => Self::fail(
                cat2("read file via agent: ", e.as_str()),
            ),
            (AgentCall::Writing, FcReply::Unit) => (
                AgentCall::Over,
                FcStep::Done(Ok(AgentResult::Written)),
            ),
            (AgentCall::Writing, FcReply::Refused(e)) => Self::fail(
                cat2("write file via agent: ", e.as_str()),
            ),
            (_, FcReply::Failed(e)) => (AgentCall::Over, FcStep::Done(Err(e))),
            (state, _) => (state, FcStep::Stray),
        }
    }
}

/// An agent that may not be started is never started: the way to it ends with the first try
/// that fails.
pub proof fn disabled_agents_are_not_started(
    state: ConnectAgent,
    reply: ConnectReply,
    before: FirecrackerBackend,
    after: FirecrackerBackend,
    next: ConnectAgent,
    step: ConnectStep,
)
    requires
        !before.config.auto_start_agent,
        state is Trying || state is Over,
        state.follows(reply, before, after, next, step),
    ensures
        next is Trying || next is Over,
        !(step is Ask),
        after == before,
        state is Trying && reply is Failed ==> (step matches ConnectStep::Done(r) && r is Err),
{
}

/// Work for the agent is handed on once the agent is reached, for the sandbox that it is meant for
/// and as it is: a command as it was asked for, a file to write with its bytes, a file to read by
/// its path. What the agent answers is what is told.
pub proof fn agents_are_handed_the_work(
    id: SandboxId,
    work: AgentWork,
    state: AgentCall,
    step: FcStep<AgentResult>,
    reply: FcReply,
    last: AgentCall,
    told: FcStep<AgentResult>,
)
    requires
        AgentCall::Connecting(id, work).follows(FcReply::Unit, state, step),
        state.follows(reply, last, told),
    ensures
        match work {
            AgentWork::Exec(request) => {
                &&& step matches FcStep::Ask(FcEffect::AgentExec(to, asked))
                &&& to@ == hyphenated(id.0) && asked == request
                &&& reply matches FcReply::Outcome(o) ==> told == FcStep::Done(
                    Ok::<AgentResult, HyperboxError>(AgentResult::Outcome(o)),
                )
            },
            AgentWork::Read(path) => {
                &&& step matches FcStep::Ask(FcEffect::AgentRead(to, asked))
                &&& to@ == hyphenated(id.0) && asked@ == path@
                &&& reply matches FcReply::Bytes(bytes) ==> (told matches FcStep::Done(
                    Ok(AgentResult::Payload(p)),
                ) && p.path@ == path@ && p.bytes@ == bytes@)
            },
            AgentWork::Write(payload) => {
                &&& step matches FcStep::Ask(FcEffect::AgentWrite(to, asked))
                &&& to@ == hyphenated(id.0) && asked.path@ == payload.path@ && asked.bytes@
                    == payload.bytes@
                &&& reply is Unit ==> told == FcStep::Done(
                    Ok::<AgentResult, HyperboxError>(AgentResult::Written),
                )
            },
        },
        reply is Refused ==> (told matches FcStep::Done(Err(_))),
{
}

/// The agent counts as reached if and only if a try has reached it, and every try goes to its
/// endpoint. It is started at the address that its endpoint names, and only while it is not.
pub proof fn agents_are_reached_by_a_try(
    state: ConnectAgent,
    reply: ConnectReply,
    before: FirecrackerBackend,
    after: FirecrackerBackend,
    next: ConnectAgent,
    step: ConnectStep,
    address: Seq<char>,
)
    requires
        state.follows(reply, before, after, next, step),
    ensures
        step == ConnectStep::Done(Ok(())) <==> reply is Connected && (state is Trying || state
            is Retrying),
        step matches ConnectStep::Ask(ConnectEffect::Connect(e)) ==> e@
            == before.config.agent_endpoint@,
        step matches ConnectStep::Ask(ConnectEffect::StartAgent(a, root)) ==> {
            &&& !before.agent_started && after.agent_started
            &&& root == before.config.agent_root
            &&& before.config.agent_endpoint@ == "http://"@ + address ==> a@ == address
            &&& before.config.agent_endpoint@ == "https://"@ + address ==> a@ == address
        },
        state is Trying && reply is Failed ==> (step is Done <==> !before.config.auto_start_agent),
        (state matches ConnectAgent::Retrying(left, _) && left > 1 && reply is Failed) ==> next
            is Pausing,
{
    reveal_strlit("http://");
    reveal_strlit("https://");
    let h = "http://"@ + address;
    let s = "https://"@ + address;
    assert(h.subrange(0, 7) =~= "http://"@);
    assert(s.subrange(0, 8) =~= "https://"@);
    assert(s[4] == 's');
    assert(starts(s, "http://"@) ==> s.subrange(0, 7)[4] == ':');
    assert(without_prefix(h, "http://"@) =~= address);
    assert(without_prefix(s, "https://"@) =~= address);
}

} // verus!
