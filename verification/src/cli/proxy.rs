//! A sandbox behind lines of requests and answers.

use crate::cli::fault::Fault;
use crate::codec::{lossy_text, utf8_lossy};
use crate::config::{patterns, NetworkMode, NetworkModel, SandboxConfig};
use crate::ids::hyphenated;
use crate::model::{SandboxId, SandboxInfo};
use crate::text::{
    cat2, cat3, cat4, chars_of, clone_opt, join, joined, opt_view, trim, trimmed, views,
};
use vstd::prelude::*;

verus! {

#[derive(Debug, Clone, PartialEq, Eq)]
pub enum ProxyRequest {
    Exec { cmd: String, timeout: Option<u64> },
    Read { path: String },
    Write { path: String, content: String },
    Destroy,
    Ping,
}

#[derive(Debug, Clone, PartialEq, Eq)]
pub enum ProxyResponse {
    Exec { exit_code: i32, duration_ms: u128, stdout: String, stderr: String },
    Read { path: String, content: String },
    Write,
    Destroy,
    Pong,
    Error { message: String },
}

/// What the proxy asks for.
#[derive(Debug)]
pub enum ProxyEffect {
    CreateSandbox(SandboxConfig),
    /// Say these lines on the error output.
    Announce(Vec<String>),
    /// Wait for a line of input.
    NextLine,
    /// Read a line as a request.
    Parse(String),
    RunSync(SandboxId, String, u64),
    ReadFile(SandboxId, String),
    WriteFile(SandboxId, String, Vec<u8>),
    DestroySandbox(SandboxId),
    Answer(ProxyResponse),
}

/// What came of it.
#[derive(Debug)]
pub enum ProxyReply {
    Sandbox(SandboxInfo),
    Unit,
    Line(String),
    End,
    Request(ProxyRequest),
    /// The line is no request.
    Malformed(String),
    Ran { exit_code: i32, duration_ms: u128, stdout: String, stderr: String },
    Bytes(Vec<u8>),
    Failed(Fault),
}

#[derive(Debug)]
pub enum ProxyStep {
    Ask(ProxyEffect),
    Done(Result<(), Fault>),
    Stray,
}

/// A network in the words of the proxy.
pub open spec fn network_label(network: NetworkModel) -> Seq<char> {
    match network {
        NetworkModel::NoNetwork => "none"@,
        NetworkModel::Full => "full"@,
        NetworkModel::Allowlist(list) => if list.len() == 0 {
            "allowlist"@
        } else {
            "allowlist("@ + joined(patterns(list), ","@) + ")"@
        },
    }
}

pub fn label_network(network: &NetworkMode) -> (r: String)
    ensures
        r@ == network_label(network@),
{
    match network {
        NetworkMode::NoNetwork => "none".to_owned(),
        NetworkMode::Full => "full".to_owned(),
        NetworkMode::Allowlist(list) => {
            if list.is_empty() {
                "allowlist".to_owned()
            } else {
                cat3("allowlist(", join(&list.to_strings(), ",").as_str(), ")")
            }
        },
    }
}

/// What is said of the sandbox of a proxy.
#[derive(Debug, PartialEq, Eq)]
pub struct ProxyLabels {
    pub template: String,
    pub network: String,
    pub workspace: Option<String>,
}

/// The lines that a proxy starts with.
pub open spec fn proxy_lines(id: SandboxId, labels: ProxyLabels) -> Seq<Seq<char>> {
    seq![
        "proxy: started sandbox "@ + hyphenated(id.0) + " (template="@ + labels.template@
            + ", network="@ + labels.network@ + ", workspace="@ + (match labels.workspace {
            Some(w) => w@,
            None => "<ephemeral sandbox workspace>"@,
        }) + ")"@,
        "proxy: reading JSON lines from stdin and writing JSON lines to stdout"@,
        "proxy: request ops = ping | exec | read | write | destroy (destroy exits proxy)"@,
    ]
}

fn announce(id: SandboxId, labels: &ProxyLabels) -> (r: Vec<String>)
    ensures
        views(r@) == proxy_lines(id, *labels),
{
    let workspace = match &labels.workspace {
        Some(w) => w.as_str(),
        None => "<ephemeral sandbox workspace>",
    };
    let head = cat4(
        "proxy: started sandbox ",
        id.text().as_str(),
        " (template=",
        labels.template.as_str(),
    );
    let middle = cat4(head.as_str(), ", network=", labels.network.as_str(), ", workspace=");
    let mut out: Vec<String> = Vec::new();
    out.push(cat3(middle.as_str(), workspace, ")"));
    out.push("proxy: reading JSON lines from stdin and writing JSON lines to stdout".to_owned());
    out.push(
        "proxy: request ops = ping | exec | read | write | destroy (destroy exits proxy)".to_owned(),
    );
    assert(views(out@) =~= proxy_lines(id, *labels));
    out
}

/// The proxy on its way.
#[derive(Debug)]
pub enum Proxy {
    Creating(ProxyLabels),
    Announcing(SandboxId),
    Listening(SandboxId),
    Parsing(SandboxId),
    Executing(SandboxId),
    Reading(SandboxId, String),
    Writing(SandboxId),
    Destroying,
    Answering(SandboxId),
    /// The last answer.
    Leaving,
    /// The input is over; the sandbox goes.
    CleaningUp,
    Over,
}

pub open spec fn answers(step: ProxyStep, response: ProxyResponse) -> bool {
    step == ProxyStep::Ask(ProxyEffect::Answer(response))
}

pub open spec fn answers_fault(step: ProxyStep, f: Fault) -> bool {
    answers(step, ProxyResponse::Error { message: f.message })
}

impl Proxy {
    pub fn begin(config: SandboxConfig) -> (r: (Self, ProxyStep))
        ensures
            r.0 matches Proxy::Creating(labels) && labels.template@ == config.template@
                && labels.network@ == network_label(config@.network) && opt_view(labels.workspace)
                == opt_view(config.workspace_dir),
            r.1 == ProxyStep::Ask(ProxyEffect::CreateSandbox(config)),
    {
        let labels = ProxyLabels {
            template: config.template.clone(),
            network: label_network(&config.network),
            workspace: clone_opt(&config.workspace_dir),
        };
        (Proxy::Creating(labels), ProxyStep::Ask(ProxyEffect::CreateSandbox(config)))
    }

    /// What a request leads to.
    pub open spec fn takes_up(id: SandboxId, request: ProxyRequest, next: Self, step: ProxyStep)
     -> bool {
        match request {
            ProxyRequest::Exec { cmd, timeout } => next == Proxy::Executing(id) && step
                == ProxyStep::Ask(
                ProxyEffect::RunSync(
                    id,
                    cmd,
                    match timeout {
                        Some(t) => t,
                        None => 60,
                    },
                ),
            ),
            ProxyRequest::Read { path } => (next matches Proxy::Reading(i, p) && i == id && p
                == path) && (step matches ProxyStep::Ask(ProxyEffect::ReadFile(i, p)) && i == id
                && p@ == path@),
            ProxyRequest::Write { path, content } => next == Proxy::Writing(id) && (step
                matches ProxyStep::Ask(ProxyEffect::WriteFile(i, p, bytes)) && i == id && p == path
                && bytes@ == vstd::utf8::encode_utf8(content@)),
            ProxyRequest::Destroy => next is Destroying && step == ProxyStep::Ask(
                ProxyEffect::DestroySandbox(id),
            ),
            ProxyRequest::Ping => next == Proxy::Answering(id) && answers(step, ProxyResponse::Pong),
        }
    }

    /// What a reply leads to. Each request gets one answer; a failure is an answer, too. After
    /// the sandbox was taken away on request there is no further one.
    pub open spec fn follows(self, reply: ProxyReply, next: Self, step: ProxyStep) -> bool {
        match (self, reply) {
            (Proxy::Over, _) => next is Over && step is Stray,
            (Proxy::Creating(labels), ProxyReply::Sandbox(info)) => next == Proxy::Announcing(
                info.id,
            ) && (step matches ProxyStep::Ask(ProxyEffect::Announce(lines)) && views(lines@)
                == proxy_lines(info.id, labels)),
            (Proxy::Announcing(id), ProxyReply::Unit) => next == Proxy::Listening(id) && step
                == ProxyStep::Ask(ProxyEffect::NextLine),
            (Proxy::Listening(id), ProxyReply::Line(line)) => if trimmed(line@).len() == 0 {
                next == Proxy::Listening(id) && step == ProxyStep::Ask(ProxyEffect::NextLine)
            } else {
                next == Proxy::Parsing(id) && step == ProxyStep::Ask(ProxyEffect::Parse(line))
            },
            (Proxy::Listening(id), ProxyReply::End) => next is CleaningUp && step == ProxyStep::Ask(
                ProxyEffect::DestroySandbox(id),
            ),
            (Proxy::Parsing(id), ProxyReply::Request(request)) => Self::takes_up(
                id,
                request,
                next,
                step,
            ),
            (Proxy::Parsing(id), ProxyReply::Malformed(e)) => next == Proxy::Answering(id) && (step
                matches ProxyStep::Ask(ProxyEffect::Answer(ProxyResponse::Error { message }))
                && message@ == "invalid request: "@ + e@),
            (
                Proxy::Executing(id),
                ProxyReply::Ran { exit_code, duration_ms, stdout, stderr },
            ) => next == Proxy::Answering(id) && answers(
                step,
                ProxyResponse::Exec { exit_code, duration_ms, stdout, stderr },
            ),
            (Proxy::Executing(id), ProxyReply::Failed(f)) => next == Proxy::Answering(id)
                && answers_fault(step, f),
            (Proxy::Reading(id, path), ProxyReply::Bytes(bytes)) => next == Proxy::Answering(id) && (
            step matches ProxyStep::Ask(ProxyEffect::Answer(ProxyResponse::Read { path: p, content }))
                && p == path && content@ == utf8_lossy(bytes@)),
            (Proxy::Reading(id, _), ProxyReply::Failed(f)) => next == Proxy::Answering(id)
                && answers_fault(step, f),
            (Proxy::Writing(id), ProxyReply::Unit) => next == Proxy::Answering(id) && answers(
                step,
                ProxyResponse::Write,
            ),
            (Proxy::Writing(id), ProxyReply::Failed(f)) => next == Proxy::Answering(id)
                && answers_fault(step, f),
            (Proxy::Destroying, ProxyReply::Unit) => next is Leaving && answers(
                step,
                ProxyResponse::Destroy,
            ),
            (Proxy::Destroying, ProxyReply::Failed(f)) => next is Leaving && answers_fault(step, f),
            (Proxy::Answering(id), ProxyReply::Unit) => next == Proxy::Listening(id) && step
                == ProxyStep::Ask(ProxyEffect::NextLine),
            (Proxy::Leaving, ProxyReply::Unit) => next is Over && step == ProxyStep::Done(Ok(())),
            (Proxy::CleaningUp, ProxyReply::Unit) | (Proxy::CleaningUp, ProxyReply::Failed(_)) => next
                is Over && step == ProxyStep::Done(Ok(())),
            (_, ProxyReply::Failed(f)) => next is Over && step == ProxyStep::Done(Err(f)),
            _ => next == self && step is Stray,
        }
    }

    fn answer(id: SandboxId, response: ProxyResponse) -> (r: (Self, ProxyStep))
        ensures
            r.0 == Proxy::Answering(id),
            answers(r.1, response),
    {
        (Proxy::Answering(id), ProxyStep::Ask(ProxyEffect::Answer(response)))
    }

    fn take_up(id: SandboxId, request: ProxyRequest) -> (r: (Self, ProxyStep))
        ensures
            Self::takes_up(id, request, r.0, r.1),
    {
        match request {
            ProxyRequest::Exec { cmd, timeout } => {
                let secs: u64 = match timeout {
                    Some(t) => t,
                    None => 60,
                };
                (Proxy::Executing(id), ProxyStep::Ask(ProxyEffect::RunSync(id, cmd, secs)))
            },
            ProxyRequest::Read { path } => {
                let asked = path.clone();
                (Proxy::Reading(id, path), ProxyStep::Ask(ProxyEffect::ReadFile(id, asked)))
            },
            ProxyRequest::Write { path, content } => {
                let bytes = vstd::slice::slice_to_vec(content.as_str().as_bytes());
                (Proxy::Writing(id), ProxyStep::Ask(ProxyEffect::WriteFile(id, path, bytes)))
            },
            ProxyRequest::Destroy => (
                Proxy::Destroying,
                ProxyStep::Ask(ProxyEffect::DestroySandbox(id)),
            ),
            ProxyRequest::Ping => Self::answer(id, ProxyResponse::Pong),
        }
    }

    pub fn resume(self, reply: ProxyReply) -> (r: (Self, ProxyStep))
        ensures
            self.follows(reply, r.0, r.1),
    {
        match (self, reply) {
            (Proxy::Over, _) => (Proxy::Over, ProxyStep::Stray),
            (Proxy::Creating(labels), ProxyReply::Sandbox(info)) => {
                let lines = announce(info.id, &labels);
                (Proxy::Announcing(info.id), ProxyStep::Ask(ProxyEffect::Announce(lines)))
            },
            (Proxy::Announcing(id), ProxyReply::Unit) => (
                Proxy::Listening(id),
                ProxyStep::Ask(ProxyEffect::NextLine),
            ),
            (Proxy::Listening(id), ProxyReply::Line(line)) => {
                if chars_of(trim(line.as_str()).as_str()).len() == 0 {
                    (Proxy::Listening(id), ProxyStep::Ask(ProxyEffect::NextLine))
                } else {
                    (Proxy::Parsing(id), ProxyStep::Ask(ProxyEffect::Parse(line)))
                }
            },
            (Proxy::Listening(id), ProxyReply::End) => (
                Proxy::CleaningUp,
                ProxyStep::Ask(ProxyEffect::DestroySandbox(id)),
            ),
            (Proxy::Parsing(id), ProxyReply::Request(request)) => Self::take_up(id, request),
            (Proxy::Parsing(id), ProxyReply::Malformed(e)) => Self::answer(
                id,
                ProxyResponse::Error { message: cat2("invalid request: ", e.as_str()) },
            ),
            (
                Proxy::Executing(id),
                ProxyReply::Ran { exit_code, duration_ms, stdout, stderr },
            ) => Self::answer(id, ProxyResponse::Exec { exit_code, duration_ms, stdout, stderr }),
            (Proxy::Executing(id), ProxyReply::Failed(f)) => Self::answer(
                id,
                ProxyResponse::Error { message: f.message },
            ),
            (Proxy::Reading(id, path), ProxyReply::Bytes(bytes)) => {
                let content = lossy_text(bytes.as_slice());
                Self::answer(id, ProxyResponse::Read { path, content })
            },
            (Proxy::Reading(id, _), ProxyReply::Failed(f)) => Self::answer(
                id,
                ProxyResponse::Error { message: f.message },
            ),
            (Proxy::Writing(id), ProxyReply::Unit) => Self::answer(id, ProxyResponse::Write),
            (Proxy::Writing(id), ProxyReply::Failed(f)) => Self::answer(
                id,
                ProxyResponse::Error { message: f.message },
            ),
            (Proxy::Destroying, ProxyReply::Unit) => (
                Proxy::Leaving,
                ProxyStep::Ask(ProxyEffect::Answer(ProxyResponse::Destroy)),
            ),
            (Proxy::Destroying, ProxyReply::Failed(f)) => (
                Proxy::Leaving,
                ProxyStep::Ask(
                    ProxyEffect::Answer(ProxyResponse::Error { message: f.message }),
                ),
            ),
            (Proxy::Answering(id), ProxyReply::Unit) => (
                Proxy::Listening(id),
                ProxyStep::Ask(ProxyEffect::NextLine),
            ),
            (Proxy::Leaving, ProxyReply::Unit) => (Proxy::Over, ProxyStep::Done(Ok(()))),
            (Proxy::CleaningUp, ProxyReply::Unit) => (Proxy::Over, ProxyStep::Done(Ok(()))),
            (Proxy::CleaningUp, ProxyReply::Failed(_)) => (Proxy::Over, ProxyStep::Done(Ok(()))),
            (_, ProxyReply::Failed(f)) => (Proxy::Over, ProxyStep::Done(Err(f))),
            (state, _) => (state, ProxyStep::Stray),
        }
    }
}

/// A request that is taken up is answered before the next line is waited for: the only ways
/// back to waiting are an answer that went out and a line with nothing in it.
pub proof fn requests_are_answered(state: Proxy, reply: ProxyReply, next: Proxy, step: ProxyStep)
    requires
        state.follows(reply, next, step),
        next is Listening,
        !(step is Stray),
    ensures
        state is Answering || state is Announcing || (state is Listening && (reply
            matches ProxyReply::Line(line) && trimmed(line@).len() == 0)),
{
}

/// The sandbox of a proxy goes with it: the ways to an end that is no failure all lead by a
/// removal of the sandbox that was asked for.
pub proof fn proxies_take_their_sandbox_along(
    state: Proxy,
    reply: ProxyReply,
    next: Proxy,
    step: ProxyStep,
)
    requires
        state.follows(reply, next, step),
    ensures
        step == ProxyStep::Done(Ok(())) ==> state is Leaving || state is CleaningUp,
        next is Leaving ==> state is Leaving || state is Destroying,
        next is CleaningUp && !(state is CleaningUp) ==> (state matches Proxy::Listening(id) && step
            == ProxyStep::Ask(ProxyEffect::DestroySandbox(id))),
        next is Destroying && !(state is Destroying) ==> (state matches Proxy::Parsing(id) && step
            == ProxyStep::Ask(ProxyEffect::DestroySandbox(id))),
{
}

} // verus!
