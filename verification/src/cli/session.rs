//! The way to the server, and a run from its start to its exit code.

use crate::cli::fault::{fails_saying, fails_wrapping, Fault};
use crate::cli::logs::ProcessLogs;
use crate::codec::{lossy_text, utf8_lossy};
use crate::config::SandboxConfig;
use crate::model::{ExecOutcome, SandboxId};
use crate::process::{ProcessDisposition, ProcessId, ProcessInfo};
use crate::server::run::{StartRunRequest, StartedRun};
use crate::text::{
    cat2, cat3, cut_once, has_text, same, split_once, stands_at, starts,
    texts_are_cut_at_the_first_mark, views,
};
use vstd::prelude::*;

verus! {

/// How often the server is tried after it was started.
pub const SERVER_STARTUP_RETRIES: u8 = 20;

/// How long to wait before each of these tries, in milliseconds.
pub const SERVER_STARTUP_DELAY_MS: u64 = 150;

/// Where the server is looked for.
pub open spec fn default_server_url() -> Seq<char> {
    "http://127.0.0.1:50051"@
}

/// What is asked for on the way to the server.
#[derive(Debug, PartialEq, Eq)]
pub enum LinkEffect {
    Connect(String),
    /// Start the server of this program.
    SpawnServer,
    Pause(u64),
}

/// What came of it.
#[derive(Debug)]
pub enum LinkReply {
    Connected,
    Unit,
    Failed(Fault),
}

#[derive(Debug)]
pub enum LinkStep {
    Ask(LinkEffect),
    Done(Result<(), Fault>),
    Stray,
}

pub open spec fn links(step: LinkStep, url: Seq<char>) -> bool {
    step matches LinkStep::Ask(LinkEffect::Connect(u)) && u@ == url
}

pub open spec fn link_pauses(step: LinkStep) -> bool {
    step == LinkStep::Ask(LinkEffect::Pause(SERVER_STARTUP_DELAY_MS))
}

/// The way to the server.
#[derive(Debug)]
pub enum ConnectClient {
    Trying(String, bool),
    Spawning(String),
    /// So many tries are left, this one counted.
    Pausing(String, u8),
    Retrying(String, u8),
    TryingLast(String),
    Over,
}

impl ConnectClient {
    pub fn begin(server_url: Option<String>, autostart_default: bool) -> (r: (Self, LinkStep))
        ensures
            ({
                let url = match server_url {
                    Some(u) => u@,
                    None => default_server_url(),
                };
                (r.0 matches ConnectClient::Trying(u, auto) && u@ == url && auto
                    == autostart_default) && links(r.1, url)
            }),
    {
        let url = match server_url {
            Some(u) => u,
            None => "http://127.0.0.1:50051".to_owned(),
        };
        let asked = url.clone();
        (
            ConnectClient::Trying(url, autostart_default),
            LinkStep::Ask(LinkEffect::Connect(asked)),
        )
    }

    /// What a reply leads to. A server is started only at the usual place, and only if that is
    /// allowed; after the last try the failure of one more is reported.
    pub open spec fn follows(self, reply: LinkReply, next: Self, step: LinkStep) -> bool {
        match (self, reply) {
            (ConnectClient::Over, _) => next is Over && step is Stray,
            (ConnectClient::Trying(_, _), LinkReply::Connected)
            | (ConnectClient::Retrying(_, _), LinkReply::Connected)
            | (ConnectClient::TryingLast(_), LinkReply::Connected) => next is Over && step
                == LinkStep::Done(Ok(())),
            (ConnectClient::Trying(url, auto), LinkReply::Failed(_)) => if auto && url@
                == default_server_url() {
                next == ConnectClient::Spawning(url) && step == LinkStep::Ask(
                    LinkEffect::SpawnServer,
                )
            } else {
                next == ConnectClient::TryingLast(url) && links(step, url@)
            },
            (ConnectClient::Spawning(url), LinkReply::Unit) => next == ConnectClient::Pausing(
                url,
                SERVER_STARTUP_RETRIES,
            ) && link_pauses(step),
            (ConnectClient::Spawning(_), LinkReply::Failed(f)) => next is Over && step
                == LinkStep::Done(Err(f)),
            (ConnectClient::Pausing(url, left), LinkReply::Unit) => next == ConnectClient::Retrying(
                url,
                left,
            ) && links(step, url@),
            (ConnectClient::Retrying(url, left), LinkReply::Failed(_)) => if left > 1 {
                next == ConnectClient::Pausing(url, (left - 1) as u8) && link_pauses(step)
            } else {
                next == ConnectClient::TryingLast(url) && links(step, url@)
            },
            (ConnectClient::TryingLast(url), LinkReply::Failed(f)) => next is Over && (step
                matches LinkStep::Done(r) && fails_wrapping(
                r,
                "failed to connect to hyperbox control plane at "@ + url@,
                f,
            )),
            _ => next == self && step is Stray,
        }
    }

    fn try_last(url: String) -> (r: (Self, LinkStep))
        ensures
            r.0 == ConnectClient::TryingLast(url),
            links(r.1, url@),
    {
        let asked = url.clone();
        (ConnectClient::TryingLast(url), LinkStep::Ask(LinkEffect::Connect(asked)))
    }

    pub fn resume(self, reply: LinkReply) -> (r: (Self, LinkStep))
        ensures
            self.follows(reply, r.0, r.1),
    {
        match (self, reply) {
            (ConnectClient::Over, _) => (ConnectClient::Over, LinkStep::Stray),
            (ConnectClient::Trying(_, _), LinkReply::Connected) => (
                ConnectClient::Over,
                LinkStep::Done(Ok(())),
            ),
            (ConnectClient::Retrying(_, _), LinkReply::Connected) => (
                ConnectClient::Over,
                LinkStep::Done(Ok(())),
            ),
            (ConnectClient::TryingLast(_), LinkReply::Connected) => (
                ConnectClient::Over,
                LinkStep::Done(Ok(())),
            ),
            (ConnectClient::Trying(url, auto), LinkReply::Failed(_)) => {
                if auto && same(url.as_str(), "http://127.0.0.1:50051") {
                    (ConnectClient::Spawning(url), LinkStep::Ask(LinkEffect::SpawnServer))
                } else {
                    Self::try_last(url)
                }
            },
            (ConnectClient::Spawning(url), LinkReply::Unit) => (
                ConnectClient::Pausing(url, SERVER_STARTUP_RETRIES),
                LinkStep::Ask(LinkEffect::Pause(SERVER_STARTUP_DELAY_MS)),
            ),
            (ConnectClient::Spawning(_), LinkReply::Failed(f)) => (
                ConnectClient::Over,
                LinkStep::Done(Err(f)),
            ),
            (ConnectClient::Pausing(url, left), LinkReply::Unit) => {
                let asked = url.clone();
                (
                    ConnectClient::Retrying(url, left),
                    LinkStep::Ask(LinkEffect::Connect(asked)),
                )
            },
            (ConnectClient::Retrying(url, left), LinkReply::Failed(_)) => {
                if left > 1 {
                    (
                        ConnectClient::Pausing(url, left - 1),
                        LinkStep::Ask(LinkEffect::Pause(SERVER_STARTUP_DELAY_MS)),
                    )
                } else {
                    Self::try_last(url)
                }
            },
            (ConnectClient::TryingLast(url), LinkReply::Failed(f)) => {
                let text = cat2("failed to connect to hyperbox control plane at ", url.as_str());
                (ConnectClient::Over, LinkStep::Done(Err(f.within(text))))
            },
            (state, _) => (state, LinkStep::Stray),
        }
    }
}

/// A server is started only where none answers at the usual place, and never for another one.
pub proof fn only_the_usual_server_is_started(
    state: ConnectClient,
    reply: LinkReply,
    next: ConnectClient,
    step: LinkStep,
)
    requires
        state.follows(reply, next, step),
        step == LinkStep::Ask(LinkEffect::SpawnServer),
    ensures
        state matches ConnectClient::Trying(url, auto) && auto && url@ == default_server_url(),
        reply is Failed,
{
}

/// What a process came to, with its output. How long it took is what its record says, where it
/// says so.
pub open spec fn outcome_matches(
    o: ExecOutcome,
    process: ProcessInfo,
    logs: ProcessLogs,
    elapsed_ms: u128,
) -> bool {
    &&& o.exit_code == match process.exit_code {
        Some(code) => code,
        None => 1,
    }
    &&& o.stdout == logs.stdout
    &&& o.stderr == logs.stderr
    &&& o.duration_ms == match process.finished_at {
        Some(end) => end@.millis_since(process.started_at@),
        None => elapsed_ms as int,
    }
}

pub fn process_outcome(process: &ProcessInfo, logs: ProcessLogs, elapsed_ms: u128) -> (r:
    ExecOutcome)
    ensures
        outcome_matches(r, *process, logs, elapsed_ms),
{
    let duration_ms: u128 = match process.finished_at {
        Some(end) => end.millis_after(&process.started_at),
        None => elapsed_ms,
    };
    ExecOutcome {
        exit_code: match process.exit_code {
            Some(code) => code,
            None => 1,
        },
        stdout: logs.stdout,
        stderr: logs.stderr,
        duration_ms,
    }
}

/// Files with what is written to them.
pub open spec fn write_views(list: Seq<(String, Vec<u8>)>) -> Seq<(Seq<char>, Seq<u8>)> {
    Seq::new(list.len(), |i: int| (list[i].0@, list[i].1@))
}

/// The file and content that a `PATH=CONTENT` flag stands for.
pub open spec fn write_of(entry: Seq<char>) -> Option<(Seq<char>, Seq<u8>)> {
    match cut_once(entry, '=') {
        Some((path, content)) => Some((path, vstd::utf8::encode_utf8(content))),
        None => None,
    }
}

pub open spec fn all_writes(entries: Seq<Seq<char>>) -> bool {
    forall|i: int| 0 <= i < entries.len() ==> write_of(#[trigger] entries[i]) is Some
}

/// The files that `PATH=CONTENT` flags ask for.
pub fn parse_writes(entries: &Vec<String>) -> (r: Result<Vec<(String, Vec<u8>)>, Fault>)
    ensures
        !all_writes(views(entries@)) ==> fails_saying(
            r,
            "invalid --write value, expected PATH=CONTENT"@,
        ),
        all_writes(views(entries@)) ==> (r matches Ok(list) && write_views(list@) == Seq::new(
            entries@.len(),
            |i: int| write_of(views(entries@)[i]).unwrap(),
        )),
{
    let ghost all = views(entries@);
    let ghost wanted = Seq::new(entries@.len(), |i: int| write_of(all[i]).unwrap());
    let mut out: Vec<(String, Vec<u8>)> = Vec::new();
    let mut i: usize = 0;
    while i < entries.len()
        invariant
            i <= entries.len(),
            all == views(entries@),
            wanted == Seq::new(entries@.len(), |k: int| write_of(all[k]).unwrap()),
            forall|k: int| 0 <= k < i ==> write_of(#[trigger] all[k]) is Some,
            write_views(out@) == wanted.take(i as int),
        decreases entries.len() - i,
    {
        match split_once(entries[i].as_str(), '=') {
            None => {
                assert(write_of(all[i as int]) is None);
                return Err(
                    Fault::new("invalid --write value, expected PATH=CONTENT".to_owned()),
                );
            },
            Some((path, content)) => {
                let bytes = vstd::slice::slice_to_vec(content.as_str().as_bytes());
                let ghost before = out@;
                let pair = (path, bytes);
                out.push(pair);
                assert(write_views(out@) =~= write_views(before).push((pair.0@, pair.1@)));
                assert(write_of(all[i as int]) == Some((pair.0@, pair.1@)));
                assert(wanted.take(i + 1) =~= wanted.take(i as int).push(wanted[i as int]));
            },
        }
        i = i + 1;
    }
    assert(wanted.take(wanted.len() as int) =~= wanted);
    Ok(out)
}

/// A run as the command line asks for it.
#[derive(Debug)]
pub struct RunOrder {
    pub sandbox_id: Option<SandboxId>,
    pub affinity_name: Option<String>,
    pub create_config: Option<SandboxConfig>,
    pub reuse_auto_session: bool,
    pub ensure_commands: Vec<String>,
    pub cmd: String,
    pub writes: Vec<String>,
}

/// How the run is gone along with.
#[derive(Debug, PartialEq, Eq)]
pub struct RunManner {
    pub timeout: u64,
    pub reads: Vec<String>,
    pub json: bool,
    pub detach: bool,
    pub destroy_after_wait: bool,
}

/// What is asked for during a run.
#[derive(Debug)]
pub enum RunEffect {
    StartRun(StartRunRequest),
    /// Say these lines on the error output.
    Notify(Vec<String>),
    /// Wait for the process, at most so many seconds, and gather its output; the flag says
    /// whether it is only gathered and not shown.
    WaitOutcome(ProcessId, u64, bool),
    ReadFile(SandboxId, String),
    /// Report the outcome and the files.
    Report(ExecOutcome, Vec<(String, String)>),
    DestroySandbox(SandboxId),
}

/// What came of it.
#[derive(Debug)]
pub enum RunReply {
    Started(StartedRun),
    Unit,
    Outcome(ExecOutcome),
    Bytes(Vec<u8>),
    Failed(Fault),
}

/// How a run ends for the command line.
#[derive(Debug)]
pub enum RunEnd {
    /// The process goes on by itself.
    Detached(ProcessInfo),
    Exited(i32),
}

#[derive(Debug)]
pub enum RunStep {
    Ask(RunEffect),
    Done(Result<RunEnd, Fault>),
    Stray,
}

/// The line that tells which session a run took place in.
pub open spec fn session_line(started: StartedRun) -> Option<Seq<char>> {
    match started.session_name {
        None => None,
        Some(name) => if started.session_created {
            Some(
                "session: started `"@ + name@
                    + "` (reused automatically on next `run`; use --ephemeral for one-off)"@,
            )
        } else {
            Some("session: reusing `"@ + name@ + "` (use --ephemeral for one-off)"@)
        },
    }
}

/// The line that tells of a new sandbox in place of a busy one.
pub open spec fn overflow_line(process: ProcessInfo) -> Option<Seq<char>> {
    if process.disposition == ProcessDisposition::CreatedDueToBusy {
        Some(
            "requested sandbox was busy; created a new sandbox "@ + crate::ids::hyphenated(
                process.sandbox_id.0,
            ) + " for this run"@,
        )
    } else {
        None
    }
}

/// The lines that are said of a run that has started.
pub open spec fn start_lines(started: StartedRun) -> Seq<Seq<char>> {
    (match session_line(started) {
        Some(l) => seq![l],
        None => Seq::<Seq<char>>::empty(),
    }) + (match overflow_line(started.process) {
        Some(l) => seq![l],
        None => Seq::<Seq<char>>::empty(),
    })
}

pub fn start_notices(started: &StartedRun) -> (r: Vec<String>)
    ensures
        views(r@) == start_lines(*started),
{
    let mut out: Vec<String> = Vec::new();
    if let Some(name) = &started.session_name {
        if started.session_created {
            out.push(
                cat3(
                    "session: started `",
                    name.as_str(),
                    "` (reused automatically on next `run`; use --ephemeral for one-off)",
                ),
            );
        } else {
            out.push(
                cat3("session: reusing `", name.as_str(), "` (use --ephemeral for one-off)"),
            );
        }
    }
    if started.process.disposition == ProcessDisposition::CreatedDueToBusy {
        out.push(
            cat3(
                "requested sandbox was busy; created a new sandbox ",
                started.process.sandbox_id.text().as_str(),
                " for this run",
            ),
        );
    }
    assert(views(out@) =~= start_lines(*started));
    out
}

/// Texts under the paths they were read from.
pub open spec fn artifact_views(list: Seq<(String, String)>) -> Seq<(Seq<char>, Seq<char>)> {
    Seq::new(list.len(), |i: int| (list[i].0@, list[i].1@))
}

/// A run from its start to its exit code.
#[derive(Debug)]
pub enum RunSession {
    Starting(RunManner),
    Notifying(RunManner, StartedRun),
    Waiting(RunManner, SandboxId),
    /// The outcome, the files read so far, the path of the file that is read, and the paths
    /// that are left.
    Reading(RunManner, SandboxId, ExecOutcome, Vec<(String, String)>, String, Vec<String>),
    Reporting(RunManner, SandboxId, i32),
    /// The sandbox goes; what the report came to is kept.
    Destroying(Result<i32, Fault>),
    Over,
}

impl RunSession {
    /// The request that a run goes to the server with.
    pub open spec fn requests(order: RunOrder, detach: bool, q: StartRunRequest) -> bool {
        &&& q.sandbox_id == order.sandbox_id
        &&& q.affinity_name == order.affinity_name
        &&& q.create_config == order.create_config
        &&& q.reuse_auto_session == order.reuse_auto_session
        &&& q.ensure_commands == order.ensure_commands
        &&& q.command == order.cmd
        &&& q.destroy_sandbox_on_expiry == detach
        &&& write_views(q.writes@) == Seq::new(
            order.writes@.len(),
            |i: int| write_of(views(order.writes@)[i]).unwrap(),
        )
    }

    pub fn begin(order: RunOrder, manner: RunManner) -> (r: (Self, RunStep))
        ensures
            if all_writes(views(order.writes@)) {
                r.0 == RunSession::Starting(manner) && (r.1 matches RunStep::Ask(
                    RunEffect::StartRun(q),
                ) && Self::requests(order, manner.detach, q))
            } else {
                r.0 is Over && (r.1 matches RunStep::Done(done) && fails_saying(
                    done,
                    "invalid --write value, expected PATH=CONTENT"@,
                ))
            },
    {
        match parse_writes(&order.writes) {
            Err(f) => (RunSession::Over, RunStep::Done(Err(f))),
            Ok(writes) => {
                let request = StartRunRequest {
                    sandbox_id: order.sandbox_id,
                    affinity_name: order.affinity_name,
                    create_config: order.create_config,
                    reuse_auto_session: order.reuse_auto_session,
                    ensure_commands: order.ensure_commands,
                    writes,
                    command: order.cmd,
                    destroy_sandbox_on_expiry: manner.detach,
                };
                (RunSession::Starting(manner), RunStep::Ask(RunEffect::StartRun(request)))
            },
        }
    }

    /// The next file is read; after the last one the outcome is reported.
    pub open spec fn reads_on(
        manner: RunManner,
        id: SandboxId,
        outcome: ExecOutcome,
        done: Seq<(Seq<char>, Seq<char>)>,
        left: Seq<Seq<char>>,
        next: Self,
        step: RunStep,
    ) -> bool {
        if left.len() > 0 {
            &&& next matches RunSession::Reading(m, i, o, list, path, rest)
            &&& m == manner
            &&& i == id
            &&& o == outcome
            &&& artifact_views(list@) == done
            &&& path@ == left[0]
            &&& views(rest@) == left.subrange(1, left.len() as int)
            &&& step matches RunStep::Ask(RunEffect::ReadFile(s, p))
            &&& s == id
            &&& p@ == left[0]
        } else {
            &&& next == RunSession::Reporting(manner, id, outcome.exit_code)
            &&& step matches RunStep::Ask(RunEffect::Report(o, list))
            &&& o == outcome
            &&& artifact_views(list@) == done
        }
    }

    /// What is left to do after the report.
    pub open spec fn winds_up(
        manner: RunManner,
        id: SandboxId,
        result: Result<i32, Fault>,
        next: Self,
        step: RunStep,
    ) -> bool {
        if manner.destroy_after_wait {
            next == RunSession::Destroying(result) && step == RunStep::Ask(
                RunEffect::DestroySandbox(id),
            )
        } else {
            next is Over && Self::ends(result, step)
        }
    }

    pub open spec fn ends(result: Result<i32, Fault>, step: RunStep) -> bool {
        match result {
            Ok(code) => step == RunStep::Done(Ok(RunEnd::Exited(code))),
            Err(f) => step == RunStep::Done(Err(f)),
        }
    }

    /// What a reply leads to. A sandbox that was made for the run goes after the report, even
    /// where the report failed; a failure to take it away counts only where nothing else
    /// failed.
    pub open spec fn follows(self, reply: RunReply, next: Self, step: RunStep) -> bool {
        match (self, reply) {
            (RunSession::Over, _) => next is Over && step is Stray,
            (RunSession::Starting(manner), RunReply::Started(started)) => next
                == RunSession::Notifying(manner, started) && (step matches RunStep::Ask(
                RunEffect::Notify(lines),
            ) && views(lines@) == start_lines(started)),
            (RunSession::Notifying(manner, started), RunReply::Unit) => if manner.detach {
                next is Over && step == RunStep::Done(Ok(RunEnd::Detached(started.process)))
            } else {
                next == RunSession::Waiting(manner, started.sandbox.id) && step == RunStep::Ask(
                    RunEffect::WaitOutcome(started.process.id, manner.timeout, manner.json),
                )
            },
            (RunSession::Waiting(manner, id), RunReply::Outcome(outcome)) => Self::reads_on(
                manner,
                id,
                outcome,
                Seq::<(Seq<char>, Seq<char>)>::empty(),
                views(manner.reads@),
                next,
                step,
            ),
            (
                RunSession::Reading(manner, id, outcome, list, path, rest),
                RunReply::Bytes(bytes),
            ) => Self::reads_on(
                manner,
                id,
                outcome,
                artifact_views(list@).push((path@, utf8_lossy(bytes@))),
                views(rest@),
                next,
                step,
            ),
            (RunSession::Reporting(manner, id, code), RunReply::Unit) => Self::winds_up(
                manner,
                id,
                Ok(code),
                next,
                step,
            ),
            (RunSession::Reporting(manner, id, _), RunReply::Failed(f)) => Self::winds_up(
                manner,
                id,
                Err(f),
                next,
                step,
            ),
            (RunSession::Destroying(result), RunReply::Unit) => next is Over && Self::ends(
                result,
                step,
            ),
            (RunSession::Destroying(result), RunReply::Failed(f)) => next is Over && match result {
                Ok(_) => step == RunStep::Done(Err(f)),
                Err(first) => step == RunStep::Done(Err(first)),
            },
            (_, RunReply::Failed(f)) => next is Over && step == RunStep::Done(Err(f)),
            _ => next == self && step is Stray,
        }
    }

    fn read_on(
        manner: RunManner,
        id: SandboxId,
        outcome: ExecOutcome,
        done: Vec<(String, String)>,
        left: Vec<String>,
    ) -> (r: (Self, RunStep))
        ensures
            Self::reads_on(
                manner,
                id,
                outcome,
                artifact_views(done@),
                views(left@),
                r.0,
                r.1,
            ),
    {
        let mut left = left;
        if left.len() > 0 {
            let ghost all = views(left@);
            let path = left.remove(0);
            assert(all[0] == path@);
            assert(views(left@) =~= all.subrange(1, all.len() as int));
            let asked = path.clone();
            (
                RunSession::Reading(manner, id, outcome, done, path, left),
                RunStep::Ask(RunEffect::ReadFile(id, asked)),
            )
        } else {
            (
                RunSession::Reporting(manner, id, outcome.exit_code),
                RunStep::Ask(RunEffect::Report(outcome, done)),
            )
        }
    }

    fn wind_up(manner: RunManner, id: SandboxId, result: Result<i32, Fault>) -> (r: (Self, RunStep))
        ensures
            Self::winds_up(manner, id, result, r.0, r.1),
    {
        if manner.destroy_after_wait {
            (
                RunSession::Destroying(result),
                RunStep::Ask(RunEffect::DestroySandbox(id)),
            )
        } else {
            (RunSession::Over, Self::end(result))
        }
    }

    fn end(result: Result<i32, Fault>) -> (r: RunStep)
        ensures
            Self::ends(result, r),
    {
        match result {
            Ok(code) => RunStep::Done(Ok(RunEnd::Exited(code))),
            Err(f) => RunStep::Done(Err(f)),
        }
    }

    pub fn resume(self, reply: RunReply) -> (r: (Self, RunStep))
        ensures
            self.follows(reply, r.0, r.1),
    {
        match (self, reply) {
            (RunSession::Over, _) => (RunSession::Over, RunStep::Stray),
            (RunSession::Starting(manner), RunReply::Started(started)) => {
                let lines = start_notices(&started);
                (
                    RunSession::Notifying(manner, started),
                    RunStep::Ask(RunEffect::Notify(lines)),
                )
            },
            (RunSession::Notifying(manner, started), RunReply::Unit) => {
                if manner.detach {
                    (
                        RunSession::Over,
                        RunStep::Done(Ok(RunEnd::Detached(started.process))),
                    )
                } else {
                    let timeout: u64 = manner.timeout;
                    let json = manner.json;
                    (
                        RunSession::Waiting(manner, started.sandbox.id),
                        RunStep::Ask(
                            RunEffect::WaitOutcome(started.process.id, timeout, json),
                        ),
                    )
                }
            },
            (RunSession::Waiting(manner, id), RunReply::Outcome(outcome)) => {
                let left = crate::text::clone_texts(&manner.reads);
                let done: Vec<(String, String)> = Vec::new();
                assert(artifact_views(done@) =~= Seq::<(Seq<char>, Seq<char>)>::empty());
                Self::read_on(manner, id, outcome, done, left)
            },
            (
                RunSession::Reading(manner, id, outcome, list, path, rest),
                RunReply::Bytes(bytes),
            ) => {
                let mut list = list;
                let text = lossy_text(bytes.as_slice());
                let ghost before = list@;
                let pair = (path, text);
                list.push(pair);
                assert(artifact_views(list@) =~= artifact_views(before).push((pair.0@, pair.1@)));
                Self::read_on(manner, id, outcome, list, rest)
            },
            (RunSession::Reporting(manner, id, code), RunReply::Unit) => Self::wind_up(
                manner,
                id,
                Ok(code),
            ),
            (RunSession::Reporting(manner, id, _), RunReply::Failed(f)) => Self::wind_up(
                manner,
                id,
                Err(f),
            ),
            (RunSession::Destroying(result), RunReply::Unit) => (
                RunSession::Over,
                Self::end(result),
            ),
            (RunSession::Destroying(result), RunReply::Failed(f)) => match result {
                Ok(_) => (RunSession::Over, RunStep::Done(Err(f))),
                Err(first) => (RunSession::Over, RunStep::Done(Err(first))),
            },
            (_, RunReply::Failed(f)) => (RunSession::Over, RunStep::Done(Err(f))),
            (state, _) => (state, RunStep::Stray),
        }
    }
}

impl RunSession {
    /// The exit code of the process, once it is over.
    pub open spec fn exit_code(self) -> Option<i32> {
        match self {
            RunSession::Reading(_, _, outcome, _, _, _) => Some(outcome.exit_code),
            RunSession::Reporting(_, _, code) => Some(code),
            RunSession::Destroying(Ok(code)) => Some(code),
            _ => None,
        }
    }
}

/// A run that was waited for ends with the exit code of its process: the code is taken from the
/// outcome, is kept whatever is read and taken away after that, and is the one that is told.
pub proof fn runs_end_with_their_exit_code(
    state: RunSession,
    reply: RunReply,
    next: RunSession,
    step: RunStep,
)
    requires
        state.follows(reply, next, step),
    ensures
        state is Waiting && reply is Outcome ==> next.exit_code() == Some(
            reply->Outcome_0.exit_code,
        ),
        state.exit_code() is Some && next.exit_code() is Some ==> next.exit_code()
            == state.exit_code(),
        step matches RunStep::Done(Ok(RunEnd::Exited(code))) ==> state.exit_code() == Some(code),
{
}

/// A sandbox that was made for one run goes with it, however the report went; no other sandbox
/// is ever taken away.
pub proof fn only_brief_sandboxes_go(
    state: RunSession,
    reply: RunReply,
    next: RunSession,
    step: RunStep,
)
    requires
        state.follows(reply, next, step),
    ensures
        state matches RunSession::Reporting(manner, id, _) ==> (manner.destroy_after_wait && (reply
            is Unit || reply is Failed) ==> step == RunStep::Ask(RunEffect::DestroySandbox(id))),
        step matches RunStep::Ask(RunEffect::DestroySandbox(id)) ==> (state
            matches RunSession::Reporting(manner, i, _) && manner.destroy_after_wait && i == id),
{
}

/// A run of the command line from its beginning on: the states and steps that follow from each
/// other by the replies, each of which answers what was asked.
pub struct RunCourse {
    pub states: Seq<RunSession>,
    pub steps: Seq<RunStep>,
    pub replies: Seq<RunReply>,
}

impl RunCourse {
    pub open spec fn wf(self) -> bool {
        &&& self.states.len() == self.replies.len() + 1
        &&& self.steps.len() == self.replies.len() + 1
        &&& forall|i: int|
            0 <= i < self.replies.len() ==> self.steps[i] is Ask && self.states[i].follows(
                #[trigger] self.replies[i],
                self.states[i + 1],
                self.steps[i + 1],
            )
    }

    /// The file at this place among those to read was read from the sandbox.
    pub open spec fn reads(self, id: SandboxId, paths: Seq<Seq<char>>, i: int) -> bool {
        &&& 3 + i < self.replies.len()
        &&& self.steps[3 + i] matches RunStep::Ask(RunEffect::ReadFile(from, path))
        &&& from == id
        &&& path@ == paths[i]
        &&& self.replies[3 + i] is Bytes
    }

    proof fn reads_come_along(
        self,
        manner: RunManner,
        id: SandboxId,
        outcome: ExecOutcome,
        k: int,
        code: i32,
    )
        requires
            self.wf(),
            0 <= k <= manner.reads@.len(),
            3 + k < self.steps.len(),
            self.steps.last() == RunStep::Done(Ok(RunEnd::Exited(code))),
            forall|i: int| 0 <= i < k ==> #[trigger] self.reads(id, views(manner.reads@), i),
            RunSession::reads_on(
                manner,
                id,
                outcome,
                self.artifacts(manner, k),
                views(manner.reads@).skip(k),
                self.states[3 + k],
                self.steps[3 + k],
            ),
        ensures
            self.is_told(manner, id, outcome, code),
        decreases manner.reads@.len() - k,
    {
        let all = views(manner.reads@);
        let n = all.len() as int;
        assert(self.steps[3 + k] is Ask);
        let last = self.replies.len() as int;
        assert(self.steps[last] == self.steps.last());
        assert(3 + k < last);
        let reply = self.replies[3 + k];
        assert(self.states[3 + k].follows(reply, self.states[4 + k], self.steps[4 + k]));
        if k < n {
            assert(all.skip(k).subrange(1, n - k) =~= all.skip(k + 1));
            if !(reply is Bytes) {
                if 4 + k < last {
                    let more = self.replies[4 + k];
                    assert(self.steps[4 + k] is Ask);
                }
                assert(false);
            }
            assert(self.reads(id, all, k));
            assert(self.artifacts(manner, k + 1) =~= self.artifacts(manner, k).push(
                (all[k], utf8_lossy(reply->Bytes_0@)),
            ));
            self.reads_come_along(manner, id, outcome, k + 1, code);
        } else {
            if manner.destroy_after_wait && (reply is Unit || reply is Failed) {
                assert(self.steps[4 + k] is Ask);
                assert(4 + k < last);
                let gone = self.replies[4 + k];
                assert(self.states[4 + k].follows(gone, self.states[5 + k], self.steps[5 + k]));
                if 5 + k < last {
                    let more = self.replies[5 + k];
                    assert(self.steps[5 + k] is Ask);
                }
            } else if 4 + k < last {
                assert(self.steps[4 + k] is Ask);
            }
        }
    }

    /// The files that were read, with what they hold.
    pub open spec fn artifacts(self, manner: RunManner, k: int) -> Seq<(Seq<char>, Seq<char>)> {
        Seq::new(
            k as nat,
            |i: int| (views(manner.reads@)[i], utf8_lossy(self.replies[3 + i]->Bytes_0@)),
        )
    }

    /// What came of the process is told, with the files that were asked for; a sandbox for this
    /// run only goes after that.
    pub open spec fn is_told(
        self,
        manner: RunManner,
        id: SandboxId,
        outcome: ExecOutcome,
        code: i32,
    ) -> bool {
        let n = manner.reads@.len() as int;
        &&& code == outcome.exit_code
        &&& forall|i: int| 0 <= i < n ==> #[trigger] self.reads(id, views(manner.reads@), i)
        &&& 3 + n < self.replies.len()
        &&& self.steps[3 + n] matches RunStep::Ask(RunEffect::Report(told, files))
        &&& told == outcome
        &&& artifact_views(files@) == self.artifacts(manner, n)
        &&& self.replies[3 + n] is Unit
        &&& if manner.destroy_after_wait {
            self.replies.len() == 5 + n && self.steps[4 + n] == RunStep::Ask(
                RunEffect::DestroySandbox(id),
            )
        } else {
            self.replies.len() == 4 + n
        }
    }
}

/// A run of the command line asks for the command that was given, with the files to write, and
/// waits for the process that came of it. It tells what the process came to, with the files that
/// were asked for as they stand in its sandbox, and ends with its exit code. Where it is not to
/// wait, it ends with the process.
pub proof fn runs_tell_what_came_of_them(
    order: RunOrder,
    manner: RunManner,
    course: RunCourse,
    end: RunEnd,
)
    requires
        course.wf(),
        course.states[0] == RunSession::Starting(manner),
        course.steps[0] matches RunStep::Ask(RunEffect::StartRun(q)) && RunSession::requests(
            order,
            manner.detach,
            q,
        ),
        course.steps.last() == RunStep::Done(Ok(end)),
    ensures
        course.steps[0] matches RunStep::Ask(RunEffect::StartRun(q)) && q.command@ == order.cmd@
            && q.sandbox_id == order.sandbox_id && q.affinity_name == order.affinity_name
            && q.create_config == order.create_config && q.ensure_commands == order.ensure_commands
            && (q.destroy_sandbox_on_expiry <==> manner.detach) && q.writes@.len()
            == order.writes@.len(),
        course.replies.len() >= 2,
        course.replies[0] matches RunReply::Started(started) && match end {
            RunEnd::Detached(p) => manner.detach && p == started.process && course.replies.len()
                == 2,
            RunEnd::Exited(code) => {
                &&& !manner.detach
                &&& course.steps[2] == RunStep::Ask(
                    RunEffect::WaitOutcome(started.process.id, manner.timeout, manner.json),
                )
                &&& course.replies.len() >= 3
                &&& course.replies[2] matches RunReply::Outcome(outcome)
                &&& course.is_told(manner, started.sandbox.id, outcome, code)
            },
        },
{
    let last = course.replies.len() as int;
    assert(course.steps[last] == course.steps.last());
    let q = course.steps[0]->Ask_0->StartRun_0;
    assert(write_views(q.writes@).len() == q.writes@.len());
    assert(last > 0);
    let r0 = course.replies[0];
    assert(course.states[0].follows(r0, course.states[1], course.steps[1]));
    if last > 1 {
        assert(course.steps[1] is Ask) by {
            let r1 = course.replies[1];
        }
    }
    let r1 = course.replies[1];
    assert(course.states[1].follows(r1, course.states[2], course.steps[2]));
    let started = r0->Started_0;
    if last > 2 {
        let r2 = course.replies[2];
        assert(course.steps[2] is Ask);
        assert(course.states[2].follows(r2, course.states[3], course.steps[3]));
        if !(r2 is Outcome) {
            if last > 3 {
                let r3 = course.replies[3];
                assert(course.steps[3] is Ask);
            }
            assert(false);
        }
        let outcome = r2->Outcome_0;
        assert(course.artifacts(manner, 0) =~= Seq::<(Seq<char>, Seq<char>)>::empty());
        assert(views(manner.reads@).skip(0) =~= views(manner.reads@));
        assert(end is Exited) by {
            if end is Detached {
                detached_runs_end_early(course, 2);
            }
        }
        course.reads_come_along(manner, started.sandbox.id, outcome, 0, end->Exited_0);
    }
}

proof fn detached_runs_end_early(course: RunCourse, k: int)
    requires
        course.wf(),
        2 <= k <= course.replies.len(),
        !(course.states[k] is Starting || course.states[k] is Notifying),
        !(course.steps[k] matches RunStep::Done(Ok(RunEnd::Detached(_)))),
    ensures
        !(course.steps.last() matches RunStep::Done(Ok(RunEnd::Detached(_)))),
    decreases course.replies.len() - k,
{
    if k < course.replies.len() {
        let reply = course.replies[k];
        assert(course.states[k].follows(reply, course.states[k + 1], course.steps[k + 1]));
        detached_runs_end_early(course, k + 1);
    }
}

/// What a process came to is told as it is: its exit code, or one that says that it failed where
/// it has none, its two outputs, each as what it is, and the time from its start to its end.
pub proof fn outcomes_tell_of_the_process(
    o: ExecOutcome,
    process: ProcessInfo,
    logs: ProcessLogs,
    elapsed_ms: u128,
)
    requires
        outcome_matches(o, process, logs, elapsed_ms),
    ensures
        process.exit_code is Some ==> Some(o.exit_code) == process.exit_code,
        process.exit_code is None ==> o.exit_code != 0,
        o.stdout@ == logs.stdout@,
        o.stderr@ == logs.stderr@,
        process.finished_at matches Some(end) ==> ({
            let gone = end@.since(process.started_at@);
            &&& gone > 0 ==> o.duration_ms * 1_000_000 <= gone < (o.duration_ms + 1) * 1_000_000
            &&& gone <= 0 ==> o.duration_ms == 0
        }),
{
}

/// A flag writes to the path before its first `=` the text behind it, whatever stands in that; a
/// flag without one stands for no file.
pub proof fn flags_write_what_they_say(path: Seq<char>, content: Seq<char>)
    requires
        !path.contains('='),
    ensures
        write_of(path + seq!['='] + content) == Some((path, vstd::utf8::encode_utf8(content))),
        write_of(path) is None,
{
    texts_are_cut_at_the_first_mark(path, '=', content);
}

/// What is said of a run that has started: that its session is new where it is and that it is an
/// old one where it is not, and that another sandbox was made where the one asked for was busy.
pub proof fn notices_tell_of_the_session(started: StartedRun)
    ensures
        ({
            let lines = start_lines(started);
            let busy = started.process.disposition == ProcessDisposition::CreatedDueToBusy;
            &&& started.session_name matches Some(name) ==> {
                &&& lines.len() >= 1
                &&& started.session_created ==> starts(
                    lines[0],
                    "session: started `"@ + name@ + "`"@,
                )
                &&& !started.session_created ==> starts(
                    lines[0],
                    "session: reusing `"@ + name@ + "`"@,
                )
            }
            &&& lines.len() == (if started.session_name is Some {
                1int
            } else {
                0int
            }) + (if busy {
                1int
            } else {
                0int
            })
            &&& busy ==> has_text(lines.last(), crate::ids::hyphenated(started.process.sandbox_id.0))
        }),
{
    reveal_strlit("`");
    reveal_strlit("` (reused automatically on next `run`; use --ephemeral for one-off)");
    reveal_strlit("` (use --ephemeral for one-off)");
    if let Some(name) = started.session_name {
        let line = start_lines(started)[0];
        let a = "session: started `"@ + name@ + "`"@;
        let b = "session: reusing `"@ + name@ + "`"@;
        if started.session_created {
            assert(line.subrange(0, a.len() as int) =~= a);
        } else {
            assert(line.subrange(0, b.len() as int) =~= b);
        }
    }
    if started.process.disposition == ProcessDisposition::CreatedDueToBusy {
        let id = crate::ids::hyphenated(started.process.sandbox_id.0);
        let line = start_lines(started).last();
        let n = "requested sandbox was busy; created a new sandbox "@.len() as int;
        assert(line.subrange(n, n + id.len()) =~= id);
        assert(stands_at(line, id, n));
    }
}

} // verus!
