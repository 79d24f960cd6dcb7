//! Commands of the container tool: how they are put together, run and judged.

use crate::codec::{lossy_text, quote_list, quoted_list, utf8_lossy};
use crate::config::{NetworkMode, NetworkModel};
use crate::error::{invalid_config, HyperboxError};
use crate::numbers::{at_least_one, decimal, decimal_int, i64_text, one_or_more, u64_text};
use crate::paths::{below, join_path, path_of, plain_path};
use crate::text::{
    cat2, cat3, cat4, cat5, contains, first_chars, has_text, lowercase, texts, to_lowercase, trim,
    trimmed, take_chars, views,
};
use vstd::prelude::*;

verus! {

/// How long a command on files may take, in seconds.
pub const DEFAULT_IO_TIMEOUT_SECS: u64 = 60;

/// How long the removal of a container or a network may take, in seconds.
pub const DEFAULT_DESTROY_TIMEOUT_SECS: u64 = 30;

/// A command of the container tool.
#[derive(Debug, Clone, PartialEq, Eq)]
pub struct ContainerCall {
    pub args: Vec<String>,
    pub stdin: Option<Vec<u8>>,
    pub timeout_secs: u64,
}

/// A command as a value.
#[verifier::ext_equal]
pub struct CallModel {
    pub args: Seq<Seq<char>>,
    pub stdin: Option<Seq<u8>>,
    pub timeout_secs: u64,
}

impl View for ContainerCall {
    type V = CallModel;

    open spec fn view(&self) -> CallModel {
        CallModel {
            args: views(self.args@),
            stdin: match self.stdin {
                Some(b) => Some(b@),
                None => None,
            },
            timeout_secs: self.timeout_secs,
        }
    }
}

/// What a command left behind.
#[derive(Debug, Clone, PartialEq, Eq)]
pub struct CommandResult {
    pub exit_code: i32,
    pub stdout: Vec<u8>,
    pub stderr: Vec<u8>,
    pub duration_ms: u64,
}

/// A command without input.
pub open spec fn plain_call(args: Seq<Seq<char>>, timeout_secs: u64) -> CallModel {
    CallModel { args, stdin: None, timeout_secs }
}

/// The arguments that run a command in a container.
pub open spec fn exec_args(container: Seq<char>, command: Seq<Seq<char>>) -> Seq<Seq<char>> {
    seq!["exec"@, "--workdir"@, "/workspace"@, container] + command
}

pub fn exec_call(container: &str, command: &Vec<String>, timeout_secs: u64) -> (r: ContainerCall)
    ensures
        r@ == plain_call(exec_args(container@, views(command@)), timeout_secs),
{
    let mut args = texts(&["exec", "--workdir", "/workspace", container]);
    let mut i: usize = 0;
    assert(views(args@) =~= exec_args(container@, views(command@).take(0)));
    while i < command.len()
        invariant
            i <= command.len(),
            views(args@) == exec_args(container@, views(command@).take(i as int)),
        decreases command.len() - i,
    {
        let ghost before = args@;
        let word = command[i].clone();
        args.push(word);
        assert(views(args@) =~= views(before).push(word@));
        assert(views(command@).take(i + 1) =~= views(command@).take(i as int).push(word@));
        assert(views(args@) =~= exec_args(container@, views(command@).take(i + 1)));
        i = i + 1;
    }
    assert(views(command@).take(command@.len() as int) =~= views(command@));
    ContainerCall { args, stdin: None, timeout_secs }
}

/// Where a path below the workspace stands in a container.
pub open spec fn container_path(path: Seq<char>) -> Seq<char> {
    below("/workspace"@, path)
}

pub fn path_in_container(relative: &str) -> (r: String)
    ensures
        r@ == container_path(relative@),
{
    join_path("/workspace", relative)
}

/// The command that puts out a file of a container.
pub open spec fn read_model(container: Seq<char>, names: Seq<Seq<char>>, secs: u64) -> CallModel {
    plain_call(
        exec_args(
            container,
            seq!["/usr/bin/env"@, "cat"@, container_path(plain_path(names))],
        ),
        secs,
    )
}

pub fn read_call(container: &str, names: &Vec<String>, timeout_secs: u64) -> (r: ContainerCall)
    ensures
        r@ == read_model(container@, views(names@), timeout_secs),
{
    let path = path_in_container(path_of(names).as_str());
    let command = texts(&["/usr/bin/env", "cat", path.as_str()]);
    assert(views(command@) =~= seq!["/usr/bin/env"@, "cat"@, path@]);
    exec_call(container, &command, timeout_secs)
}

/// The command that makes the directory of a file, where the file stands in one.
pub open spec fn parent_model(container: Seq<char>, names: Seq<Seq<char>>, secs: u64) -> Option<
    CallModel,
> {
    if names.len() < 2 {
        None
    } else {
        Some(
            plain_call(
                exec_args(
                    container,
                    seq![
                        "/usr/bin/env"@,
                        "mkdir"@,
                        "-p"@,
                        container_path(plain_path(names.drop_last())),
                    ],
                ),
                secs,
            ),
        )
    }
}

pub open spec fn call_view(call: Option<ContainerCall>) -> Option<CallModel> {
    match call {
        Some(c) => Some(c@),
        None => None,
    }
}

pub fn parent_call(container: &str, names: &Vec<String>, timeout_secs: u64) -> (r: Option<
    ContainerCall,
>)
    ensures
        call_view(r) == parent_model(container@, views(names@), timeout_secs),
{
    if names.len() < 2 {
        return None;
    }
    let mut dirs = crate::text::clone_texts(names);
    let ghost all = views(dirs@);
    dirs.pop();
    assert(views(dirs@) =~= all.drop_last());
    let path = path_in_container(path_of(&dirs).as_str());
    let command = texts(&["/usr/bin/env", "mkdir", "-p", path.as_str()]);
    assert(views(command@) =~= seq!["/usr/bin/env"@, "mkdir"@, "-p"@, path@]);
    Some(exec_call(container, &command, timeout_secs))
}

/// The command that fills a file of a container from its input.
pub open spec fn write_model(
    container: Seq<char>,
    path: Seq<char>,
    bytes: Seq<u8>,
    secs: u64,
) -> CallModel {
    CallModel {
        args: seq![
            "exec"@,
            "--interactive"@,
            "--workdir"@,
            "/workspace"@,
            container,
            "/usr/bin/env"@,
            "tee"@,
            path,
        ],
        stdin: Some(bytes),
        timeout_secs: secs,
    }
}

pub fn write_call(container: &str, path: &str, bytes: Vec<u8>, timeout_secs: u64) -> (r:
    ContainerCall)
    ensures
        r@ == write_model(container@, path@, bytes@, timeout_secs),
{
    let args = texts(
        &["exec", "--interactive", "--workdir", "/workspace", container, "/usr/bin/env", "tee", path],
    );
    assert(views(args@) =~= write_model(container@, path@, bytes@, timeout_secs).args);
    ContainerCall { args, stdin: Some(bytes), timeout_secs }
}

/// The command that removes a container.
pub open spec fn delete_model(container: Seq<char>) -> CallModel {
    plain_call(seq!["delete"@, "--force"@, container], DEFAULT_DESTROY_TIMEOUT_SECS)
}

pub fn delete_call(container: &str) -> (r: ContainerCall)
    ensures
        r@ == delete_model(container@),
{
    let args = texts(&["delete", "--force", container]);
    assert(views(args@) =~= seq!["delete"@, "--force"@, container@]);
    ContainerCall { args, stdin: None, timeout_secs: DEFAULT_DESTROY_TIMEOUT_SECS }
}

/// The text of an error output in a message: without white space around it, or, where it is
/// long, its beginning.
pub open spec fn shortened(raw: Seq<char>) -> Seq<char> {
    if raw.len() <= 1024 {
        trimmed(raw)
    } else {
        raw.take(1024) + "... (truncated)"@
    }
}

pub fn truncate_error_output(raw: &str) -> (r: String)
    ensures
        r@ == shortened(raw@),
        r@.len() <= 1039,
{
    proof {
        reveal_strlit("... (truncated)");
        crate::text::trimming_never_grows(raw@);
    }
    let chars = crate::text::chars_of(raw);
    if chars.len() <= 1024 {
        return trim(raw);
    }
    let head = take_chars(raw, 1024);
    assert(first_chars(raw@, 1024) =~= raw@.take(1024));
    cat2(head.as_str(), "... (truncated)")
}

/// An error output in a message.
pub open spec fn summary(stderr: Seq<u8>) -> Seq<char> {
    shortened(utf8_lossy(stderr))
}

pub fn stderr_summary(stderr: &Vec<u8>) -> (r: String)
    ensures
        r@ == summary(stderr@),
{
    truncate_error_output(lossy_text(stderr.as_slice()).as_str())
}

/// What a command that failed is reported as.
pub open spec fn exit_report(what: Seq<char>, exit_code: i32, detail: Seq<char>) -> Seq<char> {
    what + " failed (exit="@ + decimal_int(exit_code as int) + "): "@ + detail
}

pub fn report_exit(what: &str, exit_code: i32, detail: &str) -> (r: String)
    ensures
        r@ == exit_report(what@, exit_code, detail@),
{
    let code = i64_text(exit_code as i64);
    cat5(what, " failed (exit=", code.as_str(), "): ", detail)
}

/// An error output that says that the thing to remove was not there.
pub open spec fn says_absent(stderr: Seq<u8>) -> bool {
    let text = lowercase(utf8_lossy(stderr));
    has_text(text, "not found"@) || has_text(text, "no such"@)
}

pub fn error_output_is_not_found(stderr: &Vec<u8>) -> (r: bool)
    ensures
        r == says_absent(stderr@),
{
    let text = to_lowercase(lossy_text(stderr.as_slice()).as_str());
    contains(text.as_str(), "not found") || contains(text.as_str(), "no such")
}

/// The complaint about a network that containers cannot hold to.
pub open spec fn allowlist_complaint() -> Seq<char> {
    "apple backend does not enforce allowlist yet; use network=none or network=full"@
}

/// The arguments that give a container its network.
pub fn container_network_args(network: &NetworkMode) -> (r: Result<Vec<String>, HyperboxError>)
    ensures
        match network@ {
            NetworkModel::NoNetwork => r matches Ok(args) && views(args@) == seq![
                "--network"@,
                "none"@,
            ],
            NetworkModel::Full => r matches Ok(args) && args@.len() == 0,
            NetworkModel::Allowlist(_) => invalid_config(r, allowlist_complaint()),
        },
{
    match network {
        NetworkMode::NoNetwork => {
            let args = texts(&["--network", "none"]);
            assert(views(args@) =~= seq!["--network"@, "none"@]);
            Ok(args)
        },
        NetworkMode::Full => Ok(Vec::new()),
        NetworkMode::Allowlist(_) => Err(
            HyperboxError::InvalidConfig(
                "apple backend does not enforce allowlist yet; use network=none or network=full".to_owned(),
            ),
        ),
    }
}

/// What is asked for while a command runs.
#[derive(Debug)]
pub enum RunEffect {
    /// Start the program with these arguments, with a pipe to its input or without.
    Spawn(String, Vec<String>, bool),
    Feed(Vec<u8>),
    CloseInput,
    /// Wait for the end, at most this many seconds.
    Wait(u64),
    /// Stop it and let its output go.
    Stop,
    TakeStdout,
    TakeStderr,
}

/// What came of it.
#[derive(Debug)]
pub enum RunReply {
    Failed(String),
    /// A pipe of the program is not there.
    Missing(String),
    Unit,
    Exited(Option<i32>),
    TimedOut,
    Bytes(Vec<u8>),
    /// The reader of an output is gone.
    Lost(String),
}

#[derive(Debug)]
pub enum RunStep {
    Ask(RunEffect),
    Done(Result<CommandResult, String>),
    Stray,
}

pub open spec fn run_fails(step: RunStep, text: Seq<char>) -> bool {
    step matches RunStep::Done(Err(e)) && e@ == text
}

/// A command of the container tool on its way.
#[derive(Debug)]
pub enum ContainerRun {
    Spawning(String, ContainerCall),
    Feeding(u64),
    Closing(u64),
    Waiting(u64),
    Stopping(u64),
    TakingStdout(i32),
    TakingStderr(i32, Vec<u8>),
    Over,
}

impl ContainerRun {
    pub fn begin(program: &str, call: ContainerCall) -> (r: (Self, RunStep))
        ensures
            r.0 matches ContainerRun::Spawning(p, c) && p@ == program@ && c == call,
            r.1 matches RunStep::Ask(RunEffect::Spawn(p, args, piped)) && p@ == program@ && views(
                args@,
            ) == views(call.args@) && piped == call.stdin is Some,
    {
        let args = crate::text::clone_texts(&call.args);
        let piped = call.stdin.is_some();
        (
            ContainerRun::Spawning(program.to_owned(), call),
            RunStep::Ask(RunEffect::Spawn(program.to_owned(), args, piped)),
        )
    }

    /// What a reply leads to. The input is handed over and closed before the end is waited
    /// for; a command that takes too long is stopped; both outputs are taken after its end.
    pub open spec fn follows(self, reply: RunReply, elapsed_ms: u64, next: Self, step: RunStep)
     -> bool {
        match (self, reply) {
            (ContainerRun::Over, _) => next is Over && step is Stray,
            (ContainerRun::Spawning(_, call), RunReply::Unit) => match call.stdin {
                Some(bytes) => next == ContainerRun::Feeding(call.timeout_secs) && step
                    == RunStep::Ask(RunEffect::Feed(bytes)),
                None => next == ContainerRun::Waiting(call.timeout_secs) && step == RunStep::Ask(
                    RunEffect::Wait(at_least_one(call.timeout_secs)),
                ),
            },
            (ContainerRun::Spawning(program, call), RunReply::Failed(e)) => next is Over
                && run_fails(
                step,
                "spawn `"@ + program@ + "` with args "@ + quoted_list(views(call.args@)) + ": "@
                    + e@,
            ),
            (ContainerRun::Feeding(secs), RunReply::Unit) => next == ContainerRun::Closing(secs)
                && step == RunStep::Ask(RunEffect::CloseInput),
            (ContainerRun::Feeding(_), RunReply::Failed(e)) => next is Over && run_fails(
                step,
                "write stdin payload: "@ + e@,
            ),
            (ContainerRun::Closing(secs), RunReply::Unit) => next == ContainerRun::Waiting(secs)
                && step == RunStep::Ask(RunEffect::Wait(at_least_one(secs))),
            (ContainerRun::Closing(_), RunReply::Failed(e)) => next is Over && run_fails(
                step,
                "close stdin payload pipe: "@ + e@,
            ),
            (ContainerRun::Feeding(_), RunReply::Missing(pipe)) | (
                ContainerRun::Waiting(_),
                RunReply::Missing(pipe),
            ) => next is Over && run_fails(step, "spawned process missing "@ + pipe@),
            (ContainerRun::Waiting(_), RunReply::Exited(code)) => {
                &&& next == ContainerRun::TakingStdout(
                    match code {
                        Some(c) => c,
                        None => 1,
                    },
                )
                &&& step == RunStep::Ask(RunEffect::TakeStdout)
            },
            (ContainerRun::Waiting(_), RunReply::Failed(e)) => next is Over && run_fails(
                step,
                "wait for command: "@ + e@,
            ),
            (ContainerRun::Waiting(secs), RunReply::TimedOut) => next == ContainerRun::Stopping(
                secs,
            ) && step == RunStep::Ask(RunEffect::Stop),
            (ContainerRun::Stopping(secs), RunReply::Unit) | (
                ContainerRun::Stopping(secs),
                RunReply::Failed(_),
            ) => next is Over && run_fails(
                step,
                "command timed out after "@ + decimal(secs as nat) + "s"@,
            ),
            (ContainerRun::TakingStdout(code), RunReply::Bytes(stdout)) => next
                == ContainerRun::TakingStderr(code, stdout) && step == RunStep::Ask(
                RunEffect::TakeStderr,
            ),
            (ContainerRun::TakingStdout(_), RunReply::Lost(e)) => next is Over && run_fails(
                step,
                "join stdout task: "@ + e@,
            ),
            (ContainerRun::TakingStdout(_), RunReply::Failed(e)) => next is Over && run_fails(
                step,
                "read stdout: "@ + e@,
            ),
            (ContainerRun::TakingStderr(code, stdout), RunReply::Bytes(stderr)) => next is Over
                && step == RunStep::Done(
                Ok(
                    CommandResult {
                        exit_code: code,
                        stdout,
                        stderr,
                        duration_ms: elapsed_ms,
                    },
                ),
            ),
            (ContainerRun::TakingStderr(_, _), RunReply::Lost(e)) => next is Over && run_fails(
                step,
                "join stderr task: "@ + e@,
            ),
            (ContainerRun::TakingStderr(_, _), RunReply::Failed(e)) => next is Over && run_fails(
                step,
                "read stderr: "@ + e@,
            ),
            _ => next == self && step is Stray,
        }
    }

    pub fn resume(self, reply: RunReply, elapsed_ms: u64) -> (r: (Self, RunStep))
        ensures
            self.follows(reply, elapsed_ms, r.0, r.1),
    {
        match (self, reply) {
            (ContainerRun::Over, _) => (ContainerRun::Over, RunStep::Stray),
            (ContainerRun::Spawning(_, call), RunReply::Unit) => {
                let secs: u64 = call.timeout_secs;
                match call.stdin {
                    Some(bytes) => (
                        ContainerRun::Feeding(secs),
                        RunStep::Ask(RunEffect::Feed(bytes)),
                    ),
                    None => (
                        ContainerRun::Waiting(secs),
                        RunStep::Ask(RunEffect::Wait(one_or_more(secs))),
                    ),
                }
            },
            (ContainerRun::Spawning(program, call), RunReply::Failed(e)) => {
                let args = quote_list(&call.args);
                let head = cat4("spawn `", program.as_str(), "` with args ", args.as_str());
                Self::fail(cat3(head.as_str(), ": ", e.as_str()))
            },
            (ContainerRun::Feeding(secs), RunReply::Unit) => (
                ContainerRun::Closing(secs),
                RunStep::Ask(RunEffect::CloseInput),
            ),
            (ContainerRun::Feeding(_), RunReply::Failed(e)) => Self::fail(
                cat2("write stdin payload: ", e.as_str()),
            ),
            (ContainerRun::Closing(secs), RunReply::Unit) => (
                ContainerRun::Waiting(secs),
                RunStep::Ask(RunEffect::Wait(one_or_more(secs))),
            ),
            (ContainerRun::Closing(_), RunReply::Failed(e)) => Self::fail(
                cat2("close stdin payload pipe: ", e.as_str()),
            ),
            (ContainerRun::Feeding(_), RunReply::Missing(pipe)) => Self::fail(
                cat2("spawned process missing ", pipe.as_str()),
            ),
            (ContainerRun::Waiting(_), RunReply::Missing(pipe)) => Self::fail(
                cat2("spawned process missing ", pipe.as_str()),
            ),
            (ContainerRun::Waiting(_), RunReply::Exited(code)) => {
                let code: i32 = match code {
                    Some(c) => c,
                    None => 1,
                };
                (ContainerRun::TakingStdout(code), RunStep::Ask(RunEffect::TakeStdout))
            },
            (ContainerRun::Waiting(_), RunReply::Failed(e)) => Self::fail(
                cat2("wait for command: ", e.as_str()),
            ),
            (ContainerRun::Waiting(secs), RunReply::TimedOut) => (
                ContainerRun::Stopping(secs),
                RunStep::Ask(RunEffect::Stop),
            ),
            (ContainerRun::Stopping(secs), RunReply::Unit) => Self::fail(
                cat3("command timed out after ", u64_text(secs).as_str(), "s"),
            ),
            (ContainerRun::Stopping(secs), RunReply::Failed(_)) => Self::fail(
                cat3("command timed out after ", u64_text(secs).as_str(), "s"),
            ),
            (ContainerRun::TakingStdout(code), RunReply::Bytes(stdout)) => (
                ContainerRun::TakingStderr(code, stdout),
                RunStep::Ask(RunEffect::TakeStderr),
            ),
            (ContainerRun::TakingStdout(_), RunReply::Lost(e)) => Self::fail(
                cat2("join stdout task: ", e.as_str()),
            ),
            (ContainerRun::TakingStdout(_), RunReply::Failed(e)) => Self::fail(
                cat2("read stdout: ", e.as_str()),
            ),
            (ContainerRun::TakingStderr(code, stdout), RunReply::Bytes(stderr)) => (
                ContainerRun::Over,
                RunStep::Done(
                    Ok(
                        CommandResult {
                            exit_code: code,
                            stdout,
                            stderr,
                            duration_ms: elapsed_ms,
                        },
                    ),
                ),
            ),
            (ContainerRun::TakingStderr(_, _), RunReply::Lost(e)) => Self::fail(
                cat2("join stderr task: ", e.as_str()),
            ),
            (ContainerRun::TakingStderr(_, _), RunReply::Failed(e)) => Self::fail(
                cat2("read stderr: ", e.as_str()),
            ),
            (state, _) => (state, RunStep::Stray),
        }
    }

    fn fail(text: String) -> (r: (Self, RunStep))
        ensures
            r.0 is Over,
            run_fails(r.1, text@),
    {
        (ContainerRun::Over, RunStep::Done(Err(text)))
    }
}

/// A command that takes too long is stopped, and then always reported as timed out.
pub proof fn slow_commands_are_stopped(
    secs: u64,
    reply: RunReply,
    elapsed_ms: u64,
    stopping: ContainerRun,
    first: RunStep,
    last: ContainerRun,
    second: RunStep,
)
    requires
        ContainerRun::Waiting(secs).follows(RunReply::TimedOut, elapsed_ms, stopping, first),
        reply is Unit || reply is Failed,
        stopping.follows(reply, elapsed_ms, last, second),
    ensures
        first == RunStep::Ask(RunEffect::Stop),
        run_fails(second, "command timed out after "@ + decimal(secs as nat) + "s"@),
{
}

/// A command is reported as having run only with the exit code and the outputs that it left.
pub proof fn results_are_what_was_left(
    state: ContainerRun,
    reply: RunReply,
    elapsed_ms: u64,
    next: ContainerRun,
    step: RunStep,
    result: CommandResult,
)
    requires
        state.follows(reply, elapsed_ms, next, step),
        step == RunStep::Done(Ok(result)),
    ensures
        state == ContainerRun::TakingStderr(result.exit_code, result.stdout),
        reply == RunReply::Bytes(result.stderr),
        result.duration_ms == elapsed_ms,
{
}

/// A command that is let run to its end is told with its own exit code, its output as the output
/// and its error output as the error output. Without an exit code it does not count as a success.
/// Input is handed over as it is, and before the end is waited for.
pub proof fn ended_commands_are_told_as_they_ended(
    program: String,
    call: ContainerCall,
    begun: ContainerRun,
    first: RunStep,
    secs: u64,
    code: Option<i32>,
    taking: ContainerRun,
    second: RunStep,
    stdout: Vec<u8>,
    more: ContainerRun,
    third: RunStep,
    stderr: Vec<u8>,
    last: ContainerRun,
    told: RunStep,
    elapsed_ms: u64,
)
    requires
        ContainerRun::Spawning(program, call).follows(RunReply::Unit, elapsed_ms, begun, first),
        ContainerRun::Waiting(secs).follows(RunReply::Exited(code), elapsed_ms, taking, second),
        taking.follows(RunReply::Bytes(stdout), elapsed_ms, more, third),
        more.follows(RunReply::Bytes(stderr), elapsed_ms, last, told),
    ensures
        match call.stdin {
            Some(bytes) => first matches RunStep::Ask(RunEffect::Feed(b)) && b@ == bytes@,
            None => first matches RunStep::Ask(RunEffect::Wait(s)) && s >= 1 && (call.timeout_secs
                >= 1 ==> s == call.timeout_secs),
        },
        second == RunStep::Ask(RunEffect::TakeStdout),
        third == RunStep::Ask(RunEffect::TakeStderr),
        told matches RunStep::Done(Ok(result)) && {
            &&& code matches Some(c) ==> result.exit_code == c
            &&& code is None ==> result.exit_code != 0
            &&& result.stdout@ == stdout@
            &&& result.stderr@ == stderr@
        },
{
}

} // verus!
