//! The sandboxes of the agent, and its commands and files.

use crate::agent::protocol::{fails_as, AgentFault, FaultCode};
use crate::codec::{lossy_text, utf8_lossy};
use crate::numbers::{at_least_one, one_or_more};
use crate::paths::{below, join_path};
use crate::table::Table;
use crate::text::{clone_texts, views};
use vstd::prelude::*;

verus! {

/// The directories of the sandboxes that were used, below the directory of the agent.
#[derive(Debug)]
pub struct AgentService {
    pub root: String,
    pub sandboxes: Table<String, String>,
}

/// The directory of a sandbox, and whether it has to be made first.
#[derive(Debug, PartialEq, Eq)]
pub enum RootPlan {
    Known(String),
    Make(String),
}

/// The name of the sandbox that a request is about.
pub open spec fn sandbox_name(id: Seq<char>) -> Seq<char> {
    if id.len() == 0 {
        "default"@
    } else {
        id
    }
}

pub fn sandbox_or_default(id: &str) -> (r: String)
    ensures
        r@ == sandbox_name(id@),
{
    if crate::text::chars_of(id).len() == 0 {
        "default".to_owned()
    } else {
        id.to_owned()
    }
}

impl AgentService {
    pub fn new(root: String) -> (r: Self)
        ensures
            r.root == root,
            r.sandboxes@ == Map::<Seq<char>, String>::empty(),
    {
        AgentService { root, sandboxes: Table::new() }
    }

    /// The directory of a sandbox.
    pub fn sandbox_root(&self, sandbox_id: &String) -> (r: RootPlan)
        ensures
            self.sandboxes@.contains_key(sandbox_id@) ==> (r matches RootPlan::Known(p) && p
                == self.sandboxes@[sandbox_id@]),
            !self.sandboxes@.contains_key(sandbox_id@) ==> (r matches RootPlan::Make(p) && p@
                == below(self.root@, sandbox_id@)),
    {
        match self.sandboxes.get(sandbox_id) {
            Some(path) => RootPlan::Known(path.clone()),
            None => RootPlan::Make(join_path(self.root.as_str(), sandbox_id.as_str())),
        }
    }

    /// The directory of a sandbox was made.
    pub fn root_made(&mut self, sandbox_id: String, path: String)
        ensures
            final(self).root == old(self).root,
            final(self).sandboxes@ == old(self).sandboxes@.insert(sandbox_id@, path),
    {
        self.sandboxes.insert(sandbox_id, path);
    }
}

/// A command as it is to be run.
#[derive(Debug, PartialEq, Eq)]
pub struct AgentCommand {
    pub sandbox_id: String,
    pub program: String,
    pub args: Vec<String>,
    pub timeout_secs: u64,
}

/// What a request for a command comes to.
pub open spec fn is_plan(
    sandbox_id: Seq<char>,
    command: Seq<Seq<char>>,
    timeout_secs: u64,
    r: Result<AgentCommand, AgentFault>,
) -> bool {
    if command.len() == 0 {
        fails_as(r, FaultCode::InvalidArgument, "command cannot be empty"@)
    } else {
        &&& r matches Ok(c)
        &&& c.sandbox_id@ == sandbox_name(sandbox_id)
        &&& c.program@ == command[0]
        &&& views(c.args@) == command.subrange(1, command.len() as int)
        &&& c.timeout_secs == at_least_one(timeout_secs)
    }
}

/// The command that a request asks for.
pub fn plan_exec(sandbox_id: &str, command: &Vec<String>, timeout_secs: u64) -> (r: Result<
    AgentCommand,
    AgentFault,
>)
    ensures
        is_plan(sandbox_id@, views(command@), timeout_secs, r),
{
    if command.len() == 0 {
        return Err(AgentFault::new(FaultCode::InvalidArgument, "command cannot be empty"));
    }
    let mut args = clone_texts(command);
    let ghost all = views(args@);
    assert(all == views(command@) && all.len() == args@.len());
    let program = args.remove(0);
    assert(all[0] == command@[0]@);
    assert(views(args@) =~= all.subrange(1, all.len() as int));
    Ok(
        AgentCommand {
            sandbox_id: sandbox_or_default(sandbox_id),
            program,
            args,
            timeout_secs: one_or_more(timeout_secs),
        },
    )
}

/// What came of a command.
#[derive(Debug)]
pub enum ExecEnd {
    TimedOut,
    Failed(String),
    Exited { code: Option<i32>, stdout: Vec<u8>, stderr: Vec<u8>, elapsed_ms: u64 },
}

/// The answer to a command.
#[derive(Debug, PartialEq, Eq)]
pub struct ExecAnswer {
    pub exit_code: i32,
    pub stdout: String,
    pub stderr: String,
    pub duration_ms: u64,
}

/// What an end of a command is answered with.
pub open spec fn is_answer(end: ExecEnd, r: Result<ExecAnswer, AgentFault>) -> bool {
    match end {
        ExecEnd::TimedOut => fails_as(r, FaultCode::DeadlineExceeded, "command timed out"@),
        ExecEnd::Failed(e) => fails_as(r, FaultCode::Internal, e@),
        ExecEnd::Exited { code, stdout, stderr, elapsed_ms } => r matches Ok(a) && {
            &&& a.exit_code == match code {
                Some(c) => c,
                None => 1,
            }
            &&& a.stdout@ == utf8_lossy(stdout@)
            &&& a.stderr@ == utf8_lossy(stderr@)
            &&& a.duration_ms == elapsed_ms
        },
    }
}

pub fn judge_exec(end: ExecEnd) -> (r: Result<ExecAnswer, AgentFault>)
    ensures
        is_answer(end, r),
{
    match end {
        ExecEnd::TimedOut => Err(AgentFault::new(FaultCode::DeadlineExceeded, "command timed out")),
        ExecEnd::Failed(e) => Err(AgentFault::new(FaultCode::Internal, e.as_str())),
        ExecEnd::Exited { code, stdout, stderr, elapsed_ms } => Ok(
            ExecAnswer {
                exit_code: match code {
                    Some(c) => c,
                    None => 1,
                },
                stdout: lossy_text(stdout.as_slice()),
                stderr: lossy_text(stderr.as_slice()),
                duration_ms: elapsed_ms,
            },
        ),
    }
}

/// What an error of the file system is answered with when a file is read.
pub fn read_fault(absent: bool, text: &str) -> (r: AgentFault)
    ensures
        absent ==> r.is(FaultCode::NotFound, text@),
        !absent ==> r.is(FaultCode::Internal, text@),
{
    if absent {
        AgentFault::new(FaultCode::NotFound, text)
    } else {
        AgentFault::new(FaultCode::Internal, text)
    }
}

/// The agent runs a command word for word in the directory of its sandbox, for at least a second,
/// and refuses an empty one. It answers with the code of the command and each of its outputs; a
/// command that has no code does not count as a success.
pub proof fn agents_run_what_they_are_asked(
    sandbox_id: Seq<char>,
    command: Seq<Seq<char>>,
    timeout_secs: u64,
    planned: Result<AgentCommand, AgentFault>,
    end: ExecEnd,
    r: Result<ExecAnswer, AgentFault>,
)
    requires
        is_plan(sandbox_id, command, timeout_secs, planned),
        is_answer(end, r),
    ensures
        planned is Ok <==> command.len() > 0,
        planned matches Ok(c) ==> {
            &&& seq![c.program@] + views(c.args@) == command
            &&& sandbox_id.len() > 0 ==> c.sandbox_id@ == sandbox_id
            &&& c.sandbox_id@.len() > 0
            &&& c.timeout_secs >= 1
            &&& timeout_secs >= 1 ==> c.timeout_secs == timeout_secs
        },
        r is Ok <==> end is Exited,
        end matches ExecEnd::Exited { code, stdout, stderr, elapsed_ms } ==> {
            &&& r matches Ok(a)
            &&& code matches Some(c) ==> a.exit_code == c
            &&& code is None ==> a.exit_code != 0
            &&& a.stdout@ == utf8_lossy(stdout@)
            &&& a.stderr@ == utf8_lossy(stderr@)
            &&& a.duration_ms == elapsed_ms
        },
        end is TimedOut ==> (r matches Err(f) && f.code == FaultCode::DeadlineExceeded),
{
    reveal_strlit("default");
    if let Ok(c) = planned {
        assert(seq![c.program@] + views(c.args@) =~= command);
    }
}

} // verus!
