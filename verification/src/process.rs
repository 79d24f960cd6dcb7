//! Processes that a sandbox runs in the background.

use crate::ids::{hyphenated, id_text, is_random_id, parse_id, random_id, uuid_parsed};
use crate::model::{ExecOutcome, ExecRequest, SandboxId};
use crate::text::{clone_texts, same, same_texts, views};
use crate::time::{TimeModel, Timestamp};
use vstd::prelude::*;

verus! {

#[derive(Debug, Clone, Copy, PartialEq, Eq, Structural)]
pub enum StreamName {
    Stdout,
    Stderr,
}

#[derive(Debug, Clone, PartialEq, Eq)]
pub struct StreamChunk {
    pub stream: StreamName,
    pub chunk: String,
    pub at: Timestamp,
}

#[derive(Debug, Clone, Copy, PartialEq, Eq, Structural)]
pub enum ExecStatus {
    Success,
    NonZeroExit,
    Timeout,
    StartFailure,
}

#[derive(Debug, Clone, Copy, PartialEq, Eq, Hash, Structural)]
pub struct ProcessId(pub u128);

impl ProcessId {
    /// A new identifier, drawn at random.
    pub fn new() -> (r: Self)
        ensures
            is_random_id(r.0),
    {
        ProcessId(random_id())
    }

    /// The text of the identifier.
    pub fn text(&self) -> (r: String)
        ensures
            r@ == hyphenated(self.0),
    {
        id_text(self.0)
    }

    /// The identifier that a text stands for. It reads back what `text` wrote.
    pub fn parse(text: &str) -> (r: Result<Self, String>)
        ensures
            match r {
                Ok(id) => uuid_parsed(text@) == Ok::<u128, Seq<char>>(id.0),
                Err(e) => uuid_parsed(text@) == Err::<u128, Seq<char>>(e@),
            },
            forall|id: u128|
                text@ == #[trigger] hyphenated(id) ==> r == Ok::<Self, String>(ProcessId(id)),
    {
        match parse_id(text) {
            Ok(id) => Ok(ProcessId(id)),
            Err(e) => Err(e),
        }
    }
}

impl Default for ProcessId {
    fn default() -> (r: Self)
        ensures
            is_random_id(r.0),
    {
        ProcessId::new()
    }
}

#[derive(Debug, Clone, Copy, PartialEq, Eq, Structural)]
pub enum ProcessDisposition {
    ReusedExisting,
    CreatedNew,
    CreatedDueToBusy,
}

impl ProcessDisposition {
    pub open spec fn word(self) -> Seq<char> {
        match self {
            ProcessDisposition::ReusedExisting => "ReusedExisting"@,
            ProcessDisposition::CreatedNew => "CreatedNew"@,
            ProcessDisposition::CreatedDueToBusy => "CreatedDueToBusy"@,
        }
    }

    /// The name of the disposition.
    pub fn name(&self) -> (r: &'static str)
        ensures
            r@ == self.word(),
    {
        match self {
            ProcessDisposition::ReusedExisting => "ReusedExisting",
            ProcessDisposition::CreatedNew => "CreatedNew",
            ProcessDisposition::CreatedDueToBusy => "CreatedDueToBusy",
        }
    }
}

#[derive(Debug, Clone, Copy, PartialEq, Eq, Structural)]
pub enum ProcessStatus {
    Starting,
    Running,
    Succeeded,
    Failed,
    Cancelled,
    Lost,
}

impl ProcessStatus {
    /// The process is over.
    pub open spec fn terminal(self) -> bool {
        !(self is Starting) && !(self is Running)
    }

    /// The steps that the life of a process is made of: it starts, runs, and ends in one of
    /// four ways; one that never ran has failed.
    pub open spec fn may_become(self, next: Self) -> bool {
        match self {
            ProcessStatus::Starting => next is Running || next is Failed,
            ProcessStatus::Running => next.terminal(),
            _ => false,
        }
    }

    pub open spec fn word(self) -> Seq<char> {
        match self {
            ProcessStatus::Starting => "Starting"@,
            ProcessStatus::Running => "Running"@,
            ProcessStatus::Succeeded => "Succeeded"@,
            ProcessStatus::Failed => "Failed"@,
            ProcessStatus::Cancelled => "Cancelled"@,
            ProcessStatus::Lost => "Lost"@,
        }
    }

    pub fn is_terminal(&self) -> (r: bool)
        ensures
            r == self.terminal(),
    {
        matches!(
            self,
            ProcessStatus::Succeeded | ProcessStatus::Failed | ProcessStatus::Cancelled
                | ProcessStatus::Lost
        )
    }

    pub fn can_transition_to(&self, next: Self) -> (r: bool)
        ensures
            r == self.may_become(next),
    {
        match self {
            ProcessStatus::Starting => matches!(
                next,
                ProcessStatus::Running | ProcessStatus::Failed
            ),
            ProcessStatus::Running => next.is_terminal(),
            ProcessStatus::Succeeded | ProcessStatus::Failed | ProcessStatus::Cancelled
            | ProcessStatus::Lost => false,
        }
    }

    /// The name of the status.
    pub fn name(&self) -> (r: &'static str)
        ensures
            r@ == self.word(),
    {
        match self {
            ProcessStatus::Starting => "Starting",
            ProcessStatus::Running => "Running",
            ProcessStatus::Succeeded => "Succeeded",
            ProcessStatus::Failed => "Failed",
            ProcessStatus::Cancelled => "Cancelled",
            ProcessStatus::Lost => "Lost",
        }
    }
}

/// A process that is over stays as it is: no step leads out of a terminal status, and no step
/// leads from a status to itself.
pub proof fn terminal_statuses_are_final(from: ProcessStatus, to: ProcessStatus)
    ensures
        from.terminal() ==> !from.may_become(to),
        !from.may_become(from),
        !from.terminal() ==> from.may_become(ProcessStatus::Failed),
{
}

#[derive(Debug, PartialEq, Eq)]
pub struct ProcessInfo {
    pub id: ProcessId,
    pub sandbox_id: SandboxId,
    pub requested_sandbox_id: Option<SandboxId>,
    pub disposition: ProcessDisposition,
    pub destroy_sandbox_on_expiry: bool,
    pub command: Vec<String>,
    pub status: ProcessStatus,
    pub stdout_path: String,
    pub stderr_path: String,
    pub backend_pid: Option<u32>,
    pub exit_code: Option<i32>,
    pub started_at: Timestamp,
    pub finished_at: Option<Timestamp>,
    pub expires_at: Option<Timestamp>,
}

/// A process as a value.
#[verifier::ext_equal]
pub struct ProcessModel {
    pub id: ProcessId,
    pub sandbox_id: SandboxId,
    pub requested_sandbox_id: Option<SandboxId>,
    pub disposition: ProcessDisposition,
    pub destroy_sandbox_on_expiry: bool,
    pub command: Seq<Seq<char>>,
    pub status: ProcessStatus,
    pub stdout_path: Seq<char>,
    pub stderr_path: Seq<char>,
    pub backend_pid: Option<u32>,
    pub exit_code: Option<i32>,
    pub started_at: TimeModel,
    pub finished_at: Option<TimeModel>,
    pub expires_at: Option<TimeModel>,
}

pub open spec fn opt_time(t: Option<Timestamp>) -> Option<TimeModel> {
    match t {
        Some(t) => Some(t@),
        None => None,
    }
}

impl View for ProcessInfo {
    type V = ProcessModel;

    open spec fn view(&self) -> ProcessModel {
        ProcessModel {
            id: self.id,
            sandbox_id: self.sandbox_id,
            requested_sandbox_id: self.requested_sandbox_id,
            disposition: self.disposition,
            destroy_sandbox_on_expiry: self.destroy_sandbox_on_expiry,
            command: views(self.command@),
            status: self.status,
            stdout_path: self.stdout_path@,
            stderr_path: self.stderr_path@,
            backend_pid: self.backend_pid,
            exit_code: self.exit_code,
            started_at: self.started_at@,
            finished_at: opt_time(self.finished_at),
            expires_at: opt_time(self.expires_at),
        }
    }
}

impl Clone for ProcessInfo {
    fn clone(&self) -> (r: Self)
        ensures
            r@ == self@,
    {
        ProcessInfo {
            id: self.id,
            sandbox_id: self.sandbox_id,
            requested_sandbox_id: self.requested_sandbox_id,
            disposition: self.disposition,
            destroy_sandbox_on_expiry: self.destroy_sandbox_on_expiry,
            command: clone_texts(&self.command),
            status: self.status,
            stdout_path: self.stdout_path.clone(),
            stderr_path: self.stderr_path.clone(),
            backend_pid: self.backend_pid,
            exit_code: self.exit_code,
            started_at: self.started_at,
            finished_at: self.finished_at,
            expires_at: self.expires_at,
        }
    }
}

fn same_opt_time(a: &Option<Timestamp>, b: &Option<Timestamp>) -> (r: bool)
    ensures
        r == (opt_time(*a) == opt_time(*b)),
{
    match (a, b) {
        (Some(x), Some(y)) => x.same_time(y),
        (None, None) => true,
        _ => false,
    }
}

fn same_opt_sandbox(a: &Option<SandboxId>, b: &Option<SandboxId>) -> (r: bool)
    ensures
        r == (*a == *b),
{
    match (a, b) {
        (Some(x), Some(y)) => *x == *y,
        (None, None) => true,
        _ => false,
    }
}

fn same_opt_u32(a: &Option<u32>, b: &Option<u32>) -> (r: bool)
    ensures
        r == (*a == *b),
{
    match (a, b) {
        (Some(x), Some(y)) => *x == *y,
        (None, None) => true,
        _ => false,
    }
}

fn same_opt_i32(a: &Option<i32>, b: &Option<i32>) -> (r: bool)
    ensures
        r == (*a == *b),
{
    match (a, b) {
        (Some(x), Some(y)) => *x == *y,
        (None, None) => true,
        _ => false,
    }
}

impl ProcessInfo {
    /// Whether two processes are the same in every respect.
    pub fn same_process(&self, other: &ProcessInfo) -> (r: bool)
        ensures
            r == (self@ == other@),
    {
        self.id == other.id && self.sandbox_id == other.sandbox_id && same_opt_sandbox(
            &self.requested_sandbox_id,
            &other.requested_sandbox_id,
        ) && self.disposition == other.disposition && self.destroy_sandbox_on_expiry
            == other.destroy_sandbox_on_expiry && same_texts(&self.command, &other.command)
            && self.status == other.status && same(
            self.stdout_path.as_str(),
            other.stdout_path.as_str(),
        ) && same(self.stderr_path.as_str(), other.stderr_path.as_str()) && same_opt_u32(
            &self.backend_pid,
            &other.backend_pid,
        ) && same_opt_i32(&self.exit_code, &other.exit_code) && self.started_at.same_time(
            &other.started_at,
        ) && same_opt_time(&self.finished_at, &other.finished_at) && same_opt_time(
            &self.expires_at,
            &other.expires_at,
        )
    }
}

#[derive(Debug, Clone, PartialEq, Eq)]
pub struct ProcessLogRead {
    pub stream: StreamName,
    pub offset: u64,
    pub next_offset: u64,
    pub eof: bool,
    pub contents: String,
}

#[derive(Debug, PartialEq, Eq)]
pub struct ExecTrace {
    pub request: ExecRequest,
    pub outcome: ExecOutcome,
    pub status: ExecStatus,
    pub stream: Vec<StreamChunk>,
}

impl ExecTrace {
    pub fn from_outcome(request: ExecRequest, outcome: ExecOutcome) -> (r: Self)
        ensures
            r.request == request,
            r.outcome == outcome,
            r.status == (if outcome.exit_code == 0 {
                ExecStatus::Success
            } else {
                ExecStatus::NonZeroExit
            }),
            r.stream@ == Seq::<StreamChunk>::empty(),
    {
        let status = if outcome.exit_code == 0 {
            ExecStatus::Success
        } else {
            ExecStatus::NonZeroExit
        };
        ExecTrace { request, outcome, status, stream: Vec::new() }
    }
}

} // verus!
