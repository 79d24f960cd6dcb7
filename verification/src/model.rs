//! Sandboxes, and what runs in them.

use crate::ids::{hyphenated, id_text, is_random_id, parse_id, random_id, uuid_parsed};
use crate::text::views;
use crate::time::Timestamp;
use vstd::prelude::*;

verus! {

#[derive(Debug, Clone, Copy, PartialEq, Eq, Hash, Structural)]
pub struct SandboxId(pub u128);

impl SandboxId {
    /// A new identifier, drawn at random.
    pub fn new() -> (r: Self)
        ensures
            is_random_id(r.0),
    {
        SandboxId(random_id())
    }

    /// The text of the identifier.
    pub fn text(&self) -> (r: String)
        ensures
            r@ == hyphenated(self.0),
    {
        id_text(self.0)
    }

    /// The identifier that a text stands for. It reads back what `text` wrote.
    pub fn parse(text: &str) -> (r: Result<Self, String>)
        ensures
            match r {
                Ok(id) => uuid_parsed(text@) == Ok::<u128, Seq<char>>(id.0),
                Err(e) => uuid_parsed(text@) == Err::<u128, Seq<char>>(e@),
            },
            forall|id: u128|
                text@ == #[trigger] hyphenated(id) ==> r == Ok::<Self, String>(SandboxId(id)),
    {
        match parse_id(text) {
            Ok(id) => Ok(SandboxId(id)),
            Err(e) => Err(e),
        }
    }
}

impl Default for SandboxId {
    fn default() -> (r: Self)
        ensures
            is_random_id(r.0),
    {
        SandboxId::new()
    }
}

#[derive(Debug, Clone, Copy, PartialEq, Eq, Structural)]
pub enum SandboxState {
    Provisioning,
    Ready,
    Busy,
    Stopped,
    Failed,
}

impl SandboxState {
    pub open spec fn word(self) -> Seq<char> {
        match self {
            SandboxState::Provisioning => "Provisioning"@,
            SandboxState::Ready => "Ready"@,
            SandboxState::Busy => "Busy"@,
            SandboxState::Stopped => "Stopped"@,
            SandboxState::Failed => "Failed"@,
        }
    }

    /// The name of the state.
    pub fn name(&self) -> (r: &'static str)
        ensures
            r@ == self.word(),
    {
        match self {
            SandboxState::Provisioning => "Provisioning",
            SandboxState::Ready => "Ready",
            SandboxState::Busy => "Busy",
            SandboxState::Stopped => "Stopped",
            SandboxState::Failed => "Failed",
        }
    }
}

#[derive(Debug, Clone, PartialEq, Eq)]
pub struct SandboxInfo {
    pub id: SandboxId,
    pub template: String,
    pub state: SandboxState,
    pub created_at: Timestamp,
}

impl SandboxInfo {
    /// A copy with the same identifier, template, state and time.
    pub fn copy(&self) -> (r: Self)
        ensures
            r == *self,
    {
        SandboxInfo {
            id: self.id,
            template: self.template.clone(),
            state: self.state,
            created_at: self.created_at,
        }
    }
}

#[derive(Debug, Clone, PartialEq, Eq)]
pub struct ExecRequest {
    pub command: Vec<String>,
    pub timeout_secs: u64,
}

/// A command to run, as a value.
#[verifier::ext_equal]
pub struct ExecModel {
    pub command: Seq<Seq<char>>,
    pub timeout_secs: u64,
}

impl View for ExecRequest {
    type V = ExecModel;

    open spec fn view(&self) -> ExecModel {
        ExecModel { command: views(self.command@), timeout_secs: self.timeout_secs }
    }
}

/// A script for the shell of a sandbox.
pub open spec fn shell_model(script: Seq<char>, timeout_secs: u64) -> ExecModel {
    ExecModel { command: seq!["/bin/sh"@, "-lc"@, script], timeout_secs }
}

impl ExecRequest {
    /// A script for the shell of a sandbox.
    pub fn shell(script: String, timeout_secs: u64) -> (r: Self)
        ensures
            r@ == shell_model(script@, timeout_secs),
    {
        let r = ExecRequest {
            command: vec!["/bin/sh".to_owned(), "-lc".to_owned(), script],
            timeout_secs,
        };
        assert(views(r.command@) =~= seq!["/bin/sh"@, "-lc"@, script@]);
        r
    }
}

#[derive(Debug, Clone, PartialEq, Eq)]
pub struct ExecOutcome {
    pub exit_code: i32,
    pub stdout: String,
    pub stderr: String,
    pub duration_ms: u128,
}

#[derive(Debug, Clone, PartialEq, Eq)]
pub enum StreamEvent {
    Stdout { chunk: String },
    Stderr { chunk: String },
    Exit { code: i32 },
}

/// A file of a sandbox: where it stands below the workspace, and what it holds.
#[derive(Debug, Clone, PartialEq, Eq)]
pub struct FilePayload {
    pub path: String,
    pub bytes: Vec<u8>,
}

/// A sandbox that a backend has just made.
#[derive(Debug, Clone, PartialEq, Eq)]
pub struct SandboxLease {
    pub id: SandboxId,
    pub info: SandboxInfo,
}

} // verus!
