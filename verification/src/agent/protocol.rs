//! What goes between the agent and its callers.

use crate::model::{ExecOutcome, ExecRequest};
use vstd::prelude::*;

verus! {

#[derive(Debug, Clone, PartialEq, Eq)]
pub enum AgentRequest {
    Ping,
    Exec { request: ExecRequest },
    ReadFile { path: String },
    WriteFile { path: String, bytes: Vec<u8> },
}

#[derive(Debug, Clone, PartialEq, Eq)]
pub enum AgentResponse {
    Pong,
    ExecResult { outcome: ExecOutcome },
    FileData { bytes: Vec<u8> },
    Done,
    Error { message: String },
}

/// What kind of refusal a fault is.
#[derive(Debug, Clone, Copy, PartialEq, Eq, Structural)]
pub enum FaultCode {
    InvalidArgument,
    PermissionDenied,
    FailedPrecondition,
    NotFound,
    DeadlineExceeded,
    Internal,
}

/// A refusal.
#[derive(Debug, Clone, PartialEq, Eq)]
pub struct AgentFault {
    pub code: FaultCode,
    pub message: String,
}

impl AgentFault {
    pub open spec fn is(self, code: FaultCode, text: Seq<char>) -> bool {
        self.code == code && self.message@ == text
    }

    pub fn new(code: FaultCode, message: &str) -> (r: Self)
        ensures
            r.is(code, message@),
    {
        AgentFault { code, message: message.to_owned() }
    }
}

/// The refusal is this one.
pub open spec fn fails_as<T>(r: Result<T, AgentFault>, code: FaultCode, text: Seq<char>) -> bool {
    r matches Err(f) && f.is(code, text)
}

} // verus!
