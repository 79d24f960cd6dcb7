//! The errors that the library answers with.

use crate::text::cat2;
use vstd::prelude::*;

verus! {

#[derive(Debug, Clone, PartialEq, Eq)]
pub enum HyperboxError {
    InvalidConfig(String),
    TemplateNotFound(String),
    SandboxNotFound(String),
    ExecutionFailed(String),
    Io(String),
    Serde(String),
}

impl HyperboxError {
    /// What the error says after the words that name its kind.
    pub open spec fn detail(&self) -> Seq<char> {
        match self {
            HyperboxError::InvalidConfig(s) => s@,
            HyperboxError::TemplateNotFound(s) => s@,
            HyperboxError::SandboxNotFound(s) => s@,
            HyperboxError::ExecutionFailed(s) => s@,
            HyperboxError::Io(s) => s@,
            HyperboxError::Serde(s) => s@,
        }
    }

    /// The whole sentence.
    pub open spec fn text(&self) -> Seq<char> {
        match self {
            HyperboxError::InvalidConfig(s) => "invalid config: "@ + s@,
            HyperboxError::TemplateNotFound(s) => "template not found: "@ + s@,
            HyperboxError::SandboxNotFound(s) => "sandbox not found: "@ + s@,
            HyperboxError::ExecutionFailed(s) => "execution failed: "@ + s@,
            HyperboxError::Io(s) => "io error: "@ + s@,
            HyperboxError::Serde(s) => "serialization error: "@ + s@,
        }
    }

    /// The sentence that is shown for the error.
    pub fn message(&self) -> (r: String)
        ensures
            r@ == self.text(),
    {
        match self {
            HyperboxError::InvalidConfig(s) => cat2("invalid config: ", s.as_str()),
            HyperboxError::TemplateNotFound(s) => cat2("template not found: ", s.as_str()),
            HyperboxError::SandboxNotFound(s) => cat2("sandbox not found: ", s.as_str()),
            HyperboxError::ExecutionFailed(s) => cat2("execution failed: ", s.as_str()),
            HyperboxError::Io(s) => cat2("io error: ", s.as_str()),
            HyperboxError::Serde(s) => cat2("serialization error: ", s.as_str()),
        }
    }
}

/// The failure carries this configuration complaint.
pub open spec fn invalid_config<T>(r: Result<T, HyperboxError>, detail: Seq<char>) -> bool {
    r matches Err(HyperboxError::InvalidConfig(s)) && s@ == detail
}

/// The failure carries this execution complaint.
pub open spec fn execution_failed<T>(r: Result<T, HyperboxError>, detail: Seq<char>) -> bool {
    r matches Err(HyperboxError::ExecutionFailed(s)) && s@ == detail
}

/// The failure says that this sandbox is not there.
pub open spec fn sandbox_not_found<T>(r: Result<T, HyperboxError>, detail: Seq<char>) -> bool {
    r matches Err(HyperboxError::SandboxNotFound(s)) && s@ == detail
}

} // verus!
