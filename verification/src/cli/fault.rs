//! What goes wrong in the command line program.

use crate::ids::uuid_parsed;
use crate::model::SandboxId;
use crate::process::ProcessId;
use crate::snapshot::SnapshotId;
use vstd::prelude::*;

verus! {

/// A failure: what it says, and what led to it.
#[derive(Debug, Clone, PartialEq, Eq)]
pub struct Fault {
    pub message: String,
    pub cause: Option<String>,
}

impl Fault {
    pub open spec fn says(self, text: Seq<char>) -> bool {
        self.message@ == text && self.cause is None
    }

    /// A failure with something said in front of it.
    pub open spec fn wraps(self, text: Seq<char>, inner: Fault) -> bool {
        self.message@ == text && self.cause == Some(inner.message)
    }

    pub fn new(text: String) -> (r: Self)
        ensures
            r.says(text@),
            r.message == text,
    {
        Fault { message: text, cause: None }
    }

    pub fn within(self, text: String) -> (r: Self)
        ensures
            r.wraps(text@, self),
    {
        Fault { message: text, cause: Some(self.message) }
    }
}

/// The result is this failure.
pub open spec fn fails_saying<T>(r: Result<T, Fault>, text: Seq<char>) -> bool {
    r matches Err(f) && f.says(text)
}

/// The result is this failure, with what led to it.
pub open spec fn fails_wrapping<T>(r: Result<T, Fault>, text: Seq<char>, inner: Fault) -> bool {
    r matches Err(f) && f.wraps(text, inner)
}

/// The result is a failure with this message and this cause.
pub open spec fn fails_because<T>(r: Result<T, Fault>, text: Seq<char>, cause: Seq<char>) -> bool {
    r matches Err(f) && f.message@ == text && (f.cause matches Some(c) && c@ == cause)
}

/// The complaint about an identifier that is none.
pub open spec fn id_complaint(what: Seq<char>, raw: Seq<char>) -> Seq<char> {
    "invalid "@ + what + " id `"@ + raw + "`: expected UUID"@
}

fn bad_id(what: &str, raw: &str, e: String) -> (r: Fault)
    ensures
        r.message@ == id_complaint(what@, raw@),
        r.cause == Some(e),
{
    Fault {
        message: crate::text::cat5("invalid ", what, " id `", raw, "`: expected UUID"),
        cause: Some(e),
    }
}

pub fn parse_sandbox_id(raw: &str) -> (r: Result<SandboxId, Fault>)
    ensures
        match uuid_parsed(raw@) {
            Ok(id) => r == Ok::<SandboxId, Fault>(SandboxId(id)),
            Err(e) => fails_because(r, id_complaint("sandbox"@, raw@), e),
        },
{
    match SandboxId::parse(raw) {
        Ok(id) => Ok(id),
        Err(e) => Err(bad_id("sandbox", raw, e)),
    }
}

pub fn parse_process_id(raw: &str) -> (r: Result<ProcessId, Fault>)
    ensures
        match uuid_parsed(raw@) {
            Ok(id) => r == Ok::<ProcessId, Fault>(ProcessId(id)),
            Err(e) => fails_because(r, id_complaint("process"@, raw@), e),
        },
{
    match ProcessId::parse(raw) {
        Ok(id) => Ok(id),
        Err(e) => Err(bad_id("process", raw, e)),
    }
}

pub fn parse_snapshot_id(raw: &str) -> (r: Result<SnapshotId, Fault>)
    ensures
        match uuid_parsed(raw@) {
            Ok(id) => r == Ok::<SnapshotId, Fault>(SnapshotId(id)),
            Err(e) => fails_because(r, id_complaint("snapshot"@, raw@), e),
        },
{
    match SnapshotId::parse(raw) {
        Ok(id) => Ok(id),
        Err(e) => Err(bad_id("snapshot", raw, e)),
    }
}

} // verus!
