//! The snapshot commands.

use crate::cli::fault::{
    fails_because, fails_saying, id_complaint, parse_sandbox_id, parse_snapshot_id, Fault,
};
use crate::ids::uuid_parsed;
use crate::model::{SandboxId, SandboxInfo};
use crate::snapshot::{SnapshotId, SnapshotMetadata};
use vstd::prelude::*;

verus! {

#[derive(Debug, Clone, PartialEq, Eq)]
pub enum SnapshotCommand {
    Create { sandbox_id: Option<String>, name: Option<String>, note: Option<String> },
    Restore { snapshot_id: String },
    List { template: Option<String> },
}

/// What is asked for during a command.
#[derive(Debug, PartialEq, Eq)]
pub enum SnapshotEffect {
    /// The sandbox of a name, without bringing it back.
    ResolveAffinity(String),
    Create(SandboxId, Option<String>),
    Restore(SnapshotId),
    List(String),
}

/// What came of it.
#[derive(Debug)]
pub enum SnapshotReply {
    Sandbox(SandboxInfo),
    /// The snapshot, and when it was made.
    Created(SnapshotId, String),
    Snapshots(Vec<SnapshotMetadata>),
    Failed(Fault),
}

/// What a command comes to.
#[derive(Debug)]
pub enum SnapshotEnd {
    Created { snapshot_id: SnapshotId, sandbox_id: SandboxId, created_at: String },
    Restored(SandboxInfo),
    Listed(Vec<SnapshotMetadata>),
}

#[derive(Debug)]
pub enum SnapshotStep {
    Ask(SnapshotEffect),
    Done(Result<SnapshotEnd, Fault>),
    Stray,
}

/// A command on its way.
#[derive(Debug)]
pub enum RunSnapshot {
    Resolving(Option<String>),
    Creating(SandboxId),
    Restoring,
    Listing,
    Over,
}

impl RunSnapshot {
    /// What a command leads to.
    pub open spec fn begins(command: SnapshotCommand, next: Self, step: SnapshotStep) -> bool {
        match command {
            SnapshotCommand::Create { sandbox_id: Some(raw), name: _, note } => match uuid_parsed(
                raw@,
            ) {
                Ok(id) => next == RunSnapshot::Creating(SandboxId(id)) && step
                    == SnapshotStep::Ask(SnapshotEffect::Create(SandboxId(id), note)),
                Err(e) => next is Over && (step matches SnapshotStep::Done(done) && fails_because(
                    done,
                    id_complaint("sandbox"@, raw@),
                    e,
                )),
            },
            SnapshotCommand::Create { sandbox_id: None, name: Some(name), note } => next
                == RunSnapshot::Resolving(note) && step == SnapshotStep::Ask(
                SnapshotEffect::ResolveAffinity(name),
            ),
            SnapshotCommand::Create { sandbox_id: None, name: None, note: _ } => next is Over && (
            step matches SnapshotStep::Done(done) && fails_saying(
                done,
                "snapshot create requires either --sandbox-id or --name"@,
            )),
            SnapshotCommand::Restore { snapshot_id } => match uuid_parsed(snapshot_id@) {
                Ok(id) => next is Restoring && step == SnapshotStep::Ask(
                    SnapshotEffect::Restore(SnapshotId(id)),
                ),
                Err(e) => next is Over && (step matches SnapshotStep::Done(done) && fails_because(
                    done,
                    id_complaint("snapshot"@, snapshot_id@),
                    e,
                )),
            },
            SnapshotCommand::List { template } => next is Listing && (step
                matches SnapshotStep::Ask(SnapshotEffect::List(t)) && t@ == match template {
                Some(given) => given@,
                None => crate::config::default_config().template,
            }),
        }
    }

    pub fn begin(command: SnapshotCommand) -> (r: (Self, SnapshotStep))
        ensures
            Self::begins(command, r.0, r.1),
    {
        match command {
            SnapshotCommand::Create { sandbox_id: Some(raw), name: _, note } => {
                match parse_sandbox_id(raw.as_str()) {
                    Ok(id) => (
                        RunSnapshot::Creating(id),
                        SnapshotStep::Ask(SnapshotEffect::Create(id, note)),
                    ),
                    Err(f) => (RunSnapshot::Over, SnapshotStep::Done(Err(f))),
                }
            },
            SnapshotCommand::Create { sandbox_id: None, name: Some(name), note } => (
                RunSnapshot::Resolving(note),
                SnapshotStep::Ask(SnapshotEffect::ResolveAffinity(name)),
            ),
            SnapshotCommand::Create { sandbox_id: None, name: None, note: _ } => (
                RunSnapshot::Over,
                SnapshotStep::Done(
                    Err(
                        Fault::new(
                            "snapshot create requires either --sandbox-id or --name".to_owned(),
                        ),
                    ),
                ),
            ),
            SnapshotCommand::Restore { snapshot_id } => match parse_snapshot_id(
                snapshot_id.as_str(),
            ) {
                Ok(id) => (
                    RunSnapshot::Restoring,
                    SnapshotStep::Ask(SnapshotEffect::Restore(id)),
                ),
                Err(f) => (RunSnapshot::Over, SnapshotStep::Done(Err(f))),
            },
            SnapshotCommand::List { template } => {
                let template = match template {
                    Some(given) => given,
                    None => crate::config::SandboxConfig::default().template,
                };
                (RunSnapshot::Listing, SnapshotStep::Ask(SnapshotEffect::List(template)))
            },
        }
    }

    /// What a reply leads to.
    pub open spec fn follows(self, reply: SnapshotReply, next: Self, step: SnapshotStep) -> bool {
        match (self, reply) {
            (RunSnapshot::Over, _) => next is Over && step is Stray,
            (RunSnapshot::Resolving(note), SnapshotReply::Sandbox(info)) => next
                == RunSnapshot::Creating(info.id) && step == SnapshotStep::Ask(
                SnapshotEffect::Create(info.id, note),
            ),
            (RunSnapshot::Creating(sandbox_id), SnapshotReply::Created(snapshot_id, created_at)) => next
                is Over && step == SnapshotStep::Done(
                Ok(SnapshotEnd::Created { snapshot_id, sandbox_id, created_at }),
            ),
            (RunSnapshot::Restoring, SnapshotReply::Sandbox(info)) => next is Over && step
                == SnapshotStep::Done(Ok(SnapshotEnd::Restored(info))),
            (RunSnapshot::Listing, SnapshotReply::Snapshots(list)) => next is Over && step
                == SnapshotStep::Done(Ok(SnapshotEnd::Listed(list))),
            (_, SnapshotReply::Failed(f)) => next is Over && step == SnapshotStep::Done(Err(f)),
            _ => next == self && step is Stray,
        }
    }

    pub fn resume(self, reply: SnapshotReply) -> (r: (Self, SnapshotStep))
        ensures
            self.follows(reply, r.0, r.1),
    {
        match (self, reply) {
            (RunSnapshot::Over, _) => (RunSnapshot::Over, SnapshotStep::Stray),
            (RunSnapshot::Resolving(note), SnapshotReply::Sandbox(info)) => (
                RunSnapshot::Creating(info.id),
                SnapshotStep::Ask(SnapshotEffect::Create(info.id, note)),
            ),
            (RunSnapshot::Creating(sandbox_id), SnapshotReply::Created(snapshot_id, created_at)) => (
                RunSnapshot::Over,
                SnapshotStep::Done(
                    Ok(SnapshotEnd::Created { snapshot_id, sandbox_id, created_at }),
                ),
            ),
            (RunSnapshot::Restoring, SnapshotReply::Sandbox(info)) => (
                RunSnapshot::Over,
                SnapshotStep::Done(Ok(SnapshotEnd::Restored(info))),
            ),
            (RunSnapshot::Listing, SnapshotReply::Snapshots(list)) => (
                RunSnapshot::Over,
                SnapshotStep::Done(Ok(SnapshotEnd::Listed(list))),
            ),
            (_, SnapshotReply::Failed(f)) => (RunSnapshot::Over, SnapshotStep::Done(Err(f))),
            (state, _) => (state, SnapshotStep::Stray),
        }
    }
}

/// The sandbox that a command without a snapshot is about, given by number or by name.
#[derive(Debug, PartialEq, Eq)]
pub enum SandboxTarget {
    Known(SandboxId),
    Named(String),
}

/// The sandbox that is to be taken away.
pub fn destroy_target(sandbox_id: Option<String>, name: Option<String>) -> (r: Result<
    SandboxTarget,
    Fault,
>)
    ensures
        match sandbox_id {
            Some(raw) => match uuid_parsed(raw@) {
                Ok(id) => r == Ok::<SandboxTarget, Fault>(SandboxTarget::Known(SandboxId(id))),
                Err(e) => fails_because(r, id_complaint("sandbox"@, raw@), e),
            },
            None => match name {
                Some(n) => r == Ok::<SandboxTarget, Fault>(SandboxTarget::Named(n)),
                None => fails_saying(r, "destroy requires either --sandbox-id or --name"@),
            },
        },
{
    if let Some(raw) = sandbox_id {
        return match parse_sandbox_id(raw.as_str()) {
            Ok(id) => Ok(SandboxTarget::Known(id)),
            Err(f) => Err(f),
        };
    }
    match name {
        Some(n) => Ok(SandboxTarget::Named(n)),
        None => Err(Fault::new("destroy requires either --sandbox-id or --name".to_owned())),
    }
}

/// A snapshot is made of the sandbox that was meant, with the note that was given, whether the
/// sandbox is given by its identifier or by its name, and is told as that sandbox's. A restore asks
/// for the snapshot that was given and tells of the sandbox that came of it; a list asks for the
/// template that was given.
pub proof fn snapshots_are_of_what_was_meant(
    command: SnapshotCommand,
    state: RunSnapshot,
    step: SnapshotStep,
    found: SandboxInfo,
    second: RunSnapshot,
    then: SnapshotStep,
    id: SnapshotId,
    at: String,
    last: RunSnapshot,
    told: SnapshotStep,
)
    requires
        RunSnapshot::begins(command, state, step),
        state.follows(SnapshotReply::Sandbox(found), second, then),
        (if command matches SnapshotCommand::Create { sandbox_id: None, name: _, note: _ } {
            second
        } else {
            state
        }).follows(SnapshotReply::Created(id, at), last, told),
    ensures
        match command {
            SnapshotCommand::Create { sandbox_id, name, note } => {
                let meant = match sandbox_id {
                    Some(raw) => match uuid_parsed(raw@) {
                        Ok(n) => Some(SandboxId(n)),
                        Err(_) => None,
                    },
                    None => if name is Some {
                        Some(found.id)
                    } else {
                        None
                    },
                };
                let asked = if sandbox_id is Some {
                    step
                } else {
                    then
                };
                &&& meant matches Some(sandbox) ==> asked == SnapshotStep::Ask(
                    SnapshotEffect::Create(sandbox, note),
                ) && told == SnapshotStep::Done(
                    Ok(SnapshotEnd::Created { snapshot_id: id, sandbox_id: sandbox, created_at: at }),
                )
                &&& sandbox_id is None && name is Some ==> step == SnapshotStep::Ask(
                    SnapshotEffect::ResolveAffinity(name->Some_0),
                )
                &&& meant is None ==> (step matches SnapshotStep::Done(Err(_)))
            },
            SnapshotCommand::Restore { snapshot_id } => match uuid_parsed(snapshot_id@) {
                Ok(n) => step == SnapshotStep::Ask(SnapshotEffect::Restore(SnapshotId(n))) && then
                    == SnapshotStep::Done(Ok(SnapshotEnd::Restored(found))),
                Err(_) => step matches SnapshotStep::Done(Err(_)),
            },
            SnapshotCommand::List { template } => template matches Some(t) ==> (step
                matches SnapshotStep::Ask(SnapshotEffect::List(asked)) && asked@ == t@),
        },
{
}

} // verus!
