//! The directory of a sandbox that the agent works in.

use crate::error::{execution_failed, HyperboxError};
use crate::ids::hyphenated;
use crate::model::SandboxId;
use crate::paths::{absolute, below, is_absolute, join_path};
use crate::text::{cat2, cat4, clone_opt, opt_view};
use vstd::prelude::*;

verus! {

/// Where the agent finds a sandbox: a directory of its own, or a link to one that was given.
#[derive(Debug, Clone, PartialEq, Eq)]
pub struct AgentWorkspaceBinding {
    pub path: String,
    pub managed: bool,
    pub linked_workspace: bool,
}

impl AgentWorkspaceBinding {
    pub fn copy(&self) -> (r: Self)
        ensures
            r == *self,
    {
        AgentWorkspaceBinding {
            path: self.path.clone(),
            managed: self.managed,
            linked_workspace: self.linked_workspace,
        }
    }
}

/// What stands at a path.
#[derive(Debug, Clone, Copy, PartialEq, Eq, Structural)]
pub enum PathKind {
    Absent,
    Link,
    File,
    Directory,
    Other,
}

/// What is asked for while a directory is made ready.
#[derive(Debug, PartialEq, Eq)]
pub enum WorkspaceEffect {
    CreateDirAll(String),
    /// Say what stands at this path, without following it.
    Inspect(String),
    RemoveFile(String),
    RemoveDirAll(String),
    CurrentDir,
    Canonicalize(String),
    /// A link to the first path at the second one.
    Link(String, String),
}

/// What came of it.
#[derive(Debug)]
pub enum WorkspaceReply {
    Unit,
    Failed(String),
    Kind(PathKind),
    Dir(String),
    Canonical(String, bool),
}

#[derive(Debug)]
pub enum WorkspaceStep {
    Ask(WorkspaceEffect),
    Done(Result<AgentWorkspaceBinding, HyperboxError>),
    Stray,
}

pub open spec fn ws_fails(step: WorkspaceStep, text: Seq<char>) -> bool {
    step matches WorkspaceStep::Done(r) && execution_failed(r, text)
}

pub open spec fn ws_io(step: WorkspaceStep, text: Seq<char>) -> bool {
    step matches WorkspaceStep::Done(Err(HyperboxError::Io(s))) && s@ == text
}

pub open spec fn ws_makes(step: WorkspaceStep, path: Seq<char>) -> bool {
    step matches WorkspaceStep::Ask(WorkspaceEffect::CreateDirAll(p)) && p@ == path
}

/// A directory on its way. The first text is where it will stand, the second is the directory
/// that was given for it.
#[derive(Debug)]
pub enum PrepareWorkspace {
    MakingRoot(String, Option<String>),
    Inspecting(String, Option<String>),
    Removing(String, Option<String>),
    Locating(String, String),
    MakingGiven(String, String),
    Canonicalizing(String, String),
    Linking(String, String),
    Making(String),
    Over,
}

impl PrepareWorkspace {
    pub fn begin(agent_root: &str, id: SandboxId, workspace_dir: &Option<String>) -> (r: (
        Self,
        WorkspaceStep,
    ))
        ensures
            r.0 matches PrepareWorkspace::MakingRoot(path, given) && path@ == below(
                agent_root@,
                hyphenated(id.0),
            ) && opt_view(given) == opt_view(*workspace_dir),
            ws_makes(r.1, agent_root@),
    {
        let path = join_path(agent_root, id.text().as_str());
        (
            PrepareWorkspace::MakingRoot(path, clone_opt(workspace_dir)),
            WorkspaceStep::Ask(WorkspaceEffect::CreateDirAll(agent_root.to_owned())),
        )
    }

    /// The place is free: the given directory is found, or a new one is made.
    pub open spec fn fills(path: String, given: Option<String>, next: Self, step: WorkspaceStep)
     -> bool {
        match given {
            None => next == PrepareWorkspace::Making(path) && ws_makes(step, path@),
            Some(dir) => if absolute(dir@) {
                next == PrepareWorkspace::MakingGiven(path, dir) && ws_makes(step, dir@)
            } else {
                next == PrepareWorkspace::Locating(path, dir) && step == WorkspaceStep::Ask(
                    WorkspaceEffect::CurrentDir,
                )
            },
        }
    }

    /// What a reply leads to. What stood at the place goes first, but not what a link there
    /// leads to.
    pub open spec fn follows(self, reply: WorkspaceReply, next: Self, step: WorkspaceStep) -> bool {
        match (self, reply) {
            (PrepareWorkspace::Over, _) => next is Over && step is Stray,
            (PrepareWorkspace::MakingRoot(path, given), WorkspaceReply::Unit) => next
                == PrepareWorkspace::Inspecting(path, given) && (step matches WorkspaceStep::Ask(
                WorkspaceEffect::Inspect(p),
            ) && p@ == path@),
            (PrepareWorkspace::Inspecting(path, given), WorkspaceReply::Kind(kind)) => match kind {
                PathKind::Link | PathKind::File => next == PrepareWorkspace::Removing(path, given)
                    && (step matches WorkspaceStep::Ask(WorkspaceEffect::RemoveFile(p)) && p@
                    == path@),
                PathKind::Directory => next == PrepareWorkspace::Removing(path, given) && (step
                    matches WorkspaceStep::Ask(WorkspaceEffect::RemoveDirAll(p)) && p@ == path@),
                PathKind::Absent | PathKind::Other => Self::fills(path, given, next, step),
            },
            (PrepareWorkspace::Inspecting(path, _), WorkspaceReply::Failed(e)) => next is Over
                && ws_fails(step, "inspect path `"@ + path@ + "`: "@ + e@),
            (PrepareWorkspace::Removing(path, given), WorkspaceReply::Unit) => Self::fills(
                path,
                given,
                next,
                step,
            ),
            (PrepareWorkspace::Locating(path, dir), WorkspaceReply::Dir(current)) => (next
                matches PrepareWorkspace::MakingGiven(p, d) && p == path && d@ == below(
                current@,
                dir@,
            )) && ws_makes(step, below(current@, dir@)),
            (PrepareWorkspace::Locating(_, _), WorkspaceReply::Failed(e)) => next is Over
                && ws_fails(step, "resolve current dir: "@ + e@),
            (PrepareWorkspace::MakingGiven(path, dir), WorkspaceReply::Unit) => next
                == PrepareWorkspace::Canonicalizing(path, dir) && (step
                matches WorkspaceStep::Ask(WorkspaceEffect::Canonicalize(p)) && p@ == dir@),
            (PrepareWorkspace::Canonicalizing(path, _), WorkspaceReply::Canonical(dir, is_dir)) => if is_dir {
                next == PrepareWorkspace::Linking(path, dir) && (step
                    matches WorkspaceStep::Ask(WorkspaceEffect::Link(from, to)) && from@ == dir@
                    && to@ == path@)
            } else {
                next is Over && ws_fails(step, "workspace_dir must be a directory: "@ + dir@)
            },
            (PrepareWorkspace::Canonicalizing(_, dir), WorkspaceReply::Failed(e)) => next is Over
                && ws_fails(step, "canonicalize workspace `"@ + dir@ + "`: "@ + e@),
            (PrepareWorkspace::Linking(path, _), WorkspaceReply::Unit) => next is Over && step
                == WorkspaceStep::Done(
                Ok(AgentWorkspaceBinding { path, managed: false, linked_workspace: true }),
            ),
            (PrepareWorkspace::Linking(path, dir), WorkspaceReply::Failed(e)) => next is Over
                && ws_fails(
                step,
                "link agent sandbox path `"@ + path@ + "` -> `"@ + dir@ + "`: "@ + e@,
            ),
            (PrepareWorkspace::Making(path), WorkspaceReply::Unit) => next is Over && step
                == WorkspaceStep::Done(
                Ok(AgentWorkspaceBinding { path, managed: true, linked_workspace: false }),
            ),
            (_, WorkspaceReply::Failed(e)) => next is Over && ws_io(step, e@),
            _ => next == self && step is Stray,
        }
    }

    fn fail(text: String) -> (r: (Self, WorkspaceStep))
        ensures
            r.0 is Over,
            ws_fails(r.1, text@),
    {
        (PrepareWorkspace::Over, WorkspaceStep::Done(Err(HyperboxError::ExecutionFailed(text))))
    }

    fn fill(path: String, given: Option<String>) -> (r: (Self, WorkspaceStep))
        ensures
            Self::fills(path, given, r.0, r.1),
    {
        match given {
            None => {
                let asked = path.clone();
                (
                    PrepareWorkspace::Making(path),
                    WorkspaceStep::Ask(WorkspaceEffect::CreateDirAll(asked)),
                )
            },
            Some(dir) => {
                if is_absolute(dir.as_str()) {
                    let asked = dir.clone();
                    (
                        PrepareWorkspace::MakingGiven(path, dir),
                        WorkspaceStep::Ask(WorkspaceEffect::CreateDirAll(asked)),
                    )
                } else {
                    (
                        PrepareWorkspace::Locating(path, dir),
                        WorkspaceStep::Ask(WorkspaceEffect::CurrentDir),
                    )
                }
            },
        }
    }

    pub fn resume(self, reply: WorkspaceReply) -> (r: (Self, WorkspaceStep))
        ensures
            self.follows(reply, r.0, r.1),
    {
        match (self, reply) {
            (PrepareWorkspace::Over, _) => (PrepareWorkspace::Over, WorkspaceStep::Stray),
            (PrepareWorkspace::MakingRoot(path, given), WorkspaceReply::Unit) => {
                let asked = path.clone();
                (
                    PrepareWorkspace::Inspecting(path, given),
                    WorkspaceStep::Ask(WorkspaceEffect::Inspect(asked)),
                )
            },
            (PrepareWorkspace::Inspecting(path, given), WorkspaceReply::Kind(kind)) => match kind {
                PathKind::Link | PathKind::File => {
                    let asked = path.clone();
                    (
                        PrepareWorkspace::Removing(path, given),
                        WorkspaceStep::Ask(WorkspaceEffect::RemoveFile(asked)),
                    )
                },
                PathKind::Directory => {
                    let asked = path.clone();
                    (
                        PrepareWorkspace::Removing(path, given),
                        WorkspaceStep::Ask(WorkspaceEffect::RemoveDirAll(asked)),
                    )
                },
                PathKind::Absent | PathKind::Other => Self::fill(path, given),
            },
            (PrepareWorkspace::Inspecting(path, _), WorkspaceReply::Failed(e)) => Self::fail(
                cat4("inspect path `", path.as_str(), "`: ", e.as_str()),
            ),
            (PrepareWorkspace::Removing(path, given), WorkspaceReply::Unit) => Self::fill(
                path,
                given,
            ),
            (PrepareWorkspace::Locating(path, dir), WorkspaceReply::Dir(current)) => {
                let there = join_path(current.as_str(), dir.as_str());
                let asked = there.clone();
                (
                    PrepareWorkspace::MakingGiven(path, there),
                    WorkspaceStep::Ask(WorkspaceEffect::CreateDirAll(asked)),
                )
            },
            (PrepareWorkspace::Locating(_, _), WorkspaceReply::Failed(e)) => Self::fail(
                cat2("resolve current dir: ", e.as_str()),
            ),
            (PrepareWorkspace::MakingGiven(path, dir), WorkspaceReply::Unit) => {
                let asked = dir.clone();
                (
                    PrepareWorkspace::Canonicalizing(path, dir),
                    WorkspaceStep::Ask(WorkspaceEffect::Canonicalize(asked)),
                )
            },
            (PrepareWorkspace::Canonicalizing(path, _), WorkspaceReply::Canonical(dir, is_dir)) => {
                if is_dir {
                    let from = dir.clone();
                    let to = path.clone();
                    (
                        PrepareWorkspace::Linking(path, dir),
                        WorkspaceStep::Ask(WorkspaceEffect::Link(from, to)),
                    )
                } else {
                    Self::fail(cat2("workspace_dir must be a directory: ", dir.as_str()))
                }
            },
            (PrepareWorkspace::Canonicalizing(_, dir), WorkspaceReply::Failed(e)) => Self::fail(
                cat4("canonicalize workspace `", dir.as_str(), "`: ", e.as_str()),
            ),
            (PrepareWorkspace::Linking(path, _), WorkspaceReply::Unit) => (
                PrepareWorkspace::Over,
                WorkspaceStep::Done(
                    Ok(AgentWorkspaceBinding { path, managed: false, linked_workspace: true }),
                ),
            ),
            (PrepareWorkspace::Linking(path, dir), WorkspaceReply::Failed(e)) => {
                let head = cat4(
                    "link agent sandbox path `",
                    path.as_str(),
                    "` -> `",
                    dir.as_str(),
                );
                Self::fail(crate::text::cat3(head.as_str(), "`: ", e.as_str()))
            },
            (PrepareWorkspace::Making(path), WorkspaceReply::Unit) => (
                PrepareWorkspace::Over,
                WorkspaceStep::Done(
                    Ok(AgentWorkspaceBinding { path, managed: true, linked_workspace: false }),
                ),
            ),
            (_, WorkspaceReply::Failed(e)) => (
                PrepareWorkspace::Over,
                WorkspaceStep::Done(Err(HyperboxError::Io(e))),
            ),
            (state, _) => (state, WorkspaceStep::Stray),
        }
    }
}

/// How a directory is given up.
#[derive(Debug, PartialEq, Eq)]
pub enum CleanupPlan {
    /// The link goes; what it leads to stays.
    Unlink(String),
    RemoveTree(String),
    Nothing,
}

pub fn cleanup_plan(binding: &AgentWorkspaceBinding) -> (r: CleanupPlan)
    ensures
        if binding.linked_workspace {
            r matches CleanupPlan::Unlink(p) && p@ == binding.path@
        } else if binding.managed {
            r matches CleanupPlan::RemoveTree(p) && p@ == binding.path@
        } else {
            r is Nothing
        },
{
    if binding.linked_workspace {
        CleanupPlan::Unlink(binding.path.clone())
    } else if binding.managed {
        CleanupPlan::RemoveTree(binding.path.clone())
    } else {
        CleanupPlan::Nothing
    }
}

/// What came of giving a directory up.
#[derive(Debug)]
pub enum CleanupEnd {
    Removed,
    Absent,
    Failed(String),
}

/// A directory that is gone already counts as given up.
pub fn judge_cleanup(binding: &AgentWorkspaceBinding, end: CleanupEnd) -> (r: Result<
    (),
    HyperboxError,
>)
    ensures
        match end {
            CleanupEnd::Failed(e) => execution_failed(
                r,
                (if binding.linked_workspace {
                    "remove agent workspace link `"@
                } else {
                    "remove managed agent workspace `"@
                }) + binding.path@ + "`: "@ + e@,
            ),
            _ => r is Ok,
        },
{
    match end {
        CleanupEnd::Failed(e) => {
            let what = if binding.linked_workspace {
                "remove agent workspace link `"
            } else {
                "remove managed agent workspace `"
            };
            Err(
                HyperboxError::ExecutionFailed(
                    cat4(what, binding.path.as_str(), "`: ", e.as_str()),
                ),
            )
        },
        _ => Ok(()),
    }
}

/// A directory that was given to a sandbox is linked, never owned: giving it up removes the
/// link alone.
pub proof fn given_directories_are_only_linked(
    state: PrepareWorkspace,
    reply: WorkspaceReply,
    next: PrepareWorkspace,
    step: WorkspaceStep,
    binding: AgentWorkspaceBinding,
)
    requires
        state.follows(reply, next, step),
        step == WorkspaceStep::Done(Ok(binding)),
    ensures
        binding.managed != binding.linked_workspace,
        state is Linking <==> binding.linked_workspace,
{
}

/// A directory that was given for a sandbox is linked at the place of the sandbox, so that both are
/// one; without one the place is a directory of its own. A link that stood there goes without what
/// it leads to.
pub proof fn places_lead_to_the_given_directory(
    path: String,
    given: Option<String>,
    kind: PathKind,
    removing: PrepareWorkspace,
    first: WorkspaceStep,
    filling: PrepareWorkspace,
    second: WorkspaceStep,
    dir: String,
    linking: PrepareWorkspace,
    third: WorkspaceStep,
    last: PrepareWorkspace,
    told: WorkspaceStep,
)
    requires
        PrepareWorkspace::Inspecting(path, given).follows(
            WorkspaceReply::Kind(kind),
            removing,
            first,
        ),
        PrepareWorkspace::fills(path, given, filling, second),
        PrepareWorkspace::Canonicalizing(path, dir).follows(
            WorkspaceReply::Canonical(dir, true),
            linking,
            third,
        ),
        linking.follows(WorkspaceReply::Unit, last, told),
    ensures
        kind is Link || kind is File ==> (first matches WorkspaceStep::Ask(
            WorkspaceEffect::RemoveFile(p),
        ) && p@ == path@),
        kind is Directory ==> (first matches WorkspaceStep::Ask(WorkspaceEffect::RemoveDirAll(p))
            && p@ == path@),
        kind is Absent ==> !(first matches WorkspaceStep::Ask(WorkspaceEffect::RemoveFile(_)))
            && !(first matches WorkspaceStep::Ask(WorkspaceEffect::RemoveDirAll(_))),
        given is None ==> (second matches WorkspaceStep::Ask(WorkspaceEffect::CreateDirAll(p)) && p@
            == path@),
        given matches Some(d) ==> (absolute(d@) ==> (second matches WorkspaceStep::Ask(
            WorkspaceEffect::CreateDirAll(p),
        ) && p@ == d@)),
        given matches Some(d) ==> (!absolute(d@) ==> second == WorkspaceStep::Ask(
            WorkspaceEffect::CurrentDir,
        )),
        third matches WorkspaceStep::Ask(WorkspaceEffect::Link(from, to)) && from@ == dir@ && to@
            == path@,
        told matches WorkspaceStep::Done(Ok(binding)) && binding.path == path
            && binding.linked_workspace && !binding.managed,
{
}

} // verus!
