//! Paths below the directory of a sandbox: none of them leads out of it.

use crate::agent::protocol::{fails_as, AgentFault, FaultCode};
use crate::paths::{below, join_path, names_below, relative_names, PathFault};
use crate::text::{cat2, views};
use vstd::prelude::*;

verus! {

/// What a path that leads out of the sandbox is refused with.
pub open spec fn fault_text(fault: PathFault) -> Seq<char> {
    match fault {
        PathFault::Absolute => "path must be relative to sandbox root"@,
        PathFault::Traversal => "path traversal outside sandbox root is not allowed"@,
        PathFault::Empty => "path cannot be empty"@,
    }
}

/// The names of a path below the directory of a sandbox.
pub fn normalize_relative_path(path: &str) -> (r: Result<Vec<String>, AgentFault>)
    ensures
        match names_below(path@) {
            Ok(names) => r matches Ok(list) && views(list@) == names,
            Err(fault) => fails_as(r, FaultCode::InvalidArgument, fault_text(fault)),
        },
{
    match relative_names(path) {
        Ok(list) => Ok(list),
        Err(PathFault::Absolute) => Err(
            AgentFault::new(FaultCode::InvalidArgument, "path must be relative to sandbox root"),
        ),
        Err(PathFault::Traversal) => Err(
            AgentFault::new(
                FaultCode::InvalidArgument,
                "path traversal outside sandbox root is not allowed",
            ),
        ),
        Err(PathFault::Empty) => Err(
            AgentFault::new(FaultCode::InvalidArgument, "path cannot be empty"),
        ),
    }
}

/// What is asked for on the way along a path.
#[derive(Debug, PartialEq, Eq)]
pub enum PathEffect {
    /// Say what stands at this path, without following it.
    Inspect(String),
    MakeDir(String),
}

/// What came of it.
#[derive(Debug)]
pub enum PathReply {
    /// Something stands there: whether it is a link, and whether it is a directory.
    Found(bool, bool),
    Absent,
    Unit,
    Failed(String),
}

#[derive(Debug)]
pub enum PathStep {
    Ask(PathEffect),
    Done(Result<String, AgentFault>),
    Stray,
}

pub open spec fn asks_inspect(step: PathStep, path: Seq<char>) -> bool {
    step matches PathStep::Ask(PathEffect::Inspect(p)) && p@ == path
}

pub open spec fn asks_make(step: PathStep, path: Seq<char>) -> bool {
    step matches PathStep::Ask(PathEffect::MakeDir(p)) && p@ == path
}

pub open spec fn path_refused(step: PathStep, code: FaultCode, text: Seq<char>) -> bool {
    step matches PathStep::Done(r) && fails_as(r, code, text)
}

/// The way along a path, one name after the other. `rest` is what comes after the place that
/// is looked at.
#[derive(Debug)]
pub enum ResolvePath {
    Inspecting { place: String, rest: Vec<String>, create_parents: bool },
    Making { place: String, rest: Vec<String>, create_parents: bool },
    Over,
}

impl ResolvePath {
    /// The next name is looked at; at the end of the path the place is handed out.
    pub open spec fn moves_on(
        place: Seq<char>,
        rest: Seq<Seq<char>>,
        create_parents: bool,
        next: Self,
        step: PathStep,
    ) -> bool {
        if rest.len() == 0 {
            next is Over && (step matches PathStep::Done(Ok(p)) && p@ == place)
        } else {
            let there = below(place, rest[0]);
            &&& next matches ResolvePath::Inspecting { place: p, rest: r, create_parents: c }
            &&& p@ == there
            &&& views(r@) == rest.subrange(1, rest.len() as int)
            &&& c == create_parents
            &&& asks_inspect(step, there)
        }
    }

    pub fn begin(root: &str, raw_path: &str, create_parents: bool) -> (r: (Self, PathStep))
        ensures
            match names_below(raw_path@) {
                Err(fault) => r.0 is Over && path_refused(
                    r.1,
                    FaultCode::InvalidArgument,
                    fault_text(fault),
                ),
                Ok(names) => Self::moves_on(root@, names, create_parents, r.0, r.1),
            },
    {
        match normalize_relative_path(raw_path) {
            Err(e) => (ResolvePath::Over, PathStep::Done(Err(e))),
            Ok(names) => Self::move_on(root.to_owned(), names, create_parents),
        }
    }

    /// What a reply leads to. A link anywhere on the way is refused, and so is something that
    /// is no directory before the end; a directory that is missing is made only where that is
    /// asked for.
    pub open spec fn follows(self, reply: PathReply, next: Self, step: PathStep) -> bool {
        match (self, reply) {
            (ResolvePath::Over, _) => next is Over && step is Stray,
            (
                ResolvePath::Inspecting { place, rest, create_parents },
                PathReply::Found(is_link, is_dir),
            ) => if is_link {
                next is Over && path_refused(
                    step,
                    FaultCode::PermissionDenied,
                    "symlink paths are not allowed in sandbox file operations"@,
                )
            } else if rest@.len() > 0 && !is_dir {
                next is Over && path_refused(
                    step,
                    FaultCode::FailedPrecondition,
                    "path component is not a directory"@,
                )
            } else {
                Self::moves_on(place@, views(rest@), create_parents, next, step)
            },
            (ResolvePath::Inspecting { place, rest, create_parents }, PathReply::Absent) => if rest@.len()
                == 0 {
                Self::moves_on(place@, views(rest@), create_parents, next, step)
            } else if create_parents {
                next == (ResolvePath::Making { place, rest, create_parents }) && asks_make(
                    step,
                    place@,
                )
            } else {
                next is Over && path_refused(step, FaultCode::NotFound, "path not found"@)
            },
            (ResolvePath::Inspecting { place: _, rest: _, create_parents: _ }, PathReply::Failed(
                e,
            )) => next is Over && path_refused(
                step,
                FaultCode::Internal,
                "inspect path failed: "@ + e@,
            ),
            (ResolvePath::Making { place, rest, create_parents }, PathReply::Unit) => Self::moves_on(
                place@,
                views(rest@),
                create_parents,
                next,
                step,
            ),
            (ResolvePath::Making { place: _, rest: _, create_parents: _ }, PathReply::Failed(e)) => next
                is Over && path_refused(
                step,
                FaultCode::Internal,
                "create directory failed: "@ + e@,
            ),
            _ => next == self && step is Stray,
        }
    }

    fn move_on(place: String, rest: Vec<String>, create_parents: bool) -> (r: (Self, PathStep))
        ensures
            Self::moves_on(place@, views(rest@), create_parents, r.0, r.1),
    {
        let mut rest = rest;
        if rest.len() == 0 {
            return (ResolvePath::Over, PathStep::Done(Ok(place)));
        }
        let ghost all = views(rest@);
        let name = rest.remove(0);
        assert(all[0] == name@);
        assert(views(rest@) =~= all.subrange(1, all.len() as int));
        let there = join_path(place.as_str(), name.as_str());
        let asked = there.clone();
        (
            ResolvePath::Inspecting { place: there, rest, create_parents },
            PathStep::Ask(PathEffect::Inspect(asked)),
        )
    }

    fn refuse(code: FaultCode, text: &str) -> (r: (Self, PathStep))
        ensures
            r.0 is Over,
            path_refused(r.1, code, text@),
    {
        (ResolvePath::Over, PathStep::Done(Err(AgentFault::new(code, text))))
    }

    pub fn resume(self, reply: PathReply) -> (r: (Self, PathStep))
        ensures
            self.follows(reply, r.0, r.1),
    {
        match (self, reply) {
            (ResolvePath::Over, _) => (ResolvePath::Over, PathStep::Stray),
            (
                ResolvePath::Inspecting { place, rest, create_parents },
                PathReply::Found(is_link, is_dir),
            ) => {
                if is_link {
                    Self::refuse(
                        FaultCode::PermissionDenied,
                        "symlink paths are not allowed in sandbox file operations",
                    )
                } else if rest.len() > 0 && !is_dir {
                    Self::refuse(
                        FaultCode::FailedPrecondition,
                        "path component is not a directory",
                    )
                } else {
                    Self::move_on(place, rest, create_parents)
                }
            },
            (ResolvePath::Inspecting { place, rest, create_parents }, PathReply::Absent) => {
                if rest.len() == 0 {
                    Self::move_on(place, rest, create_parents)
                } else if create_parents {
                    let asked = place.clone();
                    (
                        ResolvePath::Making { place, rest, create_parents },
                        PathStep::Ask(PathEffect::MakeDir(asked)),
                    )
                } else {
                    Self::refuse(FaultCode::NotFound, "path not found")
                }
            },
            (
                ResolvePath::Inspecting { place: _, rest: _, create_parents: _ },
                PathReply::Failed(e),
            ) => Self::refuse(
                FaultCode::Internal,
                cat2("inspect path failed: ", e.as_str()).as_str(),
            ),
            (ResolvePath::Making { place, rest, create_parents }, PathReply::Unit) => Self::move_on(
                place,
                rest,
                create_parents,
            ),
            (ResolvePath::Making { place: _, rest: _, create_parents: _ }, PathReply::Failed(e)) => {
                Self::refuse(
                    FaultCode::Internal,
                    cat2("create directory failed: ", e.as_str()).as_str(),
                )
            },
            (state, _) => (state, PathStep::Stray),
        }
    }
}

/// A link on the way ends the way: no path is handed out through it.
pub proof fn links_are_never_followed(
    state: ResolvePath,
    is_dir: bool,
    next: ResolvePath,
    step: PathStep,
)
    requires
        state is Inspecting,
        state.follows(PathReply::Found(true, is_dir), next, step),
    ensures
        next is Over,
        path_refused(
            step,
            FaultCode::PermissionDenied,
            "symlink paths are not allowed in sandbox file operations"@,
        ),
{
}

/// Directories are made only where that is asked for.
pub proof fn directories_are_made_on_request(
    state: ResolvePath,
    reply: PathReply,
    next: ResolvePath,
    step: PathStep,
    path: Seq<char>,
)
    requires
        state.follows(reply, next, step),
        asks_make(step, path),
    ensures
        state matches ResolvePath::Inspecting { place, rest, create_parents } && create_parents
            && place@ == path && rest@.len() > 0,
        reply is Absent,
{
}

/// A root joined with names, one after the other.
pub open spec fn joined(root: Seq<char>, names: Seq<Seq<char>>) -> Seq<char>
    decreases names.len(),
{
    if names.len() == 0 {
        root
    } else {
        below(joined(root, names.drop_last()), names.last())
    }
}

/// A way along a path: the states and steps that follow from each other by the replies, each of
/// which answers what was asked.
pub struct Walk {
    pub states: Seq<ResolvePath>,
    pub steps: Seq<PathStep>,
    pub replies: Seq<PathReply>,
}

impl Walk {
    pub open spec fn wf(self) -> bool {
        &&& self.states.len() == self.replies.len() + 1
        &&& self.steps.len() == self.replies.len() + 1
        &&& forall|i: int|
            0 <= i < self.replies.len() ==> self.states[i].follows(
                #[trigger] self.replies[i],
                self.states[i + 1],
                self.steps[i + 1],
            ) && !(self.steps[i + 1] is Stray)
    }

    /// The place after so many names was looked at.
    pub open spec fn looks_at(self, root: Seq<char>, names: Seq<Seq<char>>, count: int) -> bool {
        exists|i: int|
            0 <= i < self.steps.len() && asks_inspect(
                #[trigger] self.steps[i],
                joined(root, names.take(count)),
            )
    }

    /// How far the walk has come: so many names were taken.
    spec fn comes_along(
        self,
        root: Seq<char>,
        names: Seq<Seq<char>>,
        k: int,
        count: int,
    ) -> bool {
        &&& 0 <= count <= names.len()
        &&& forall|j: int| 1 <= j <= count ==> #[trigger] self.looks_at(root, names, j)
        &&& forall|i: int|
            0 <= i < k ==> !(#[trigger] self.replies[i] matches PathReply::Found(link, _) && link)
        &&& match self.states[k] {
            ResolvePath::Inspecting { place, rest, create_parents: _ } => {
                &&& place@ == joined(root, names.take(count))
                &&& views(rest@) == names.skip(count)
                &&& self.steps[k] is Ask
            },
            ResolvePath::Making { place, rest, create_parents: _ } => {
                &&& place@ == joined(root, names.take(count))
                &&& views(rest@) == names.skip(count)
                &&& self.steps[k] is Ask
            },
            ResolvePath::Over => self.steps[k] matches PathStep::Done(Ok(p)) && count == names.len()
                && p@ == joined(root, names),
        }
    }

    proof fn moves_along(
        self,
        root: Seq<char>,
        names: Seq<Seq<char>>,
        create_parents: bool,
        k: int,
        count: int,
    ) -> (r: int)
        requires
            self.wf(),
            0 <= k < self.steps.len(),
            0 <= count <= names.len(),
            forall|j: int| 1 <= j <= count ==> #[trigger] self.looks_at(root, names, j),
            forall|i: int|
                0 <= i < k ==> !(#[trigger] self.replies[i] matches PathReply::Found(link, _)
                    && link),
            ResolvePath::moves_on(
                joined(root, names.take(count)),
                names.skip(count),
                create_parents,
                self.states[k],
                self.steps[k],
            ),
        ensures
            self.comes_along(root, names, k, r),
    {
        assert(names.take(names.len() as int) =~= names);
        if count < names.len() {
            let longer = names.take(count + 1);
            assert(longer.drop_last() =~= names.take(count));
            assert(names.skip(count).subrange(1, names.len() - count) =~= names.skip(count + 1));
            assert(asks_inspect(self.steps[k], joined(root, longer)));
            assert(self.looks_at(root, names, count + 1));
            count + 1
        } else {
            count
        }
    }

    proof fn comes_far(
        self,
        root: Seq<char>,
        names: Seq<Seq<char>>,
        create_parents: bool,
        k: int,
    ) -> (r: Option<int>)
        requires
            self.wf(),
            ResolvePath::moves_on(
                root,
                names,
                create_parents,
                self.states[0],
                self.steps[0],
            ),
            0 <= k <= self.replies.len(),
        ensures
            match r {
                Some(count) => self.comes_along(root, names, k, count),
                None => self.states[k] is Over && (self.steps[k] matches PathStep::Done(done)
                    && done is Err),
            },
        decreases k,
    {
        if k == 0 {
            assert(names.take(0) =~= Seq::<Seq<char>>::empty());
            assert(names.skip(0) =~= names);
            Some(self.moves_along(root, names, create_parents, 0, 0))
        } else {
            let before = self.comes_far(root, names, create_parents, k - 1);
            let reply = self.replies[k - 1];
            let state = self.states[k - 1];
            assert(state.follows(reply, self.states[k], self.steps[k]));
            match before {
                None => None,
                Some(count) => {
                    if self.steps[k] is Done && self.steps[k]->Done_0 is Err {
                        None
                    } else if self.states[k] is Making {
                        Some(count)
                    } else {
                        let parents = match state {
                            ResolvePath::Inspecting { create_parents: c, .. } => c,
                            ResolvePath::Making { create_parents: c, .. } => c,
                            ResolvePath::Over => false,
                        };
                        Some(self.moves_along(root, names, parents, k, count))
                    }
                },
            }
        }
    }
}

/// A path that is handed out is the root joined with the names of the request. Every place on the
/// way to it was looked at, and none of them was a link.
pub proof fn paths_lead_below_the_root(
    root: Seq<char>,
    names: Seq<Seq<char>>,
    create_parents: bool,
    walk: Walk,
    path: String,
)
    requires
        walk.wf(),
        ResolvePath::moves_on(root, names, create_parents, walk.states[0], walk.steps[0]),
        walk.steps.last() == PathStep::Done(Ok(path)),
    ensures
        path@ == joined(root, names),
        forall|j: int| 1 <= j <= names.len() ==> #[trigger] walk.looks_at(root, names, j),
        forall|i: int|
            0 <= i < walk.replies.len() ==> !(#[trigger] walk.replies[i] matches PathReply::Found(
                link,
                _,
            ) && link),
{
    let far = walk.comes_far(root, names, create_parents, walk.replies.len() as int);
}

} // verus!
