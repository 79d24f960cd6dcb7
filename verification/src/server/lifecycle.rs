//! Making, finding, saving and removing sandboxes.

use crate::config::{ConfigModel, SandboxConfig};
use crate::error::{sandbox_not_found, HyperboxError};
use crate::ids::hyphenated;
use crate::model::{SandboxId, SandboxInfo, SandboxLease};
use crate::order::{ordered, sort_stable};
use crate::process::{ProcessInfo, ProcessModel};
use crate::server::effects::{asks, fails, fails_with, Effect, Reply, Step};
use crate::server::processes::first_due;
use crate::server::state::{ServerState, StateModel};
use crate::snapshot::{ActiveSandboxRecord, SnapshotId, SnapshotMetadata};
use crate::text::{cat2, cat3, cat4, clone_opt, opt_view};
use vstd::prelude::*;

verus! {

/// The operation asks for a sandbox of this configuration.
pub open spec fn asks_create<T>(step: Step<T>, config: ConfigModel) -> bool {
    step matches Step::Ask(Effect::BackendCreate(c)) && c@ == config
}

/// The operation asks that a sandbox be remembered.
pub open spec fn asks_activate<T>(step: Step<T>, lease: SandboxLease, config: ConfigModel) -> bool {
    &&& step matches Step::Ask(Effect::StoreUpsertActive(id, c, t))
    &&& id == lease.id
    &&& c@ == config
    &&& t == lease.info.created_at
}

/// Taking up the sandboxes that are remembered from before.
#[derive(Debug)]
pub enum Hydrate {
    Listing,
    Verifying(Vec<ActiveSandboxRecord>, SandboxId, SandboxConfig, bool),
    Over,
}

impl Hydrate {
    pub fn begin() -> (r: (Self, Step<()>))
        ensures
            r.0 is Listing,
            asks(r.1, Effect::StoreListActive),
    {
        (Hydrate::Listing, Step::Ask(Effect::StoreListActive))
    }

    /// With records left the next one is verified; then hydration has succeeded, unless some
    /// record is to be tried again.
    pub open spec fn goes_on(
        left: Seq<ActiveSandboxRecord>,
        retry: bool,
        next: Self,
        step: Step<()>,
    ) -> bool {
        if left.len() > 0 {
            &&& next matches Hydrate::Verifying(rest, id, config, again)
            &&& rest@ == left.subrange(1, left.len() as int)
            &&& id == left[0].sandbox_id
            &&& config == left[0].config
            &&& again == retry
            &&& asks(step, Effect::Inspect(left[0].sandbox_id))
        } else if retry {
            next is Over && fails_with(step, "hydration incomplete; retrying on next request"@)
        } else {
            next is Over && step == Step::<()>::Done(Ok(()))
        }
    }

    /// What a reply leads to. A sandbox that is there is known again; one that is not is left
    /// out and its record stays; any other failure is tried again later.
    pub open spec fn follows(
        self,
        reply: Reply,
        next: Self,
        step: Step<()>,
        before: StateModel,
        after: StateModel,
    ) -> bool {
        match (self, reply) {
            (Hydrate::Listing, Reply::Records(list)) => Self::goes_on(list@, false, next, step)
                && after == before,
            (Hydrate::Verifying(left, id, config, retry), Reply::Info(_)) => Self::goes_on(
                left@,
                retry,
                next,
                step,
            ) && after == before.with_sandbox(id, config@),
            (
                Hydrate::Verifying(left, _, _, retry),
                Reply::Failed(HyperboxError::SandboxNotFound(_)),
            ) => Self::goes_on(left@, retry, next, step) && after == before,
            (Hydrate::Verifying(left, _, _, _), Reply::Failed(_)) => Self::goes_on(
                left@,
                true,
                next,
                step,
            ) && after == before,
            (Hydrate::Over, _) => next is Over && step is Stray && after == before,
            (_, Reply::Failed(e)) => next is Over && fails(step, e) && after == before,
            _ => next == self && step is Stray && after == before,
        }
    }

    fn go_on(left: Vec<ActiveSandboxRecord>, retry: bool) -> (r: (Self, Step<()>))
        ensures
            Self::goes_on(left@, retry, r.0, r.1),
    {
        let mut left = left;
        if left.len() > 0 {
            let ghost all = left@;
            let record = left.remove(0);
            assert(left@ =~= all.subrange(1, all.len() as int));
            let id = record.sandbox_id;
            (
                Hydrate::Verifying(left, id, record.config, retry),
                Step::Ask(Effect::Inspect(id)),
            )
        } else if retry {
            let m = "hydration incomplete; retrying on next request".to_owned();
            (Hydrate::Over, Step::Done(Err(HyperboxError::ExecutionFailed(m))))
        } else {
            (Hydrate::Over, Step::Done(Ok(())))
        }
    }

    pub fn resume(self, reply: Reply, state: &mut ServerState) -> (r: (Self, Step<()>))
        ensures
            self.follows(reply, r.0, r.1, old(state)@, final(state)@),
    {
        match (self, reply) {
            (Hydrate::Listing, Reply::Records(list)) => Self::go_on(list, false),
            (Hydrate::Verifying(left, id, config, retry), Reply::Info(_)) => {
                state.add_sandbox(id, config);
                Self::go_on(left, retry)
            },
            (
                Hydrate::Verifying(left, _, _, retry),
                Reply::Failed(HyperboxError::SandboxNotFound(_)),
            ) => Self::go_on(left, retry),
            (Hydrate::Verifying(left, _, _, _), Reply::Failed(_)) => Self::go_on(left, true),
            (Hydrate::Over, _) => (Hydrate::Over, Step::Stray),
            (_, Reply::Failed(e)) => (Hydrate::Over, Step::Done(Err(e))),
            (op, _) => (op, Step::Stray),
        }
    }
}

/// Making a sandbox.
#[derive(Debug)]
pub enum CreateSandbox {
    Hydrating(SandboxConfig),
    Validating(SandboxConfig),
    Making(SandboxConfig),
    Binding(SandboxConfig, SandboxLease),
    Activating(SandboxConfig, SandboxLease),
    Over,
}

impl CreateSandbox {
    pub fn begin(config: SandboxConfig) -> (r: (Self, Step<SandboxInfo>))
        ensures
            r.0 == CreateSandbox::Hydrating(config),
            asks(r.1, Effect::EnsureHydrated),
    {
        (CreateSandbox::Hydrating(config), Step::Ask(Effect::EnsureHydrated))
    }

    /// What a reply leads to, and what the server remembers after it. Nothing is made for a
    /// template that is not there or a configuration that the backend refuses; a sandbox that
    /// was made is bound to its name and remembered before it is handed out.
    pub open spec fn follows(
        self,
        reply: Reply,
        next: Self,
        step: Step<SandboxInfo>,
        before: StateModel,
        after: StateModel,
    ) -> bool {
        match (self, reply) {
            (CreateSandbox::Hydrating(config), Reply::Unit) => after == before
                && if before.templates.contains_key(config.template@) {
                &&& next == CreateSandbox::Validating(config)
                &&& step matches Step::Ask(Effect::ValidateConfig(c))
                &&& c@ == config@
            } else {
                &&& next is Over
                &&& step matches Step::Done(Err(HyperboxError::TemplateNotFound(n)))
                &&& n@ == config.template@
            },
            (CreateSandbox::Validating(config), Reply::Unit) => next == CreateSandbox::Making(
                config,
            ) && asks_create(step, config@) && after == before,
            (CreateSandbox::Making(config), Reply::Lease(lease)) => after == before
                && match config.affinity_name {
                Some(name) => {
                    &&& next == CreateSandbox::Binding(config, lease)
                    &&& step matches Step::Ask(Effect::StoreBind(n, id))
                    &&& n@ == name@
                    &&& id == lease.id
                },
                None => next == CreateSandbox::Activating(config, lease) && asks_activate(
                    step,
                    lease,
                    config@,
                ),
            },
            (CreateSandbox::Binding(config, lease), Reply::Unit) => next
                == CreateSandbox::Activating(config, lease) && asks_activate(step, lease, config@)
                && after == before,
            (CreateSandbox::Activating(config, lease), Reply::Unit) => next is Over && step
                == Step::<SandboxInfo>::Done(Ok(lease.info)) && after == before.with_sandbox(
                lease.id,
                config@,
            ).counted_create(),
            (CreateSandbox::Over, _) => next is Over && step is Stray && after == before,
            (_, Reply::Failed(e)) => next is Over && fails(step, e) && after == before,
            _ => next == self && step is Stray && after == before,
        }
    }

    fn activate(config: SandboxConfig, lease: SandboxLease) -> (r: (Self, Step<SandboxInfo>))
        ensures
            r.0 == CreateSandbox::Activating(config, lease),
            asks_activate(r.1, lease, config@),
    {
        let copy = config.clone();
        let id = lease.id;
        let at = lease.info.created_at;
        (
            CreateSandbox::Activating(config, lease),
            Step::Ask(Effect::StoreUpsertActive(id, copy, at)),
        )
    }

    pub fn resume(self, reply: Reply, state: &mut ServerState) -> (r: (Self, Step<SandboxInfo>))
        ensures
            self.follows(reply, r.0, r.1, old(state)@, final(state)@),
    {
        match (self, reply) {
            (CreateSandbox::Hydrating(config), Reply::Unit) => {
                match state.templates.ensure_exists(config.template.as_str()) {
                    Ok(()) => {
                        let copy = config.clone();
                        (CreateSandbox::Validating(config), Step::Ask(Effect::ValidateConfig(copy)))
                    },
                    Err(e) => (CreateSandbox::Over, Step::Done(Err(e))),
                }
            },
            (CreateSandbox::Validating(config), Reply::Unit) => {
                let copy = config.clone();
                (CreateSandbox::Making(config), Step::Ask(Effect::BackendCreate(copy)))
            },
            (CreateSandbox::Making(config), Reply::Lease(lease)) => {
                match clone_opt(&config.affinity_name) {
                    Some(name) => {
                        let id = lease.id;
                        (
                            CreateSandbox::Binding(config, lease),
                            Step::Ask(Effect::StoreBind(name, id)),
                        )
                    },
                    None => Self::activate(config, lease),
                }
            },
            (CreateSandbox::Binding(config, lease), Reply::Unit) => Self::activate(config, lease),
            (CreateSandbox::Activating(config, lease), Reply::Unit) => {
                state.add_sandbox(lease.id, config);
                state.count_create();
                (CreateSandbox::Over, Step::Done(Ok(lease.info)))
            },
            (CreateSandbox::Over, _) => (CreateSandbox::Over, Step::Stray),
            (_, Reply::Failed(e)) => (CreateSandbox::Over, Step::Done(Err(e))),
            (op, _) => (op, Step::Stray),
        }
    }
}

/// A sandbox that is handed out is one that the server knows.
pub proof fn created_sandboxes_are_known(
    op: CreateSandbox,
    reply: Reply,
    next: CreateSandbox,
    step: Step<SandboxInfo>,
    before: StateModel,
    after: StateModel,
)
    requires
        op.follows(reply, next, step, before, after),
    ensures
        step matches Step::Done(Ok(info)) ==> (op matches CreateSandbox::Activating(config, lease)
            && info == lease.info && after.sandboxes.contains_key(lease.id.0)
            && after.sandboxes[lease.id.0] == config@),
        !(step matches Step::Done(Ok(_))) ==> after == before,
{
}

/// Removing a sandbox with everything that runs in it.
#[derive(Debug)]
pub enum DestroySandbox {
    Hydrating(SandboxId),
    Listing(SandboxId),
    Refreshing(SandboxId, Vec<ProcessInfo>),
    Cancelling(SandboxId, Vec<ProcessInfo>, ProcessInfo),
    Purging(SandboxId, Vec<ProcessInfo>),
    Destroying(SandboxId),
    Unbinding(SandboxId),
    Deactivating(SandboxId),
    Over,
}

impl DestroySandbox {
    pub fn begin(id: SandboxId) -> (r: (Self, Step<()>))
        ensures
            r.0 == DestroySandbox::Hydrating(id),
            asks(r.1, Effect::EnsureHydrated),
    {
        (DestroySandbox::Hydrating(id), Step::Ask(Effect::EnsureHydrated))
    }

    /// The next process of the sandbox is brought up to date; without one the sandbox goes.
    pub open spec fn goes_on(
        id: SandboxId,
        list: Seq<ProcessInfo>,
        next: Self,
        step: Step<()>,
    ) -> bool {
        let k = first_due(list, |p: ProcessModel| p.sandbox_id == id);
        if k < list.len() {
            &&& next matches DestroySandbox::Refreshing(i, rest)
            &&& i == id
            &&& rest@ == list.subrange(k + 1, list.len() as int)
            &&& asks(step, Effect::Refresh(list[k]))
        } else {
            next == DestroySandbox::Destroying(id) && asks(step, Effect::BackendDestroy(id))
        }
    }

    /// What a reply leads to. Each process of the sandbox is cancelled where it still runs,
    /// whether or not that succeeds, and purged; then the sandbox goes, and last what is
    /// remembered of it.
    pub open spec fn follows(
        self,
        reply: Reply,
        next: Self,
        step: Step<()>,
        before: StateModel,
        after: StateModel,
    ) -> bool {
        match (self, reply) {
            (DestroySandbox::Hydrating(id), Reply::Unit) => next == DestroySandbox::Listing(id)
                && asks(step, Effect::StoreListProcesses) && after == before,
            (DestroySandbox::Listing(id), Reply::Processes(list)) => Self::goes_on(
                id,
                list@,
                next,
                step,
            ) && after == before,
            (DestroySandbox::Refreshing(id, rest), Reply::Process(p)) => after == before
                && if p.status.terminal() {
                next == DestroySandbox::Purging(id, rest) && asks(step, Effect::Purge(p))
            } else {
                next == DestroySandbox::Cancelling(id, rest, p) && asks(
                    step,
                    Effect::CancelProcess(p.id),
                )
            },
            (DestroySandbox::Cancelling(id, rest, p), Reply::Process(_))
            | (DestroySandbox::Cancelling(id, rest, p), Reply::Failed(_)) => next
                == DestroySandbox::Purging(id, rest) && asks(step, Effect::Purge(p)) && after
                == before,
            (DestroySandbox::Purging(id, rest), Reply::Unit) => Self::goes_on(
                id,
                rest@,
                next,
                step,
            ) && after == before,
            (DestroySandbox::Destroying(id), Reply::Unit) => next == DestroySandbox::Unbinding(id)
                && asks(step, Effect::StoreClearBinding(id)) && after == before.without_sandbox(id),
            (DestroySandbox::Unbinding(id), Reply::Unit) => next
                == DestroySandbox::Deactivating(id) && asks(step, Effect::StoreRemoveActive(id))
                && after == before,
            (DestroySandbox::Deactivating(_), Reply::Unit) => next is Over && step == Step::<
                (),
            >::Done(Ok(())) && after == before.counted_destroy(),
            (DestroySandbox::Over, _) => next is Over && step is Stray && after == before,
            (_, Reply::Failed(e)) => next is Over && fails(step, e) && after == before,
            _ => next == self && step is Stray && after == before,
        }
    }

    fn go_on(id: SandboxId, list: Vec<ProcessInfo>) -> (r: (Self, Step<()>))
        ensures
            Self::goes_on(id, list@, r.0, r.1),
    {
        let ghost due = |p: ProcessModel| p.sandbox_id == id;
        let mut rest = list;
        let ghost mut passed: int = 0;
        assert(list@.subrange(0, list@.len() as int) =~= list@);
        while rest.len() > 0
            invariant
                due == (|p: ProcessModel| p.sandbox_id == id),
                0 <= passed <= list@.len(),
                rest@ == list@.subrange(passed, list@.len() as int),
                first_due(list@, due) == passed + first_due(rest@, due),
            decreases rest@.len(),
        {
            let p = rest.remove(0);
            let ghost before = list@.subrange(passed, list@.len() as int);
            assert(rest@ =~= before.subrange(1, before.len() as int));
            assert(rest@ =~= list@.subrange(passed + 1, list@.len() as int));
            if p.sandbox_id == id {
                return (DestroySandbox::Refreshing(id, rest), Step::Ask(Effect::Refresh(p)));
            }
            proof {
                passed = passed + 1;
            }
        }
        (DestroySandbox::Destroying(id), Step::Ask(Effect::BackendDestroy(id)))
    }

    pub fn resume(self, reply: Reply, state: &mut ServerState) -> (r: (Self, Step<()>))
        ensures
            self.follows(reply, r.0, r.1, old(state)@, final(state)@),
    {
        match (self, reply) {
            (DestroySandbox::Hydrating(id), Reply::Unit) => (
                DestroySandbox::Listing(id),
                Step::Ask(Effect::StoreListProcesses),
            ),
            (DestroySandbox::Listing(id), Reply::Processes(list)) => Self::go_on(id, list),
            (DestroySandbox::Refreshing(id, rest), Reply::Process(p)) => {
                if p.status.is_terminal() {
                    (DestroySandbox::Purging(id, rest), Step::Ask(Effect::Purge(p)))
                } else {
                    let process_id = p.id;
                    (
                        DestroySandbox::Cancelling(id, rest, p),
                        Step::Ask(Effect::CancelProcess(process_id)),
                    )
                }
            },
            (DestroySandbox::Cancelling(id, rest, p), Reply::Process(_)) => (
                DestroySandbox::Purging(id, rest),
                Step::Ask(Effect::Purge(p)),
            ),
            (DestroySandbox::Cancelling(id, rest, p), Reply::Failed(_)) => (
                DestroySandbox::Purging(id, rest),
                Step::Ask(Effect::Purge(p)),
            ),
            (DestroySandbox::Purging(id, rest), Reply::Unit) => Self::go_on(id, rest),
            (DestroySandbox::Destroying(id), Reply::Unit) => {
                state.forget_sandbox(id);
                (DestroySandbox::Unbinding(id), Step::Ask(Effect::StoreClearBinding(id)))
            },
            (DestroySandbox::Unbinding(id), Reply::Unit) => (
                DestroySandbox::Deactivating(id),
                Step::Ask(Effect::StoreRemoveActive(id)),
            ),
            (DestroySandbox::Deactivating(_), Reply::Unit) => {
                state.count_destroy();
                (DestroySandbox::Over, Step::Done(Ok(())))
            },
            (DestroySandbox::Over, _) => (DestroySandbox::Over, Step::Stray),
            (_, Reply::Failed(e)) => (DestroySandbox::Over, Step::Done(Err(e))),
            (op, _) => (op, Step::Stray),
        }
    }
}

/// What is listed of a sandbox.
#[derive(Debug)]
pub struct ActiveSandboxInfo {
    pub info: SandboxInfo,
    pub affinity_name: Option<String>,
}

/// The order in which sandboxes are listed: the one that was made first comes first.
pub open spec fn made_earlier(a: ActiveSandboxInfo, b: ActiveSandboxInfo) -> bool {
    a.info.created_at@.before(b.info.created_at@)
}

pub open spec fn oldest_first(rows: Seq<ActiveSandboxInfo>) -> Seq<ActiveSandboxInfo> {
    ordered(rows, |a: ActiveSandboxInfo, b: ActiveSandboxInfo| made_earlier(a, b))
}

/// Sorting works on that order.
pub proof fn creation_times_have_an_order()
    ensures
        crate::order::is_order(|a: ActiveSandboxInfo, b: ActiveSandboxInfo| made_earlier(a, b)),
{
}

fn sort_oldest_first(rows: Vec<ActiveSandboxInfo>) -> (r: Vec<ActiveSandboxInfo>)
    ensures
        r@ == oldest_first(rows@),
{
    let earlier = |a: &ActiveSandboxInfo, b: &ActiveSandboxInfo| -> (r: bool)
        ensures
            r == made_earlier(*a, *b),
    { !b.info.created_at.at_or_before(&a.info.created_at) };
    sort_stable(
        rows,
        earlier,
        Ghost(|a: ActiveSandboxInfo, b: ActiveSandboxInfo| made_earlier(a, b)),
    )
}

/// Listing the sandboxes that are there.
#[derive(Debug)]
pub enum ListSandboxes {
    Hydrating,
    Inspecting(Vec<(SandboxId, Option<String>)>, Option<String>, Vec<ActiveSandboxInfo>),
    Over,
}

impl ListSandboxes {
    pub fn begin() -> (r: (Self, Step<Vec<ActiveSandboxInfo>>))
        ensures
            r.0 is Hydrating,
            asks(r.1, Effect::EnsureHydrated),
    {
        (ListSandboxes::Hydrating, Step::Ask(Effect::EnsureHydrated))
    }

    /// With sandboxes left the next one is inspected; then those that are there are listed,
    /// the oldest first.
    pub open spec fn goes_on(
        left: Seq<(SandboxId, Option<String>)>,
        rows: Seq<ActiveSandboxInfo>,
        next: Self,
        step: Step<Vec<ActiveSandboxInfo>>,
    ) -> bool {
        if left.len() > 0 {
            &&& next matches ListSandboxes::Inspecting(rest, name, kept)
            &&& rest@ == left.subrange(1, left.len() as int)
            &&& name == left[0].1
            &&& kept@ == rows
            &&& asks(step, Effect::Inspect(left[0].0))
        } else {
            &&& next is Over
            &&& step matches Step::Done(Ok(list))
            &&& list@ == oldest_first(rows)
        }
    }

    /// The names are those of the sandboxes that the server knows.
    pub open spec fn names_of(names: Seq<(SandboxId, Option<String>)>, state: StateModel) -> bool {
        &&& forall|i: int|
            0 <= i < names.len() ==> state.sandboxes.contains_key((#[trigger] names[i]).0.0)
                && state.sandboxes[names[i].0.0].affinity_name == opt_view(names[i].1)
        &&& forall|k: u128| #[trigger]
            state.sandboxes.contains_key(k) ==> exists|i: int|
                0 <= i < names.len() && (#[trigger] names[i]).0.0 == k
        &&& forall|i: int, j: int|
            0 <= i < j < names.len() ==> (#[trigger] names[i]).0 != (#[trigger] names[j]).0
    }

    /// What a reply leads to. Listing goes on without hydration where that failed, and leaves
    /// out sandboxes that cannot be inspected: it never fails.
    pub open spec fn follows(
        self,
        reply: Reply,
        next: Self,
        step: Step<Vec<ActiveSandboxInfo>>,
        state: StateModel,
    ) -> bool {
        match (self, reply) {
            (ListSandboxes::Hydrating, Reply::Unit) | (
                ListSandboxes::Hydrating,
                Reply::Failed(_),
            ) => exists|names: Seq<(SandboxId, Option<String>)>| #[trigger]
                Self::names_of(names, state) && Self::goes_on(
                    names,
                    Seq::<ActiveSandboxInfo>::empty(),
                    next,
                    step,
                ),
            (ListSandboxes::Inspecting(left, name, rows), Reply::Info(info)) => Self::goes_on(
                left@,
                rows@.push(ActiveSandboxInfo { info, affinity_name: name }),
                next,
                step,
            ),
            (ListSandboxes::Inspecting(left, _, rows), Reply::Failed(_)) => Self::goes_on(
                left@,
                rows@,
                next,
                step,
            ),
            _ => next == self && step is Stray,
        }
    }

    fn go_on(
        left: Vec<(SandboxId, Option<String>)>,
        rows: Vec<ActiveSandboxInfo>,
    ) -> (r: (Self, Step<Vec<ActiveSandboxInfo>>))
        ensures
            Self::goes_on(left@, rows@, r.0, r.1),
    {
        let mut left = left;
        if left.len() > 0 {
            let ghost all = left@;
            let (id, name) = left.remove(0);
            assert(left@ =~= all.subrange(1, all.len() as int));
            (ListSandboxes::Inspecting(left, name, rows), Step::Ask(Effect::Inspect(id)))
        } else {
            (ListSandboxes::Over, Step::Done(Ok(sort_oldest_first(rows))))
        }
    }

    pub fn resume(self, reply: Reply, state: &ServerState) -> (r: (
        Self,
        Step<Vec<ActiveSandboxInfo>>,
    ))
        ensures
            self.follows(reply, r.0, r.1, state@),
    {
        match (self, reply) {
            (ListSandboxes::Hydrating, Reply::Unit) => {
                let names = state.sandbox_names();
                assert(Self::names_of(names@, state@));
                Self::go_on(names, Vec::new())
            },
            (ListSandboxes::Hydrating, Reply::Failed(_)) => {
                let names = state.sandbox_names();
                assert(Self::names_of(names@, state@));
                Self::go_on(names, Vec::new())
            },
            (ListSandboxes::Inspecting(left, name, rows), Reply::Info(info)) => {
                let mut rows = rows;
                rows.push(ActiveSandboxInfo { info, affinity_name: name });
                Self::go_on(left, rows)
            },
            (ListSandboxes::Inspecting(left, _, rows), Reply::Failed(_)) => Self::go_on(left, rows),
            (op, _) => (op, Step::Stray),
        }
    }
}

/// Saving a sandbox.
#[derive(Debug)]
pub enum CreateSnapshot {
    Hydrating(SandboxId, Option<String>),
    Recording(SandboxId, Option<String>),
    Saving(SnapshotMetadata, Option<String>),
    Naming(SnapshotMetadata),
    Over,
}

impl CreateSnapshot {
    pub fn begin(sandbox_id: SandboxId, note: Option<String>) -> (r: (Self, Step<SnapshotMetadata>))
        ensures
            r.0 == CreateSnapshot::Hydrating(sandbox_id, note),
            asks(r.1, Effect::EnsureHydrated),
    {
        (CreateSnapshot::Hydrating(sandbox_id, note), Step::Ask(Effect::EnsureHydrated))
    }

    /// What a reply leads to. Only a sandbox that the server knows is saved; its name then
    /// stands for the snapshot.
    pub open spec fn follows(
        self,
        reply: Reply,
        next: Self,
        step: Step<SnapshotMetadata>,
        state: StateModel,
    ) -> bool {
        match (self, reply) {
            (
                CreateSnapshot::Hydrating(id, note),
                Reply::Unit,
            ) => if state.sandboxes.contains_key(id.0) {
                &&& next matches CreateSnapshot::Recording(i, name)
                &&& i == id
                &&& opt_view(name) == state.sandboxes[id.0].affinity_name
                &&& step matches Step::Ask(Effect::StoreCreateSnapshot(i2, config, n))
                &&& i2 == id
                &&& config@ == state.sandboxes[id.0]
                &&& n == note
            } else {
                &&& next is Over
                &&& step matches Step::Done(r)
                &&& sandbox_not_found(r, hyphenated(id.0))
            },
            (CreateSnapshot::Recording(id, name), Reply::Snapshot(s)) => next
                == CreateSnapshot::Saving(s, name) && asks(step, Effect::SaveArtifact(id, s.id)),
            (CreateSnapshot::Saving(s, Some(name)), Reply::Unit) => next == CreateSnapshot::Naming(
                s,
            ) && asks(step, Effect::StoreSetAffinitySnapshot(name, s.id)),
            (CreateSnapshot::Saving(s, None), Reply::Unit) => next is Over && step == Step::<
                SnapshotMetadata,
            >::Done(Ok(s)),
            (CreateSnapshot::Naming(s), Reply::Unit) => next is Over && step == Step::<
                SnapshotMetadata,
            >::Done(Ok(s)),
            (CreateSnapshot::Over, _) => next is Over && step is Stray,
            (_, Reply::Failed(e)) => next is Over && fails(step, e),
            _ => next == self && step is Stray,
        }
    }

    pub fn resume(self, reply: Reply, state: &ServerState) -> (r: (Self, Step<SnapshotMetadata>))
        ensures
            self.follows(reply, r.0, r.1, state@),
    {
        match (self, reply) {
            (CreateSnapshot::Hydrating(id, note), Reply::Unit) => match state.sandbox_config(&id) {
                Ok(config) => {
                    let name = clone_opt(&config.affinity_name);
                    (
                        CreateSnapshot::Recording(id, name),
                        Step::Ask(Effect::StoreCreateSnapshot(id, config, note)),
                    )
                },
                Err(e) => (CreateSnapshot::Over, Step::Done(Err(e))),
            },
            (CreateSnapshot::Recording(id, name), Reply::Snapshot(s)) => {
                let snapshot_id = s.id;
                (
                    CreateSnapshot::Saving(s, name),
                    Step::Ask(Effect::SaveArtifact(id, snapshot_id)),
                )
            },
            (CreateSnapshot::Saving(s, Some(name)), Reply::Unit) => {
                let snapshot_id = s.id;
                (
                    CreateSnapshot::Naming(s),
                    Step::Ask(Effect::StoreSetAffinitySnapshot(name, snapshot_id)),
                )
            },
            (CreateSnapshot::Saving(s, None), Reply::Unit) => (
                CreateSnapshot::Over,
                Step::Done(Ok(s)),
            ),
            (CreateSnapshot::Naming(s), Reply::Unit) => (CreateSnapshot::Over, Step::Done(Ok(s))),
            (CreateSnapshot::Over, _) => (CreateSnapshot::Over, Step::Stray),
            (_, Reply::Failed(e)) => (CreateSnapshot::Over, Step::Done(Err(e))),
            (op, _) => (op, Step::Stray),
        }
    }
}

/// Making a sandbox from a snapshot.
#[derive(Debug)]
pub enum RestoreSnapshot {
    Hydrating(SnapshotId),
    Reading(SnapshotId),
    Locating(SnapshotId, SnapshotMetadata),
    Restoring(SandboxConfig),
    Binding(SandboxConfig, SandboxLease),
    Activating(SandboxConfig, SandboxLease),
    Over,
}

impl RestoreSnapshot {
    pub fn begin(id: SnapshotId) -> (r: (Self, Step<SandboxInfo>))
        ensures
            r.0 == RestoreSnapshot::Hydrating(id),
            asks(r.1, Effect::EnsureHydrated),
    {
        (RestoreSnapshot::Hydrating(id), Step::Ask(Effect::EnsureHydrated))
    }

    /// What a reply leads to. A sandbox is restored only from a snapshot that is recorded and
    /// whose file is there.
    pub open spec fn follows(
        self,
        reply: Reply,
        next: Self,
        step: Step<SandboxInfo>,
        before: StateModel,
        after: StateModel,
    ) -> bool {
        match (self, reply) {
            (RestoreSnapshot::Hydrating(id), Reply::Unit) => next == RestoreSnapshot::Reading(id)
                && asks(step, Effect::StoreGetSnapshot(id)) && after == before,
            (RestoreSnapshot::Reading(_), Reply::NoSnapshot) => next is Over && fails_with(
                step,
                "snapshot not found"@,
            ) && after == before,
            (RestoreSnapshot::Reading(id), Reply::Snapshot(s)) => {
                &&& next == RestoreSnapshot::Locating(id, s)
                &&& asks(step, Effect::FindArtifact(id))
                &&& after == before
            },
            (RestoreSnapshot::Locating(id, s), Reply::Artifact(path, exists_there)) => after
                == before && if exists_there {
                &&& next == RestoreSnapshot::Restoring(s.config)
                &&& step matches Step::Ask(Effect::RestoreArtifact(i, config))
                &&& i == id
                &&& config@ == s.config@
            } else {
                next is Over && fails_with(
                    step,
                    "snapshot artifact missing for "@ + hyphenated(id.0) + " at "@ + path@,
                )
            },
            (RestoreSnapshot::Restoring(config), Reply::Lease(lease)) => after == before
                && match config.affinity_name {
                Some(name) => {
                    &&& next == RestoreSnapshot::Binding(config, lease)
                    &&& step matches Step::Ask(Effect::StoreBind(n, id))
                    &&& n@ == name@
                    &&& id == lease.id
                },
                None => next == RestoreSnapshot::Activating(config, lease) && asks_activate(
                    step,
                    lease,
                    config@,
                ),
            },
            (RestoreSnapshot::Binding(config, lease), Reply::Unit) => next
                == RestoreSnapshot::Activating(config, lease) && asks_activate(
                step,
                lease,
                config@,
            ) && after == before,
            (RestoreSnapshot::Activating(config, lease), Reply::Unit) => next is Over && step
                == Step::<SandboxInfo>::Done(Ok(lease.info)) && after == before.with_sandbox(
                lease.id,
                config@,
            ).counted_create(),
            (RestoreSnapshot::Over, _) => next is Over && step is Stray && after == before,
            (_, Reply::Failed(e)) => next is Over && fails(step, e) && after == before,
            _ => next == self && step is Stray && after == before,
        }
    }

    fn activate(config: SandboxConfig, lease: SandboxLease) -> (r: (Self, Step<SandboxInfo>))
        ensures
            r.0 == RestoreSnapshot::Activating(config, lease),
            asks_activate(r.1, lease, config@),
    {
        let copy = config.clone();
        let id = lease.id;
        let at = lease.info.created_at;
        (
            RestoreSnapshot::Activating(config, lease),
            Step::Ask(Effect::StoreUpsertActive(id, copy, at)),
        )
    }

    pub fn resume(self, reply: Reply, state: &mut ServerState) -> (r: (Self, Step<SandboxInfo>))
        ensures
            self.follows(reply, r.0, r.1, old(state)@, final(state)@),
    {
        match (self, reply) {
            (RestoreSnapshot::Hydrating(id), Reply::Unit) => (
                RestoreSnapshot::Reading(id),
                Step::Ask(Effect::StoreGetSnapshot(id)),
            ),
            (RestoreSnapshot::Reading(_), Reply::NoSnapshot) => {
                let m = "snapshot not found".to_owned();
                (RestoreSnapshot::Over, Step::Done(Err(HyperboxError::ExecutionFailed(m))))
            },
            (RestoreSnapshot::Reading(id), Reply::Snapshot(s)) => (
                RestoreSnapshot::Locating(id, s),
                Step::Ask(Effect::FindArtifact(id)),
            ),
            (RestoreSnapshot::Locating(id, s), Reply::Artifact(path, exists_there)) => {
                if exists_there {
                    let copy = s.config.clone();
                    (
                        RestoreSnapshot::Restoring(s.config),
                        Step::Ask(Effect::RestoreArtifact(id, copy)),
                    )
                } else {
                    let id = id.text();
                    let m = cat4(
                        "snapshot artifact missing for ",
                        id.as_str(),
                        " at ",
                        path.as_str(),
                    );
                    (RestoreSnapshot::Over, Step::Done(Err(HyperboxError::ExecutionFailed(m))))
                }
            },
            (RestoreSnapshot::Restoring(config), Reply::Lease(lease)) => {
                match clone_opt(&config.affinity_name) {
                    Some(name) => {
                        let id = lease.id;
                        (
                            RestoreSnapshot::Binding(config, lease),
                            Step::Ask(Effect::StoreBind(name, id)),
                        )
                    },
                    None => Self::activate(config, lease),
                }
            },
            (RestoreSnapshot::Binding(config, lease), Reply::Unit) => Self::activate(config, lease),
            (RestoreSnapshot::Activating(config, lease), Reply::Unit) => {
                state.add_sandbox(lease.id, config);
                state.count_create();
                (RestoreSnapshot::Over, Step::Done(Ok(lease.info)))
            },
            (RestoreSnapshot::Over, _) => (RestoreSnapshot::Over, Step::Stray),
            (_, Reply::Failed(e)) => (RestoreSnapshot::Over, Step::Done(Err(e))),
            (op, _) => (op, Step::Stray),
        }
    }
}

/// Finding the sandbox that a name stands for.
#[derive(Debug)]
pub enum ResolveAffinity {
    Hydrating(String, bool),
    Reading(String, bool),
    Inspecting(String, bool, SandboxId, Option<SnapshotId>),
    Unbinding(String, bool, Option<SnapshotId>),
    Restoring,
    Over,
}

pub open spec fn affinity_not_found(name: Seq<char>) -> Seq<char> {
    "affinity not found: "@ + name
}

pub open spec fn affinity_not_active(name: Seq<char>) -> Seq<char> {
    "affinity `"@ + name + "` has no active sandbox"@
}

pub open spec fn affinity_not_saved(name: Seq<char>) -> Seq<char> {
    "affinity `"@ + name + "` has no snapshot to restore"@
}

impl ResolveAffinity {
    pub fn begin(name: String, restore_if_needed: bool) -> (r: (Self, Step<(SandboxInfo, bool)>))
        ensures
            r.0 == ResolveAffinity::Hydrating(name, restore_if_needed),
            asks(r.1, Effect::EnsureHydrated),
    {
        (ResolveAffinity::Hydrating(name, restore_if_needed), Step::Ask(Effect::EnsureHydrated))
    }

    /// Without a sandbox that runs, the name's snapshot is restored where that is wanted.
    pub open spec fn falls_back(
        name: Seq<char>,
        restore: bool,
        snapshot: Option<SnapshotId>,
        next: Self,
        step: Step<(SandboxInfo, bool)>,
    ) -> bool {
        if !restore {
            next is Over && fails_with(step, affinity_not_active(name))
        } else {
            match snapshot {
                Some(id) => next is Restoring && asks(step, Effect::RestoreSnapshot(id)),
                None => next is Over && fails_with(step, affinity_not_saved(name)),
            }
        }
    }

    /// What a reply leads to. A name whose sandbox cannot be inspected stands for it no more.
    pub open spec fn follows(
        self,
        reply: Reply,
        next: Self,
        step: Step<(SandboxInfo, bool)>,
    ) -> bool {
        match (self, reply) {
            (ResolveAffinity::Hydrating(name, restore), Reply::Unit) => {
                &&& next == ResolveAffinity::Reading(name, restore)
                &&& step matches Step::Ask(Effect::StoreGetAffinity(n))
                &&& n@ == name@
            },
            (ResolveAffinity::Reading(name, _), Reply::NoAffinity) => next is Over && fails_with(
                step,
                affinity_not_found(name@),
            ),
            (ResolveAffinity::Reading(name, restore), Reply::Affinity(a)) => match a.sandbox_id {
                Some(id) => next == ResolveAffinity::Inspecting(name, restore, id, a.snapshot_id)
                    && asks(step, Effect::Inspect(id)),
                None => Self::falls_back(name@, restore, a.snapshot_id, next, step),
            },
            (ResolveAffinity::Inspecting(_, _, _, _), Reply::Info(info)) => next is Over && step
                == Step::<(SandboxInfo, bool)>::Done(Ok((info, false))),
            (ResolveAffinity::Inspecting(name, restore, id, snapshot), Reply::Failed(_)) => next
                == ResolveAffinity::Unbinding(name, restore, snapshot) && asks(
                step,
                Effect::StoreClearBinding(id),
            ),
            (ResolveAffinity::Unbinding(name, restore, snapshot), Reply::Unit) => Self::falls_back(
                name@,
                restore,
                snapshot,
                next,
                step,
            ),
            (ResolveAffinity::Restoring, Reply::Info(info)) => next is Over && step == Step::<
                (SandboxInfo, bool),
            >::Done(Ok((info, true))),
            (ResolveAffinity::Over, _) => next is Over && step is Stray,
            (_, Reply::Failed(e)) => next is Over && fails(step, e),
            _ => next == self && step is Stray,
        }
    }

    fn fall_back(name: String, restore: bool, snapshot: Option<SnapshotId>) -> (r: (
        Self,
        Step<(SandboxInfo, bool)>,
    ))
        ensures
            Self::falls_back(name@, restore, snapshot, r.0, r.1),
    {
        if !restore {
            let m = cat3("affinity `", name.as_str(), "` has no active sandbox");
            return (ResolveAffinity::Over, Step::Done(Err(HyperboxError::ExecutionFailed(m))));
        }
        match snapshot {
            Some(id) => (ResolveAffinity::Restoring, Step::Ask(Effect::RestoreSnapshot(id))),
            None => {
                let m = cat3("affinity `", name.as_str(), "` has no snapshot to restore");
                (ResolveAffinity::Over, Step::Done(Err(HyperboxError::ExecutionFailed(m))))
            },
        }
    }

    pub fn resume(self, reply: Reply) -> (r: (Self, Step<(SandboxInfo, bool)>))
        ensures
            self.follows(reply, r.0, r.1),
    {
        match (self, reply) {
            (ResolveAffinity::Hydrating(name, restore), Reply::Unit) => {
                let copy = name.clone();
                (
                    ResolveAffinity::Reading(name, restore),
                    Step::Ask(Effect::StoreGetAffinity(copy)),
                )
            },
            (ResolveAffinity::Reading(name, _), Reply::NoAffinity) => {
                let m = cat2("affinity not found: ", name.as_str());
                (ResolveAffinity::Over, Step::Done(Err(HyperboxError::ExecutionFailed(m))))
            },
            (ResolveAffinity::Reading(name, restore), Reply::Affinity(a)) => match a.sandbox_id {
                Some(id) => (
                    ResolveAffinity::Inspecting(name, restore, id, a.snapshot_id),
                    Step::Ask(Effect::Inspect(id)),
                ),
                None => Self::fall_back(name, restore, a.snapshot_id),
            },
            (ResolveAffinity::Inspecting(_, _, _, _), Reply::Info(info)) => (
                ResolveAffinity::Over,
                Step::Done(Ok((info, false))),
            ),
            (ResolveAffinity::Inspecting(name, restore, id, snapshot), Reply::Failed(_)) => (
                ResolveAffinity::Unbinding(name, restore, snapshot),
                Step::Ask(Effect::StoreClearBinding(id)),
            ),
            (ResolveAffinity::Unbinding(name, restore, snapshot), Reply::Unit) => Self::fall_back(
                name,
                restore,
                snapshot,
            ),
            (ResolveAffinity::Restoring, Reply::Info(info)) => (
                ResolveAffinity::Over,
                Step::Done(Ok((info, true))),
            ),
            (ResolveAffinity::Over, _) => (ResolveAffinity::Over, Step::Stray),
            (_, Reply::Failed(e)) => (ResolveAffinity::Over, Step::Done(Err(e))),
            (op, _) => (op, Step::Stray),
        }
    }
}

/// A name is resolved without restoring anything unless that was asked for.
pub proof fn resolve_restores_only_on_request(
    op: ResolveAffinity,
    reply: Reply,
    next: ResolveAffinity,
    step: Step<(SandboxInfo, bool)>,
)
    requires
        op.follows(reply, next, step),
    ensures
        step matches Step::Ask(Effect::RestoreSnapshot(_)) ==> op.wants_restore(),
{
}

impl ResolveAffinity {
    /// A sandbox that does not run is to be restored.
    pub open spec fn wants_restore(self) -> bool {
        match self {
            ResolveAffinity::Hydrating(_, r) => r,
            ResolveAffinity::Reading(_, r) => r,
            ResolveAffinity::Inspecting(_, r, _, _) => r,
            ResolveAffinity::Unbinding(_, r, _) => r,
            _ => false,
        }
    }
}

} // verus!
