//! A pool of sandboxes that are made ahead of time.

use crate::config::{ConfigModel, SandboxConfig};
use crate::model::SandboxId;
use crate::server::effects::{fails, Effect, Reply, Step};
use vstd::prelude::*;

verus! {

#[derive(Debug, Clone, Copy, PartialEq, Eq, Structural)]
pub struct PoolStats {
    pub available: usize,
    pub in_use: usize,
    pub target: usize,
}

/// Which sandboxes wait for a caller, in the order in which they will be handed out, and
/// which are with one. All of them are made with one configuration.
#[derive(Debug)]
pub struct WarmPoolManager {
    config: SandboxConfig,
    target_size: usize,
    available: Vec<SandboxId>,
    in_use: Vec<SandboxId>,
}

/// A pool as a value.
#[verifier::ext_equal]
pub struct PoolModel {
    pub config: ConfigModel,
    pub target: usize,
    pub available: Seq<SandboxId>,
    pub in_use: Set<SandboxId>,
}

impl View for WarmPoolManager {
    type V = PoolModel;

    closed spec fn view(&self) -> PoolModel {
        PoolModel {
            config: self.config@,
            target: self.target_size,
            available: self.available@,
            in_use: self.in_use@.to_set(),
        }
    }
}

/// What a caller who wants a sandbox from a pool gets.
#[derive(Debug, Clone, Copy, PartialEq, Eq, Structural)]
pub enum Checkout {
    /// This one.
    Ready(SandboxId),
    /// None yet: the pool is empty.
    Empty,
}

impl WarmPoolManager {
    #[verifier::type_invariant]
    spec fn wf(self) -> bool {
        self.in_use@.no_duplicates()
    }

    pub fn new(config: SandboxConfig, target_size: usize) -> (r: Self)
        ensures
            r@.config == config@,
            r@.target == target_size,
            r@.available == Seq::<SandboxId>::empty(),
            r@.in_use == Set::<SandboxId>::empty(),
            r@.in_use.finite(),
    {
        let r = WarmPoolManager { config, target_size, available: Vec::new(), in_use: Vec::new() };
        assert(r.in_use@.to_set() =~= Set::<SandboxId>::empty());
        r
    }

    /// Whether another sandbox is to be made before the pool is full.
    pub fn wants_more(&self) -> (r: bool)
        ensures
            r == (self@.available.len() < self@.target),
    {
        self.available.len() < self.target_size
    }

    /// The configuration of the sandboxes.
    pub fn config(&self) -> (r: SandboxConfig)
        ensures
            r@ == self@.config,
    {
        self.config.clone()
    }

    /// A sandbox has been made for the pool.
    pub fn put_back(&mut self, id: SandboxId)
        ensures
            final(self)@ == (PoolModel {
                available: old(self)@.available.push(id),
                ..old(self)@
            }),
    {
        proof {
            use_type_invariant(&*self);
        }
        let mut available: Vec<SandboxId> = Vec::new();
        std::mem::swap(&mut available, &mut self.available);
        available.push(id);
        self.available = available;
    }

    /// A sandbox goes to a caller: one that waited, or one that was restored in place of it.
    pub fn hand_out(&mut self, id: SandboxId)
        ensures
            final(self)@ == (PoolModel { in_use: old(self)@.in_use.insert(id), ..old(self)@ }),
            final(self)@.in_use.finite(),
    {
        proof {
            use_type_invariant(&*self);
        }
        let ghost before = self.in_use@;
        let mut i: usize = 0;
        while i < self.in_use.len()
            invariant
                self == old(self),
                before == self.in_use@,
                i <= self.in_use.len(),
                forall|k: int| 0 <= k < i ==> self.in_use@[k] != id,
            decreases self.in_use.len() - i,
        {
            if self.in_use[i] == id {
                assert(before.contains(id));
                assert(before.to_set().insert(id) =~= before.to_set());
                return;
            }
            i = i + 1;
        }
        let mut in_use: Vec<SandboxId> = Vec::new();
        std::mem::swap(&mut in_use, &mut self.in_use);
        in_use.push(id);
        assert(in_use@.to_set() =~= before.to_set().insert(id)) by {
            assert forall|x: SandboxId| in_use@.to_set().contains(x) == before.to_set().insert(
                id,
            ).contains(x) by {
                if before.contains(x) {
                    let k = choose|k: int| 0 <= k < before.len() && before[k] == x;
                    assert(in_use@[k] == x);
                }
                if x == id {
                    assert(in_use@[before.len() as int] == x);
                }
            }
        }
        self.in_use = in_use;
    }

    /// Hands out the sandbox that has waited longest, where one waits. In place of one that
    /// does not, a caller can restore a sandbox and take that with `hand_out`.
    pub fn checkout(&mut self) -> (r: Checkout)
        ensures
            match r {
                Checkout::Ready(id) => old(self)@.available.len() > 0 && id
                    == old(self)@.available[0] && final(self)@ == (PoolModel {
                    available: old(self)@.available.subrange(
                        1,
                        old(self)@.available.len() as int,
                    ),
                    in_use: old(self)@.in_use.insert(id),
                    ..old(self)@
                }),
                Checkout::Empty => old(self)@.available.len() == 0 && final(self)@ == old(self)@,
            },
    {
        proof {
            use_type_invariant(&*self);
        }
        if self.available.len() == 0 {
            return Checkout::Empty;
        }
        let mut available: Vec<SandboxId> = Vec::new();
        std::mem::swap(&mut available, &mut self.available);
        let id = available.remove(0);
        self.available = available;
        self.hand_out(id);
        Checkout::Ready(id)
    }

    /// A caller gives a sandbox back: it waits behind the others. One that the pool did not
    /// hand out is ignored.
    pub fn release(&mut self, id: SandboxId)
        ensures
            final(self)@ == old(self)@.released(id),
            final(self)@.in_use.finite(),
            final(self)@.available.len() + final(self)@.in_use.len() == old(
                self,
            )@.available.len() + old(self)@.in_use.len(),
    {
        proof {
            use_type_invariant(&*self);
            released_sandboxes_are_counted_on(self@, id);
        }
        let ghost before = self.in_use@;
        let mut i: usize = 0;
        while i < self.in_use.len()
            invariant
                self == old(self),
                before == self.in_use@,
                before.no_duplicates(),
                i <= self.in_use.len(),
                forall|k: int| 0 <= k < i ==> self.in_use@[k] != id,
            decreases self.in_use.len() - i,
        {
            if self.in_use[i] == id {
                let mut in_use: Vec<SandboxId> = Vec::new();
                std::mem::swap(&mut in_use, &mut self.in_use);
                let _gone = in_use.remove(i);
                proof {
                    assert(before.contains(id));
                    assert(in_use@.no_duplicates());
                    assert(in_use@.to_set() =~= before.to_set().remove(id)) by {
                        assert forall|x: SandboxId|
                            in_use@.to_set().contains(x) == before.to_set().remove(id).contains(
                                x,
                            ) by {
                            if in_use@.contains(x) {
                                let k = choose|k: int| 0 <= k < in_use@.len() && in_use@[k] == x;
                                let o = if k < i {
                                    k
                                } else {
                                    k + 1
                                };
                                assert(before[o] == x);
                            }
                            if before.to_set().remove(id).contains(x) {
                                let o = choose|o: int| 0 <= o < before.len() && before[o] == x;
                                let k = if o < i {
                                    o
                                } else {
                                    o - 1
                                };
                                assert(in_use@[k] == x);
                            }
                        }
                    }
                }
                self.in_use = in_use;
                self.put_back(id);
                return;
            }
            i = i + 1;
        }
        assert(!before.contains(id));
    }

    pub fn stats(&self) -> (r: PoolStats)
        ensures
            r.available == self@.available.len(),
            r.in_use == self@.in_use.len(),
            self@.in_use.finite(),
            r.target == self@.target,
    {
        proof {
            use_type_invariant(self);
            self.in_use@.unique_seq_to_set();
        }
        PoolStats {
            available: self.available.len(),
            in_use: self.in_use.len(),
            target: self.target_size,
        }
    }
}

impl PoolModel {
    /// The pool with another sandbox behind the ones that wait.
    pub open spec fn with(self, id: SandboxId) -> PoolModel {
        PoolModel { available: self.available.push(id), ..self }
    }

    /// The pool after a sandbox was given back: one that is in use waits behind the others.
    pub open spec fn released(self, id: SandboxId) -> PoolModel {
        if self.in_use.contains(id) {
            PoolModel {
                available: self.available.push(id),
                in_use: self.in_use.remove(id),
                ..self
            }
        } else {
            self
        }
    }

    /// The pool after the sandbox that has waited longest went to a caller.
    pub open spec fn without_first(self) -> PoolModel {
        PoolModel {
            available: self.available.subrange(1, self.available.len() as int),
            in_use: self.in_use.insert(self.available[0]),
            ..self
        }
    }
}

/// The operation asks for a sandbox of the pool.
pub open spec fn asks_sandbox<T>(step: Step<T>, pool: PoolModel) -> bool {
    step matches Step::Ask(Effect::BackendCreate(c)) && c@ == pool.config
}

/// Making sandboxes until the pool is full.
#[derive(Debug)]
pub enum FillPool {
    Making,
    Over,
}

impl FillPool {
    /// With too few sandboxes that wait another one is made.
    pub open spec fn goes_on(pool: PoolModel, next: Self, step: Step<()>) -> bool {
        if pool.available.len() < pool.target {
            next is Making && asks_sandbox(step, pool)
        } else {
            next is Over && step == Step::<()>::Done(Ok(()))
        }
    }

    pub fn begin(pool: &WarmPoolManager) -> (r: (Self, Step<()>))
        ensures
            Self::goes_on(pool@, r.0, r.1),
    {
        if pool.wants_more() {
            (FillPool::Making, Step::Ask(Effect::BackendCreate(pool.config())))
        } else {
            (FillPool::Over, Step::Done(Ok(())))
        }
    }

    /// What a reply leads to. The first sandbox that cannot be made ends the filling; the ones
    /// before it stay.
    pub open spec fn follows(
        self,
        reply: Reply,
        before: PoolModel,
        after: PoolModel,
        next: Self,
        step: Step<()>,
    ) -> bool {
        match (self, reply) {
            (FillPool::Making, Reply::Lease(lease)) => after == before.with(lease.id)
                && Self::goes_on(after, next, step),
            (FillPool::Making, Reply::Failed(e)) => after == before && next is Over && fails(
                step,
                e,
            ),
            _ => after == before && next == self && step is Stray,
        }
    }

    pub fn resume(self, reply: Reply, pool: &mut WarmPoolManager) -> (r: (Self, Step<()>))
        ensures
            self.follows(reply, old(pool)@, final(pool)@, r.0, r.1),
    {
        match (self, reply) {
            (FillPool::Making, Reply::Lease(lease)) => {
                pool.put_back(lease.id);
                Self::begin(pool)
            },
            (FillPool::Making, Reply::Failed(e)) => (FillPool::Over, Step::Done(Err(e))),
            (op, _) => (op, Step::Stray),
        }
    }
}

/// Getting a sandbox from a pool, which is filled first where none waits.
#[derive(Debug)]
pub enum CheckoutSandbox {
    Making,
    Over,
}

impl CheckoutSandbox {
    /// The sandbox that has waited longest goes to the caller.
    pub open spec fn hands_out(
        before: PoolModel,
        after: PoolModel,
        next: Self,
        step: Step<SandboxId>,
    ) -> bool {
        &&& before.available.len() > 0
        &&& after == before.without_first()
        &&& next is Over
        &&& step == Step::<SandboxId>::Done(Ok(before.available[0]))
    }

    /// A pool that should hold no sandbox and holds none has none to give.
    pub fn begin(pool: &mut WarmPoolManager) -> (r: (Self, Step<SandboxId>))
        requires
            old(pool)@.available.len() > 0 || old(pool)@.target > 0,
        ensures
            old(pool)@.available.len() > 0 ==> Self::hands_out(
                old(pool)@,
                final(pool)@,
                r.0,
                r.1,
            ),
            old(pool)@.available.len() == 0 ==> final(pool)@ == old(pool)@ && r.0 is Making
                && asks_sandbox(r.1, old(pool)@),
    {
        match pool.checkout() {
            Checkout::Ready(id) => (CheckoutSandbox::Over, Step::Done(Ok(id))),
            Checkout::Empty => (
                CheckoutSandbox::Making,
                Step::Ask(Effect::BackendCreate(pool.config())),
            ),
        }
    }

    /// What a reply leads to. The pool is filled before a sandbox is handed out.
    pub open spec fn follows(
        self,
        reply: Reply,
        before: PoolModel,
        after: PoolModel,
        next: Self,
        step: Step<SandboxId>,
    ) -> bool {
        match (self, reply) {
            (CheckoutSandbox::Making, Reply::Lease(lease)) => {
                let filled = before.with(lease.id);
                if filled.available.len() < filled.target {
                    after == filled && next is Making && asks_sandbox(step, filled)
                } else {
                    Self::hands_out(filled, after, next, step)
                }
            },
            (CheckoutSandbox::Making, Reply::Failed(e)) => after == before && next is Over
                && fails(step, e),
            _ => after == before && next == self && step is Stray,
        }
    }

    pub fn resume(self, reply: Reply, pool: &mut WarmPoolManager) -> (r: (Self, Step<SandboxId>))
        ensures
            self.follows(reply, old(pool)@, final(pool)@, r.0, r.1),
    {
        match (self, reply) {
            (CheckoutSandbox::Making, Reply::Lease(lease)) => {
                pool.put_back(lease.id);
                if pool.wants_more() {
                    return (
                        CheckoutSandbox::Making,
                        Step::Ask(Effect::BackendCreate(pool.config())),
                    );
                }
                match pool.checkout() {
                    Checkout::Ready(id) => (CheckoutSandbox::Over, Step::Done(Ok(id))),
                    Checkout::Empty => (CheckoutSandbox::Over, Step::Stray),
                }
            },
            (CheckoutSandbox::Making, Reply::Failed(e)) => (
                CheckoutSandbox::Over,
                Step::Done(Err(e)),
            ),
            (op, _) => (op, Step::Stray),
        }
    }
}

/// A pool is full when filling it has come to an end, and no sandbox is made for a pool that
/// is full.
pub proof fn filled_pools_are_full(
    op: FillPool,
    reply: Reply,
    before: PoolModel,
    after: PoolModel,
    next: FillPool,
    step: Step<()>,
)
    requires
        op.follows(reply, before, after, next, step),
    ensures
        step == Step::<()>::Done(Ok(())) ==> after.available.len() >= after.target,
        step is Ask ==> after.available.len() < after.target,
        after.in_use == before.in_use,
{
}

/// A sandbox that a caller gets is one that waited, counts as in use from then on, and leaves
/// the others that wait as they are.
pub proof fn handed_out_sandboxes_are_in_use(
    op: CheckoutSandbox,
    reply: Reply,
    before: PoolModel,
    after: PoolModel,
    next: CheckoutSandbox,
    step: Step<SandboxId>,
    id: SandboxId,
)
    requires
        op.follows(reply, before, after, next, step),
        step == Step::<SandboxId>::Done(Ok(id)),
    ensures
        after.in_use == before.in_use.insert(id),
        reply matches Reply::Lease(lease) && seq![id] + after.available == before.available.push(
            lease.id,
        ),
{
    if let Reply::Lease(lease) = reply {
        let filled = before.with(lease.id);
        assert(seq![id] + after.available =~= filled.available);
    }
}

/// Giving a sandbox back never changes how many there are, and giving it back twice is the same
/// as once.
pub proof fn released_sandboxes_are_counted_on(p: PoolModel, id: SandboxId)
    requires
        p.in_use.finite(),
    ensures
        p.released(id).available.len() + p.released(id).in_use.len() == p.available.len()
            + p.in_use.len(),
        p.released(id).in_use.finite(),
        p.released(id).released(id) == p.released(id),
{
}

/// Handing out and giving back leaves the pool as it was, but for the place in the queue: the
/// sandbox that came first waits last.
pub proof fn release_undoes_checkout(p: PoolModel)
    requires
        p.available.len() > 0,
        !p.in_use.contains(p.available[0]),
    ensures
        ({
            let id = p.available[0];
            let out = PoolModel {
                available: p.available.subrange(1, p.available.len() as int),
                in_use: p.in_use.insert(id),
                ..p
            };
            let back = PoolModel {
                available: out.available.push(id),
                in_use: out.in_use.remove(id),
                ..out
            };
            &&& back.in_use == p.in_use
            &&& back.target == p.target
            &&& back.available.to_multiset() == p.available.to_multiset()
            &&& back.available.len() == p.available.len()
        }),
{
    broadcast use vstd::seq_lib::group_to_multiset_ensures;

    let id = p.available[0];
    let rest = p.available.subrange(1, p.available.len() as int);
    assert(p.in_use.insert(id).remove(id) =~= p.in_use);
    assert(seq![id] + rest =~= p.available);
    vstd::seq_lib::lemma_multiset_commutative(seq![id], rest);
    assert(rest.push(id) =~= rest + seq![id]);
    vstd::seq_lib::lemma_multiset_commutative(rest, seq![id]);
    assert(rest.to_multiset().add(seq![id].to_multiset()) =~= seq![id].to_multiset().add(
        rest.to_multiset(),
    ));
}

} // verus!
