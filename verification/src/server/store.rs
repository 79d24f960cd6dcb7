//! A store that keeps snapshots, names, sandboxes and processes in memory.

use crate::config::{ConfigModel, SandboxConfig};
use crate::ids::is_random_id;
use crate::model::SandboxId;
use crate::process::{ProcessId, ProcessInfo, ProcessModel};
use crate::snapshot::{
    ActiveModel, ActiveSandboxRecord, AffinityModel, AffinityRecord, SnapshotId, SnapshotMetadata,
    SnapshotModel,
};
use crate::table::{keys_once, Table};
use crate::text::{clone_opt, opt_view, same};
use crate::time::{TimeModel, Timestamp};
use vstd::prelude::*;

verus! {

#[derive(Debug)]
pub struct InMemorySnapshotStore {
    snapshots: Table<u128, SnapshotMetadata>,
    affinities: Table<String, AffinityRecord>,
    active: Table<u128, ActiveSandboxRecord>,
    processes: Table<u128, ProcessInfo>,
}

/// What a store holds.
#[verifier::ext_equal]
pub struct StoreModel {
    pub snapshots: Map<u128, SnapshotModel>,
    pub affinities: Map<Seq<char>, AffinityModel>,
    pub active: Map<u128, ActiveModel>,
    pub processes: Map<u128, ProcessModel>,
}

impl View for InMemorySnapshotStore {
    type V = StoreModel;

    closed spec fn view(&self) -> StoreModel {
        StoreModel {
            snapshots: self.snapshots@.map_values(|s: SnapshotMetadata| s@),
            affinities: self.affinities@.map_values(|a: AffinityRecord| a@),
            active: self.active@.map_values(|a: ActiveSandboxRecord| a@),
            processes: self.processes@.map_values(|p: ProcessInfo| p@),
        }
    }
}

/// The snapshot that a configuration of a sandbox makes.
pub open spec fn snapshot_of(
    id: SnapshotId,
    sandbox_id: SandboxId,
    config: ConfigModel,
    note: Option<Seq<char>>,
    now: TimeModel,
) -> SnapshotModel {
    SnapshotModel {
        id,
        sandbox_id,
        affinity_name: config.affinity_name,
        template: config.template,
        config,
        created_at: now,
        note,
    }
}

/// The record of a name that a sandbox has been bound to.
pub open spec fn bound(
    affinities: Map<Seq<char>, AffinityModel>,
    name: Seq<char>,
    sandbox_id: SandboxId,
    now: TimeModel,
) -> AffinityModel {
    AffinityModel {
        name,
        sandbox_id: Some(sandbox_id),
        snapshot_id: if affinities.contains_key(name) {
            affinities[name].snapshot_id
        } else {
            None
        },
        updated_at: now,
    }
}

/// The record of a name that a snapshot has been set for.
pub open spec fn snapshotted(
    affinities: Map<Seq<char>, AffinityModel>,
    name: Seq<char>,
    snapshot_id: SnapshotId,
    now: TimeModel,
) -> AffinityModel {
    AffinityModel {
        name,
        sandbox_id: if affinities.contains_key(name) {
            affinities[name].sandbox_id
        } else {
            None
        },
        snapshot_id: Some(snapshot_id),
        updated_at: now,
    }
}

/// A record after a sandbox is gone: it stands for it no more.
pub open spec fn unbound(a: AffinityModel, sandbox_id: SandboxId, now: TimeModel) -> AffinityModel {
    if a.sandbox_id == Some(sandbox_id) {
        AffinityModel { sandbox_id: None, updated_at: now, ..a }
    } else {
        a
    }
}

impl InMemorySnapshotStore {
    /// Each row stands under its own identifier or name.
    pub closed spec fn wf(&self) -> bool {
        &&& forall|k: u128| #[trigger]
            self.snapshots@.contains_key(k) ==> self.snapshots@[k].id.0 == k
        &&& forall|k: Seq<char>| #[trigger]
            self.affinities@.contains_key(k) ==> self.affinities@[k].name@ == k
        &&& forall|k: u128| #[trigger]
            self.active@.contains_key(k) ==> self.active@[k].sandbox_id.0 == k
        &&& forall|k: u128| #[trigger]
            self.processes@.contains_key(k) ==> self.processes@[k].id.0 == k
    }

    pub fn new() -> (r: Self)
        ensures
            r.wf(),
            r@.snapshots == Map::<u128, SnapshotModel>::empty(),
            r@.affinities == Map::<Seq<char>, AffinityModel>::empty(),
            r@.active == Map::<u128, ActiveModel>::empty(),
            r@.processes == Map::<u128, ProcessModel>::empty(),
    {
        let r = InMemorySnapshotStore {
            snapshots: Table::new(),
            affinities: Table::new(),
            active: Table::new(),
            processes: Table::new(),
        };
        assert(r@.snapshots =~= Map::<u128, SnapshotModel>::empty());
        assert(r@.affinities =~= Map::<Seq<char>, AffinityModel>::empty());
        assert(r@.active =~= Map::<u128, ActiveModel>::empty());
        assert(r@.processes =~= Map::<u128, ProcessModel>::empty());
        r
    }

    pub fn create_snapshot(
        &mut self,
        sandbox_id: &SandboxId,
        config: &SandboxConfig,
        note: Option<String>,
        now: Timestamp,
    ) -> (r: SnapshotMetadata)
        requires
            old(self).wf(),
        ensures
            final(self).wf(),
            is_random_id(r.id.0),
            r@ == snapshot_of(r.id, *sandbox_id, config@, opt_view(note), now@),
            final(self)@ == (StoreModel {
                snapshots: old(self)@.snapshots.insert(r.id.0, r@),
                ..old(self)@
            }),
    {
        let snapshot = SnapshotMetadata {
            id: SnapshotId::new(),
            sandbox_id: *sandbox_id,
            affinity_name: clone_opt(&config.affinity_name),
            template: config.template.clone(),
            config: config.clone(),
            created_at: now,
            note,
        };
        let copy = snapshot.clone();
        self.snapshots.insert(snapshot.id.0, copy);
        assert(self@.snapshots =~= old(self)@.snapshots.insert(snapshot.id.0, snapshot@));
        snapshot
    }

    pub fn get_snapshot(&self, snapshot_id: &SnapshotId) -> (r: Option<SnapshotMetadata>)
        ensures
            r is Some <==> self@.snapshots.contains_key(snapshot_id.0),
            r matches Some(s) ==> s@ == self@.snapshots[snapshot_id.0],
    {
        match self.snapshots.get(&snapshot_id.0) {
            Some(s) => Some(s.clone()),
            None => None,
        }
    }

    /// The snapshots of a template, each once, in no order that is promised.
    pub fn list_for_template(&self, template: &str) -> (r: Vec<SnapshotMetadata>)
        requires
            self.wf(),
        ensures
            forall|i: int|
                0 <= i < r@.len() ==> (#[trigger] r@[i])@.template == template@
                    && self@.snapshots.contains_key(r@[i].id.0) && self@.snapshots[r@[i].id.0]
                    == r@[i]@,
            forall|k: u128| #[trigger]
                self@.snapshots.contains_key(k) && self@.snapshots[k].template == template@
                    ==> exists|i: int| 0 <= i < r@.len() && (#[trigger] r@[i]).id.0 == k,
            forall|i: int, j: int|
                0 <= i < j < r@.len() ==> (#[trigger] r@[i]).id != (#[trigger] r@[j]).id,
    {
        let mut out: Vec<SnapshotMetadata> = Vec::new();
        let n: usize = self.snapshots.len();
        let mut i: usize = 0;
        while i < n
            invariant
                self.wf(),
                i <= n,
                n == self.snapshots.rows().len(),
                keys_once(self.snapshots.rows()),
                forall|a: int|
                    0 <= a < out@.len() ==> (#[trigger] out@[a])@.template == template@
                        && self@.snapshots.contains_key(out@[a].id.0)
                        && self@.snapshots[out@[a].id.0] == out@[a]@,
                forall|k: int|
                    0 <= k < i && self.snapshots.rows()[k].1.template@ == template@
                        ==> exists|a: int|
                        0 <= a < out@.len() && (#[trigger] out@[a]).id.0 == (
                        #[trigger] self.snapshots.rows()[k]).0,
                forall|a: int|
                    0 <= a < out@.len() ==> exists|k: int|
                        0 <= k < i && (#[trigger] self.snapshots.rows()[k]).0 == (
                        #[trigger] out@[a]).id.0,
                forall|a: int, b: int|
                    0 <= a < b < out@.len() ==> (#[trigger] out@[a]).id != (#[trigger] out@[b]).id,
            decreases n - i,
        {
            let row = self.snapshots.row(i);
            let ghost before = out@;
            if same(row.1.template.as_str(), template) {
                let copy = row.1.clone();
                out.push(copy);
                proof {
                    assert(out@[before.len() as int].id.0 == self.snapshots.rows()[i as int].0);
                    assert forall|a: int| 0 <= a < before.len() implies before[a].id != copy.id by {
                        let k = choose|k: int|
                            0 <= k < i && (#[trigger] self.snapshots.rows()[k]).0
                                == before[a].id.0;
                        assert(self.snapshots.rows()[k].0 != self.snapshots.rows()[i as int].0);
                    }
                    assert forall|k: int|
                        0 <= k < i + 1 && self.snapshots.rows()[k].1.template@
                            == template@ implies exists|a: int|
                        0 <= a < out@.len() && (#[trigger] out@[a]).id.0 == (
                        #[trigger] self.snapshots.rows()[k]).0 by {
                        if k < i {
                            let a = choose|a: int|
                                0 <= a < before.len() && (#[trigger] before[a]).id.0
                                    == self.snapshots.rows()[k].0;
                            assert(out@[a].id.0 == self.snapshots.rows()[k].0);
                        }
                    }
                    assert forall|a: int| 0 <= a < out@.len() implies exists|k: int|
                        0 <= k < i + 1 && (#[trigger] self.snapshots.rows()[k]).0 == (
                        #[trigger] out@[a]).id.0 by {
                        if a < before.len() {
                            let k = choose|k: int|
                                0 <= k < i && (#[trigger] self.snapshots.rows()[k]).0
                                    == before[a].id.0;
                            assert(self.snapshots.rows()[k].0 == out@[a].id.0);
                        } else {
                            assert(self.snapshots.rows()[i as int].0 == out@[a].id.0);
                        }
                    }
                }
            }
            i = i + 1;
        }
        proof {
            assert forall|k: u128| #[trigger]
                self@.snapshots.contains_key(k) && self@.snapshots[k].template
                    == template@ implies exists|i: int|
                0 <= i < out@.len() && (#[trigger] out@[i]).id.0 == k by {
                let j = self.snapshots.key_has_a_row(k);
                assert(self.snapshots.rows()[j].1.template@ == template@);
            }
        }
        out
    }

    pub fn bind_sandbox(&mut self, name: &str, sandbox_id: &SandboxId, now: Timestamp)
        requires
            old(self).wf(),
        ensures
            final(self).wf(),
            final(self)@ == (StoreModel {
                affinities: old(self)@.affinities.insert(
                    name@,
                    bound(old(self)@.affinities, name@, *sandbox_id, now@),
                ),
                ..old(self)@
            }),
    {
        let key = name.to_owned();
        let snapshot_id = match self.affinities.get(&key) {
            Some(record) => record.snapshot_id,
            None => None,
        };
        let record = AffinityRecord {
            name: name.to_owned(),
            sandbox_id: Some(*sandbox_id),
            snapshot_id,
            updated_at: now,
        };
        self.affinities.insert(key, record);
        assert(self@.affinities =~= old(self)@.affinities.insert(
            name@,
            bound(old(self)@.affinities, name@, *sandbox_id, now@),
        ));
    }

    /// No name stands for the sandbox any more; what else the names stand for stays.
    pub fn clear_sandbox_binding(&mut self, sandbox_id: &SandboxId, now: Timestamp)
        requires
            old(self).wf(),
        ensures
            final(self).wf(),
            final(self)@ == (StoreModel {
                affinities: old(self)@.affinities.map_values(
                    |a: AffinityModel| unbound(a, *sandbox_id, now@),
                ),
                ..old(self)@
            }),
    {
        let n: usize = self.affinities.len();
        let mut fresh: Table<String, AffinityRecord> = Table::new();
        let mut i: usize = 0;
        while i < n
            invariant
                self == old(self),
                self.wf(),
                i <= n,
                n == self.affinities.rows().len(),
                forall|k: Seq<char>| #[trigger]
                    fresh@.contains_key(k) <==> exists|j: int|
                        0 <= j < i && (#[trigger] self.affinities.rows()[j]).0@ == k,
                forall|k: Seq<char>| #[trigger]
                    fresh@.contains_key(k) ==> self.affinities@.contains_key(k) && fresh@[k]@
                        == unbound(self.affinities@[k]@, *sandbox_id, now@) && fresh@[k].name@ == k,
            decreases n - i,
        {
            let row = self.affinities.row(i);
            let mut record = row.1.clone();
            let hit = match record.sandbox_id {
                Some(id) => id == *sandbox_id,
                None => false,
            };
            if hit {
                record.sandbox_id = None;
                record.updated_at = now;
            }
            let ghost before = fresh@;
            fresh.insert(row.0.clone(), record);
            proof {
                assert forall|k: Seq<char>| #[trigger] fresh@.contains_key(k) <==> exists|j: int|
                    0 <= j < i + 1 && (#[trigger] self.affinities.rows()[j]).0@ == k by {
                    if fresh@.contains_key(k) {
                        if k == row.0@ {
                            assert(self.affinities.rows()[i as int].0@ == k);
                        } else {
                            assert(before.contains_key(k));
                            let j = choose|j: int|
                                0 <= j < i && (#[trigger] self.affinities.rows()[j]).0@ == k;
                            assert(self.affinities.rows()[j].0@ == k);
                        }
                    }
                    if exists|j: int|
                        0 <= j < i + 1 && (#[trigger] self.affinities.rows()[j]).0@ == k {
                        let j = choose|j: int|
                            0 <= j < i + 1 && (#[trigger] self.affinities.rows()[j]).0@ == k;
                        if j < i {
                            assert(before.contains_key(k));
                        }
                    }
                }
            }
            i = i + 1;
        }
        proof {
            let m = old(self)@.affinities.map_values(
                |a: AffinityModel| unbound(a, *sandbox_id, now@),
            );
            let f = fresh@.map_values(|a: AffinityRecord| a@);
            assert forall|k: Seq<char>| f.contains_key(k) == m.contains_key(k) by {
                if m.contains_key(k) {
                    let j = self.affinities.key_has_a_row(k);
                    assert(self.affinities.rows()[j].0@ == k);
                    assert(fresh@.contains_key(k));
                }
                if f.contains_key(k) {
                    assert(fresh@.contains_key(k));
                }
            }
            assert forall|k: Seq<char>| f.contains_key(k) implies f[k] == m[k] by {
                assert(fresh@.contains_key(k));
            }
            assert(f =~= m);
        }
        self.affinities = fresh;
    }

    pub fn set_affinity_snapshot(&mut self, name: &str, snapshot_id: &SnapshotId, now: Timestamp)
        requires
            old(self).wf(),
        ensures
            final(self).wf(),
            final(self)@ == (StoreModel {
                affinities: old(self)@.affinities.insert(
                    name@,
                    snapshotted(old(self)@.affinities, name@, *snapshot_id, now@),
                ),
                ..old(self)@
            }),
    {
        let key = name.to_owned();
        let sandbox_id = match self.affinities.get(&key) {
            Some(record) => record.sandbox_id,
            None => None,
        };
        let record = AffinityRecord {
            name: name.to_owned(),
            sandbox_id,
            snapshot_id: Some(*snapshot_id),
            updated_at: now,
        };
        self.affinities.insert(key, record);
        assert(self@.affinities =~= old(self)@.affinities.insert(
            name@,
            snapshotted(old(self)@.affinities, name@, *snapshot_id, now@),
        ));
    }

    pub fn get_affinity(&self, name: &str) -> (r: Option<AffinityRecord>)
        ensures
            r is Some <==> self@.affinities.contains_key(name@),
            r matches Some(a) ==> a@ == self@.affinities[name@],
    {
        let key = name.to_owned();
        match self.affinities.get(&key) {
            Some(record) => Some(record.clone()),
            None => None,
        }
    }

    pub fn upsert_active_sandbox(
        &mut self,
        sandbox_id: &SandboxId,
        config: &SandboxConfig,
        created_at: Timestamp,
    )
        requires
            old(self).wf(),
        ensures
            final(self).wf(),
            final(self)@ == (StoreModel {
                active: old(self)@.active.insert(
                    sandbox_id.0,
                    (ActiveModel {
                        sandbox_id: *sandbox_id,
                        config: config@,
                        created_at: created_at@,
                    }),
                ),
                ..old(self)@
            }),
    {
        let record = ActiveSandboxRecord {
            sandbox_id: *sandbox_id,
            config: config.clone(),
            created_at,
        };
        let ghost model = record@;
        self.active.insert(sandbox_id.0, record);
        assert(self@.active =~= old(self)@.active.insert(sandbox_id.0, model));
    }

    pub fn remove_active_sandbox(&mut self, sandbox_id: &SandboxId)
        requires
            old(self).wf(),
        ensures
            final(self).wf(),
            final(self)@ == (StoreModel {
                active: old(self)@.active.remove(sandbox_id.0),
                ..old(self)@
            }),
    {
        let _there = self.active.remove(&sandbox_id.0);
        assert(self@.active =~= old(self)@.active.remove(sandbox_id.0));
    }

    /// The sandboxes that are remembered, each once, in no order that is promised.
    pub fn list_active_sandboxes(&self) -> (r: Vec<ActiveSandboxRecord>)
        requires
            self.wf(),
        ensures
            forall|i: int|
                0 <= i < r@.len() ==> self@.active.contains_key((#[trigger] r@[i]).sandbox_id.0)
                    && self@.active[r@[i].sandbox_id.0] == r@[i]@,
            forall|k: u128| #[trigger]
                self@.active.contains_key(k) ==> exists|i: int|
                    0 <= i < r@.len() && (#[trigger] r@[i]).sandbox_id.0 == k,
            forall|i: int, j: int|
                0 <= i < j < r@.len() ==> (#[trigger] r@[i]).sandbox_id != (
                #[trigger] r@[j]).sandbox_id,
    {
        let mut out: Vec<ActiveSandboxRecord> = Vec::new();
        let n: usize = self.active.len();
        let mut i: usize = 0;
        while i < n
            invariant
                self.wf(),
                i <= n,
                n == self.active.rows().len(),
                out@.len() == i,
                forall|k: int|
                    0 <= k < i ==> (#[trigger] out@[k])@ == self.active.rows()[k].1@ && out@[k].sandbox_id.0
                        == self.active.rows()[k].0 && self@.active.contains_key(
                        out@[k].sandbox_id.0,
                    ) && self@.active[out@[k].sandbox_id.0] == out@[k]@,
            decreases n - i,
        {
            let row = self.active.row(i);
            out.push(row.1.clone());
            i = i + 1;
        }
        proof {
            assert forall|k: u128| #[trigger] self@.active.contains_key(k) implies exists|i: int|
                0 <= i < out@.len() && (#[trigger] out@[i]).sandbox_id.0 == k by {
                let j = self.active.key_has_a_row(k);
                assert(out@[j].sandbox_id.0 == k);
            }
            assert forall|a: int, b: int| 0 <= a < b < out@.len() implies (
            #[trigger] out@[a]).sandbox_id != (#[trigger] out@[b]).sandbox_id by {
                assert(self.active.rows()[a].0 != self.active.rows()[b].0);
            }
        }
        out
    }

    pub fn upsert_process(&mut self, process: &ProcessInfo)
        requires
            old(self).wf(),
        ensures
            final(self).wf(),
            final(self)@ == (StoreModel {
                processes: old(self)@.processes.insert(process.id.0, process@),
                ..old(self)@
            }),
    {
        let copy = process.clone();
        self.processes.insert(process.id.0, copy);
        assert(self@.processes =~= old(self)@.processes.insert(process.id.0, process@));
    }

    pub fn get_process(&self, process_id: &ProcessId) -> (r: Option<ProcessInfo>)
        ensures
            r is Some <==> self@.processes.contains_key(process_id.0),
            r matches Some(p) ==> p@ == self@.processes[process_id.0],
    {
        match self.processes.get(&process_id.0) {
            Some(p) => Some(p.clone()),
            None => None,
        }
    }

    /// The processes, each once, in no order that is promised.
    pub fn list_processes(&self) -> (r: Vec<ProcessInfo>)
        requires
            self.wf(),
        ensures
            forall|i: int|
                0 <= i < r@.len() ==> self@.processes.contains_key((#[trigger] r@[i]).id.0)
                    && self@.processes[r@[i].id.0] == r@[i]@,
            forall|k: u128| #[trigger]
                self@.processes.contains_key(k) ==> exists|i: int|
                    0 <= i < r@.len() && (#[trigger] r@[i]).id.0 == k,
            forall|i: int, j: int|
                0 <= i < j < r@.len() ==> (#[trigger] r@[i]).id != (#[trigger] r@[j]).id,
    {
        let mut out: Vec<ProcessInfo> = Vec::new();
        let n: usize = self.processes.len();
        let mut i: usize = 0;
        while i < n
            invariant
                self.wf(),
                i <= n,
                n == self.processes.rows().len(),
                out@.len() == i,
                forall|k: int|
                    0 <= k < i ==> (#[trigger] out@[k])@ == self.processes.rows()[k].1@ && out@[k].id.0
                        == self.processes.rows()[k].0 && self@.processes.contains_key(
                        out@[k].id.0,
                    ) && self@.processes[out@[k].id.0] == out@[k]@,
            decreases n - i,
        {
            let row = self.processes.row(i);
            out.push(row.1.clone());
            i = i + 1;
        }
        proof {
            assert forall|k: u128| #[trigger] self@.processes.contains_key(k) implies exists|
                i: int,
            |
                0 <= i < out@.len() && (#[trigger] out@[i]).id.0 == k by {
                let j = self.processes.key_has_a_row(k);
                assert(out@[j].id.0 == k);
            }
            assert forall|a: int, b: int| 0 <= a < b < out@.len() implies (#[trigger] out@[a]).id
                != (#[trigger] out@[b]).id by {
                assert(self.processes.rows()[a].0 != self.processes.rows()[b].0);
            }
        }
        out
    }

    pub fn remove_process(&mut self, process_id: &ProcessId)
        requires
            old(self).wf(),
        ensures
            final(self).wf(),
            final(self)@ == (StoreModel {
                processes: old(self)@.processes.remove(process_id.0),
                ..old(self)@
            }),
    {
        let _there = self.processes.remove(&process_id.0);
        assert(self@.processes =~= old(self)@.processes.remove(process_id.0));
    }
}

impl Default for InMemorySnapshotStore {
    fn default() -> (r: Self)
        ensures
            r.wf(),
            r@.snapshots == Map::<u128, SnapshotModel>::empty(),
            r@.affinities == Map::<Seq<char>, AffinityModel>::empty(),
            r@.active == Map::<u128, ActiveModel>::empty(),
            r@.processes == Map::<u128, ProcessModel>::empty(),
    {
        InMemorySnapshotStore::new()
    }
}

/// A name that a sandbox was bound to stands for it, and keeps the snapshot that it had.
pub proof fn bound_names_keep_their_snapshot(
    affinities: Map<Seq<char>, AffinityModel>,
    name: Seq<char>,
    sandbox_id: SandboxId,
    snapshot_id: SnapshotId,
    first: TimeModel,
    second: TimeModel,
)
    ensures
        ({
            let a = affinities.insert(name, snapshotted(affinities, name, snapshot_id, first));
            let b = a.insert(name, bound(a, name, sandbox_id, second));
            b[name].sandbox_id == Some(sandbox_id) && b[name].snapshot_id == Some(snapshot_id)
        }),
        ({
            let a = affinities.insert(name, bound(affinities, name, sandbox_id, first));
            let b = a.insert(name, snapshotted(a, name, snapshot_id, second));
            b[name].sandbox_id == Some(sandbox_id) && b[name].snapshot_id == Some(snapshot_id)
        }),
{
}

/// After a sandbox was cleared no name stands for it. Names of other sandboxes are as they
/// were, and every name keeps its snapshot.
pub proof fn cleared_sandboxes_have_no_name(
    affinities: Map<Seq<char>, AffinityModel>,
    sandbox_id: SandboxId,
    now: TimeModel,
    name: Seq<char>,
)
    requires
        affinities.contains_key(name),
    ensures
        ({
            let after = affinities.map_values(|a: AffinityModel| unbound(a, sandbox_id, now));
            &&& after.contains_key(name)
            &&& after[name].sandbox_id != Some(sandbox_id)
            &&& after[name].snapshot_id == affinities[name].snapshot_id
            &&& affinities[name].sandbox_id != Some(sandbox_id) ==> after[name] == affinities[name]
        }),
{
}

/// A name keeps its sandbox and its snapshot apart: whichever is recorded first, both are there
/// afterwards, and a sandbox that goes takes only itself away.
pub proof fn names_keep_both_their_records(
    affinities: Map<Seq<char>, AffinityModel>,
    name: Seq<char>,
    sandbox_id: SandboxId,
    snapshot_id: SnapshotId,
    other: SandboxId,
    now: TimeModel,
)
    ensures
        ({
            let b = bound(affinities, name, sandbox_id, now);
            let s = snapshotted(affinities, name, snapshot_id, now);
            let b_then_s = snapshotted(affinities.insert(name, b), name, snapshot_id, now);
            let s_then_b = bound(affinities.insert(name, s), name, sandbox_id, now);
            &&& b_then_s == s_then_b
            &&& b_then_s.name == name && b.name == name && s.name == name
            &&& b_then_s.sandbox_id == Some(sandbox_id)
            &&& b_then_s.snapshot_id == Some(snapshot_id)
            &&& unbound(b_then_s, sandbox_id, now).sandbox_id is None
            &&& unbound(b_then_s, sandbox_id, now).snapshot_id == Some(snapshot_id)
            &&& other != sandbox_id ==> unbound(b_then_s, other, now) == b_then_s
        }),
{
}

/// A snapshot tells of the sandbox that it was made of: its configuration with its template and
/// name, when it was made, and the note on it.
pub proof fn snapshots_tell_of_their_sandbox(
    id: SnapshotId,
    sandbox_id: SandboxId,
    config: ConfigModel,
    note: Option<Seq<char>>,
    now: TimeModel,
)
    ensures
        ({
            let s = snapshot_of(id, sandbox_id, config, note, now);
            &&& s.id == id
            &&& s.sandbox_id == sandbox_id
            &&& s.config == config && s.template == config.template && s.affinity_name
                == config.affinity_name
            &&& s.created_at == now
            &&& s.note == note
        }),
{
}

} // verus!
