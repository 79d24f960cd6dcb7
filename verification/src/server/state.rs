//! What the server keeps in memory: the sandboxes that it knows, the templates, the counters.

use crate::config::{ConfigModel, SandboxConfig};
use crate::error::{sandbox_not_found, HyperboxError};
use crate::ids::hyphenated;
use crate::model::{ExecOutcome, SandboxId};
use crate::server::metrics::{MetricsCollector, MetricsModel};
use crate::table::Table;
use crate::template::{default_templates, TemplateRegistry};
use crate::text::{clone_opt, opt_view};
use vstd::prelude::*;

verus! {

#[derive(Debug)]
pub struct ServerState {
    pub templates: TemplateRegistry,
    pub sandboxes: Table<u128, SandboxConfig>,
    pub metrics: MetricsCollector,
}

/// What the server keeps in memory, as a value.
#[verifier::ext_equal]
pub struct StateModel {
    pub templates: Map<Seq<char>, Seq<char>>,
    pub sandboxes: Map<u128, ConfigModel>,
    pub metrics: MetricsModel,
}

impl View for ServerState {
    type V = StateModel;

    open spec fn view(&self) -> StateModel {
        StateModel {
            templates: self.templates@,
            sandboxes: self.sandboxes@.map_values(|c: SandboxConfig| c@),
            metrics: self.metrics@,
        }
    }
}

impl StateModel {
    /// The state with a sandbox added.
    pub open spec fn with_sandbox(self, id: SandboxId, config: ConfigModel) -> StateModel {
        StateModel { sandboxes: self.sandboxes.insert(id.0, config), ..self }
    }

    /// The state with a sandbox forgotten.
    pub open spec fn without_sandbox(self, id: SandboxId) -> StateModel {
        StateModel { sandboxes: self.sandboxes.remove(id.0), ..self }
    }

    pub open spec fn counted_create(self) -> StateModel {
        StateModel {
            metrics: MetricsModel {
                creates: self.metrics.creates.wrapping_add(1),
                ..self.metrics
            },
            ..self
        }
    }

    pub open spec fn counted_destroy(self) -> StateModel {
        StateModel {
            metrics: MetricsModel {
                destroys: self.metrics.destroys.wrapping_add(1),
                ..self.metrics
            },
            ..self
        }
    }
}

impl ServerState {
    /// The state of a server that has just started.
    pub fn new() -> (r: Self)
        ensures
            r@.templates == default_templates(),
            r@.sandboxes == Map::<u128, ConfigModel>::empty(),
            r@.metrics == (MetricsModel {
                creates: 0,
                destroys: 0,
                execs: 0,
                exec_failures: 0,
                latencies: Seq::<u128>::empty(),
            }),
    {
        let r = ServerState {
            templates: TemplateRegistry::with_defaults(),
            sandboxes: Table::new(),
            metrics: MetricsCollector::default(),
        };
        assert(r@.sandboxes =~= Map::<u128, ConfigModel>::empty());
        r
    }

    pub fn add_sandbox(&mut self, id: SandboxId, config: SandboxConfig)
        ensures
            final(self)@ == old(self)@.with_sandbox(id, config@),
    {
        let ghost c = config@;
        self.sandboxes.insert(id.0, config);
        assert(self@.sandboxes =~= old(self)@.sandboxes.insert(id.0, c));
    }

    pub fn forget_sandbox(&mut self, id: SandboxId)
        ensures
            final(self)@ == old(self)@.without_sandbox(id),
    {
        let _there = self.sandboxes.remove(&id.0);
        assert(self@.sandboxes =~= old(self)@.sandboxes.remove(id.0));
    }

    /// The configuration of a sandbox that the server knows.
    pub fn sandbox_config(&self, id: &SandboxId) -> (r: Result<SandboxConfig, HyperboxError>)
        ensures
            r is Ok <==> self@.sandboxes.contains_key(id.0),
            r matches Ok(c) ==> c@ == self@.sandboxes[id.0],
            r is Err ==> sandbox_not_found(r, hyphenated(id.0)),
    {
        match self.sandboxes.get(&id.0) {
            Some(c) => Ok(c.clone()),
            None => Err(HyperboxError::SandboxNotFound(id.text())),
        }
    }

    /// The number of sandboxes that the server knows.
    pub fn active_count(&self) -> (r: usize)
        ensures
            r == self.sandboxes.rows().len(),
    {
        self.sandboxes.len()
    }

    /// The identifiers and affinity names of the sandboxes that the server knows.
    pub fn sandbox_names(&self) -> (r: Vec<(SandboxId, Option<String>)>)
        ensures
            forall|i: int|
                0 <= i < r@.len() ==> self@.sandboxes.contains_key((#[trigger] r@[i]).0.0)
                    && self@.sandboxes[r@[i].0.0].affinity_name == opt_view(r@[i].1),
            forall|k: u128| #[trigger]
                self@.sandboxes.contains_key(k) ==> exists|i: int|
                    0 <= i < r@.len() && (#[trigger] r@[i]).0.0 == k,
            forall|i: int, j: int|
                0 <= i < j < r@.len() ==> (#[trigger] r@[i]).0 != (#[trigger] r@[j]).0,
    {
        let n: usize = self.sandboxes.len();
        let mut out: Vec<(SandboxId, Option<String>)> = Vec::new();
        let mut i: usize = 0;
        while i < n
            invariant
                i <= n,
                n == self.sandboxes.rows().len(),
                out@.len() == i,
                forall|k: int|
                    0 <= k < i ==> (#[trigger] out@[k]).0.0 == self.sandboxes.rows()[k].0
                        && self@.sandboxes.contains_key(out@[k].0.0)
                        && self@.sandboxes[out@[k].0.0].affinity_name == opt_view(out@[k].1),
            decreases n - i,
        {
            let row = self.sandboxes.row(i);
            out.push((SandboxId(row.0), clone_opt(&row.1.affinity_name)));
            i = i + 1;
        }
        proof {
            assert forall|k: u128| #[trigger] self@.sandboxes.contains_key(k) implies exists|
                i: int,
            |
                0 <= i < out@.len() && (#[trigger] out@[i]).0.0 == k by {
                let j = self.sandboxes.key_has_a_row(k);
                assert(out@[j].0.0 == k);
            }
            assert forall|a: int, b: int| 0 <= a < b < out@.len() implies (#[trigger] out@[a]).0
                != (#[trigger] out@[b]).0 by {
                assert(self.sandboxes.rows()[a].0 != self.sandboxes.rows()[b].0);
            }
        }
        out
    }

    pub fn count_create(&mut self)
        ensures
            final(self)@ == old(self)@.counted_create(),
    {
        self.metrics.inc_create();
    }

    pub fn count_destroy(&mut self)
        ensures
            final(self)@ == old(self)@.counted_destroy(),
    {
        self.metrics.inc_destroy();
    }

    /// A command is about to run on behalf of a caller.
    pub fn count_exec(&mut self)
        ensures
            final(self)@ == (StateModel {
                metrics: MetricsModel {
                    execs: old(self)@.metrics.execs.wrapping_add(1),
                    ..old(self)@.metrics
                },
                ..old(self)@
            }),
    {
        self.metrics.inc_exec();
    }

    /// What came of a command that ran on behalf of a caller.
    pub fn count_outcome(&mut self, outcome: &Result<ExecOutcome, HyperboxError>)
        ensures
            match outcome {
                Ok(o) => final(self)@ == (StateModel {
                    metrics: MetricsModel {
                        latencies: old(self)@.metrics.latencies.push(o.duration_ms),
                        ..old(self)@.metrics
                    },
                    ..old(self)@
                }),
                Err(_) => final(self)@ == (StateModel {
                    metrics: MetricsModel {
                        exec_failures: old(self)@.metrics.exec_failures.wrapping_add(1),
                        ..old(self)@.metrics
                    },
                    ..old(self)@
                }),
            },
    {
        match outcome {
            Ok(o) => self.metrics.record_exec_latency(o.duration_ms),
            Err(_) => self.metrics.inc_exec_failure(),
        }
    }
}

} // verus!
