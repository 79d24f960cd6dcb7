//! Counters of what the server has done.

use crate::stats::{percentile, percentile_of, sort_samples, sorted};
use vstd::prelude::*;

verus! {

#[derive(Debug)]
pub struct MetricsCollector {
    creates: u64,
    destroys: u64,
    execs: u64,
    exec_failures: u64,
    exec_latency_ms: Vec<u128>,
}

/// What has been counted, as a value.
#[verifier::ext_equal]
pub struct MetricsModel {
    pub creates: u64,
    pub destroys: u64,
    pub execs: u64,
    pub exec_failures: u64,
    pub latencies: Seq<u128>,
}

impl View for MetricsCollector {
    type V = MetricsModel;

    closed spec fn view(&self) -> MetricsModel {
        MetricsModel {
            creates: self.creates,
            destroys: self.destroys,
            execs: self.execs,
            exec_failures: self.exec_failures,
            latencies: self.exec_latency_ms@,
        }
    }
}

#[derive(Debug, Clone, Copy, PartialEq, Eq, Structural)]
pub struct MetricsSnapshot {
    pub creates: u64,
    pub destroys: u64,
    pub execs: u64,
    pub exec_failures: u64,
    pub p50_exec_ms: u128,
    pub p95_exec_ms: u128,
}

impl Default for MetricsCollector {
    fn default() -> (r: Self)
        ensures
            r@ == (MetricsModel {
                creates: 0,
                destroys: 0,
                execs: 0,
                exec_failures: 0,
                latencies: Seq::<u128>::empty(),
            }),
    {
        MetricsCollector {
            creates: 0,
            destroys: 0,
            execs: 0,
            exec_failures: 0,
            exec_latency_ms: Vec::new(),
        }
    }
}

impl MetricsCollector {
    pub fn inc_create(&mut self)
        ensures
            final(self)@ == (MetricsModel {
                creates: old(self)@.creates.wrapping_add(1),
                ..old(self)@
            }),
    {
        self.creates = self.creates.wrapping_add(1);
    }

    pub fn inc_destroy(&mut self)
        ensures
            final(self)@ == (MetricsModel {
                destroys: old(self)@.destroys.wrapping_add(1),
                ..old(self)@
            }),
    {
        self.destroys = self.destroys.wrapping_add(1);
    }

    pub fn inc_exec(&mut self)
        ensures
            final(self)@ == (MetricsModel {
                execs: old(self)@.execs.wrapping_add(1),
                ..old(self)@
            }),
    {
        self.execs = self.execs.wrapping_add(1);
    }

    pub fn inc_exec_failure(&mut self)
        ensures
            final(self)@ == (MetricsModel {
                exec_failures: old(self)@.exec_failures.wrapping_add(1),
                ..old(self)@
            }),
    {
        self.exec_failures = self.exec_failures.wrapping_add(1);
    }

    pub fn record_exec_latency(&mut self, ms: u128)
        ensures
            final(self)@ == (MetricsModel {
                latencies: old(self)@.latencies.push(ms),
                ..old(self)@
            }),
    {
        self.exec_latency_ms.push(ms);
    }

    pub fn snapshot(&self) -> (r: MetricsSnapshot)
        ensures
            r == (MetricsSnapshot {
                creates: self@.creates,
                destroys: self@.destroys,
                execs: self@.execs,
                exec_failures: self@.exec_failures,
                p50_exec_ms: percentile_of(sorted(self@.latencies), 50),
                p95_exec_ms: percentile_of(sorted(self@.latencies), 95),
            }),
    {
        let mut copy: Vec<u128> = Vec::new();
        let mut i: usize = 0;
        while i < self.exec_latency_ms.len()
            invariant
                i <= self.exec_latency_ms.len(),
                copy@ == self.exec_latency_ms@.take(i as int),
            decreases self.exec_latency_ms.len() - i,
        {
            copy.push(self.exec_latency_ms[i]);
            i = i + 1;
        }
        assert(copy@ =~= self.exec_latency_ms@);
        let latency = sort_samples(copy);
        MetricsSnapshot {
            creates: self.creates,
            destroys: self.destroys,
            execs: self.execs,
            exec_failures: self.exec_failures,
            p50_exec_ms: percentile(latency.as_slice(), 50),
            p95_exec_ms: percentile(latency.as_slice(), 95),
        }
    }
}

} // verus!
