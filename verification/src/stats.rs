//! Figures over samples: percentiles and sums.

use crate::order::{is_order, ordered, ordered_is_sorted, placed, sort_stable};
use vstd::prelude::*;

verus! {

/// The order of numbers.
pub open spec fn number_before(a: u128, b: u128) -> bool {
    a < b
}

/// Samples from the smallest to the largest.
pub open spec fn sorted(samples: Seq<u128>) -> Seq<u128> {
    ordered(samples, |a: u128, b: u128| number_before(a, b))
}

pub fn sort_samples(samples: Vec<u128>) -> (r: Vec<u128>)
    ensures
        r@ == sorted(samples@),
        r@.len() == samples@.len(),
{
    let less = |a: &u128, b: &u128| -> (r: bool)
        ensures
            r == number_before(*a, *b),
    { *a < *b };
    proof {
        numbers_have_an_order();
        ordered_is_sorted(samples@, |a: u128, b: u128| number_before(a, b));
    }
    sort_stable(samples, less, Ghost(|a: u128, b: u128| number_before(a, b)))
}

/// Sorting works on the order of numbers.
pub proof fn numbers_have_an_order()
    ensures
        is_order(|a: u128, b: u128| number_before(a, b)),
{
}

/// Sorted samples rise, and are the samples that were given.
pub proof fn sorted_samples_rise(samples: Seq<u128>)
    ensures
        forall|i: int, j: int|
            0 <= i <= j < sorted(samples).len() ==> sorted(samples)[i] <= sorted(samples)[j],
        sorted(samples).to_multiset() == samples.to_multiset(),
        sorted(samples).len() == samples.len(),
{
    let f = |a: u128, b: u128| number_before(a, b);
    numbers_have_an_order();
    ordered_is_sorted(samples, f);
    assert forall|i: int, j: int| 0 <= i <= j < sorted(samples).len() implies sorted(samples)[i]
        <= sorted(samples)[j] by {
        if i < j {
            assert(!f(sorted(samples)[j], sorted(samples)[i]));
        }
    }
}

/// The position of a percentile among `n` sorted samples: the smallest one that at least
/// `p` percent of the samples do not pass.
pub open spec fn rank(n: nat, p: nat) -> int {
    let up_to = (n * p + 99) / 100;
    if up_to == 0 {
        0
    } else {
        up_to - 1
    }
}

/// A percentile of sorted samples; without samples it is 0.
pub open spec fn percentile_of(values: Seq<u128>, p: nat) -> u128 {
    if values.len() == 0 {
        0
    } else {
        values[rank(values.len(), p)]
    }
}

pub fn percentile(values: &[u128], p: usize) -> (r: u128)
    requires
        p <= 100,
    ensures
        r == percentile_of(values@, p as nat),
{
    if values.len() == 0 {
        return 0;
    }
    let n: u128 = values.len() as u128;
    assert(n * p <= n * 100) by (nonlinear_arith)
        requires
            p <= 100,
            0 <= n,
    ;
    assert(0 <= n * p) by (nonlinear_arith)
        requires
            0 <= n,
            0 <= p,
    ;
    let up_to: u128 = (n * (p as u128) + 99) / 100;
    assert(up_to <= n);
    let at: u128 = if up_to == 0 {
        0
    } else {
        up_to - 1
    };
    values[at as usize]
}

/// At least `p` percent of the samples do not pass the percentile, and it is one of them.
pub proof fn percentile_covers_its_share(values: Seq<u128>, p: nat)
    requires
        0 < values.len(),
        0 < p <= 100,
        forall|i: int, j: int| 0 <= i <= j < values.len() ==> values[i] <= values[j],
    ensures
        0 <= rank(values.len(), p) < values.len(),
        values.contains(percentile_of(values, p)),
        100 * (rank(values.len(), p) + 1) >= values.len() * p,
        100 * rank(values.len(), p) < values.len() * p,
        forall|i: int|
            0 <= i <= rank(values.len(), p) ==> (#[trigger] values[i]) <= percentile_of(values, p),
        forall|i: int|
            rank(values.len(), p) <= i < values.len() ==> percentile_of(values, p) <= (
            #[trigger] values[i]),
{
    let n = values.len();
    assert(0 < n * p <= n * 100) by (nonlinear_arith)
        requires
            0 < n,
            0 < p <= 100,
    ;
    assert(values[rank(n, p)] == percentile_of(values, p));
}

pub open spec fn total(samples: Seq<u128>) -> nat
    decreases samples.len(),
{
    if samples.len() == 0 {
        0
    } else {
        total(samples.drop_last()) + samples.last() as nat
    }
}

pub(crate) proof fn total_of_prefix(samples: Seq<u128>, k: int)
    requires
        0 <= k <= samples.len(),
    ensures
        total(samples.take(k)) <= total(samples),
    decreases samples.len() - k,
{
    if k < samples.len() {
        assert(samples.take(k + 1).drop_last() =~= samples.take(k));
        total_of_prefix(samples, k + 1);
    } else {
        assert(samples.take(k) =~= samples);
    }
}

/// The sum does not depend on the order.
pub proof fn total_ignores_order(samples: Seq<u128>)
    ensures
        total(sorted(samples)) == total(samples),
    decreases samples.len(),
{
    if samples.len() > 0 {
        total_ignores_order(samples.drop_last());
        total_of_placed(sorted(samples.drop_last()), samples.last());
    }
}

proof fn total_of_placed(list: Seq<u128>, x: u128)
    ensures
        total(placed(list, x, |a: u128, b: u128| number_before(a, b))) == total(list) + x,
    decreases list.len(),
{
    let before = |a: u128, b: u128| number_before(a, b);
    if list.len() == 0 || !before(x, list.last()) {
        assert(list.push(x).drop_last() =~= list);
    } else {
        total_of_placed(list.drop_last(), x);
        let init = placed(list.drop_last(), x, before);
        assert(init.push(list.last()).drop_last() =~= init);
    }
}

/// The figures of a series of measurements. The mean is the sum over the number of runs.
#[derive(Debug, Clone, Copy, PartialEq, Eq, Structural)]
pub struct SampleFigures {
    pub runs: usize,
    pub sum_ms: u128,
    pub p50_ms: u128,
    pub p95_ms: u128,
    pub min_ms: u128,
    pub max_ms: u128,
}

/// The figures of a series of measurements, as a value.
pub open spec fn figures(samples: Seq<u128>) -> SampleFigures {
    let s = sorted(samples);
    SampleFigures {
        runs: samples.len() as usize,
        sum_ms: total(samples) as u128,
        p50_ms: percentile_of(s, 50),
        p95_ms: percentile_of(s, 95),
        min_ms: if s.len() == 0 {
            0
        } else {
            s[0]
        },
        max_ms: if s.len() == 0 {
            0
        } else {
            s.last()
        },
    }
}

pub fn summarize_samples(samples: Vec<u128>) -> (r: SampleFigures)
    requires
        total(samples@) <= u128::MAX,
    ensures
        r == figures(samples@),
{
    let ghost given = samples@;
    let values = sort_samples(samples);
    proof {
        total_ignores_order(given);
    }
    let mut sum: u128 = 0;
    let mut i: usize = 0;
    while i < values.len()
        invariant
            i <= values.len(),
            total(values@) <= u128::MAX,
            sum == total(values@.take(i as int)),
        decreases values.len() - i,
    {
        assert(values@.take(i + 1).drop_last() =~= values@.take(i as int));
        proof {
            total_of_prefix(values@, i + 1);
        }
        sum = sum + values[i];
        i = i + 1;
    }
    assert(values@.take(values@.len() as int) =~= values@);
    let n: usize = values.len();
    SampleFigures {
        runs: n,
        sum_ms: sum,
        p50_ms: percentile(values.as_slice(), 50),
        p95_ms: percentile(values.as_slice(), 95),
        min_ms: if n == 0 {
            0
        } else {
            values[0]
        },
        max_ms: if n == 0 {
            0
        } else {
            values[n - 1]
        },
    }
}

} // verus!
