//! Stable sorting by an order that is given as a function.

use vstd::prelude::*;

verus! {

/// The list with an element put in: behind the last element that it does not come before.
pub open spec fn placed<T>(list: Seq<T>, x: T, before: spec_fn(T, T) -> bool) -> Seq<T>
    decreases list.len(),
{
    if list.len() == 0 || !before(x, list.last()) {
        list.push(x)
    } else {
        placed(list.drop_last(), x, before).push(list.last())
    }
}

/// The list in order; elements of which neither comes before the other stay as they were.
pub open spec fn ordered<T>(list: Seq<T>, before: spec_fn(T, T) -> bool) -> Seq<T>
    decreases list.len(),
{
    if list.len() == 0 {
        list
    } else {
        placed(ordered(list.drop_last(), before), list.last(), before)
    }
}

/// An order on which sorting is meant to work: nothing comes before itself, and what does not
/// come after stays so along a chain.
pub open spec fn is_order<T>(before: spec_fn(T, T) -> bool) -> bool {
    &&& forall|a: T, b: T| #[trigger] before(a, b) ==> !before(b, a)
    &&& forall|a: T, b: T, c: T|
        !(#[trigger] before(b, a)) && !(#[trigger] before(c, b)) ==> !before(c, a)
}

/// No element comes before an earlier one.
pub open spec fn rises<T>(list: Seq<T>, before: spec_fn(T, T) -> bool) -> bool {
    forall|i: int, j: int|
        0 <= i < j < list.len() ==> !before(#[trigger] list[j], #[trigger] list[i])
}

proof fn placed_rises<T>(list: Seq<T>, x: T, before: spec_fn(T, T) -> bool)
    requires
        is_order(before),
        rises(list, before),
    ensures
        rises(placed(list, x, before), before),
        placed(list, x, before).len() == list.len() + 1,
        placed(list, x, before).to_multiset() == list.to_multiset().insert(x),
        forall|y: T| #[trigger]
            placed(list, x, before).contains(y) ==> y == x || list.contains(y),
    decreases list.len(),
{
    broadcast use vstd::seq_lib::group_to_multiset_ensures;

    if list.len() == 0 || !before(x, list.last()) {
        assert forall|i: int| 0 <= i < list.len() implies !before(x, #[trigger] list[i]) by {
            if i < list.len() - 1 {
                assert(!before(list[list.len() - 1], list[i]));
            }
        }
        assert forall|y: T| #[trigger] list.push(x).contains(y) implies y == x || list.contains(
            y,
        ) by {
            let k = choose|k: int| 0 <= k < list.push(x).len() && list.push(x)[k] == y;
            if k < list.len() {
                assert(list[k] == y);
            }
        }
    } else {
        let init = list.drop_last();
        assert forall|i: int, j: int| 0 <= i < j < init.len() implies !before(
            #[trigger] init[j],
            #[trigger] init[i],
        ) by {
            assert(!before(list[j], list[i]));
        }
        placed_rises(init, x, before);
        let p = placed(init, x, before);
        let r = p.push(list.last());
        assert forall|i: int, j: int| 0 <= i < j < r.len() implies !before(
            #[trigger] r[j],
            #[trigger] r[i],
        ) by {
            if j == p.len() {
                assert(p.contains(p[i]));
                if p[i] != x {
                    let k = choose|k: int| 0 <= k < init.len() && init[k] == p[i];
                    assert(!before(list[list.len() - 1], list[k]));
                }
            }
        }
        assert(init.push(list.last()) =~= list);
        assert(r.to_multiset() =~= list.to_multiset().insert(x));
        assert forall|y: T| #[trigger] r.contains(y) implies y == x || list.contains(y) by {
            let k = choose|k: int| 0 <= k < r.len() && r[k] == y;
            if k < p.len() {
                assert(p.contains(y));
                if y != x {
                    let m = choose|m: int| 0 <= m < init.len() && init[m] == y;
                    assert(list[m] == y);
                }
            } else {
                assert(list[list.len() - 1] == y);
            }
        }
    }
}

/// Sorting keeps the elements and puts them in order.
pub proof fn ordered_is_sorted<T>(list: Seq<T>, before: spec_fn(T, T) -> bool)
    requires
        is_order(before),
    ensures
        rises(ordered(list, before), before),
        ordered(list, before).to_multiset() == list.to_multiset(),
        ordered(list, before).len() == list.len(),
    decreases list.len(),
{
    broadcast use vstd::seq_lib::group_to_multiset_ensures;

    if list.len() > 0 {
        ordered_is_sorted(list.drop_last(), before);
        placed_rises(ordered(list.drop_last(), before), list.last(), before);
        assert(list.drop_last().push(list.last()) =~= list);
    }
}

proof fn placed_shifts<T>(list: Seq<T>, x: T, before: spec_fn(T, T) -> bool, at: int)
    requires
        0 <= at <= list.len(),
        forall|k: int| at <= k < list.len() ==> before(x, #[trigger] list[k]),
        at > 0 ==> !before(x, list[at - 1]),
    ensures
        placed(list, x, before) == list.insert(at, x),
    decreases list.len(),
{
    if at < list.len() {
        placed_shifts(list.drop_last(), x, before, at);
        assert(list.drop_last().insert(at, x).push(list.last()) =~= list.insert(at, x));
    } else {
        assert(list.insert(at, x) =~= list.push(x));
    }
}

/// Sorts a list, keeping the order of what is equal.
pub(crate) fn sort_stable<T, F: Fn(&T, &T) -> bool>(
    list: Vec<T>,
    less: F,
    before: Ghost<spec_fn(T, T) -> bool>,
) -> (r: Vec<T>)
    requires
        forall|a: &T, b: &T| call_requires(less, (a, b)),
        forall|a: &T, b: &T, r: bool| call_ensures(less, (a, b), r) ==> r == before@(*a, *b),
    ensures
        r@ == ordered(list@, before@),
{
    let mut rest = list;
    let mut out: Vec<T> = Vec::new();
    let ghost all = rest@;
    assert(all.take(0) =~= Seq::<T>::empty());
    while rest.len() > 0
        invariant
            forall|a: &T, b: &T| call_requires(less, (a, b)),
            forall|a: &T, b: &T, r: bool| call_ensures(less, (a, b), r) ==> r == before@(*a, *b),
            rest@.len() <= all.len(),
            rest@ == all.skip(all.len() - rest@.len()),
            out@ == ordered(all.take(all.len() - rest@.len()), before@),
        decreases rest@.len(),
    {
        let ghost done = all.len() - rest@.len();
        let x = rest.remove(0);
        assert(x == all[done]);
        let mut at: usize = out.len();
        while at > 0 && less(&x, &out[at - 1])
            invariant
                forall|a: &T, b: &T| call_requires(less, (a, b)),
                forall|a: &T, b: &T, r: bool|
                    call_ensures(less, (a, b), r) ==> r == before@(*a, *b),
                at <= out.len(),
                forall|k: int| at <= k < out@.len() ==> before@(x, #[trigger] out@[k]),
            ensures
                at <= out.len(),
                forall|k: int| at <= k < out@.len() ==> before@(x, #[trigger] out@[k]),
                at > 0 ==> !before@(x, out@[at - 1]),
            decreases at,
        {
            at = at - 1;
        }
        proof {
            placed_shifts(out@, x, before@, at as int);
            assert(all.take(done + 1).drop_last() =~= all.take(done));
        }
        out.insert(at, x);
        assert(rest@ =~= all.skip(done + 1));
    }
    assert(all.take(all.len() as int) =~= all);
    out
}

} // verus!
