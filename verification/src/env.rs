//! The environment variables of a sandbox: an insertion-ordered map.

use indexmap::IndexMap;
use vstd::prelude::*;

verus! {

/// `indexmap::IndexMap`, the outside collection that keeps its keys in the order of their
/// first insertion.
#[verifier::external_type_specification]
#[verifier::external_body]
#[verifier::reject_recursive_types(K)]
#[verifier::reject_recursive_types(V)]
#[verifier::reject_recursive_types(S)]
pub struct ExIndexMap<K, V, S>(IndexMap<K, V, S>);

/// The pairs of an `IndexMap` of texts, in its order.
pub uninterp spec fn env_entries(map: IndexMap<String, String>) -> Seq<(Seq<char>, Seq<char>)>;

/// `IndexMap::new`: a map without pairs.
#[verifier::external_body]
pub(crate) fn env_new() -> (r: IndexMap<String, String>)
    ensures
        env_entries(r) == Seq::<(Seq<char>, Seq<char>)>::empty(),
{
    IndexMap::new()
}

/// The pairs after a key has been given a value: a key that is there keeps its place, a new
/// one comes last.
pub open spec fn env_put(
    entries: Seq<(Seq<char>, Seq<char>)>,
    key: Seq<char>,
    value: Seq<char>,
) -> Seq<(Seq<char>, Seq<char>)> {
    if exists|i: int| 0 <= i < entries.len() && (#[trigger] entries[i]).0 == key {
        Seq::new(
            entries.len(),
            |i: int|
                if entries[i].0 == key {
                    (key, value)
                } else {
                    entries[i]
                },
        )
    } else {
        entries.push((key, value))
    }
}

/// The pairs after a list of assignments, carried out in order.
pub open spec fn env_assigned(pairs: Seq<(Seq<char>, Seq<char>)>) -> Seq<(Seq<char>, Seq<char>)>
    decreases pairs.len(),
{
    if pairs.len() == 0 {
        pairs
    } else {
        env_put(env_assigned(pairs.drop_last()), pairs.last().0, pairs.last().1)
    }
}

pub open spec fn keys_distinct(entries: Seq<(Seq<char>, Seq<char>)>) -> bool {
    forall|i: int, j: int|
        0 <= i < j < entries.len() ==> (#[trigger] entries[i]).0 != (#[trigger] entries[j]).0
}

pub open spec fn pair_views(pairs: Seq<(String, String)>) -> Seq<(Seq<char>, Seq<char>)> {
    Seq::new(pairs.len(), |i: int| (pairs[i].0@, pairs[i].1@))
}

/// `IndexMap::insert`: a key that is there keeps its place and gets the new value, a new key
/// comes last.
#[verifier::external_body]
pub(crate) fn env_insert(map: &mut IndexMap<String, String>, key: String, value: String)
    ensures
        env_entries(*final(map)) == env_put(env_entries(*old(map)), key@, value@),
{
    map.insert(key, value);
}

/// `IndexMap::len`: the number of pairs.
#[verifier::external_body]
pub(crate) fn env_len(map: &IndexMap<String, String>) -> (r: usize)
    ensures
        r == env_entries(*map).len(),
{
    map.len()
}

/// `IndexMap::get_index`: the pair at a position, where there is one. Its key stands at no
/// other position of the map.
#[verifier::external_body]
pub(crate) fn env_pair(map: &IndexMap<String, String>, index: usize) -> (r: Option<
    (String, String),
>)
    ensures
        r is Some <==> index < env_entries(*map).len(),
        r matches Some(pair) ==> (pair.0@, pair.1@) == env_entries(*map)[index as int] && forall|
            j: int,
        |
            0 <= j < env_entries(*map).len() && j != index ==> (#[trigger] env_entries(*map)[j]).0
                != pair.0@,
{
    map.get_index(index).map(|(key, value)| (key.clone(), value.clone()))
}

/// The map that a list of assignments makes.
pub fn env_from_pairs(pairs: &Vec<(String, String)>) -> (r: IndexMap<String, String>)
    ensures
        env_entries(r) == env_assigned(pair_views(pairs@)),
{
    let mut map = env_new();
    let ghost all = pair_views(pairs@);
    let mut i: usize = 0;
    while i < pairs.len()
        invariant
            i <= pairs.len(),
            all == pair_views(pairs@),
            env_entries(map) == env_assigned(all.take(i as int)),
        decreases pairs.len() - i,
    {
        assert(all.take(i + 1).drop_last() =~= all.take(i as int));
        env_insert(&mut map, pairs[i].0.clone(), pairs[i].1.clone());
        i = i + 1;
    }
    assert(all.take(all.len() as int) =~= all);
    map
}

/// The pairs of a map, in its order.
pub fn env_pairs(map: &IndexMap<String, String>) -> (r: Vec<(String, String)>)
    ensures
        pair_views(r@) == env_entries(*map),
        keys_distinct(env_entries(*map)),
{
    let n: usize = env_len(map);
    let mut out: Vec<(String, String)> = Vec::new();
    let mut i: usize = 0;
    let ghost all = env_entries(*map);
    while i < n
        invariant
            i <= n,
            n == all.len(),
            all == env_entries(*map),
            pair_views(out@) == all.take(i as int),
            forall|a: int, b: int|
                0 <= a < i && 0 <= b < n && a != b ==> (#[trigger] all[a]).0 != (
                #[trigger] all[b]).0,
        decreases n - i,
    {
        if let Some(pair) = env_pair(map, i) {
            let ghost before = out@;
            out.push(pair);
            assert(pair_views(out@) =~= pair_views(before).push((pair.0@, pair.1@)));
            assert(all.take(i + 1) =~= all.take(i as int).push(all[i as int]));
        }
        i = i + 1;
    }
    assert(all.take(all.len() as int) =~= all);
    out
}

/// Assigning the pairs of a map in its order makes the same map.
pub proof fn env_pairs_make_the_map(entries: Seq<(Seq<char>, Seq<char>)>)
    requires
        keys_distinct(entries),
    ensures
        env_assigned(entries) == entries,
    decreases entries.len(),
{
    if entries.len() > 0 {
        let init = entries.drop_last();
        assert(keys_distinct(init)) by {
            assert forall|i: int, j: int| 0 <= i < j < init.len() implies (#[trigger] init[i]).0 != (
            #[trigger] init[j]).0 by {
                assert(entries[i].0 != entries[j].0);
            }
        }
        env_pairs_make_the_map(init);
        assert forall|i: int| 0 <= i < init.len() implies (#[trigger] init[i]).0
            != entries.last().0 by {
            assert(entries[i].0 != entries[entries.len() - 1].0);
        }
        assert(init.push((entries.last().0, entries.last().1)) =~= entries);
    }
}

/// A copy of a map.
pub fn env_clone(map: &IndexMap<String, String>) -> (r: IndexMap<String, String>)
    ensures
        env_entries(r) == env_entries(*map),
{
    let pairs = env_pairs(map);
    proof {
        env_pairs_make_the_map(env_entries(*map));
    }
    env_from_pairs(&pairs)
}

} // verus!
