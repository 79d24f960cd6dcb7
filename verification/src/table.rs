//! A table: rows under keys, each key once, in the order in which the keys came.

use crate::text::same;
use vstd::prelude::*;

verus! {

/// What a table can find its rows by.
pub trait Key: Sized {
    /// The key as a value.
    type Model;

    spec fn key(&self) -> Self::Model;

    fn same_key(&self, other: &Self) -> (r: bool)
        ensures
            r == (self.key() == other.key()),
    ;
}

impl Key for u128 {
    type Model = u128;

    open spec fn key(&self) -> u128 {
        *self
    }

    fn same_key(&self, other: &Self) -> (r: bool) {
        *self == *other
    }
}

impl Key for String {
    type Model = Seq<char>;

    open spec fn key(&self) -> Seq<char> {
        self@
    }

    fn same_key(&self, other: &Self) -> (r: bool) {
        same(self.as_str(), other.as_str())
    }
}

#[derive(Debug)]
pub struct Table<K: Key, T> {
    rows: Vec<(K, T)>,
}

spec fn holds<K: Key, T>(rows: Seq<(K, T)>, k: K::Model, i: int) -> bool {
    0 <= i < rows.len() && rows[i].0.key() == k
}

/// No key stands in two rows.
pub open spec fn keys_once<K: Key, T>(rows: Seq<(K, T)>) -> bool {
    forall|i: int, j: int|
        0 <= i < j < rows.len() ==> (#[trigger] rows[i]).0.key() != (#[trigger] rows[j]).0.key()
}

spec fn as_map<K: Key, T>(rows: Seq<(K, T)>) -> Map<K::Model, T> {
    Map::new(
        |k: K::Model| exists|i: int| holds(rows, k, i),
        |k: K::Model| rows[choose|i: int| holds(rows, k, i)].1,
    )
}

proof fn row_is_found<K: Key, T>(rows: Seq<(K, T)>, i: int)
    requires
        keys_once(rows),
        0 <= i < rows.len(),
    ensures
        as_map(rows).contains_key(rows[i].0.key()),
        as_map(rows)[rows[i].0.key()] == rows[i].1,
{
    let k = rows[i].0.key();
    assert(holds(rows, k, i));
    let j = choose|j: int| holds(rows, k, j);
    if j != i {
        if j < i {
            assert(rows[j].0.key() != rows[i].0.key());
        } else {
            assert(rows[i].0.key() != rows[j].0.key());
        }
    }
}

impl<K: Key, T> View for Table<K, T> {
    type V = Map<K::Model, T>;

    closed spec fn view(&self) -> Map<K::Model, T> {
        as_map(self.rows@)
    }
}

impl<K: Key, T> Table<K, T> {
    #[verifier::type_invariant]
    spec fn wf(self) -> bool {
        keys_once(self.rows@)
    }

    /// The rows in their order.
    pub closed spec fn rows(&self) -> Seq<(K, T)> {
        self.rows@
    }

    pub fn new() -> (r: Self)
        ensures
            r@ == Map::<K::Model, T>::empty(),
            r.rows() == Seq::<(K, T)>::empty(),
    {
        let r = Table { rows: Vec::new() };
        assert(as_map(r.rows@) =~= Map::<K::Model, T>::empty());
        r
    }

    pub fn len(&self) -> (r: usize)
        ensures
            r == self.rows().len(),
            keys_once(self.rows()),
            forall|i: int|
                0 <= i < r ==> self@.contains_key((#[trigger] self.rows()[i]).0.key())
                    && self@[self.rows()[i].0.key()] == self.rows()[i].1,
    {
        proof {
            use_type_invariant(self);
            assert forall|i: int| 0 <= i < self.rows@.len() implies self@.contains_key(
                (#[trigger] self.rows@[i]).0.key(),
            ) && self@[self.rows@[i].0.key()] == self.rows@[i].1 by {
                row_is_found(self.rows@, i);
            }
        }
        self.rows.len()
    }

    /// The row at a position. Every row of the table stands at one.
    pub fn row(&self, i: usize) -> (r: &(K, T))
        requires
            i < self.rows().len(),
        ensures
            *r == self.rows()[i as int],
            self@.contains_key(r.0.key()),
            self@[r.0.key()] == r.1,
    {
        proof {
            use_type_invariant(self);
            row_is_found(self.rows@, i as int);
        }
        &self.rows[i]
    }

    fn position(&self, key: &K) -> (r: Option<usize>)
        ensures
            match r {
                Some(i) => i < self.rows@.len() && self.rows@[i as int].0.key() == key.key(),
                None => forall|i: int| !holds(self.rows@, key.key(), i),
            },
    {
        let mut i: usize = 0;
        while i < self.rows.len()
            invariant
                i <= self.rows.len(),
                forall|k: int| 0 <= k < i ==> !holds(self.rows@, key.key(), k),
            decreases self.rows.len() - i,
        {
            if self.rows[i].0.same_key(key) {
                return Some(i);
            }
            i = i + 1;
        }
        None
    }

    pub fn contains(&self, key: &K) -> (r: bool)
        ensures
            r == self@.contains_key(key.key()),
    {
        match self.position(key) {
            Some(i) => {
                assert(holds(self.rows@, key.key(), i as int));
                true
            },
            None => false,
        }
    }

    pub fn get(&self, key: &K) -> (r: Option<&T>)
        ensures
            r is Some <==> self@.contains_key(key.key()),
            r matches Some(v) ==> *v == self@[key.key()],
    {
        match self.position(key) {
            Some(i) => {
                proof {
                    use_type_invariant(self);
                    row_is_found(self.rows@, i as int);
                }
                Some(&self.rows[i].1)
            },
            None => None,
        }
    }

    /// Puts a value under a key: in place of the one that is there, or as a new last row.
    pub fn insert(&mut self, key: K, value: T)
        ensures
            final(self)@ == old(self)@.insert(key.key(), value),
            final(self).rows().len() == old(self).rows().len() + (if old(self)@.contains_key(
                key.key(),
            ) {
                0int
            } else {
                1int
            }),
    {
        proof {
            use_type_invariant(&*self);
        }
        let ghost before = self.rows@;
        let ghost k = key.key();
        let at = self.position(&key);
        let mut rows: Vec<(K, T)> = Vec::new();
        std::mem::swap(&mut rows, &mut self.rows);
        match at {
            Some(i) => {
                rows.set(i, (key, value));
                proof {
                    assert(holds(before, k, i as int));
                    assert(keys_once(rows@)) by {
                        assert forall|a: int, b: int| 0 <= a < b < rows@.len() implies (
                        #[trigger] rows@[a]).0.key() != (#[trigger] rows@[b]).0.key() by {
                            assert(before[a].0.key() != before[b].0.key());
                        }
                    }
                    assert forall|n: K::Model| as_map(rows@).contains_key(n)
                        == before_insert(before, k, value).contains_key(n) by {
                        if as_map(rows@).contains_key(n) {
                            let j = choose|j: int| holds(rows@, n, j);
                            assert(holds(before, n, j));
                        }
                        if before_insert(before, k, value).contains_key(n) {
                            if n == k {
                                assert(holds(rows@, n, i as int));
                            } else {
                                let j = choose|j: int| holds(before, n, j);
                                assert(holds(rows@, n, j));
                            }
                        }
                    }
                    assert forall|n: K::Model| as_map(rows@).contains_key(n) implies as_map(
                        rows@,
                    )[n] == before_insert(before, k, value)[n] by {
                        let j = choose|j: int| holds(rows@, n, j);
                        row_is_found(rows@, j);
                        if j != i {
                            row_is_found(before, j);
                            assert(before[j].0.key() != k) by {
                                if j < i {
                                    assert(before[j].0.key() != before[i as int].0.key());
                                } else {
                                    assert(before[i as int].0.key() != before[j].0.key());
                                }
                            }
                        }
                    }
                    assert(as_map(rows@) =~= before_insert(before, k, value));
                }
            },
            None => {
                rows.push((key, value));
                proof {
                    assert(!as_map(before).contains_key(k));
                    assert(keys_once(rows@)) by {
                        assert forall|a: int, b: int| 0 <= a < b < rows@.len() implies (
                        #[trigger] rows@[a]).0.key() != (#[trigger] rows@[b]).0.key() by {
                            if b < before.len() {
                                assert(before[a].0.key() != before[b].0.key());
                            } else {
                                assert(!holds(before, k, a));
                            }
                        }
                    }
                    assert forall|n: K::Model| as_map(rows@).contains_key(n)
                        == before_insert(before, k, value).contains_key(n) by {
                        if as_map(rows@).contains_key(n) {
                            let j = choose|j: int| holds(rows@, n, j);
                            if j < before.len() {
                                assert(holds(before, n, j));
                            }
                        }
                        if before_insert(before, k, value).contains_key(n) {
                            if n == k {
                                assert(holds(rows@, n, before.len() as int));
                            } else {
                                let j = choose|j: int| holds(before, n, j);
                                assert(holds(rows@, n, j));
                            }
                        }
                    }
                    assert forall|n: K::Model| as_map(rows@).contains_key(n) implies as_map(
                        rows@,
                    )[n] == before_insert(before, k, value)[n] by {
                        let j = choose|j: int| holds(rows@, n, j);
                        row_is_found(rows@, j);
                        if j < before.len() {
                            row_is_found(before, j);
                            assert(!holds(before, k, j));
                        }
                    }
                    assert(as_map(rows@) =~= before_insert(before, k, value));
                }
            },
        }
        self.rows = rows;
    }

    /// Takes the row of a key out, where there is one.
    pub fn remove(&mut self, key: &K) -> (r: bool)
        ensures
            final(self)@ == old(self)@.remove(key.key()),
            r == old(self)@.contains_key(key.key()),
            final(self).rows().len() == old(self).rows().len() - (if r {
                1int
            } else {
                0int
            }),
    {
        self.take(key).is_some()
    }

    /// Takes the row of a key out and hands out what stood in it, where there is one.
    pub fn take(&mut self, key: &K) -> (r: Option<T>)
        ensures
            final(self)@ == old(self)@.remove(key.key()),
            r is Some <==> old(self)@.contains_key(key.key()),
            r matches Some(v) ==> v == old(self)@[key.key()],
            final(self).rows().len() == old(self).rows().len() - (if r is Some {
                1int
            } else {
                0int
            }),
    {
        proof {
            use_type_invariant(&*self);
        }
        let ghost before = self.rows@;
        let ghost k = key.key();
        match self.position(key) {
            Some(i) => {
                let mut rows: Vec<(K, T)> = Vec::new();
                std::mem::swap(&mut rows, &mut self.rows);
                let gone = rows.remove(i);
                proof {
                    assert(holds(before, k, i as int));
                    assert forall|a: int, b: int| 0 <= a < b < rows@.len() implies (
                    #[trigger] rows@[a]).0.key() != (#[trigger] rows@[b]).0.key() by {
                        let x = if a < i {
                            a
                        } else {
                            a + 1
                        };
                        let y = if b < i {
                            b
                        } else {
                            b + 1
                        };
                        assert(before[x].0.key() != before[y].0.key());
                    }
                    let m = as_map(before).remove(k);
                    assert forall|n: K::Model| as_map(rows@).contains_key(n) == m.contains_key(
                        n,
                    ) by {
                        if as_map(rows@).contains_key(n) {
                            let j = choose|j: int| holds(rows@, n, j);
                            let o = if j < i {
                                j
                            } else {
                                j + 1
                            };
                            assert(holds(before, n, o));
                            if o < i {
                                assert(before[o].0.key() != before[i as int].0.key());
                            } else {
                                assert(before[i as int].0.key() != before[o].0.key());
                            }
                        }
                        if m.contains_key(n) {
                            let o = choose|o: int| holds(before, n, o);
                            let j = if o < i {
                                o
                            } else {
                                o - 1
                            };
                            assert(holds(rows@, n, j));
                        }
                    }
                    assert forall|n: K::Model| as_map(rows@).contains_key(n) implies as_map(
                        rows@,
                    )[n] == m[n] by {
                        let j = choose|j: int| holds(rows@, n, j);
                        let o = if j < i {
                            j
                        } else {
                            j + 1
                        };
                        row_is_found(rows@, j);
                        row_is_found(before, o);
                    }
                    assert(as_map(rows@) =~= m);
                    row_is_found(before, i as int);
                }
                self.rows = rows;
                Some(gone.1)
            },
            None => {
                assert(as_map(before).remove(k) =~= as_map(before));
                None
            },
        }
    }

    /// Every key of the table stands in some row.
    pub proof fn key_has_a_row(&self, k: K::Model) -> (i: int)
        requires
            self@.contains_key(k),
        ensures
            0 <= i < self.rows().len(),
            self.rows()[i].0.key() == k,
    {
        choose|i: int| holds(self.rows@, k, i)
    }
}

spec fn before_insert<K: Key, T>(rows: Seq<(K, T)>, k: K::Model, value: T) -> Map<K::Model, T> {
    as_map(rows).insert(k, value)
}

} // verus!
