//! A small map from text to values that remembers the order of insertion.
use vstd::prelude::*;

use crate::text;

verus! {

/// A map from text to values. Each key occurs once; the entries are listed in
/// the order in which their keys first came.
#[derive(Debug)]
pub struct Table<V> {
    entries: Vec<(String, V)>,
}

/// Whether `order` lists each key once.
pub open spec fn distinct_keys<V>(order: Seq<(Seq<char>, V)>) -> bool {
    forall|i: int, j: int|
        0 <= i < j < order.len() ==> (#[trigger] order[i]).0 != (#[trigger] order[j]).0
}

/// Whether `key` is the key of an entry.
pub open spec fn has_key<V>(order: Seq<(Seq<char>, V)>, key: Seq<char>) -> bool {
    exists|i: int| 0 <= i < order.len() && (#[trigger] order[i]).0 == key
}

/// The place of the entry with that key.
pub open spec fn place_of<V>(order: Seq<(Seq<char>, V)>, key: Seq<char>) -> int {
    choose|i: int| 0 <= i < order.len() && (#[trigger] order[i]).0 == key
}

/// The value of the entry with that key.
pub open spec fn value_of<V>(order: Seq<(Seq<char>, V)>, key: Seq<char>) -> V {
    order[place_of(order, key)].1
}

/// The entries with a value set: a key that is there keeps its place, and one
/// that is not comes last.
pub open spec fn with_entry<V>(order: Seq<(Seq<char>, V)>, key: Seq<char>, value: V) -> Seq<
    (Seq<char>, V),
> {
    if has_key(order, key) {
        order.update(place_of(order, key), (key, value))
    } else {
        order.push((key, value))
    }
}

/// The entries without that of a key; the others keep their order.
pub open spec fn without_entry<V>(order: Seq<(Seq<char>, V)>, key: Seq<char>) -> Seq<
    (Seq<char>, V),
> {
    if has_key(order, key) {
        order.remove(place_of(order, key))
    } else {
        order
    }
}

/// The map that a list of entries stands for.
pub open spec fn map_of<V>(order: Seq<(Seq<char>, V)>) -> Map<Seq<char>, V> {
    Map::new(|key: Seq<char>| has_key(order, key), |key: Seq<char>| value_of(order, key))
}

impl<V> Table<V> {
    /// The entries, in order.
    pub closed spec fn order(&self) -> Seq<(Seq<char>, V)> {
        Seq::new(self.entries@.len(), |i: int| (self.entries@[i].0@, self.entries@[i].1))
    }

    /// Each key occurs once.
    pub closed spec fn wf(&self) -> bool {
        distinct_keys(self.order())
    }

    /// The map that the table stands for.
    pub open spec fn view(&self) -> Map<Seq<char>, V> {
        map_of(self.order())
    }

    /// What the order says of the map.
    pub proof fn lemma_order(&self)
        requires
            self.wf(),
        ensures
            distinct_keys(self.order()),
            forall|i: int|
                0 <= i < self.order().len() ==> {
                    &&& self@.contains_key((#[trigger] self.order()[i]).0)
                    &&& self@[self.order()[i].0] == self.order()[i].1
                },
            forall|key: Seq<char>| #[trigger]
                self@.contains_key(key) ==> exists|i: int|
                    0 <= i < self.order().len() && (#[trigger] self.order()[i]).0 == key,
    {
        lemma_map_of(self.order());
    }

    /// The empty table.
    pub fn new() -> (r: Self)
        ensures
            r.wf(),
            r@ == Map::<Seq<char>, V>::empty(),
            r.order() == Seq::<(Seq<char>, V)>::empty(),
    {
        let r = Table { entries: Vec::new() };
        proof {
            assert(r.order() =~= Seq::empty());
            assert(r@ =~= Map::empty());
        }
        r
    }

    /// The number of entries.
    pub fn len(&self) -> (r: usize)
        ensures
            r == self.order().len(),
    {
        self.entries.len()
    }

    /// The key of an entry.
    pub fn key_at(&self, i: usize) -> (r: &str)
        requires
            i < self.order().len(),
        ensures
            r@ == self.order()[i as int].0,
    {
        self.entries[i].0.as_str()
    }

    /// The value of an entry.
    pub fn value_at(&self, i: usize) -> (r: &V)
        requires
            i < self.order().len(),
        ensures
            *r == self.order()[i as int].1,
    {
        &self.entries[i].1
    }

    fn find(&self, key: &str) -> (r: Option<usize>)
        requires
            self.wf(),
        ensures
            match r {
                Some(i) => {
                    &&& i < self.order().len()
                    &&& self.order()[i as int].0 == key@
                    &&& self@.contains_key(key@)
                    &&& self@[key@] == self.order()[i as int].1
                },
                None => {
                    &&& !self@.contains_key(key@)
                    &&& forall|j: int| 0 <= j < self.order().len() ==> (#[trigger] self.order()[j]).0 != key@
                },
            },
    {
        let mut i: usize = 0;
        while i < self.entries.len()
            invariant
                self.wf(),
                0 <= i <= self.entries@.len(),
                forall|j: int| 0 <= j < i ==> (#[trigger] self.order()[j]).0 != key@,
            decreases self.entries@.len() - i,
        {
            if text::same(self.entries[i].0.as_str(), key) {
                proof {
                    self.lemma_order();
                    assert(self.order()[i as int].0 == key@);
                }
                return Some(i);
            }
            i += 1;
        }
        None
    }

    /// Whether the table has an entry for `key`.
    pub fn contains_key(&self, key: &str) -> (r: bool)
        requires
            self.wf(),
        ensures
            r == self@.contains_key(key@),
    {
        self.find(key).is_some()
    }

    /// The value for `key`.
    pub fn get(&self, key: &str) -> (r: Option<&V>)
        requires
            self.wf(),
        ensures
            match r {
                Some(v) => self@.contains_key(key@) && self@[key@] == *v,
                None => !self@.contains_key(key@),
            },
    {
        match self.find(key) {
            Some(i) => Some(&self.entries[i].1),
            None => None,
        }
    }

    /// Sets the value for `key`, in place of the one it had.
    pub fn insert(&mut self, key: &str, value: V)
        requires
            old(self).wf(),
        ensures
            final(self).wf(),
            final(self)@ == old(self)@.insert(key@, value),
            final(self).order() == with_entry(old(self).order(), key@, value),
    {
        let ghost before = self.order();
        match self.find(key) {
            Some(i) => {
                self.entries.set(i, (key.to_owned(), value));
                proof {
                    lemma_place_of(before, i as int);
                    assert(self.order() =~= before.update(i as int, (key@, value)));
                    lemma_update(before, i as int, key@, value);
                }
            },
            None => {
                self.entries.push((key.to_owned(), value));
                proof {
                    assert(self.order() =~= before.push((key@, value)));
                    lemma_push(before, key@, value);
                }
            },
        }
    }

    /// Takes the entry for `key` out of the table.
    pub fn remove(&mut self, key: &str) -> (r: Option<V>)
        requires
            old(self).wf(),
        ensures
            final(self).wf(),
            final(self)@ == old(self)@.remove(key@),
            final(self).order() == without_entry(old(self).order(), key@),
            match r {
                Some(v) => old(self)@.contains_key(key@) && old(self)@[key@] == v,
                None => !old(self)@.contains_key(key@),
            },
    {
        let ghost before = self.order();
        match self.find(key) {
            Some(i) => {
                let entry = self.entries.remove(i);
                proof {
                    lemma_place_of(before, i as int);
                    assert(self.order() =~= before.remove(i as int));
                    lemma_remove(before, i as int);
                }
                Some(entry.1)
            },
            None => {
                proof {
                    assert(self@.remove(key@) =~= self@);
                }
                None
            },
        }
    }

    /// Takes the entry at a place out of the table; the others keep their order.
    pub fn remove_at(&mut self, i: usize) -> (r: V)
        requires
            old(self).wf(),
            i < old(self).order().len(),
        ensures
            final(self).wf(),
            final(self).order() == old(self).order().remove(i as int),
            final(self)@ == old(self)@.remove(old(self).order()[i as int].0),
            r == old(self).order()[i as int].1,
    {
        let ghost before = self.order();
        let entry = self.entries.remove(i);
        proof {
            assert(self.order() =~= before.remove(i as int));
            lemma_remove(before, i as int);
        }
        entry.1
    }
}

/// Mapping the values of a map and changing an entry can be swapped.
pub proof fn lemma_mapped<V, W>(m: Map<Seq<char>, V>, f: spec_fn(V) -> W, key: Seq<char>, value: V)
    ensures
        m.insert(key, value).map_values(f) == m.map_values(f).insert(key, f(value)),
        m.remove(key).map_values(f) == m.map_values(f).remove(key),
{
    assert(m.insert(key, value).map_values(f) =~= m.map_values(f).insert(key, f(value)));
    assert(m.remove(key).map_values(f) =~= m.map_values(f).remove(key));
}

proof fn lemma_place_of<V>(order: Seq<(Seq<char>, V)>, i: int)
    requires
        distinct_keys(order),
        0 <= i < order.len(),
    ensures
        has_key(order, order[i].0),
        place_of(order, order[i].0) == i,
{
    let key = order[i].0;
    let k = place_of(order, key);
    assert(order[i].0 == key);
    assert(0 <= k < order.len() && order[k].0 == key);
    if k < i {
        assert(order[k].0 != order[i].0);
    } else if i < k {
        assert(order[i].0 != order[k].0);
    }
}

proof fn lemma_map_of<V>(order: Seq<(Seq<char>, V)>)
    requires
        distinct_keys(order),
    ensures
        forall|i: int|
            0 <= i < order.len() ==> {
                &&& map_of(order).contains_key((#[trigger] order[i]).0)
                &&& map_of(order)[order[i].0] == order[i].1
            },
        forall|key: Seq<char>| #[trigger]
            map_of(order).contains_key(key) ==> has_key(order, key),
{
    assert forall|i: int| 0 <= i < order.len() implies {
        &&& map_of(order).contains_key((#[trigger] order[i]).0)
        &&& map_of(order)[order[i].0] == order[i].1
    } by {
        lemma_place_of(order, i);
    }
}

/// Entries that agree key by key stand for the same map.
pub proof fn lemma_same_map<V>(order: Seq<(Seq<char>, V)>, m: Map<Seq<char>, V>)
    requires
        distinct_keys(order),
        forall|i: int|
            0 <= i < order.len() ==> m.contains_key((#[trigger] order[i]).0) && m[order[i].0]
                == order[i].1,
        forall|key: Seq<char>| #[trigger] m.contains_key(key) ==> has_key(order, key),
    ensures
        map_of(order) == m,
{
    lemma_map_of(order);
    assert forall|key: Seq<char>| #[trigger] map_of(order).contains_key(key) implies m.contains_key(key)
        && map_of(order)[key] == m[key] by {
        let k = choose|k: int| 0 <= k < order.len() && (#[trigger] order[k]).0 == key;
        assert(order[k].0 == key);
    }
    assert(map_of(order) =~= m);
}

proof fn lemma_update<V>(order: Seq<(Seq<char>, V)>, i: int, key: Seq<char>, value: V)
    requires
        distinct_keys(order),
        0 <= i < order.len(),
        order[i].0 == key,
    ensures
        distinct_keys(order.update(i, (key, value))),
        map_of(order.update(i, (key, value))) == map_of(order).insert(key, value),
{
    let now = order.update(i, (key, value));
    assert forall|a: int, b: int| 0 <= a < b < now.len() implies (#[trigger] now[a]).0 != (
    #[trigger] now[b]).0 by {
        assert(order[a].0 != order[b].0);
    }
    lemma_map_of(order);
    let m = map_of(order).insert(key, value);
    assert forall|a: int| 0 <= a < now.len() implies m.contains_key((#[trigger] now[a]).0)
        && m[now[a].0] == now[a].1 by {
        assert(order[a].0 == now[a].0);
        if a != i {
            assert(now[a] == order[a]);
            assert(now[a].0 != now[i].0);
        }
    }
    assert forall|k: Seq<char>| #[trigger] m.contains_key(k) implies has_key(now, k) by {
        if k == key {
            assert(now[i].0 == k);
        } else {
            assert(map_of(order).contains_key(k));
            let a = choose|a: int| 0 <= a < order.len() && (#[trigger] order[a]).0 == k;
            assert(now[a].0 == k);
        }
    }
    lemma_same_map(now, m);
}

proof fn lemma_push<V>(order: Seq<(Seq<char>, V)>, key: Seq<char>, value: V)
    requires
        distinct_keys(order),
        forall|j: int| 0 <= j < order.len() ==> (#[trigger] order[j]).0 != key,
    ensures
        distinct_keys(order.push((key, value))),
        map_of(order.push((key, value))) == map_of(order).insert(key, value),
{
    let now = order.push((key, value));
    assert forall|a: int, b: int| 0 <= a < b < now.len() implies (#[trigger] now[a]).0 != (
    #[trigger] now[b]).0 by {
        assert(now[a] == order[a]);
        if b < order.len() {
            assert(order[a].0 != order[b].0);
        }
    }
    lemma_map_of(order);
    let m = map_of(order).insert(key, value);
    assert forall|a: int| 0 <= a < now.len() implies m.contains_key((#[trigger] now[a]).0)
        && m[now[a].0] == now[a].1 by {
        if a < order.len() {
            assert(now[a] == order[a]);
        }
    }
    assert forall|k: Seq<char>| #[trigger] m.contains_key(k) implies has_key(now, k) by {
        if k == key {
            assert(now[order.len() as int].0 == k);
        } else {
            assert(map_of(order).contains_key(k));
            let a = choose|a: int| 0 <= a < order.len() && (#[trigger] order[a]).0 == k;
            assert(now[a].0 == k);
        }
    }
    lemma_same_map(now, m);
}

proof fn lemma_remove<V>(order: Seq<(Seq<char>, V)>, i: int)
    requires
        distinct_keys(order),
        0 <= i < order.len(),
    ensures
        distinct_keys(order.remove(i)),
        map_of(order.remove(i)) == map_of(order).remove(order[i].0),
{
    let now = order.remove(i);
    assert forall|a: int, b: int| 0 <= a < b < now.len() implies (#[trigger] now[a]).0 != (
    #[trigger] now[b]).0 by {
        let x = if a < i { a } else { a + 1 };
        let y = if b < i { b } else { b + 1 };
        assert(now[a] == order[x]);
        assert(now[b] == order[y]);
        assert(order[x].0 != order[y].0);
    }
    lemma_map_of(order);
    let m = map_of(order).remove(order[i].0);
    assert forall|a: int| 0 <= a < now.len() implies m.contains_key((#[trigger] now[a]).0)
        && m[now[a].0] == now[a].1 by {
        let x = if a < i { a } else { a + 1 };
        assert(now[a] == order[x]);
        if x < i {
            assert(order[x].0 != order[i].0);
        } else {
            assert(order[i].0 != order[x].0);
        }
    }
    assert forall|k: Seq<char>| #[trigger] m.contains_key(k) implies has_key(now, k) by {
        assert(map_of(order).contains_key(k));
        let a = choose|a: int| 0 <= a < order.len() && (#[trigger] order[a]).0 == k;
        assert(a != i);
        let x = if a < i { a } else { a - 1 };
        assert(now[x] == order[a]);
        assert(now[x].0 == k);
    }
    lemma_same_map(now, m);
}

/// A key that is there keeps its place when its value is set, one that is not comes last, and
/// when an entry is taken out the others stay in their order.
pub proof fn law_first_insertion_gives_the_place<V>(
    order: Seq<(Seq<char>, V)>,
    i: int,
    key: Seq<char>,
    value: V,
    j: int,
)
    requires
        distinct_keys(order),
        0 <= i < order.len(),
        0 <= j < order.len(),
    ensures
        ({
            let now = with_entry(order, order[i].0, value);
            &&& now.len() == order.len()
            &&& now[i] == (order[i].0, value)
            &&& j != i ==> now[j] == order[j]
        }),
        (forall|k: int| 0 <= k < order.len() ==> (#[trigger] order[k]).0 != key) ==> {
            let now = with_entry(order, key, value);
            &&& now.len() == order.len() + 1
            &&& now.last() == (key, value)
            &&& now[j] == order[j]
            &&& without_entry(order, key) == order
        },
        ({
            let now = without_entry(order, order[i].0);
            &&& now.len() == order.len() - 1
            &&& j < i ==> now[j] == order[j]
            &&& j > i ==> now[j - 1] == order[j]
        }),
{
    lemma_place_of(order, i);
}

} // verus!
