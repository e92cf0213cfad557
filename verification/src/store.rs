//! A small key-value store with string keys, viewed as a `Map`. The host
//! state keeps one per kind of protocol object, keyed by the canonical
//! store paths.

use vstd::prelude::*;

verus! {

/// The map denoted by an association list; later entries win, though a
/// well-formed store never repeats a key.
pub open spec fn map_of<V>(entries: Seq<(String, V)>) -> Map<Seq<char>, V>
    decreases entries.len(),
{
    if entries.len() == 0 {
        Map::empty()
    } else {
        map_of(entries.drop_last()).insert(entries.last().0@, entries.last().1)
    }
}

/// No two entries share a key.
pub open spec fn distinct_keys<V>(entries: Seq<(String, V)>) -> bool {
    forall|i: int, j: int|
        0 <= i < j < entries.len() ==> (#[trigger] entries[i]).0@ != (#[trigger] entries[j]).0@
}

proof fn lemma_map_of_contains<V>(entries: Seq<(String, V)>, k: Seq<char>)
    ensures
        map_of(entries).contains_key(k) <==> exists|i: int|
            0 <= i < entries.len() && (#[trigger] entries[i]).0@ == k,
    decreases entries.len(),
{
    if entries.len() > 0 {
        lemma_map_of_contains(entries.drop_last(), k);
        let prior = entries.drop_last();
        if entries.last().0@ == k {
            assert(entries[entries.len() - 1].0@ == k);
        } else {
            if map_of(entries).contains_key(k) {
                let i = choose|i: int| 0 <= i < prior.len() && (#[trigger] prior[i]).0@ == k;
                assert(entries[i].0@ == k);
            }
            if exists|i: int| 0 <= i < entries.len() && (#[trigger] entries[i]).0@ == k {
                let i = choose|i: int| 0 <= i < entries.len() && (#[trigger] entries[i]).0@ == k;
                assert(prior[i].0@ == k);
            }
        }
    }
}

proof fn lemma_map_of_index<V>(entries: Seq<(String, V)>, i: int)
    requires
        distinct_keys(entries),
        0 <= i < entries.len(),
    ensures
        map_of(entries).contains_key(entries[i].0@),
        map_of(entries)[entries[i].0@] == entries[i].1,
    decreases entries.len(),
{
    if i == entries.len() - 1 {
    } else {
        let prior = entries.drop_last();
        assert(prior[i] == entries[i]);
        lemma_map_of_index(prior, i);
        assert(entries.last().0@ != entries[i].0@);
    }
}

proof fn lemma_map_of_update<V>(entries: Seq<(String, V)>, i: int, key: String, value: V)
    requires
        distinct_keys(entries),
        0 <= i < entries.len(),
        entries[i].0@ == key@,
    ensures
        map_of(entries.update(i, (key, value))) =~= map_of(entries).insert(key@, value),
    decreases entries.len(),
{
    let updated = entries.update(i, (key, value));
    if i == entries.len() - 1 {
        assert(updated.drop_last() =~= entries.drop_last());
        assert(updated.last() == (key, value));
    } else {
        let prior = entries.drop_last();
        assert(prior[i] == entries[i]);
        lemma_map_of_update(prior, i, key, value);
        assert(updated.drop_last() =~= prior.update(i, (key, value)));
        assert(updated.last() == entries.last());
        assert(entries.last().0@ != key@);
        assert(map_of(updated) =~= map_of(prior.update(i, (key, value))).insert(
            entries.last().0@,
            entries.last().1,
        ));
    }
}

proof fn lemma_map_of_remove<V>(entries: Seq<(String, V)>, i: int)
    requires
        distinct_keys(entries),
        0 <= i < entries.len(),
    ensures
        map_of(entries.remove(i)) =~= map_of(entries).remove(entries[i].0@),
    decreases entries.len(),
{
    let removed = entries.remove(i);
    if i == entries.len() - 1 {
        assert(removed =~= entries.drop_last());
        lemma_map_of_contains(entries.drop_last(), entries[i].0@);
        assert(!map_of(entries.drop_last()).contains_key(entries[i].0@));
    } else {
        let prior = entries.drop_last();
        assert(prior[i] == entries[i]);
        lemma_map_of_remove(prior, i);
        assert(removed.drop_last() =~= prior.remove(i));
        assert(removed.last() == entries.last());
        assert(entries.last().0@ != entries[i].0@);
    }
}

/// A store of values keyed by canonical path strings.
pub struct Store<V> {
    pub entries: Vec<(String, V)>,
}

impl<V> View for Store<V> {
    type V = Map<Seq<char>, V>;

    open spec fn view(&self) -> Map<Seq<char>, V> {
        map_of(self.entries@)
    }
}

impl<V> Store<V> {
    pub open spec fn well_formed(&self) -> bool {
        distinct_keys(self.entries@)
    }

    pub fn new() -> (r: Store<V>)
        ensures
            r@ == Map::<Seq<char>, V>::empty(),
            r.well_formed(),
    {
        Store { entries: Vec::new() }
    }

    fn find(&self, key: &String) -> (r: Option<usize>)
        ensures
            r matches Some(i) ==> i < self.entries@.len() && self.entries@[i as int].0@ == key@,
            r is None ==> forall|i: int|
                0 <= i < self.entries@.len() ==> (#[trigger] self.entries@[i]).0@ != key@,
    {
        let mut i: usize = 0;
        let n = self.entries.len();
        while i < n
            invariant
                i <= n,
                n == self.entries@.len(),
                forall|j: int| 0 <= j < i ==> (#[trigger] self.entries@[j]).0@ != key@,
            decreases n - i,
        {
            if self.entries[i].0 == *key {
                return Some(i);
            }
            i += 1;
        }
        None
    }

    /// Whether the key is present.
    pub fn contains_key(&self, key: &String) -> (r: bool)
        ensures
            r == self@.contains_key(key@),
    {
        proof {
            lemma_map_of_contains(self.entries@, key@);
        }
        match self.find(key) {
            Some(_) => true,
            None => false,
        }
    }

    /// Looks the key up.
    pub fn get(&self, key: &String) -> (r: Option<&V>)
        requires
            self.well_formed(),
        ensures
            r is Some <==> self@.contains_key(key@),
            r matches Some(v) ==> *v == self@[key@],
    {
        proof {
            lemma_map_of_contains(self.entries@, key@);
        }
        match self.find(key) {
            Some(i) => {
                proof {
                    lemma_map_of_index(self.entries@, i as int);
                }
                Some(&self.entries[i].1)
            },
            None => None,
        }
    }

    /// Inserts or overwrites the value at the key.
    pub fn insert(&mut self, key: String, value: V)
        requires
            old(self).well_formed(),
        ensures
            final(self)@ == old(self)@.insert(key@, value),
            final(self).well_formed(),
    {
        proof {
            lemma_map_of_contains(self.entries@, key@);
        }
        match self.find(&key) {
            Some(i) => {
                let ghost entries0 = self.entries@;
                proof {
                    lemma_map_of_update(entries0, i as int, key, value);
                }
                self.entries.set(i, (key, value));
                proof {
                    assert forall|p: int, q: int|
                        0 <= p < q < self.entries@.len() implies (#[trigger] self.entries@[p]).0@
                        != (#[trigger] self.entries@[q]).0@ by {
                        assert(entries0[p].0@ != entries0[q].0@);
                        if p != i && q != i {
                            assert(self.entries@[p] == entries0[p]);
                            assert(self.entries@[q] == entries0[q]);
                        }
                    }
                }
            },
            None => {
                let ghost entries0 = self.entries@;
                self.entries.push((key, value));
                proof {
                    assert(self.entries@.drop_last() =~= entries0);
                    assert(map_of(self.entries@) =~= map_of(entries0).insert(key@, value));
                    assert forall|p: int, q: int|
                        0 <= p < q < self.entries@.len() implies (#[trigger] self.entries@[p]).0@
                        != (#[trigger] self.entries@[q]).0@ by {
                        if q < self.entries@.len() - 1 {
                            assert(entries0[p].0@ != entries0[q].0@);
                        } else {
                            assert(self.entries@[p] == entries0[p]);
                        }
                    }
                }
            },
        }
    }

    /// Removes the key and hands back its value, if present.
    pub fn take(&mut self, key: &String) -> (r: Option<V>)
        requires
            old(self).well_formed(),
        ensures
            final(self)@ == old(self)@.remove(key@),
            final(self).well_formed(),
            r is Some <==> old(self)@.contains_key(key@),
            r matches Some(v) ==> v == old(self)@[key@],
            r is None ==> *final(self) == *old(self),
    {
        proof {
            lemma_map_of_contains(self.entries@, key@);
        }
        match self.find(key) {
            Some(i) => {
                let ghost entries0 = self.entries@;
                proof {
                    lemma_map_of_remove(entries0, i as int);
                    lemma_map_of_index(entries0, i as int);
                }
                let (_, v) = self.entries.remove(i);
                proof {
                    assert(self.entries@ =~= entries0.remove(i as int));
                    assert forall|p: int, q: int|
                        0 <= p < q < self.entries@.len() implies (#[trigger] self.entries@[p]).0@
                        != (#[trigger] self.entries@[q]).0@ by {
                        let p0: int = if p < i { p } else { p + 1 };
                        let q0: int = if q < i { q } else { q + 1 };
                        assert(self.entries@[p] == entries0[p0]);
                        assert(self.entries@[q] == entries0[q0]);
                        assert(entries0[p0].0@ != entries0[q0].0@);
                    }
                }
                Some(v)
            },
            None => {
                proof {
                    assert(!self@.contains_key(key@));
                    assert(self@.remove(key@) =~= self@);
                }
                None
            },
        }
    }

    /// Removes the key if present.
    pub fn remove(&mut self, key: &String)
        requires
            old(self).well_formed(),
        ensures
            final(self)@ == old(self)@.remove(key@),
            final(self).well_formed(),
    {
        proof {
            lemma_map_of_contains(self.entries@, key@);
        }
        match self.find(key) {
            Some(i) => {
                let ghost entries0 = self.entries@;
                proof {
                    lemma_map_of_remove(entries0, i as int);
                }
                let _ = self.entries.remove(i);
                proof {
                    assert(self.entries@ =~= entries0.remove(i as int));
                    assert forall|p: int, q: int|
                        0 <= p < q < self.entries@.len() implies (#[trigger] self.entries@[p]).0@
                        != (#[trigger] self.entries@[q]).0@ by {
                        let p0: int = if p < i { p } else { p + 1 };
                        let q0: int = if q < i { q } else { q + 1 };
                        assert(self.entries@[p] == entries0[p0]);
                        assert(self.entries@[q] == entries0[q0]);
                        assert(entries0[p0].0@ != entries0[q0].0@);
                    }
                }
            },
            None => {
                proof {
                    assert(!self@.contains_key(key@));
                    assert(self@.remove(key@) =~= self@);
                }
            },
        }
    }
}

} // verus!
