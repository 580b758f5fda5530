//! A keyed entity store: a vector of named entities with unique keys,
//! abstracted as a finite map from key to entity view.
//!
//! This is the common machinery behind the playbook's four entity maps
//! (formations, routes, categories, plays). Insertion order is kept in the
//! underlying vector but carries no meaning; the store's view is the map.

use vstd::pervasive::VecAdditionalExecFns;
use vstd::prelude::*;

verus! {

/// An entity that is stored under a name of its own.
pub trait Named: View + Sized {
    /// The key under which the entity is stored.
    spec fn key(&self) -> Seq<char>;

    /// The key, as the stored string.
    fn key_ref(&self) -> (r: &String)
        ensures
            r@ == self.key(),
    ;
}

/// The finite map described by a sequence of named entities: each entity
/// contributes its key, mapped to its view. Later entries would shadow
/// earlier ones, but a well-formed store never holds two entries with one
/// key.
pub open spec fn map_of<T: Named>(s: Seq<T>) -> Map<Seq<char>, T::V>
    decreases s.len(),
{
    if s.len() == 0 {
        Map::<Seq<char>, T::V>::empty()
    } else {
        map_of(s.drop_last()).insert(s.last().key(), s.last()@)
    }
}

/// No two entries share a key.
pub open spec fn unique_keys<T: Named>(s: Seq<T>) -> bool {
    forall|i: int, j: int| 0 <= i < j < s.len() ==> s[i].key() != s[j].key()
}

/// A key is in the map exactly when some entry carries it.
pub proof fn lemma_map_of_contains<T: Named>(s: Seq<T>, k: Seq<char>)
    ensures
        map_of(s).dom().contains(k) <==> exists|i: int| 0 <= i < s.len() && s[i].key() == k,
    decreases s.len(),
{
    if s.len() == 0 {
    } else {
        lemma_map_of_contains(s.drop_last(), k);
        if s.last().key() == k {
            assert(s[s.len() - 1].key() == k);
        } else {
            if map_of(s).dom().contains(k) {
                let i = choose|i: int| 0 <= i < s.drop_last().len() && s.drop_last()[i].key() == k;
                assert(s[i].key() == k);
            }
            if exists|i: int| 0 <= i < s.len() && s[i].key() == k {
                let i = choose|i: int| 0 <= i < s.len() && s[i].key() == k;
                assert(s.drop_last()[i].key() == k);
            }
        }
    }
}

/// An entry whose key no later entry repeats gives the map's value at its
/// key.
pub proof fn lemma_map_of_index<T: Named>(s: Seq<T>, i: int)
    requires
        0 <= i < s.len(),
        forall|j: int| i < j < s.len() ==> s[j].key() != s[i].key(),
    ensures
        map_of(s).dom().contains(s[i].key()),
        map_of(s)[s[i].key()] == s[i]@,
    decreases s.len(),
{
    if i == s.len() - 1 {
    } else {
        assert(s.drop_last()[i] == s[i]);
        lemma_map_of_index(s.drop_last(), i);
    }
}

/// Appending an entity inserts its view into the map.
pub proof fn lemma_map_of_push<T: Named>(s: Seq<T>, t: T)
    ensures
        map_of(s.push(t)) == map_of(s).insert(t.key(), t@),
{
    assert(s.push(t).drop_last() =~= s);
    assert(s.push(t).last() == t);
}

/// Replacing the (unique) entry that carries a key overwrites the map at
/// that key.
pub proof fn lemma_map_of_update<T: Named>(s: Seq<T>, i: int, t: T)
    requires
        0 <= i < s.len(),
        unique_keys(s),
        t.key() == s[i].key(),
    ensures
        map_of(s.update(i, t)) == map_of(s).insert(t.key(), t@),
    decreases s.len(),
{
    let s2 = s.update(i, t);
    if i == s.len() - 1 {
        assert(s2.drop_last() =~= s.drop_last());
        assert(s2.last() == t);
        assert(map_of(s.drop_last()).insert(s.last().key(), s.last()@).insert(t.key(), t@)
            =~= map_of(s.drop_last()).insert(t.key(), t@));
    } else {
        assert(s2.drop_last() =~= s.drop_last().update(i, t));
        assert(s2.last() == s.last());
        assert(s.drop_last()[i] == s[i]);
        lemma_map_of_update(s.drop_last(), i, t);
        assert(s.last().key() != t.key());
        assert(map_of(s.drop_last()).insert(t.key(), t@).insert(s.last().key(), s.last()@)
            =~= map_of(s.drop_last()).insert(s.last().key(), s.last()@).insert(t.key(), t@));
    }
}

/// Removing the (unique) entry that carries a key removes that key from
/// the map.
pub proof fn lemma_map_of_remove<T: Named>(s: Seq<T>, i: int)
    requires
        0 <= i < s.len(),
        unique_keys(s),
    ensures
        map_of(s.remove(i)) == map_of(s).remove(s[i].key()),
    decreases s.len(),
{
    let k = s[i].key();
    if i == s.len() - 1 {
        assert(s.remove(i) =~= s.drop_last());
        lemma_map_of_contains(s.drop_last(), k);
        assert(forall|j: int|
            0 <= j < s.drop_last().len() ==> s.drop_last()[j] == s[j] && s[j].key() != k);
        assert(!map_of(s.drop_last()).dom().contains(k));
        assert(map_of(s.drop_last()).insert(k, s.last()@).remove(k) =~= map_of(s.drop_last()));
    } else {
        assert(s.remove(i).drop_last() =~= s.drop_last().remove(i));
        assert(s.remove(i).last() == s.last());
        assert(s.drop_last()[i] == s[i]);
        lemma_map_of_remove(s.drop_last(), i);
        assert(s.last().key() != k);
        assert(map_of(s.drop_last()).remove(k).insert(s.last().key(), s.last()@)
            =~= map_of(s.drop_last()).insert(s.last().key(), s.last()@).remove(k));
    }
}

/// An entity store with unique keys, viewed as a map from key to entity
/// view.
pub struct Store<T: Named> {
    items: Vec<T>,
}

impl<T: Named> View for Store<T> {
    type V = Map<Seq<char>, T::V>;

    closed spec fn view(&self) -> Map<Seq<char>, T::V> {
        map_of(self.items@)
    }
}

impl<T: Named> Store<T> {
    /// The entities in insertion order. The order carries no meaning; it is
    /// exposed only so enumeration results can be described.
    pub closed spec fn seq(self) -> Seq<T> {
        self.items@
    }

    /// Well-formedness: no two entries share a key.
    pub closed spec fn wf(self) -> bool {
        unique_keys(self.items@)
    }

    /// In a well-formed store every entry is in the map under its key, the
    /// map holds exactly the entries' keys, and keys are pairwise distinct.
    pub proof fn lemma_seq_map(self)
        requires
            self.wf(),
        ensures
            forall|i: int|
                0 <= i < self.seq().len() ==> #[trigger] self@.dom().contains(self.seq()[i].key())
                    && self@[self.seq()[i].key()] == self.seq()[i]@,
            forall|k: Seq<char>|
                #[trigger] self@.dom().contains(k) ==> exists|i: int|
                    0 <= i < self.seq().len() && self.seq()[i].key() == k,
            forall|i: int, j: int|
                0 <= i < j < self.seq().len() ==> self.seq()[i].key() != self.seq()[j].key(),
    {
        assert forall|i: int| 0 <= i < self.seq().len() implies #[trigger] self@.dom().contains(
            self.seq()[i].key(),
        ) && self@[self.seq()[i].key()] == self.seq()[i]@ by {
            lemma_map_of_index(self.items@, i);
        }
        assert forall|k: Seq<char>| #[trigger] self@.dom().contains(k) implies exists|i: int|
            0 <= i < self.seq().len() && self.seq()[i].key() == k by {
            lemma_map_of_contains(self.items@, k);
            let i = choose|i: int| 0 <= i < self.items@.len() && self.items@[i].key() == k;
            assert(0 <= i < self.seq().len() && self.seq()[i].key() == k);
        }
    }

    /// Creates an empty store.
    pub fn new() -> (r: Self)
        ensures
            r.wf(),
            r@ == Map::<Seq<char>, T::V>::empty(),
            r.seq() == Seq::<T>::empty(),
    {
        let r = Store { items: Vec::new() };
        proof {
            assert(r.seq() =~= Seq::<T>::empty());
        }
        r
    }

    /// The number of stored entities.
    pub fn len(&self) -> (r: usize)
        ensures
            r == self.seq().len(),
    {
        self.items.len()
    }

    /// The entity at a position of the entry sequence.
    pub fn at(&self, i: usize) -> (r: &T)
        requires
            i < self.seq().len(),
        ensures
            *r == self.seq()[i as int],
    {
        &self.items[i]
    }

    /// The position of the entity stored under a name, if any.
    fn index_of(&self, name: &String) -> (r: Option<usize>)
        ensures
            r matches Some(i) ==> i < self.items@.len() && self.items@[i as int].key() == name@,
            r is None ==> forall|i: int|
                0 <= i < self.items@.len() ==> self.items@[i].key() != name@,
    {
        let mut i: usize = 0;
        while i < self.items.len()
            invariant
                0 <= i <= self.items@.len(),
                forall|j: int| 0 <= j < i ==> self.items@[j].key() != name@,
            decreases self.items@.len() - i,
        {
            if *self.items[i].key_ref() == *name {
                return Some(i);
            }
            i += 1;
        }
        None
    }

    /// Whether an entity is stored under the given name.
    pub fn contains(&self, name: &String) -> (r: bool)
        ensures
            r == self@.dom().contains(name@),
    {
        let idx = self.index_of(name);
        proof {
            lemma_map_of_contains(self.items@, name@);
            match idx {
                Some(i) => {
                    assert(0 <= i < self.items@.len() && self.items@[i as int].key() == name@);
                },
                None => {},
            }
        }
        idx.is_some()
    }

    /// The entity stored under the given name, or `None`.
    pub fn get(&self, name: &String) -> (r: Option<&T>)
        requires
            self.wf(),
        ensures
            r matches Some(t) ==> self@.dom().contains(name@) && t@ == self@[name@] && t.key()
                == name@,
            r is None ==> !self@.dom().contains(name@),
    {
        proof {
            lemma_map_of_contains(self.items@, name@);
        }
        match self.index_of(name) {
            Some(i) => {
                proof {
                    lemma_map_of_index(self.items@, i as int);
                }
                Some(&self.items[i])
            },
            None => None,
        }
    }

    /// Stores an entity under its key, replacing whatever was there.
    pub fn insert(&mut self, item: T)
        requires
            old(self).wf(),
        ensures
            final(self).wf(),
            final(self)@ == old(self)@.insert(item.key(), item@),
    {
        let ghost k = item.key();
        let ghost s0 = self.items@;
        let idx = self.index_of(item.key_ref());
        match idx {
            Some(i) => {
                proof {
                    assert(s0[i as int].key() == k);
                    lemma_map_of_update(s0, i as int, item);
                }
                self.items.set(i, item);
                proof {
                    assert(self.items@ == s0.update(i as int, item));
                    assert forall|a: int, b: int|
                        0 <= a < b < self.items@.len() implies self.items@[a].key()
                        != self.items@[b].key() by {
                        assert(s0[a].key() != s0[b].key());
                        assert(a == i as int || self.items@[a] == s0[a]);
                        assert(b == i as int || self.items@[b] == s0[b]);
                    }
                }
            },
            None => {
                proof {
                    assert(forall|j: int| 0 <= j < s0.len() ==> s0[j].key() != k);
                    lemma_map_of_push(s0, item);
                }
                self.items.push(item);
                proof {
                    assert(self.items@ == s0.push(item));
                    assert forall|a: int, b: int|
                        0 <= a < b < self.items@.len() implies self.items@[a].key()
                        != self.items@[b].key() by {
                        if b < self.items@.len() - 1 {
                            assert(s0[a].key() != s0[b].key());
                        } else {
                            assert(self.items@[a] == s0[a]);
                            assert(self.items@[b] == item);
                        }
                    }
                }
            },
        }
    }

    /// Stores an entity under its key only when the key is absent. Returns
    /// whether the entity was stored; when it was not, the store is
    /// unchanged.
    pub fn insert_new(&mut self, item: T) -> (added: bool)
        requires
            old(self).wf(),
        ensures
            final(self).wf(),
            added == !old(self)@.dom().contains(item.key()),
            added ==> final(self)@ == old(self)@.insert(item.key(), item@),
            !added ==> *final(self) == *old(self),
    {
        let ghost k = item.key();
        let ghost s0 = self.items@;
        proof {
            lemma_map_of_contains(s0, k);
        }
        let idx = self.index_of(item.key_ref());
        match idx {
            Some(i) => {
                proof {
                    assert(0 <= i < s0.len() && s0[i as int].key() == k);
                }
                false
            },
            None => {
                proof {
                    assert(forall|j: int| 0 <= j < s0.len() ==> s0[j].key() != k);
                    lemma_map_of_push(s0, item);
                }
                self.items.push(item);
                proof {
                    assert(self.items@ == s0.push(item));
                    assert forall|a: int, b: int|
                        0 <= a < b < self.items@.len() implies self.items@[a].key()
                        != self.items@[b].key() by {
                        if b < self.items@.len() - 1 {
                            assert(s0[a].key() != s0[b].key());
                        } else {
                            assert(self.items@[a] == s0[a]);
                            assert(self.items@[b] == item);
                        }
                    }
                }
                true
            },
        }
    }

    /// Removes the entity stored under the given name; removing an absent
    /// name leaves the store unchanged.
    pub fn remove(&mut self, name: &String)
        requires
            old(self).wf(),
        ensures
            final(self).wf(),
            final(self)@ == old(self)@.remove(name@),
    {
        let ghost s0 = self.items@;
        let idx = self.index_of(name);
        match idx {
            Some(i) => {
                proof {
                    assert(s0[i as int].key() == name@);
                    lemma_map_of_remove(s0, i as int);
                }
                self.items.remove(i);
                proof {
                    assert(self.items@ == s0.remove(i as int));
                    assert forall|a: int, b: int|
                        0 <= a < b < self.items@.len() implies self.items@[a].key()
                        != self.items@[b].key() by {
                        let a0 = if a < i as int {
                            a
                        } else {
                            a + 1
                        };
                        let b0 = if b < i as int {
                            b
                        } else {
                            b + 1
                        };
                        assert(self.items@[a] == s0[a0]);
                        assert(self.items@[b] == s0[b0]);
                        assert(s0[a0].key() != s0[b0].key());
                    }
                }
            },
            None => {
                proof {
                    assert(forall|j: int| 0 <= j < s0.len() ==> s0[j].key() != name@);
                    lemma_map_of_contains(s0, name@);
                    assert(!map_of(s0).dom().contains(name@));
                    assert(map_of(s0).remove(name@) =~= map_of(s0));
                }
            },
        }
    }
}

} // verus!
