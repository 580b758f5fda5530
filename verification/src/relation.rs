//! The play/category relation: an explicit many-to-many table of
//! (play name, category name) pairs, abstracted as a set of pairs of
//! character sequences.

use crate::names::{CategoryName, PlayName};
use vstd::prelude::*;

verus! {

/// The view of one association.
pub open spec fn pair_view(p: (PlayName, CategoryName)) -> (Seq<char>, Seq<char>) {
    (p.0@, p.1@)
}

/// The set of associations described by a sequence of pairs.
pub open spec fn set_of(s: Seq<(PlayName, CategoryName)>) -> Set<(Seq<char>, Seq<char>)>
    decreases s.len(),
{
    if s.len() == 0 {
        Set::<(Seq<char>, Seq<char>)>::empty()
    } else {
        set_of(s.drop_last()).insert(pair_view(s.last()))
    }
}

/// No two entries describe the same association.
pub open spec fn unique_pairs(s: Seq<(PlayName, CategoryName)>) -> bool {
    forall|i: int, j: int| 0 <= i < j < s.len() ==> pair_view(s[i]) != pair_view(s[j])
}

/// An association is in the set exactly when some entry describes it.
pub proof fn lemma_set_of_contains(s: Seq<(PlayName, CategoryName)>, v: (Seq<char>, Seq<char>))
    ensures
        set_of(s).contains(v) <==> exists|i: int| 0 <= i < s.len() && pair_view(s[i]) == v,
    decreases s.len(),
{
    if s.len() == 0 {
    } else {
        lemma_set_of_contains(s.drop_last(), v);
        if pair_view(s.last()) == v {
            assert(pair_view(s[s.len() - 1]) == v);
        } else {
            if set_of(s).contains(v) {
                let i = choose|i: int|
                    0 <= i < s.drop_last().len() && pair_view(s.drop_last()[i]) == v;
                assert(pair_view(s[i]) == v);
            }
            if exists|i: int| 0 <= i < s.len() && pair_view(s[i]) == v {
                let i = choose|i: int| 0 <= i < s.len() && pair_view(s[i]) == v;
                assert(pair_view(s.drop_last()[i]) == v);
            }
        }
    }
}

/// Appending an entry inserts its association.
pub proof fn lemma_set_of_push(s: Seq<(PlayName, CategoryName)>, p: (PlayName, CategoryName))
    ensures
        set_of(s.push(p)) == set_of(s).insert(pair_view(p)),
{
    assert(s.push(p).drop_last() =~= s);
    assert(s.push(p).last() == p);
}

/// Removing the (unique) entry that describes an association removes it
/// from the set.
pub proof fn lemma_set_of_remove(s: Seq<(PlayName, CategoryName)>, i: int)
    requires
        0 <= i < s.len(),
        unique_pairs(s),
    ensures
        set_of(s.remove(i)) == set_of(s).remove(pair_view(s[i])),
    decreases s.len(),
{
    let v = pair_view(s[i]);
    if i == s.len() - 1 {
        assert(s.remove(i) =~= s.drop_last());
        lemma_set_of_contains(s.drop_last(), v);
        assert(forall|j: int|
            0 <= j < s.drop_last().len() ==> s.drop_last()[j] == s[j] && pair_view(s[j]) != v);
        assert(!set_of(s.drop_last()).contains(v));
        assert(set_of(s.drop_last()).insert(v).remove(v) =~= set_of(s.drop_last()));
    } else {
        assert(s.remove(i).drop_last() =~= s.drop_last().remove(i));
        assert(s.remove(i).last() == s.last());
        assert(s.drop_last()[i] == s[i]);
        lemma_set_of_remove(s.drop_last(), i);
        assert(pair_view(s.last()) != v);
        assert(set_of(s.drop_last()).remove(v).insert(pair_view(s.last())) =~= set_of(
            s.drop_last(),
        ).insert(pair_view(s.last())).remove(v));
    }
}

/// Growing a prefix by one entry inserts that entry's association.
pub proof fn lemma_set_of_subrange_step(s: Seq<(PlayName, CategoryName)>, i: int)
    requires
        0 <= i < s.len(),
    ensures
        set_of(s.subrange(0, i + 1)) == set_of(s.subrange(0, i)).insert(pair_view(s[i])),
{
    assert(s.subrange(0, i + 1).drop_last() =~= s.subrange(0, i));
    assert(s.subrange(0, i + 1).last() == s[i]);
}

/// The play/category relation table.
pub struct PairTable {
    pairs: Vec<(PlayName, CategoryName)>,
}

impl View for PairTable {
    type V = Set<(Seq<char>, Seq<char>)>;

    closed spec fn view(&self) -> Set<(Seq<char>, Seq<char>)> {
        set_of(self.pairs@)
    }
}

impl PairTable {
    /// Well-formedness: no association is recorded twice.
    pub closed spec fn wf(self) -> bool {
        unique_pairs(self.pairs@)
    }

    /// Creates an empty relation.
    pub fn new() -> (r: Self)
        ensures
            r.wf(),
            r@ == Set::<(Seq<char>, Seq<char>)>::empty(),
    {
        PairTable { pairs: Vec::new() }
    }

    /// The position of the entry describing an association, if any.
    fn index_of(&self, play: &PlayName, category: &CategoryName) -> (r: Option<usize>)
        ensures
            r matches Some(i) ==> i < self.pairs@.len() && pair_view(self.pairs@[i as int]) == (
            play@, category@),
            r is None ==> forall|i: int|
                0 <= i < self.pairs@.len() ==> pair_view(self.pairs@[i]) != (play@, category@),
    {
        let mut i: usize = 0;
        while i < self.pairs.len()
            invariant
                0 <= i <= self.pairs@.len(),
                forall|j: int| 0 <= j < i ==> pair_view(self.pairs@[j]) != (play@, category@),
            decreases self.pairs@.len() - i,
        {
            if self.pairs[i].0 == *play && self.pairs[i].1 == *category {
                return Some(i);
            }
            i += 1;
        }
        None
    }

    /// Whether the association is recorded.
    pub fn contains_pair(&self, play: &PlayName, category: &CategoryName) -> (r: bool)
        ensures
            r == self@.contains((play@, category@)),
    {
        let idx = self.index_of(play, category);
        proof {
            lemma_set_of_contains(self.pairs@, (play@, category@));
            match idx {
                Some(i) => {
                    assert(pair_view(self.pairs@[i as int]) == (play@, category@));
                },
                None => {},
            }
        }
        idx.is_some()
    }

    /// Records the association; recording it twice has the same effect as
    /// recording it once.
    pub fn insert_pair(&mut self, play: &PlayName, category: &CategoryName)
        requires
            old(self).wf(),
        ensures
            final(self).wf(),
            final(self)@ == old(self)@.insert((play@, category@)),
    {
        let ghost s0 = self.pairs@;
        let idx = self.index_of(play, category);
        match idx {
            Some(i) => {
                proof {
                    lemma_set_of_contains(s0, (play@, category@));
                    assert(pair_view(s0[i as int]) == (play@, category@));
                    assert(self@.contains((play@, category@)));
                    assert(self@.insert((play@, category@)) =~= self@);
                }
            },
            None => {
                let p = (play.clone(), category.clone());
                proof {
                    assert(pair_view(p) == (play@, category@));
                    lemma_set_of_push(s0, p);
                }
                self.pairs.push(p);
                proof {
                    assert(self.pairs@ == s0.push(p));
                    assert forall|a: int, b: int|
                        0 <= a < b < self.pairs@.len() implies pair_view(self.pairs@[a])
                        != pair_view(self.pairs@[b]) by {
                        if b < self.pairs@.len() - 1 {
                            assert(pair_view(s0[a]) != pair_view(s0[b]));
                        } else {
                            assert(self.pairs@[a] == s0[a]);
                            assert(self.pairs@[b] == p);
                        }
                    }
                }
            },
        }
    }

    /// Removes the association; removing an absent association leaves the
    /// relation unchanged.
    pub fn remove_pair(&mut self, play: &PlayName, category: &CategoryName)
        requires
            old(self).wf(),
        ensures
            final(self).wf(),
            final(self)@ == old(self)@.remove((play@, category@)),
    {
        let ghost s0 = self.pairs@;
        let idx = self.index_of(play, category);
        match idx {
            Some(i) => {
                proof {
                    assert(pair_view(s0[i as int]) == (play@, category@));
                    lemma_set_of_remove(s0, i as int);
                }
                self.pairs.remove(i);
                proof {
                    assert(self.pairs@ == s0.remove(i as int));
                    assert forall|a: int, b: int|
                        0 <= a < b < self.pairs@.len() implies pair_view(self.pairs@[a])
                        != pair_view(self.pairs@[b]) by {
                        let a0 = if a < i as int {
                            a
                        } else {
                            a + 1
                        };
                        let b0 = if b < i as int {
                            b
                        } else {
                            b + 1
                        };
                        assert(self.pairs@[a] == s0[a0]);
                        assert(self.pairs@[b] == s0[b0]);
                        assert(pair_view(s0[a0]) != pair_view(s0[b0]));
                    }
                }
            },
            None => {
                proof {
                    lemma_set_of_contains(s0, (play@, category@));
                    assert(!self@.contains((play@, category@)));
                    assert(self@.remove((play@, category@)) =~= self@);
                }
            },
        }
    }

    /// Removes every association of the given play.
    pub fn remove_play(&mut self, play: &PlayName)
        requires
            old(self).wf(),
        ensures
            final(self).wf(),
            final(self)@ == old(self)@.filter(
                (|pr: (Seq<char>, Seq<char>)| pr.0 != play@),
            ),
    {
        let ghost s0 = self.pairs@;
        let ghost pred = |pr: (Seq<char>, Seq<char>)| pr.0 != play@;
        let mut kept: Vec<(PlayName, CategoryName)> = Vec::new();
        let mut i: usize = 0;
        while i < self.pairs.len()
            invariant
                0 <= i <= s0.len(),
                self.pairs@ == s0,
                unique_pairs(s0),
                pred == (|pr: (Seq<char>, Seq<char>)| pr.0 != play@),
                unique_pairs(kept@),
                set_of(kept@) == set_of(s0.subrange(0, i as int)).filter(pred),
                forall|m: int|
                    0 <= m < kept@.len() ==> set_of(s0.subrange(0, i as int)).contains(
                        #[trigger] pair_view(kept@[m]),
                    ),
            decreases s0.len() - i,
        {
            let ghost prefix = s0.subrange(0, i as int);
            proof {
                lemma_set_of_subrange_step(s0, i as int);
            }
            let pair = &self.pairs[i];
            if !(pair.0 == *play) {
                let ghost kept0 = kept@;
                let p = (pair.0.clone(), pair.1.clone());
                proof {
                    assert(pair_view(p) == pair_view(s0[i as int]));
                    lemma_set_of_push(kept0, p);
                    assert forall|m: int| 0 <= m < kept0.len() implies pair_view(kept0[m])
                        != pair_view(p) by {
                        lemma_set_of_contains(prefix, pair_view(kept0[m]));
                        let j = choose|j: int|
                            0 <= j < prefix.len() && pair_view(prefix[j]) == pair_view(kept0[m]);
                        assert(prefix[j] == s0[j]);
                        assert(pair_view(s0[j]) != pair_view(s0[i as int]));
                    }
                }
                kept.push(p);
                proof {
                    assert(kept@ == kept0.push(p));
                    assert forall|a: int, b: int|
                        0 <= a < b < kept@.len() implies pair_view(kept@[a]) != pair_view(
                        kept@[b],
                    ) by {
                        if b < kept@.len() - 1 {
                            assert(pair_view(kept0[a]) != pair_view(kept0[b]));
                        } else {
                            assert(kept@[a] == kept0[a]);
                            assert(kept@[b] == p);
                        }
                    }
                    assert(set_of(kept@) =~= set_of(s0.subrange(0, i as int + 1)).filter(pred));
                }
            } else {
                proof {
                    assert(!pred(pair_view(s0[i as int])));
                    assert(set_of(kept@) =~= set_of(s0.subrange(0, i as int + 1)).filter(pred));
                }
            }
            i += 1;
        }
        proof {
            assert(s0.subrange(0, s0.len() as int) =~= s0);
        }
        self.pairs = kept;
    }

    /// Removes every association of the given category.
    pub fn remove_category(&mut self, category: &CategoryName)
        requires
            old(self).wf(),
        ensures
            final(self).wf(),
            final(self)@ == old(self)@.filter(
                (|pr: (Seq<char>, Seq<char>)| pr.1 != category@),
            ),
    {
        let ghost s0 = self.pairs@;
        let ghost pred = |pr: (Seq<char>, Seq<char>)| pr.1 != category@;
        let mut kept: Vec<(PlayName, CategoryName)> = Vec::new();
        let mut i: usize = 0;
        while i < self.pairs.len()
            invariant
                0 <= i <= s0.len(),
                self.pairs@ == s0,
                unique_pairs(s0),
                pred == (|pr: (Seq<char>, Seq<char>)| pr.1 != category@),
                unique_pairs(kept@),
                set_of(kept@) == set_of(s0.subrange(0, i as int)).filter(pred),
                forall|m: int|
                    0 <= m < kept@.len() ==> set_of(s0.subrange(0, i as int)).contains(
                        #[trigger] pair_view(kept@[m]),
                    ),
            decreases s0.len() - i,
        {
            let ghost prefix = s0.subrange(0, i as int);
            proof {
                lemma_set_of_subrange_step(s0, i as int);
            }
            let pair = &self.pairs[i];
            if !(pair.1 == *category) {
                let ghost kept0 = kept@;
                let p = (pair.0.clone(), pair.1.clone());
                proof {
                    assert(pair_view(p) == pair_view(s0[i as int]));
                    lemma_set_of_push(kept0, p);
                    assert forall|m: int| 0 <= m < kept0.len() implies pair_view(kept0[m])
                        != pair_view(p) by {
                        lemma_set_of_contains(prefix, pair_view(kept0[m]));
                        let j = choose|j: int|
                            0 <= j < prefix.len() && pair_view(prefix[j]) == pair_view(kept0[m]);
                        assert(prefix[j] == s0[j]);
                        assert(pair_view(s0[j]) != pair_view(s0[i as int]));
                    }
                }
                kept.push(p);
                proof {
                    assert(kept@ == kept0.push(p));
                    assert forall|a: int, b: int|
                        0 <= a < b < kept@.len() implies pair_view(kept@[a]) != pair_view(
                        kept@[b],
                    ) by {
                        if b < kept@.len() - 1 {
                            assert(pair_view(kept0[a]) != pair_view(kept0[b]));
                        } else {
                            assert(kept@[a] == kept0[a]);
                            assert(kept@[b] == p);
                        }
                    }
                    assert(set_of(kept@) =~= set_of(s0.subrange(0, i as int + 1)).filter(pred));
                }
            } else {
                proof {
                    assert(!pred(pair_view(s0[i as int])));
                    assert(set_of(kept@) =~= set_of(s0.subrange(0, i as int + 1)).filter(pred));
                }
            }
            i += 1;
        }
        proof {
            assert(s0.subrange(0, s0.len() as int) =~= s0);
        }
        self.pairs = kept;
    }

    /// The categories associated with a play. The result lists each such
    /// category exactly once, in no meaningful order.
    pub fn categories_of(&self, play: &PlayName) -> (r: Vec<CategoryName>)
        requires
            self.wf(),
        ensures
            forall|m: int| 0 <= m < r@.len() ==> self@.contains((play@, #[trigger] r@[m]@)),
            forall|c: Seq<char>|
                #[trigger] self@.contains((play@, c)) ==> exists|m: int|
                    0 <= m < r@.len() && r@[m]@ == c,
            forall|m: int, n: int| 0 <= m < n < r@.len() ==> r@[m]@ != r@[n]@,
    {
        let ghost s0 = self.pairs@;
        let mut out: Vec<CategoryName> = Vec::new();
        let mut i: usize = 0;
        while i < self.pairs.len()
            invariant
                0 <= i <= s0.len(),
                self.pairs@ == s0,
                unique_pairs(s0),
                forall|m: int|
                    0 <= m < out@.len() ==> set_of(s0.subrange(0, i as int)).contains(
                        (play@, #[trigger] out@[m]@),
                    ),
                forall|c: Seq<char>|
                    #[trigger] set_of(s0.subrange(0, i as int)).contains((play@, c)) ==> exists|
                        m: int,
                    |
                        0 <= m < out@.len() && out@[m]@ == c,
                forall|m: int, n: int| 0 <= m < n < out@.len() ==> out@[m]@ != out@[n]@,
            decreases s0.len() - i,
        {
            let ghost prefix = s0.subrange(0, i as int);
            proof {
                lemma_set_of_subrange_step(s0, i as int);
            }
            let pair = &self.pairs[i];
            if pair.0 == *play {
                let ghost out0 = out@;
                let c = pair.1.clone();
                proof {
                    assert((play@, c@) == pair_view(s0[i as int]));
                    lemma_set_of_contains(s0.subrange(0, i as int + 1), pair_view(s0[i as int]));
                    assert(s0.subrange(0, i as int + 1)[i as int] == s0[i as int]);
                    assert forall|m: int| 0 <= m < out0.len() implies out0[m]@ != c@ by {
                        lemma_set_of_contains(prefix, (play@, out0[m]@));
                        let j = choose|j: int|
                            0 <= j < prefix.len() && pair_view(prefix[j]) == (play@, out0[m]@);
                        assert(prefix[j] == s0[j]);
                        assert(pair_view(s0[j]) != pair_view(s0[i as int]));
                    }
                }
                out.push(c);
                proof {
                    assert(out@ == out0.push(out@[out@.len() - 1]));
                    assert forall|cv: Seq<char>| #[trigger] set_of(
                        s0.subrange(0, i as int + 1),
                    ).contains((play@, cv)) implies exists|m: int|
                        0 <= m < out@.len() && out@[m]@ == cv by {
                        if cv == c@ {
                            assert(out@[out@.len() - 1]@ == cv);
                        } else {
                            assert(set_of(prefix).contains((play@, cv)));
                            let m = choose|m: int| 0 <= m < out0.len() && out0[m]@ == cv;
                            assert(out@[m]@ == cv);
                        }
                    }
                }
            } else {
                proof {
                    assert(pair_view(s0[i as int]).0 != play@);
                    assert forall|cv: Seq<char>| #[trigger] set_of(
                        s0.subrange(0, i as int + 1),
                    ).contains((play@, cv)) implies exists|m: int|
                        0 <= m < out@.len() && out@[m]@ == cv by {
                        assert(set_of(prefix).contains((play@, cv)));
                    }
                }
            }
            i += 1;
        }
        proof {
            assert(s0.subrange(0, s0.len() as int) =~= s0);
        }
        out
    }

    /// The plays associated with a category. The result lists each such
    /// play exactly once, in no meaningful order.
    pub fn plays_of(&self, category: &CategoryName) -> (r: Vec<PlayName>)
        requires
            self.wf(),
        ensures
            forall|m: int| 0 <= m < r@.len() ==> self@.contains((#[trigger] r@[m]@, category@)),
            forall|p: Seq<char>|
                #[trigger] self@.contains((p, category@)) ==> exists|m: int|
                    0 <= m < r@.len() && r@[m]@ == p,
            forall|m: int, n: int| 0 <= m < n < r@.len() ==> r@[m]@ != r@[n]@,
    {
        let ghost s0 = self.pairs@;
        let mut out: Vec<PlayName> = Vec::new();
        let mut i: usize = 0;
        while i < self.pairs.len()
            invariant
                0 <= i <= s0.len(),
                self.pairs@ == s0,
                unique_pairs(s0),
                forall|m: int|
                    0 <= m < out@.len() ==> set_of(s0.subrange(0, i as int)).contains(
                        (#[trigger] out@[m]@, category@),
                    ),
                forall|p: Seq<char>|
                    #[trigger] set_of(s0.subrange(0, i as int)).contains((p, category@)) ==> exists|
                        m: int,
                    |
                        0 <= m < out@.len() && out@[m]@ == p,
                forall|m: int, n: int| 0 <= m < n < out@.len() ==> out@[m]@ != out@[n]@,
            decreases s0.len() - i,
        {
            let ghost prefix = s0.subrange(0, i as int);
            proof {
                lemma_set_of_subrange_step(s0, i as int);
            }
            let pair = &self.pairs[i];
            if pair.1 == *category {
                let ghost out0 = out@;
                let p = pair.0.clone();
                proof {
                    assert((p@, category@) == pair_view(s0[i as int]));
                    lemma_set_of_contains(s0.subrange(0, i as int + 1), pair_view(s0[i as int]));
                    assert(s0.subrange(0, i as int + 1)[i as int] == s0[i as int]);
                    assert forall|m: int| 0 <= m < out0.len() implies out0[m]@ != p@ by {
                        lemma_set_of_contains(prefix, (out0[m]@, category@));
                        let j = choose|j: int|
                            0 <= j < prefix.len() && pair_view(prefix[j]) == (out0[m]@, category@);
                        assert(prefix[j] == s0[j]);
                        assert(pair_view(s0[j]) != pair_view(s0[i as int]));
                    }
                }
                out.push(p);
                proof {
                    assert(out@ == out0.push(out@[out@.len() - 1]));
                    assert forall|pv: Seq<char>| #[trigger] set_of(
                        s0.subrange(0, i as int + 1),
                    ).contains((pv, category@)) implies exists|m: int|
                        0 <= m < out@.len() && out@[m]@ == pv by {
                        if pv == p@ {
                            assert(out@[out@.len() - 1]@ == pv);
                        } else {
                            assert(set_of(prefix).contains((pv, category@)));
                            let m = choose|m: int| 0 <= m < out0.len() && out0[m]@ == pv;
                            assert(out@[m]@ == pv);
                        }
                    }
                }
            } else {
                proof {
                    assert(pair_view(s0[i as int]).1 != category@);
                    assert forall|pv: Seq<char>| #[trigger] set_of(
                        s0.subrange(0, i as int + 1),
                    ).contains((pv, category@)) implies exists|m: int|
                        0 <= m < out@.len() && out@[m]@ == pv by {
                        assert(set_of(prefix).contains((pv, category@)));
                    }
                }
            }
            i += 1;
        }
        proof {
            assert(s0.subrange(0, s0.len() as int) =~= s0);
        }
        out
    }
}

} // verus!
