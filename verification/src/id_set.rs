//! Small set of identifiers.

use std::collections::HashSet;
use vstd::prelude::*;

verus! {

broadcast use vstd::std_specs::hash::group_hash_axioms;

/// A set of identifiers.
pub struct IdSet {
    ids: HashSet<u128>,
}

pub open spec fn ascending(ids: Seq<u128>) -> bool {
    forall|i: int, j: int| 0 <= i < j < ids.len() ==> #[trigger] ids[i] < #[trigger] ids[j]
}

impl View for IdSet {
    type V = Set<u128>;

    closed spec fn view(&self) -> Set<u128> {
        self.ids@
    }
}

/// Puts an identifier into its place in an ascending list.
fn insert_in_order(ids: &mut Vec<u128>, id: u128)
    requires
        ascending(old(ids)@),
        !old(ids)@.contains(id),
    ensures
        ascending(final(ids)@),
        final(ids)@.to_set() == old(ids)@.to_set().insert(id),
{
    let ghost before = ids@;
    let mut at: usize = 0;
    while at < ids.len() && ids[at] < id
        invariant
            at <= ids@.len(),
            ids@ == before,
            forall|i: int| 0 <= i < at ==> #[trigger] ids@[i] < id,
        decreases ids@.len() - at,
    {
        at = at + 1;
    }
    ids.insert(at, id);
    proof {
        let after = ids@;
        assert forall|i: int| at <= i < before.len() implies #[trigger] before[i] > id by {
            assert(before.contains(before[at as int]));
            if i > at {
                assert(before[at as int] < before[i]);
            }
        }
        assert forall|i: int, j: int| 0 <= i < j < after.len() implies #[trigger] after[i]
            < #[trigger] after[j] by {
            let a = if i < at { i } else { i - 1 };
            let b = if j < at { j } else { j - 1 };
            if i == at {
                assert(after[j] == before[b]);
            } else if j == at {
                assert(after[i] == before[a]);
            } else {
                assert(after[i] == before[a] && after[j] == before[b]);
            }
        }
        assert forall|x: u128| #[trigger] after.to_set().contains(x) <==> before.to_set().insert(
            id,
        ).contains(x) by {
            if after.contains(x) {
                let i = choose|i: int| 0 <= i < after.len() && after[i] == x;
                if i < at {
                    assert(before[i] == x);
                } else if i > at {
                    assert(before[i - 1] == x);
                }
            }
            if before.contains(x) {
                let i = choose|i: int| 0 <= i < before.len() && before[i] == x;
                if i < at {
                    assert(after[i] == x);
                } else {
                    assert(after[i + 1] == x);
                }
            }
            assert(after[at as int] == id);
        }
        assert(after.to_set() =~= before.to_set().insert(id));
    }
}

impl IdSet {
    /// The set is finite.
    pub closed spec fn wf(&self) -> bool {
        self.ids@.finite()
    }

    pub fn new() -> (set: IdSet)
        ensures
            set.wf(),
            set@ == Set::<u128>::empty(),
    {
        IdSet { ids: HashSet::new() }
    }

    /// How many identifiers are in the set.
    pub fn len(&self) -> (count: usize)
        requires
            self.wf(),
        ensures
            self@.finite(),
            count == self@.len(),
    {
        self.ids.len()
    }

    pub fn contains(&self, id: u128) -> (found: bool)
        requires
            self.wf(),
        ensures
            found == self@.contains(id),
    {
        self.ids.contains(&id)
    }

    /// Adds an identifier.
    pub fn insert(&mut self, id: u128)
        requires
            old(self).wf(),
        ensures
            final(self).wf(),
            final(self)@ == old(self)@.insert(id),
    {
        self.ids.insert(id);
    }

    /// Takes an identifier out, and says whether it was in.
    pub fn remove(&mut self, id: u128) -> (found: bool)
        requires
            old(self).wf(),
        ensures
            final(self).wf(),
            found == old(self)@.contains(id),
            final(self)@ == old(self)@.remove(id),
    {
        self.ids.remove(&id)
    }

    /// The identifiers in ascending order.
    pub fn to_vec(&self) -> (ids: Vec<u128>)
        requires
            self.wf(),
        ensures
            ascending(ids@),
            ids@.to_set() == self@,
    {
        let mut ids: Vec<u128> = Vec::new();
        for id in walk: self.ids.iter()
            invariant
                walk.seq().no_duplicates(),
                walk.seq().unref().to_set() == self.ids@,
                ascending(ids@),
                ids@.to_set() =~= walk.seq().unref().take(walk.index() as int).to_set(),
                walk.index() == walk.seq().len() ==> ids@.to_set() =~= self.ids@,
        {
            proof {
                let all = walk.seq().unref();
                let at = walk.index() as int;
                let seen = all.take(at);
                if ids@.contains(*id) {
                    assert(ids@.to_set().contains(*id));
                    assert(seen.contains(*id));
                    let i = choose|i: int| 0 <= i < seen.len() && seen[i] == *id;
                    assert(walk.seq()[i] == walk.seq()[at]);
                    assert(false);
                }
                let longer = all.take(at + 1);
                assert(longer =~= seen.push(*id));
                assert forall|x: u128| #[trigger] longer.to_set().contains(x)
                    <==> seen.to_set().insert(*id).contains(x) by {
                    if longer.contains(x) {
                        let i = choose|i: int| 0 <= i < longer.len() && longer[i] == x;
                        if i < at {
                            assert(seen[i] == x);
                        }
                    }
                    if seen.contains(x) {
                        let i = choose|i: int| 0 <= i < seen.len() && seen[i] == x;
                        assert(longer[i] == x);
                    }
                    assert(longer[at] == *id);
                }
                assert(longer.to_set() =~= seen.to_set().insert(*id));
                assert(at + 1 == all.len() ==> longer =~= all);
            }
            insert_in_order(&mut ids, *id);
        }
        assert(ids@.to_set() =~= self@);
        ids
    }

    /// Adds every identifier of a list.
    pub fn extend(&mut self, ids: &Vec<u128>)
        requires
            old(self).wf(),
        ensures
            final(self).wf(),
            final(self)@ == old(self)@.union(ids@.to_set()),
    {
        let mut at: usize = 0;
        assert(self@.union(ids@.take(0).to_set()) =~= self@);
        while at < ids.len()
            invariant
                at <= ids@.len(),
                self.wf(),
                self@ == old(self)@.union(ids@.take(at as int).to_set()),
            decreases ids@.len() - at,
        {
            self.insert(ids[at]);
            proof {
                let longer = ids@.take(at + 1);
                let shorter = ids@.take(at as int);
                assert(longer =~= shorter.push(ids@[at as int]));
                assert forall|x: u128| #[trigger] longer.to_set().contains(x)
                    <==> shorter.to_set().insert(ids@[at as int]).contains(x) by {
                    if longer.contains(x) {
                        let i = choose|i: int| 0 <= i < longer.len() && longer[i] == x;
                        if i < at {
                            assert(shorter[i] == x);
                        }
                    }
                    if shorter.contains(x) {
                        let i = choose|i: int| 0 <= i < shorter.len() && shorter[i] == x;
                        assert(longer[i] == x);
                    }
                    assert(longer[at as int] == ids@[at as int]);
                }
                assert(self@ =~= old(self)@.union(longer.to_set()));
            }
            at = at + 1;
        }
        assert(ids@.take(at as int) =~= ids@);
    }
}

} // verus!
