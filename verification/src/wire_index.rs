//! Index from a peer's wire identity of a transfer to its public identifier.

use vstd::prelude::*;
use crate::identifiers::{DeviceId, TransferId};

verus! {

/// Which side of the link sends the files.
#[derive(Clone, Copy, Debug, PartialEq, Eq, Structural)]
pub enum TransferDirection {
    Inbound,
    Outbound,
}

/// A wire identifier means something only together with the peer and the
/// direction that it was used in.
#[derive(Clone, Copy, Debug, PartialEq, Eq, Structural)]
pub struct WireScope {
    pub peer: DeviceId,
    pub direction: TransferDirection,
    pub wire_id: TransferId,
}

struct WireLink {
    scope: WireScope,
    public_id: u128,
}

/// Map from wire scopes to public identifiers; no scope occurs twice.
pub struct WireIndex {
    links: Vec<WireLink>,
}

impl View for WireIndex {
    type V = Map<WireScope, u128>;

    closed spec fn view(&self) -> Map<WireScope, u128> {
        Map::new(
            |scope: WireScope| exists|i: int|
                0 <= i < self.links@.len() && #[trigger] self.links@[i].scope == scope,
            |scope: WireScope|
                self.links@[choose|i: int|
                    0 <= i < self.links@.len() && #[trigger] self.links@[i].scope
                        == scope].public_id,
        )
    }
}

impl WireIndex {
    /// No scope is linked twice.
    pub closed spec fn wf(&self) -> bool {
        forall|i: int, j: int|
            0 <= i < j < self.links@.len() ==> (#[trigger] self.links@[i]).scope != (
            #[trigger] self.links@[j]).scope
    }

    pub fn new() -> (index: WireIndex)
        ensures
            index.wf(),
            index@ == Map::<WireScope, u128>::empty(),
    {
        let index = WireIndex { links: Vec::new() };
        assert(index@ =~= Map::<WireScope, u128>::empty());
        index
    }

    /// How many scopes are linked.
    pub fn len(&self) -> (count: usize)
        requires
            self.wf(),
        ensures
            self@.dom().finite(),
            count == self@.dom().len(),
    {
        proof {
            lemma_links_count(self.links@, self@);
        }
        self.links.len()
    }

    fn position(&self, scope: WireScope) -> (found: Option<usize>)
        ensures
            match found {
                Some(i) => i < self.links@.len() && self.links@[i as int].scope == scope,
                None => forall|i: int|
                    0 <= i < self.links@.len() ==> (#[trigger] self.links@[i]).scope != scope,
            },
    {
        let mut i: usize = 0;
        while i < self.links.len()
            invariant
                i <= self.links@.len(),
                forall|k: int| 0 <= k < i ==> (#[trigger] self.links@[k]).scope != scope,
            decreases self.links@.len() - i,
        {
            if self.links[i].scope == scope {
                return Some(i);
            }
            i = i + 1;
        }
        None
    }

    /// The public identifier that `scope` is linked to.
    pub fn get(&self, scope: WireScope) -> (public_id: Option<u128>)
        requires
            self.wf(),
        ensures
            match public_id {
                Some(id) => self@.contains_key(scope) && self@[scope] == id,
                None => !self@.contains_key(scope),
            },
    {
        match self.position(scope) {
            Some(i) => {
                assert(self.links@[i as int].scope == scope);
                Some(self.links[i].public_id)
            },
            None => None,
        }
    }

    /// Links a scope that was not linked before.
    pub fn insert(&mut self, scope: WireScope, public_id: u128)
        requires
            old(self).wf(),
            !old(self)@.contains_key(scope),
        ensures
            final(self).wf(),
            final(self)@ == old(self)@.insert(scope, public_id),
    {
        let ghost before = self.links@;
        let ghost old_map = self@;
        self.links.push(WireLink { scope, public_id });
        proof {
            assert forall|i: int| 0 <= i < before.len() implies (#[trigger] before[i]).scope
                != scope by {
                if before[i].scope == scope {
                    assert(old_map.contains_key(scope));
                }
            }
            lemma_view_points(before, old_map);
            let after = self.links@;
            assert(forall|i: int| 0 <= i < before.len() ==> after[i] == #[trigger] before[i]);
            assert(after[before.len() as int].scope == scope);
            lemma_view_points(after, self@);
            assert forall|s: WireScope| #[trigger]
                self@.contains_key(s) <==> old_map.insert(scope, public_id).contains_key(s) by {
                if old_map.contains_key(s) {
                    let i = choose|i: int|
                        0 <= i < before.len() && #[trigger] before[i].scope == s;
                    assert(after[i].scope == s);
                }
                if self@.contains_key(s) {
                    let i = choose|i: int| 0 <= i < after.len() && #[trigger] after[i].scope == s;
                    if i < before.len() {
                        assert(before[i].scope == s);
                    }
                }
            }
            assert(self@ =~= old_map.insert(scope, public_id));
        }
    }

    /// Forgets a scope.
    pub fn remove(&mut self, scope: WireScope)
        requires
            old(self).wf(),
        ensures
            final(self).wf(),
            final(self)@ == old(self)@.remove(scope),
    {
        let ghost before = self.links@;
        let ghost old_map = self@;
        match self.position(scope) {
            Some(at) => {
                self.links.remove(at);
                proof {
                    let after = self.links@;
                    lemma_view_points(before, old_map);
                    assert(after =~= before.remove(at as int));
                    assert forall|i: int, j: int| 0 <= i < j < after.len() implies (
                    #[trigger] after[i]).scope != (#[trigger] after[j]).scope by {
                        let bi = if i < at { i } else { i + 1 };
                        let bj = if j < at { j } else { j + 1 };
                        assert(after[i] == before[bi]);
                        assert(after[j] == before[bj]);
                    }
                    lemma_view_points(after, self@);
                    assert forall|s: WireScope| #[trigger]
                        self@.contains_key(s) <==> old_map.remove(scope).contains_key(s) by {
                        if self@.contains_key(s) {
                            let i = choose|i: int|
                                0 <= i < after.len() && #[trigger] after[i].scope == s;
                            let bi = if i < at { i } else { i + 1 };
                            assert(after[i] == before[bi]);
                            assert(before[bi].scope == s);
                            assert(before[at as int].scope == scope);
                        }
                        if old_map.remove(scope).contains_key(s) {
                            let bi = choose|i: int|
                                0 <= i < before.len() && #[trigger] before[i].scope == s;
                            let i = if bi < at { bi } else { bi - 1 };
                            assert(after[i] == before[bi]);
                            assert(after[i].scope == s);
                        }
                    }
                    assert forall|s: WireScope| #[trigger]
                        self@.contains_key(s) implies self@[s] == old_map.remove(scope)[s] by {
                        let i = choose|i: int|
                            0 <= i < after.len() && #[trigger] after[i].scope == s;
                        let bi = if i < at { i } else { i + 1 };
                        assert(after[i] == before[bi]);
                    }
                    assert(self@ =~= old_map.remove(scope));
                }
            },
            None => {
                assert(!old_map.contains_key(scope));
                assert(self@ =~= old_map.remove(scope));
            },
        }
    }
}

spec fn distinct_scopes(links: Seq<WireLink>) -> bool {
    forall|i: int, j: int|
        0 <= i < j < links.len() ==> (#[trigger] links[i]).scope != (#[trigger] links[j]).scope
}

spec fn links_map(links: Seq<WireLink>) -> Map<WireScope, u128> {
    Map::new(
        |scope: WireScope| exists|i: int| 0 <= i < links.len() && #[trigger] links[i].scope == scope,
        |scope: WireScope|
            links[choose|i: int| 0 <= i < links.len() && #[trigger] links[i].scope
                == scope].public_id,
    )
}

proof fn lemma_view_points(links: Seq<WireLink>, map: Map<WireScope, u128>)
    requires
        distinct_scopes(links),
        map == links_map(links),
    ensures
        forall|i: int|
            0 <= i < links.len() ==> map.contains_key((#[trigger] links[i]).scope)
                && map[links[i].scope] == links[i].public_id,
{
    assert forall|i: int| 0 <= i < links.len() implies map.contains_key(
        (#[trigger] links[i]).scope,
    ) && map[links[i].scope] == links[i].public_id by {
        let s = links[i].scope;
        let j = choose|j: int| 0 <= j < links.len() && #[trigger] links[j].scope == s;
        if i < j {
            assert(links[i].scope != links[j].scope);
        } else if j < i {
            assert(links[j].scope != links[i].scope);
        }
    }
}

proof fn lemma_links_count(links: Seq<WireLink>, map: Map<WireScope, u128>)
    requires
        distinct_scopes(links),
        map == links_map(links),
    ensures
        map.dom().finite(),
        map.dom().len() == links.len(),
    decreases links.len(),
{
    if links.len() == 0 {
        assert(map.dom() =~= Set::<WireScope>::empty());
    } else {
        let shorter = links.drop_last();
        let last = links.last().scope;
        lemma_links_count(shorter, links_map(shorter));
        assert forall|s: WireScope| #[trigger]
            map.dom().contains(s) <==> links_map(shorter).dom().insert(last).contains(s) by {
            if map.dom().contains(s) {
                let i = choose|i: int| 0 <= i < links.len() && #[trigger] links[i].scope == s;
                if i < shorter.len() {
                    assert(shorter[i].scope == s);
                }
            }
            if links_map(shorter).dom().contains(s) {
                let i = choose|i: int| 0 <= i < shorter.len() && #[trigger] shorter[i].scope == s;
                assert(links[i].scope == s);
            }
            assert(links[links.len() - 1].scope == last);
        }
        assert(map.dom() =~= links_map(shorter).dom().insert(last));
        assert(!links_map(shorter).dom().contains(last)) by {
            if links_map(shorter).dom().contains(last) {
                let i = choose|i: int| 0 <= i < shorter.len() && #[trigger] shorter[i].scope
                    == last;
                assert(links[i].scope != links[links.len() - 1].scope);
            }
        }
    }
}

} // verus!
