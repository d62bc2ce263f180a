//! Sets of transfers, each of one peer.

use vstd::prelude::*;
use crate::identifiers::{DeviceId, TransferId};

verus! {

/// A transfer and the peer that it is exchanged with.
#[derive(Clone, Copy, Debug, PartialEq, Eq, Structural)]
pub struct PeerTransfer {
    pub peer: DeviceId,
    pub transfer: TransferId,
}

/// A set of transfers. The order of insertion is kept.
pub struct PeerTransferSet {
    items: Vec<PeerTransfer>,
}

/// `ids` names what `items` holds of `peer`, each transfer once.
pub open spec fn lists_peer(
    ids: Seq<TransferId>,
    items: Set<PeerTransfer>,
    peer: DeviceId,
) -> bool {
    &&& ids.no_duplicates()
    &&& forall|transfer: TransferId|
        #![trigger ids.contains(transfer)]
        ids.contains(transfer) <==> items.contains(PeerTransfer { peer, transfer })
}

impl View for PeerTransferSet {
    type V = Set<PeerTransfer>;

    closed spec fn view(&self) -> Set<PeerTransfer> {
        self.items@.to_set()
    }
}

impl PeerTransferSet {
    pub closed spec fn wf(&self) -> bool {
        self.items@.no_duplicates()
    }

    pub fn new() -> (set: PeerTransferSet)
        ensures
            set.wf(),
            set@ == Set::<PeerTransfer>::empty(),
    {
        let set = PeerTransferSet { items: Vec::new() };
        assert(set@ =~= Set::<PeerTransfer>::empty());
        set
    }

    fn place(&self, item: PeerTransfer) -> (found: Option<usize>)
        ensures
            match found {
                Some(at) => at < self.items@.len() && self.items@[at as int] == item,
                None => !self@.contains(item),
            },
    {
        let mut at: usize = 0;
        while at < self.items.len()
            invariant
                at <= self.items@.len(),
                forall|i: int| 0 <= i < at ==> #[trigger] self.items@[i] != item,
            decreases self.items@.len() - at,
        {
            if self.items[at] == item {
                return Some(at);
            }
            at = at + 1;
        }
        None
    }

    pub fn contains(&self, item: PeerTransfer) -> (found: bool)
        ensures
            found == self@.contains(item),
    {
        match self.place(item) {
            Some(at) => {
                assert(self.items@.contains(self.items@[at as int]));
                true
            },
            None => false,
        }
    }

    pub fn insert(&mut self, item: PeerTransfer)
        requires
            old(self).wf(),
        ensures
            final(self).wf(),
            final(self)@ == old(self)@.insert(item),
    {
        let known = self.contains(item);
        if known {
            assert(self@ =~= old(self)@.insert(item));
        } else {
            self.items.push(item);
            proof {
                let before = old(self).items@;
                let after = self.items@;
                assert(!before.contains(item));
                assert forall|x: PeerTransfer| #[trigger] self@.contains(x) <==> old(
                    self,
                )@.insert(item).contains(x) by {
                    if before.contains(x) {
                        let i = choose|i: int| 0 <= i < before.len() && before[i] == x;
                        assert(after[i] == x);
                    }
                    assert(after[before.len() as int] == item);
                }
                assert(self@ =~= old(self)@.insert(item));
                assert forall|i: int, j: int|
                    0 <= i < after.len() && 0 <= j < after.len() && i != j implies after[i]
                    != after[j] by {
                    if i < before.len() && j < before.len() {
                        assert(before[i] != before[j]);
                    } else if i < before.len() {
                        assert(before.contains(before[i]));
                    } else {
                        assert(before.contains(before[j]));
                    }
                }
            }
        }
    }

    pub fn remove(&mut self, item: PeerTransfer)
        requires
            old(self).wf(),
        ensures
            final(self).wf(),
            final(self)@ == old(self)@.remove(item),
    {
        match self.place(item) {
            Some(at) => {
                let ghost before = self.items@;
                self.items.remove(at);
                proof {
                    let after = self.items@;
                    assert forall|x: PeerTransfer| #[trigger] self@.contains(x) <==> old(
                        self,
                    )@.remove(item).contains(x) by {
                        if after.contains(x) {
                            let i = choose|i: int| 0 <= i < after.len() && after[i] == x;
                            let j = if i < at {
                                i
                            } else {
                                i + 1
                            };
                            assert(before[j] == x);
                            assert(before.contains(x));
                            assert(j != at);
                            assert(before[j] != before[at as int]);
                        }
                        if before.contains(x) && x != item {
                            let i = choose|i: int| 0 <= i < before.len() && before[i] == x;
                            if i < at {
                                assert(after[i] == x);
                            } else {
                                assert(after[i - 1] == x);
                            }
                        }
                    }
                    assert(self@ =~= old(self)@.remove(item));
                    assert forall|i: int, j: int|
                        0 <= i < after.len() && 0 <= j < after.len() && i != j implies after[i]
                        != after[j] by {
                        let p = if i < at {
                            i
                        } else {
                            i + 1
                        };
                        let q = if j < at {
                            j
                        } else {
                            j + 1
                        };
                        assert(before[p] != before[q]);
                    }
                }
            },
            None => {
                assert(self@ =~= old(self)@.remove(item));
            },
        }
    }

    /// The transfers of `peer`, each one once.
    pub fn of(&self, peer: DeviceId) -> (ids: Vec<TransferId>)
        requires
            self.wf(),
        ensures
            lists_peer(ids@, self@, peer),
    {
        let mut ids: Vec<TransferId> = Vec::new();
        let mut at: usize = 0;
        let ghost mut places: Seq<int> = Seq::empty();
        while at < self.items.len()
            invariant
                at <= self.items@.len(),
                self.wf(),
                places.len() == ids@.len(),
                forall|k: int|
                    0 <= k < ids@.len() ==> {
                        &&& 0 <= #[trigger] places[k] < at
                        &&& self.items@[places[k]] == (PeerTransfer { peer, transfer: ids@[k] })
                    },
                forall|k: int, l: int| 0 <= k < l < ids@.len() ==> places[k] < places[l],
                forall|i: int|
                    0 <= i < at && (#[trigger] self.items@[i]).peer == peer ==> ids@.contains(
                        self.items@[i].transfer,
                    ),
            decreases self.items@.len() - at,
        {
            let item = self.items[at];
            let ghost before = ids@;
            if item.peer == peer {
                ids.push(item.transfer);
                proof {
                    places = places.push(at as int);
                    assert(ids@[before.len() as int] == item.transfer);
                    assert forall|i: int|
                        0 <= i < at + 1 && (#[trigger] self.items@[i]).peer == peer implies ids@.contains(
                    self.items@[i].transfer) by {
                        if i < at {
                            let k = choose|k: int|
                                0 <= k < before.len() && before[k] == self.items@[i].transfer;
                            assert(ids@[k] == self.items@[i].transfer);
                        }
                    }
                }
            }
            at = at + 1;
        }
        proof {
            assert forall|k: int, l: int|
                0 <= k < ids@.len() && 0 <= l < ids@.len() && k != l implies ids@[k] != ids@[l] by {
                assert(places[k] != places[l]);
                assert(self.items@[places[k]] != self.items@[places[l]]);
            }
            assert forall|transfer: TransferId|
                #![trigger ids@.contains(transfer)]
                ids@.contains(transfer) <==> self@.contains(PeerTransfer { peer, transfer }) by {
                if ids@.contains(transfer) {
                    let k = choose|k: int| 0 <= k < ids@.len() && ids@[k] == transfer;
                    assert(self.items@[places[k]] == PeerTransfer { peer, transfer });
                    assert(self.items@.contains(PeerTransfer { peer, transfer }));
                }
                if self.items@.contains(PeerTransfer { peer, transfer }) {
                    let i = choose|i: int|
                        0 <= i < self.items@.len() && self.items@[i] == (PeerTransfer {
                            peer,
                            transfer,
                        });
                    assert(self.items@[i].peer == peer);
                }
            }
        }
        ids
    }

    /// The peers that have a transfer here, each once.
    pub fn peers(&self) -> (peers: Vec<DeviceId>)
        ensures
            peers@.no_duplicates(),
            forall|peer: DeviceId|
                #![trigger peers@.contains(peer)]
                peers@.contains(peer) <==> exists|transfer: TransferId|
                    self@.contains(PeerTransfer { peer, transfer }),
    {
        let mut peers: Vec<DeviceId> = Vec::new();
        let mut at: usize = 0;
        while at < self.items.len()
            invariant
                at <= self.items@.len(),
                peers@.no_duplicates(),
                forall|i: int|
                    0 <= i < at ==> peers@.contains((#[trigger] self.items@[i]).peer),
                forall|k: int|
                    0 <= k < peers@.len() ==> exists|i: int|
                        0 <= i < at && (#[trigger] self.items@[i]).peer == #[trigger] peers@[k],
            decreases self.items@.len() - at,
        {
            let peer = self.items[at].peer;
            let mut known = false;
            let mut next: usize = 0;
            while next < peers.len()
                invariant
                    next <= peers@.len(),
                    known == exists|k: int| 0 <= k < next && #[trigger] peers@[k] == peer,
                decreases peers@.len() - next,
            {
                if peers[next] == peer {
                    known = true;
                }
                next = next + 1;
            }
            let ghost before = peers@;
            if known {
                assert(peers@.contains(peer));
            } else {
                peers.push(peer);
                proof {
                    assert(peers@[before.len() as int] == peer);
                    assert forall|i: int| 0 <= i < at + 1 implies peers@.contains(
                        (#[trigger] self.items@[i]).peer,
                    ) by {
                        if i < at {
                            let k = choose|k: int|
                                0 <= k < before.len() && before[k] == self.items@[i].peer;
                            assert(peers@[k] == self.items@[i].peer);
                        }
                    }
                    assert forall|k: int| 0 <= k < peers@.len() implies exists|i: int|
                        0 <= i < at + 1 && (#[trigger] self.items@[i]).peer
                            == #[trigger] peers@[k] by {
                        if k < before.len() {
                            let i = choose|i: int|
                                0 <= i < at && (#[trigger] self.items@[i]).peer == before[k];
                            assert(self.items@[i].peer == peers@[k]);
                        } else {
                            assert(self.items@[at as int].peer == peers@[k]);
                        }
                    }
                }
            }
            at = at + 1;
        }
        proof {
            assert forall|peer: DeviceId|
                #![trigger peers@.contains(peer)]
                peers@.contains(peer) <==> exists|transfer: TransferId|
                    self@.contains(PeerTransfer { peer, transfer }) by {
                if peers@.contains(peer) {
                    let k = choose|k: int| 0 <= k < peers@.len() && peers@[k] == peer;
                    assert(peers@[k] == peer);
                    let i = choose|i: int|
                        0 <= i < at && (#[trigger] self.items@[i]).peer == peers@[k];
                    let item = self.items@[i];
                    assert(self.items@.contains(item));
                    assert(item == PeerTransfer { peer, transfer: item.transfer });
                    assert(self@.contains(PeerTransfer { peer, transfer: item.transfer }));
                }
                if exists|transfer: TransferId| self@.contains(PeerTransfer { peer, transfer }) {
                    let transfer = choose|transfer: TransferId|
                        self@.contains(PeerTransfer { peer, transfer });
                    let i = choose|i: int|
                        0 <= i < self.items@.len() && self.items@[i] == (PeerTransfer {
                            peer,
                            transfer,
                        });
                    assert(self.items@[i].peer == peer);
                }
            }
        }
        peers
    }

    /// Removes those of `peer` whose transfer is in `ids`.
    pub fn remove_listed(&mut self, peer: DeviceId, ids: &Vec<TransferId>)
        requires
            old(self).wf(),
        ensures
            final(self).wf(),
            final(self)@ == old(self)@.filter(
                |item: PeerTransfer| !(item.peer == peer && ids@.contains(item.transfer)),
            ),
    {
        let mut at: usize = 0;
        assert(self@ =~= old(self)@.filter(
            |item: PeerTransfer| !(item.peer == peer && ids@.take(0).contains(item.transfer)),
        ));
        while at < ids.len()
            invariant
                at <= ids@.len(),
                self.wf(),
                self@ == old(self)@.filter(
                    |item: PeerTransfer|
                        !(item.peer == peer && ids@.take(at as int).contains(item.transfer)),
                ),
            decreases ids@.len() - at,
        {
            let transfer = ids[at];
            self.remove(PeerTransfer { peer, transfer });
            proof {
                let longer = ids@.take(at + 1);
                let shorter = ids@.take(at as int);
                assert forall|x: TransferId| #[trigger] longer.contains(x) <==> shorter.contains(x)
                    || x == transfer by {
                    if longer.contains(x) {
                        let i = choose|i: int| 0 <= i < longer.len() && longer[i] == x;
                        if i < at {
                            assert(shorter[i] == x);
                        }
                    }
                    if shorter.contains(x) {
                        let i = choose|i: int| 0 <= i < shorter.len() && shorter[i] == x;
                        assert(longer[i] == x);
                    }
                    assert(longer[at as int] == transfer);
                }
                assert(self@ =~= old(self)@.filter(
                    |item: PeerTransfer| !(item.peer == peer && longer.contains(item.transfer)),
                ));
            }
            at = at + 1;
        }
        assert(ids@.take(at as int) =~= ids@);
    }

    /// Adds every transfer of `ids`, for `peer`.
    pub fn insert_listed(&mut self, peer: DeviceId, ids: &Vec<TransferId>)
        requires
            old(self).wf(),
        ensures
            final(self).wf(),
            forall|item: PeerTransfer| #[trigger]
                final(self)@.contains(item) <==> old(self)@.contains(item) || item.peer == peer
                    && ids@.contains(item.transfer),
    {
        let mut at: usize = 0;
        while at < ids.len()
            invariant
                at <= ids@.len(),
                self.wf(),
                forall|item: PeerTransfer| #[trigger]
                    self@.contains(item) <==> old(self)@.contains(item) || item.peer == peer
                        && ids@.take(at as int).contains(item.transfer),
            decreases ids@.len() - at,
        {
            let transfer = ids[at];
            self.insert(PeerTransfer { peer, transfer });
            proof {
                let longer = ids@.take(at + 1);
                let shorter = ids@.take(at as int);
                assert forall|x: TransferId| #[trigger] longer.contains(x) <==> shorter.contains(x)
                    || x == transfer by {
                    if longer.contains(x) {
                        let i = choose|i: int| 0 <= i < longer.len() && longer[i] == x;
                        if i < at {
                            assert(shorter[i] == x);
                        }
                    }
                    if shorter.contains(x) {
                        let i = choose|i: int| 0 <= i < shorter.len() && shorter[i] == x;
                        assert(longer[i] == x);
                    }
                    assert(longer[at as int] == transfer);
                }
            }
            at = at + 1;
        }
        assert(ids@.take(at as int) =~= ids@);
    }
}

} // verus!
