//! Displays of one workstation: native identifiers inside, session identifiers
//! outside.
//!
//! Native identifiers stay in `LocalDisplayMap`. Only session-scoped identifiers
//! enter topology messages or pointer payloads.

use vstd::prelude::*;

verus! {

broadcast use {vstd::seq_lib::group_to_multiset_ensures, vstd::multiset::group_multiset_axioms};

#[derive(Clone, Copy, Debug, PartialEq, Eq, Structural)]
pub enum DisplayRotation {
    Degrees0,
    Degrees90,
    Degrees180,
    Degrees270,
}

#[derive(Clone, Copy, Debug, PartialEq, Eq, Structural)]
pub enum TopologyRuntimeError {
    RevisionMismatch,
    UnexpectedAcknowledgement,
    InvalidNativeSnapshot,
    DisplayMappingUnavailable,
    InvalidEdgeConfiguration,
}

/// Geometry of a display in thousandths of a logical unit, apart from its pixels.
#[derive(Clone, Copy, Debug, PartialEq, Eq, Structural)]
pub struct DisplayGeometry {
    pub origin_x_milli: i32,
    pub origin_y_milli: i32,
    pub pixel_width: u32,
    pub pixel_height: u32,
    pub scale_x_milli: u16,
    pub scale_y_milli: u16,
    pub rotation: DisplayRotation,
    pub logical_width_milli: u64,
    pub logical_height_milli: u64,
}

/// What the platform says of one display. `native_id` never leaves this process.
#[derive(Clone, Copy, Debug, PartialEq, Eq, Structural)]
pub struct NativeDisplaySnapshot {
    pub native_id: u64,
    pub geometry: DisplayGeometry,
    /// Whether the display vocabulary takes such a display.
    pub admitted: bool,
}

/// What a peer learns of one display.
#[derive(Clone, Copy, Debug, PartialEq, Eq, Structural)]
pub struct DisplayDescriptor {
    pub id: u32,
    pub geometry: DisplayGeometry,
}

/// A display with both of its identifiers.
#[derive(Clone, Copy, Debug, PartialEq, Eq, Structural)]
pub struct PlacedDisplay {
    pub native_id: u64,
    pub descriptor: DisplayDescriptor,
}

/// The displays of one workstation at one revision.
#[derive(Debug, PartialEq, Eq)]
pub struct DisplayTopology {
    pub revision: u64,
    pub displays: Vec<DisplayDescriptor>,
}

pub struct TopologyModel {
    pub revision: u64,
    pub displays: Seq<DisplayDescriptor>,
}

impl View for DisplayTopology {
    type V = TopologyModel;

    open spec fn view(&self) -> TopologyModel {
        TopologyModel { revision: self.revision, displays: self.displays@ }
    }
}

/// The view of a topology that may be missing.
pub open spec fn topology_view(topology: Option<DisplayTopology>) -> Option<TopologyModel> {
    match topology {
        Some(known) => Some(known@),
        None => None,
    }
}

/// What a display map knows.
pub struct DisplayMapModel {
    pub placed: Seq<PlacedDisplay>,
    pub next_session_id: u32,
    pub revision: u64,
}

/// Session identifiers go up, and none is above `last`; no native identifier
/// occurs twice.
pub open spec fn placed_consistently(placed: Seq<PlacedDisplay>, last: u32) -> bool {
    &&& forall|i: int|
        0 <= i < placed.len() ==> 1 <= (#[trigger] placed[i]).descriptor.id <= last
    &&& forall|i: int, j: int|
        0 <= i < j < placed.len() ==> (#[trigger] placed[i]).descriptor.id < (
        #[trigger] placed[j]).descriptor.id
    &&& forall|i: int, j: int|
        0 <= i < j < placed.len() ==> (#[trigger] placed[i]).native_id != (
        #[trigger] placed[j]).native_id
}

pub open spec fn maps_native(placed: Seq<PlacedDisplay>, native: u64) -> bool {
    exists|i: int| 0 <= i < placed.len() && (#[trigger] placed[i]).native_id == native
}

pub open spec fn session_of(placed: Seq<PlacedDisplay>, native: u64) -> u32 {
    placed[choose|i: int| 0 <= i < placed.len() && (#[trigger] placed[i]).native_id
        == native].descriptor.id
}

pub open spec fn descriptors(placed: Seq<PlacedDisplay>) -> Seq<DisplayDescriptor> {
    placed.map_values(|display: PlacedDisplay| display.descriptor)
}

impl DisplayMapModel {
    pub open spec fn consistent(self) -> bool {
        &&& placed_consistently(self.placed, self.next_session_id)
        &&& self.revision == 0 ==> self.placed.len() == 0
    }

    /// How many of the first `n` displays have no session identifier yet.
    pub open spec fn unmapped(self, snapshots: Seq<NativeDisplaySnapshot>, n: int) -> int
        decreases n,
    {
        if n <= 0 {
            0
        } else if maps_native(self.placed, snapshots[n - 1].native_id) {
            self.unmapped(snapshots, n - 1)
        } else {
            self.unmapped(snapshots, n - 1) + 1
        }
    }

    /// The session identifier of display number `i`: the one that it has, or the
    /// next one that was never used.
    pub open spec fn assigned(self, snapshots: Seq<NativeDisplaySnapshot>, i: int) -> int {
        if maps_native(self.placed, snapshots[i].native_id) {
            session_of(self.placed, snapshots[i].native_id) as int
        } else {
            self.next_session_id + self.unmapped(snapshots, i) + 1
        }
    }

    /// The displays of a snapshot with both identifiers, in the platform's order.
    pub open spec fn placing(self, snapshots: Seq<NativeDisplaySnapshot>, n: int) -> Seq<
        PlacedDisplay,
    > {
        Seq::new(
            n as nat,
            |i: int|
                PlacedDisplay {
                    native_id: snapshots[i].native_id,
                    descriptor: DisplayDescriptor {
                        id: self.assigned(snapshots, i) as u32,
                        geometry: snapshots[i].geometry,
                    },
                },
        )
    }

    /// A snapshot that can be given session identifiers.
    pub open spec fn acceptable(
        self,
        snapshots: Seq<NativeDisplaySnapshot>,
        max_displays: usize,
    ) -> bool {
        &&& 1 <= snapshots.len() <= max_displays
        &&& forall|i: int| 0 <= i < snapshots.len() ==> (#[trigger] snapshots[i]).admitted
        &&& forall|i: int, j: int|
            0 <= i < j < snapshots.len() ==> (#[trigger] snapshots[i]).native_id != (
            #[trigger] snapshots[j]).native_id
        &&& self.next_session_id + self.unmapped(snapshots, snapshots.len() as int) <= u32::MAX
    }

    /// `placed` holds the displays of the snapshot in the order of their session
    /// identifiers.
    pub open spec fn reconciles(
        self,
        snapshots: Seq<NativeDisplaySnapshot>,
        placed: Seq<PlacedDisplay>,
    ) -> bool {
        &&& placed.to_multiset() == self.placing(snapshots, snapshots.len() as int).to_multiset()
        &&& placed_consistently(
            placed,
            (self.next_session_id + self.unmapped(snapshots, snapshots.len() as int)) as u32,
        )
    }

    /// The displays of the snapshot are those that are known.
    pub open spec fn unchanged_by(self, snapshots: Seq<NativeDisplaySnapshot>) -> bool {
        self.revision > 0 && exists|placed: Seq<PlacedDisplay>| #[trigger]
            self.reconciles(snapshots, placed) && descriptors(placed) == descriptors(self.placed)
    }

    /// The displays of the snapshot, as `placed`, are not those that are known.
    pub open spec fn changed_to(
        self,
        snapshots: Seq<NativeDisplaySnapshot>,
        placed: Seq<PlacedDisplay>,
    ) -> bool {
        &&& self.reconciles(snapshots, placed)
        &&& self.revision > 0 ==> descriptors(placed) != descriptors(self.placed)
    }

    /// Nothing can be made of the snapshot: it is not acceptable, or it changes
    /// the displays and they can have no other revision or are not admitted as a
    /// topology.
    pub open spec fn unusable(
        self,
        snapshots: Seq<NativeDisplaySnapshot>,
        max_displays: usize,
        topology_admitted: bool,
    ) -> bool {
        ||| !self.acceptable(snapshots, max_displays)
        ||| (self.revision == u64::MAX || !topology_admitted) && exists|placed: Seq<PlacedDisplay>|
            #[trigger]
            self.changed_to(snapshots, placed)
    }

    /// `next` is what the map is with the displays of the snapshot, which are
    /// others than the known ones.
    pub open spec fn changed_map(
        self,
        snapshots: Seq<NativeDisplaySnapshot>,
        max_displays: usize,
        next: DisplayMapModel,
    ) -> bool {
        &&& self.acceptable(snapshots, max_displays)
        &&& self.changed_to(snapshots, next.placed)
        &&& next.revision == self.revision + 1
        &&& next.next_session_id == self.next_session_id + self.unmapped(
            snapshots,
            snapshots.len() as int,
        )
    }

    /// `proposed` is the topology that a snapshot would lead to, if it would lead
    /// to another one.
    pub open spec fn proposes(
        self,
        snapshots: Seq<NativeDisplaySnapshot>,
        max_displays: usize,
        proposed: Option<TopologyModel>,
    ) -> bool {
        match proposed {
            Some(topology) => exists|next: DisplayMapModel| #[trigger]
                self.changed_map(snapshots, max_displays, next) && topology == (TopologyModel {
                    revision: next.revision,
                    displays: descriptors(next.placed),
                }),
            None => self.unusable(snapshots, max_displays, true) || self.unchanged_by(snapshots),
        }
    }
}

/// A change of the local displays that was worked out but not put into effect.
pub struct LocalTopologyCandidate {
    base_revision: u64,
    placed: Vec<PlacedDisplay>,
    next_session_id: u32,
    revision: u64,
}

impl LocalTopologyCandidate {
    #[verifier::type_invariant]
    spec fn consistent(self) -> bool {
        placed_consistently(self.placed@, self.next_session_id)
    }

    /// The revision that the candidate starts from.
    pub closed spec fn base(self) -> u64 {
        self.base_revision
    }

    /// What the display map is once the candidate is in effect.
    pub closed spec fn outcome(self) -> DisplayMapModel {
        DisplayMapModel {
            placed: self.placed@,
            next_session_id: self.next_session_id,
            revision: self.revision,
        }
    }

    /// The revision that the candidate would make current.
    pub fn revision(&self) -> (revision: u64)
        ensures
            revision == self.outcome().revision,
    {
        self.revision
    }
}

/// The current displays, with both kinds of identifiers.
pub struct LocalDisplayMap {
    placed: Vec<PlacedDisplay>,
    next_session_id: u32,
    revision: u64,
}

impl View for LocalDisplayMap {
    type V = DisplayMapModel;

    closed spec fn view(&self) -> DisplayMapModel {
        DisplayMapModel {
            placed: self.placed@,
            next_session_id: self.next_session_id,
            revision: self.revision,
        }
    }
}

proof fn lemma_session_of(placed: Seq<PlacedDisplay>, last: u32, i: int)
    requires
        placed_consistently(placed, last),
        0 <= i < placed.len(),
    ensures
        maps_native(placed, placed[i].native_id),
        session_of(placed, placed[i].native_id) == placed[i].descriptor.id,
{
    let native = placed[i].native_id;
    let k = choose|k: int| 0 <= k < placed.len() && (#[trigger] placed[k]).native_id == native;
    if k < i {
        assert(placed[k].native_id != placed[i].native_id);
    } else if i < k {
        assert(placed[i].native_id != placed[k].native_id);
    }
}

proof fn lemma_unmapped_bounds(m: DisplayMapModel, snapshots: Seq<NativeDisplaySnapshot>, n: int)
    requires
        0 <= n <= snapshots.len(),
    ensures
        0 <= m.unmapped(snapshots, n) <= n,
        forall|k: int|
            0 <= k <= n ==> #[trigger] m.unmapped(snapshots, k) <= m.unmapped(snapshots, n),
    decreases n,
{
    if n > 0 {
        lemma_unmapped_bounds(m, snapshots, n - 1);
    }
}

/// Two displays of one snapshot never get the same session identifier.
proof fn lemma_assigned_distinct(
    m: DisplayMapModel,
    snapshots: Seq<NativeDisplaySnapshot>,
    i: int,
    j: int,
)
    requires
        m.consistent(),
        0 <= i < j < snapshots.len(),
        snapshots[i].native_id != snapshots[j].native_id,
    ensures
        m.assigned(snapshots, i) != m.assigned(snapshots, j),
{
    let a = snapshots[i].native_id;
    let b = snapshots[j].native_id;
    lemma_unmapped_bounds(m, snapshots, j);
    lemma_unmapped_bounds(m, snapshots, i);
    if maps_native(m.placed, a) {
        let x = choose|x: int| 0 <= x < m.placed.len() && (#[trigger] m.placed[x]).native_id == a;
        lemma_session_of(m.placed, m.next_session_id, x);
        if maps_native(m.placed, b) {
            let y = choose|y: int|
                0 <= y < m.placed.len() && (#[trigger] m.placed[y]).native_id == b;
            lemma_session_of(m.placed, m.next_session_id, y);
            if x < y {
                assert(m.placed[x].descriptor.id < m.placed[y].descriptor.id);
            } else {
                assert(m.placed[y].descriptor.id < m.placed[x].descriptor.id);
            }
        }
    } else {
        assert(m.unmapped(snapshots, i + 1) == m.unmapped(snapshots, i) + 1);
        assert(m.unmapped(snapshots, i + 1) <= m.unmapped(snapshots, j));
        if maps_native(m.placed, b) {
            let y = choose|y: int|
                0 <= y < m.placed.len() && (#[trigger] m.placed[y]).native_id == b;
            lemma_session_of(m.placed, m.next_session_id, y);
        }
    }
}

/// `display` is one of the first `n` displays of the snapshot.
spec fn was_placed(
    m: DisplayMapModel,
    snapshots: Seq<NativeDisplaySnapshot>,
    n: int,
    display: PlacedDisplay,
) -> bool {
    exists|i: int| 0 <= i < n && #[trigger] m.placing(snapshots, n)[i] == display
}

/// Puts a display into its place by session identifier.
fn insert_by_session(placed: &mut Vec<PlacedDisplay>, display: PlacedDisplay)
    requires
        forall|i: int, j: int|
            0 <= i < j < old(placed)@.len() ==> (#[trigger] old(placed)@[i]).descriptor.id < (
            #[trigger] old(placed)@[j]).descriptor.id,
        forall|i: int|
            0 <= i < old(placed)@.len() ==> (#[trigger] old(placed)@[i]).descriptor.id
                != display.descriptor.id,
    ensures
        final(placed)@.to_multiset() == old(placed)@.to_multiset().insert(display),
        forall|i: int, j: int|
            0 <= i < j < final(placed)@.len() ==> (#[trigger] final(placed)@[i]).descriptor.id < (
            #[trigger] final(placed)@[j]).descriptor.id,
        final(placed)@.len() == old(placed)@.len() + 1,
        forall|k: int|
            0 <= k < final(placed)@.len() ==> #[trigger] final(placed)@[k] == display
                || old(placed)@.contains(final(placed)@[k]),
{
    let ghost before = placed@;
    let mut at: usize = 0;
    while at < placed.len() && placed[at].descriptor.id < display.descriptor.id
        invariant
            at <= placed@.len(),
            placed@ == before,
            forall|i: int| 0 <= i < at ==> (#[trigger] placed@[i]).descriptor.id < display.descriptor.id,
        decreases placed@.len() - at,
    {
        at = at + 1;
    }
    placed.insert(at, display);
    proof {
        let after = placed@;
        assert forall|i: int, j: int| 0 <= i < j < after.len() implies (
        #[trigger] after[i]).descriptor.id < (#[trigger] after[j]).descriptor.id by {
            let a = if i < at { i } else { i - 1 };
            let b = if j < at { j } else { j - 1 };
            if i == at {
                assert(after[j] == before[b]);
                assert(before[at as int].descriptor.id != display.descriptor.id);
                if b > at {
                    assert(before[at as int].descriptor.id < before[b].descriptor.id);
                }
            } else if j == at {
                assert(after[i] == before[a]);
            } else {
                assert(after[i] == before[a]);
                assert(after[j] == before[b]);
            }
        }
        assert forall|k: int| 0 <= k < after.len() implies #[trigger] after[k] == display
            || before.contains(after[k]) by {
            if k < at {
                assert(after[k] == before[k]);
            } else if k > at {
                assert(after[k] == before[k - 1]);
            }
        }
    }
}

impl LocalDisplayMap {
    #[verifier::type_invariant]
    spec fn well_formed(self) -> bool {
        self@.consistent()
    }

    pub fn new() -> (map: LocalDisplayMap)
        ensures
            map@ == (DisplayMapModel { placed: Seq::empty(), next_session_id: 0, revision: 0 }),
    {
        LocalDisplayMap { placed: Vec::new(), next_session_id: 0, revision: 0 }
    }

    fn mapped(&self, native: u64) -> (found: Option<u32>)
        ensures
            match found {
                Some(id) => maps_native(self@.placed, native) && id == session_of(
                    self@.placed,
                    native,
                ),
                None => !maps_native(self@.placed, native),
            },
    {
        proof {
            use_type_invariant(self);
        }
        let mut at: usize = 0;
        while at < self.placed.len()
            invariant
                at <= self.placed@.len(),
                self@.consistent(),
                forall|i: int| 0 <= i < at ==> (#[trigger] self.placed@[i]).native_id != native,
            decreases self.placed@.len() - at,
        {
            if self.placed[at].native_id == native {
                proof {
                    lemma_session_of(self@.placed, self.next_session_id, at as int);
                }
                return Some(self.placed[at].descriptor.id);
            }
            at = at + 1;
        }
        None
    }

    /// The topology that a snapshot would lead to, for the display vocabulary to
    /// admit or refuse; none, if there would be no other one.
    pub fn proposed_topology(&self, snapshots: &[NativeDisplaySnapshot], max_displays: usize) -> (
        proposed: Option<DisplayTopology>)
        ensures
            self@.proposes(snapshots@, max_displays, topology_view(proposed)),
    {
        match self.prepare_reconcile(snapshots, max_displays, true) {
            Ok(Some(candidate)) => {
                assert(self@.changed_map(snapshots@, max_displays, candidate.outcome()));
                Some(
                    DisplayTopology {
                        revision: candidate.revision,
                        displays: copy_descriptors(&candidate.placed),
                    },
                )
            },
            _ => None,
        }
    }

    /// Works out what a platform snapshot changes, without changing anything.
    /// `topology_admitted` is the vocabulary's answer on `proposed_topology`;
    /// where that is `None`, it does not matter.
    pub fn prepare_reconcile(
        &self,
        snapshots: &[NativeDisplaySnapshot],
        max_displays: usize,
        topology_admitted: bool,
    ) -> (candidate: Result<Option<LocalTopologyCandidate>, TopologyRuntimeError>)
        ensures
            match candidate {
                Err(error) => {
                    &&& error == TopologyRuntimeError::InvalidNativeSnapshot
                    &&& self@.unusable(snapshots@, max_displays, topology_admitted)
                },
                Ok(None) => {
                    &&& self@.acceptable(snapshots@, max_displays)
                    &&& self@.unchanged_by(snapshots@)
                },
                Ok(Some(new)) => {
                    &&& topology_admitted
                    &&& new.base() == self@.revision
                    &&& self@.changed_map(snapshots@, max_displays, new.outcome())
                },
            },
    {
        proof {
            use_type_invariant(self);
        }
        let ghost m = self@;
        let ghost s = snapshots@;
        let total: usize = snapshots.len();
        if total == 0 || total > max_displays {
            return Err(TopologyRuntimeError::InvalidNativeSnapshot);
        }
        let mut index: usize = 0;
        while index < total
            invariant
                index <= total,
                total == snapshots@.len(),
                s == snapshots@,
                forall|i: int, j: int|
                    0 <= i < j < index ==> (#[trigger] s[i]).native_id != (#[trigger] s[j]).native_id,
            decreases total - index,
        {
            let mut seen: usize = 0;
            while seen < index
                invariant
                    seen <= index < total,
                    total == snapshots@.len(),
                    s == snapshots@,
                    forall|i: int|
                        0 <= i < seen ==> (#[trigger] s[i]).native_id != s[index as int].native_id,
                decreases index - seen,
            {
                if snapshots[seen].native_id == snapshots[index].native_id {
                    assert(s[seen as int].native_id == s[index as int].native_id);
                    return Err(TopologyRuntimeError::InvalidNativeSnapshot);
                }
                seen = seen + 1;
            }
            index = index + 1;
        }
        let mut next_session_id: u32 = self.next_session_id;
        let mut placed: Vec<PlacedDisplay> = Vec::new();
        let mut at: usize = 0;
        while at < total
            invariant
                at <= total,
                total == snapshots@.len(),
                s == snapshots@,
                m == self@,
                m.consistent(),
                1 <= total <= max_displays,
                forall|i: int, j: int|
                    0 <= i < j < total ==> (#[trigger] s[i]).native_id != (#[trigger] s[j]).native_id,
                forall|i: int| 0 <= i < at ==> (#[trigger] s[i]).admitted,
                next_session_id == m.next_session_id + m.unmapped(s, at as int),
                placed@.len() == at,
                placed@.to_multiset() == m.placing(s, at as int).to_multiset(),
                placed_consistently(placed@, next_session_id),
                forall|k: int| 0 <= k < at ==> was_placed(m, s, at as int, #[trigger] placed@[k]),
            decreases total - at,
        {
            let snapshot: NativeDisplaySnapshot = snapshots[at];
            let ghost before = placed@;
            proof {
                lemma_unmapped_bounds(m, s, total as int);
                lemma_unmapped_bounds(m, s, at as int);
                assert(m.unmapped(s, at + 1) <= m.unmapped(s, total as int));
            }
            let id: u32 = match self.mapped(snapshot.native_id) {
                Some(id) => {
                    let ghost x = choose|x: int|
                        0 <= x < m.placed.len() && (#[trigger] m.placed[x]).native_id
                            == snapshot.native_id;
                    proof {
                        lemma_session_of(m.placed, m.next_session_id, x);
                    }
                    id
                },
                None => match next_session_id.checked_add(1) {
                    Some(id) => {
                        next_session_id = id;
                        id
                    },
                    None => {
                        return Err(TopologyRuntimeError::InvalidNativeSnapshot);
                    },
                },
            };
            assert(id == m.assigned(s, at as int));
            if !snapshot.admitted {
                assert(!s[at as int].admitted);
                return Err(TopologyRuntimeError::InvalidNativeSnapshot);
            }
            let display = PlacedDisplay {
                native_id: snapshot.native_id,
                descriptor: DisplayDescriptor { id, geometry: snapshot.geometry },
            };
            proof {
                assert forall|k: int| 0 <= k < before.len() implies (
                #[trigger] before[k]).descriptor.id != id && before[k].native_id
                    != display.native_id by {
                    assert(was_placed(m, s, at as int, before[k]));
                    let i = choose|i: int|
                        0 <= i < at && #[trigger] m.placing(s, at as int)[i] == before[k];
                    assert(s[i].native_id != s[at as int].native_id);
                    lemma_assigned_distinct(m, s, i, at as int);
                    lemma_assigned_small(m, s, i, at as int, next_session_id);
                }
            }
            insert_by_session(&mut placed, display);
            proof {
                let longer = m.placing(s, at + 1);
                let shorter = m.placing(s, at as int);
                assert(longer =~= shorter.push(display));
                assert(longer.to_multiset() == shorter.to_multiset().insert(display));
                assert forall|k: int| 0 <= k < placed@.len() implies 1 <= (
                #[trigger] placed@[k]).descriptor.id <= next_session_id by {
                    if placed@[k] != display {
                        let b = choose|b: int| 0 <= b < before.len() && before[b] == placed@[k];
                        assert(1 <= before[b].descriptor.id);
                    }
                }
                assert forall|i: int, j: int| 0 <= i < j < placed@.len() implies (
                #[trigger] placed@[i]).native_id != (#[trigger] placed@[j]).native_id by {
                    assert(placed@[i].descriptor.id < placed@[j].descriptor.id);
                    if placed@[i] == display {
                        assert(before.contains(placed@[j]));
                    } else if placed@[j] == display {
                        assert(before.contains(placed@[i]));
                    } else {
                        let a = choose|a: int| 0 <= a < before.len() && before[a] == placed@[i];
                        let b = choose|b: int| 0 <= b < before.len() && before[b] == placed@[j];
                        if a < b {
                            assert(before[a].native_id != before[b].native_id);
                        } else {
                            assert(before[b].native_id != before[a].native_id);
                        }
                    }
                }
            }
            at = at + 1;
            proof {
                let longer = m.placing(s, at as int);
                let shorter = m.placing(s, at - 1);
                assert forall|k: int| 0 <= k < at implies was_placed(
                    m,
                    s,
                    at as int,
                    #[trigger] placed@[k],
                ) by {
                    if placed@[k] == display {
                        assert(longer[at - 1] == placed@[k]);
                    } else {
                        let b = choose|b: int| 0 <= b < before.len() && before[b] == placed@[k];
                        assert(was_placed(m, s, at - 1, before[b]));
                        let i = choose|i: int| 0 <= i < at - 1 && #[trigger] shorter[i] == before[b];
                        assert(longer[i] == placed@[k]);
                    }
                }
            }
        }
        assert(m.acceptable(s, max_displays));
        assert(m.reconciles(s, placed@));
        if self.revision > 0 && self.same_descriptors(&placed) {
            return Ok(None);
        }
        assert(m.changed_to(s, placed@));
        match self.revision.checked_add(1) {
            Some(revision) => {
                if !topology_admitted {
                    return Err(TopologyRuntimeError::InvalidNativeSnapshot);
                }
                let candidate = LocalTopologyCandidate {
                    base_revision: self.revision,
                    placed,
                    next_session_id,
                    revision,
                };
                Ok(Some(candidate))
            },
            None => Err(TopologyRuntimeError::InvalidNativeSnapshot),
        }
    }

    fn same_descriptors(&self, placed: &Vec<PlacedDisplay>) -> (same: bool)
        ensures
            same == (descriptors(placed@) == descriptors(self@.placed)),
    {
        if placed.len() != self.placed.len() {
            assert(descriptors(placed@).len() != descriptors(self@.placed).len());
            return false;
        }
        let mut at: usize = 0;
        while at < placed.len()
            invariant
                at <= placed@.len(),
                placed@.len() == self.placed@.len(),
                forall|i: int|
                    0 <= i < at ==> (#[trigger] placed@[i]).descriptor == self.placed@[i].descriptor,
            decreases placed@.len() - at,
        {
            if placed[at].descriptor != self.placed[at].descriptor {
                assert(descriptors(placed@)[at as int] != descriptors(self@.placed)[at as int]);
                return false;
            }
            at = at + 1;
        }
        assert(descriptors(placed@) =~= descriptors(self@.placed));
        true
    }

    /// Puts a candidate into effect, unless another one came first.
    pub fn commit(&mut self, candidate: LocalTopologyCandidate) -> (topology: Result<
        DisplayTopology,
        TopologyRuntimeError,
    >)
        ensures
            ({
                let stale = old(self)@.revision != candidate.base()
                    || candidate.outcome().revision as int != if candidate.base() == u64::MAX {
                    u64::MAX as int
                } else {
                    candidate.base() + 1
                };
                match topology {
                    Err(error) => {
                        &&& stale
                        &&& error == TopologyRuntimeError::RevisionMismatch
                        &&& final(self)@ == old(self)@
                    },
                    Ok(published) => {
                        &&& !stale
                        &&& final(self)@ == candidate.outcome()
                        &&& published@ == (TopologyModel {
                            revision: candidate.outcome().revision,
                            displays: descriptors(candidate.outcome().placed),
                        })
                    },
                }
            }),
    {
        proof {
            use_type_invariant(&candidate);
        }
        if self.revision != candidate.base_revision || candidate.revision
            != candidate.base_revision.saturating_add(1) {
            return Err(TopologyRuntimeError::RevisionMismatch);
        }
        let LocalTopologyCandidate { base_revision: _, placed, next_session_id, revision } =
            candidate;
        let displays = copy_descriptors(&placed);
        *self = LocalDisplayMap { placed, next_session_id, revision };
        Ok(DisplayTopology { revision, displays })
    }

    /// Whether any displays are known.
    pub fn is_known(&self) -> (known: bool)
        ensures
            known == (self@.revision > 0),
    {
        self.revision > 0
    }

    /// The displays as a peer sees them.
    pub fn topology(&self) -> (topology: Option<DisplayTopology>)
        ensures
            topology_view(topology) == if self@.revision > 0 {
                Some(
                    TopologyModel {
                        revision: self@.revision,
                        displays: descriptors(self@.placed),
                    },
                )
            } else {
                None
            },
    {
        if self.revision > 0 {
            Some(
                DisplayTopology {
                    revision: self.revision,
                    displays: copy_descriptors(&self.placed),
                },
            )
        } else {
            None
        }
    }

    /// The session identifier of a native display.
    pub fn session_id(&self, native: u64) -> (session: Option<u32>)
        ensures
            session == if maps_native(self@.placed, native) {
                Some(session_of(self@.placed, native))
            } else {
                None
            },
    {
        self.mapped(native)
    }

    /// The native display behind a session identifier.
    pub fn native_id(&self, session: u32) -> (native: Option<u64>)
        ensures
            match native {
                Some(id) => maps_native(self@.placed, id) && session_of(self@.placed, id)
                    == session,
                None => forall|i: int|
                    0 <= i < self@.placed.len() ==> (#[trigger] self@.placed[i]).descriptor.id
                        != session,
            },
    {
        proof {
            use_type_invariant(self);
        }
        let mut at: usize = 0;
        while at < self.placed.len()
            invariant
                at <= self.placed@.len(),
                self@.consistent(),
                forall|i: int|
                    0 <= i < at ==> (#[trigger] self.placed@[i]).descriptor.id != session,
            decreases self.placed@.len() - at,
        {
            if self.placed[at].descriptor.id == session {
                proof {
                    lemma_session_of(self@.placed, self.next_session_id, at as int);
                }
                return Some(self.placed[at].native_id);
            }
            at = at + 1;
        }
        None
    }
}

/// A session identifier that display `i` got before display `at` is still exact
/// as a thirty-two bit number.
proof fn lemma_assigned_small(
    m: DisplayMapModel,
    snapshots: Seq<NativeDisplaySnapshot>,
    i: int,
    at: int,
    last: u32,
)
    requires
        m.consistent(),
        0 <= i < at < snapshots.len(),
        m.next_session_id + m.unmapped(snapshots, at) <= last,
    ensures
        1 <= m.assigned(snapshots, i) <= last,
{
    lemma_unmapped_bounds(m, snapshots, at);
    lemma_unmapped_bounds(m, snapshots, i);
    let native = snapshots[i].native_id;
    if maps_native(m.placed, native) {
        let x = choose|x: int|
            0 <= x < m.placed.len() && (#[trigger] m.placed[x]).native_id == native;
        lemma_session_of(m.placed, m.next_session_id, x);
    } else {
        assert(m.unmapped(snapshots, i + 1) == m.unmapped(snapshots, i) + 1);
    }
}

/// A display that stays keeps its session identifier; one that comes gets an
/// identifier that no display of this session ever had.
pub proof fn law_session_identifiers_are_stable_and_never_reused(
    m: DisplayMapModel,
    snapshots: Seq<NativeDisplaySnapshot>,
    max_displays: usize,
    placed: Seq<PlacedDisplay>,
    k: int,
)
    requires
        m.consistent(),
        m.acceptable(snapshots, max_displays),
        m.reconciles(snapshots, placed),
        0 <= k < placed.len(),
    ensures
        if maps_native(m.placed, placed[k].native_id) {
            placed[k].descriptor.id == session_of(m.placed, placed[k].native_id)
        } else {
            placed[k].descriptor.id > m.next_session_id
        },
        exists|i: int|
            0 <= i < snapshots.len() && (#[trigger] snapshots[i]).native_id == placed[k].native_id
                && snapshots[i].geometry == placed[k].descriptor.geometry,
{
    let n = snapshots.len() as int;
    let all = m.placing(snapshots, n);
    assert(placed.contains(placed[k]));
    assert(placed.to_multiset().contains(placed[k]));
    assert(all.contains(placed[k]));
    let i = choose|i: int| 0 <= i < all.len() && all[i] == placed[k];
    lemma_unmapped_bounds(m, snapshots, n);
    lemma_unmapped_bounds(m, snapshots, i);
    if maps_native(m.placed, snapshots[i].native_id) {
        let x = choose|x: int|
            0 <= x < m.placed.len() && (#[trigger] m.placed[x]).native_id == snapshots[i].native_id;
        lemma_session_of(m.placed, m.next_session_id, x);
    } else {
        assert(m.unmapped(snapshots, i + 1) == m.unmapped(snapshots, i) + 1);
        assert(m.unmapped(snapshots, i + 1) <= m.unmapped(snapshots, n));
    }
    assert(snapshots[i].native_id == placed[k].native_id);
}

/// A display that is gone no longer resolves.
pub proof fn law_removed_displays_do_not_resolve(
    m: DisplayMapModel,
    snapshots: Seq<NativeDisplaySnapshot>,
    max_displays: usize,
    placed: Seq<PlacedDisplay>,
    native: u64,
)
    requires
        m.consistent(),
        m.acceptable(snapshots, max_displays),
        m.reconciles(snapshots, placed),
        forall|i: int| 0 <= i < snapshots.len() ==> (#[trigger] snapshots[i]).native_id != native,
    ensures
        !maps_native(placed, native),
        maps_native(m.placed, native) ==> forall|k: int|
            0 <= k < placed.len() ==> (#[trigger] placed[k]).descriptor.id != session_of(
                m.placed,
                native,
            ),
{
    assert forall|k: int| 0 <= k < placed.len() implies (#[trigger] placed[k]).native_id
        != native by {
        law_session_identifiers_are_stable_and_never_reused(m, snapshots, max_displays, placed, k);
    }
    if maps_native(m.placed, native) {
        let x = choose|x: int|
            0 <= x < m.placed.len() && (#[trigger] m.placed[x]).native_id == native;
        lemma_session_of(m.placed, m.next_session_id, x);
        assert forall|k: int| 0 <= k < placed.len() implies (#[trigger] placed[k]).descriptor.id
            != session_of(m.placed, native) by {
            law_session_identifiers_are_stable_and_never_reused(
                m,
                snapshots,
                max_displays,
                placed,
                k,
            );
            let other = placed[k].native_id;
            if maps_native(m.placed, other) {
                let y = choose|y: int|
                    0 <= y < m.placed.len() && (#[trigger] m.placed[y]).native_id == other;
                lemma_session_of(m.placed, m.next_session_id, y);
                if x < y {
                    assert(m.placed[x].descriptor.id < m.placed[y].descriptor.id);
                } else {
                    assert(m.placed[y].descriptor.id < m.placed[x].descriptor.id);
                }
            }
        }
    }
}

fn copy_descriptors(placed: &Vec<PlacedDisplay>) -> (displays: Vec<DisplayDescriptor>)
    ensures
        displays@ == descriptors(placed@),
{
    let mut displays: Vec<DisplayDescriptor> = Vec::new();
    let mut at: usize = 0;
    while at < placed.len()
        invariant
            at <= placed@.len(),
            displays@ == descriptors(placed@.take(at as int)),
        decreases placed@.len() - at,
    {
        displays.push(placed[at].descriptor);
        assert(descriptors(placed@.take(at + 1)) =~= descriptors(placed@.take(at as int)).push(
            placed@[at as int].descriptor,
        ));
        at = at + 1;
    }
    assert(placed@.take(at as int) =~= placed@);
    displays
}

/// A snapshot can be taken only if it shows a display and no more than the limit,
/// each of them once and admitted; and while there are numbers left, every such
/// snapshot can.
pub proof fn law_snapshots_are_taken_as_they_fit(
    m: DisplayMapModel,
    snapshots: Seq<NativeDisplaySnapshot>,
    max_displays: usize,
)
    ensures
        ({
            let fits = {
                &&& 1 <= snapshots.len() <= max_displays
                &&& forall|i: int| 0 <= i < snapshots.len() ==> (#[trigger] snapshots[i]).admitted
                &&& forall|i: int, j: int|
                    0 <= i < j < snapshots.len() ==> (#[trigger] snapshots[i]).native_id != (
                    #[trigger] snapshots[j]).native_id
            };
            &&& m.acceptable(snapshots, max_displays) ==> fits
            &&& fits && m.next_session_id + snapshots.len() <= 0xffff_ffff ==> m.acceptable(
                snapshots,
                max_displays,
            )
            &&& fits && (forall|i: int|
                0 <= i < snapshots.len() ==> maps_native(
                    m.placed,
                    (#[trigger] snapshots[i]).native_id,
                )) ==> m.acceptable(snapshots, max_displays)
        }),
{
    let n = snapshots.len() as int;
    lemma_unmapped_bounds(m, snapshots, n);
    if forall|i: int|
        0 <= i < snapshots.len() ==> maps_native(m.placed, (#[trigger] snapshots[i]).native_id) {
        lemma_all_mapped(m, snapshots, n);
    }
}

proof fn lemma_all_mapped(m: DisplayMapModel, snapshots: Seq<NativeDisplaySnapshot>, n: int)
    requires
        0 <= n <= snapshots.len(),
        forall|i: int|
            0 <= i < n ==> maps_native(m.placed, (#[trigger] snapshots[i]).native_id),
    ensures
        m.unmapped(snapshots, n) == 0,
    decreases n,
{
    if n > 0 {
        assert(maps_native(m.placed, snapshots[n - 1].native_id));
        lemma_all_mapped(m, snapshots, n - 1);
    }
}

/// New displays are numbered in the order of the snapshot, without a gap, from the
/// first number that was never used.
pub proof fn law_new_displays_are_numbered_in_order(
    m: DisplayMapModel,
    snapshots: Seq<NativeDisplaySnapshot>,
    i: int,
    j: int,
)
    requires
        0 <= i < j < snapshots.len(),
        !maps_native(m.placed, snapshots[i].native_id),
        !maps_native(m.placed, snapshots[j].native_id),
    ensures
        m.assigned(snapshots, i) > m.next_session_id,
        m.assigned(snapshots, i) < m.assigned(snapshots, j),
        (forall|k: int|
            0 <= k < i ==> maps_native(m.placed, (#[trigger] snapshots[k]).native_id))
            ==> m.assigned(snapshots, i) == m.next_session_id + 1,
        (forall|k: int|
            i < k < j ==> maps_native(m.placed, (#[trigger] snapshots[k]).native_id))
            ==> m.assigned(snapshots, j) == m.assigned(snapshots, i) + 1,
{
    lemma_unmapped_bounds(m, snapshots, i);
    lemma_unmapped_bounds(m, snapshots, j);
    assert(m.unmapped(snapshots, i + 1) == m.unmapped(snapshots, i) + 1);
    assert(m.unmapped(snapshots, i + 1) <= m.unmapped(snapshots, j));
    if forall|k: int|
        0 <= k < i ==> maps_native(m.placed, (#[trigger] snapshots[k]).native_id) {
        lemma_all_mapped(m, snapshots, i);
    }
    if forall|k: int|
        i < k < j ==> maps_native(m.placed, (#[trigger] snapshots[k]).native_id) {
        lemma_mapped_between(m, snapshots, i + 1, j);
    }
}

proof fn lemma_mapped_between(
    m: DisplayMapModel,
    snapshots: Seq<NativeDisplaySnapshot>,
    from: int,
    to: int,
)
    requires
        0 <= from <= to <= snapshots.len(),
        forall|k: int|
            from <= k < to ==> maps_native(m.placed, (#[trigger] snapshots[k]).native_id),
    ensures
        m.unmapped(snapshots, to) == m.unmapped(snapshots, from),
    decreases to - from,
{
    if from < to {
        assert(maps_native(m.placed, snapshots[to - 1].native_id));
        lemma_mapped_between(m, snapshots, from, to - 1);
    }
}

/// Every display of a snapshot is placed, with its geometry, and no other; they
/// stand in the order of their numbers, which start at one.
pub proof fn law_every_display_is_placed(
    m: DisplayMapModel,
    snapshots: Seq<NativeDisplaySnapshot>,
    placed: Seq<PlacedDisplay>,
    i: int,
)
    requires
        m.reconciles(snapshots, placed),
        0 <= i < snapshots.len(),
    ensures
        placed.len() == snapshots.len(),
        exists|k: int|
            0 <= k < placed.len() && (#[trigger] placed[k]).native_id == snapshots[i].native_id
                && placed[k].descriptor.geometry == snapshots[i].geometry,
        forall|k: int| 0 <= k < placed.len() ==> (#[trigger] placed[k]).descriptor.id >= 1,
        forall|k: int, l: int|
            0 <= k < l < placed.len() ==> (#[trigger] placed[k]).descriptor.id < (
            #[trigger] placed[l]).descriptor.id,
{
    let all = m.placing(snapshots, snapshots.len() as int);
    assert(placed.to_multiset().len() == placed.len());
    assert(all.to_multiset().len() == all.len());
    assert(all.contains(all[i]));
    assert(placed.to_multiset().count(all[i]) > 0);
    assert(placed.contains(all[i]));
    let k = choose|k: int| 0 <= k < placed.len() && placed[k] == all[i];
    assert(placed[k].native_id == snapshots[i].native_id);
}

/// Displays that changed have the next revision, differ from those that were
/// known, and leave every number that was used behind. What is unchanged shows the
/// peer the same displays.
pub proof fn law_changes_raise_the_revision(
    m: DisplayMapModel,
    snapshots: Seq<NativeDisplaySnapshot>,
    max_displays: usize,
    next: DisplayMapModel,
)
    ensures
        m.changed_map(snapshots, max_displays, next) ==> {
            &&& next.revision == m.revision + 1
            &&& m.next_session_id <= next.next_session_id <= m.next_session_id + snapshots.len()
            &&& m.revision > 0 ==> !(descriptors(next.placed) == descriptors(m.placed))
            &&& next.placed.len() == snapshots.len()
            &&& m.acceptable(snapshots, max_displays)
        },
        m.unchanged_by(snapshots) ==> m.revision > 0 && m.placed.len() == snapshots.len(),
        m.revision == 0 ==> !m.unchanged_by(snapshots),
        !m.acceptable(snapshots, max_displays) ==> m.unusable(snapshots, max_displays, true)
            && m.unusable(snapshots, max_displays, false),
        m.changed_map(snapshots, max_displays, next) ==> m.unusable(
            snapshots,
            max_displays,
            false,
        ),
{
    lemma_unmapped_bounds(m, snapshots, snapshots.len() as int);
    let all = m.placing(snapshots, snapshots.len() as int);
    assert(all.to_multiset().len() == all.len());
    if m.changed_map(snapshots, max_displays, next) {
        assert(next.placed.to_multiset().len() == next.placed.len());
        assert(m.changed_to(snapshots, next.placed));
    }
    if m.unchanged_by(snapshots) {
        let placed = choose|placed: Seq<PlacedDisplay>| #[trigger]
            m.reconciles(snapshots, placed) && descriptors(placed) == descriptors(m.placed);
        assert(placed.to_multiset().len() == placed.len());
        assert(descriptors(placed).len() == placed.len());
        assert(descriptors(m.placed).len() == m.placed.len());
    }
}

/// The peer is told of each display what stands for it outside, in the same order.
pub proof fn law_peers_learn_no_native_numbers(placed: Seq<PlacedDisplay>, i: int)
    requires
        0 <= i < placed.len(),
    ensures
        descriptors(placed).len() == placed.len(),
        descriptors(placed)[i] == placed[i].descriptor,
{
}

} // verus!
