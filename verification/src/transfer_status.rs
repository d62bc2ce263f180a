//! Short-held, content-free public transfer registry.
//!
//! The registry is independent of source and staging ownership: listing and
//! cancellation intent never wait for scans, reads, durable writes or cleanup.
//! Public and wire identifiers are kept for the lifetime of the process, so a
//! delayed authenticated frame can never meet a reused identifier.

use std::collections::{HashMap, HashSet, VecDeque};
use vstd::prelude::*;
use crate::identifiers::{
    hyphenated_text, parse_uuid, random_uuid, uuid_text, DeviceId, TransferId,
};
use crate::transfer_model::{
    entry_index, has_entry, lemma_admitted_inv, lemma_finished_inv, lemma_index_unique,
    lemma_live_push, lemma_mutated_inv, lemma_remapped_inv, lemma_rolled_back_inv, live_entries,
    retained_entries, scope_of,
};
pub use crate::transfer_model::{
    CancelOutcome, CancelTarget, InboundAdmission, InboundUpdate, LedgerCounts, RegistryEntry,
    RegistryModel, TerminalRecord, TransferAdmission, TransferBinding, TransferFailureCode,
    TransferLimits, TransferListing, TransferPhase, TransferRegistryError, TransferSnapshot,
    MAX_LIFETIME_TRANSFER_IDENTITIES,
};
pub use crate::wire_index::{TransferDirection, WireScope};
use crate::wire_index::WireIndex;

verus! {

broadcast use vstd::std_specs::hash::group_hash_axioms;

/// How many random candidates are drawn: more than can ever be, so that drawing
/// goes on until one is unused.
const IDENTITY_DRAWS: u64 = 0xffff_ffff_ffff_ffff;

/// Public identifiers, wire identifiers and the reserved one leave at least one
/// of these small numbers unused.
const PROBED_IDENTITIES: u128 = 8194;

pub struct TransferRegistry {
    instance_id: String,
    limits: TransferLimits,
    revision: u64,
    next_generation: u64,
    truncated: bool,
    entries: Vec<RegistryEntry>,
    by_wire: WireIndex,
    terminal_history: HashMap<u128, TerminalRecord>,
    all_public_ids: HashSet<u128>,
    all_wire_ids: HashSet<u128>,
    terminal_fifo: VecDeque<u128>,
}

impl View for TransferRegistry {
    type V = RegistryModel;

    closed spec fn view(&self) -> RegistryModel {
        RegistryModel {
            limits: self.limits,
            revision: self.revision,
            next_generation: self.next_generation,
            truncated: self.truncated,
            entries: self.entries@,
            by_wire: self.by_wire@,
            history: self.terminal_history@,
            public_ids: self.all_public_ids@,
            wire_ids: self.all_wire_ids@,
            fifo: self.terminal_fifo@,
        }
    }
}

/// `snapshot` shows exactly what `entry` says.
pub open spec fn shows(snapshot: TransferSnapshot, entry: RegistryEntry) -> bool {
    &&& snapshot.transfer_id@ == hyphenated_text(entry.public_id)
    &&& snapshot.direction == entry.binding.direction
    &&& snapshot.phase == entry.phase
    &&& snapshot.processed_bytes == entry.processed_bytes
    &&& snapshot.total_bytes == entry.total_bytes
    &&& snapshot.cancellable == entry.cancellable
    &&& snapshot.failure == entry.failure
}

/// `snapshots` shows the entries in `order`, one by one.
pub open spec fn shows_all(snapshots: Seq<TransferSnapshot>, order: Seq<RegistryEntry>) -> bool {
    &&& snapshots.len() == order.len()
    &&& forall|i: int| 0 <= i < order.len() ==> shows(#[trigger] snapshots[i], order[i])
}

/// `listing` is the public view of the registry state `model` of process `instance`.
pub open spec fn lists(listing: TransferListing, instance: Seq<char>, model: RegistryModel) -> bool {
    &&& listing.instance_id@ == instance
    &&& listing.revision == model.revision
    &&& listing.truncated == model.truncated
    &&& shows_all(listing.transfers@, model.listing_order())
}

/// Whether `text` is the canonical text of a usable identifier.
pub open spec fn canonical_id(text: Seq<char>, id: u128) -> bool {
    id != 0 && text == hyphenated_text(id)
}

/// Identifiers of the listed transfers of `peer` that have not ended.
pub open spec fn live_ids_of(entries: Seq<RegistryEntry>, peer: DeviceId) -> Seq<u128>
    decreases entries.len(),
{
    if entries.len() == 0 {
        Seq::empty()
    } else if entries.last().live_of(peer) {
        live_ids_of(entries.drop_last(), peer).push(entries.last().public_id)
    } else {
        live_ids_of(entries.drop_last(), peer)
    }
}

/// The same, for one direction.
pub open spec fn live_ids_on(
    entries: Seq<RegistryEntry>,
    peer: DeviceId,
    direction: TransferDirection,
) -> Seq<u128>
    decreases entries.len(),
{
    if entries.len() == 0 {
        Seq::empty()
    } else if entries.last().live_on(peer, direction) {
        live_ids_on(entries.drop_last(), peer, direction).push(entries.last().public_id)
    } else {
        live_ids_on(entries.drop_last(), peer, direction)
    }
}

/// Identifiers of the transfers of one peer and direction that wait for cancellation.
pub open spec fn cancelling_ids(
    entries: Seq<RegistryEntry>,
    peer: DeviceId,
    direction: TransferDirection,
) -> Seq<u128>
    decreases entries.len(),
{
    if entries.len() == 0 {
        Seq::empty()
    } else if entries.last().live_on(peer, direction) && entries.last().phase
        == TransferPhase::CancelRequested {
        cancelling_ids(entries.drop_last(), peer, direction).push(entries.last().public_id)
    } else {
        cancelling_ids(entries.drop_last(), peer, direction)
    }
}

pub open spec fn paused_entry(e: RegistryEntry, peer: DeviceId) -> RegistryEntry {
    if e.live_of(peer) {
        e.paused()
    } else {
        e
    }
}

pub open spec fn aborted_entry(
    e: RegistryEntry,
    peer: DeviceId,
    direction: TransferDirection,
) -> RegistryEntry {
    if e.live_on(peer, direction) {
        e.cancel_requested()
    } else {
        e
    }
}

/// What a wire scope leads to when it was admitted before: the answer, and the
/// state after it.
pub open spec fn readmitted(
    m: RegistryModel,
    id: u128,
    total_bytes: u64,
) -> (Result<InboundAdmission, TransferRegistryError>, RegistryModel) {
    if m.has(id) {
        let e = m.entry(id);
        if e.phase.terminal() {
            (Ok(InboundAdmission::Terminal { binding: e.binding, phase: e.phase }), m)
        } else if e.phase == TransferPhase::CancelRequested {
            (Ok(InboundAdmission::Live(e.binding)), m)
        } else if e.total_bytes != Some(total_bytes) {
            (Err(TransferRegistryError::InvalidId), m)
        } else {
            (Ok(InboundAdmission::Live(e.binding)), m.mutated(id, e.requeued()))
        }
    } else {
        let record = m.history[id];
        (Ok(InboundAdmission::Terminal { binding: record.binding, phase: record.phase }), m)
    }
}

/// What `request_cancel` answers for a listed identifier, and the state after it.
pub open spec fn cancel_answer(m: RegistryModel, id: u128) -> (
    Result<Option<TransferBinding>, TransferRegistryError>,
    RegistryModel,
) {
    if !m.has(id) {
        (Err(TransferRegistryError::NotFound), m)
    } else if m.entry(id).phase.terminal() || m.entry(id).phase
        == TransferPhase::CancelRequested {
        (Ok(None), m)
    } else if !m.entry(id).cancellable {
        (Err(TransferRegistryError::NotCancellable), m)
    } else {
        (Ok(Some(m.entry(id).binding)), m.mutated(id, m.entry(id).cancel_requested()))
    }
}

pub open spec fn update_answer(
    m: RegistryModel,
    scope: WireScope,
    processed: u64,
    total: u64,
    phase: TransferPhase,
) -> (InboundUpdate, RegistryModel) {
    if !m.by_wire.contains_key(scope) {
        (InboundUpdate::Unknown, m)
    } else {
        let id = m.by_wire[scope];
        if !m.has(id) {
            (InboundUpdate::Terminal(m.history[id].binding), m)
        } else {
            let e = m.entry(id);
            if e.phase.terminal() || e.phase == TransferPhase::CancelRequested {
                (InboundUpdate::Terminal(e.binding), m)
            } else if processed > total || e.total_bytes != Some(total) {
                (InboundUpdate::Unknown, m)
            } else {
                (InboundUpdate::Updated(e.binding), m.mutated(id, e.received(processed, phase)))
            }
        }
    }
}

spec fn small_ids(n: nat) -> Set<u128> {
    Set::new(|id: u128| 1 <= id <= n)
}

proof fn lemma_small_ids(n: nat)
    requires
        n <= PROBED_IDENTITIES,
    ensures
        small_ids(n).finite(),
        small_ids(n).len() == n,
    decreases n,
{
    if n == 0 {
        assert(small_ids(0) =~= Set::<u128>::empty());
    } else {
        lemma_small_ids((n - 1) as nat);
        assert(small_ids(n) =~= small_ids((n - 1) as nat).insert(n as u128));
    }
}

/// A registry cannot have used up all the probed identifiers.
proof fn lemma_some_small_id_is_free(m: RegistryModel, reserved: u128)
    requires
        m.inv(),
    ensures
        exists|id: u128| 1 <= id <= PROBED_IDENTITIES && id != reserved && #[trigger] m.available(id),
{
    if forall|id: u128| 1 <= id <= PROBED_IDENTITIES && id != reserved ==> !#[trigger] m.available(
        id,
    ) {
        let used = m.public_ids.union(m.wire_ids).insert(reserved);
        lemma_small_ids(PROBED_IDENTITIES as nat);
        assert forall|id: u128| #[trigger]
            small_ids(PROBED_IDENTITIES as nat).contains(id) implies used.contains(id) by {
            if id != reserved {
                assert(!m.available(id));
            }
        }
        vstd::set_lib::lemma_len_union(m.public_ids, m.wire_ids);
        vstd::set_lib::lemma_len_subset(small_ids(PROBED_IDENTITIES as nat), used);
        assert(false);
    }
}

fn scope(binding: TransferBinding) -> (scope: WireScope)
    ensures
        scope == scope_of(binding),
{
    WireScope { peer: binding.peer, direction: binding.direction, wire_id: binding.wire_id }
}

/// The text that a public identifier is shown as.
pub fn public_text(public_id: u128) -> (text: String)
    ensures
        text@ == hyphenated_text(public_id),
{
    uuid_text(public_id)
}

fn snapshot(entry: &RegistryEntry) -> (shown: TransferSnapshot)
    ensures
        shows(shown, *entry),
{
    TransferSnapshot {
        transfer_id: public_text(entry.public_id),
        direction: entry.binding.direction,
        phase: entry.phase,
        processed_bytes: entry.processed_bytes,
        total_bytes: entry.total_bytes,
        cancellable: entry.cancellable,
        failure: entry.failure,
    }
}

impl TransferRegistry {
    /// The registry's invariant.
    pub closed spec fn wf(&self) -> bool {
        self.by_wire.wf() && self@.inv()
    }

    /// Text that tells this process's listings from those of another one.
    pub closed spec fn instance(&self) -> Seq<char> {
        self.instance_id@
    }

    /// An empty registry with a random, canonical instance identifier.
    pub fn new(limits: TransferLimits) -> (registry: TransferRegistry)
        requires
            limits.nonterminal + limits.terminal <= MAX_LIFETIME_TRANSFER_IDENTITIES,
        ensures
            registry.wf(),
            registry@.inv(),
            exists|id: u128| canonical_id(registry.instance(), id),
            registry@ == (RegistryModel {
                limits,
                revision: 1,
                next_generation: 1,
                truncated: false,
                entries: Seq::empty(),
                by_wire: Map::empty(),
                history: Map::empty(),
                public_ids: Set::empty(),
                wire_ids: Set::empty(),
                fifo: Seq::empty(),
            }),
    {
        let instance: u128 = random_uuid();
        let instance_id = uuid_text(instance);
        let registry = TransferRegistry {
            instance_id,
            limits,
            revision: 1,
            next_generation: 1,
            truncated: false,
            entries: Vec::new(),
            by_wire: WireIndex::new(),
            terminal_history: HashMap::new(),
            all_public_ids: HashSet::new(),
            all_wire_ids: HashSet::new(),
            terminal_fifo: VecDeque::new(),
        };
        assert(canonical_id(registry.instance(), instance));
        registry
    }

    fn position(&self, id: u128) -> (found: Option<usize>)
        requires
            self@.inv(),
        ensures
            match found {
                Some(at) => at < self.entries@.len() && self@.has(id) && self@.index_of(id) == at
                    && self.entries@[at as int].public_id == id,
                None => !self@.has(id),
            },
    {
        let mut at: usize = 0;
        while at < self.entries.len()
            invariant
                at <= self.entries@.len(),
                self@.inv(),
                forall|k: int| 0 <= k < at ==> (#[trigger] self.entries@[k]).public_id != id,
            decreases self.entries@.len() - at,
        {
            if self.entries[at].public_id == id {
                proof {
                    lemma_index_unique(self@.entries, at as int);
                }
                return Some(at);
            }
            at = at + 1;
        }
        None
    }

    /// How many listed transfers have not ended.
    fn nonterminal_count(&self) -> (count: usize)
        ensures
            count == self@.live_count(),
    {
        let mut count: usize = 0;
        let mut at: usize = 0;
        while at < self.entries.len()
            invariant
                at <= self.entries@.len(),
                count == live_entries(self.entries@.take(at as int)).len(),
                count <= at,
            decreases self.entries@.len() - at,
        {
            proof {
                assert(self.entries@.take(at + 1) =~= self.entries@.take(at as int).push(
                    self.entries@[at as int],
                ));
                lemma_live_push(self.entries@.take(at as int), self.entries@[at as int]);
            }
            if !self.entries[at].phase.is_terminal() {
                count = count + 1;
            }
            at = at + 1;
        }
        assert(self.entries@.take(at as int) =~= self.entries@);
        count
    }

    /// How many public identifiers this process has handed out.
    fn lifetime_identity_count(&self) -> (count: usize)
        ensures
            count == self@.public_ids.len(),
    {
        self.all_public_ids.len()
    }

    /// Whether an identifier was never used, publicly or on the wire.
    pub fn public_id_available(&self, candidate: u128) -> (available: bool)
        ensures
            available == self@.available(candidate),
    {
        candidate != 0 && !self.all_public_ids.contains(&candidate) && !self.all_wire_ids.contains(
            &candidate,
        )
    }

    /// A random identifier that was never used and is not `reserved`. Candidates
    /// are drawn until there is one; what follows the draws is not reached in
    /// the lifetime of a process.
    fn fresh_identity(&self, reserved: u128) -> (id: u128)
        requires
            self@.inv(),
        ensures
            self@.available(id),
            id != reserved,
    {
        let mut draws: u64 = 0;
        while draws < IDENTITY_DRAWS
            decreases IDENTITY_DRAWS - draws,
        {
            let candidate: u128 = random_uuid();
            if candidate != reserved && self.public_id_available(candidate) {
                return candidate;
            }
            draws = draws + 1;
        }
        proof {
            lemma_some_small_id_is_free(self@, reserved);
        }
        let mut candidate: u128 = 1;
        while candidate < PROBED_IDENTITIES && (candidate == reserved || !self.public_id_available(
            candidate,
        ))
            invariant
                1 <= candidate <= PROBED_IDENTITIES,
                forall|id: u128| 1 <= id < candidate && id != reserved ==> !#[trigger] self@.available(
                    id,
                ),
            decreases PROBED_IDENTITIES - candidate,
        {
            candidate = candidate + 1;
        }
        candidate
    }

    /// Enters a transfer under identifiers that were not used before.
    fn insert_entry(
        &mut self,
        binding: TransferBinding,
        phase: TransferPhase,
        processed_bytes: Option<u64>,
        total_bytes: Option<u64>,
    )
        requires
            old(self).wf(),
            old(self)@.revision < u64::MAX,
            old(self)@.live_count() < old(self)@.limits.nonterminal,
            old(self)@.public_ids.len() < MAX_LIFETIME_TRANSFER_IDENTITIES,
            old(self)@.available(binding.public_id),
            binding.wire_id.value != binding.public_id,
            !old(self)@.public_ids.contains(binding.wire_id.value),
            !old(self)@.by_wire.contains_key(scope_of(binding)),
            binding.generation == old(self)@.next_generation,
            phase == TransferPhase::Preparing || phase == TransferPhase::Queued,
            processed_bytes matches Some(p) ==> total_bytes matches Some(t) && p <= t,
            binding.direction == TransferDirection::Inbound ==> total_bytes is Some,
        ensures
            final(self).wf(),
            final(self).instance() == old(self).instance(),
            final(self)@ == old(self)@.admitted(binding, phase, processed_bytes, total_bytes),
    {
        proof {
            lemma_admitted_inv(self@, binding, phase, processed_bytes, total_bytes);
        }
        self.all_public_ids.insert(binding.public_id);
        self.all_wire_ids.insert(binding.wire_id.value);
        self.next_generation = self.next_generation + 1;
        self.by_wire.insert(scope(binding), binding.public_id);
        self.entries.push(
            RegistryEntry {
                public_id: binding.public_id,
                binding,
                phase,
                processed_bytes,
                total_bytes,
                cancellable: true,
                failure: None,
                cancel: false,
            },
        );
        self.revision = self.revision + 1;
        assert(self@ == old(self)@.admitted(binding, phase, processed_bytes, total_bytes));
    }

    /// Admits an outgoing transfer under two given identifiers that were never
    /// used before.
    pub fn admit_outbound_as(
        &mut self,
        peer: DeviceId,
        public_id: u128,
        wire_id: TransferId,
    ) -> (admission: Result<TransferAdmission, TransferRegistryError>)
        requires
            old(self).wf(),
            old(self)@.revision < u64::MAX,
            old(self)@.available(public_id),
            old(self)@.available(wire_id.value),
            wire_id.value != public_id,
        ensures
            final(self).wf(),
            final(self).instance() == old(self).instance(),
            final(self)@.inv(),
            old(self)@.precedes(final(self)@),
            ({
                let m = old(self)@;
                let binding = TransferBinding {
                    public_id,
                    peer,
                    direction: TransferDirection::Outbound,
                    wire_id,
                    generation: m.next_generation,
                };
                if m.live_count() >= m.limits.nonterminal {
                    admission == Err::<TransferAdmission, _>(TransferRegistryError::Full)
                        && final(self)@ == m
                } else if m.public_ids.len() >= MAX_LIFETIME_TRANSFER_IDENTITIES {
                    admission == Err::<TransferAdmission, _>(TransferRegistryError::LifetimeFull)
                        && final(self)@ == m
                } else {
                    &&& admission == Ok::<_, TransferRegistryError>(TransferAdmission { binding })
                    &&& final(self)@ == m.admitted(binding, TransferPhase::Preparing, None, None)
                }
            }),
    {
        if self.nonterminal_count() >= self.limits.nonterminal {
            return Err(TransferRegistryError::Full);
        }
        if self.lifetime_identity_count() >= MAX_LIFETIME_TRANSFER_IDENTITIES {
            return Err(TransferRegistryError::LifetimeFull);
        }
        let binding = TransferBinding {
            public_id,
            peer,
            direction: TransferDirection::Outbound,
            wire_id,
            generation: self.next_generation,
        };
        proof {
            lemma_unused_wire_has_no_scope(self@, scope_of(binding));
            lemma_admitted_inv(self@, binding, TransferPhase::Preparing, None, None);
        }
        self.insert_entry(binding, TransferPhase::Preparing, None, None);
        Ok(TransferAdmission { binding })
    }

    /// Admits an outgoing transfer to `peer` under new random identifiers.
    pub fn admit_outbound(&mut self, peer: DeviceId) -> (admission: Result<
        TransferAdmission,
        TransferRegistryError,
    >)
        requires
            old(self).wf(),
            old(self)@.revision < u64::MAX,
        ensures
            final(self).wf(),
            final(self).instance() == old(self).instance(),
            final(self)@.inv(),
            old(self)@.precedes(final(self)@),
            match admission {
                Err(error) => {
                    &&& final(self)@ == old(self)@
                    &&& if old(self)@.live_count() >= old(self)@.limits.nonterminal {
                        error == TransferRegistryError::Full
                    } else {
                        &&& old(self)@.public_ids.len() >= MAX_LIFETIME_TRANSFER_IDENTITIES
                        &&& error == TransferRegistryError::LifetimeFull
                    }
                },
                Ok(admitted) => {
                    &&& old(self)@.live_count() < old(self)@.limits.nonterminal
                    &&& old(self)@.public_ids.len() < MAX_LIFETIME_TRANSFER_IDENTITIES
                    &&& old(self)@.available(admitted.binding.public_id)
                    &&& old(self)@.available(admitted.binding.wire_id.value)
                    &&& admitted.binding.public_id != admitted.binding.wire_id.value
                    &&& admitted.binding.peer == peer
                    &&& admitted.binding.direction == TransferDirection::Outbound
                    &&& admitted.binding.generation == old(self)@.next_generation
                    &&& final(self)@ == old(self)@.admitted(
                        admitted.binding,
                        TransferPhase::Preparing,
                        None,
                        None,
                    )
                },
            },
    {
        let public_id: u128 = self.fresh_identity(0);
        let wire: u128 = self.fresh_identity(public_id);
        self.admit_outbound_as(peer, public_id, TransferId { value: wire })
    }

    /// Takes a listed transfer back as if it had not been admitted; its
    /// identifiers stay used.
    pub fn rollback_admission(&mut self, public_id: u128)
        requires
            old(self).wf(),
            old(self)@.revision < u64::MAX,
        ensures
            final(self).wf(),
            final(self).instance() == old(self).instance(),
            final(self)@ == old(self)@.rolled_back(public_id),
            final(self)@.inv(),
            old(self)@.precedes(final(self)@),
    {
        proof {
            lemma_rolled_back_inv(self@, public_id);
        }
        match self.position(public_id) {
            Some(at) => {
                let binding = self.entries[at].binding;
                self.entries.remove(at);
                self.by_wire.remove(scope(binding));
                self.revision = self.revision + 1;
                assert(self@ == old(self)@.rolled_back(public_id));
            },
            None => {},
        }
    }
}

/// A wire identifier that was never used has no scope.
proof fn lemma_unused_wire_has_no_scope(m: RegistryModel, scope: WireScope)
    requires
        m.inv(),
        !m.wire_ids.contains(scope.wire_id.value),
    ensures
        !m.by_wire.contains_key(scope),
{
    if m.by_wire.contains_key(scope) {
        assert(m.scope_known(scope));
        let id = m.by_wire[scope];
        if m.has(id) {
            assert(m.entry_known(m.entries[m.index_of(id)]));
        }
    }
}

/// `after` is a later state of the same registry: its invariant holds, and it
/// forgot no identifier and no outcome.
pub open spec fn continues(before: TransferRegistry, after: TransferRegistry) -> bool {
    &&& after.wf()
    &&& after@.inv()
    &&& after.instance() == before.instance()
    &&& before@.precedes(after@)
}

impl TransferRegistry {
    /// Puts a listed live transfer into another live state.
    fn set_live(&mut self, at: usize, entry: RegistryEntry)
        requires
            old(self).wf(),
            old(self)@.revision < u64::MAX,
            at < old(self)@.entries.len(),
            !old(self)@.entries[at as int].phase.terminal(),
            !entry.phase.terminal(),
            entry.consistent(),
            entry.binding == old(self)@.entries[at as int].binding,
        ensures
            continues(*old(self), *final(self)),
            final(self)@ == old(self)@.mutated(old(self)@.entries[at as int].public_id, entry),
    {
        let ghost id = self@.entries[at as int].public_id;
        proof {
            lemma_index_unique(self@.entries, at as int);
            lemma_mutated_inv(self@, id, entry);
        }
        self.entries.set(at, entry);
        self.revision = self.revision + 1;
        assert(self@ == old(self)@.mutated(id, entry));
    }

    /// Puts a listed live transfer into its last state, and lets the oldest
    /// terminal transfer go when there are too many.
    fn finish(&mut self, at: usize, entry: RegistryEntry)
        requires
            old(self).wf(),
            old(self)@.revision < u64::MAX,
            at < old(self)@.entries.len(),
            !old(self)@.entries[at as int].phase.terminal(),
            entry.phase.terminal(),
            entry.consistent(),
            entry.binding == old(self)@.entries[at as int].binding,
        ensures
            continues(*old(self), *final(self)),
            final(self)@ == old(self)@.finished(old(self)@.entries[at as int].public_id, entry),
    {
        let public_id: u128 = self.entries[at].public_id;
        let ghost m = self@;
        proof {
            lemma_index_unique(m.entries, at as int);
            assert(m.entry_known(m.entries[at as int]));
            lemma_finished_inv(m, public_id, entry);
        }
        let record = TerminalRecord { binding: entry.binding, phase: entry.phase };
        self.entries.set(at, entry);
        self.terminal_history.insert(public_id, record);
        self.terminal_fifo.push_back(public_id);
        self.revision = self.revision + 1;
        if self.terminal_fifo.len() > self.limits.terminal {
            let ghost fifo = self.terminal_fifo@;
            let ghost entries = self.entries@;
            assert forall|i: int, j: int| 0 <= i < j < entries.len() implies (
            #[trigger] entries[i]).public_id != (#[trigger] entries[j]).public_id by {
                assert(m.entries[i].public_id != m.entries[j].public_id);
            }
            match self.terminal_fifo.pop_front() {
                Some(expired) => {
                    assert(self.terminal_fifo@ =~= fifo.drop_first());
                    match self.listed_at(expired) {
                        Some(old_at) => {
                            self.entries.remove(old_at);
                            self.truncated = true;
                        },
                        None => {},
                    }
                },
                None => {},
            }
        }
        assert(self@ == m.finished(public_id, entry));
    }

    /// Where `id` is listed, if no identifier is listed twice.
    fn listed_at(&self, id: u128) -> (found: Option<usize>)
        requires
            forall|i: int, j: int|
                0 <= i < j < self.entries@.len() ==> (#[trigger] self.entries@[i]).public_id != (
                #[trigger] self.entries@[j]).public_id,
        ensures
            match found {
                Some(at) => has_entry(self.entries@, id) && entry_index(self.entries@, id) == at
                    && at < self.entries@.len(),
                None => !has_entry(self.entries@, id),
            },
    {
        let mut at: usize = 0;
        while at < self.entries.len()
            invariant
                at <= self.entries@.len(),
                forall|i: int, j: int|
                    0 <= i < j < self.entries@.len() ==> (#[trigger] self.entries@[i]).public_id
                        != (#[trigger] self.entries@[j]).public_id,
                forall|k: int| 0 <= k < at ==> (#[trigger] self.entries@[k]).public_id != id,
            decreases self.entries@.len() - at,
        {
            if self.entries[at].public_id == id {
                proof {
                    lemma_index_unique(self.entries@, at as int);
                }
                return Some(at);
            }
            at = at + 1;
        }
        None
    }

    /// Admits an incoming transfer under the wire identifier that the peer
    /// chose, or says what became of it when it was admitted before.
    pub fn admit_inbound(&mut self, peer: DeviceId, wire_id: TransferId, total_bytes: u64) -> (
        admission: Result<InboundAdmission, TransferRegistryError>)
        requires
            old(self).wf(),
            old(self)@.revision < u64::MAX,
        ensures
            continues(*old(self), *final(self)),
            ({
                let m = old(self)@;
                let scope = WireScope { peer, direction: TransferDirection::Inbound, wire_id };
                if m.by_wire.contains_key(scope) {
                    (admission, final(self)@) == readmitted(m, m.by_wire[scope], total_bytes)
                } else if m.live_count() >= m.limits.nonterminal {
                    admission == Err::<InboundAdmission, _>(TransferRegistryError::Full)
                        && final(self)@ == m
                } else if m.public_ids.len() >= MAX_LIFETIME_TRANSFER_IDENTITIES {
                    admission == Err::<InboundAdmission, _>(TransferRegistryError::LifetimeFull)
                        && final(self)@ == m
                } else if m.public_ids.contains(wire_id.value) {
                    admission == Err::<InboundAdmission, _>(TransferRegistryError::WireIdCollision)
                        && final(self)@ == m
                } else {
                    admission matches Ok(InboundAdmission::Live(binding)) && {
                        &&& m.available(binding.public_id)
                        &&& binding.public_id != wire_id.value
                        &&& scope_of(binding) == scope
                        &&& binding.generation == m.next_generation
                        &&& final(self)@ == m.admitted(
                            binding,
                            TransferPhase::Queued,
                            Some(0),
                            Some(total_bytes),
                        )
                    }
                }
            }),
    {
        let wire_scope = WireScope { peer, direction: TransferDirection::Inbound, wire_id };
        match self.by_wire.get(wire_scope) {
            Some(public_id) => {
                assert(self@.scope_known(wire_scope));
                match self.position(public_id) {
                    Some(at) => {
                        let mut entry: RegistryEntry = self.entries[at];
                        assert(self@.entry_known(self@.entries[at as int]));
                        if entry.phase.is_terminal() {
                            return Ok(
                                InboundAdmission::Terminal {
                                    binding: entry.binding,
                                    phase: entry.phase,
                                },
                            );
                        }
                        if entry.phase == TransferPhase::CancelRequested {
                            return Ok(InboundAdmission::Live(entry.binding));
                        }
                        if entry.total_bytes != Some(total_bytes) {
                            return Err(TransferRegistryError::InvalidId);
                        }
                        entry.phase = TransferPhase::Queued;
                        entry.cancellable = true;
                        self.set_live(at, entry);
                        return Ok(InboundAdmission::Live(entry.binding));
                    },
                    None => {
                        match self.terminal_history.get(&public_id) {
                            Some(record) => {
                                return Ok(
                                    InboundAdmission::Terminal {
                                        binding: record.binding,
                                        phase: record.phase,
                                    },
                                );
                            },
                            None => {
                                return Err(TransferRegistryError::InvalidId);
                            },
                        }
                    },
                }
            },
            None => {},
        }
        if self.nonterminal_count() >= self.limits.nonterminal {
            return Err(TransferRegistryError::Full);
        }
        if self.lifetime_identity_count() >= MAX_LIFETIME_TRANSFER_IDENTITIES {
            return Err(TransferRegistryError::LifetimeFull);
        }
        if self.all_public_ids.contains(&wire_id.value) {
            return Err(TransferRegistryError::WireIdCollision);
        }
        let public_id: u128 = self.fresh_identity(wire_id.value);
        let binding = TransferBinding {
            public_id,
            peer,
            direction: TransferDirection::Inbound,
            wire_id,
            generation: self.next_generation,
        };
        proof {
            lemma_admitted_inv(self@, binding, TransferPhase::Queued, Some(0), Some(total_bytes));
        }
        self.insert_entry(binding, TransferPhase::Queued, Some(0), Some(total_bytes));
        Ok(InboundAdmission::Live(binding))
    }

    /// Reports what an incoming transfer has durably received.
    pub fn update_inbound(
        &mut self,
        peer: DeviceId,
        wire_id: TransferId,
        processed_bytes: u64,
        total_bytes: u64,
        phase: TransferPhase,
    ) -> (update: InboundUpdate)
        requires
            old(self).wf(),
            old(self)@.revision < u64::MAX,
            !phase.terminal() && phase != TransferPhase::CancelRequested,
        ensures
            continues(*old(self), *final(self)),
            (update, final(self)@) == update_answer(
                old(self)@,
                WireScope { peer, direction: TransferDirection::Inbound, wire_id },
                processed_bytes,
                total_bytes,
                phase,
            ),
    {
        let wire_scope = WireScope { peer, direction: TransferDirection::Inbound, wire_id };
        let public_id: u128 = match self.by_wire.get(wire_scope) {
            Some(id) => id,
            None => {
                return InboundUpdate::Unknown;
            },
        };
        assert(self@.scope_known(wire_scope));
        match self.position(public_id) {
            Some(at) => {
                let mut entry: RegistryEntry = self.entries[at];
                assert(self@.entry_known(self@.entries[at as int]));
                if entry.phase.is_terminal() || entry.phase == TransferPhase::CancelRequested {
                    return InboundUpdate::Terminal(entry.binding);
                }
                if processed_bytes > total_bytes || entry.total_bytes != Some(total_bytes) {
                    return InboundUpdate::Unknown;
                }
                entry.processed_bytes = Some(processed_bytes);
                entry.phase = phase;
                entry.cancellable = true;
                self.set_live(at, entry);
                InboundUpdate::Updated(entry.binding)
            },
            None => match self.terminal_history.get(&public_id) {
                Some(record) => InboundUpdate::Terminal(record.binding),
                None => InboundUpdate::Unknown,
            },
        }
    }

    /// Where a listed transfer that has not ended stands.
    fn live_position(&self, public_id: u128) -> (found: Option<usize>)
        requires
            self.wf(),
        ensures
            match found {
                Some(at) => {
                    &&& at < self@.entries.len()
                    &&& self@.has(public_id)
                    &&& self@.index_of(public_id) == at
                    &&& self@.entries[at as int].public_id == public_id
                    &&& !self@.entry(public_id).phase.terminal()
                    &&& self@.entry_known(self@.entry(public_id))
                },
                None => self@.has(public_id) ==> self@.entry(public_id).phase.terminal(),
            },
    {
        match self.position(public_id) {
            Some(at) => {
                assert(self@.entry_known(self@.entries[at as int]));
                if self.entries[at].phase.is_terminal() {
                    None
                } else {
                    Some(at)
                }
            },
            None => None,
        }
    }
}

/// `after` is `m` with `entry` in the place of the live transfer `id`; when there
/// is no such transfer, nothing happens.
pub open spec fn live_step(m: RegistryModel, id: u128, entry: RegistryEntry) -> RegistryModel {
    if m.has(id) && !m.entry(id).phase.terminal() {
        m.mutated(id, entry)
    } else {
        m
    }
}

impl TransferRegistry {
    /// The source scan is done and the total is known.
    pub fn manifest_ready(&mut self, public_id: u128, total_bytes: u64)
        requires
            old(self).wf(),
            old(self)@.revision < u64::MAX,
        ensures
            continues(*old(self), *final(self)),
            final(self)@ == live_step(
                old(self)@,
                public_id,
                old(self)@.entry(public_id).announced(total_bytes),
            ),
    {
        if let Some(at) = self.live_position(public_id) {
            let mut entry: RegistryEntry = self.entries[at];
            if entry.phase != TransferPhase::CancelRequested {
                entry.phase = TransferPhase::Queued;
                entry.processed_bytes = Some(0);
                entry.total_bytes = Some(total_bytes);
            }
            self.set_live(at, entry);
        }
    }

    /// The receiver says how much it holds already.
    pub fn resume_progress(&mut self, public_id: u128, processed_bytes: u64)
        requires
            old(self).wf(),
            old(self)@.revision < u64::MAX,
        ensures
            continues(*old(self), *final(self)),
            final(self)@ == live_step(
                old(self)@,
                public_id,
                old(self)@.entry(public_id).resumed(processed_bytes),
            ),
    {
        if let Some(at) = self.live_position(public_id) {
            let mut entry: RegistryEntry = self.entries[at];
            if entry.phase != TransferPhase::CancelRequested {
                if let Some(total) = entry.total_bytes {
                    if processed_bytes <= total {
                        entry.phase = TransferPhase::Queued;
                        entry.processed_bytes = Some(processed_bytes);
                    }
                }
            }
            self.set_live(at, entry);
        }
    }

    /// Data was handed to the reliable channel.
    pub fn reliable_data_sent(&mut self, public_id: u128, processed_bytes: u64)
        requires
            old(self).wf(),
            old(self)@.revision < u64::MAX,
        ensures
            continues(*old(self), *final(self)),
            final(self)@ == live_step(
                old(self)@,
                public_id,
                old(self)@.entry(public_id).sent(processed_bytes),
            ),
    {
        if let Some(at) = self.live_position(public_id) {
            let mut entry: RegistryEntry = self.entries[at];
            let forward = match entry.processed_bytes {
                Some(before) => before <= processed_bytes,
                None => true,
            };
            if entry.phase != TransferPhase::CancelRequested && forward {
                if let Some(total) = entry.total_bytes {
                    if processed_bytes <= total {
                        entry.phase = TransferPhase::Transferring;
                        entry.processed_bytes = Some(processed_bytes);
                    }
                }
            }
            self.set_live(at, entry);
        }
    }

    /// All data is out and completion is being agreed on.
    pub fn finalizing(&mut self, public_id: u128)
        requires
            old(self).wf(),
            old(self)@.revision < u64::MAX,
        ensures
            continues(*old(self), *final(self)),
            final(self)@ == live_step(
                old(self)@,
                public_id,
                old(self)@.entry(public_id).finalized(),
            ),
    {
        if let Some(at) = self.live_position(public_id) {
            let mut entry: RegistryEntry = self.entries[at];
            if entry.phase != TransferPhase::CancelRequested {
                entry.phase = TransferPhase::Finalizing;
                entry.processed_bytes = entry.total_bytes;
            }
            self.set_live(at, entry);
        }
    }

    /// Linearizes inbound completion against local cancellation before slow
    /// integrity verification and publication begins.
    pub fn begin_inbound_finalizing(&mut self, public_id: u128) -> (begun: bool)
        requires
            old(self).wf(),
            old(self)@.revision < u64::MAX,
        ensures
            continues(*old(self), *final(self)),
            ({
                let m = old(self)@;
                let e = m.entry(public_id);
                &&& begun == (m.has(public_id) && !e.phase.terminal() && e.phase
                    != TransferPhase::CancelRequested && e.binding.direction
                    == TransferDirection::Inbound && e.processed_bytes == e.total_bytes)
                &&& final(self)@ == if begun {
                    m.mutated(public_id, e.locked_for_finalizing())
                } else {
                    m
                }
            }),
    {
        match self.live_position(public_id) {
            Some(at) => {
                let mut entry: RegistryEntry = self.entries[at];
                if entry.phase == TransferPhase::CancelRequested || entry.binding.direction
                    != TransferDirection::Inbound || entry.processed_bytes != entry.total_bytes {
                    return false;
                }
                entry.phase = TransferPhase::Finalizing;
                entry.cancellable = false;
                self.set_live(at, entry);
                true
            },
            None => false,
        }
    }

    /// Returns true only when completion wins the terminal-state race.
    pub fn complete(&mut self, public_id: u128) -> (won: bool)
        requires
            old(self).wf(),
            old(self)@.revision < u64::MAX,
        ensures
            continues(*old(self), *final(self)),
            ({
                let m = old(self)@;
                let e = m.entry(public_id);
                &&& won == (m.has(public_id) && !e.phase.terminal() && e.phase
                    != TransferPhase::CancelRequested)
                &&& final(self)@ == if won {
                    m.finished(public_id, e.completed())
                } else {
                    m
                }
            }),
    {
        match self.live_position(public_id) {
            Some(at) => {
                let mut entry: RegistryEntry = self.entries[at];
                if entry.phase == TransferPhase::CancelRequested {
                    return false;
                }
                entry.phase = TransferPhase::Completed;
                entry.processed_bytes = entry.total_bytes;
                entry.cancellable = false;
                entry.failure = None;
                self.finish(at, entry);
                true
            },
            None => false,
        }
    }

    /// The transfer was given up.
    pub fn cancelled(&mut self, public_id: u128)
        requires
            old(self).wf(),
            old(self)@.revision < u64::MAX,
        ensures
            continues(*old(self), *final(self)),
            final(self)@ == old(self)@.after_cancelled(public_id),
    {
        if let Some(at) = self.live_position(public_id) {
            let mut entry: RegistryEntry = self.entries[at];
            entry.phase = TransferPhase::Cancelled;
            entry.cancellable = false;
            entry.failure = None;
            self.finish(at, entry);
        }
    }

    /// The transfer failed, unless a cancellation is under way.
    pub fn fail(&mut self, public_id: u128, failure: TransferFailureCode)
        requires
            old(self).wf(),
            old(self)@.revision < u64::MAX,
        ensures
            continues(*old(self), *final(self)),
            ({
                let m = old(self)@;
                let e = m.entry(public_id);
                final(self)@ == if m.has(public_id) && !e.phase.terminal() && e.phase
                    != TransferPhase::CancelRequested {
                    m.finished(public_id, e.failed(failure))
                } else {
                    m
                }
            }),
    {
        if let Some(at) = self.live_position(public_id) {
            if self.entries[at].phase != TransferPhase::CancelRequested {
                let mut entry: RegistryEntry = self.entries[at];
                entry.phase = TransferPhase::Failed;
                entry.cancellable = false;
                entry.failure = Some(failure);
                self.finish(at, entry);
            }
        }
    }

    /// The transfer failed, whatever else was under way.
    fn fail_irreversible(&mut self, public_id: u128, failure: TransferFailureCode)
        requires
            old(self).wf(),
            old(self)@.revision < u64::MAX,
        ensures
            continues(*old(self), *final(self)),
            final(self)@ == old(self)@.irreversibly_failed(public_id, failure),
    {
        if let Some(at) = self.live_position(public_id) {
            let mut entry: RegistryEntry = self.entries[at];
            entry.phase = TransferPhase::Failed;
            entry.cancellable = false;
            entry.failure = Some(failure);
            self.finish(at, entry);
        }
    }

    /// The transfer that a peer's wire identifier stands for, ended or not.
    pub fn binding_for_wire(
        &self,
        peer: DeviceId,
        direction: TransferDirection,
        wire_id: TransferId,
    ) -> (binding: Option<TransferBinding>)
        requires
            self.wf(),
        ensures
            ({
                let scope = WireScope { peer, direction, wire_id };
                let id = self@.by_wire[scope];
                if !self@.by_wire.contains_key(scope) {
                    binding is None
                } else if self@.has(id) {
                    binding == Some(self@.entry(id).binding)
                } else {
                    self@.history.contains_key(id) && binding == Some(self@.history[id].binding)
                }
            }),
    {
        let wire_scope = WireScope { peer, direction, wire_id };
        match self.by_wire.get(wire_scope) {
            Some(public_id) => {
                assert(self@.scope_known(wire_scope));
                match self.position(public_id) {
                    Some(at) => Some(self.entries[at].binding),
                    None => match self.terminal_history.get(&public_id) {
                        Some(record) => Some(record.binding),
                        None => None,
                    },
                }
            },
            None => None,
        }
    }

    /// The phase of a transfer; of one that has left the list, the last phase.
    pub fn phase(&self, public_id: u128) -> (phase: Option<TransferPhase>)
        requires
            self.wf(),
        ensures
            phase == if self@.has(public_id) {
                Some(self@.entry(public_id).phase)
            } else if self@.history.contains_key(public_id) {
                Some(self@.history[public_id].phase)
            } else {
                None
            },
    {
        match self.position(public_id) {
            Some(at) => Some(self.entries[at].phase),
            None => match self.terminal_history.get(&public_id) {
                Some(record) => Some(record.phase),
                None => None,
            },
        }
    }

    /// Whether a listed transfer was told to stop.
    pub fn cancellation_requested(&self, public_id: u128) -> (requested: bool)
        requires
            self.wf(),
        ensures
            requested == (self@.has(public_id) && self@.entry(public_id).cancel),
    {
        match self.position(public_id) {
            Some(at) => self.entries[at].cancel,
            None => false,
        }
    }

    /// The oldest transfer of a peer and direction that waits for cancellation.
    pub fn cancellation_for_peer(&self, peer: DeviceId, direction: TransferDirection) -> (binding:
        Option<TransferBinding>)
        requires
            self.wf(),
        ensures
            match binding {
                Some(found) => exists|i: int|
                    {
                        &&& #[trigger] self@.cancel_pending(i, peer, direction)
                        &&& self@.entries[i].binding == found
                        &&& forall|j: int| #[trigger]
                            self@.cancel_pending(j, peer, direction) ==> found.generation
                                <= self@.entries[j].binding.generation
                    },
                None => forall|i: int| !#[trigger] self@.cancel_pending(i, peer, direction),
            },
    {
        let mut at: usize = 0;
        while at < self.entries.len()
            invariant
                at <= self.entries@.len(),
                self.wf(),
                forall|i: int| 0 <= i < at ==> !#[trigger] self@.cancel_pending(i, peer, direction),
            decreases self.entries@.len() - at,
        {
            let entry: RegistryEntry = self.entries[at];
            if entry.binding.peer == peer && entry.binding.direction == direction && entry.phase
                == TransferPhase::CancelRequested && entry.cancel {
                assert(self@.cancel_pending(at as int, peer, direction));
                assert forall|j: int| #[trigger]
                    self@.cancel_pending(j, peer, direction) implies entry.binding.generation
                    <= self@.entries[j].binding.generation by {
                    if j > at {
                        assert(self@.entries[at as int].binding.generation
                            < self@.entries[j].binding.generation);
                    }
                }
                return Some(entry.binding);
            }
            at = at + 1;
        }
        None
    }

    /// Sizes of everything that the registry keeps.
    pub fn ledger_counts(&self) -> (counts: LedgerCounts)
        requires
            self.wf(),
        ensures
            counts.public_ids == self@.public_ids.len(),
            counts.wire_ids == self@.wire_ids.len(),
            counts.wire_links == self@.by_wire.dom().len(),
            counts.terminal_records == self@.history.dom().len(),
            counts.terminal_fifo == self@.fifo.len(),
            counts.entries == self@.entries.len(),
    {
        LedgerCounts {
            public_ids: self.all_public_ids.len(),
            wire_ids: self.all_wire_ids.len(),
            wire_links: self.by_wire.len(),
            terminal_records: self.terminal_history.len(),
            terminal_fifo: self.terminal_fifo.len(),
            entries: self.entries.len(),
        }
    }
}

proof fn lemma_retained_push(fifo: Seq<u128>, id: u128, entries: Seq<RegistryEntry>)
    ensures
        retained_entries(fifo.push(id), entries) == if has_entry(entries, id) {
            retained_entries(fifo, entries).push(entries[entry_index(entries, id)])
        } else {
            retained_entries(fifo, entries)
        },
{
    assert(fifo.push(id).drop_last() =~= fifo);
}

/// Failing `ids` one after the other publishes at most one revision for each.
proof fn lemma_all_failed(m: RegistryModel, ids: Seq<u128>, failure: TransferFailureCode)
    requires
        m.inv(),
        m.revision + ids.len() <= u64::MAX,
    ensures
        m.all_failed(ids, failure).inv(),
        m.precedes(m.all_failed(ids, failure)),
        m.all_failed(ids, failure).revision <= m.revision + ids.len(),
    decreases ids.len(),
{
    if ids.len() > 0 {
        lemma_all_failed(m, ids.drop_last(), failure);
        let n = m.all_failed(ids.drop_last(), failure);
        let id = ids.last();
        if n.has(id) && !n.entry(id).phase.terminal() {
            assert(n.entry_known(n.entries[n.index_of(id)]));
            lemma_finished_inv(n, id, n.entry(id).failed(failure));
        }
    }
}

proof fn lemma_all_cancelled(m: RegistryModel, ids: Seq<u128>)
    requires
        m.inv(),
        m.revision + ids.len() <= u64::MAX,
    ensures
        m.all_cancelled(ids).inv(),
        m.precedes(m.all_cancelled(ids)),
        m.all_cancelled(ids).revision <= m.revision + ids.len(),
    decreases ids.len(),
{
    if ids.len() > 0 {
        lemma_all_cancelled(m, ids.drop_last());
        let n = m.all_cancelled(ids.drop_last());
        let id = ids.last();
        if n.has(id) && !n.entry(id).phase.terminal() {
            assert(n.entry_known(n.entries[n.index_of(id)]));
            lemma_finished_inv(n, id, n.entry(id).ended_by_cancel());
        }
    }
}

impl TransferRegistry {
    /// What the local interface shows of the transfers.
    pub fn list(&self) -> (listing: TransferListing)
        requires
            self.wf(),
        ensures
            lists(listing, self.instance(), self@),
    {
        let mut transfers: Vec<TransferSnapshot> = Vec::new();
        let mut at: usize = 0;
        while at < self.entries.len()
            invariant
                at <= self.entries@.len(),
                shows_all(transfers@, live_entries(self.entries@.take(at as int))),
            decreases self.entries@.len() - at,
        {
            proof {
                assert(self.entries@.take(at + 1) =~= self.entries@.take(at as int).push(
                    self.entries@[at as int],
                ));
                lemma_live_push(self.entries@.take(at as int), self.entries@[at as int]);
            }
            if !self.entries[at].phase.is_terminal() {
                let shown = snapshot(&self.entries[at]);
                transfers.push(shown);
            }
            at = at + 1;
        }
        assert(self.entries@.take(at as int) =~= self.entries@);
        let mut next: usize = 0;
        let ghost live = live_entries(self.entries@);
        assert(live + retained_entries(self.terminal_fifo@.take(0), self.entries@) =~= live);
        while next < self.terminal_fifo.len()
            invariant
                next <= self.terminal_fifo@.len(),
                self.wf(),
                live == live_entries(self.entries@),
                shows_all(
                    transfers@,
                    live + retained_entries(self.terminal_fifo@.take(next as int), self.entries@),
                ),
            decreases self.terminal_fifo@.len() - next,
        {
            let id: u128 = self.terminal_fifo[next];
            let ghost shown_before = retained_entries(
                self.terminal_fifo@.take(next as int),
                self.entries@,
            );
            proof {
                assert(self.terminal_fifo@.take(next + 1) =~= self.terminal_fifo@.take(
                    next as int,
                ).push(id));
                lemma_retained_push(self.terminal_fifo@.take(next as int), id, self.entries@);
            }
            match self.position(id) {
                Some(place) => {
                    let shown = snapshot(&self.entries[place]);
                    assert(live + shown_before.push(self.entries@[place as int]) =~= (live
                        + shown_before).push(self.entries@[place as int]));
                    transfers.push(shown);
                },
                None => {},
            }
            next = next + 1;
        }
        assert(self.terminal_fifo@.take(next as int) =~= self.terminal_fifo@);
        TransferListing {
            instance_id: self.instance_id.clone(),
            revision: self.revision,
            truncated: self.truncated,
            transfers,
        }
    }

    /// Asks for a transfer to be cancelled. Asking again changes nothing.
    pub fn request_cancel(&mut self, transfer_id: &str) -> (outcome: Result<
        CancelOutcome,
        TransferRegistryError,
    >)
        requires
            old(self).wf(),
            old(self)@.revision < u64::MAX,
        ensures
            continues(*old(self), *final(self)),
            (forall|id: u128| !#[trigger] canonical_id(transfer_id@, id)) ==> {
                &&& outcome == Err::<CancelOutcome, _>(TransferRegistryError::InvalidId)
                &&& final(self)@ == old(self)@
            },
            forall|id: u128| #[trigger]
                canonical_id(transfer_id@, id) ==> {
                    let answer = cancel_answer(old(self)@, id);
                    &&& final(self)@ == answer.1
                    &&& match outcome {
                        Ok(done) => {
                            &&& answer.0 is Ok
                            &&& lists(done.listing, final(self).instance(), final(self)@)
                            &&& match answer.0->Ok_0 {
                                Some(binding) => done.target == Some(CancelTarget { binding }),
                                None => done.target is None,
                            }
                        },
                        Err(error) => answer.0 == Err::<Option<TransferBinding>, _>(error),
                    }
                },
    {
        let parsed: u128 = match parse_uuid(transfer_id) {
            Some(id) => id,
            None => {
                return Err(TransferRegistryError::InvalidId);
            },
        };
        let canonical = uuid_text(parsed);
        if parsed == 0 || canonical != transfer_id.to_owned() {
            return Err(TransferRegistryError::InvalidId);
        }
        assert(canonical_id(transfer_id@, parsed));
        let target: Option<CancelTarget> = match self.position(parsed) {
            None => {
                return Err(TransferRegistryError::NotFound);
            },
            Some(at) => {
                let mut entry: RegistryEntry = self.entries[at];
                assert(self@.entry_known(self@.entries[at as int]));
                if entry.phase.is_terminal() || entry.phase == TransferPhase::CancelRequested {
                    None
                } else if !entry.cancellable {
                    return Err(TransferRegistryError::NotCancellable);
                } else {
                    entry.phase = TransferPhase::CancelRequested;
                    entry.cancellable = false;
                    entry.cancel = true;
                    self.set_live(at, entry);
                    Some(CancelTarget { binding: entry.binding })
                }
            },
        };
        let listing = self.list();
        Ok(CancelOutcome { listing, target })
    }

    /// The link to a peer was lost.
    pub fn pause_peer(&mut self, peer: DeviceId)
        requires
            old(self).wf(),
            old(self)@.revision < u64::MAX,
        ensures
            continues(*old(self), *final(self)),
            ({
                let m = old(self)@;
                let entries = m.entries.map_values(|e: RegistryEntry| paused_entry(e, peer));
                if exists|i: int|
                    0 <= i < m.entries.len() && (#[trigger] m.entries[i]).live_of(peer)
                        && m.entries[i].phase != TransferPhase::CancelRequested {
                    final(self)@ == m.with_entries(entries)
                } else {
                    final(self)@ == m
                }
            }),
    {
        let ghost m = self@;
        let ghost mapped = m.entries.map_values(|e: RegistryEntry| paused_entry(e, peer));
        let mut changed = false;
        let mut at: usize = 0;
        while at < self.entries.len()
            invariant
                at <= self.entries@.len(),
                self.entries@.len() == m.entries.len(),
                mapped == m.entries.map_values(|e: RegistryEntry| paused_entry(e, peer)),
                self.by_wire.wf(),
                self.instance() == old(self).instance(),
                self@ == (RegistryModel { entries: self.entries@, ..m }),
                forall|i: int| 0 <= i < at ==> #[trigger] self.entries@[i] == mapped[i],
                forall|i: int|
                    at <= i < self.entries@.len() ==> #[trigger] self.entries@[i] == m.entries[i],
                changed == exists|i: int|
                    0 <= i < at && (#[trigger] m.entries[i]).live_of(peer) && m.entries[i].phase
                        != TransferPhase::CancelRequested,
                !changed ==> self.entries@ =~= m.entries,
            decreases self.entries@.len() - at,
        {
            let mut entry: RegistryEntry = self.entries[at];
            let ghost changed_before = changed;
            assert(entry == m.entries[at as int]);
            if entry.binding.peer == peer && !entry.phase.is_terminal() && entry.phase
                != TransferPhase::CancelRequested {
                if entry.phase == TransferPhase::Preparing {
                    entry.phase = TransferPhase::CancelRequested;
                    entry.cancellable = false;
                    entry.cancel = true;
                } else {
                    entry.phase = TransferPhase::Paused;
                }
                self.entries.set(at, entry);
                changed = true;
                assert(m.entries[at as int].live_of(peer));
            }
            assert(self.entries@[at as int] == mapped[at as int]);
            proof {
                if changed_before {
                    let i = choose|i: int|
                        0 <= i < at && (#[trigger] m.entries[i]).live_of(peer) && m.entries[i].phase
                            != TransferPhase::CancelRequested;
                    assert(m.entries[i].live_of(peer));
                }
            }
            at = at + 1;
        }
        assert(self.entries@.len() == mapped.len());
        if changed {
            self.revision = self.revision + 1;
            proof {
                assert(self.entries@ =~= mapped);
                assert forall|i: int| 0 <= i < mapped.len() implies {
                    &&& (#[trigger] mapped[i]).consistent()
                    &&& mapped[i].binding == m.entries[i].binding
                    &&& mapped[i].phase.terminal() == m.entries[i].phase.terminal()
                    &&& mapped[i].phase.terminal() ==> mapped[i] == m.entries[i]
                } by {
                    assert(m.entry_known(m.entries[i]));
                }
                lemma_remapped_inv(m, mapped);
                assert(self@ == m.with_entries(mapped));
            }
        } else {
            assert(self@ == m);
        }
    }

    /// Everything of one peer and direction is to be cancelled.
    pub fn request_system_abort(&mut self, peer: DeviceId, direction: TransferDirection)
        requires
            old(self).wf(),
            old(self)@.revision < u64::MAX,
        ensures
            continues(*old(self), *final(self)),
            ({
                let m = old(self)@;
                let entries = m.entries.map_values(
                    |e: RegistryEntry| aborted_entry(e, peer, direction),
                );
                if exists|i: int|
                    0 <= i < m.entries.len() && (#[trigger] m.entries[i]).live_on(peer, direction) {
                    final(self)@ == m.with_entries(entries)
                } else {
                    final(self)@ == m
                }
            }),
    {
        let ghost m = self@;
        let ghost mapped = m.entries.map_values(
            |e: RegistryEntry| aborted_entry(e, peer, direction),
        );
        let mut changed = false;
        let mut at: usize = 0;
        while at < self.entries.len()
            invariant
                at <= self.entries@.len(),
                self.entries@.len() == m.entries.len(),
                mapped == m.entries.map_values(
                    |e: RegistryEntry| aborted_entry(e, peer, direction),
                ),
                self.by_wire.wf(),
                self.instance() == old(self).instance(),
                self@ == (RegistryModel { entries: self.entries@, ..m }),
                forall|i: int| 0 <= i < at ==> #[trigger] self.entries@[i] == mapped[i],
                forall|i: int|
                    at <= i < self.entries@.len() ==> #[trigger] self.entries@[i] == m.entries[i],
                changed == exists|i: int|
                    0 <= i < at && (#[trigger] m.entries[i]).live_on(peer, direction),
                !changed ==> self.entries@ =~= m.entries,
            decreases self.entries@.len() - at,
        {
            let mut entry: RegistryEntry = self.entries[at];
            let ghost changed_before = changed;
            assert(entry == m.entries[at as int]);
            if entry.binding.peer == peer && entry.binding.direction == direction
                && !entry.phase.is_terminal() {
                entry.phase = TransferPhase::CancelRequested;
                entry.cancellable = false;
                entry.cancel = true;
                self.entries.set(at, entry);
                changed = true;
                assert(m.entries[at as int].live_on(peer, direction));
            }
            assert(self.entries@[at as int] == mapped[at as int]);
            proof {
                if changed_before {
                    let i = choose|i: int|
                        0 <= i < at && (#[trigger] m.entries[i]).live_on(peer, direction);
                    assert(m.entries[i].live_on(peer, direction));
                }
            }
            at = at + 1;
        }
        if changed {
            self.revision = self.revision + 1;
            proof {
                assert(self.entries@ =~= mapped);
                assert forall|i: int| 0 <= i < mapped.len() implies {
                    &&& (#[trigger] mapped[i]).consistent()
                    &&& mapped[i].binding == m.entries[i].binding
                    &&& mapped[i].phase.terminal() == m.entries[i].phase.terminal()
                    &&& mapped[i].phase.terminal() ==> mapped[i] == m.entries[i]
                } by {
                    assert(m.entry_known(m.entries[i]));
                }
                lemma_remapped_inv(m, mapped);
                assert(self@ == m.with_entries(mapped));
            }
        } else {
            assert(self@ == m);
        }
    }

    fn fail_each(&mut self, ids: &Vec<u128>, failure: TransferFailureCode)
        requires
            old(self).wf(),
            old(self)@.revision + ids@.len() <= u64::MAX,
        ensures
            continues(*old(self), *final(self)),
            final(self)@ == old(self)@.all_failed(ids@, failure),
    {
        let mut at: usize = 0;
        while at < ids.len()
            invariant
                at <= ids@.len(),
                old(self).wf(),
                old(self)@.revision + ids@.len() <= u64::MAX,
                self.wf(),
                self.instance() == old(self).instance(),
                self@ == old(self)@.all_failed(ids@.take(at as int), failure),
            decreases ids@.len() - at,
        {
            proof {
                lemma_all_failed(old(self)@, ids@.take(at as int), failure);
                assert(ids@.take(at + 1).drop_last() =~= ids@.take(at as int));
            }
            self.fail_irreversible(ids[at], failure);
            at = at + 1;
        }
        proof {
            assert(ids@.take(at as int) =~= ids@);
            lemma_all_failed(old(self)@, ids@, failure);
        }
    }

    /// Everything of a peer failed.
    pub fn fail_peer(&mut self, peer: DeviceId, failure: TransferFailureCode)
        requires
            old(self).wf(),
            old(self)@.revision + old(self)@.entries.len() <= u64::MAX,
        ensures
            continues(*old(self), *final(self)),
            final(self)@ == old(self)@.all_failed(
                live_ids_of(old(self)@.entries, peer),
                failure,
            ),
    {
        let mut ids: Vec<u128> = Vec::new();
        let mut at: usize = 0;
        while at < self.entries.len()
            invariant
                at <= self.entries@.len(),
                ids@ == live_ids_of(self.entries@.take(at as int), peer),
                ids@.len() <= at,
            decreases self.entries@.len() - at,
        {
            assert(self.entries@.take(at + 1).drop_last() =~= self.entries@.take(at as int));
            let entry: RegistryEntry = self.entries[at];
            if entry.binding.peer == peer && !entry.phase.is_terminal() {
                ids.push(entry.public_id);
            }
            at = at + 1;
        }
        assert(self.entries@.take(at as int) =~= self.entries@);
        self.fail_each(&ids, failure);
    }

    /// The storage of one peer and direction could not be cleaned up.
    pub fn cleanup_failed(&mut self, peer: DeviceId, direction: TransferDirection)
        requires
            old(self).wf(),
            old(self)@.revision + old(self)@.entries.len() <= u64::MAX,
        ensures
            continues(*old(self), *final(self)),
            final(self)@ == old(self)@.all_failed(
                live_ids_on(old(self)@.entries, peer, direction),
                TransferFailureCode::CleanupFailed,
            ),
    {
        let mut ids: Vec<u128> = Vec::new();
        let mut at: usize = 0;
        while at < self.entries.len()
            invariant
                at <= self.entries@.len(),
                ids@ == live_ids_on(self.entries@.take(at as int), peer, direction),
                ids@.len() <= at,
            decreases self.entries@.len() - at,
        {
            assert(self.entries@.take(at + 1).drop_last() =~= self.entries@.take(at as int));
            let entry: RegistryEntry = self.entries[at];
            if entry.binding.peer == peer && entry.binding.direction == direction
                && !entry.phase.is_terminal() {
                ids.push(entry.public_id);
            }
            at = at + 1;
        }
        assert(self.entries@.take(at as int) =~= self.entries@);
        self.fail_each(&ids, TransferFailureCode::CleanupFailed);
    }

    /// What was to be cancelled by `request_system_abort` is cancelled now.
    pub fn finish_system_abort(&mut self, peer: DeviceId, direction: TransferDirection)
        requires
            old(self).wf(),
            old(self)@.revision + old(self)@.entries.len() <= u64::MAX,
        ensures
            continues(*old(self), *final(self)),
            final(self)@ == old(self)@.all_cancelled(
                cancelling_ids(old(self)@.entries, peer, direction),
            ),
    {
        let mut ids: Vec<u128> = Vec::new();
        let mut at: usize = 0;
        while at < self.entries.len()
            invariant
                at <= self.entries@.len(),
                ids@ == cancelling_ids(self.entries@.take(at as int), peer, direction),
                ids@.len() <= at,
            decreases self.entries@.len() - at,
        {
            assert(self.entries@.take(at + 1).drop_last() =~= self.entries@.take(at as int));
            let entry: RegistryEntry = self.entries[at];
            if entry.binding.peer == peer && entry.binding.direction == direction && entry.phase
                == TransferPhase::CancelRequested {
                ids.push(entry.public_id);
            }
            at = at + 1;
        }
        assert(self.entries@.take(at as int) =~= self.entries@);
        let mut next: usize = 0;
        while next < ids.len()
            invariant
                next <= ids@.len(),
                old(self).wf(),
                old(self)@.revision + ids@.len() <= u64::MAX,
                self.wf(),
                self.instance() == old(self).instance(),
                self@ == old(self)@.all_cancelled(ids@.take(next as int)),
            decreases ids@.len() - next,
        {
            proof {
                lemma_all_cancelled(old(self)@, ids@.take(next as int));
                assert(ids@.take(next + 1).drop_last() =~= ids@.take(next as int));
            }
            self.cancelled(ids[next]);
            next = next + 1;
        }
        proof {
            assert(ids@.take(next as int) =~= ids@);
            lemma_all_cancelled(old(self)@, ids@);
        }
    }
}

/// A cancellation is answered with the transfer that it reached, exactly if that
/// one is listed, still goes on and can be cancelled; then its cancellation was
/// asked for. Where nothing is left to cancel it is answered with nothing.
pub proof fn law_cancellations_are_answered(m: RegistryModel, id: u128)
    ensures
        ({
            let (answer, after) = cancel_answer(m, id);
            let e = m.entry(id);
            let over = e.phase is Completed || e.phase is Cancelled || e.phase is Failed || e.phase
                is CancelRequested;
            &&& answer == Err::<Option<TransferBinding>, _>(TransferRegistryError::NotFound)
                <==> !m.has(id)
            &&& answer == Ok::<Option<TransferBinding>, TransferRegistryError>(None) <==> m.has(id)
                && over
            &&& answer == Err::<Option<TransferBinding>, _>(TransferRegistryError::NotCancellable)
                <==> m.has(id) && !over && !e.cancellable
            &&& m.has(id) && !over && e.cancellable ==> answer == Ok::<
                Option<TransferBinding>,
                TransferRegistryError,
            >(Some(e.binding)) && after == m.mutated(id, e.cancel_requested())
            &&& !(m.has(id) && !over && e.cancellable) ==> after == m
        }),
{
}

/// A scope that was admitted before leads to its transfer again: as what it was
/// where it is over, as it is where it is being cancelled, and queued anew where
/// the same total is announced. Another total is refused.
pub proof fn law_known_scopes_are_admitted_again(m: RegistryModel, id: u128, total_bytes: u64)
    ensures
        ({
            let (answer, after) = readmitted(m, id, total_bytes);
            let e = m.entry(id);
            let over = e.phase is Completed || e.phase is Cancelled || e.phase is Failed;
            &&& !m.has(id) ==> after == m && answer == Ok::<_, TransferRegistryError>(
                InboundAdmission::Terminal {
                    binding: m.history[id].binding,
                    phase: m.history[id].phase,
                },
            )
            &&& m.has(id) && over ==> after == m && answer == Ok::<_, TransferRegistryError>(
                InboundAdmission::Terminal { binding: e.binding, phase: e.phase },
            )
            &&& m.has(id) && e.phase is CancelRequested ==> after == m && answer == Ok::<
                _,
                TransferRegistryError,
            >(InboundAdmission::Live(e.binding))
            &&& m.has(id) && !over && !(e.phase is CancelRequested) && e.total_bytes == Some(
                total_bytes,
            ) ==> answer == Ok::<_, TransferRegistryError>(InboundAdmission::Live(e.binding))
                && after == m.mutated(id, e.requeued())
            &&& m.has(id) && !over && !(e.phase is CancelRequested) && e.total_bytes != Some(
                total_bytes,
            ) ==> after == m && answer == Err::<InboundAdmission, _>(
                TransferRegistryError::InvalidId,
            )
        }),
{
}

/// Received bytes are taken of a transfer that goes on, within the total that was
/// announced. Of one that is over or being cancelled the sender learns that; of
/// one that nobody knows, or of other numbers, nothing is taken.
pub proof fn law_received_bytes_are_taken(
    m: RegistryModel,
    scope: WireScope,
    processed: u64,
    total: u64,
    phase: TransferPhase,
)
    ensures
        ({
            let (answer, after) = update_answer(m, scope, processed, total, phase);
            let id = m.by_wire[scope];
            let e = m.entry(id);
            let known = m.by_wire.contains_key(scope);
            let over = e.phase is Completed || e.phase is Cancelled || e.phase is Failed || e.phase
                is CancelRequested;
            &&& !known ==> answer is Unknown && after == m
            &&& known && !m.has(id) ==> answer == InboundUpdate::Terminal(m.history[id].binding)
                && after == m
            &&& known && m.has(id) && over ==> answer == InboundUpdate::Terminal(e.binding) && after
                == m
            &&& known && m.has(id) && !over && processed <= total && e.total_bytes == Some(total)
                ==> answer == InboundUpdate::Updated(e.binding) && after == m.mutated(
                id,
                e.received(processed, phase),
            )
            &&& known && m.has(id) && !over && !(processed <= total && e.total_bytes == Some(total))
                ==> answer is Unknown && after == m
        }),
{
}

/// A lost link pauses the transfers of its peer alone, and a stop in one direction
/// asks for the cancellation of those alone that go that way.
pub proof fn law_stops_reach_their_own_transfers(
    e: RegistryEntry,
    peer: DeviceId,
    direction: TransferDirection,
)
    ensures
        ({
            let over = e.phase is Completed || e.phase is Cancelled || e.phase is Failed;
            &&& e.binding.peer == peer && !over ==> paused_entry(e, peer) == e.paused()
            &&& e.binding.peer != peer || over ==> paused_entry(e, peer) == e
            &&& e.binding.peer == peer && e.binding.direction == direction && !over
                ==> aborted_entry(e, peer, direction) == e.cancel_requested()
            &&& e.binding.peer != peer || e.binding.direction != direction || over
                ==> aborted_entry(e, peer, direction) == e
        }),
{
}

/// A transfer that is over or whose end was asked for is neither completed nor
/// failed; a finished one is terminal.
pub proof fn law_finished_transfers_stay_finished(
    registry: &mut TransferRegistry,
    id: u128,
    won: bool,
    other: &mut TransferRegistry,
    failure: TransferFailureCode,
)
    requires
        call_ensures(TransferRegistry::complete, (registry, id), won),
        call_ensures(TransferRegistry::fail, (other, id, failure), ()),
    ensures
        won <==> old(registry)@.has(id) && !old(registry)@.entry(id).phase.terminal()
            && !(old(registry)@.entry(id).phase is CancelRequested),
        !won ==> final(registry)@ == old(registry)@,
        old(other)@.has(id) && old(other)@.entry(id).phase.terminal() ==> final(other)@
            == old(other)@,
        old(other)@.has(id) && old(other)@.entry(id).phase is CancelRequested ==> final(other)@
            == old(other)@,
        !old(other)@.has(id) ==> final(other)@ == old(other)@,
{
}

/// Finalizing begins only of what came in whole and nobody wants to end.
pub proof fn law_finalizing_needs_every_byte(
    registry: &mut TransferRegistry,
    id: u128,
    begun: bool,
)
    requires
        call_ensures(TransferRegistry::begin_inbound_finalizing, (registry, id), begun),
    ensures
        begun ==> {
            let entry = old(registry)@.entry(id);
            &&& old(registry)@.has(id)
            &&& !entry.phase.terminal()
            &&& !(entry.phase is CancelRequested)
            &&& entry.binding.direction is Inbound
            &&& entry.processed_bytes == entry.total_bytes
        },
        !begun ==> final(registry)@ == old(registry)@,
{
}

/// What goes out is admitted under the next generation and two identities that
/// nothing had before, while there is room for it.
pub proof fn law_admitted_transfers_are_new(
    registry: &mut TransferRegistry,
    peer: DeviceId,
    admission: Result<TransferAdmission, TransferRegistryError>,
)
    requires
        call_ensures(TransferRegistry::admit_outbound, (registry, peer), admission),
    ensures
        admission is Err ==> final(registry)@ == old(registry)@,
        admission matches Ok(admitted) ==> {
            let binding = admitted.binding;
            &&& binding.peer == peer
            &&& binding.direction is Outbound
            &&& binding.generation == old(registry)@.next_generation
            &&& binding.public_id != binding.wire_id.value
            &&& old(registry)@.available(binding.public_id)
            &&& old(registry)@.available(binding.wire_id.value)
            &&& old(registry)@.live_count() < old(registry)@.limits.nonterminal
        },
        old(registry)@.live_count() >= old(registry)@.limits.nonterminal ==> (admission matches Err(
            TransferRegistryError::Full,
        )),
{
}

/// What comes in is admitted under the identity of the wire that it came with,
/// and as nothing of it was processed.
pub proof fn law_incoming_transfers_keep_their_wire(
    registry: &mut TransferRegistry,
    peer: DeviceId,
    wire_id: TransferId,
    total_bytes: u64,
    admission: Result<InboundAdmission, TransferRegistryError>,
)
    requires
        call_ensures(
            TransferRegistry::admit_inbound,
            (registry, peer, wire_id, total_bytes),
            admission,
        ),
    ensures
        ({
            let scope = WireScope { peer, direction: TransferDirection::Inbound, wire_id };
            let m = old(registry)@;
            !m.by_wire.contains_key(scope) ==> {
                &&& admission is Ok <==> m.live_count() < m.limits.nonterminal && m.public_ids.len()
                    < MAX_LIFETIME_TRANSFER_IDENTITIES && !m.public_ids.contains(wire_id.value)
                &&& admission is Err ==> final(registry)@ == m
                &&& admission matches Ok(granted) ==> (granted matches InboundAdmission::Live(
                    binding,
                ) && binding.peer == peer && binding.direction is Inbound && binding.wire_id
                    == wire_id && binding.public_id != wire_id.value)
                &&& admission matches Err(error) ==> (error is WireIdCollision
                    ==> m.public_ids.contains(wire_id.value))
            }
        }),
{
}

/// A transfer of a wire is found under its own binding.
pub proof fn law_phases_are_read_of_the_entry(
    registry: TransferRegistry,
    id: u128,
    phase: Option<TransferPhase>,
)
    requires
        registry@.has(id),
        call_ensures(TransferRegistry::phase, (&registry, id), phase),
    ensures
        phase == Some(registry@.entry(id).phase),
{
}

} // verus!
