//! Values, states and laws of the transfer registry.

use vstd::prelude::*;
use crate::identifiers::{DeviceId, TransferId};
use crate::wire_index::{TransferDirection, WireScope};

verus! {

/// Hard process-lifetime identity budget. Once it is used up, admission fails
/// until the process restarts.
pub const MAX_LIFETIME_TRANSFER_IDENTITIES: usize = 4096;

#[derive(Clone, Copy, Debug, PartialEq, Eq, Structural)]
pub enum TransferPhase {
    Preparing,
    Queued,
    Transferring,
    Paused,
    Finalizing,
    CancelRequested,
    Completed,
    Cancelled,
    Failed,
}

/// Why a transfer failed: the one reason that the registry gives itself, or a
/// number that the local interface gives a meaning.
#[derive(Clone, Copy, Debug, PartialEq, Eq, Structural)]
pub enum TransferFailureCode {
    CleanupFailed,
    Numbered(u32),
}

/// How many transfers the local interface lists at most.
#[derive(Clone, Copy, Debug, PartialEq, Eq, Structural)]
pub struct TransferLimits {
    pub nonterminal: usize,
    pub terminal: usize,
}

#[derive(Clone, Copy, Debug, PartialEq, Eq, Structural)]
pub struct TransferBinding {
    pub public_id: u128,
    pub peer: DeviceId,
    pub direction: TransferDirection,
    pub wire_id: TransferId,
    pub generation: u64,
}

#[derive(Clone, Copy, Debug, PartialEq, Eq)]
pub struct RegistryEntry {
    pub public_id: u128,
    pub binding: TransferBinding,
    pub phase: TransferPhase,
    pub processed_bytes: Option<u64>,
    pub total_bytes: Option<u64>,
    pub cancellable: bool,
    pub failure: Option<TransferFailureCode>,
    pub cancel: bool,
}

#[derive(Clone, Copy, Debug, PartialEq, Eq)]
pub struct TerminalRecord {
    pub binding: TransferBinding,
    pub phase: TransferPhase,
}

#[derive(Clone, Copy, Debug, PartialEq, Eq)]
pub struct TransferAdmission {
    pub binding: TransferBinding,
}

/// One line of a listing; it names no file and no peer.
#[derive(Debug, PartialEq, Eq)]
pub struct TransferSnapshot {
    pub transfer_id: String,
    pub direction: TransferDirection,
    pub phase: TransferPhase,
    pub processed_bytes: Option<u64>,
    pub total_bytes: Option<u64>,
    pub cancellable: bool,
    pub failure: Option<TransferFailureCode>,
}

#[derive(Debug, PartialEq, Eq)]
pub struct TransferListing {
    pub instance_id: String,
    pub revision: u64,
    pub truncated: bool,
    pub transfers: Vec<TransferSnapshot>,
}

#[derive(Clone, Copy, Debug, PartialEq, Eq)]
pub struct CancelTarget {
    pub binding: TransferBinding,
}

#[derive(Debug, PartialEq, Eq)]
pub struct CancelOutcome {
    pub listing: TransferListing,
    pub target: Option<CancelTarget>,
}

#[derive(Clone, Copy, Debug, PartialEq, Eq)]
pub enum TransferRegistryError {
    Full,
    LifetimeFull,
    InvalidId,
    NotFound,
    NotCancellable,
    WireIdCollision,
}

#[derive(Clone, Copy, Debug, PartialEq, Eq)]
pub enum InboundAdmission {
    Live(TransferBinding),
    Terminal { binding: TransferBinding, phase: TransferPhase },
}

#[derive(Clone, Copy, Debug, PartialEq, Eq)]
pub enum InboundUpdate {
    Updated(TransferBinding),
    Terminal(TransferBinding),
    Unknown,
}

/// Sizes of everything that the registry keeps.
#[derive(Clone, Copy, Debug, PartialEq, Eq)]
pub struct LedgerCounts {
    pub public_ids: usize,
    pub wire_ids: usize,
    pub wire_links: usize,
    pub terminal_records: usize,
    pub terminal_fifo: usize,
    pub entries: usize,
}

impl TransferPhase {
    pub open spec fn terminal(self) -> bool {
        self == TransferPhase::Completed || self == TransferPhase::Cancelled || self
            == TransferPhase::Failed
    }

    /// Whether nothing can happen to the transfer any more.
    pub fn is_terminal(self) -> (terminal: bool)
        ensures
            terminal == self.terminal(),
    {
        match self {
            TransferPhase::Completed | TransferPhase::Cancelled | TransferPhase::Failed => true,
            _ => false,
        }
    }
}

pub open spec fn scope_of(binding: TransferBinding) -> WireScope {
    WireScope { peer: binding.peer, direction: binding.direction, wire_id: binding.wire_id }
}

impl RegistryEntry {
    /// What holds of every listed transfer: progress stays within a known
    /// total, an intent to cancel takes the right to cancel away, and a reason
    /// for failure goes with failure alone.
    pub open spec fn consistent(self) -> bool {
        &&& self.public_id == self.binding.public_id
        &&& (self.processed_bytes matches Some(processed) ==> self.total_bytes matches Some(
            total,
        ) && processed <= total)
        &&& (self.phase == TransferPhase::CancelRequested ==> self.cancel)
        &&& (self.phase == TransferPhase::CancelRequested || self.phase.terminal()
            ==> !self.cancellable)
        &&& (self.cancel && !self.phase.terminal() ==> self.phase
            == TransferPhase::CancelRequested)
        &&& (self.failure is Some <==> self.phase == TransferPhase::Failed)
        &&& (self.binding.direction == TransferDirection::Inbound ==> self.total_bytes is Some)
    }

    pub open spec fn requeued(self) -> RegistryEntry {
        RegistryEntry { phase: TransferPhase::Queued, cancellable: true, ..self }
    }

    pub open spec fn received(self, processed: u64, phase: TransferPhase) -> RegistryEntry {
        RegistryEntry { processed_bytes: Some(processed), phase, cancellable: true, ..self }
    }

    pub open spec fn announced(self, total: u64) -> RegistryEntry {
        if self.phase == TransferPhase::CancelRequested {
            self
        } else {
            RegistryEntry {
                phase: TransferPhase::Queued,
                processed_bytes: Some(0),
                total_bytes: Some(total),
                ..self
            }
        }
    }

    pub open spec fn resumed(self, processed: u64) -> RegistryEntry {
        if self.phase != TransferPhase::CancelRequested && (self.total_bytes matches Some(total)
            && processed <= total) {
            RegistryEntry {
                phase: TransferPhase::Queued,
                processed_bytes: Some(processed),
                ..self
            }
        } else {
            self
        }
    }

    pub open spec fn sent(self, processed: u64) -> RegistryEntry {
        if self.phase != TransferPhase::CancelRequested && (self.total_bytes matches Some(total)
            && processed <= total) && (self.processed_bytes matches Some(before) ==> before
            <= processed) {
            RegistryEntry {
                phase: TransferPhase::Transferring,
                processed_bytes: Some(processed),
                ..self
            }
        } else {
            self
        }
    }

    pub open spec fn finalized(self) -> RegistryEntry {
        if self.phase == TransferPhase::CancelRequested {
            self
        } else {
            RegistryEntry {
                phase: TransferPhase::Finalizing,
                processed_bytes: self.total_bytes,
                ..self
            }
        }
    }

    pub open spec fn locked_for_finalizing(self) -> RegistryEntry {
        RegistryEntry { phase: TransferPhase::Finalizing, cancellable: false, ..self }
    }

    pub open spec fn cancel_requested(self) -> RegistryEntry {
        RegistryEntry {
            phase: TransferPhase::CancelRequested,
            cancellable: false,
            cancel: true,
            ..self
        }
    }

    pub open spec fn completed(self) -> RegistryEntry {
        RegistryEntry {
            phase: TransferPhase::Completed,
            processed_bytes: self.total_bytes,
            cancellable: false,
            failure: None,
            ..self
        }
    }

    pub open spec fn ended_by_cancel(self) -> RegistryEntry {
        RegistryEntry {
            phase: TransferPhase::Cancelled,
            cancellable: false,
            failure: None,
            ..self
        }
    }

    pub open spec fn failed(self, failure: TransferFailureCode) -> RegistryEntry {
        RegistryEntry {
            phase: TransferPhase::Failed,
            cancellable: false,
            failure: Some(failure),
            ..self
        }
    }

    /// Effect of a link loss: a transfer that is still being prepared is
    /// cancelled, one that waits for cancellation stays, any other is paused.
    pub open spec fn paused(self) -> RegistryEntry {
        if self.phase == TransferPhase::Preparing {
            self.cancel_requested()
        } else if self.phase == TransferPhase::CancelRequested {
            self
        } else {
            RegistryEntry { phase: TransferPhase::Paused, ..self }
        }
    }

    pub open spec fn live_of(self, peer: DeviceId) -> bool {
        self.binding.peer == peer && !self.phase.terminal()
    }

    pub open spec fn live_on(self, peer: DeviceId, direction: TransferDirection) -> bool {
        self.live_of(peer) && self.binding.direction == direction
    }
}

/// The entries that are not terminal, in order.
pub open spec fn live_entries(entries: Seq<RegistryEntry>) -> Seq<RegistryEntry>
    decreases entries.len(),
{
    if entries.len() == 0 {
        Seq::empty()
    } else if entries.last().phase.terminal() {
        live_entries(entries.drop_last())
    } else {
        live_entries(entries.drop_last()).push(entries.last())
    }
}

pub open spec fn has_entry(entries: Seq<RegistryEntry>, id: u128) -> bool {
    exists|i: int| 0 <= i < entries.len() && (#[trigger] entries[i]).public_id == id
}

pub open spec fn entry_index(entries: Seq<RegistryEntry>, id: u128) -> int {
    choose|i: int| 0 <= i < entries.len() && (#[trigger] entries[i]).public_id == id
}

/// The entries of the identifiers in `fifo` that are still listed, in order.
pub open spec fn retained_entries(fifo: Seq<u128>, entries: Seq<RegistryEntry>) -> Seq<
    RegistryEntry,
>
    decreases fifo.len(),
{
    if fifo.len() == 0 {
        Seq::empty()
    } else if has_entry(entries, fifo.last()) {
        retained_entries(fifo.drop_last(), entries).push(
            entries[entry_index(entries, fifo.last())],
        )
    } else {
        retained_entries(fifo.drop_last(), entries)
    }
}

/// What the registry knows, as mathematical values.
pub struct RegistryModel {
    pub limits: TransferLimits,
    pub revision: u64,
    pub next_generation: u64,
    pub truncated: bool,
    pub entries: Seq<RegistryEntry>,
    pub by_wire: Map<WireScope, u128>,
    pub history: Map<u128, TerminalRecord>,
    pub public_ids: Set<u128>,
    pub wire_ids: Set<u128>,
    pub fifo: Seq<u128>,
}

impl RegistryModel {
    pub open spec fn has(self, id: u128) -> bool {
        has_entry(self.entries, id)
    }

    pub open spec fn index_of(self, id: u128) -> int {
        entry_index(self.entries, id)
    }

    pub open spec fn entry(self, id: u128) -> RegistryEntry {
        self.entries[self.index_of(id)]
    }

    pub open spec fn live_count(self) -> nat {
        live_entries(self.entries).len()
    }

    /// An identifier that was never used, publicly or on the wire.
    pub open spec fn available(self, id: u128) -> bool {
        id != 0 && !self.public_ids.contains(id) && !self.wire_ids.contains(id)
    }

    pub open spec fn identities_consistent(self) -> bool {
        &&& self.limits.nonterminal + self.limits.terminal <= MAX_LIFETIME_TRANSFER_IDENTITIES
        &&& self.revision >= 1
        &&& self.public_ids.finite()
        &&& self.wire_ids.finite()
        &&& self.public_ids.len() <= MAX_LIFETIME_TRANSFER_IDENTITIES
        &&& self.wire_ids.len() <= self.public_ids.len()
        &&& self.next_generation == self.public_ids.len() + 1
        &&& !self.public_ids.contains(0)
        &&& forall|id: u128|
            !(#[trigger] self.public_ids.contains(id) && self.wire_ids.contains(id))
    }

    pub open spec fn entry_known(self, e: RegistryEntry) -> bool {
        &&& e.consistent()
        &&& 1 <= e.binding.generation < self.next_generation
        &&& self.public_ids.contains(e.public_id)
        &&& self.wire_ids.contains(e.binding.wire_id.value)
        &&& self.by_wire.contains_key(scope_of(e.binding))
        &&& self.by_wire[scope_of(e.binding)] == e.public_id
        &&& if e.phase.terminal() {
            &&& self.fifo.contains(e.public_id)
            &&& self.history.contains_key(e.public_id)
            &&& self.history[e.public_id] == (TerminalRecord {
                binding: e.binding,
                phase: e.phase,
            })
        } else {
            !self.history.contains_key(e.public_id)
        }
    }

    pub open spec fn entries_consistent(self) -> bool {
        &&& self.live_count() <= self.limits.nonterminal
        &&& forall|i: int| 0 <= i < self.entries.len() ==> self.entry_known(#[trigger] self.entries[i])
        &&& forall|i: int, j: int|
            0 <= i < j < self.entries.len() ==> (#[trigger] self.entries[i]).binding.generation < (
            #[trigger] self.entries[j]).binding.generation
        &&& forall|i: int, j: int|
            0 <= i < j < self.entries.len() ==> (#[trigger] self.entries[i]).public_id != (
            #[trigger] self.entries[j]).public_id
    }

    /// A wire scope leads to a listed transfer or to a terminal record of its own.
    pub open spec fn scope_known(self, scope: WireScope) -> bool {
        let id = self.by_wire[scope];
        ||| self.has(id) && scope_of(self.entry(id).binding) == scope
        ||| self.history.contains_key(id) && scope_of(self.history[id].binding) == scope
    }

    pub open spec fn history_consistent(self) -> bool {
        &&& forall|scope: WireScope| #[trigger]
            self.by_wire.contains_key(scope) ==> self.scope_known(scope)
        &&& forall|id: u128| #[trigger]
            self.history.contains_key(id) ==> {
                &&& self.public_ids.contains(id)
                &&& self.wire_ids.contains(self.history[id].binding.wire_id.value)
                &&& self.history[id].binding.public_id == id
                &&& self.history[id].phase.terminal()
            }
        &&& self.fifo.len() <= self.limits.terminal
        &&& self.fifo.no_duplicates()
        &&& forall|i: int|
            0 <= i < self.fifo.len() ==> self.history.contains_key(#[trigger] self.fifo[i])
    }

    pub open spec fn inv(self) -> bool {
        &&& self.identities_consistent()
        &&& self.entries_consistent()
        &&& self.history_consistent()
    }

    /// `later` keeps every identifier and every outcome that `self` knows.
    pub open spec fn precedes(self, later: RegistryModel) -> bool {
        &&& self.limits == later.limits
        &&& self.revision <= later.revision
        &&& self.next_generation <= later.next_generation
        &&& self.truncated ==> later.truncated
        &&& self.public_ids.subset_of(later.public_ids)
        &&& self.wire_ids.subset_of(later.wire_ids)
        &&& forall|id: u128| #[trigger]
            self.history.contains_key(id) ==> later.history.contains_key(id)
                && later.history[id] == self.history[id]
    }

    pub open spec fn bumped(self) -> RegistryModel {
        RegistryModel { revision: (self.revision + 1) as u64, ..self }
    }

    /// A listed transfer takes a new, live state.
    pub open spec fn mutated(self, id: u128, e: RegistryEntry) -> RegistryModel {
        RegistryModel {
            entries: self.entries.update(self.index_of(id), e),
            ..self.bumped()
        }
    }

    /// A listed transfer takes its last state. When the terminal list outgrows
    /// its limit, the oldest one leaves it.
    pub open spec fn finished(self, id: u128, e: RegistryEntry) -> RegistryModel {
        let entries = self.entries.update(self.index_of(id), e);
        let fifo = self.fifo.push(id);
        let recorded = RegistryModel {
            entries,
            history: self.history.insert(id, TerminalRecord { binding: e.binding, phase: e.phase }),
            fifo,
            ..self.bumped()
        };
        if fifo.len() <= self.limits.terminal {
            recorded
        } else if has_entry(entries, fifo[0]) {
            RegistryModel {
                entries: entries.remove(entry_index(entries, fifo[0])),
                fifo: fifo.drop_first(),
                truncated: true,
                ..recorded
            }
        } else {
            RegistryModel { fifo: fifo.drop_first(), ..recorded }
        }
    }

    pub open spec fn admitted(
        self,
        binding: TransferBinding,
        phase: TransferPhase,
        processed: Option<u64>,
        total: Option<u64>,
    ) -> RegistryModel {
        RegistryModel {
            next_generation: (self.next_generation + 1) as u64,
            entries: self.entries.push(
                RegistryEntry {
                    public_id: binding.public_id,
                    binding,
                    phase,
                    processed_bytes: processed,
                    total_bytes: total,
                    cancellable: true,
                    failure: None,
                    cancel: false,
                },
            ),
            by_wire: self.by_wire.insert(scope_of(binding), binding.public_id),
            public_ids: self.public_ids.insert(binding.public_id),
            wire_ids: self.wire_ids.insert(binding.wire_id.value),
            ..self.bumped()
        }
    }

    pub open spec fn rolled_back(self, id: u128) -> RegistryModel {
        if self.has(id) {
            RegistryModel {
                entries: self.entries.remove(self.index_of(id)),
                by_wire: self.by_wire.remove(scope_of(self.entry(id).binding)),
                ..self.bumped()
            }
        } else {
            self
        }
    }

    /// Runs `finished` on a transfer that is listed and live; else nothing happens.
    pub open spec fn irreversibly_failed(self, id: u128, failure: TransferFailureCode) -> RegistryModel {
        if self.has(id) && !self.entry(id).phase.terminal() {
            self.finished(id, self.entry(id).failed(failure))
        } else {
            self
        }
    }

    pub open spec fn all_failed(self, ids: Seq<u128>, failure: TransferFailureCode) -> RegistryModel
        decreases ids.len(),
    {
        if ids.len() == 0 {
            self
        } else {
            self.all_failed(ids.drop_last(), failure).irreversibly_failed(ids.last(), failure)
        }
    }

    pub open spec fn after_cancelled(self, id: u128) -> RegistryModel {
        if self.has(id) && !self.entry(id).phase.terminal() {
            self.finished(id, self.entry(id).ended_by_cancel())
        } else {
            self
        }
    }

    pub open spec fn all_cancelled(self, ids: Seq<u128>) -> RegistryModel
        decreases ids.len(),
    {
        if ids.len() == 0 {
            self
        } else {
            self.all_cancelled(ids.drop_last()).after_cancelled(ids.last())
        }
    }

    /// Order of a listing: live transfers by age, then terminal ones in the
    /// order in which they ended.
    pub open spec fn listing_order(self) -> Seq<RegistryEntry> {
        live_entries(self.entries) + retained_entries(self.fifo, self.entries)
    }

    pub open spec fn cancel_pending(
        self,
        i: int,
        peer: DeviceId,
        direction: TransferDirection,
    ) -> bool {
        &&& 0 <= i < self.entries.len()
        &&& self.entries[i].binding.peer == peer
        &&& self.entries[i].binding.direction == direction
        &&& self.entries[i].phase == TransferPhase::CancelRequested
        &&& self.entries[i].cancel
    }
}

/// An identifier is listed at one place only.
pub proof fn lemma_index_unique(entries: Seq<RegistryEntry>, i: int)
    requires
        0 <= i < entries.len(),
        forall|a: int, b: int|
            0 <= a < b < entries.len() ==> (#[trigger] entries[a]).public_id != (
            #[trigger] entries[b]).public_id,
    ensures
        has_entry(entries, entries[i].public_id),
        entry_index(entries, entries[i].public_id) == i,
{
    let id = entries[i].public_id;
    let k = entry_index(entries, id);
    assert(0 <= k < entries.len() && entries[k].public_id == id);
    if k < i {
        assert(entries[k].public_id != entries[i].public_id);
    } else if i < k {
        assert(entries[i].public_id != entries[k].public_id);
    }
}

proof fn lemma_live_update(entries: Seq<RegistryEntry>, i: int, e: RegistryEntry)
    requires
        0 <= i < entries.len(),
        !entries[i].phase.terminal(),
    ensures
        live_entries(entries.update(i, e)).len() == live_entries(entries).len() - (if e.phase.terminal() {
            1int
        } else {
            0int
        }),
    decreases entries.len(),
{
    let updated = entries.update(i, e);
    if i == entries.len() - 1 {
        assert(updated.drop_last() =~= entries.drop_last());
    } else {
        assert(updated.drop_last() =~= entries.drop_last().update(i, e));
        lemma_live_update(entries.drop_last(), i, e);
    }
}

proof fn lemma_live_remove(entries: Seq<RegistryEntry>, i: int)
    requires
        0 <= i < entries.len(),
    ensures
        entries[i].phase.terminal() ==> live_entries(entries.remove(i)) == live_entries(entries),
        live_entries(entries.remove(i)).len() <= live_entries(entries).len(),
    decreases entries.len(),
{
    let removed = entries.remove(i);
    if i == entries.len() - 1 {
        assert(removed =~= entries.drop_last());
    } else {
        assert(removed.last() == entries.last());
        assert(removed.drop_last() =~= entries.drop_last().remove(i));
        lemma_live_remove(entries.drop_last(), i);
    }
}

pub proof fn lemma_live_push(entries: Seq<RegistryEntry>, e: RegistryEntry)
    ensures
        live_entries(entries.push(e)) == if e.phase.terminal() {
            live_entries(entries)
        } else {
            live_entries(entries).push(e)
        },
{
    assert(entries.push(e).drop_last() =~= entries);
}

/// Entries whose terminal states agree place by place are live at the same places.
proof fn lemma_live_same_shape(a: Seq<RegistryEntry>, b: Seq<RegistryEntry>)
    requires
        a.len() == b.len(),
        forall|i: int|
            0 <= i < a.len() ==> (#[trigger] a[i]).phase.terminal() == b[i].phase.terminal(),
    ensures
        live_entries(a).len() == live_entries(b).len(),
    decreases a.len(),
{
    if a.len() > 0 {
        assert(a[a.len() - 1].phase.terminal() == b[a.len() - 1].phase.terminal());
        assert forall|i: int| 0 <= i < a.drop_last().len() implies (
        #[trigger] a.drop_last()[i]).phase.terminal() == b.drop_last()[i].phase.terminal() by {
            assert(a[i].phase.terminal() == b[i].phase.terminal());
        }
        lemma_live_same_shape(a.drop_last(), b.drop_last());
    }
}

impl RegistryModel {
    /// `entries` holds the same transfers as before, in other live states.
    pub open spec fn remapped(self, entries: Seq<RegistryEntry>) -> bool {
        &&& entries.len() == self.entries.len()
        &&& forall|i: int|
            0 <= i < entries.len() ==> {
                &&& (#[trigger] entries[i]).consistent()
                &&& entries[i].binding == self.entries[i].binding
                &&& entries[i].phase.terminal() == self.entries[i].phase.terminal()
                &&& entries[i].phase.terminal() ==> entries[i] == self.entries[i]
            }
    }

    pub open spec fn with_entries(self, entries: Seq<RegistryEntry>) -> RegistryModel {
        RegistryModel { entries, ..self.bumped() }
    }
}

pub proof fn lemma_remapped_inv(m: RegistryModel, entries: Seq<RegistryEntry>)
    requires
        m.inv(),
        m.revision < u64::MAX,
        m.remapped(entries),
    ensures
        m.with_entries(entries).inv(),
        m.precedes(m.with_entries(entries)),
{
    let n = m.with_entries(entries);
    lemma_live_same_shape(entries, m.entries);
    assert forall|i: int| 0 <= i < n.entries.len() implies n.entry_known(
        #[trigger] n.entries[i],
    ) by {
        assert(m.entry_known(m.entries[i]));
    }
    assert forall|i: int, j: int| 0 <= i < j < n.entries.len() implies (
    #[trigger] n.entries[i]).binding.generation < (#[trigger] n.entries[j]).binding.generation by {
        assert(m.entries[i].binding.generation < m.entries[j].binding.generation);
    }
    assert forall|i: int, j: int| 0 <= i < j < n.entries.len() implies (
    #[trigger] n.entries[i]).public_id != (#[trigger] n.entries[j]).public_id by {
        assert(m.entry_known(m.entries[i]));
        assert(m.entry_known(m.entries[j]));
        assert(m.entries[i].public_id != m.entries[j].public_id);
    }
    assert forall|scope: WireScope| #[trigger]
        n.by_wire.contains_key(scope) implies n.scope_known(scope) by {
        assert(m.by_wire.contains_key(scope));
        assert(m.scope_known(scope));
        let id = m.by_wire[scope];
        if m.has(id) && scope_of(m.entry(id).binding) == scope {
            let i = m.index_of(id);
            assert(m.entry_known(m.entries[i]));
            assert(n.entries[i].public_id == id);
            lemma_index_unique(n.entries, i);
        }
    }
}

pub proof fn lemma_mutated_inv(m: RegistryModel, id: u128, e: RegistryEntry)
    requires
        m.inv(),
        m.revision < u64::MAX,
        m.has(id),
        !m.entry(id).phase.terminal(),
        !e.phase.terminal(),
        e.consistent(),
        e.binding == m.entry(id).binding,
    ensures
        m.mutated(id, e).inv(),
        m.precedes(m.mutated(id, e)),
{
    let entries = m.entries.update(m.index_of(id), e);
    assert forall|i: int| 0 <= i < entries.len() implies {
        &&& (#[trigger] entries[i]).consistent()
        &&& entries[i].binding == m.entries[i].binding
        &&& entries[i].phase.terminal() == m.entries[i].phase.terminal()
        &&& entries[i].phase.terminal() ==> entries[i] == m.entries[i]
    } by {
        assert(m.entry_known(m.entries[i]));
    }
    lemma_remapped_inv(m, entries);
    assert(m.with_entries(entries) == m.mutated(id, e));
}

/// What `finished` does before the oldest terminal transfer leaves the list.
spec fn recorded(m: RegistryModel, id: u128, e: RegistryEntry) -> RegistryModel {
    RegistryModel {
        entries: m.entries.update(m.index_of(id), e),
        history: m.history.insert(id, TerminalRecord { binding: e.binding, phase: e.phase }),
        fifo: m.fifo.push(id),
        ..m.bumped()
    }
}

spec fn history_consistent_but_long(m: RegistryModel) -> bool {
    let short = RegistryModel {
        limits: TransferLimits { terminal: usize::MAX, ..m.limits },
        ..m
    };
    m.identities_consistent() && m.entries_consistent() && short.history_consistent()
}

#[verifier::spinoff_prover]
#[verifier::rlimit(60)]
proof fn lemma_recorded(m: RegistryModel, id: u128, e: RegistryEntry)
    requires
        m.inv(),
        m.revision < u64::MAX,
        m.has(id),
        !m.entry(id).phase.terminal(),
        e.phase.terminal(),
        e.consistent(),
        e.binding == m.entry(id).binding,
    ensures
        history_consistent_but_long(recorded(m, id, e)),
        m.precedes(recorded(m, id, e)),
{
    let n = recorded(m, id, e);
    let at = m.index_of(id);
    assert(m.entry_known(m.entries[at]));
    lemma_live_update(m.entries, at, e);
    assert forall|i: int| 0 <= i < n.entries.len() implies n.entry_known(
        #[trigger] n.entries[i],
    ) by {
        assert(m.entry_known(m.entries[i]));
        if i == at {
            assert(n.fifo[m.fifo.len() as int] == id);
        } else {
            assert(m.entries[i].public_id != id) by {
                if i < at {
                    assert(m.entries[i].public_id != m.entries[at].public_id);
                } else {
                    assert(m.entries[at].public_id != m.entries[i].public_id);
                }
            }
            if m.entries[i].phase.terminal() {
                let k = choose|k: int| 0 <= k < m.fifo.len() && m.fifo[k] == m.entries[i].public_id;
                assert(n.fifo[k] == m.entries[i].public_id);
            }
        }
    }
    assert forall|i: int, j: int| 0 <= i < j < n.entries.len() implies (
    #[trigger] n.entries[i]).binding.generation < (#[trigger] n.entries[j]).binding.generation by {
        assert(m.entries[i].binding.generation < m.entries[j].binding.generation);
    }
    assert forall|i: int, j: int| 0 <= i < j < n.entries.len() implies (
    #[trigger] n.entries[i]).public_id != (#[trigger] n.entries[j]).public_id by {
        assert(m.entries[i].public_id != m.entries[j].public_id);
    }
    assert forall|scope: WireScope| #[trigger]
        n.by_wire.contains_key(scope) implies n.scope_known(scope) by {
        assert(m.by_wire.contains_key(scope));
        assert(m.scope_known(scope));
        let other = m.by_wire[scope];
        if m.has(other) && scope_of(m.entry(other).binding) == scope {
            let i = m.index_of(other);
            assert(n.entries[i].public_id == other);
            lemma_index_unique(n.entries, i);
        } else {
            assert(other != id);
        }
    }
    assert forall|i: int| 0 <= i < n.fifo.len() implies n.history.contains_key(
        #[trigger] n.fifo[i],
    ) by {
        if i < m.fifo.len() {
            assert(m.history.contains_key(m.fifo[i]));
        }
    }
    assert(n.fifo.no_duplicates()) by {
        assert forall|i: int, j: int|
            0 <= i < n.fifo.len() && 0 <= j < n.fifo.len() && i != j implies n.fifo[i]
            != n.fifo[j] by {
            if i < m.fifo.len() {
                assert(m.history.contains_key(m.fifo[i]));
            }
            if j < m.fifo.len() {
                assert(m.history.contains_key(m.fifo[j]));
            }
        }
    }
}

proof fn lemma_long_scopes_known(m: RegistryModel)
    requires
        history_consistent_but_long(m),
    ensures
        forall|scope: WireScope| #[trigger]
            m.by_wire.contains_key(scope) ==> m.scope_known(scope),
        m.fifo.len() <= m.limits.terminal ==> m.inv(),
{
    let short = RegistryModel {
        limits: TransferLimits { terminal: usize::MAX, ..m.limits },
        ..m
    };
    assert forall|scope: WireScope| #[trigger]
        m.by_wire.contains_key(scope) implies m.scope_known(scope) by {
        assert(short.by_wire.contains_key(scope));
        assert(short.scope_known(scope));
    }
    assert forall|id: u128| #[trigger] m.history.contains_key(id) implies m.public_ids.contains(id)
        && m.wire_ids.contains(m.history[id].binding.wire_id.value) && m.history[id].binding.public_id == id && m.history[id].phase.terminal() by {
        assert(short.history.contains_key(id));
    }
    assert forall|i: int| 0 <= i < m.fifo.len() implies m.history.contains_key(
        #[trigger] m.fifo[i],
    ) by {
        assert(short.history.contains_key(short.fifo[i]));
    }
}

#[verifier::spinoff_prover]
#[verifier::rlimit(60)]
proof fn lemma_evicted(m: RegistryModel)
    requires
        history_consistent_but_long(m),
        m.fifo.len() == m.limits.terminal + 1,
    ensures
        ({
            let n = if m.has(m.fifo[0]) {
                RegistryModel {
                    entries: m.entries.remove(m.index_of(m.fifo[0])),
                    fifo: m.fifo.drop_first(),
                    truncated: true,
                    ..m
                }
            } else {
                RegistryModel { fifo: m.fifo.drop_first(), ..m }
            };
            n.inv() && m.precedes(n)
        }),
{
    let oldest = m.fifo[0];
    lemma_long_scopes_known(m);
    assert(m.history.contains_key(m.fifo[0]));
    let n = if m.has(oldest) {
        RegistryModel {
            entries: m.entries.remove(m.index_of(oldest)),
            fifo: m.fifo.drop_first(),
            truncated: true,
            ..m
        }
    } else {
        RegistryModel { fifo: m.fifo.drop_first(), ..m }
    };
    let at = m.index_of(oldest);
    if m.has(oldest) {
        assert(m.entry_known(m.entries[at]));
        lemma_live_remove(m.entries, at);
    }
    assert forall|i: int| 0 <= i < n.fifo.len() implies n.history.contains_key(
        #[trigger] n.fifo[i],
    ) by {
        assert(m.history.contains_key(m.fifo[i + 1]));
    }
    assert(n.fifo.no_duplicates()) by {
        assert forall|i: int, j: int|
            0 <= i < n.fifo.len() && 0 <= j < n.fifo.len() && i != j implies n.fifo[i]
            != n.fifo[j] by {
            assert(m.fifo[i + 1] != m.fifo[j + 1]);
        }
    }
    assert forall|i: int| 0 <= i < n.entries.len() implies n.entry_known(
        #[trigger] n.entries[i],
    ) by {
        let k = if m.has(oldest) && i >= at { i + 1 } else { i };
        assert(n.entries[i] == m.entries[k]);
        assert(m.entry_known(m.entries[k]));
        if m.has(oldest) {
            if k < at {
                assert(m.entries[k].public_id != m.entries[at].public_id);
            } else {
                assert(m.entries[at].public_id != m.entries[k].public_id);
            }
        }
        assert(m.entries[k].public_id != oldest);
        if m.entries[k].phase.terminal() {
            let f = choose|f: int| 0 <= f < m.fifo.len() && m.fifo[f] == m.entries[k].public_id;
            assert(n.fifo[f - 1] == m.entries[k].public_id);
        }
    }
    assert forall|i: int, j: int| 0 <= i < j < n.entries.len() implies (
    #[trigger] n.entries[i]).binding.generation < (#[trigger] n.entries[j]).binding.generation
        && n.entries[i].public_id != n.entries[j].public_id by {
        let a = if m.has(oldest) && i >= at { i + 1 } else { i };
        let b = if m.has(oldest) && j >= at { j + 1 } else { j };
        assert(m.entries[a].binding.generation < m.entries[b].binding.generation);
        assert(m.entries[a].public_id != m.entries[b].public_id);
    }
    assert forall|scope: WireScope| #[trigger]
        n.by_wire.contains_key(scope) implies n.scope_known(scope) by {
        assert(m.by_wire.contains_key(scope));
        assert(m.scope_known(scope));
        let id = m.by_wire[scope];
        if m.has(id) && scope_of(m.entry(id).binding) == scope {
            let k = m.index_of(id);
            assert(m.entry_known(m.entries[k]));
            if id != oldest {
                let i = if m.has(oldest) && k >= at { k - 1 } else { k };
                assert(n.entries[i] == m.entries[k]);
                lemma_index_unique(n.entries, i);
            }
        }
    }
}

pub proof fn lemma_finished_inv(m: RegistryModel, id: u128, e: RegistryEntry)
    requires
        m.inv(),
        m.revision < u64::MAX,
        m.has(id),
        !m.entry(id).phase.terminal(),
        e.phase.terminal(),
        e.consistent(),
        e.binding == m.entry(id).binding,
    ensures
        m.finished(id, e).inv(),
        m.precedes(m.finished(id, e)),
{
    lemma_recorded(m, id, e);
    let n = recorded(m, id, e);
    lemma_long_scopes_known(n);
    if n.fifo.len() > m.limits.terminal {
        lemma_evicted(n);
    }
}

#[verifier::spinoff_prover]
#[verifier::rlimit(60)]
pub proof fn lemma_admitted_inv(
    m: RegistryModel,
    binding: TransferBinding,
    phase: TransferPhase,
    processed: Option<u64>,
    total: Option<u64>,
)
    requires
        m.inv(),
        m.revision < u64::MAX,
        m.live_count() < m.limits.nonterminal,
        m.public_ids.len() < MAX_LIFETIME_TRANSFER_IDENTITIES,
        m.available(binding.public_id),
        binding.wire_id.value != binding.public_id,
        !m.public_ids.contains(binding.wire_id.value),
        !m.by_wire.contains_key(scope_of(binding)),
        binding.generation == m.next_generation,
        phase == TransferPhase::Preparing || phase == TransferPhase::Queued,
        processed matches Some(p) ==> total matches Some(t) && p <= t,
        binding.direction == TransferDirection::Inbound ==> total is Some,
    ensures
        m.admitted(binding, phase, processed, total).inv(),
        m.precedes(m.admitted(binding, phase, processed, total)),
{
    let n = m.admitted(binding, phase, processed, total);
    let e = n.entries.last();
    lemma_live_push(m.entries, e);
    assert(n.next_generation == m.next_generation + 1);
    assert forall|i: int| 0 <= i < n.entries.len() implies n.entry_known(
        #[trigger] n.entries[i],
    ) by {
        if i < m.entries.len() {
            assert(n.entries[i] == m.entries[i]);
            assert(m.entry_known(m.entries[i]));
        } else {
            if m.history.contains_key(binding.public_id) {
                assert(m.public_ids.contains(binding.public_id));
            }
        }
    }
    assert forall|i: int, j: int| 0 <= i < j < n.entries.len() implies (
    #[trigger] n.entries[i]).binding.generation < (#[trigger] n.entries[j]).binding.generation
        && n.entries[i].public_id != n.entries[j].public_id by {
        assert(n.entries[i] == m.entries[i]);
        assert(m.entry_known(m.entries[i]));
        if j < m.entries.len() {
            assert(m.entries[i].binding.generation < m.entries[j].binding.generation);
            assert(m.entries[i].public_id != m.entries[j].public_id);
        }
    }
    assert forall|scope: WireScope| #[trigger]
        n.by_wire.contains_key(scope) implies n.scope_known(scope) by {
        if scope == scope_of(binding) {
            lemma_index_unique(n.entries, m.entries.len() as int);
        } else {
            assert(m.by_wire.contains_key(scope));
            assert(m.scope_known(scope));
            let id = m.by_wire[scope];
            if m.has(id) && scope_of(m.entry(id).binding) == scope {
                let k = m.index_of(id);
                assert(n.entries[k] == m.entries[k]);
                lemma_index_unique(n.entries, k);
            }
        }
    }
}

#[verifier::spinoff_prover]
#[verifier::rlimit(60)]
pub proof fn lemma_rolled_back_inv(m: RegistryModel, id: u128)
    requires
        m.inv(),
        m.revision < u64::MAX,
    ensures
        m.rolled_back(id).inv(),
        m.precedes(m.rolled_back(id)),
{
    if m.has(id) {
        let n = m.rolled_back(id);
        let at = m.index_of(id);
        let gone = scope_of(m.entry(id).binding);
        assert(m.entry_known(m.entries[at]));
        lemma_live_remove(m.entries, at);
        assert forall|i: int| 0 <= i < n.entries.len() implies n.entry_known(
            #[trigger] n.entries[i],
        ) by {
            let k = if i >= at { i + 1 } else { i };
            assert(n.entries[i] == m.entries[k]);
            assert(m.entry_known(m.entries[k]));
            if k < at {
                assert(m.entries[k].public_id != m.entries[at].public_id);
            } else {
                assert(m.entries[at].public_id != m.entries[k].public_id);
            }
        }
        assert forall|i: int, j: int| 0 <= i < j < n.entries.len() implies (
        #[trigger] n.entries[i]).binding.generation < (#[trigger] n.entries[j]).binding.generation
            && n.entries[i].public_id != n.entries[j].public_id by {
            let a = if i >= at { i + 1 } else { i };
            let b = if j >= at { j + 1 } else { j };
            assert(m.entries[a].binding.generation < m.entries[b].binding.generation);
            assert(m.entries[a].public_id != m.entries[b].public_id);
        }
        assert forall|scope: WireScope| #[trigger]
            n.by_wire.contains_key(scope) implies n.scope_known(scope) by {
            assert(m.by_wire.contains_key(scope));
            assert(m.scope_known(scope));
            let other = m.by_wire[scope];
            if m.has(other) && scope_of(m.entry(other).binding) == scope {
                let k = m.index_of(other);
                assert(k != at);
                let i = if k > at { k - 1 } else { k };
                assert(n.entries[i] == m.entries[k]);
                lemma_index_unique(n.entries, i);
            }
        }
    }
}

/// A transfer is over when it is completed, cancelled or failed, and in no other
/// phase.
pub proof fn law_three_phases_are_final(phase: TransferPhase)
    ensures
        phase is Completed || phase is Cancelled || phase is Failed ==> phase.terminal(),
        phase is Preparing || phase is Queued || phase is Transferring || phase is Paused || phase
            is Finalizing || phase is CancelRequested ==> !phase.terminal(),
{
}

/// Nothing that is announced, resumed, sent or finalized moves a transfer whose
/// cancellation was asked for. Otherwise announcing sets it to the start of its
/// total, resuming to where it was, sending to what was sent, and finalizing to
/// its end; progress beyond the total, or back while sending, changes nothing.
pub proof fn law_progress_moves_a_transfer(e: RegistryEntry, bytes: u64)
    ensures
        e.phase is CancelRequested ==> e.announced(bytes) == e && e.resumed(bytes) == e && e.sent(
            bytes,
        ) == e && e.finalized() == e,
        !(e.phase is CancelRequested) ==> {
            let total = e.total_bytes;
            let fits = total matches Some(all) && bytes <= all;
            let forward = e.processed_bytes matches Some(before) ==> before <= bytes;
            let announced = e.announced(bytes);
            let resumed = e.resumed(bytes);
            let sent = e.sent(bytes);
            let finalized = e.finalized();
            &&& announced.phase is Queued && announced.processed_bytes == Some(0u64)
                && announced.total_bytes == Some(bytes)
            &&& fits ==> resumed.phase is Queued && resumed.processed_bytes == Some(bytes)
                && resumed.total_bytes == total
            &&& !fits ==> resumed == e
            &&& fits && forward ==> sent.phase is Transferring && sent.processed_bytes == Some(
                bytes,
            ) && sent.total_bytes == total
            &&& !(fits && forward) ==> sent == e
            &&& finalized.phase is Finalizing && finalized.processed_bytes == total
                && finalized.total_bytes == total
        },
        ({
            let kept = |after: RegistryEntry|
                after.public_id == e.public_id && after.binding == e.binding && after.cancellable
                    == e.cancellable && after.failure == e.failure && after.cancel == e.cancel;
            &&& kept(e.announced(bytes))
            &&& kept(e.resumed(bytes))
            &&& kept(e.sent(bytes))
            &&& kept(e.finalized())
        }),
{
}

/// Being received, queued again, locked at the end, or asked to be cancelled says
/// each what may still be done: only the first two can be cancelled.
pub proof fn law_phases_say_what_can_be_cancelled(
    e: RegistryEntry,
    bytes: u64,
    phase: TransferPhase,
)
    ensures
        ({
            let requeued = e.requeued();
            let received = e.received(bytes, phase);
            let locked = e.locked_for_finalizing();
            let asked = e.cancel_requested();
            &&& requeued.phase is Queued && requeued.cancellable && requeued.cancel == e.cancel
            &&& requeued.processed_bytes == e.processed_bytes
            &&& received.phase == phase && received.cancellable && received.processed_bytes == Some(
                bytes,
            )
            &&& locked.phase is Finalizing && !locked.cancellable && locked.cancel == e.cancel
            &&& locked.processed_bytes == e.processed_bytes
            &&& asked.phase is CancelRequested && !asked.cancellable && asked.cancel
            &&& asked.processed_bytes == e.processed_bytes
            &&& requeued.binding == e.binding && received.binding == e.binding && locked.binding
                == e.binding && asked.binding == e.binding
            &&& requeued.total_bytes == e.total_bytes && received.total_bytes == e.total_bytes
                && locked.total_bytes == e.total_bytes && asked.total_bytes == e.total_bytes
            &&& requeued.failure == e.failure && received.failure == e.failure && locked.failure
                == e.failure && asked.failure == e.failure
        }),
{
}

/// The three ends: everything was processed; it was given up; or it failed for the
/// reason that is kept. None of them can be cancelled, and who it was stays known.
pub proof fn law_ends_are_told_apart(e: RegistryEntry, failure: TransferFailureCode)
    ensures
        e.completed().phase is Completed,
        e.completed().processed_bytes == e.total_bytes,
        e.completed().failure is None,
        e.ended_by_cancel().phase is Cancelled,
        e.ended_by_cancel().processed_bytes == e.processed_bytes,
        e.ended_by_cancel().failure is None,
        e.failed(failure).phase is Failed,
        e.failed(failure).processed_bytes == e.processed_bytes,
        e.failed(failure).failure == Some(failure),
        !e.completed().cancellable && !e.ended_by_cancel().cancellable && !e.failed(
            failure,
        ).cancellable,
        e.completed().binding == e.binding && e.ended_by_cancel().binding == e.binding && e.failed(
            failure,
        ).binding == e.binding,
        e.completed().total_bytes == e.total_bytes && e.ended_by_cancel().total_bytes
            == e.total_bytes && e.failed(failure).total_bytes == e.total_bytes,
{
}

/// A lost link cancels what is still being prepared, leaves what is being
/// cancelled, and pauses the rest, which may go on later.
pub proof fn law_lost_links_pause_transfers(e: RegistryEntry)
    ensures
        e.phase is Preparing ==> e.paused().phase is CancelRequested && e.paused().cancel
            && !e.paused().cancellable,
        e.phase is CancelRequested ==> e.paused() == e,
        !(e.phase is Preparing) && !(e.phase is CancelRequested) ==> e.paused() == (RegistryEntry {
            phase: TransferPhase::Paused,
            ..e
        }),
        e.paused().binding == e.binding,
        e.paused().processed_bytes == e.processed_bytes,
{
}

/// A transfer is live for a peer, and on a direction, exactly if it is that peer's
/// and goes that way and is not over.
pub proof fn law_live_transfers_belong_to_their_peer(
    e: RegistryEntry,
    peer: DeviceId,
    direction: TransferDirection,
)
    ensures
        e.live_of(peer) <==> e.binding.peer == peer && !(e.phase is Completed) && !(e.phase
            is Cancelled) && !(e.phase is Failed),
        e.live_on(peer, direction) <==> e.live_of(peer) && e.binding.direction == direction,
{
}

/// What holds of every listed transfer, clause by clause.
pub proof fn law_listed_transfers_are_consistent(e: RegistryEntry)
    requires
        e.consistent(),
    ensures
        e.public_id == e.binding.public_id,
        e.processed_bytes matches Some(processed) ==> (e.total_bytes matches Some(total)
            && processed <= total),
        e.phase is CancelRequested ==> e.cancel && !e.cancellable,
        e.phase is Completed || e.phase is Cancelled || e.phase is Failed ==> !e.cancellable,
        e.failure is Some <==> e.phase is Failed,
        e.binding.direction is Inbound ==> e.total_bytes is Some,
{
}

/// Each change that is made raises the revision by one. Changing one transfer
/// leaves the others, the identifiers and the outcomes as they were.
pub proof fn law_changes_touch_one_transfer(m: RegistryModel, id: u128, e: RegistryEntry, i: int)
    requires
        m.inv(),
        m.has(id),
        m.revision < u64::MAX,
        0 <= i < m.entries.len(),
        e.public_id == id,
    ensures
        ({
            let after = m.mutated(id, e);
            &&& after.revision == m.revision + 1
            &&& after.entries.len() == m.entries.len()
            &&& m.entries[i].public_id == id ==> after.entries[i] == e
            &&& m.entries[i].public_id != id ==> after.entries[i] == m.entries[i]
            &&& after.history == m.history
            &&& after.fifo == m.fifo
            &&& after.by_wire == m.by_wire
            &&& after.public_ids == m.public_ids
            &&& after.wire_ids == m.wire_ids
            &&& after.next_generation == m.next_generation
            &&& after.truncated == m.truncated
            &&& after.limits == m.limits
        }),
{
    lemma_index_unique(m.entries, i);
}

/// A transfer that ends is recorded with how it ended. While the list of ended
/// ones has room everything stays listed; once it is full, the one that ended
/// first leaves it and the listing says that it is cut.
pub proof fn law_ended_transfers_are_recorded(m: RegistryModel, id: u128, e: RegistryEntry)
    requires
        m.inv(),
        m.has(id),
        m.revision < u64::MAX,
    ensures
        ({
            let after = m.finished(id, e);
            let full = m.fifo.len() >= m.limits.terminal;
            &&& after.revision == m.revision + 1
            &&& after.history.contains_key(id) && after.history[id].phase == e.phase
                && after.history[id].binding == e.binding
            &&& forall|other: u128|
                other != id && m.history.contains_key(other) ==> #[trigger] after.history[other]
                    == m.history[other]
            &&& !full ==> after.fifo == m.fifo.push(id) && after.entries.len() == m.entries.len()
                && after.truncated == m.truncated && after.entries[m.index_of(id)] == e
            &&& full ==> after.fifo == m.fifo.push(id).skip(1)
            &&& full && after.entries.len() < m.entries.len() ==> after.truncated
                && after.entries.len() == m.entries.len() - 1
            &&& after.by_wire == m.by_wire
            &&& after.public_ids == m.public_ids
            &&& after.wire_ids == m.wire_ids
            &&& after.limits == m.limits
            &&& after.next_generation == m.next_generation
        }),
{
    let after = m.finished(id, e);
    assert(m.fifo.push(id).drop_first() =~= m.fifo.push(id).skip(1));
}

/// A transfer that is admitted is listed last, can be cancelled, has not failed,
/// is found by its scope, and uses up its identifiers and a generation.
pub proof fn law_admitted_transfers_are_listed_last(
    m: RegistryModel,
    binding: TransferBinding,
    phase: TransferPhase,
    processed: Option<u64>,
    total: Option<u64>,
)
    requires
        m.revision < u64::MAX,
        m.next_generation < u64::MAX,
    ensures
        ({
            let after = m.admitted(binding, phase, processed, total);
            let new = after.entries.last();
            &&& after.entries.len() == m.entries.len() + 1
            &&& after.entries.drop_last() =~= m.entries
            &&& new.public_id == binding.public_id
            &&& new.binding == binding
            &&& new.phase == phase
            &&& new.processed_bytes == processed
            &&& new.total_bytes == total
            &&& new.cancellable && !new.cancel && new.failure is None
            &&& after.revision == m.revision + 1
            &&& after.next_generation == m.next_generation + 1
            &&& after.by_wire[WireScope {
                peer: binding.peer,
                direction: binding.direction,
                wire_id: binding.wire_id,
            }] == binding.public_id
            &&& !after.available(binding.public_id)
            &&& !after.available(binding.wire_id.value)
            &&& after.history == m.history
            &&& after.fifo == m.fifo
            &&& after.truncated == m.truncated
        }),
{
}

/// Taking an admission back removes the transfer and its scope; its identifiers
/// stay used up.
pub proof fn law_admissions_can_be_taken_back(m: RegistryModel, id: u128)
    requires
        m.inv(),
        m.revision < u64::MAX,
    ensures
        !m.has(id) ==> m.rolled_back(id) == m,
        m.has(id) ==> {
            let after = m.rolled_back(id);
            &&& !after.has(id)
            &&& after.entries.len() == m.entries.len() - 1
            &&& !after.by_wire.contains_key(scope_of(m.entry(id).binding))
            &&& after.public_ids == m.public_ids
            &&& after.wire_ids == m.wire_ids
            &&& after.history == m.history
            &&& after.revision == m.revision + 1
        },
{
    if m.has(id) {
        let at = m.index_of(id);
        let after = m.rolled_back(id);
        if after.has(id) {
            let k = choose|k: int|
                0 <= k < after.entries.len() && (#[trigger] after.entries[k]).public_id == id;
            let from = if k < at {
                k
            } else {
                k + 1
            };
            assert(m.entries[from].public_id == id);
            lemma_index_unique(m.entries, from);
            lemma_index_unique(m.entries, at);
        }
    }
}

/// Giving transfers up, or failing them, reaches each of those that are listed and
/// not over, one after the other; of the others nothing changes.
pub proof fn law_ends_reach_only_live_transfers(
    m: RegistryModel,
    ids: Seq<u128>,
    id: u128,
    failure: TransferFailureCode,
)
    ensures
        !m.has(id) || m.entry(id).phase.terminal() ==> m.after_cancelled(id) == m
            && m.irreversibly_failed(id, failure) == m,
        m.has(id) && !m.entry(id).phase.terminal() ==> m.after_cancelled(id) == m.finished(
            id,
            m.entry(id).ended_by_cancel(),
        ) && m.irreversibly_failed(id, failure) == m.finished(id, m.entry(id).failed(failure)),
        m.all_cancelled(seq![]) == m,
        m.all_failed(seq![], failure) == m,
        m.all_cancelled(ids.push(id)) == m.all_cancelled(ids).after_cancelled(id),
        m.all_failed(ids.push(id), failure) == m.all_failed(ids, failure).irreversibly_failed(
            id,
            failure,
        ),
{
    assert(ids.push(id).drop_last() =~= ids);
}

/// An identifier is free exactly if it is not zero and was never used, publicly or
/// on the wire.
pub proof fn law_free_identifiers_were_never_used(m: RegistryModel, id: u128)
    ensures
        m.available(id) <==> !(id == 0) && !m.public_ids.contains(id) && !m.wire_ids.contains(id),
        !m.available(0),
{
}

} // verus!
