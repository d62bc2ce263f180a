//! Process-lifetime ownership of file transfers, and the rules of the worker
//! that carries them out.
//!
//! Scanning, hashing, reading, staging and sending happen outside. The store
//! here decides what is retained, what has to be discarded and what may start.

use vstd::prelude::*;
use crate::grants::EventMeta;
use crate::identifiers::{DeviceId, TransferId};
use crate::peer_transfers::{lists_peer, PeerTransfer, PeerTransferSet};
use crate::transfer_runtime::{
    tombstoned,
    FileDataMessage,
    FileManifestMessage,
    PeerTransferModel,
    PeerTransferRuntime,
    TransferError,
    TransferRuntimeEffect,
    TransferRuntimeError,
    MAX_COMPLETED_INBOUND_TOMBSTONES,
};

verus! {

/// Counts scans in progress, sources that wait for the receiver, active sends,
/// and sources that wait for their acknowledgement.
pub const MAX_PENDING_OUTBOUND_TRANSFERS: usize = 4;

pub const EFFECT_BUDGET: usize = 32;

pub const COMPLETION_TOMBSTONE_LIMIT: usize = 64;

pub const STOP: u8 = 1;

pub const ABORT_INBOUND: u8 = 2;

pub const ABORT_OUTBOUND: u8 = 4;

/// How a transfer worker is stopped.
#[derive(Clone, Copy, Debug, PartialEq, Eq, Structural)]
pub enum TransferStopMode {
    Suspend,
    AbortInbound,
    AbortOutbound,
    AbortAll,
}

impl TransferStopMode {
    /// The request as bits: stop, give up what is received, give up what is sent.
    pub open spec fn request(self) -> u8 {
        match self {
            TransferStopMode::Suspend => 1u8,
            TransferStopMode::AbortInbound => 3u8,
            TransferStopMode::AbortOutbound => 5u8,
            TransferStopMode::AbortAll => 7u8,
        }
    }

    /// The bits that the worker reads.
    pub fn bits(self) -> (bits: u8)
        ensures
            bits == self.request(),
    {
        assert(1u8 | 2u8 == 3u8) by (bit_vector);
        assert(1u8 | 4u8 == 5u8) by (bit_vector);
        assert(3u8 | 4u8 == 7u8) by (bit_vector);
        match self {
            TransferStopMode::Suspend => STOP,
            TransferStopMode::AbortInbound => STOP | ABORT_INBOUND,
            TransferStopMode::AbortOutbound => STOP | ABORT_OUTBOUND,
            TransferStopMode::AbortAll => STOP | ABORT_INBOUND | ABORT_OUTBOUND,
        }
    }
}

/// Adds a stop request to those that were made before.
pub fn add_stop(bits: u8, mode: TransferStopMode) -> (all: u8)
    ensures
        all == bits | mode.request(),
        all & STOP != 0,
        all & ABORT_INBOUND != 0 <==> bits & ABORT_INBOUND != 0
            || mode is AbortInbound || mode is AbortAll,
        all & ABORT_OUTBOUND != 0 <==> bits & ABORT_OUTBOUND != 0
            || mode is AbortOutbound || mode is AbortAll,
{
    let added: u8 = mode.bits();
    proof {
        assert((bits | added) & 1 == (bits & 1) | (added & 1)) by (bit_vector);
        assert((bits | added) & 2 == (bits & 2) | (added & 2)) by (bit_vector);
        assert((bits | added) & 4 == (bits & 4) | (added & 4)) by (bit_vector);
        assert(forall|x: u8| #![auto] (x & 1) | 1u8 != 0) by (bit_vector);
        assert(forall|x: u8| #![auto] (x & 2) | 2u8 != 0) by (bit_vector);
        assert(forall|x: u8| #![auto] (x & 4) | 4u8 != 0) by (bit_vector);
        assert(forall|x: u8| #![auto] (x & 2) | 0u8 == x & 2) by (bit_vector);
        assert(forall|x: u8| #![auto] (x & 4) | 0u8 == x & 4) by (bit_vector);
        assert(1u8 & 1 == 1 && 3u8 & 1 == 1 && 5u8 & 1 == 1 && 7u8 & 1 == 1) by (bit_vector);
        assert(1u8 & 2 == 0 && 3u8 & 2 == 2 && 5u8 & 2 == 0 && 7u8 & 2 == 2) by (bit_vector);
        assert(1u8 & 4 == 0 && 3u8 & 4 == 0 && 5u8 & 4 == 4 && 7u8 & 4 == 4) by (bit_vector);
    }
    bits | added
}

#[derive(Clone, Copy, Debug, PartialEq, Eq, Structural)]
pub enum EntryKind {
    File,
    Directory,
}

/// What the resume rules read of a manifest entry.
#[derive(Clone, Copy, Debug, PartialEq, Eq, Structural)]
pub struct OutboundEntry {
    pub kind: EntryKind,
    pub size: u64,
}

/// An offset that the receiver can hold of this entry.
pub open spec fn valid_offset(entry: OutboundEntry, offset: u64) -> bool {
    match entry.kind {
        EntryKind::Directory => offset == 0,
        EntryKind::File => offset <= entry.size,
    }
}

/// A file that the receiver does not hold whole.
pub open spec fn incomplete(entry: OutboundEntry, offset: Option<u64>) -> bool {
    entry.kind == EntryKind::File && offset != Some(entry.size)
}

/// The first of the first `upto` entries that the receiver does not hold whole.
pub open spec fn first_incomplete(
    entries: Seq<OutboundEntry>,
    offsets: Seq<Option<u64>>,
    upto: int,
) -> Option<int>
    decreases upto,
{
    if upto <= 0 {
        None
    } else {
        match first_incomplete(entries, offsets, upto - 1) {
            Some(at) => Some(at),
            None => if incomplete(entries[upto - 1], offsets[upto - 1]) {
                Some(upto - 1)
            } else {
                None
            },
        }
    }
}

/// The receiver holds part of an entry although an earlier one is not whole.
pub open spec fn out_of_order(offsets: Seq<Option<u64>>, first: int) -> bool {
    exists|i: int| first < i < offsets.len() && #[trigger] offsets[i] != Some(0u64)
}

pub open spec fn missing(offsets: Seq<Option<u64>>) -> nat
    decreases offsets.len(),
{
    if offsets.len() == 0 {
        0
    } else {
        missing(offsets.drop_last()) + if offsets.last() is None {
            1nat
        } else {
            0
        }
    }
}

proof fn lemma_missing_update(offsets: Seq<Option<u64>>, at: int, value: u64)
    requires
        0 <= at < offsets.len(),
    ensures
        missing(offsets.update(at, Some(value))) == missing(offsets) - if offsets[at] is None {
            1nat
        } else {
            0
        },
        missing(offsets) <= offsets.len(),
        offsets[at] is None ==> missing(offsets) >= 1,
    decreases offsets.len(),
{
    let after = offsets.update(at, Some(value));
    if at == offsets.len() - 1 {
        assert(after.drop_last() =~= offsets.drop_last());
        if offsets.len() > 1 {
            lemma_missing_update(offsets.drop_last(), 0, value);
        }
    } else {
        lemma_missing_update(offsets.drop_last(), at, value);
        assert(after.drop_last() =~= offsets.drop_last().update(at, Some(value)));
    }
}

proof fn lemma_none_missing(offsets: Seq<Option<u64>>)
    ensures
        missing(offsets) == 0 ==> forall|i: int|
            0 <= i < offsets.len() ==> #[trigger] offsets[i] is Some,
    decreases offsets.len(),
{
    if offsets.len() > 0 {
        lemma_none_missing(offsets.drop_last());
        assert forall|i: int| missing(offsets) == 0 && 0 <= i < offsets.len() implies
        #[trigger] offsets[i] is Some by {
            if i < offsets.len() - 1 {
                assert(offsets.drop_last()[i] == offsets[i]);
            }
        }
    }
}

proof fn lemma_all_missing(count: nat)
    ensures
        missing(Seq::new(count, |i: int| None::<u64>)) == count,
    decreases count,
{
    if count > 0 {
        lemma_all_missing((count - 1) as nat);
        assert(Seq::new(count, |i: int| None::<u64>).drop_last() =~= Seq::new(
            (count - 1) as nat,
            |i: int| None::<u64>,
        ));
    }
}

/// What an offset from the receiver leads to.
#[derive(Clone, Copy, Debug, PartialEq, Eq, Structural)]
pub enum ResumeStep {
    /// Other entries have not been answered yet.
    Waiting,
    /// Move the source there; then `resumed` makes the transfer ready.
    Seek { entry_index: u32, offset: u64 },
}

pub struct OutboundModel {
    pub entries: Seq<OutboundEntry>,
    pub offsets: Seq<Option<u64>>,
    pub ready: bool,
    pub awaiting_completion_ack: bool,
}

impl OutboundModel {
    /// Nothing has been answered yet.
    pub open spec fn announced(entries: Seq<OutboundEntry>) -> OutboundModel {
        OutboundModel {
            entries,
            offsets: Seq::new(entries.len(), |i: int| None),
            ready: false,
            awaiting_completion_ack: false,
        }
    }

    /// The receiver's answer for one entry.
    pub open spec fn answer(self, entry_index: u32, offset: u64) -> (
        OutboundModel,
        Result<ResumeStep, TransferRuntimeError>,
    ) {
        let at = entry_index as int;
        if self.ready || self.awaiting_completion_ack || at >= self.entries.len() || !valid_offset(
            self.entries[at],
            offset,
        ) {
            (self, Err(TransferRuntimeError::Protocol))
        } else {
            let after = OutboundModel {
                offsets: self.offsets.update(at, Some(offset)),
                ..self
            };
            if self.offsets[at] is Some {
                (after, Err(TransferRuntimeError::Protocol))
            } else if missing(after.offsets) != 0 {
                (after, Ok(ResumeStep::Waiting))
            } else {
                (after, after.resume_point())
            }
        }
    }

    /// Where the source goes on once every entry was answered: at the first
    /// entry that is not whole, or at the end.
    pub open spec fn resume_point(self) -> Result<ResumeStep, TransferRuntimeError> {
        match first_incomplete(self.entries, self.offsets, self.entries.len() as int) {
            Some(at) => if out_of_order(self.offsets, at) {
                Err(TransferRuntimeError::Protocol)
            } else {
                Ok(ResumeStep::Seek { entry_index: at as u32, offset: self.offsets[at]->Some_0 })
            },
            None => Ok(
                ResumeStep::Seek {
                    entry_index: (self.entries.len() - 1) as u32,
                    offset: self.offsets.last()->Some_0,
                },
            ),
        }
    }
}

/// A selected source that the receiver was told of.
pub struct PendingOutboundTransfer {
    entries: Vec<OutboundEntry>,
    resume_offsets: Vec<Option<u64>>,
    remaining_resumes: usize,
    ready: bool,
    awaiting_completion_ack: bool,
}

impl View for PendingOutboundTransfer {
    type V = OutboundModel;

    closed spec fn view(&self) -> OutboundModel {
        OutboundModel {
            entries: self.entries@,
            offsets: self.resume_offsets@,
            ready: self.ready,
            awaiting_completion_ack: self.awaiting_completion_ack,
        }
    }
}

impl PendingOutboundTransfer {
    /// Offsets stand beside entries, can be held of them, and are counted.
    pub closed spec fn wf(&self) -> bool {
        &&& self.resume_offsets@.len() == self.entries@.len()
        &&& self.remaining_resumes == missing(self.resume_offsets@)
        &&& forall|i: int|
            0x1_0000_0000 <= i < self.entries@.len() ==> #[trigger] self.resume_offsets@[i] is None
        &&& forall|i: int|
            0 <= i < self.entries@.len() ==> (#[trigger] self.resume_offsets@[i] matches Some(
                offset,
            ) ==> valid_offset(self.entries@[i], offset))
    }

    fn unanswered(count: usize) -> (offsets: Vec<Option<u64>>)
        ensures
            offsets@ == Seq::new(count as nat, |i: int| None::<u64>),
    {
        let mut offsets: Vec<Option<u64>> = Vec::new();
        let mut at: usize = 0;
        while at < count
            invariant
                at <= count,
                offsets@ == Seq::new(at as nat, |i: int| None::<u64>),
            decreases count - at,
        {
            offsets.push(None);
            at = at + 1;
            assert(offsets@ =~= Seq::new(at as nat, |i: int| None::<u64>));
        }
        offsets
    }

    pub fn new(entries: Vec<OutboundEntry>) -> (pending: PendingOutboundTransfer)
        ensures
            pending.wf(),
            pending@ == OutboundModel::announced(entries@),
    {
        let count: usize = entries.len();
        let resume_offsets = PendingOutboundTransfer::unanswered(count);
        proof {
            lemma_all_missing(count as nat);
        }
        let pending = PendingOutboundTransfer {
            entries,
            resume_offsets,
            remaining_resumes: count,
            ready: false,
            awaiting_completion_ack: false,
        };
        assert(pending@.offsets =~= OutboundModel::announced(entries@).offsets);
        pending
    }

    /// Announced again in a new session: every answer is forgotten.
    pub fn reannounce(&mut self)
        requires
            old(self).wf(),
        ensures
            final(self).wf(),
            final(self)@ == OutboundModel::announced(old(self)@.entries),
    {
        let count: usize = self.entries.len();
        self.resume_offsets = PendingOutboundTransfer::unanswered(count);
        proof {
            lemma_all_missing(count as nat);
        }
        self.remaining_resumes = count;
        self.ready = false;
        self.awaiting_completion_ack = false;
        assert(self@.offsets =~= OutboundModel::announced(old(self)@.entries).offsets);
    }

    /// Where the source goes on, when nothing is missing.
    fn resume_point(&self) -> (point: Result<ResumeStep, TransferRuntimeError>)
        requires
            self.wf(),
            0 < self.entries@.len() <= 0x1_0000_0000,
            missing(self.resume_offsets@) == 0,
        ensures
            point == self@.resume_point(),
    {
        proof {
            lemma_none_missing(self.resume_offsets@);
        }
        let mut first: Option<(usize, u64)> = None;
        let mut at: usize = 0;
        while at < self.entries.len()
            invariant
                at <= self.entries@.len() <= 0x1_0000_0000,
                self.wf(),
                forall|i: int|
                    0 <= i < self.resume_offsets@.len()
                        ==> #[trigger] self.resume_offsets@[i] is Some,
                match first {
                    Some((place, offset)) => {
                        &&& place < at
                        &&& self.resume_offsets@[place as int] == Some(offset)
                        &&& first_incomplete(self.entries@, self.resume_offsets@, at as int)
                            == Some(place as int)
                        &&& forall|i: int|
                            place < i < at ==> #[trigger] self.resume_offsets@[i] == Some(0u64)
                    },
                    None => first_incomplete(self.entries@, self.resume_offsets@, at as int)
                        is None,
                },
            decreases self.entries@.len() - at,
        {
            let entry = self.entries[at];
            let offset: u64 = match self.resume_offsets[at] {
                Some(offset) => offset,
                None => {
                    assert(self.resume_offsets@[at as int] is Some);
                    0
                },
            };
            assert(self.resume_offsets@[at as int] == Some(offset));
            assert(valid_offset(entry, offset));
            match first {
                None => {
                    if entry.kind == EntryKind::File && offset != entry.size {
                        first = Some((at, offset));
                    }
                },
                Some((place, _)) => {
                    if offset != 0 {
                        proof {
                            self.lemma_first_kept(at as int, place as int);
                            assert(out_of_order(self.resume_offsets@, place as int));
                        }
                        return Err(TransferRuntimeError::Protocol);
                    }
                },
            }
            at = at + 1;
        }
        match first {
            Some((place, offset)) => {
                assert(!out_of_order(self.resume_offsets@, place as int));
                Ok(ResumeStep::Seek { entry_index: place as u32, offset })
            },
            None => {
                let last: usize = self.entries.len() - 1;
                match self.resume_offsets[last] {
                    Some(offset) => Ok(ResumeStep::Seek { entry_index: last as u32, offset }),
                    None => {
                        assert(self.resume_offsets@[last as int] is Some);
                        Err(TransferRuntimeError::Protocol)
                    },
                }
            },
        }
    }

    proof fn lemma_first_kept(&self, upto: int, place: int)
        requires
            first_incomplete(self.entries@, self.resume_offsets@, upto) == Some(place),
            upto <= self.entries@.len(),
        ensures
            first_incomplete(self.entries@, self.resume_offsets@, self.entries@.len() as int)
                == Some(place),
        decreases self.entries@.len() - upto,
    {
        if upto < self.entries@.len() && upto >= 0 {
            assert(first_incomplete(self.entries@, self.resume_offsets@, upto + 1) == Some(place));
            self.lemma_first_kept(upto + 1, place);
        }
    }

    /// Takes in from where the receiver wants one entry. The entries are
    /// answered once each, in any order; once the last answer is there, the
    /// source goes on at the first entry that is not whole.
    pub fn handle_peer_resume(&mut self, entry_index: u32, offset: u64) -> (step: Result<
        ResumeStep,
        TransferRuntimeError,
    >)
        requires
            old(self).wf(),
        ensures
            final(self).wf(),
            final(self)@ == old(self)@.answer(entry_index, offset).0,
            step == old(self)@.answer(entry_index, offset).1,
    {
        if self.ready || self.awaiting_completion_ack {
            return Err(TransferRuntimeError::Protocol);
        }
        let count: u64 = self.entries.len() as u64;
        if entry_index as u64 >= count {
            return Err(TransferRuntimeError::Protocol);
        }
        let index: usize = entry_index as usize;
        let entry = self.entries[index];
        let valid = match entry.kind {
            EntryKind::Directory => offset == 0,
            EntryKind::File => offset <= entry.size,
        };
        if !valid {
            return Err(TransferRuntimeError::Protocol);
        }
        let answered = self.resume_offsets[index].is_some();
        proof {
            lemma_missing_update(self.resume_offsets@, index as int, offset);
        }
        self.resume_offsets.set(index, Some(offset));
        if answered {
            return Err(TransferRuntimeError::Protocol);
        }
        self.remaining_resumes = self.remaining_resumes - 1;
        if self.remaining_resumes != 0 {
            return Ok(ResumeStep::Waiting);
        }
        if count > 0x1_0000_0000 {
            proof {
                lemma_none_missing(self.resume_offsets@);
                assert(self.resume_offsets@[0x1_0000_0000] is None);
            }
            return Err(TransferRuntimeError::Protocol);
        }
        self.resume_point()
    }
}


impl PendingOutboundTransfer {
    /// The source stands where the receiver wants it.
    pub fn resumed(&mut self)
        requires
            old(self).wf(),
        ensures
            final(self).wf(),
            final(self)@ == (OutboundModel { ready: true, ..old(self)@ }),
    {
        self.ready = true;
    }

    /// The source has reached its end: only the acknowledgement is missing.
    pub fn source_ended(&mut self)
        requires
            old(self).wf(),
        ensures
            final(self).wf(),
            final(self)@ == (OutboundModel {
                ready: false,
                awaiting_completion_ack: true,
                ..old(self)@
            }),
    {
        self.ready = false;
        self.awaiting_completion_ack = true;
    }

    pub fn is_ready(&self) -> (ready: bool)
        ensures
            ready == self@.ready,
    {
        self.ready
    }
}

/// A selected source, and whom it is for.
pub struct OutboundRecord {
    pub peer: DeviceId,
    pub transfer: TransferId,
    pub pending: PendingOutboundTransfer,
}

pub struct OutboundRecordModel {
    pub peer: DeviceId,
    pub transfer: TransferId,
    pub pending: OutboundModel,
}

impl View for OutboundRecord {
    type V = OutboundRecordModel;

    open spec fn view(&self) -> OutboundRecordModel {
        OutboundRecordModel {
            peer: self.peer,
            transfer: self.transfer,
            pending: self.pending@,
        }
    }
}

pub struct StoreModel<Root> {
    pub outbound: Seq<OutboundRecordModel>,
    pub completed: Seq<PeerTransfer>,
    pub inbound: Set<PeerTransfer>,
    pub discard_required: Set<PeerTransfer>,
    pub staging_root: Option<Root>,
    pub active_workers: usize,
    pub cleanup_in_progress: bool,
    pub directory_entry_crash_durable: bool,
    pub outbound_slots: int,
    pub poisoned: bool,
}

/// Where a source stands among the selected ones, or -1.
pub open spec fn record_place(
    outbound: Seq<OutboundRecordModel>,
    peer: DeviceId,
    transfer: TransferId,
) -> int
    decreases outbound.len(),
{
    if outbound.len() == 0 {
        -1
    } else if outbound.last().peer == peer && outbound.last().transfer == transfer {
        outbound.len() - 1
    } else {
        record_place(outbound.drop_last(), peer, transfer)
    }
}

/// The first source for `peer` that has something to send, or -1.
pub open spec fn ready_place(outbound: Seq<OutboundRecordModel>, peer: DeviceId) -> int
    decreases outbound.len(),
{
    if outbound.len() == 0 {
        -1
    } else {
        let earlier = ready_place(outbound.drop_last(), peer);
        if earlier >= 0 {
            earlier
        } else if outbound.last().peer == peer && outbound.last().pending.ready {
            outbound.len() - 1
        } else {
            -1
        }
    }
}

#[derive(Clone, Copy, Debug, PartialEq, Eq, Structural)]
pub enum TransferCleanupState {
    Complete,
    Pending,
}

/// What cleaning up after a peer needs.
pub enum CleanupStep {
    /// Nothing can or needs to be done now.
    Done(TransferCleanupState),
    /// Discard these from the staging area; then call `finish_cleanup`.
    Discard(Vec<TransferId>),
}

impl<Root> StoreModel<Root> {
    pub open spec fn remembered(self, item: PeerTransfer) -> StoreModel<Root> {
        if self.completed.contains(item) {
            self
        } else {
            let longer = self.completed.push(item);
            StoreModel {
                completed: if longer.len() > COMPLETION_TOMBSTONE_LIMIT {
                    longer.skip(1)
                } else {
                    longer
                },
                ..self
            }
        }
    }

    pub open spec fn purged(self, peer: DeviceId) -> StoreModel<Root> {
        StoreModel {
            outbound: self.outbound.filter(|record: OutboundRecordModel| record.peer != peer),
            outbound_slots: self.outbound_slots - self.outbound.filter(
                |record: OutboundRecordModel| record.peer == peer,
            ).len(),
            ..self
        }
    }

    /// A source takes the place of one with the same name, or the last place.
    pub open spec fn retained(self, record: OutboundRecordModel) -> StoreModel<Root> {
        let at = record_place(self.outbound, record.peer, record.transfer);
        StoreModel {
            outbound: if at < 0 {
                self.outbound.push(record)
            } else {
                self.outbound.update(at, record)
            },
            ..self
        }
    }

    /// Everything that was received of `peer` has to be discarded.
    pub open spec fn peer_discarded(self, peer: DeviceId) -> StoreModel<Root> {
        StoreModel {
            discard_required: self.discard_required.union(
                self.inbound.filter(|item: PeerTransfer| item.peer == peer),
            ),
            ..self
        }
    }

    pub open spec fn with_pending(self, at: int, pending: OutboundModel) -> StoreModel<Root> {
        StoreModel {
            outbound: self.outbound.update(
                at,
                OutboundRecordModel { pending, ..self.outbound[at] },
            ),
            ..self
        }
    }
}

/// The selected sources and the received transfers of this process. Nothing of
/// it outlives the process.
pub struct TransferStore<Root> {
    outbound: Vec<OutboundRecord>,
    completed_inbound: Vec<PeerTransfer>,
    inbound: PeerTransferSet,
    discard_required: PeerTransferSet,
    staging_root: Option<Root>,
    active_workers: usize,
    cleanup_in_progress: bool,
    directory_entry_crash_durable: bool,
    outbound_slots: usize,
    poisoned: bool,
}

impl<Root> View for TransferStore<Root> {
    type V = StoreModel<Root>;

    closed spec fn view(&self) -> StoreModel<Root> {
        StoreModel {
            outbound: self.outbound@.map_values(|record: OutboundRecord| record@),
            completed: self.completed_inbound@,
            inbound: self.inbound@,
            discard_required: self.discard_required@,
            staging_root: self.staging_root,
            active_workers: self.active_workers,
            cleanup_in_progress: self.cleanup_in_progress,
            directory_entry_crash_durable: self.directory_entry_crash_durable,
            outbound_slots: self.outbound_slots as int,
            poisoned: self.poisoned,
        }
    }
}

impl<Root> TransferStore<Root> {
    /// Every retained source has a slot, there are no more slots than allowed,
    /// and no more completed transfers are remembered than allowed.
    pub closed spec fn wf(&self) -> bool {
        &&& self.inbound.wf()
        &&& self.discard_required.wf()
        &&& self.outbound@.len() <= self.outbound_slots <= MAX_PENDING_OUTBOUND_TRANSFERS
        &&& self.completed_inbound@.len() <= COMPLETION_TOMBSTONE_LIMIT
        &&& self.completed_inbound@.no_duplicates()
        &&& forall|i: int|
            0 <= i < self.outbound@.len() ==> (#[trigger] self.outbound@[i]).pending.wf()
    }

    /// The store never outgrows its bounds: every operation keeps it valid, and a
    /// valid store holds no more sources than it has slots, no more slots than are
    /// allowed, and remembers a bounded number of completed transfers, each once.
    pub proof fn law_store_is_bounded(&self)
        requires
            self.wf(),
        ensures
            self@.outbound.len() <= self@.outbound_slots <= MAX_PENDING_OUTBOUND_TRANSFERS,
            self@.completed.len() <= COMPLETION_TOMBSTONE_LIMIT,
            self@.completed.no_duplicates(),
    {
    }

    pub fn new() -> (store: TransferStore<Root>)
        ensures
            store.wf(),
            store@ == (StoreModel::<Root> {
                outbound: Seq::empty(),
                completed: Seq::empty(),
                inbound: Set::empty(),
                discard_required: Set::empty(),
                staging_root: None,
                active_workers: 0,
                cleanup_in_progress: false,
                directory_entry_crash_durable: false,
                outbound_slots: 0,
                poisoned: false,
            }),
    {
        let store = TransferStore {
            outbound: Vec::new(),
            completed_inbound: Vec::new(),
            inbound: PeerTransferSet::new(),
            discard_required: PeerTransferSet::new(),
            staging_root: None,
            active_workers: 0,
            cleanup_in_progress: false,
            directory_entry_crash_durable: false,
            outbound_slots: 0,
            poisoned: false,
        };
        assert(store@.outbound =~= Seq::<OutboundRecordModel>::empty());
        store
    }

    pub fn outbound_count(&self) -> (count: usize)
        ensures
            count == self@.outbound_slots,
    {
        self.outbound_slots
    }

    pub fn is_poisoned(&self) -> (poisoned: bool)
        ensures
            poisoned == self@.poisoned,
    {
        self.poisoned
    }

    /// No file work is accepted any more.
    pub fn poison(&mut self)
        requires
            old(self).wf(),
        ensures
            final(self).wf(),
            final(self)@ == (StoreModel { poisoned: true, ..old(self)@ }),
    {
        self.poisoned = true;
    }

    /// Takes a slot for a source, before it is scanned.
    pub fn reserve_outbound(&mut self) -> (reserved: Result<(), TransferError>)
        requires
            old(self).wf(),
        ensures
            final(self).wf(),
            if old(self)@.poisoned {
                &&& reserved == Err::<(), _>(TransferError::Platform)
                &&& final(self)@ == old(self)@
            } else if old(self)@.outbound_slots >= MAX_PENDING_OUTBOUND_TRANSFERS {
                &&& reserved == Err::<(), _>(TransferError::QueueFull)
                &&& final(self)@ == old(self)@
            } else {
                &&& reserved is Ok
                &&& final(self)@ == (StoreModel {
                    outbound_slots: old(self)@.outbound_slots + 1,
                    ..old(self)@
                })
            },
    {
        if self.poisoned {
            return Err(TransferError::Platform);
        }
        if self.outbound_slots < MAX_PENDING_OUTBOUND_TRANSFERS {
            self.outbound_slots = self.outbound_slots + 1;
            assert(self@ == (StoreModel {
                outbound_slots: old(self)@.outbound_slots + 1,
                ..old(self)@
            }));
            Ok(())
        } else {
            Err(TransferError::QueueFull)
        }
    }

    /// Gives back a slot that holds no source.
    pub fn release_outbound(&mut self)
        requires
            old(self).wf(),
            old(self)@.outbound_slots > old(self)@.outbound.len(),
        ensures
            final(self).wf(),
            final(self)@ == (StoreModel {
                outbound_slots: old(self)@.outbound_slots - 1,
                ..old(self)@
            }),
    {
        self.outbound_slots = self.outbound_slots - 1;
        assert(self@ == (StoreModel {
            outbound_slots: old(self)@.outbound_slots - 1,
            ..old(self)@
        }));
    }

    fn place(&self, peer: DeviceId, transfer: TransferId) -> (found: Option<usize>)
        ensures
            match found {
                Some(at) => {
                    &&& at < self.outbound@.len()
                    &&& at == record_place(self@.outbound, peer, transfer)
                    &&& self.outbound@[at as int].peer == peer
                    &&& self.outbound@[at as int].transfer == transfer
                },
                None => record_place(self@.outbound, peer, transfer) == -1,
            },
    {
        let ghost all = self@.outbound;
        let mut at: usize = self.outbound.len();
        assert(all.take(at as int) =~= all);
        while at > 0
            invariant
                at <= self.outbound@.len(),
                all == self@.outbound,
                record_place(all, peer, transfer) == record_place(
                    all.take(at as int),
                    peer,
                    transfer,
                ),
            decreases at,
        {
            at = at - 1;
            let ghost longer = all.take(at + 1);
            assert(longer.drop_last() =~= all.take(at as int));
            assert(longer.last() == self.outbound@[at as int]@);
            if self.outbound[at].peer == peer && self.outbound[at].transfer == transfer {
                return Some(at);
            }
        }
        None
    }

    /// Retains a scanned source in the slot that was reserved for it.
    pub fn retain_outbound(&mut self, record: OutboundRecord)
        requires
            old(self).wf(),
            record.pending.wf(),
            old(self)@.outbound_slots > old(self)@.outbound.len(),
        ensures
            final(self).wf(),
            final(self)@ == old(self)@.retained(record@),
    {
        match self.place(record.peer, record.transfer) {
            Some(at) => {
                let ghost model = record@;
                self.outbound.set(at, record);
                assert(self@.outbound =~= old(self)@.outbound.update(at as int, model));
            },
            None => {
                let ghost model = record@;
                self.outbound.push(record);
                assert(self@.outbound =~= old(self)@.outbound.push(model));
            },
        }
    }

    /// Lets go of one source and its slot.
    pub fn remove_outbound(&mut self, peer: DeviceId, transfer: TransferId) -> (removed: bool)
        requires
            old(self).wf(),
        ensures
            final(self).wf(),
            ({
                let at = record_place(old(self)@.outbound, peer, transfer);
                &&& removed == (at >= 0)
                &&& final(self)@ == if at >= 0 {
                    StoreModel {
                        outbound: old(self)@.outbound.remove(at),
                        outbound_slots: old(self)@.outbound_slots - 1,
                        ..old(self)@
                    }
                } else {
                    old(self)@
                }
            }),
    {
        match self.place(peer, transfer) {
            Some(at) => {
                let ghost before = self.outbound@;
                self.outbound.remove(at);
                self.outbound_slots = self.outbound_slots - 1;
                proof {
                    assert(self@.outbound =~= old(self)@.outbound.remove(at as int));
                    assert forall|i: int| 0 <= i < self.outbound@.len() implies (
                    #[trigger] self.outbound@[i]).pending.wf() by {
                        if i < at {
                            assert(self.outbound@[i] == before[i]);
                        } else {
                            assert(self.outbound@[i] == before[i + 1]);
                        }
                    }
                }
                true
            },
            None => false,
        }
    }

    /// Lets go of every source for `peer`. The transfers that end are named.
    pub fn purge_outbound(&mut self, peer: DeviceId) -> (removed: Vec<TransferId>)
        requires
            old(self).wf(),
        ensures
            final(self).wf(),
            final(self)@ == old(self)@.purged(peer),
            removed@ == old(self)@.outbound.filter(
                |record: OutboundRecordModel| record.peer == peer,
            ).map_values(|record: OutboundRecordModel| record.transfer),
    {
        let mut removed: Vec<TransferId> = Vec::new();
        let mut kept: Vec<OutboundRecord> = Vec::new();
        let mut rest: Vec<OutboundRecord> = Vec::new();
        std::mem::swap(&mut rest, &mut self.outbound);
        let ghost all = old(self)@.outbound;
        let ghost own = |record: OutboundRecordModel| record.peer == peer;
        let ghost other = |record: OutboundRecordModel| record.peer != peer;
        let ghost name = |record: OutboundRecordModel| record.transfer;
        let ghost whole = old(self).outbound@;
        proof {
            reveal(Seq::filter);
            assert(rest@ =~= whole.skip(0));
            assert(all.take(0).filter(own) =~= seq![]);
            assert(all.take(0).filter(other) =~= seq![]);
        }
        let total: usize = rest.len();
        let mut done: usize = 0;
        while rest.len() > 0
            invariant
                done <= total,
                total == all.len(),
                total == whole.len(),
                all == whole.map_values(|record: OutboundRecord| record@),
                rest@ == whole.skip(done as int),
                own == (|record: OutboundRecordModel| record.peer == peer),
                other == (|record: OutboundRecordModel| record.peer != peer),
                name == (|record: OutboundRecordModel| record.transfer),
                forall|i: int| 0 <= i < whole.len() ==> (#[trigger] whole[i]).pending.wf(),
                forall|i: int| 0 <= i < kept@.len() ==> (#[trigger] kept@[i]).pending.wf(),
                removed@ == all.take(done as int).filter(own).map_values(name),
                kept@.map_values(|record: OutboundRecord| record@) == all.take(
                    done as int,
                ).filter(other),
                removed@.len() + kept@.len() == done,
            decreases rest@.len(),
        {
            let record = rest.remove(0);
            assert(record == whole[done as int]);
            assert(rest@ =~= whole.skip(done + 1));
            proof {
                reveal(Seq::filter);
                assert(all.take(done + 1).drop_last() =~= all.take(done as int));
                assert(all.take(done + 1).last() == record@);
            }
            if record.peer == peer {
                removed.push(record.transfer);
                assert(removed@ =~= all.take(done + 1).filter(own).map_values(name));
            } else {
                let ghost before = kept@;
                kept.push(record);
                assert(kept@.map_values(|record: OutboundRecord| record@) =~= all.take(
                    done + 1,
                ).filter(other));
            }
            done = done + 1;
        }
        proof {
            assert(done == total) by {
                assert(whole.skip(done as int).len() == 0);
            }
            assert(all.take(done as int) =~= all);
        }
        self.outbound_slots = self.outbound_slots - removed.len();
        self.outbound = kept;
        assert(self@ == old(self)@.purged(peer));
        removed
    }

    /// A source for `peer` that has something to send.
    pub fn ready_outbound(&self, peer: DeviceId) -> (ready: Option<TransferId>)
        ensures
            ({
                let at = ready_place(self@.outbound, peer);
                ready == if at >= 0 {
                    Some(self@.outbound[at].transfer)
                } else {
                    None
                }
            }),
    {
        let ghost all = self@.outbound;
        let mut at: usize = 0;
        while at < self.outbound.len()
            invariant
                at <= self.outbound@.len(),
                all == self@.outbound,
                ready_place(all.take(at as int), peer) == -1,
            decreases self.outbound@.len() - at,
        {
            let ghost longer = all.take(at + 1);
            assert(longer.drop_last() =~= all.take(at as int));
            assert(longer.last() == self.outbound@[at as int]@);
            if self.outbound[at].peer == peer && self.outbound[at].pending.is_ready() {
                proof {
                    lemma_ready_kept(all, peer, at + 1);
                }
                return Some(self.outbound[at].transfer);
            }
            at = at + 1;
        }
        assert(all.take(at as int) =~= all);
        None
    }

    /// Takes in from where the receiver wants an entry of a source.
    pub fn handle_peer_resume(
        &mut self,
        peer: DeviceId,
        transfer: TransferId,
        entry_index: u32,
        offset: u64,
    ) -> (step: Result<ResumeStep, TransferRuntimeError>)
        requires
            old(self).wf(),
        ensures
            final(self).wf(),
            ({
                let at = record_place(old(self)@.outbound, peer, transfer);
                if at < 0 {
                    &&& step == Err::<ResumeStep, _>(TransferRuntimeError::Protocol)
                    &&& final(self)@ == old(self)@
                } else {
                    let (pending, expected) = old(self)@.outbound[at].pending.answer(
                        entry_index,
                        offset,
                    );
                    &&& step == expected
                    &&& final(self)@ == old(self)@.with_pending(at, pending)
                }
            }),
    {
        match self.place(peer, transfer) {
            None => Err(TransferRuntimeError::Protocol),
            Some(at) => {
                let mut record = self.outbound.remove(at);
                let step = record.pending.handle_peer_resume(entry_index, offset);
                let ghost pending = record.pending@;
                self.outbound.insert(at, record);
                proof {
                    self.lemma_replaced(*old(self), at as int, pending);
                }
                step
            },
        }
    }

    /// The source of `transfer` stands where the receiver wants it.
    pub fn outbound_resumed(&mut self, peer: DeviceId, transfer: TransferId)
        requires
            old(self).wf(),
        ensures
            final(self).wf(),
            ({
                let at = record_place(old(self)@.outbound, peer, transfer);
                final(self)@ == if at < 0 {
                    old(self)@
                } else {
                    old(self)@.with_pending(
                        at,
                        OutboundModel { ready: true, ..old(self)@.outbound[at].pending },
                    )
                }
            }),
    {
        if let Some(at) = self.place(peer, transfer) {
            let mut record = self.outbound.remove(at);
            record.pending.resumed();
            let ghost pending = record.pending@;
            self.outbound.insert(at, record);
            proof {
                self.lemma_replaced(*old(self), at as int, pending);
            }
        }
    }

    /// The source of `transfer` has reached its end.
    pub fn outbound_ended(&mut self, peer: DeviceId, transfer: TransferId)
        requires
            old(self).wf(),
        ensures
            final(self).wf(),
            ({
                let at = record_place(old(self)@.outbound, peer, transfer);
                final(self)@ == if at < 0 {
                    old(self)@
                } else {
                    old(self)@.with_pending(
                        at,
                        OutboundModel {
                            ready: false,
                            awaiting_completion_ack: true,
                            ..old(self)@.outbound[at].pending
                        },
                    )
                }
            }),
    {
        if let Some(at) = self.place(peer, transfer) {
            let mut record = self.outbound.remove(at);
            record.pending.source_ended();
            let ghost pending = record.pending@;
            self.outbound.insert(at, record);
            proof {
                self.lemma_replaced(*old(self), at as int, pending);
            }
        }
    }

    proof fn lemma_replaced(&self, before: TransferStore<Root>, at: int, pending: OutboundModel)
        requires
            before.wf(),
            0 <= at < before.outbound@.len(),
            self.outbound@ == before.outbound@.remove(at).insert(at, self.outbound@[at]),
            self.outbound@[at].peer == before.outbound@[at].peer,
            self.outbound@[at].transfer == before.outbound@[at].transfer,
            self.outbound@[at].pending@ == pending,
            self.outbound@[at].pending.wf(),
            self.completed_inbound == before.completed_inbound,
            self.inbound == before.inbound,
            self.discard_required == before.discard_required,
            self.staging_root == before.staging_root,
            self.active_workers == before.active_workers,
            self.cleanup_in_progress == before.cleanup_in_progress,
            self.directory_entry_crash_durable == before.directory_entry_crash_durable,
            self.outbound_slots == before.outbound_slots,
            self.poisoned == before.poisoned,
        ensures
            self.wf(),
            self@ == before@.with_pending(at, pending),
    {
        assert(self.outbound@ =~= before.outbound@.update(at, self.outbound@[at]));
        assert(self@.outbound =~= before@.with_pending(at, pending).outbound);
    }

    /// Announces every retained source for `peer` anew, in a new session. Where
    /// that is not possible any more, they are let go.
    pub fn reannounce_outbound(&mut self, peer: DeviceId, authorized: bool) -> (announced: Vec<
        TransferId,
    >)
        requires
            old(self).wf(),
        ensures
            final(self).wf(),
            if old(self)@.poisoned || !authorized {
                &&& announced@.len() == 0
                &&& final(self)@ == old(self)@.purged(peer)
            } else {
                &&& announced@ == old(self)@.outbound.filter(
                    |record: OutboundRecordModel| record.peer == peer,
                ).map_values(|record: OutboundRecordModel| record.transfer)
                &&& final(self)@ == (StoreModel {
                    outbound: old(self)@.outbound.map_values(
                        |record: OutboundRecordModel| reannounced(record, peer),
                    ),
                    ..old(self)@
                })
            },
    {
        if self.poisoned || !authorized {
            self.purge_outbound(peer);
            return Vec::new();
        }
        let mut announced: Vec<TransferId> = Vec::new();
        let ghost all = self@.outbound;
        let ghost own = |record: OutboundRecordModel| record.peer == peer;
        let ghost name = |record: OutboundRecordModel| record.transfer;
        let ghost renew = |record: OutboundRecordModel| reannounced(record, peer);
        let mut at: usize = 0;
        proof {
            reveal(Seq::filter);
            assert(all.take(0).filter(own) =~= seq![]);
            assert(self@.outbound =~= all.take(0).map_values(renew) + all.skip(0));
        }
        while at < self.outbound.len()
            invariant
                at <= self.outbound@.len(),
                self.outbound@.len() == all.len(),
                self.wf(),
                old(self).wf(),
                all == old(self)@.outbound,
                own == (|record: OutboundRecordModel| record.peer == peer),
                name == (|record: OutboundRecordModel| record.transfer),
                renew == (|record: OutboundRecordModel| reannounced(record, peer)),
                self@ == (StoreModel {
                    outbound: all.take(at as int).map_values(renew) + all.skip(at as int),
                    ..old(self)@
                }),
                announced@ == all.take(at as int).filter(own).map_values(name),
            decreases self.outbound@.len() - at,
        {
            let ghost before = *self;
            proof {
                reveal(Seq::filter);
                assert(all.take(at + 1).drop_last() =~= all.take(at as int));
                assert(self.outbound@[at as int]@ == self@.outbound[at as int]);
                assert(self@.outbound[at as int] == all[at as int]);
            }
            if self.outbound[at].peer == peer {
                announced.push(self.outbound[at].transfer);
                let mut record = self.outbound.remove(at);
                record.pending.reannounce();
                let ghost pending = record.pending@;
                self.outbound.insert(at, record);
                proof {
                    self.lemma_replaced(before, at as int, pending);
                }
                assert(announced@ =~= all.take(at + 1).filter(own).map_values(name));
            } else {
                assert(announced@ =~= all.take(at + 1).filter(own).map_values(name));
            }
            assert(self@.outbound =~= all.take(at + 1).map_values(renew) + all.skip(at + 1));
            at = at + 1;
        }
        assert(self@.outbound =~= all.map_values(renew));
        assert(all.take(at as int) =~= all);
        announced
    }

    /// Remembers a published transfer. The oldest one makes room.
    pub fn remember_completed(&mut self, peer: DeviceId, transfer: TransferId)
        requires
            old(self).wf(),
        ensures
            final(self).wf(),
            final(self)@ == old(self)@.remembered(PeerTransfer { peer, transfer }),
    {
        let item = PeerTransfer { peer, transfer };
        let mut at: usize = 0;
        while at < self.completed_inbound.len()
            invariant
                at <= self.completed_inbound@.len(),
                item == (PeerTransfer { peer, transfer }),
                *self == *old(self),
                self.wf(),
                forall|i: int| 0 <= i < at ==> #[trigger] self.completed_inbound@[i] != item,
            decreases self.completed_inbound@.len() - at,
        {
            if self.completed_inbound[at] == item {
                assert(self@.completed[at as int] == item);
                assert(self@.completed.contains(item));
                return ;
            }
            at = at + 1;
        }
        let ghost before = self.completed_inbound@;
        assert(!before.contains(item));
        self.completed_inbound.push(item);
        assert(before.push(item).no_duplicates());
        if self.completed_inbound.len() > COMPLETION_TOMBSTONE_LIMIT {
            self.completed_inbound.remove(0);
            assert(self.completed_inbound@ =~= before.push(item).skip(1));
        }
        assert(self@ == old(self)@.remembered(item));
    }

    /// The transfers of `peer` that were published, oldest first.
    pub fn completed_for(&self, peer: DeviceId) -> (transfers: Vec<u128>)
        ensures
            transfers@ == self@.completed.filter(
                |item: PeerTransfer| item.peer == peer,
            ).map_values(|item: PeerTransfer| item.transfer.value),
    {
        let mut transfers: Vec<u128> = Vec::new();
        let ghost own = |item: PeerTransfer| item.peer == peer;
        let ghost name = |item: PeerTransfer| item.transfer.value;
        let mut at: usize = 0;
        proof {
            reveal(Seq::filter);
            assert(self@.completed.take(0).filter(own) =~= seq![]);
        }
        while at < self.completed_inbound.len()
            invariant
                at <= self.completed_inbound@.len(),
                own == (|item: PeerTransfer| item.peer == peer),
                name == (|item: PeerTransfer| item.transfer.value),
                transfers@ == self@.completed.take(at as int).filter(own).map_values(name),
            decreases self.completed_inbound@.len() - at,
        {
            let item = self.completed_inbound[at];
            proof {
                reveal(Seq::filter);
                assert(self@.completed.take(at + 1).drop_last() =~= self@.completed.take(
                    at as int,
                ));
            }
            if item.peer == peer {
                transfers.push(item.transfer.value);
            }
            assert(transfers@ =~= self@.completed.take(at + 1).filter(own).map_values(name));
            at = at + 1;
        }
        assert(self@.completed.take(at as int) =~= self@.completed);
        transfers
    }

    /// Takes the staging root. Another one than before poisons the store.
    /// `is_known` says whether `root` is the one that was registered.
    pub fn register_staging_root(&mut self, root: Root, is_known: bool, durable: bool) -> (done:
        Result<(), TransferError>)
        requires
            old(self).wf(),
        ensures
            final(self).wf(),
            if old(self)@.staging_root is Some && !is_known {
                &&& done == Err::<(), _>(TransferError::Platform)
                &&& final(self)@ == (StoreModel { poisoned: true, ..old(self)@ })
            } else {
                &&& done is Ok
                &&& final(self)@ == (StoreModel {
                    staging_root: Some(root),
                    directory_entry_crash_durable: durable,
                    ..old(self)@
                })
            },
    {
        if self.staging_root.is_some() && !is_known {
            self.poisoned = true;
            return Err(TransferError::Platform);
        }
        self.staging_root = Some(root);
        self.directory_entry_crash_durable = durable;
        Ok(())
    }

    pub fn staging_root(&self) -> (root: Option<&Root>)
        ensures
            match root {
                Some(known) => self@.staging_root == Some(*known),
                None => self@.staging_root is None,
            },
    {
        self.staging_root.as_ref()
    }

    /// Which durable staging of `peer` is known, and whether other staging may
    /// be resumed.
    pub fn resume_configuration(&self, peer: DeviceId) -> (known: (Vec<TransferId>, bool))
        requires
            self.wf(),
        ensures
            lists_peer(known.0@, self@.inbound, peer),
            known.1 == self@.directory_entry_crash_durable,
    {
        (self.inbound.of(peer), self.directory_entry_crash_durable)
    }

    pub fn remember_inbound(&mut self, peer: DeviceId, transfer: TransferId)
        requires
            old(self).wf(),
        ensures
            final(self).wf(),
            final(self)@ == (StoreModel {
                inbound: old(self)@.inbound.insert(PeerTransfer { peer, transfer }),
                ..old(self)@
            }),
    {
        self.inbound.insert(PeerTransfer { peer, transfer });
        assert(self@ == (StoreModel {
            inbound: old(self)@.inbound.insert(PeerTransfer { peer, transfer }),
            ..old(self)@
        }));
    }

    /// A transfer was published: nothing of it is staged any more.
    pub fn forget_inbound(&mut self, peer: DeviceId, transfer: TransferId)
        requires
            old(self).wf(),
        ensures
            final(self).wf(),
            final(self)@ == (StoreModel {
                inbound: old(self)@.inbound.remove(PeerTransfer { peer, transfer }),
                discard_required: old(self)@.discard_required.remove(
                    PeerTransfer { peer, transfer },
                ),
                ..old(self)@
            }),
    {
        self.inbound.remove(PeerTransfer { peer, transfer });
        self.discard_required.remove(PeerTransfer { peer, transfer });
        assert(self@ == (StoreModel {
            inbound: old(self)@.inbound.remove(PeerTransfer { peer, transfer }),
            discard_required: old(self)@.discard_required.remove(PeerTransfer { peer, transfer }),
            ..old(self)@
        }));
    }

    /// What was staged of a transfer has to be discarded.
    pub fn require_inbound_discard(&mut self, peer: DeviceId, transfer: TransferId)
        requires
            old(self).wf(),
        ensures
            final(self).wf(),
            final(self)@ == (StoreModel {
                inbound: old(self)@.inbound.insert(PeerTransfer { peer, transfer }),
                discard_required: old(self)@.discard_required.insert(
                    PeerTransfer { peer, transfer },
                ),
                ..old(self)@
            }),
    {
        self.inbound.insert(PeerTransfer { peer, transfer });
        self.discard_required.insert(PeerTransfer { peer, transfer });
        assert(self@ == (StoreModel {
            inbound: old(self)@.inbound.insert(PeerTransfer { peer, transfer }),
            discard_required: old(self)@.discard_required.insert(PeerTransfer { peer, transfer }),
            ..old(self)@
        }));
    }

    /// Everything that was received of `peer` has to be discarded.
    pub fn require_peer_inbound_discard(&mut self, peer: DeviceId)
        requires
            old(self).wf(),
        ensures
            final(self).wf(),
            final(self)@ == old(self)@.peer_discarded(peer),
    {
        let ids = self.inbound.of(peer);
        self.discard_required.insert_listed(peer, &ids);
        proof {
            assert forall|item: PeerTransfer| #[trigger]
                self.discard_required@.contains(item) <==> old(self)@.peer_discarded(
                    peer,
                ).discard_required.contains(item) by {
                if item.peer == peer {
                    assert(item == PeerTransfer { peer, transfer: item.transfer });
                }
            }
            assert(self.discard_required@ =~= old(self)@.peer_discarded(peer).discard_required);
        }
        assert(self@ == old(self)@.peer_discarded(peer));
    }

    /// Everything that was received has to be discarded. The peers are named.
    pub fn require_all_inbound_discard(&mut self) -> (peers: Vec<DeviceId>)
        requires
            old(self).wf(),
        ensures
            final(self).wf(),
            final(self)@ == (StoreModel {
                discard_required: old(self)@.discard_required.union(old(self)@.inbound),
                ..old(self)@
            }),
            peers@.no_duplicates(),
            forall|peer: DeviceId|
                #![trigger peers@.contains(peer)]
                peers@.contains(peer) <==> exists|transfer: TransferId|
                    old(self)@.inbound.contains(PeerTransfer { peer, transfer }),
    {
        let peers = self.inbound.peers();
        let mut at: usize = 0;
        while at < peers.len()
            invariant
                at <= peers@.len(),
                self.wf(),
                old(self).wf(),
                self@ == (StoreModel {
                    discard_required: self@.discard_required,
                    ..old(self)@
                }),
                forall|item: PeerTransfer| #[trigger]
                    self@.discard_required.contains(item) <==> old(
                        self,
                    )@.discard_required.contains(item) || old(self)@.inbound.contains(item)
                        && peers@.take(at as int).contains(item.peer),
            decreases peers@.len() - at,
        {
            let peer = peers[at];
            let ghost before = self@;
            self.require_peer_inbound_discard(peer);
            proof {
                let longer = peers@.take(at + 1);
                let shorter = peers@.take(at as int);
                assert forall|x: DeviceId| #[trigger] longer.contains(x) <==> shorter.contains(x)
                    || x == peer by {
                    if longer.contains(x) {
                        let i = choose|i: int| 0 <= i < longer.len() && longer[i] == x;
                        if i < at {
                            assert(shorter[i] == x);
                        }
                    }
                    if shorter.contains(x) {
                        let i = choose|i: int| 0 <= i < shorter.len() && shorter[i] == x;
                        assert(longer[i] == x);
                    }
                    assert(longer[at as int] == peer);
                }
            }
            at = at + 1;
        }
        proof {
            assert(peers@.take(at as int) =~= peers@);
            assert forall|item: PeerTransfer| #[trigger]
                self@.discard_required.contains(item) <==> old(self)@.discard_required.union(
                    old(self)@.inbound,
                ).contains(item) by {
                if old(self)@.inbound.contains(item) {
                    assert(item == PeerTransfer { peer: item.peer, transfer: item.transfer });
                    assert(peers@.contains(item.peer));
                }
            }
            assert(self@.discard_required =~= old(self)@.discard_required.union(
                old(self)@.inbound,
            ));
        }
        peers
    }

    /// Everything that was received has to be discarded, unless a worker is still
    /// at it; then nothing changes.
    pub fn require_all_inbound_discard_if_idle(&mut self) -> (peers: Option<Vec<DeviceId>>)
        requires
            old(self).wf(),
        ensures
            final(self).wf(),
            match peers {
                None => old(self)@.active_workers > 0 && final(self)@ == old(self)@,
                Some(known) => {
                    &&& old(self)@.active_workers == 0
                    &&& final(self)@ == (StoreModel {
                        discard_required: old(self)@.discard_required.union(old(self)@.inbound),
                        ..old(self)@
                    })
                    &&& known@.no_duplicates()
                    &&& forall|peer: DeviceId|
                        #![trigger known@.contains(peer)]
                        known@.contains(peer) <==> exists|transfer: TransferId|
                            old(self)@.inbound.contains(PeerTransfer { peer, transfer })
                },
            },
    {
        if self.active_workers > 0 {
            return None;
        }
        Some(self.require_all_inbound_discard())
    }

    pub fn worker_started(&mut self)
        requires
            old(self).wf(),
        ensures
            final(self).wf(),
            final(self)@ == (StoreModel {
                active_workers: if old(self)@.active_workers == usize::MAX {
                    usize::MAX
                } else {
                    (old(self)@.active_workers + 1) as usize
                },
                ..old(self)@
            }),
    {
        if self.active_workers < usize::MAX {
            self.active_workers = self.active_workers + 1;
        }
    }

    /// A worker has ended. What has to be discarded of its peer can be cleaned
    /// up once no worker is left.
    pub fn worker_finished(&mut self)
        requires
            old(self).wf(),
        ensures
            final(self).wf(),
            final(self)@ == (StoreModel {
                active_workers: if old(self)@.active_workers == 0 {
                    0
                } else {
                    (old(self)@.active_workers - 1) as usize
                },
                ..old(self)@
            }),
    {
        if self.active_workers > 0 {
            self.active_workers = self.active_workers - 1;
        }
    }

    /// Starts cleaning up after `peer`, unless a worker or another cleanup still
    /// holds the staging area. Without a staging root nothing can be discarded,
    /// and the store is poisoned.
    pub fn begin_cleanup(&mut self, peer: DeviceId) -> (step: Result<CleanupStep, TransferError>)
        requires
            old(self).wf(),
        ensures
            final(self).wf(),
            if old(self)@.active_workers != 0 || old(self)@.cleanup_in_progress {
                &&& step == Ok::<_, TransferError>(
                    CleanupStep::Done(TransferCleanupState::Pending),
                )
                &&& final(self)@ == old(self)@
            } else if forall|transfer: TransferId|
                !old(self)@.discard_required.contains(PeerTransfer { peer, transfer }) {
                &&& step == if old(self)@.poisoned {
                    Err(TransferError::Platform)
                } else {
                    Ok(CleanupStep::Done(TransferCleanupState::Complete))
                }
                &&& final(self)@ == old(self)@
            } else if old(self)@.staging_root is None {
                &&& step == Err::<CleanupStep, _>(TransferError::Platform)
                &&& final(self)@ == (StoreModel { poisoned: true, ..old(self)@ })
            } else {
                &&& step matches Ok(CleanupStep::Discard(ids)) && lists_peer(
                    ids@,
                    old(self)@.discard_required,
                    peer,
                )
                &&& final(self)@ == (StoreModel { cleanup_in_progress: true, ..old(self)@ })
            },
    {
        if self.active_workers != 0 || self.cleanup_in_progress {
            return Ok(CleanupStep::Done(TransferCleanupState::Pending));
        }
        let ids = self.discard_required.of(peer);
        if ids.len() == 0 {
            assert forall|transfer: TransferId| !self@.discard_required.contains(
                PeerTransfer { peer, transfer },
            ) by {
                assert(!ids@.contains(transfer));
            }
            return if self.poisoned {
                Err(TransferError::Platform)
            } else {
                Ok(CleanupStep::Done(TransferCleanupState::Complete))
            };
        }
        proof {
            assert(ids@.contains(ids@[0]));
            assert(self@.discard_required.contains(PeerTransfer { peer, transfer: ids@[0] }));
        }
        if self.staging_root.is_none() {
            self.poisoned = true;
            return Err(TransferError::Platform);
        }
        self.cleanup_in_progress = true;
        Ok(CleanupStep::Discard(ids))
    }

    /// Takes in what became of the discards. A failure poisons the store.
    pub fn finish_cleanup(
        &mut self,
        peer: DeviceId,
        ids: &Vec<TransferId>,
        discarded: Result<(), TransferError>,
    ) -> (done: Result<TransferCleanupState, TransferError>)
        requires
            old(self).wf(),
        ensures
            final(self).wf(),
            match discarded {
                Err(error) => {
                    &&& done == Err::<TransferCleanupState, _>(error)
                    &&& final(self)@ == (StoreModel {
                        cleanup_in_progress: false,
                        poisoned: true,
                        ..old(self)@
                    })
                },
                Ok(_) => {
                    let kept = |item: PeerTransfer|
                        !(item.peer == peer && ids@.contains(item.transfer));
                    &&& done == if old(self)@.poisoned {
                        Err(TransferError::Platform)
                    } else {
                        Ok(TransferCleanupState::Complete)
                    }
                    &&& final(self)@ == (StoreModel {
                        cleanup_in_progress: false,
                        inbound: old(self)@.inbound.filter(kept),
                        discard_required: old(self)@.discard_required.filter(kept),
                        ..old(self)@
                    })
                },
            },
    {
        self.cleanup_in_progress = false;
        match discarded {
            Err(error) => {
                self.poisoned = true;
                Err(error)
            },
            Ok(()) => {
                self.discard_required.remove_listed(peer, ids);
                self.inbound.remove_listed(peer, ids);
                if self.poisoned {
                    Err(TransferError::Platform)
                } else {
                    Ok(TransferCleanupState::Complete)
                }
            },
        }
    }

    /// A peer is not trusted any more: its sources are let go, what it sent has
    /// to be discarded, and what it completed is forgotten.
    pub fn mark_peer_revoked(&mut self, peer: DeviceId) -> (removed: Vec<TransferId>)
        requires
            old(self).wf(),
        ensures
            final(self).wf(),
            final(self)@ == (StoreModel {
                completed: old(self)@.completed.filter(|item: PeerTransfer| item.peer != peer),
                ..old(self)@.purged(peer).peer_discarded(peer)
            }),
            removed@ == old(self)@.outbound.filter(
                |record: OutboundRecordModel| record.peer == peer,
            ).map_values(|record: OutboundRecordModel| record.transfer),
    {
        let removed = self.purge_outbound(peer);
        self.require_peer_inbound_discard(peer);
        let ghost other = |item: PeerTransfer| item.peer != peer;
        let ghost all = self.completed_inbound@;
        let mut kept: Vec<PeerTransfer> = Vec::new();
        let mut at: usize = 0;
        proof {
            reveal(Seq::filter);
            assert(all.take(0).filter(other) =~= seq![]);
        }
        while at < self.completed_inbound.len()
            invariant
                at <= self.completed_inbound@.len(),
                all == self.completed_inbound@,
                all.no_duplicates(),
                other == (|item: PeerTransfer| item.peer != peer),
                kept@ == all.take(at as int).filter(other),
                kept@.len() <= at,
                kept@.no_duplicates(),
            decreases self.completed_inbound@.len() - at,
        {
            let item = self.completed_inbound[at];
            proof {
                reveal(Seq::filter);
                assert(all.take(at + 1).drop_last() =~= all.take(at as int));
            }
            if item.peer != peer {
                proof {
                    if kept@.contains(item) {
                        all.take(at as int).lemma_filter_contains_rev(other, item);
                        let i = choose|i: int| 0 <= i < at && all.take(at as int)[i] == item;
                        assert(all[i] == all[at as int]);
                    }
                }
                kept.push(item);
            }
            assert(kept@ =~= all.take(at + 1).filter(other));
            at = at + 1;
        }
        assert(all.take(at as int) =~= all);
        self.completed_inbound = kept;
        removed
    }
}

proof fn lemma_ready_kept(all: Seq<OutboundRecordModel>, peer: DeviceId, upto: int)
    requires
        0 <= upto <= all.len(),
        ready_place(all.take(upto), peer) >= 0,
    ensures
        ready_place(all, peer) == ready_place(all.take(upto), peer),
    decreases all.len() - upto,
{
    if upto == all.len() {
        assert(all.take(upto) =~= all);
    } else {
        assert(all.take(upto + 1).drop_last() =~= all.take(upto));
        lemma_ready_kept(all, peer, upto + 1);
    }
}

pub open spec fn reannounced(record: OutboundRecordModel, peer: DeviceId) -> OutboundRecordModel {
    if record.peer == peer {
        OutboundRecordModel { pending: OutboundModel::announced(record.pending.entries), ..record }
    } else {
        record
    }
}


/// What the worker does next.
#[derive(Clone, Copy, Debug, PartialEq, Eq, Structural)]
pub enum WorkerTurn {
    /// Clean up and end.
    Cleanup,
    /// Carry out pending effects, at most the budget.
    Effects,
    /// Wait for a command.
    Receive,
}

/// A stop request goes before everything, pending effects before new commands.
pub fn worker_turn(stop: u8, pending_effects: usize) -> (turn: WorkerTurn)
    ensures
        turn == if stop & STOP != 0 {
            WorkerTurn::Cleanup
        } else if pending_effects != 0 {
            WorkerTurn::Effects
        } else {
            WorkerTurn::Receive
        },
{
    if stop & STOP != 0 {
        WorkerTurn::Cleanup
    } else if pending_effects != 0 {
        WorkerTurn::Effects
    } else {
        WorkerTurn::Receive
    }
}

/// How many effects may still be carried out in this turn.
pub struct EffectBudget {
    pub left: usize,
}

impl EffectBudget {
    pub fn new() -> (budget: EffectBudget)
        ensures
            budget.left == EFFECT_BUDGET,
    {
        EffectBudget { left: EFFECT_BUDGET }
    }

    /// Whether one more pending effect is carried out now.
    pub fn take(&mut self, stop: u8, pending_effects: usize) -> (taken: bool)
        ensures
            taken == (old(self).left > 0 && stop & STOP == 0 && pending_effects > 0),
            final(self).left == if taken {
                old(self).left - 1
            } else {
                old(self).left as int
            },
    {
        if self.left == 0 || stop & STOP != 0 || pending_effects == 0 {
            return false;
        }
        self.left = self.left - 1;
        true
    }
}

/// What is left to do for an effect.
#[derive(Clone, Copy, Debug, PartialEq, Eq, Structural)]
pub enum WorkerStep {
    Nothing,
    Send(FileManifestMessage),
    /// Let the queue forget the record; then acknowledge the publication.
    RemoveTerminal(TransferId),
    /// Move the source; then `outbound_resumed`.
    Seek { transfer: TransferId, entry_index: u32, offset: u64 },
    /// The source is not needed any more.
    CancelSource(TransferId),
    /// Publish what was received.
    Finalize(TransferId),
    AdvanceQueue,
}

/// The reason that a refused transfer is answered with.
pub const REFUSED: u16 = 1;

impl<Root> TransferStore<Root> {
    /// Carries out an effect of the receive side as far as the store and the
    /// sequence lanes are concerned, and says what is left to do.
    pub fn apply_effect(
        &mut self,
        runtime: &mut PeerTransferRuntime,
        peer: DeviceId,
        effect: TransferRuntimeEffect,
    ) -> (step: Result<WorkerStep, TransferRuntimeError>)
        requires
            old(self).wf(),
            old(runtime).wf(),
        ensures
            final(self).wf(),
            final(runtime).wf(),
            match effect {
                TransferRuntimeEffect::Completed { transfer } => {
                    let item = PeerTransfer { peer, transfer };
                    &&& final(self)@ == (StoreModel {
                        inbound: old(self)@.inbound.remove(item),
                        discard_required: old(self)@.discard_required.remove(item),
                        ..old(self)@
                    }).remembered(item)
                    &&& step == Ok::<_, TransferRuntimeError>(WorkerStep::RemoveTerminal(transfer))
                    &&& final(runtime)@ == (PeerTransferModel {
                        completed: match tombstoned(
                            old(runtime)@.completed,
                            Set::empty().insert(transfer.value),
                            MAX_COMPLETED_INBOUND_TOMBSTONES,
                        ) {
                            Ok(all) => all,
                            Err(_) => old(runtime)@.completed,
                        },
                        ..old(runtime)@
                    })
                },
                TransferRuntimeEffect::PeerCompleteAcknowledged { transfer }
                | TransferRuntimeEffect::PeerCancelRequested { transfer } => {
                    let at = record_place(old(self)@.outbound, peer, transfer);
                    &&& final(runtime)@ == old(runtime)@
                    &&& if at < 0 {
                        &&& step == Err::<WorkerStep, _>(TransferRuntimeError::Protocol)
                        &&& final(self)@ == old(self)@
                    } else {
                        &&& step == Ok::<_, TransferRuntimeError>(
                            WorkerStep::CancelSource(transfer),
                        )
                        &&& final(self)@ == (StoreModel {
                            outbound: old(self)@.outbound.remove(at),
                            outbound_slots: old(self)@.outbound_slots - 1,
                            ..old(self)@
                        })
                    }
                },
                TransferRuntimeEffect::CompletionAcknowledgementRequired { transfer } => {
                    &&& final(self)@ == old(self)@
                    &&& answered(
                        step,
                        old(runtime)@,
                        final(runtime)@,
                        |meta: EventMeta| FileManifestMessage::Complete { meta, transfer },
                    )
                },
                TransferRuntimeEffect::ResumeRequired { transfer, entry_index, offset } => {
                    &&& final(self)@ == old(self)@
                    &&& answered(
                        step,
                        old(runtime)@,
                        final(runtime)@,
                        |meta: EventMeta|
                            FileManifestMessage::Resume { meta, transfer, entry_index, offset },
                    )
                },
                TransferRuntimeEffect::QueueSaturated { transfer }
                | TransferRuntimeEffect::RejectionAcknowledgementRequired { transfer } => {
                    &&& final(self)@ == old(self)@
                    &&& answered(
                        step,
                        old(runtime)@,
                        final(runtime)@,
                        |meta: EventMeta|
                            FileManifestMessage::Cancel { meta, transfer, reason: REFUSED },
                    )
                },
                TransferRuntimeEffect::PeerResumeRequested { transfer, entry_index, offset } => {
                    let at = record_place(old(self)@.outbound, peer, transfer);
                    &&& final(runtime)@ == old(runtime)@
                    &&& if at < 0 {
                        &&& step == Err::<WorkerStep, _>(TransferRuntimeError::Protocol)
                        &&& final(self)@ == old(self)@
                    } else {
                        let (pending, expected) = old(self)@.outbound[at].pending.answer(
                            entry_index,
                            offset,
                        );
                        &&& final(self)@ == old(self)@.with_pending(at, pending)
                        &&& step == match expected {
                            Err(error) => Err(error),
                            Ok(ResumeStep::Waiting) => Ok(WorkerStep::Nothing),
                            Ok(ResumeStep::Seek { entry_index, offset }) => Ok(
                                WorkerStep::Seek { transfer, entry_index, offset },
                            ),
                        }
                    }
                },
                TransferRuntimeEffect::Cancelled { transfer } => {
                    let item = PeerTransfer { peer, transfer };
                    &&& step == Ok::<_, TransferRuntimeError>(WorkerStep::Nothing)
                    &&& final(runtime)@ == old(runtime)@
                    &&& final(self)@ == (StoreModel {
                        inbound: old(self)@.inbound.insert(item),
                        discard_required: old(self)@.discard_required.insert(item),
                        ..old(self)@
                    })
                },
                TransferRuntimeEffect::Started { transfer } => {
                    &&& step == Ok::<_, TransferRuntimeError>(WorkerStep::Nothing)
                    &&& final(runtime)@ == old(runtime)@
                    &&& final(self)@ == (StoreModel {
                        inbound: old(self)@.inbound.insert(PeerTransfer { peer, transfer }),
                        ..old(self)@
                    })
                },
                TransferRuntimeEffect::FinalizeRequired { transfer } => {
                    &&& step == Ok::<_, TransferRuntimeError>(WorkerStep::Finalize(transfer))
                    &&& final(runtime)@ == old(runtime)@
                    &&& final(self)@ == old(self)@
                },
                TransferRuntimeEffect::AdvanceQueue => {
                    &&& step == Ok::<_, TransferRuntimeError>(WorkerStep::AdvanceQueue)
                    &&& final(runtime)@ == old(runtime)@
                    &&& final(self)@ == old(self)@
                },
                TransferRuntimeEffect::Admitted { .. }
                | TransferRuntimeEffect::Progress { .. }
                | TransferRuntimeEffect::Backpressured { .. }
                | TransferRuntimeEffect::BackpressureReleased { .. } => {
                    &&& step == Ok::<_, TransferRuntimeError>(WorkerStep::Nothing)
                    &&& final(runtime)@ == old(runtime)@
                    &&& final(self)@ == old(self)@
                },
            },
    {
        match effect {
            TransferRuntimeEffect::Completed { transfer } => {
                self.forget_inbound(peer, transfer);
                self.remember_completed(peer, transfer);
                let mut ended: Vec<u128> = Vec::new();
                ended.push(transfer.value);
                assert(ended@.to_set() =~= Set::<u128>::empty().insert(transfer.value)) by {
                    assert(ended@ =~= seq![transfer.value]);
                    assert(ended@[0] == transfer.value);
                }
                // A full lane does not keep the publication from being acknowledged.
                let _remembered = runtime.remember_completed_inbound(&ended);
                Ok(WorkerStep::RemoveTerminal(transfer))
            },
            TransferRuntimeEffect::PeerCompleteAcknowledged { transfer }
            | TransferRuntimeEffect::PeerCancelRequested { transfer } => {
                if self.remove_outbound(peer, transfer) {
                    Ok(WorkerStep::CancelSource(transfer))
                } else {
                    Err(TransferRuntimeError::Protocol)
                }
            },
            TransferRuntimeEffect::CompletionAcknowledgementRequired { transfer } => {
                match runtime.encode_complete_ack_frame(transfer) {
                    Err(error) => Err(error),
                    Ok(message) => Ok(WorkerStep::Send(message)),
                }
            },
            TransferRuntimeEffect::ResumeRequired { transfer, entry_index, offset } => {
                match runtime.encode_resume_frame(transfer, entry_index, offset) {
                    Err(error) => Err(error),
                    Ok(message) => Ok(WorkerStep::Send(message)),
                }
            },
            TransferRuntimeEffect::QueueSaturated { transfer }
            | TransferRuntimeEffect::RejectionAcknowledgementRequired { transfer } => {
                match runtime.encode_cancel_frame(transfer, REFUSED) {
                    Err(error) => Err(error),
                    Ok(message) => Ok(WorkerStep::Send(message)),
                }
            },
            TransferRuntimeEffect::PeerResumeRequested { transfer, entry_index, offset } => {
                match self.handle_peer_resume(peer, transfer, entry_index, offset) {
                    Err(error) => Err(error),
                    Ok(ResumeStep::Waiting) => Ok(WorkerStep::Nothing),
                    Ok(ResumeStep::Seek { entry_index, offset }) => Ok(
                        WorkerStep::Seek { transfer, entry_index, offset },
                    ),
                }
            },
            TransferRuntimeEffect::Cancelled { transfer } => {
                self.require_inbound_discard(peer, transfer);
                Ok(WorkerStep::Nothing)
            },
            TransferRuntimeEffect::Started { transfer } => {
                self.remember_inbound(peer, transfer);
                Ok(WorkerStep::Nothing)
            },
            TransferRuntimeEffect::FinalizeRequired { transfer } => Ok(
                WorkerStep::Finalize(transfer),
            ),
            TransferRuntimeEffect::AdvanceQueue => Ok(WorkerStep::AdvanceQueue),
            TransferRuntimeEffect::Admitted { .. }
            | TransferRuntimeEffect::Progress { .. }
            | TransferRuntimeEffect::Backpressured { .. }
            | TransferRuntimeEffect::BackpressureReleased { .. } => Ok(WorkerStep::Nothing),
        }
    }

    /// Cleans up when the worker ends: received transfers are discarded and
    /// sources are let go as far as the stop request says. `active` is the
    /// transfer that is being received. The sources that end are named.
    pub fn stop_worker(
        &mut self,
        runtime: &mut PeerTransferRuntime,
        peer: DeviceId,
        stop: u8,
        active: Option<TransferId>,
    ) -> (removed: Vec<TransferId>)
        requires
            old(self).wf(),
            old(runtime).wf(),
        ensures
            final(self).wf(),
            final(runtime).wf(),
            final(runtime)@ == if stop & ABORT_INBOUND != 0 {
                old(runtime)@.aborted()
            } else {
                old(runtime)@
            },
            ({
                let received = if stop & ABORT_INBOUND != 0 {
                    old(self)@.peer_discarded(peer).active_discarded(peer, active)
                } else {
                    old(self)@
                };
                final(self)@ == if stop & ABORT_OUTBOUND != 0 {
                    received.purged(peer)
                } else {
                    received
                }
            }),
            removed@ == if stop & ABORT_OUTBOUND != 0 {
                old(self)@.outbound.filter(
                    |record: OutboundRecordModel| record.peer == peer,
                ).map_values(|record: OutboundRecordModel| record.transfer)
            } else {
                seq![]
            },
    {
        if stop & ABORT_INBOUND != 0 {
            self.require_peer_inbound_discard(peer);
            if let Some(transfer) = active {
                self.require_inbound_discard(peer, transfer);
            }
            runtime.abort_inbound(active);
        }
        if stop & ABORT_OUTBOUND != 0 {
            self.purge_outbound(peer)
        } else {
            Vec::new()
        }
    }

    /// A worker failed: everything is aborted, and a failure of the platform
    /// stops all file work.
    pub fn fail_worker(&mut self, stop: u8, error: TransferRuntimeError) -> (all: u8)
        requires
            old(self).wf(),
        ensures
            final(self).wf(),
            final(self)@ == (StoreModel {
                poisoned: old(self)@.poisoned || error == TransferRuntimeError::Transfer(
                    TransferError::Platform,
                ),
                ..old(self)@
            }),
            all == stop | TransferStopMode::AbortAll.request(),
            all & STOP != 0,
            all & ABORT_INBOUND != 0,
            all & ABORT_OUTBOUND != 0,
    {
        if error == TransferRuntimeError::Transfer(TransferError::Platform) {
            self.poisoned = true;
        }
        add_stop(stop, TransferStopMode::AbortAll)
    }

    /// Whether a frame may be handed to the worker, whose command queue is
    /// `full` or not.
    pub fn frame_accepted(&self, full: bool) -> (accepted: Result<(), TransferRuntimeError>)
        ensures
            accepted == if self@.poisoned {
                Err::<(), _>(TransferRuntimeError::Transfer(TransferError::Platform))
            } else if full {
                Err(TransferRuntimeError::Backpressure)
            } else {
                Ok(())
            },
    {
        if self.poisoned {
            return Err(TransferRuntimeError::Transfer(TransferError::Platform));
        }
        if full {
            return Err(TransferRuntimeError::Backpressure);
        }
        Ok(())
    }

    /// A scan has ended. The source is retained and announced, unless the
    /// worker was stopped meanwhile or the peer's grant is gone; then its slot
    /// is given back.
    pub fn source_scanned(
        &mut self,
        runtime: &mut PeerTransferRuntime,
        peer: DeviceId,
        transfer: TransferId,
        scanned: Result<Vec<OutboundEntry>, TransferError>,
        stop: u8,
    ) -> (announced: Result<FileManifestMessage, TransferError>)
        requires
            old(self).wf(),
            old(runtime).wf(),
            old(self)@.outbound_slots > old(self)@.outbound.len(),
        ensures
            final(self).wf(),
            final(runtime).wf(),
            ({
                let released = StoreModel {
                    outbound_slots: old(self)@.outbound_slots - 1,
                    ..old(self)@
                };
                match scanned {
                    Err(error) => {
                        &&& announced == Err::<FileManifestMessage, _>(error)
                        &&& final(self)@ == released
                        &&& final(runtime)@ == old(runtime)@
                    },
                    Ok(entries) => if stop & STOP != 0 {
                        &&& announced == Err::<FileManifestMessage, _>(TransferError::Cancelled)
                        &&& final(self)@ == released
                        &&& final(runtime)@ == old(runtime)@
                    } else {
                        match old(runtime)@.next_manifest() {
                            Err(_) => {
                                &&& announced == Err::<FileManifestMessage, _>(
                                    TransferError::Cancelled,
                                )
                                &&& final(self)@ == released
                                &&& final(runtime)@ == old(runtime)@
                            },
                            Ok((meta, after)) => {
                                &&& announced == Ok::<_, TransferError>(
                                    FileManifestMessage::Manifest { meta, transfer },
                                )
                                &&& final(runtime)@ == after
                                &&& final(self)@ == old(self)@.retained(
                                    OutboundRecordModel {
                                        peer,
                                        transfer,
                                        pending: OutboundModel::announced(entries@),
                                    },
                                )
                            },
                        }
                    },
                }
            }),
    {
        match scanned {
            Err(error) => {
                self.release_outbound();
                Err(error)
            },
            Ok(entries) => {
                if stop & STOP != 0 {
                    self.release_outbound();
                    return Err(TransferError::Cancelled);
                }
                match runtime.encode_manifest_frame(transfer) {
                    Err(_) => {
                        self.release_outbound();
                        Err(TransferError::Cancelled)
                    },
                    Ok(message) => {
                        self.retain_outbound(
                            OutboundRecord {
                                peer,
                                transfer,
                                pending: PendingOutboundTransfer::new(entries),
                            },
                        );
                        Ok(message)
                    },
                }
            },
        }
    }

    /// One step of sending to `peer`: the next chunk of the ready source, which
    /// was read from `entry_index` and `offset`, or its terminal marker.
    pub fn pump_outbound(
        &mut self,
        runtime: &mut PeerTransferRuntime,
        peer: DeviceId,
        chunk: Option<(u32, u64)>,
    ) -> (sent: Result<PumpStep, TransferRuntimeError>)
        requires
            old(self).wf(),
            old(runtime).wf(),
        ensures
            final(self).wf(),
            final(runtime).wf(),
            ({
                let ready = ready_place(old(self)@.outbound, peer);
                if ready < 0 {
                    &&& sent == Ok::<_, TransferRuntimeError>(PumpStep::Idle)
                    &&& final(self)@ == old(self)@
                    &&& final(runtime)@ == old(runtime)@
                } else {
                    let transfer = old(self)@.outbound[ready].transfer;
                    match chunk {
                        Some((entry_index, offset)) => {
                            &&& final(self)@ == old(self)@
                            &&& match old(runtime)@.next_data() {
                                Err(error) => {
                                    &&& sent == Err::<PumpStep, _>(error)
                                    &&& final(runtime)@ == old(runtime)@
                                },
                                Ok((meta, after)) => {
                                    &&& sent == Ok::<_, TransferRuntimeError>(
                                        PumpStep::Data(
                                            FileDataMessage::Chunk {
                                                meta,
                                                transfer,
                                                entry_index,
                                                offset,
                                            },
                                        ),
                                    )
                                    &&& final(runtime)@ == after
                                },
                            }
                        },
                        None => {
                            let at = record_place(old(self)@.outbound, peer, transfer);
                            &&& final(self)@ == if at < 0 {
                                old(self)@
                            } else {
                                old(self)@.with_pending(
                                    at,
                                    OutboundModel {
                                        ready: false,
                                        awaiting_completion_ack: true,
                                        ..old(self)@.outbound[at].pending
                                    },
                                )
                            }
                            &&& match old(runtime)@.next_manifest() {
                                Err(error) => {
                                    &&& sent == Err::<PumpStep, _>(error)
                                    &&& final(runtime)@ == old(runtime)@
                                },
                                Ok((meta, after)) => {
                                    &&& sent == Ok::<_, TransferRuntimeError>(
                                        PumpStep::Complete(
                                            FileManifestMessage::Complete { meta, transfer },
                                        ),
                                    )
                                    &&& final(runtime)@ == after
                                },
                            }
                        },
                    }
                }
            }),
    {
        match self.ready_outbound(peer) {
            None => Ok(PumpStep::Idle),
            Some(transfer) => match chunk {
                Some((entry_index, offset)) => match runtime.encode_data_frame(
                    transfer,
                    entry_index,
                    offset,
                ) {
                    Err(error) => Err(error),
                    Ok(message) => Ok(PumpStep::Data(message)),
                },
                None => {
                    self.outbound_ended(peer, transfer);
                    match runtime.encode_complete_frame(transfer) {
                        Err(error) => Err(error),
                        Ok(message) => Ok(PumpStep::Complete(message)),
                    }
                },
            },
        }
    }
}

/// What one step of sending gives.
#[derive(Clone, Copy, Debug, PartialEq, Eq, Structural)]
pub enum PumpStep {
    Idle,
    Data(FileDataMessage),
    Complete(FileManifestMessage),
}

impl<Root> StoreModel<Root> {
    pub open spec fn active_discarded(self, peer: DeviceId, active: Option<TransferId>) -> StoreModel<
        Root,
    > {
        match active {
            None => self,
            Some(transfer) => StoreModel {
                inbound: self.inbound.insert(PeerTransfer { peer, transfer }),
                discard_required: self.discard_required.insert(PeerTransfer { peer, transfer }),
                ..self
            },
        }
    }
}

/// An answer was sent on the response lane, or its error came back.
pub open spec fn answered(
    step: Result<WorkerStep, TransferRuntimeError>,
    before: PeerTransferModel,
    after: PeerTransferModel,
    message: spec_fn(EventMeta) -> FileManifestMessage,
) -> bool {
    match before.next_response() {
        Err(error) => {
            &&& step == Err::<WorkerStep, _>(error)
            &&& after == before
        },
        Ok((meta, expected)) => {
            &&& step == Ok::<_, TransferRuntimeError>(WorkerStep::Send(message(meta)))
            &&& after == expected
        },
    }
}

/// When every entry is held whole, the source goes on at its end, so that no
/// data is sent again.
pub proof fn law_whole_sources_are_not_sent_again(model: OutboundModel)
    requires
        model.entries.len() > 0,
        model.offsets.len() == model.entries.len(),
        forall|i: int|
            0 <= i < model.entries.len() ==> #[trigger] model.offsets[i] == Some(
                match model.entries[i].kind {
                    EntryKind::File => model.entries[i].size,
                    EntryKind::Directory => 0,
                },
            ),
    ensures
        model.resume_point() == Ok::<_, TransferRuntimeError>(
            ResumeStep::Seek {
                entry_index: (model.entries.len() - 1) as u32,
                offset: model.offsets.last()->Some_0,
            },
        ),
{
    lemma_nothing_incomplete(model, model.entries.len() as int);
}

proof fn lemma_nothing_incomplete(model: OutboundModel, upto: int)
    requires
        0 <= upto <= model.entries.len(),
        model.offsets.len() == model.entries.len(),
        forall|i: int|
            0 <= i < model.entries.len() ==> #[trigger] model.offsets[i] == Some(
                match model.entries[i].kind {
                    EntryKind::File => model.entries[i].size,
                    EntryKind::Directory => 0,
                },
            ),
    ensures
        first_incomplete(model.entries, model.offsets, upto) is None,
    decreases upto,
{
    if upto > 0 {
        lemma_nothing_incomplete(model, upto - 1);
        assert(model.offsets[upto - 1] is Some);
    }
}

/// After a peer was revoked nothing of it is retained, and everything that it
/// sent has to be discarded. Other peers keep what they have.
pub proof fn law_revocation_reaches_only_its_peer<Root>(
    before: StoreModel<Root>,
    peer: DeviceId,
    other: DeviceId,
    transfer: TransferId,
)
    requires
        other != peer,
    ensures
        ({
            let after = before.purged(peer).peer_discarded(peer);
            &&& forall|i: int| 0 <= i < after.outbound.len() ==> (#[trigger] after.outbound[i]).peer
                != peer
            &&& before.inbound.contains(PeerTransfer { peer, transfer })
                ==> after.discard_required.contains(PeerTransfer { peer, transfer })
            &&& after.discard_required.contains(PeerTransfer { peer: other, transfer })
                == before.discard_required.contains(PeerTransfer { peer: other, transfer })
            &&& after.inbound == before.inbound
        }),
{
    let kept = |record: OutboundRecordModel| record.peer != peer;
    let after = before.purged(peer).peer_discarded(peer);
    assert forall|i: int| 0 <= i < after.outbound.len() implies (#[trigger] after.outbound[i]).peer
        != peer by {
        before.outbound.lemma_filter_pred(kept, i);
    }
}

proof fn lemma_first_incomplete(entries: Seq<OutboundEntry>, offsets: Seq<Option<u64>>, upto: int)
    requires
        0 <= upto <= entries.len(),
    ensures
        match first_incomplete(entries, offsets, upto) {
            Some(at) => {
                &&& 0 <= at < upto
                &&& incomplete(entries[at], offsets[at])
                &&& forall|i: int|
                    #![trigger entries[i]]
                    #![trigger offsets[i]]
                    0 <= i < at ==> !incomplete(entries[i], offsets[i])
            },
            None => forall|i: int|
                #![trigger entries[i]]
                #![trigger offsets[i]]
                0 <= i < upto ==> !incomplete(entries[i], offsets[i]),
        },
    decreases upto,
{
    if upto > 0 {
        lemma_first_incomplete(entries, offsets, upto - 1);
    }
}

proof fn lemma_some_missing(offsets: Seq<Option<u64>>)
    ensures
        missing(offsets) > 0 ==> exists|i: int|
            0 <= i < offsets.len() && #[trigger] offsets[i] is None,
    decreases offsets.len(),
{
    if offsets.len() > 0 && missing(offsets) > 0 {
        lemma_some_missing(offsets.drop_last());
        if offsets.last() is None {
            assert(offsets[offsets.len() - 1] is None);
        } else {
            let i = choose|i: int|
                0 <= i < offsets.drop_last().len() && #[trigger] offsets.drop_last()[i] is None;
            assert(offsets[i] is None);
        }
    }
}

/// Once every entry was answered, the source goes on at the first file that the
/// receiver does not hold whole, whatever it holds of it, and where every file is
/// whole, at the last entry. It goes on at what the receiver holds of that entry;
/// of the entries behind a file that is not whole the receiver may hold nothing.
pub proof fn law_sources_go_on_at_the_first_gap(model: OutboundModel)
    requires
        0 < model.entries.len() <= 0x1_0000_0000,
        model.offsets.len() == model.entries.len(),
        forall|i: int| 0 <= i < model.offsets.len() ==> #[trigger] model.offsets[i] is Some,
    ensures
        model.resume_point() matches Ok(step) ==> (step matches ResumeStep::Seek {
            entry_index,
            offset,
        } && {
            let at = entry_index as int;
            &&& at < model.entries.len()
            &&& model.offsets[at] == Some(offset)
            &&& forall|i: int|
                #![trigger model.entries[i]]
                #![trigger model.offsets[i]]
                0 <= i < at && model.entries[i].kind is File ==> model.offsets[i] == Some(
                    model.entries[i].size,
                )
            &&& (exists|i: int|
                0 <= i < model.entries.len() && (#[trigger] model.entries[i]).kind is File
                    && model.offsets[i] != Some(model.entries[i].size)) ==> {
                &&& model.entries[at].kind is File
                &&& offset != model.entries[at].size
                &&& forall|i: int| at < i < model.offsets.len() ==> #[trigger] model.offsets[i]
                    == Some(0u64)
            }
            &&& (forall|i: int|
                0 <= i < model.entries.len() && (#[trigger] model.entries[i]).kind is File
                    ==> model.offsets[i] == Some(model.entries[i].size)) ==> at
                == model.entries.len() - 1
        }),
        model.resume_point() matches Err(error) ==> error is Protocol && exists|i: int, j: int|
            0 <= i < j < model.entries.len() && (#[trigger] model.entries[i]).kind is File
                && model.offsets[i] != Some(model.entries[i].size) && #[trigger] model.offsets[j]
                != Some(0u64),
        forall|i: int, j: int|
            0 <= i < j < model.entries.len() && (#[trigger] model.entries[i]).kind is File
                && model.offsets[i] != Some(model.entries[i].size) && (forall|k: int|
                0 <= k < i && (#[trigger] model.entries[k]).kind is File ==> model.offsets[k]
                    == Some(model.entries[k].size)) && #[trigger] model.offsets[j] != Some(0u64)
                ==> model.resume_point() is Err,
{
    let count = model.entries.len() as int;
    lemma_first_incomplete(model.entries, model.offsets, count);
    let first = first_incomplete(model.entries, model.offsets, count);
    if let Some(at) = first {
        assert(incomplete(model.entries[at], model.offsets[at]));
        if out_of_order(model.offsets, at) {
            let j = choose|j: int|
                at < j < model.offsets.len() && #[trigger] model.offsets[j] != Some(0u64);
            assert(0 <= at < j < count && model.entries[at].kind is File && model.offsets[at]
                != Some(model.entries[at].size) && model.offsets[j] != Some(0u64));
        }
    }
    assert forall|i: int, j: int|
        0 <= i < j < count && (#[trigger] model.entries[i]).kind is File && model.offsets[i] != Some(
            model.entries[i].size,
        ) && (forall|k: int|
            0 <= k < i && (#[trigger] model.entries[k]).kind is File ==> model.offsets[k] == Some(
                model.entries[k].size,
            )) && #[trigger] model.offsets[j] != Some(0u64) implies model.resume_point() is Err by {
        assert(incomplete(model.entries[i], model.offsets[i]));
        let at = first->Some_0;
        assert(first is Some);
        assert(at == i) by {
            if at < i {
                assert(model.entries[at].kind is File);
            }
        }
        assert(out_of_order(model.offsets, at));
    }
}

/// An answer is taken once for each entry, and only one that the receiver can
/// hold of it: the whole file at most, and nothing of a directory. Until every
/// entry was answered the source waits.
pub proof fn law_each_entry_is_answered_once(model: OutboundModel, entry_index: u32, offset: u64)
    requires
        model.offsets.len() == model.entries.len(),
    ensures
        ({
            let (after, step) = model.answer(entry_index, offset);
            let at = entry_index as int;
            let fits = {
                &&& !model.ready
                &&& !model.awaiting_completion_ack
                &&& at < model.entries.len()
                &&& model.entries[at].kind is Directory ==> offset == 0
                &&& model.entries[at].kind is File ==> offset <= model.entries[at].size
            };
            &&& !fits ==> after == model && step == Err::<ResumeStep, _>(
                TransferRuntimeError::Protocol,
            )
            &&& fits ==> {
                &&& after.offsets[at] == Some(offset)
                &&& after.offsets.len() == model.offsets.len()
                &&& forall|i: int|
                    0 <= i < model.offsets.len() && i != at ==> #[trigger] after.offsets[i]
                        == model.offsets[i]
                &&& after.entries == model.entries
                &&& after.ready == model.ready
                &&& after.awaiting_completion_ack == model.awaiting_completion_ack
                &&& model.offsets[at] is Some ==> step == Err::<ResumeStep, _>(
                    TransferRuntimeError::Protocol,
                )
            }
            &&& step == Ok::<_, TransferRuntimeError>(ResumeStep::Waiting) ==> exists|i: int|
                0 <= i < after.offsets.len() && #[trigger] after.offsets[i] is None
            &&& fits && model.offsets[at] is None && (exists|i: int|
                0 <= i < after.offsets.len() && #[trigger] after.offsets[i] is None) ==> step
                == Ok::<_, TransferRuntimeError>(ResumeStep::Waiting)
            &&& fits && model.offsets[at] is None && (forall|i: int|
                0 <= i < after.offsets.len() ==> #[trigger] after.offsets[i] is Some) ==> step
                == after.resume_point()
        }),
{
    let (after, step) = model.answer(entry_index, offset);
    lemma_none_missing(after.offsets);
    lemma_some_missing(after.offsets);
}

/// A stop is one bit; giving up what is received, and what is sent, one bit each.
pub proof fn law_stop_requests_are_bits(mode: TransferStopMode)
    ensures
        mode.request() == 1 + (if mode is AbortInbound || mode is AbortAll {
            2int
        } else {
            0
        }) + (if mode is AbortOutbound || mode is AbortAll {
            4int
        } else {
            0
        }),
        STOP == 1,
        ABORT_INBOUND == 2,
        ABORT_OUTBOUND == 4,
{
}

/// A source that is announced has nothing answered, and waits for an answer to
/// each of its entries.
pub proof fn law_announced_sources_wait_for_answers(entries: Seq<OutboundEntry>, i: int)
    requires
        0 <= i < entries.len(),
    ensures
        ({
            let model = OutboundModel::announced(entries);
            &&& model.entries == entries
            &&& model.offsets.len() == entries.len()
            &&& model.offsets[i] is None
            &&& !model.ready
            &&& !model.awaiting_completion_ack
        }),
{
}

proof fn lemma_record_place(
    outbound: Seq<OutboundRecordModel>,
    peer: DeviceId,
    transfer: TransferId,
)
    ensures
        -1 <= record_place(outbound, peer, transfer) < outbound.len(),
        record_place(outbound, peer, transfer) >= 0 ==> outbound[record_place(
            outbound,
            peer,
            transfer,
        )].peer == peer && outbound[record_place(outbound, peer, transfer)].transfer == transfer,
        forall|i: int|
            record_place(outbound, peer, transfer) < i < outbound.len() && 0 <= i ==> !((
            #[trigger] outbound[i]).peer == peer && outbound[i].transfer == transfer),
    decreases outbound.len(),
{
    if outbound.len() > 0 && !(outbound.last().peer == peer && outbound.last().transfer
        == transfer) {
        let rest = outbound.drop_last();
        lemma_record_place(rest, peer, transfer);
        assert forall|i: int|
            record_place(outbound, peer, transfer) < i < outbound.len() && 0 <= i implies !((
        #[trigger] outbound[i]).peer == peer && outbound[i].transfer == transfer) by {
            if i < rest.len() {
                assert(rest[i] == outbound[i]);
            }
        }
    }
}

proof fn lemma_ready_place(outbound: Seq<OutboundRecordModel>, peer: DeviceId)
    ensures
        -1 <= ready_place(outbound, peer) < outbound.len(),
        ready_place(outbound, peer) >= 0 ==> outbound[ready_place(outbound, peer)].peer == peer
            && outbound[ready_place(outbound, peer)].pending.ready,
        forall|i: int|
            0 <= i < outbound.len() && (ready_place(outbound, peer) < 0 || i < ready_place(
                outbound,
                peer,
            )) ==> !((#[trigger] outbound[i]).peer == peer && outbound[i].pending.ready),
    decreases outbound.len(),
{
    if outbound.len() > 0 {
        let rest = outbound.drop_last();
        lemma_ready_place(rest, peer);
        assert forall|i: int|
            0 <= i < outbound.len() && (ready_place(outbound, peer) < 0 || i < ready_place(
                outbound,
                peer,
            )) implies !((#[trigger] outbound[i]).peer == peer && outbound[i].pending.ready) by {
            if i < rest.len() {
                assert(rest[i] == outbound[i]);
            }
        }
    }
}

/// A source is found by its peer and its transfer together; what is sent next is
/// the first source of the peer that is ready. Where there is none, none is found.
pub proof fn law_sources_are_found(
    outbound: Seq<OutboundRecordModel>,
    peer: DeviceId,
    transfer: TransferId,
    i: int,
)
    requires
        0 <= i < outbound.len(),
    ensures
        ({
            let found = record_place(outbound, peer, transfer);
            let next = ready_place(outbound, peer);
            &&& found >= 0 ==> found < outbound.len() && outbound[found].peer == peer
                && outbound[found].transfer == transfer
            &&& outbound[i].peer == peer && outbound[i].transfer == transfer ==> found >= i
            &&& next >= 0 ==> next < outbound.len() && outbound[next].peer == peer
                && outbound[next].pending.ready
            &&& outbound[i].peer == peer && outbound[i].pending.ready ==> 0 <= next <= i
        }),
{
    lemma_record_place(outbound, peer, transfer);
    lemma_ready_place(outbound, peer);
}

/// Completed transfers are remembered once each, in the order in which they came,
/// and the oldest is forgotten where there are more than sixty-four.
pub proof fn law_completed_transfers_are_remembered<Root>(
    store: StoreModel<Root>,
    item: PeerTransfer,
)
    ensures
        store.completed.contains(item) ==> store.remembered(item) == store,
        !store.completed.contains(item) && store.completed.len() < 64 ==> store.remembered(
            item,
        ).completed == store.completed.push(item),
        !store.completed.contains(item) && store.completed.len() >= 64 ==> store.remembered(
            item,
        ).completed == store.completed.push(item).skip(1),
        store.remembered(item).completed.len() <= if store.completed.len() > 64 {
            store.completed.len()
        } else {
            64
        },
        store.remembered(item) == (StoreModel {
            completed: store.remembered(item).completed,
            ..store
        }),
{
}

/// Purging a peer removes its sources, all of them and no others, and gives back
/// their places.
pub proof fn law_purging_removes_a_peers_sources<Root>(
    store: StoreModel<Root>,
    peer: DeviceId,
    record: OutboundRecordModel,
)
    ensures
        store.purged(peer).outbound.contains(record) <==> store.outbound.contains(record)
            && record.peer != peer,
        store.purged(peer).outbound.len() + (store.outbound_slots - store.purged(
            peer,
        ).outbound_slots) == store.outbound.len(),
        store.purged(peer) == (StoreModel {
            outbound: store.purged(peer).outbound,
            outbound_slots: store.purged(peer).outbound_slots,
            ..store
        }),
{
    let kept = |r: OutboundRecordModel| r.peer != peer;
    let gone = |r: OutboundRecordModel| r.peer == peer;
    let after = store.outbound.filter(kept);
    if store.outbound.contains(record) && record.peer != peer {
        let i = choose|i: int| 0 <= i < store.outbound.len() && store.outbound[i] == record;
        store.outbound.lemma_filter_contains(kept, i);
    }
    if after.contains(record) {
        let i = choose|i: int| 0 <= i < after.len() && after[i] == record;
        store.outbound.lemma_filter_pred(kept, i);
        store.outbound.lemma_filter_contains_rev(kept, after[i]);
    }
    lemma_peer_parts(store.outbound, peer);
}

proof fn lemma_peer_parts(outbound: Seq<OutboundRecordModel>, peer: DeviceId)
    ensures
        outbound.filter(|r: OutboundRecordModel| r.peer != peer).len() + outbound.filter(
            |r: OutboundRecordModel| r.peer == peer,
        ).len() == outbound.len(),
    decreases outbound.len(),
{
    reveal(Seq::filter);
    if outbound.len() > 0 {
        lemma_peer_parts(outbound.drop_last(), peer);
    }
}

/// A source that is kept stands in the place of one of the same name, and else
/// last; the others stay.
pub proof fn law_kept_sources_stand_once<Root>(
    store: StoreModel<Root>,
    record: OutboundRecordModel,
    i: int,
)
    ensures
        ({
            let after = store.retained(record);
            let known = exists|k: int|
                0 <= k < store.outbound.len() && (#[trigger] store.outbound[k]).peer == record.peer
                    && store.outbound[k].transfer == record.transfer;
            &&& !known ==> after.outbound == store.outbound.push(record)
            &&& known ==> after.outbound.len() == store.outbound.len() && after.outbound.contains(
                record,
            )
            &&& 0 <= i < store.outbound.len() && !(store.outbound[i].peer == record.peer
                && store.outbound[i].transfer == record.transfer) ==> after.outbound[i]
                == store.outbound[i]
            &&& after == (StoreModel { outbound: after.outbound, ..store })
        }),
{
    lemma_record_place(store.outbound, record.peer, record.transfer);
    let at = record_place(store.outbound, record.peer, record.transfer);
    if at >= 0 {
        assert(store.outbound[at].peer == record.peer);
        assert(store.outbound.update(at, record)[at] == record);
    }
}

/// Discarding a peer marks everything that was received of it, and of no other;
/// what was marked stays marked. Discarding what is being received marks that too.
pub proof fn law_discarding_marks_what_was_received<Root>(
    store: StoreModel<Root>,
    peer: DeviceId,
    item: PeerTransfer,
    active: TransferId,
)
    ensures
        store.peer_discarded(peer).discard_required.contains(item) <==> {
            ||| store.discard_required.contains(item)
            ||| store.inbound.contains(item) && item.peer == peer
        },
        store.peer_discarded(peer).inbound == store.inbound,
        ({
            let after = store.active_discarded(peer, Some(active));
            &&& after.discard_required.contains(item) <==> store.discard_required.contains(item)
                || item == (PeerTransfer { peer, transfer: active })
            &&& after.inbound.contains(item) <==> store.inbound.contains(item) || item == (
            PeerTransfer { peer, transfer: active })
        }),
        store.active_discarded(peer, None) == store,
{
}

/// When a peer is met again its sources are announced anew, and only its own.
pub proof fn law_sources_are_announced_anew(record: OutboundRecordModel, peer: DeviceId)
    ensures
        record.peer == peer ==> {
            let after = reannounced(record, peer);
            &&& after.peer == peer
            &&& after.transfer == record.transfer
            &&& after.pending.entries == record.pending.entries
            &&& !after.pending.ready
            &&& !after.pending.awaiting_completion_ack
            &&& forall|i: int|
                0 <= i < record.pending.entries.len() ==> #[trigger] after.pending.offsets[i]
                    is None
        },
        record.peer != peer ==> reannounced(record, peer) == record,
{
}

/// An answer goes out with the next number of the lane of answers, or the reason
/// why there is none comes back and nothing has moved.
pub proof fn law_answers_take_the_next_number(
    step: Result<WorkerStep, TransferRuntimeError>,
    before: PeerTransferModel,
    after: PeerTransferModel,
    message: spec_fn(EventMeta) -> FileManifestMessage,
)
    requires
        answered(step, before, after, message),
    ensures
        step matches Err(error) ==> after == before && (before.next_response() matches Err(cause)
            && cause == error),
        step is Ok ==> (before.next_response() matches Ok((meta, next)) && step == Ok::<
            _,
            TransferRuntimeError,
        >(WorkerStep::Send(message(meta))) && after == next),
{
}

/// Where nothing is missing, the point at which `resume_point` lets a source go
/// on is the first file that the receiver does not hold whole, a file of which
/// it holds nothing being no exception.
proof fn law_resume_points_pass_over_no_file(
    pending: PendingOutboundTransfer,
    point: Result<ResumeStep, TransferRuntimeError>,
    at: int,
)
    requires
        pending.wf(),
        0 < pending@.entries.len() <= 0x1_0000_0000,
        pending@.offsets.len() == pending@.entries.len(),
        forall|i: int| 0 <= i < pending@.offsets.len() ==> #[trigger] pending@.offsets[i] is Some,
        call_ensures(PendingOutboundTransfer::resume_point, (&pending,), point),
        0 <= at < pending@.entries.len(),
        pending@.entries[at].kind is File,
        pending@.offsets[at] != Some(pending@.entries[at].size),
        forall|i: int|
            0 <= i < at && (#[trigger] pending@.entries[i]).kind is File ==> pending@.offsets[i]
                == Some(pending@.entries[i].size),
        forall|i: int| at < i < pending@.offsets.len() ==> #[trigger] pending@.offsets[i] == Some(
            0u64,
        ),
    ensures
        point matches Ok(ResumeStep::Seek { entry_index, offset }) && entry_index == at
            && pending@.offsets[at] == Some(offset),
{
    law_sources_go_on_at_the_first_gap(pending@);
    assert(pending@.entries[at].kind is File);
    if point is Ok {
        let found = point->Ok_0->entry_index as int;
        assert(pending@.entries[found].kind is File);
        assert(pending@.offsets[found] == Some(point->Ok_0->offset));
    }
}

/// A source takes a slot when it is chosen and gives it back when it is
/// removed; no more sources are chosen than there are slots, and none once the
/// store is spoilt.
pub proof fn law_slots_are_taken_and_given_back<Root>(
    store: &mut TransferStore<Root>,
    reserved: Result<(), TransferError>,
    later: &mut TransferStore<Root>,
    peer: DeviceId,
    transfer: TransferId,
    removed: bool,
)
    requires
        call_ensures(TransferStore::<Root>::reserve_outbound, (store,), reserved),
        call_ensures(TransferStore::<Root>::remove_outbound, (later, peer, transfer), removed),
    ensures
        reserved is Ok <==> !old(store)@.poisoned && old(store)@.outbound_slots
            < MAX_PENDING_OUTBOUND_TRANSFERS,
        reserved is Ok ==> final(store)@.outbound_slots == old(store)@.outbound_slots + 1,
        reserved is Err ==> final(store)@ == old(store)@,
        reserved matches Err(error) ==> (error is Platform <==> old(store)@.poisoned),
        reserved matches Err(error) ==> (error is QueueFull <==> !old(store)@.poisoned),
        final(store)@.outbound == old(store)@.outbound,
        removed ==> final(later)@.outbound_slots == old(later)@.outbound_slots - 1,
        removed ==> final(later)@.outbound.len() == old(later)@.outbound.len() - 1,
        !removed ==> final(later)@ == old(later)@,
        removed <==> exists|i: int|
            0 <= i < old(later)@.outbound.len() && (#[trigger] old(later)@.outbound[i]).peer == peer
                && old(later)@.outbound[i].transfer == transfer,
        final(later)@.inbound == old(later)@.inbound,
        final(later)@.poisoned == old(later)@.poisoned,
{
    lemma_record_place(old(later)@.outbound, peer, transfer);
}

/// A transfer that completes is no longer received and no longer to be
/// discarded; one that is cancelled is to be discarded. One that starts is
/// received. Nobody else's transfers are touched.
pub proof fn law_effects_keep_the_store_in_step<Root>(
    store: &mut TransferStore<Root>,
    runtime: &mut PeerTransferRuntime,
    peer: DeviceId,
    effect: TransferRuntimeEffect,
    step: Result<WorkerStep, TransferRuntimeError>,
    other: PeerTransfer,
)
    requires
        call_ensures(TransferStore::<Root>::apply_effect, (store, runtime, peer, effect), step),
    ensures
        effect matches TransferRuntimeEffect::Completed { transfer } ==> {
            &&& !final(store)@.inbound.contains(PeerTransfer { peer, transfer })
            &&& !final(store)@.discard_required.contains(PeerTransfer { peer, transfer })
            &&& step == Ok::<_, TransferRuntimeError>(WorkerStep::RemoveTerminal(transfer))
        },
        effect matches TransferRuntimeEffect::Cancelled { transfer } ==> {
            &&& final(store)@.inbound.contains(PeerTransfer { peer, transfer })
            &&& final(store)@.discard_required.contains(PeerTransfer { peer, transfer })
        },
        effect matches TransferRuntimeEffect::Started { transfer } ==> {
            &&& final(store)@.inbound.contains(PeerTransfer { peer, transfer })
            &&& final(store)@.discard_required == old(store)@.discard_required
        },
        effect matches TransferRuntimeEffect::FinalizeRequired { transfer } ==> step == Ok::<
            _,
            TransferRuntimeError,
        >(WorkerStep::Finalize(transfer)),
        effect is AdvanceQueue ==> (step matches Ok(WorkerStep::AdvanceQueue)),
        effect is PeerCompleteAcknowledged || effect is PeerCancelRequested ==> (step is Ok
            ==> final(store)@.outbound.len() == old(store)@.outbound.len() - 1
            && final(store)@.outbound_slots == old(store)@.outbound_slots - 1),
        other.peer != peer ==> {
            &&& final(store)@.inbound.contains(other) == old(store)@.inbound.contains(other)
            &&& final(store)@.discard_required.contains(other)
                == old(store)@.discard_required.contains(other)
        },
        final(store)@.poisoned == old(store)@.poisoned,
{
    if let TransferRuntimeEffect::PeerCompleteAcknowledged { transfer } = effect {
        lemma_record_place(old(store)@.outbound, peer, transfer);
    }
    if let TransferRuntimeEffect::PeerCancelRequested { transfer } = effect {
        lemma_record_place(old(store)@.outbound, peer, transfer);
    }
}

/// A request of the receiver that a file be refused, resumed or acknowledged is
/// answered by the message of its kind.
pub proof fn law_requests_are_answered_in_kind<Root>(
    store: &mut TransferStore<Root>,
    runtime: &mut PeerTransferRuntime,
    peer: DeviceId,
    effect: TransferRuntimeEffect,
    step: Result<WorkerStep, TransferRuntimeError>,
)
    requires
        call_ensures(TransferStore::<Root>::apply_effect, (store, runtime, peer, effect), step),
    ensures
        step matches Ok(WorkerStep::Send(message)) ==> {
            &&& final(store)@ == old(store)@
            &&& effect is CompletionAcknowledgementRequired || effect is ResumeRequired
                || effect is QueueSaturated || effect is RejectionAcknowledgementRequired
            &&& effect matches TransferRuntimeEffect::CompletionAcknowledgementRequired {
                transfer: of,
            } ==> (message matches FileManifestMessage::Complete { transfer, .. } && transfer == of)
            &&& effect matches TransferRuntimeEffect::ResumeRequired {
                transfer: of,
                entry_index: entry,
                offset: from,
            } ==> (message matches FileManifestMessage::Resume {
                transfer,
                entry_index,
                offset,
                ..
            } && transfer == of && entry_index == entry && offset == from)
            &&& effect matches TransferRuntimeEffect::QueueSaturated { transfer: of } ==> (
            message matches FileManifestMessage::Cancel { transfer, .. } && transfer == of)
        },
{
}

/// A worker that is stopped gives up what it is asked to give up and nothing
/// else: what comes in, what goes out, both or neither.
pub proof fn law_stopped_workers_give_up_what_is_asked<Root>(
    store: &mut TransferStore<Root>,
    runtime: &mut PeerTransferRuntime,
    peer: DeviceId,
    stop: u8,
    active: Option<TransferId>,
    removed: Vec<TransferId>,
)
    requires
        call_ensures(
            TransferStore::<Root>::stop_worker,
            (store, runtime, peer, stop, active),
            removed,
        ),
    ensures
        stop & ABORT_INBOUND == 0 ==> final(runtime)@ == old(runtime)@
            && final(store)@.discard_required == old(store)@.discard_required,
        stop & ABORT_OUTBOUND == 0 ==> removed@.len() == 0 && final(store)@.outbound
            == old(store)@.outbound,
        stop & ABORT_OUTBOUND == 0 && stop & ABORT_INBOUND == 0 ==> final(store)@ == old(store)@,
{
}

/// A store is cleaned only while no worker runs, one cleaning at a time, and
/// what is to be discarded stays so until it was discarded.
pub proof fn law_cleaning_waits_for_workers<Root>(
    store: &mut TransferStore<Root>,
    peer: DeviceId,
    step: Result<CleanupStep, TransferError>,
)
    requires
        call_ensures(TransferStore::<Root>::begin_cleanup, (store, peer), step),
    ensures
        old(store)@.active_workers != 0 || old(store)@.cleanup_in_progress ==> (step matches Ok(
            CleanupStep::Done(TransferCleanupState::Pending),
        )),
        (step matches Ok(CleanupStep::Done(TransferCleanupState::Complete))) ==> old(
            store,
        )@.active_workers == 0 && !old(store)@.cleanup_in_progress,
        (step matches Ok(CleanupStep::Done(TransferCleanupState::Complete))) ==> !old(
            store,
        )@.poisoned,
        step matches Ok(CleanupStep::Discard(ids)) ==> lists_peer(
            ids@,
            old(store)@.discard_required,
            peer,
        ),
        (step matches Ok(CleanupStep::Discard(_))) <==> final(store)@.cleanup_in_progress
            && !old(store)@.cleanup_in_progress,
        step is Err ==> final(store)@.poisoned,
        final(store)@.discard_required == old(store)@.discard_required,
        final(store)@.inbound == old(store)@.inbound,
{
}

/// Only what was discarded is forgotten, and a store that could not discard is
/// spoilt.
pub proof fn law_cleaning_forgets_what_was_discarded<Root>(
    store: &mut TransferStore<Root>,
    peer: DeviceId,
    ids: Vec<TransferId>,
    discarded: Result<(), TransferError>,
    done: Result<TransferCleanupState, TransferError>,
    item: PeerTransfer,
)
    requires
        call_ensures(
            TransferStore::<Root>::finish_cleanup,
            (store, peer, &ids, discarded),
            done,
        ),
    ensures
        !final(store)@.cleanup_in_progress,
        discarded is Err ==> final(store)@.poisoned && done is Err,
        discarded matches Err(error) ==> done == Err::<TransferCleanupState, _>(error),
        discarded is Err ==> final(store)@.discard_required == old(store)@.discard_required,
        discarded is Ok ==> final(store)@.poisoned == old(store)@.poisoned,
        discarded is Ok ==> (done is Ok <==> !old(store)@.poisoned),
        done matches Ok(state) ==> state is Complete,
        discarded is Ok ==> (final(store)@.discard_required.contains(item) <==> old(
            store,
        )@.discard_required.contains(item) && (item.peer != peer || !ids@.contains(
            item.transfer,
        ))),
        discarded is Ok ==> (final(store)@.inbound.contains(item) <==> old(
            store,
        )@.inbound.contains(item) && (item.peer != peer || !ids@.contains(item.transfer))),
{
}

/// Data is sent of a source that is ready, at the place that was read; the end
/// of a source is told once, and then the receiver is waited for.
pub proof fn law_ready_sources_are_pumped<Root>(
    store: &mut TransferStore<Root>,
    runtime: &mut PeerTransferRuntime,
    peer: DeviceId,
    chunk: Option<(u32, u64)>,
    sent: Result<PumpStep, TransferRuntimeError>,
)
    requires
        call_ensures(TransferStore::<Root>::pump_outbound, (store, runtime, peer, chunk), sent),
    ensures
        sent matches Ok(PumpStep::Data(message)) ==> (message matches FileDataMessage::Chunk {
            entry_index,
            offset,
            ..
        } && chunk == Some((entry_index, offset))),
        sent matches Ok(PumpStep::Data(_)) ==> final(store)@ == old(store)@,
        sent matches Ok(PumpStep::Complete(message)) ==> message is Complete && chunk is None,
        sent matches Ok(PumpStep::Idle) ==> final(store)@ == old(store)@ && final(runtime)@
            == old(runtime)@,
        sent is Err ==> final(runtime)@ == old(runtime)@,
        final(store)@.outbound.len() == old(store)@.outbound.len(),
        final(store)@.outbound_slots == old(store)@.outbound_slots,
{
    let outbound = old(store)@.outbound;
    lemma_ready_place(outbound, peer);
    let ready = ready_place(outbound, peer);
    if ready >= 0 {
        lemma_record_place(outbound, peer, outbound[ready].transfer);
    }
}

/// A source that could not be announced gives its slot back; one that could is
/// kept under its peer and its identity.
pub proof fn law_scanned_sources_are_kept_or_released<Root>(
    store: &mut TransferStore<Root>,
    runtime: &mut PeerTransferRuntime,
    peer: DeviceId,
    transfer: TransferId,
    scanned: Result<Vec<OutboundEntry>, TransferError>,
    stop: u8,
    announced: Result<FileManifestMessage, TransferError>,
)
    requires
        call_ensures(
            TransferStore::<Root>::source_scanned,
            (store, runtime, peer, transfer, scanned, stop),
            announced,
        ),
    ensures
        announced is Err ==> final(store)@.outbound_slots == old(store)@.outbound_slots - 1
            && final(store)@.outbound == old(store)@.outbound && final(runtime)@
            == old(runtime)@,
        announced matches Ok(message) ==> (message matches FileManifestMessage::Manifest {
            transfer: named,
            ..
        } && named == transfer),
        announced is Ok ==> scanned is Ok && stop & STOP == 0,
        scanned matches Err(error) ==> announced == Err::<FileManifestMessage, _>(error),
        scanned is Ok ==> (announced matches Err(error) ==> error is Cancelled),
{
}

/// A failed worker gives everything up, and spoils the store only where the
/// platform failed.
pub proof fn law_failed_workers_give_everything_up<Root>(
    store: &mut TransferStore<Root>,
    stop: u8,
    error: TransferRuntimeError,
    all: u8,
)
    requires
        call_ensures(TransferStore::<Root>::fail_worker, (store, stop, error), all),
    ensures
        all & STOP != 0,
        all & ABORT_INBOUND != 0,
        all & ABORT_OUTBOUND != 0,
        !old(store)@.poisoned ==> (final(store)@.poisoned <==> (error matches
            TransferRuntimeError::Transfer(TransferError::Platform))),
        old(store)@.poisoned ==> final(store)@.poisoned,
        final(store)@.outbound == old(store)@.outbound,
{
}

/// A root that differs from the known one spoils the store.
pub proof fn law_one_root_is_staged_in<Root>(
    store: &mut TransferStore<Root>,
    root: Root,
    is_known: bool,
    durable: bool,
    done: Result<(), TransferError>,
)
    requires
        call_ensures(
            TransferStore::<Root>::register_staging_root,
            (store, root, is_known, durable),
            done,
        ),
    ensures
        done is Err <==> old(store)@.staging_root is Some && !is_known,
        done is Err ==> final(store)@.poisoned && final(store)@.staging_root
            == old(store)@.staging_root,
        done matches Err(error) ==> error is Platform,
        done is Ok ==> final(store)@.staging_root == Some(root) && final(store)@.poisoned
            == old(store)@.poisoned && final(store)@.directory_entry_crash_durable == durable,
{
}

/// A worker that runs is counted from its start to its end.
pub proof fn law_workers_are_counted<Root>(
    store: &mut TransferStore<Root>,
    later: &mut TransferStore<Root>,
)
    requires
        call_ensures(TransferStore::<Root>::worker_started, (store,), ()),
        call_ensures(TransferStore::<Root>::worker_finished, (later,), ()),
    ensures
        final(store)@.active_workers > 0,
        old(store)@.active_workers < usize::MAX ==> final(store)@.active_workers
            == old(store)@.active_workers + 1,
        old(later)@.active_workers > 0 ==> final(later)@.active_workers
            == old(later)@.active_workers - 1,
        old(later)@.active_workers == 0 ==> final(later)@.active_workers == 0,
        final(store)@.outbound == old(store)@.outbound,
        final(later)@.outbound == old(later)@.outbound,
{
}

/// A worker that is to stop cleans up before anything else, and does what is
/// pending before it takes more. A full or spoilt one takes no frame.
pub proof fn law_workers_clean_up_first<Root>(
    store: TransferStore<Root>,
    stop: u8,
    pending_effects: usize,
    turn: WorkerTurn,
    full: bool,
    accepted: Result<(), TransferRuntimeError>,
)
    requires
        call_ensures(worker_turn, (stop, pending_effects), turn),
        call_ensures(TransferStore::<Root>::frame_accepted, (&store, full), accepted),
    ensures
        turn is Cleanup <==> stop & STOP != 0,
        turn is Effects <==> stop & STOP == 0 && pending_effects != 0,
        turn is Receive <==> stop & STOP == 0 && pending_effects == 0,
        accepted is Ok <==> !store@.poisoned && !full,
        accepted matches Err(error) ==> (error is Backpressure <==> !store@.poisoned),
{
}

} // verus!
