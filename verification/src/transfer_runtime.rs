//! Authenticated, bounded receive-side file-transfer coordination.
//!
//! Manifest, response and data frames keep independent replay lanes: channels
//! are delivered independently, so one shared watermark would reject valid
//! traffic or let a replay in. The transfer queue and the staging receiver work
//! outside; what they answer comes in as arguments, and what they have to do
//! next goes out as steps.

use vstd::prelude::*;
use crate::grants::{is_next_epoch, Capability, EventMeta};
use crate::id_set::{ascending, IdSet};
use crate::identifiers::{DeviceId, SessionId, TransferId};

verus! {

pub const MAX_COMPLETED_INBOUND_TOMBSTONES: usize = 4096;

pub const MAX_REJECTED_INBOUND_TOMBSTONES: usize = 8192;

pub const MAX_CANCELLED_OUTBOUND_TOMBSTONES: usize = 4096;

/// How the transfer queue or the staging area failed.
#[derive(Clone, Copy, Debug, PartialEq, Eq, Structural)]
pub enum TransferError {
    Platform,
    DestinationExists,
    IntegrityMismatch,
    QueueFull,
    Cancelled,
    TransferNotActive,
    Other,
}

#[derive(Clone, Copy, Debug, PartialEq, Eq, Structural)]
pub enum TransferRuntimeError {
    /// A frame or a conversion failed validation.
    Protocol,
    /// Metadata does not match the authenticated peer session.
    Authentication,
    /// The peer does not hold the required grant.
    GrantDenied,
    /// A sequence number is zero, replayed or out of order.
    Replay,
    /// A bounded owner is full.
    Backpressure,
    /// The outgoing sequence space is used up.
    SequenceExhausted,
    /// A persisted resume lacks a supported durability guarantee.
    ResumeDurabilityUnsupported,
    Transfer(TransferError),
}

/// Filename-free actions for the session.
#[derive(Clone, Copy, Debug, PartialEq, Eq, Structural)]
pub enum TransferRuntimeEffect {
    Admitted { transfer: TransferId, total_bytes: u64 },
    Started { transfer: TransferId },
    Progress { transfer: TransferId, completed_bytes: u64, total_bytes: u64 },
    /// Stop polling this transfer's data until `BackpressureReleased`.
    Backpressured { transfer: TransferId },
    BackpressureReleased { transfer: TransferId },
    /// The manifest was not kept because the bounded queue is full.
    QueueSaturated { transfer: TransferId },
    /// Send this offset to accept data from there.
    ResumeRequired { transfer: TransferId, entry_index: u32, offset: u64 },
    Completed { transfer: TransferId },
    /// All bytes and the peer's terminal marker are there.
    FinalizeRequired { transfer: TransferId },
    Cancelled { transfer: TransferId },
    PeerResumeRequested { transfer: TransferId, entry_index: u32, offset: u64 },
    PeerCancelRequested { transfer: TransferId },
    PeerCompleteAcknowledged { transfer: TransferId },
    /// Say again that a transfer was published.
    CompletionAcknowledgementRequired { transfer: TransferId },
    RejectionAcknowledgementRequired { transfer: TransferId },
    AdvanceQueue,
}

#[derive(Clone, Copy, Debug, PartialEq, Eq, Structural)]
pub enum TransferQueueState {
    Queued,
    Active,
    Paused,
    Terminal,
}

/// What the transfer queue asks for.
#[derive(Clone, Copy, Debug, PartialEq, Eq, Structural)]
pub enum QueueEffect {
    Start(TransferId),
    Cancel(TransferId),
    Pause(TransferId),
}

/// A message on the manifest channel. The entries of a manifest stay outside.
#[derive(Clone, Copy, Debug, PartialEq, Eq, Structural)]
pub enum FileManifestMessage {
    Manifest { meta: EventMeta, transfer: TransferId },
    Resume { meta: EventMeta, transfer: TransferId, entry_index: u32, offset: u64 },
    Cancel { meta: EventMeta, transfer: TransferId, reason: u16 },
    Complete { meta: EventMeta, transfer: TransferId },
    Unknown,
}

/// A message on the data channel. The bytes of a chunk stay outside.
#[derive(Clone, Copy, Debug, PartialEq, Eq, Structural)]
pub enum FileDataMessage {
    Chunk { meta: EventMeta, transfer: TransferId, entry_index: u32, offset: u64 },
    Unknown,
}

/// Durable progress of the transfer that is being received.
#[derive(Clone, Copy, Debug, PartialEq, Eq, Structural)]
pub struct ReceiveProgress {
    pub completed_bytes: u64,
    pub total_bytes: u64,
}

/// What a manifest-channel message leads to.
#[derive(Clone, Copy, Debug, PartialEq, Eq, Structural)]
pub enum ManifestStep {
    /// Nothing, or one effect.
    Effect(Option<TransferRuntimeEffect>),
    /// The entries have to be checked; then `open_manifest` says how to go on.
    Open(TransferId),
    /// A queued or active transfer has to be cancelled: the receiver too, if it
    /// is the active one. Then `inbound_cancelled` goes on.
    Cancel { transfer: TransferId, active: bool },
}

/// What a data-channel message leads to.
#[derive(Clone, Copy, Debug, PartialEq, Eq, Structural)]
pub enum DataStep {
    /// The transfer is over; the chunk is dropped.
    Ignore,
    /// The chunk has to be written; then `data_written` goes on.
    Write(TransferId),
}

/// How a manifest that was announced is taken in.
#[derive(Clone, Copy, Debug, PartialEq, Eq, Structural)]
pub enum OpenManifest {
    Resume,
    Enqueue,
}

#[derive(Clone, Copy, Debug, PartialEq, Eq, Structural)]
pub enum SequenceLane {
    Manifest,
    Data,
}

#[derive(Clone, Copy, Debug, PartialEq, Eq, Structural)]
pub struct PeerTransferConfig {
    pub local_device: DeviceId,
    pub peer_device: DeviceId,
    pub session_id: SessionId,
    pub local_grant_epoch: u64,
    pub peer_grant_epoch: u64,
    pub local_allows_peer_transfer: bool,
    pub peer_capabilities: Capability,
}

/// A manifest that waits for its turn.
#[derive(Clone, Copy, Debug, PartialEq, Eq, Structural)]
pub struct PendingManifest {
    pub transfer: TransferId,
    pub entry_count: usize,
}

pub struct PeerTransferModel {
    pub config: PeerTransferConfig,
    pub pending: Seq<PendingManifest>,
    pub pending_completion: Set<u128>,
    pub completed: Set<u128>,
    pub rejected: Set<u128>,
    pub cancelled_outbound: Set<u128>,
    pub known_persisted: Set<u128>,
    pub allow_untracked: bool,
    pub backpressured: Set<u128>,
    pub deferred: Seq<QueueEffect>,
    pub manifest_sequence: Option<u64>,
    pub resume_sequence: Option<u64>,
    pub data_sequence: Option<u64>,
    pub outbound_manifest_sequence: u64,
    pub outbound_resume_sequence: u64,
    pub outbound_data_sequence: u64,
}

/// A sequence number that is not zero and above the last one of its lane.
pub open spec fn advances(last: Option<u64>, sequence: u64) -> bool {
    sequence != 0 && (last matches Some(value) ==> sequence > value)
}

pub open spec fn pending_place(pending: Seq<PendingManifest>, transfer: TransferId) -> int
    decreases pending.len(),
{
    if pending.len() == 0 {
        -1
    } else if pending.last().transfer == transfer {
        pending.len() - 1
    } else {
        pending_place(pending.drop_last(), transfer)
    }
}

/// The manifests that wait, with `new` in the place of one of the same transfer.
pub open spec fn with_pending(pending: Seq<PendingManifest>, new: PendingManifest) -> Seq<
    PendingManifest,
> {
    let at = pending_place(pending, new.transfer);
    if at < 0 {
        pending.push(new)
    } else {
        pending.update(at, new)
    }
}

pub open spec fn without_pending(
    pending: Seq<PendingManifest>,
    transfer: TransferId,
) -> Seq<PendingManifest> {
    let at = pending_place(pending, transfer);
    if at < 0 {
        pending
    } else {
        pending.remove(at)
    }
}

impl PeerTransferModel {
    /// Checks the metadata of a message that starts something on this side.
    pub open spec fn remote_meta_error(self, meta: EventMeta, last: Option<u64>) -> Option<
        TransferRuntimeError,
    > {
        if meta.session_id != self.config.session_id || meta.origin != self.config.peer_device
            || meta.grant_epoch != self.config.local_grant_epoch {
            Some(TransferRuntimeError::Authentication)
        } else if meta.capability != Capability::file_transfer_only()
            || !self.config.local_allows_peer_transfer {
            Some(TransferRuntimeError::GrantDenied)
        } else if !advances(last, meta.sequence) {
            Some(TransferRuntimeError::Replay)
        } else {
            None
        }
    }

    /// Checks the metadata of a message that answers something of this side.
    pub open spec fn response_meta_error(self, meta: EventMeta) -> Option<TransferRuntimeError> {
        if meta.session_id != self.config.session_id || meta.origin != self.config.peer_device
            || meta.grant_epoch != self.config.peer_grant_epoch {
            Some(TransferRuntimeError::Authentication)
        } else if meta.capability != Capability::file_transfer_only()
            || !self.config.peer_capabilities.file_transfer {
            Some(TransferRuntimeError::GrantDenied)
        } else if !advances(self.resume_sequence, meta.sequence) {
            Some(TransferRuntimeError::Replay)
        } else {
            None
        }
    }

    pub open spec fn lane(self, lane: SequenceLane) -> Option<u64> {
        match lane {
            SequenceLane::Manifest => self.manifest_sequence,
            SequenceLane::Data => self.data_sequence,
        }
    }

    pub open spec fn with_lane(self, lane: SequenceLane, sequence: u64) -> PeerTransferModel {
        match lane {
            SequenceLane::Manifest => PeerTransferModel {
                manifest_sequence: Some(sequence),
                ..self
            },
            SequenceLane::Data => PeerTransferModel { data_sequence: Some(sequence), ..self },
        }
    }

    /// A transfer that this side neither queues nor has ended.
    pub open spec fn foreign(self, transfer: TransferId, queued: bool) -> bool {
        !queued && !self.rejected.contains(transfer.value) && !self.completed.contains(
            transfer.value,
        )
    }

    /// The state after the metadata of a message was checked.
    pub open spec fn checked(self, message: FileManifestMessage, queued: bool) -> Result<
        PeerTransferModel,
        TransferRuntimeError,
    > {
        let starts = |meta: EventMeta| match self.remote_meta_error(meta, self.manifest_sequence) {
            Some(error) => Err(error),
            None => Ok(self.with_lane(SequenceLane::Manifest, meta.sequence)),
        };
        let answers = |meta: EventMeta| match self.response_meta_error(meta) {
            Some(error) => Err(error),
            None => Ok(PeerTransferModel { resume_sequence: Some(meta.sequence), ..self }),
        };
        match message {
            FileManifestMessage::Unknown => Err(TransferRuntimeError::Protocol),
            FileManifestMessage::Manifest { meta, .. } => starts(meta),
            FileManifestMessage::Resume { meta, .. } => answers(meta),
            FileManifestMessage::Cancel { meta, transfer, .. }
            | FileManifestMessage::Complete { meta, transfer } => if transfer.value == 0 {
                Err(TransferRuntimeError::Protocol)
            } else if self.foreign(transfer, queued) {
                answers(meta)
            } else {
                starts(meta)
            },
        }
    }

    /// What a checked message leads to.
    pub open spec fn step(
        self,
        message: FileManifestMessage,
        state: Option<TransferQueueState>,
        progress: Option<ReceiveProgress>,
    ) -> Result<ManifestStep, TransferRuntimeError> {
        match message {
            FileManifestMessage::Unknown => Err(TransferRuntimeError::Protocol),
            FileManifestMessage::Manifest { transfer, .. } => if transfer.value == 0 {
                Err(TransferRuntimeError::Protocol)
            } else if self.completed.contains(transfer.value) {
                Ok(
                    ManifestStep::Effect(
                        Some(TransferRuntimeEffect::CompletionAcknowledgementRequired { transfer }),
                    ),
                )
            } else if self.rejected.contains(transfer.value) {
                Ok(
                    ManifestStep::Effect(
                        Some(TransferRuntimeEffect::RejectionAcknowledgementRequired { transfer }),
                    ),
                )
            } else {
                Ok(ManifestStep::Open(transfer))
            },
            FileManifestMessage::Resume { transfer, entry_index, offset, .. } => if transfer.value
                == 0 {
                Err(TransferRuntimeError::Protocol)
            } else if self.cancelled_outbound.contains(transfer.value) {
                Ok(ManifestStep::Effect(None))
            } else {
                Ok(
                    ManifestStep::Effect(
                        Some(
                            TransferRuntimeEffect::PeerResumeRequested {
                                transfer,
                                entry_index,
                                offset,
                            },
                        ),
                    ),
                )
            },
            FileManifestMessage::Cancel { transfer, .. } => if transfer.value == 0 {
                Err(TransferRuntimeError::Protocol)
            } else if self.rejected.contains(transfer.value) {
                Ok(ManifestStep::Effect(None))
            } else if self.completed.contains(transfer.value) {
                Ok(
                    ManifestStep::Effect(
                        Some(TransferRuntimeEffect::CompletionAcknowledgementRequired { transfer }),
                    ),
                )
            } else {
                match state {
                    Some(known) => self.cancel_step(transfer, known),
                    None => if self.cancelled_outbound.contains(transfer.value) {
                        Ok(ManifestStep::Effect(None))
                    } else {
                        Ok(
                            ManifestStep::Effect(
                                Some(TransferRuntimeEffect::PeerCancelRequested { transfer }),
                            ),
                        )
                    },
                }
            },
            FileManifestMessage::Complete { transfer, .. } => if transfer.value == 0 {
                Err(TransferRuntimeError::Protocol)
            } else if self.rejected.contains(transfer.value) {
                Ok(
                    ManifestStep::Effect(
                        Some(TransferRuntimeEffect::RejectionAcknowledgementRequired { transfer }),
                    ),
                )
            } else if self.completed.contains(transfer.value) {
                Ok(
                    ManifestStep::Effect(
                        Some(TransferRuntimeEffect::CompletionAcknowledgementRequired { transfer }),
                    ),
                )
            } else {
                match state {
                    Some(known) => if known != TransferQueueState::Active || progress is None {
                        Err(TransferRuntimeError::Protocol)
                    } else if progress->Some_0.completed_bytes != progress->Some_0.total_bytes {
                        Ok(ManifestStep::Effect(None))
                    } else {
                        Ok(
                            ManifestStep::Effect(
                                Some(TransferRuntimeEffect::FinalizeRequired { transfer }),
                            ),
                        )
                    },
                    None => if self.cancelled_outbound.contains(transfer.value) {
                        Ok(ManifestStep::Effect(None))
                    } else {
                        Ok(
                            ManifestStep::Effect(
                                Some(TransferRuntimeEffect::PeerCompleteAcknowledged { transfer }),
                            ),
                        )
                    },
                }
            },
        }
    }

    pub open spec fn cancel_step(self, transfer: TransferId, state: TransferQueueState) -> Result<
        ManifestStep,
        TransferRuntimeError,
    > {
        match state {
            TransferQueueState::Active => Ok(ManifestStep::Cancel { transfer, active: true }),
            TransferQueueState::Queued | TransferQueueState::Paused => Ok(
                ManifestStep::Cancel { transfer, active: false },
            ),
            TransferQueueState::Terminal => Err(TransferRuntimeError::Protocol),
        }
    }

    /// A terminal marker that comes before the last byte is kept.
    pub open spec fn after_step(
        self,
        message: FileManifestMessage,
        state: Option<TransferQueueState>,
        progress: Option<ReceiveProgress>,
    ) -> PeerTransferModel {
        match message {
            FileManifestMessage::Complete { transfer, .. } => if transfer.value != 0
                && !self.rejected.contains(transfer.value) && !self.completed.contains(
                transfer.value,
            ) && state == Some(TransferQueueState::Active) && (progress matches Some(known)
                && known.completed_bytes != known.total_bytes) {
                PeerTransferModel {
                    pending_completion: self.pending_completion.insert(transfer.value),
                    ..self
                }
            } else {
                self
            },
            _ => self,
        }
    }
}

pub struct PeerTransferRuntime {
    config: PeerTransferConfig,
    pending: Vec<PendingManifest>,
    pending_completion: IdSet,
    completed_inbound: IdSet,
    rejected_inbound: IdSet,
    cancelled_outbound: IdSet,
    known_persisted_inbound: IdSet,
    allow_untracked_persisted_resume: bool,
    backpressured: IdSet,
    deferred_queue_effects: Vec<QueueEffect>,
    inbound_manifest_sequence: Option<u64>,
    inbound_resume_sequence: Option<u64>,
    inbound_data_sequence: Option<u64>,
    outbound_manifest_sequence: u64,
    outbound_resume_sequence: u64,
    outbound_data_sequence: u64,
}

impl View for PeerTransferRuntime {
    type V = PeerTransferModel;

    closed spec fn view(&self) -> PeerTransferModel {
        PeerTransferModel {
            config: self.config,
            pending: self.pending@,
            pending_completion: self.pending_completion@,
            completed: self.completed_inbound@,
            rejected: self.rejected_inbound@,
            cancelled_outbound: self.cancelled_outbound@,
            known_persisted: self.known_persisted_inbound@,
            allow_untracked: self.allow_untracked_persisted_resume,
            backpressured: self.backpressured@,
            deferred: self.deferred_queue_effects@,
            manifest_sequence: self.inbound_manifest_sequence,
            resume_sequence: self.inbound_resume_sequence,
            data_sequence: self.inbound_data_sequence,
            outbound_manifest_sequence: self.outbound_manifest_sequence,
            outbound_resume_sequence: self.outbound_resume_sequence,
            outbound_data_sequence: self.outbound_data_sequence,
        }
    }
}

/// Keeps a transfer that is over, unless there are too many of them.
pub open spec fn tombstoned(retained: Set<u128>, ids: Set<u128>, limit: usize) -> Result<
    Set<u128>,
    TransferRuntimeError,
> {
    if retained.union(ids).len() > limit {
        Err(TransferRuntimeError::Backpressure)
    } else {
        Ok(retained.union(ids))
    }
}

/// Adds `transfers` to a set that must not outgrow `limit`. All of them are
/// added, or none.
fn extend_bounded_tombstones(retained: &mut IdSet, transfers: &Vec<u128>, limit: usize) -> (kept:
    Result<(), TransferRuntimeError>)
    requires
        old(retained).wf(),
    ensures
        final(retained).wf(),
        match (kept, tombstoned(old(retained)@, transfers@.to_set(), limit)) {
            (Ok(_), Ok(all)) => final(retained)@ == all,
            (Err(error), Err(expected)) => error == expected && final(retained)@ == old(retained)@,
            _ => false,
        },
{
    let mut fresh = IdSet::new();
    let mut at: usize = 0;
    proof {
        assert(retained@.union(transfers@.take(0).to_set()) =~= retained@.union(fresh@));
    }
    while at < transfers.len()
        invariant
            at <= transfers@.len(),
            retained.wf(),
            retained@ == old(retained)@,
            fresh.wf(),
            fresh@.disjoint(retained@),
            retained@.union(transfers@.take(at as int).to_set()) == retained@.union(fresh@),
        decreases transfers@.len() - at,
    {
        let id: u128 = transfers[at];
        let ghost before = fresh@;
        if !retained.contains(id) {
            fresh.insert(id);
        }
        proof {
            let longer = transfers@.take(at + 1);
            let shorter = transfers@.take(at as int);
            assert(longer =~= shorter.push(id));
            assert forall|x: u128| #[trigger] retained@.union(longer.to_set()).contains(x)
                <==> retained@.union(fresh@).contains(x) by {
                assert(retained@.union(shorter.to_set()).contains(x) <==> retained@.union(
                    before,
                ).contains(x));
                if longer.contains(x) {
                    let i = choose|i: int| 0 <= i < longer.len() && longer[i] == x;
                    if i < at {
                        assert(shorter[i] == x);
                    }
                }
                if shorter.contains(x) {
                    let i = choose|i: int| 0 <= i < shorter.len() && shorter[i] == x;
                    assert(longer[i] == x);
                }
                assert(longer[at as int] == id);
            }
            assert(retained@.union(longer.to_set()) =~= retained@.union(fresh@));
        }
        at = at + 1;
    }
    assert(transfers@.take(at as int) =~= transfers@);
    let known: usize = retained.len();
    let added: usize = fresh.len();
    proof {
        vstd::set_lib::lemma_set_disjoint_lens(retained@, fresh@);
        assert(retained@ + fresh@ =~= retained@.union(fresh@));
    }
    if known > limit || added > limit - known {
        return Err(TransferRuntimeError::Backpressure);
    }
    let ids = fresh.to_vec();
    retained.extend(&ids);
    Ok(())
}

impl PeerTransferRuntime {
    pub closed spec fn wf(&self) -> bool {
        &&& self.pending_completion.wf()
        &&& self.completed_inbound.wf()
        &&& self.rejected_inbound.wf()
        &&& self.cancelled_outbound.wf()
        &&& self.known_persisted_inbound.wf()
        &&& self.backpressured.wf()
    }

    pub fn new(config: PeerTransferConfig) -> (runtime: PeerTransferRuntime)
        ensures
            runtime.wf(),
            runtime@ == (PeerTransferModel {
                config,
                pending: Seq::empty(),
                pending_completion: Set::empty(),
                completed: Set::empty(),
                rejected: Set::empty(),
                cancelled_outbound: Set::empty(),
                known_persisted: Set::empty(),
                allow_untracked: true,
                backpressured: Set::empty(),
                deferred: Seq::empty(),
                manifest_sequence: None,
                resume_sequence: None,
                data_sequence: None,
                outbound_manifest_sequence: 0,
                outbound_resume_sequence: 0,
                outbound_data_sequence: 0,
            }),
    {
        PeerTransferRuntime {
            config,
            pending: Vec::new(),
            pending_completion: IdSet::new(),
            completed_inbound: IdSet::new(),
            rejected_inbound: IdSet::new(),
            cancelled_outbound: IdSet::new(),
            known_persisted_inbound: IdSet::new(),
            allow_untracked_persisted_resume: true,
            backpressured: IdSet::new(),
            deferred_queue_effects: Vec::new(),
            inbound_manifest_sequence: None,
            inbound_resume_sequence: None,
            inbound_data_sequence: None,
            outbound_manifest_sequence: 0,
            outbound_resume_sequence: 0,
            outbound_data_sequence: 0,
        }
    }

    /// Checks a message that starts something on this side, and moves its lane on.
    pub fn validate_remote_meta(&mut self, meta: &EventMeta, lane: SequenceLane) -> (checked: Result<
        (),
        TransferRuntimeError,
    >)
        requires
            old(self).wf(),
        ensures
            final(self).wf(),
            match old(self)@.remote_meta_error(*meta, old(self)@.lane(lane)) {
                Some(error) => checked == Err::<(), _>(error) && final(self)@ == old(self)@,
                None => checked is Ok && final(self)@ == old(self)@.with_lane(lane, meta.sequence),
            },
    {
        if meta.session_id != self.config.session_id || meta.origin != self.config.peer_device
            || meta.grant_epoch != self.config.local_grant_epoch {
            return Err(TransferRuntimeError::Authentication);
        }
        if meta.capability != Capability::file_transfer_only()
            || !self.config.local_allows_peer_transfer {
            return Err(TransferRuntimeError::GrantDenied);
        }
        let last: Option<u64> = match lane {
            SequenceLane::Manifest => self.inbound_manifest_sequence,
            SequenceLane::Data => self.inbound_data_sequence,
        };
        let replayed = match last {
            Some(value) => meta.sequence <= value,
            None => false,
        };
        if meta.sequence == 0 || replayed {
            return Err(TransferRuntimeError::Replay);
        }
        match lane {
            SequenceLane::Manifest => {
                self.inbound_manifest_sequence = Some(meta.sequence);
            },
            SequenceLane::Data => {
                self.inbound_data_sequence = Some(meta.sequence);
            },
        }
        assert(self@ == old(self)@.with_lane(lane, meta.sequence));
        Ok(())
    }

    /// Checks a message that answers something of this side, and moves its lane on.
    pub fn validate_remote_resume_meta(&mut self, meta: &EventMeta) -> (checked: Result<
        (),
        TransferRuntimeError,
    >)
        requires
            old(self).wf(),
        ensures
            final(self).wf(),
            match old(self)@.response_meta_error(*meta) {
                Some(error) => checked == Err::<(), _>(error) && final(self)@ == old(self)@,
                None => checked is Ok && final(self)@ == (PeerTransferModel {
                    resume_sequence: Some(meta.sequence),
                    ..old(self)@
                }),
            },
    {
        if meta.session_id != self.config.session_id || meta.origin != self.config.peer_device
            || meta.grant_epoch != self.config.peer_grant_epoch {
            return Err(TransferRuntimeError::Authentication);
        }
        if meta.capability != Capability::file_transfer_only()
            || !self.config.peer_capabilities.file_transfer {
            return Err(TransferRuntimeError::GrantDenied);
        }
        let replayed = match self.inbound_resume_sequence {
            Some(value) => meta.sequence <= value,
            None => false,
        };
        if meta.sequence == 0 || replayed {
            return Err(TransferRuntimeError::Replay);
        }
        self.inbound_resume_sequence = Some(meta.sequence);
        assert(self@ == (PeerTransferModel {
            resume_sequence: Some(meta.sequence),
            ..old(self)@
        }));
        Ok(())
    }

    /// Checks a manifest-channel message on the lane that it belongs to.
    pub fn validate_manifest_message_meta(&mut self, message: &FileManifestMessage, queued: bool) -> (
        checked: Result<(), TransferRuntimeError>)
        requires
            old(self).wf(),
        ensures
            final(self).wf(),
            match old(self)@.checked(*message, queued) {
                Err(error) => checked == Err::<(), _>(error) && final(self)@ == old(self)@,
                Ok(after) => checked is Ok && final(self)@ == after,
            },
    {
        match message {
            FileManifestMessage::Unknown => Err(TransferRuntimeError::Protocol),
            FileManifestMessage::Manifest { meta, .. } => self.validate_remote_meta(
                meta,
                SequenceLane::Manifest,
            ),
            FileManifestMessage::Resume { meta, .. } => self.validate_remote_resume_meta(meta),
            FileManifestMessage::Cancel { meta, transfer, .. }
            | FileManifestMessage::Complete { meta, transfer } => {
                if transfer.value == 0 {
                    return Err(TransferRuntimeError::Protocol);
                }
                if !queued && !self.rejected_inbound.contains(transfer.value)
                    && !self.completed_inbound.contains(transfer.value) {
                    self.validate_remote_resume_meta(meta)
                } else {
                    self.validate_remote_meta(meta, SequenceLane::Manifest)
                }
            },
        }
    }

    /// Says what a checked manifest-channel message leads to. `state` is what the
    /// queue knows of the transfer, `progress` what the receiver holds.
    pub fn receive_manifest_message(
        &mut self,
        message: &FileManifestMessage,
        state: Option<TransferQueueState>,
        progress: Option<ReceiveProgress>,
    ) -> (step: Result<ManifestStep, TransferRuntimeError>)
        requires
            old(self).wf(),
        ensures
            final(self).wf(),
            step == old(self)@.step(*message, state, progress),
            final(self)@ == old(self)@.after_step(*message, state, progress),
    {
        match message {
            FileManifestMessage::Unknown => Err(TransferRuntimeError::Protocol),
            FileManifestMessage::Manifest { transfer, .. } => {
                let transfer = *transfer;
                if transfer.value == 0 {
                    return Err(TransferRuntimeError::Protocol);
                }
                if self.completed_inbound.contains(transfer.value) {
                    return Ok(
                        ManifestStep::Effect(
                            Some(
                                TransferRuntimeEffect::CompletionAcknowledgementRequired {
                                    transfer,
                                },
                            ),
                        ),
                    );
                }
                if self.rejected_inbound.contains(transfer.value) {
                    return Ok(
                        ManifestStep::Effect(
                            Some(
                                TransferRuntimeEffect::RejectionAcknowledgementRequired {
                                    transfer,
                                },
                            ),
                        ),
                    );
                }
                Ok(ManifestStep::Open(transfer))
            },
            FileManifestMessage::Resume { transfer, entry_index, offset, .. } => {
                let transfer = *transfer;
                if transfer.value == 0 {
                    return Err(TransferRuntimeError::Protocol);
                }
                if self.cancelled_outbound.contains(transfer.value) {
                    return Ok(ManifestStep::Effect(None));
                }
                Ok(
                    ManifestStep::Effect(
                        Some(
                            TransferRuntimeEffect::PeerResumeRequested {
                                transfer,
                                entry_index: *entry_index,
                                offset: *offset,
                            },
                        ),
                    ),
                )
            },
            FileManifestMessage::Cancel { transfer, .. } => {
                let transfer = *transfer;
                if transfer.value == 0 {
                    return Err(TransferRuntimeError::Protocol);
                }
                if self.rejected_inbound.contains(transfer.value) {
                    return Ok(ManifestStep::Effect(None));
                }
                if self.completed_inbound.contains(transfer.value) {
                    return Ok(
                        ManifestStep::Effect(
                            Some(
                                TransferRuntimeEffect::CompletionAcknowledgementRequired {
                                    transfer,
                                },
                            ),
                        ),
                    );
                }
                match state {
                    Some(known) => self.receive_cancel(transfer, known),
                    None => if self.cancelled_outbound.contains(transfer.value) {
                        Ok(ManifestStep::Effect(None))
                    } else {
                        Ok(
                            ManifestStep::Effect(
                                Some(TransferRuntimeEffect::PeerCancelRequested { transfer }),
                            ),
                        )
                    },
                }
            },
            FileManifestMessage::Complete { transfer, .. } => {
                let transfer = *transfer;
                if transfer.value == 0 {
                    return Err(TransferRuntimeError::Protocol);
                }
                if self.rejected_inbound.contains(transfer.value) {
                    return Ok(
                        ManifestStep::Effect(
                            Some(
                                TransferRuntimeEffect::RejectionAcknowledgementRequired {
                                    transfer,
                                },
                            ),
                        ),
                    );
                }
                if self.completed_inbound.contains(transfer.value) {
                    return Ok(
                        ManifestStep::Effect(
                            Some(
                                TransferRuntimeEffect::CompletionAcknowledgementRequired {
                                    transfer,
                                },
                            ),
                        ),
                    );
                }
                match state {
                    Some(known) => self.receive_complete(transfer, known, progress),
                    None => if self.cancelled_outbound.contains(transfer.value) {
                        Ok(ManifestStep::Effect(None))
                    } else {
                        Ok(
                            ManifestStep::Effect(
                                Some(TransferRuntimeEffect::PeerCompleteAcknowledged { transfer }),
                            ),
                        )
                    },
                }
            },
        }
    }

    /// Checks a manifest-channel message and says what it leads to.
    pub fn receive_manifest_frame(
        &mut self,
        message: &FileManifestMessage,
        state: Option<TransferQueueState>,
        progress: Option<ReceiveProgress>,
    ) -> (step: Result<ManifestStep, TransferRuntimeError>)
        requires
            old(self).wf(),
        ensures
            final(self).wf(),
            match old(self)@.checked(*message, state is Some) {
                Err(error) => step == Err::<ManifestStep, _>(error) && final(self)@ == old(self)@,
                Ok(after) => {
                    &&& step == after.step(*message, state, progress)
                    &&& final(self)@ == after.after_step(*message, state, progress)
                },
            },
    {
        match self.validate_manifest_message_meta(message, state.is_some()) {
            Err(error) => Err(error),
            Ok(()) => self.receive_manifest_message(message, state, progress),
        }
    }

    /// How a transfer that the queue knows is cancelled.
    pub fn receive_cancel(&self, transfer: TransferId, state: TransferQueueState) -> (step: Result<
        ManifestStep,
        TransferRuntimeError,
    >)
        ensures
            step == self@.cancel_step(transfer, state),
    {
        match state {
            TransferQueueState::Active => Ok(ManifestStep::Cancel { transfer, active: true }),
            TransferQueueState::Queued | TransferQueueState::Paused => Ok(
                ManifestStep::Cancel { transfer, active: false },
            ),
            TransferQueueState::Terminal => Err(TransferRuntimeError::Protocol),
        }
    }

    /// What the peer's terminal marker leads to. One that comes before the last
    /// byte is kept until that byte is durable.
    fn receive_complete(
        &mut self,
        transfer: TransferId,
        state: TransferQueueState,
        progress: Option<ReceiveProgress>,
    ) -> (step: Result<ManifestStep, TransferRuntimeError>)
        requires
            old(self).wf(),
        ensures
            final(self).wf(),
            if state != TransferQueueState::Active || progress is None {
                &&& step == Err::<ManifestStep, _>(TransferRuntimeError::Protocol)
                &&& final(self)@ == old(self)@
            } else if progress->Some_0.completed_bytes != progress->Some_0.total_bytes {
                &&& step == Ok::<_, TransferRuntimeError>(ManifestStep::Effect(None))
                &&& final(self)@ == (PeerTransferModel {
                    pending_completion: old(self)@.pending_completion.insert(transfer.value),
                    ..old(self)@
                })
            } else {
                &&& step == Ok::<_, TransferRuntimeError>(
                    ManifestStep::Effect(
                        Some(TransferRuntimeEffect::FinalizeRequired { transfer }),
                    ),
                )
                &&& final(self)@ == old(self)@
            },
    {
        if state != TransferQueueState::Active {
            return Err(TransferRuntimeError::Protocol);
        }
        match progress {
            None => Err(TransferRuntimeError::Protocol),
            Some(known) => {
                if known.completed_bytes != known.total_bytes {
                    self.pending_completion.insert(transfer.value);
                    assert(self@ == (PeerTransferModel {
                        pending_completion: old(self)@.pending_completion.insert(transfer.value),
                        ..old(self)@
                    }));
                    return Ok(ManifestStep::Effect(None));
                }
                Ok(
                    ManifestStep::Effect(
                        Some(TransferRuntimeEffect::FinalizeRequired { transfer }),
                    ),
                )
            },
        }
    }

    /// Checks a data-channel message. Data is admitted only for the active
    /// transfer, after its offsets were accepted.
    pub fn receive_data_frame(
        &mut self,
        message: &FileDataMessage,
        state: Option<TransferQueueState>,
    ) -> (step: Result<DataStep, TransferRuntimeError>)
        requires
            old(self).wf(),
        ensures
            final(self).wf(),
            match *message {
                FileDataMessage::Unknown => {
                    &&& step == Err::<DataStep, _>(TransferRuntimeError::Protocol)
                    &&& final(self)@ == old(self)@
                },
                FileDataMessage::Chunk { meta, transfer, .. } => match old(
                    self,
                )@.remote_meta_error(meta, old(self)@.data_sequence) {
                    Some(error) => {
                        &&& step == Err::<DataStep, _>(error)
                        &&& final(self)@ == old(self)@
                    },
                    None => {
                        &&& final(self)@ == old(self)@.with_lane(SequenceLane::Data, meta.sequence)
                        &&& step == if transfer.value == 0 {
                            Err(TransferRuntimeError::Protocol)
                        } else if old(self)@.rejected.contains(transfer.value) || old(
                            self,
                        )@.completed.contains(transfer.value) {
                            Ok(DataStep::Ignore)
                        } else if state == Some(TransferQueueState::Active) {
                            Ok(DataStep::Write(transfer))
                        } else {
                            Err(TransferRuntimeError::Protocol)
                        }
                    },
                },
            },
    {
        match message {
            FileDataMessage::Unknown => Err(TransferRuntimeError::Protocol),
            FileDataMessage::Chunk { meta, transfer, .. } => {
                if let Err(error) = self.validate_remote_meta(meta, SequenceLane::Data) {
                    return Err(error);
                }
                let transfer = *transfer;
                if transfer.value == 0 {
                    return Err(TransferRuntimeError::Protocol);
                }
                if self.rejected_inbound.contains(transfer.value)
                    || self.completed_inbound.contains(transfer.value) {
                    return Ok(DataStep::Ignore);
                }
                match state {
                    Some(TransferQueueState::Active) => Ok(DataStep::Write(transfer)),
                    _ => Err(TransferRuntimeError::Protocol),
                }
            },
        }
    }

    /// A chunk was written durably. When it was the last one and the peer's
    /// terminal marker is there, the transfer can be finalized.
    pub fn data_written(&mut self, transfer: TransferId, progress: ReceiveProgress) -> (effects: Vec<
        TransferRuntimeEffect,
    >)
        requires
            old(self).wf(),
        ensures
            final(self).wf(),
            ({
                let progressed = TransferRuntimeEffect::Progress {
                    transfer,
                    completed_bytes: progress.completed_bytes,
                    total_bytes: progress.total_bytes,
                };
                let ended = progress.completed_bytes == progress.total_bytes;
                &&& effects@ == if ended && old(self)@.pending_completion.contains(
                    transfer.value,
                ) {
                    seq![progressed, TransferRuntimeEffect::FinalizeRequired { transfer }]
                } else {
                    seq![progressed]
                }
                &&& final(self)@ == if ended {
                    PeerTransferModel {
                        pending_completion: old(self)@.pending_completion.remove(transfer.value),
                        ..old(self)@
                    }
                } else {
                    old(self)@
                }
            }),
    {
        let mut effects: Vec<TransferRuntimeEffect> = Vec::new();
        effects.push(
            TransferRuntimeEffect::Progress {
                transfer,
                completed_bytes: progress.completed_bytes,
                total_bytes: progress.total_bytes,
            },
        );
        if progress.completed_bytes == progress.total_bytes {
            if self.pending_completion.remove(transfer.value) {
                effects.push(TransferRuntimeEffect::FinalizeRequired { transfer });
            }
            assert(self@ == (PeerTransferModel {
                pending_completion: old(self)@.pending_completion.remove(transfer.value),
                ..old(self)@
            }));
        }
        effects
    }

    /// Whether this side may send files to the peer.
    pub fn outbound_authorized(&self) -> (authorized: bool)
        ensures
            authorized == self@.config.peer_capabilities.file_transfer,
    {
        self.config.peer_capabilities.file_transfer
    }

    /// Takes over transfers that this process published already.
    pub fn remember_completed_inbound(&mut self, transfers: &Vec<u128>) -> (kept: Result<
        (),
        TransferRuntimeError,
    >)
        requires
            old(self).wf(),
        ensures
            final(self).wf(),
            match (
                kept,
                tombstoned(
                    old(self)@.completed,
                    transfers@.to_set(),
                    MAX_COMPLETED_INBOUND_TOMBSTONES,
                ),
            ) {
                (Ok(_), Ok(all)) => final(self)@ == (PeerTransferModel {
                    completed: all,
                    ..old(self)@
                }),
                (Err(error), Err(expected)) => error == expected && final(self)@ == old(self)@,
                _ => false,
            },
    {
        let kept = extend_bounded_tombstones(
            &mut self.completed_inbound,
            transfers,
            MAX_COMPLETED_INBOUND_TOMBSTONES,
        );
        assert(self@ == (PeerTransferModel { completed: self.completed_inbound@, ..old(self)@ }));
        assert(kept is Err ==> self@ == old(self)@);
        kept
    }

    /// Keeps transfers that this side refused.
    pub fn remember_rejected_inbound(&mut self, transfers: &Vec<u128>) -> (kept: Result<
        (),
        TransferRuntimeError,
    >)
        requires
            old(self).wf(),
        ensures
            final(self).wf(),
            match (
                kept,
                tombstoned(
                    old(self)@.rejected,
                    transfers@.to_set(),
                    MAX_REJECTED_INBOUND_TOMBSTONES,
                ),
            ) {
                (Ok(_), Ok(all)) => final(self)@ == (PeerTransferModel {
                    rejected: all,
                    ..old(self)@
                }),
                (Err(error), Err(expected)) => error == expected && final(self)@ == old(self)@,
                _ => false,
            },
    {
        let kept = extend_bounded_tombstones(
            &mut self.rejected_inbound,
            transfers,
            MAX_REJECTED_INBOUND_TOMBSTONES,
        );
        assert(self@ == (PeerTransferModel { rejected: self.rejected_inbound@, ..old(self)@ }));
        assert(kept is Err ==> self@ == old(self)@);
        kept
    }

    /// Keeps transfers of this side that were cancelled.
    pub fn remember_cancelled_outbound(&mut self, transfers: &Vec<u128>) -> (kept: Result<
        (),
        TransferRuntimeError,
    >)
        requires
            old(self).wf(),
        ensures
            final(self).wf(),
            match (
                kept,
                tombstoned(
                    old(self)@.cancelled_outbound,
                    transfers@.to_set(),
                    MAX_CANCELLED_OUTBOUND_TOMBSTONES,
                ),
            ) {
                (Ok(_), Ok(all)) => final(self)@ == (PeerTransferModel {
                    cancelled_outbound: all,
                    ..old(self)@
                }),
                (Err(error), Err(expected)) => error == expected && final(self)@ == old(self)@,
                _ => false,
            },
    {
        let kept = extend_bounded_tombstones(
            &mut self.cancelled_outbound,
            transfers,
            MAX_CANCELLED_OUTBOUND_TOMBSTONES,
        );
        assert(self@ == (PeerTransferModel {
            cancelled_outbound: self.cancelled_outbound@,
            ..old(self)@
        }));
        assert(kept is Err ==> self@ == old(self)@);
        kept
    }

    /// How many refused transfers are kept.
    pub fn rejected_count(&self) -> (count: usize)
        requires
            self.wf(),
        ensures
            count == self@.rejected.len(),
    {
        self.rejected_inbound.len()
    }
}

impl PeerTransferModel {
    pub open spec fn meta(self, sequence: u64, grant_epoch: u64) -> EventMeta {
        EventMeta {
            session_id: self.config.session_id,
            origin: self.config.local_device,
            sequence,
            grant_epoch,
            capability: Capability::file_transfer_only(),
        }
    }

    /// Metadata for a message that starts something on the peer's side.
    pub open spec fn next_manifest(self) -> Result<
        (EventMeta, PeerTransferModel),
        TransferRuntimeError,
    > {
        if !self.config.peer_capabilities.file_transfer {
            Err(TransferRuntimeError::GrantDenied)
        } else if self.outbound_manifest_sequence == u64::MAX {
            Err(TransferRuntimeError::SequenceExhausted)
        } else {
            let sequence = (self.outbound_manifest_sequence + 1) as u64;
            Ok(
                (
                    self.meta(sequence, self.config.peer_grant_epoch),
                    PeerTransferModel { outbound_manifest_sequence: sequence, ..self },
                ),
            )
        }
    }

    /// Metadata for a message that answers something of the peer.
    pub open spec fn next_response(self) -> Result<
        (EventMeta, PeerTransferModel),
        TransferRuntimeError,
    > {
        if !self.config.local_allows_peer_transfer {
            Err(TransferRuntimeError::GrantDenied)
        } else if self.outbound_resume_sequence == u64::MAX {
            Err(TransferRuntimeError::SequenceExhausted)
        } else {
            let sequence = (self.outbound_resume_sequence + 1) as u64;
            Ok(
                (
                    self.meta(sequence, self.config.local_grant_epoch),
                    PeerTransferModel { outbound_resume_sequence: sequence, ..self },
                ),
            )
        }
    }

    /// Metadata for a chunk.
    pub open spec fn next_data(self) -> Result<
        (EventMeta, PeerTransferModel),
        TransferRuntimeError,
    > {
        if !self.config.peer_capabilities.file_transfer {
            Err(TransferRuntimeError::GrantDenied)
        } else if self.outbound_data_sequence == u64::MAX {
            Err(TransferRuntimeError::SequenceExhausted)
        } else {
            let sequence = (self.outbound_data_sequence + 1) as u64;
            Ok(
                (
                    self.meta(sequence, self.config.peer_grant_epoch),
                    PeerTransferModel { outbound_data_sequence: sequence, ..self },
                ),
            )
        }
    }

    /// Nothing of `transfer` waits any more.
    pub open spec fn forgotten(self, transfer: TransferId) -> PeerTransferModel {
        PeerTransferModel {
            pending: without_pending(self.pending, transfer),
            pending_completion: self.pending_completion.remove(transfer.value),
            backpressured: self.backpressured.remove(transfer.value),
            ..self
        }
    }

    /// A transfer that was enqueued; `waits` when another one is active.
    pub open spec fn admitted(self, new: PendingManifest, waits: bool) -> PeerTransferModel {
        PeerTransferModel {
            pending: with_pending(self.pending, new),
            backpressured: if waits {
                self.backpressured.insert(new.transfer.value)
            } else {
                self.backpressured
            },
            ..self
        }
    }

    /// Nothing waits any more.
    pub open spec fn aborted(self) -> PeerTransferModel {
        PeerTransferModel {
            pending: Seq::empty(),
            pending_completion: Set::empty(),
            backpressured: Set::empty(),
            ..self
        }
    }

    /// Everything that an abort ends.
    pub open spec fn abandoned(self, active: Option<TransferId>) -> Set<u128> {
        self.pending.map_values(|waiting: PendingManifest| waiting.transfer.value).to_set().union(
            self.backpressured,
        ).union(
            match active {
                Some(transfer) => Set::<u128>::empty().insert(transfer.value),
                None => Set::empty(),
            },
        )
    }

    /// The grant for `epoch` is in force.
    pub open spec fn regranted(self, epoch: u64, allows: bool) -> PeerTransferModel {
        PeerTransferModel {
            config: PeerTransferConfig {
                local_grant_epoch: epoch,
                local_allows_peer_transfer: allows,
                ..self.config
            },
            manifest_sequence: None,
            data_sequence: None,
            outbound_resume_sequence: 0,
            ..self
        }
    }
}

/// One cancellation for each of `ids`, in their order.
pub open spec fn cancellations(ids: Seq<u128>) -> Seq<TransferRuntimeEffect> {
    ids.map_values(
        |value: u128| TransferRuntimeEffect::Cancelled { transfer: TransferId { value } },
    )
}

/// One resume offset for each entry.
pub open spec fn resumes(transfer: TransferId, offsets: Seq<u64>) -> Seq<TransferRuntimeEffect> {
    Seq::new(
        offsets.len(),
        |i: int| TransferRuntimeEffect::ResumeRequired {
            transfer,
            entry_index: i as u32,
            offset: offsets[i],
        },
    )
}

/// Asks the peer for each entry from its offset.
fn push_resumes(effects: &mut Vec<TransferRuntimeEffect>, transfer: TransferId, offsets: &Vec<u64>)
    requires
        offsets@.len() <= 0x1_0000_0000,
    ensures
        final(effects)@ == old(effects)@ + resumes(transfer, offsets@),
{
    let mut at: usize = 0;
    assert(effects@ =~= old(effects)@ + resumes(transfer, offsets@).take(0));
    while at < offsets.len()
        invariant
            at <= offsets@.len() <= 0x1_0000_0000,
            effects@ == old(effects)@ + resumes(transfer, offsets@).take(at as int),
        decreases offsets@.len() - at,
    {
        effects.push(
            TransferRuntimeEffect::ResumeRequired {
                transfer,
                entry_index: at as u32,
                offset: offsets[at],
            },
        );
        assert(effects@ =~= old(effects)@ + resumes(transfer, offsets@).take(at + 1));
        at = at + 1;
    }
    assert(resumes(transfer, offsets@).take(at as int) =~= resumes(transfer, offsets@));
}

/// What has to happen next for the queue.
#[derive(Clone, Copy, Debug, PartialEq, Eq, Structural)]
pub enum QueueStep {
    /// Begin staging this transfer, then call `begun`.
    Begin(PendingManifest),
    /// One effect was handled; go on.
    Again,
    Finished,
}

pub struct QueueRunModel {
    pub pending: Seq<QueueEffect>,
    pub effects: Seq<TransferRuntimeEffect>,
}

/// The queue's effects while they are being carried out, one at a time.
pub struct QueueRun {
    pending: Vec<QueueEffect>,
    next: usize,
    effects: Vec<TransferRuntimeEffect>,
}

impl View for QueueRun {
    type V = QueueRunModel;

    closed spec fn view(&self) -> QueueRunModel {
        QueueRunModel { pending: self.pending@.skip(self.next as int), effects: self.effects@ }
    }
}

impl QueueRun {
    pub closed spec fn wf(&self) -> bool {
        self.next <= self.pending@.len()
    }

    fn new(pending: Vec<QueueEffect>, effects: Vec<TransferRuntimeEffect>) -> (run: QueueRun)
        ensures
            run.wf(),
            run@ == (QueueRunModel { pending: pending@, effects: effects@ }),
    {
        let run = QueueRun { pending, next: 0, effects };
        assert(run@.pending =~= pending@);
        run
    }

    /// Takes the next queue effect. A transfer starts only with the manifest
    /// that was kept for it; a queue of one active transfer never pauses any.
    pub fn step(&mut self, runtime: &mut PeerTransferRuntime) -> (step: Result<
        QueueStep,
        TransferRuntimeError,
    >)
        requires
            old(self).wf(),
            old(runtime).wf(),
        ensures
            final(self).wf(),
            final(runtime).wf(),
            if old(self)@.pending.len() == 0 {
                &&& step == Ok::<_, TransferRuntimeError>(QueueStep::Finished)
                &&& final(self)@ == old(self)@
                &&& final(runtime)@ == old(runtime)@
            } else {
                &&& final(self)@.pending == old(self)@.pending.skip(1)
                &&& match old(self)@.pending[0] {
                    QueueEffect::Start(transfer) => {
                        let at = pending_place(old(runtime)@.pending, transfer);
                        &&& final(self)@.effects == old(self)@.effects
                        &&& final(runtime)@ == (PeerTransferModel {
                            pending: without_pending(old(runtime)@.pending, transfer),
                            ..old(runtime)@
                        })
                        &&& step == if at < 0 {
                            Err(TransferRuntimeError::Protocol)
                        } else {
                            Ok(QueueStep::Begin(old(runtime)@.pending[at]))
                        }
                    },
                    QueueEffect::Cancel(transfer) => {
                        &&& final(self)@.effects == old(self)@.effects.push(
                            TransferRuntimeEffect::Cancelled { transfer },
                        )
                        &&& final(runtime)@ == old(runtime)@
                        &&& step == Ok::<_, TransferRuntimeError>(QueueStep::Again)
                    },
                    QueueEffect::Pause(_) => {
                        &&& final(self)@.effects == old(self)@.effects
                        &&& final(runtime)@ == old(runtime)@
                        &&& step == Err::<QueueStep, _>(TransferRuntimeError::Protocol)
                    },
                }
            },
    {
        if self.next == self.pending.len() {
            return Ok(QueueStep::Finished);
        }
        let effect = self.pending[self.next];
        assert(self@.pending[0] == effect);
        self.next = self.next + 1;
        assert(self@.pending =~= old(self)@.pending.skip(1));
        match effect {
            QueueEffect::Start(transfer) => match runtime.take_pending(transfer) {
                Some(manifest) => Ok(QueueStep::Begin(manifest)),
                None => Err(TransferRuntimeError::Protocol),
            },
            QueueEffect::Cancel(transfer) => {
                self.effects.push(TransferRuntimeEffect::Cancelled { transfer });
                Ok(QueueStep::Again)
            },
            QueueEffect::Pause(_) => Err(TransferRuntimeError::Protocol),
        }
    }

    /// Staging of `manifest` has begun: every entry is asked for from its start.
    pub fn begun(&mut self, runtime: &mut PeerTransferRuntime, manifest: PendingManifest) -> (done:
        Result<(), TransferRuntimeError>)
        requires
            old(self).wf(),
            old(runtime).wf(),
        ensures
            final(self).wf(),
            final(runtime).wf(),
            final(runtime)@ == (PeerTransferModel {
                backpressured: old(runtime)@.backpressured.remove(manifest.transfer.value),
                ..old(runtime)@
            }),
            final(self)@.pending == old(self)@.pending,
            if manifest.entry_count > 0x1_0000_0000 {
                &&& done == Err::<(), _>(TransferRuntimeError::Protocol)
                &&& final(self)@.effects == old(self)@.effects
            } else {
                &&& done is Ok
                &&& final(self)@.effects == old(self)@.effects + begun_effects(
                    manifest,
                    old(runtime)@.backpressured.contains(manifest.transfer.value),
                )
            },
    {
        let transfer = manifest.transfer;
        let released = runtime.release_backpressure(transfer);
        let count: u64 = manifest.entry_count as u64;
        if count > 0x1_0000_0000 {
            return Err(TransferRuntimeError::Protocol);
        }
        if released {
            self.effects.push(TransferRuntimeEffect::BackpressureReleased { transfer });
        }
        self.effects.push(TransferRuntimeEffect::Started { transfer });
        let mut offsets: Vec<u64> = Vec::new();
        let mut at: usize = 0;
        while at < manifest.entry_count
            invariant
                at <= manifest.entry_count,
                offsets@ == Seq::new(at as nat, |i: int| 0u64),
            decreases manifest.entry_count - at,
        {
            offsets.push(0);
            at = at + 1;
            assert(offsets@ =~= Seq::new(at as nat, |i: int| 0u64));
        }
        push_resumes(&mut self.effects, transfer, &offsets);
        assert(self.effects@ =~= old(self)@.effects + begun_effects(manifest, released));
        Ok(())
    }

    /// Hands out what was collected.
    pub fn into_effects(self) -> (effects: Vec<TransferRuntimeEffect>)
        ensures
            effects@ == self@.effects,
    {
        self.effects
    }
}

pub open spec fn begun_effects(manifest: PendingManifest, released: bool) -> Seq<
    TransferRuntimeEffect,
> {
    let transfer = manifest.transfer;
    (if released {
        seq![TransferRuntimeEffect::BackpressureReleased { transfer }]
    } else {
        seq![]
    }) + seq![TransferRuntimeEffect::Started { transfer }] + resumes(
        transfer,
        Seq::new(manifest.entry_count as nat, |i: int| 0u64),
    )
}

pub open spec fn admitted_effects(transfer: TransferId, total_bytes: u64, waits: bool) -> Seq<
    TransferRuntimeEffect,
> {
    let admitted = TransferRuntimeEffect::Admitted { transfer, total_bytes };
    if waits {
        seq![admitted, TransferRuntimeEffect::Backpressured { transfer }]
    } else {
        seq![admitted]
    }
}

/// What announcing a manifest led to.
pub enum Enqueued {
    /// The bounded queue was full; the transfer is refused for good.
    Saturated(TransferRuntimeEffect),
    Run(QueueRun),
}

impl PeerTransferRuntime {
    fn pending_at(&self, transfer: TransferId) -> (found: Option<usize>)
        ensures
            match found {
                Some(at) => at < self.pending@.len() && at == pending_place(
                    self.pending@,
                    transfer,
                ),
                None => pending_place(self.pending@, transfer) == -1,
            },
    {
        let mut at: usize = self.pending.len();
        assert(self.pending@.take(at as int) =~= self.pending@);
        while at > 0
            invariant
                at <= self.pending@.len(),
                pending_place(self.pending@, transfer) == pending_place(
                    self.pending@.take(at as int),
                    transfer,
                ),
            decreases at,
        {
            at = at - 1;
            let ghost longer = self.pending@.take(at + 1);
            assert(longer.drop_last() =~= self.pending@.take(at as int));
            assert(longer.last() == self.pending@[at as int]);
            if self.pending[at].transfer == transfer {
                return Some(at);
            }
        }
        None
    }

    /// Takes the manifest that waits for `transfer`.
    fn take_pending(&mut self, transfer: TransferId) -> (taken: Option<PendingManifest>)
        requires
            old(self).wf(),
        ensures
            final(self).wf(),
            final(self)@ == (PeerTransferModel {
                pending: without_pending(old(self)@.pending, transfer),
                ..old(self)@
            }),
            ({
                let at = pending_place(old(self)@.pending, transfer);
                taken == if at < 0 {
                    None
                } else {
                    Some(old(self)@.pending[at])
                }
            }),
    {
        match self.pending_at(transfer) {
            Some(at) => {
                let taken = self.pending.remove(at);
                assert(self@.pending =~= without_pending(old(self)@.pending, transfer));
                assert(self@ == (PeerTransferModel {
                    pending: without_pending(old(self)@.pending, transfer),
                    ..old(self)@
                }));
                Some(taken)
            },
            None => None,
        }
    }

    fn release_backpressure(&mut self, transfer: TransferId) -> (released: bool)
        requires
            old(self).wf(),
        ensures
            final(self).wf(),
            released == old(self)@.backpressured.contains(transfer.value),
            final(self)@ == (PeerTransferModel {
                backpressured: old(self)@.backpressured.remove(transfer.value),
                ..old(self)@
            }),
    {
        let released = self.backpressured.remove(transfer.value);
        assert(self@ == (PeerTransferModel {
            backpressured: old(self)@.backpressured.remove(transfer.value),
            ..old(self)@
        }));
        released
    }

    /// Whether a manifest resumes durable staging or starts afresh. Staging that
    /// nobody recorded is resumed only where that is allowed.
    pub fn open_manifest(&self, transfer: TransferId, persisted: bool) -> (opened: Result<
        OpenManifest,
        TransferRuntimeError,
    >)
        requires
            self.wf(),
        ensures
            opened == if !persisted {
                Ok::<_, TransferRuntimeError>(OpenManifest::Enqueue)
            } else if !self@.allow_untracked && !self@.known_persisted.contains(transfer.value) {
                Err(TransferRuntimeError::ResumeDurabilityUnsupported)
            } else {
                Ok(OpenManifest::Resume)
            },
    {
        if !persisted {
            return Ok(OpenManifest::Enqueue);
        }
        if !self.allow_untracked_persisted_resume && !self.known_persisted_inbound.contains(
            transfer.value,
        ) {
            return Err(TransferRuntimeError::ResumeDurabilityUnsupported);
        }
        Ok(OpenManifest::Resume)
    }

    /// Takes in what the queue said to a new manifest.
    pub fn manifest_enqueued(
        &mut self,
        manifest: PendingManifest,
        total_bytes: u64,
        queued: Result<Vec<QueueEffect>, TransferError>,
    ) -> (done: Result<Enqueued, TransferRuntimeError>)
        requires
            old(self).wf(),
        ensures
            final(self).wf(),
            match queued {
                Err(TransferError::QueueFull) => match (
                    done,
                    tombstoned(
                        old(self)@.rejected,
                        Set::empty().insert(manifest.transfer.value),
                        MAX_REJECTED_INBOUND_TOMBSTONES,
                    ),
                ) {
                    (Ok(Enqueued::Saturated(effect)), Ok(all)) => {
                        &&& effect == TransferRuntimeEffect::QueueSaturated {
                            transfer: manifest.transfer,
                        }
                        &&& final(self)@ == (PeerTransferModel { rejected: all, ..old(self)@ })
                    },
                    (Err(error), Err(expected)) => error == expected && final(self)@ == old(
                        self,
                    )@,
                    _ => false,
                },
                Err(error) => {
                    &&& done == Err::<Enqueued, _>(TransferRuntimeError::Transfer(error))
                    &&& final(self)@ == old(self)@
                },
                Ok(effects) => {
                    &&& final(self)@ == old(self)@.admitted(manifest, effects@.len() == 0)
                    &&& done matches Ok(Enqueued::Run(run)) && run.wf() && run@ == (
                    QueueRunModel {
                        pending: effects@,
                        effects: admitted_effects(
                            manifest.transfer,
                            total_bytes,
                            effects@.len() == 0,
                        ),
                    })
                },
            },
    {
        let transfer = manifest.transfer;
        match queued {
            Err(error) => {
                if error != TransferError::QueueFull {
                    return Err(TransferRuntimeError::Transfer(error));
                }
                let mut refused: Vec<u128> = Vec::new();
                refused.push(transfer.value);
                assert(refused@ =~= seq![transfer.value]);
                assert(refused@.to_set() =~= Set::<u128>::empty().insert(transfer.value)) by {
                    assert(refused@[0] == transfer.value);
                }
                match self.remember_rejected_inbound(&refused) {
                    Err(error) => Err(error),
                    Ok(()) => Ok(
                        Enqueued::Saturated(TransferRuntimeEffect::QueueSaturated { transfer }),
                    ),
                }
            },
            Ok(pending) => {
                match self.pending_at(transfer) {
                    Some(at) => {
                        self.pending.set(at, manifest);
                    },
                    None => {
                        self.pending.push(manifest);
                    },
                }
                let mut effects: Vec<TransferRuntimeEffect> = Vec::new();
                effects.push(TransferRuntimeEffect::Admitted { transfer, total_bytes });
                if pending.len() == 0 {
                    self.backpressured.insert(transfer.value);
                    effects.push(TransferRuntimeEffect::Backpressured { transfer });
                }
                assert(self@ == old(self)@.admitted(manifest, pending@.len() == 0));
                assert(effects@ =~= admitted_effects(transfer, total_bytes, pending@.len() == 0));
                Ok(Enqueued::Run(QueueRun::new(pending, effects)))
            },
        }
    }

    /// Whether durable staging can be taken up again now.
    pub fn resume_allowed(
        &self,
        receiving: bool,
        active_count: usize,
        queue_len: usize,
        max_queued: usize,
    ) -> (allowed: Result<(), TransferRuntimeError>)
        ensures
            allowed == if !self@.config.local_allows_peer_transfer {
                Err::<(), _>(TransferRuntimeError::GrantDenied)
            } else if receiving || active_count != 0 || queue_len >= max_queued {
                Err(TransferRuntimeError::Transfer(TransferError::TransferNotActive))
            } else {
                Ok(())
            },
    {
        if !self.config.local_allows_peer_transfer {
            return Err(TransferRuntimeError::GrantDenied);
        }
        if receiving || active_count != 0 || queue_len >= max_queued {
            return Err(TransferRuntimeError::Transfer(TransferError::TransferNotActive));
        }
        Ok(())
    }

    /// Durable staging was taken up again: every entry is asked for from where
    /// it stopped.
    pub fn inbound_resumed(
        &self,
        transfer: TransferId,
        progress: ReceiveProgress,
        offsets: &Vec<u64>,
    ) -> (done: Result<Vec<TransferRuntimeEffect>, TransferRuntimeError>)
        ensures
            match done {
                Err(error) => error == TransferRuntimeError::Protocol && offsets@.len()
                    > 0x1_0000_0000,
                Ok(effects) => offsets@.len() <= 0x1_0000_0000 && effects@ == resumed_effects(
                    transfer,
                    progress,
                    offsets@,
                ),
            },
    {
        let count: u64 = offsets.len() as u64;
        if count > 0x1_0000_0000 {
            return Err(TransferRuntimeError::Protocol);
        }
        let mut effects: Vec<TransferRuntimeEffect> = Vec::new();
        effects.push(
            TransferRuntimeEffect::Admitted { transfer, total_bytes: progress.total_bytes },
        );
        effects.push(TransferRuntimeEffect::Started { transfer });
        if progress.completed_bytes != 0 {
            effects.push(
                TransferRuntimeEffect::Progress {
                    transfer,
                    completed_bytes: progress.completed_bytes,
                    total_bytes: progress.total_bytes,
                },
            );
        }
        push_resumes(&mut effects, transfer, offsets);
        assert(effects@ =~= resumed_effects(transfer, progress, offsets@));
        Ok(effects)
    }

    /// Takes in that the receiver gave `transfer` up, and what the queue said.
    pub fn inbound_cancelled(
        &mut self,
        transfer: TransferId,
        cancelled: Result<Vec<QueueEffect>, TransferError>,
    ) -> (done: Result<QueueRun, TransferRuntimeError>)
        requires
            old(self).wf(),
        ensures
            final(self).wf(),
            final(self)@ == old(self)@.forgotten(transfer),
            match cancelled {
                Err(error) => done == Err::<QueueRun, _>(TransferRuntimeError::Transfer(error)),
                Ok(effects) => done matches Ok(run) && run.wf() && run@ == (QueueRunModel {
                    pending: effects@,
                    effects: seq![],
                }),
            },
    {
        self.take_pending(transfer);
        self.pending_completion.remove(transfer.value);
        self.backpressured.remove(transfer.value);
        assert(self@ == old(self)@.forgotten(transfer));
        match cancelled {
            Err(error) => Err(TransferRuntimeError::Transfer(error)),
            Ok(pending) => Ok(QueueRun::new(pending, Vec::new())),
        }
    }

    /// Takes in that `transfer` was published, and what the queue said. The
    /// queue goes on only when the publication has been acknowledged.
    pub fn inbound_finalized(
        &mut self,
        transfer: TransferId,
        completed: Result<Vec<QueueEffect>, TransferError>,
    ) -> (done: Result<Vec<TransferRuntimeEffect>, TransferRuntimeError>)
        requires
            old(self).wf(),
        ensures
            final(self).wf(),
            ({
                let cleared = PeerTransferModel {
                    pending_completion: old(self)@.pending_completion.remove(transfer.value),
                    ..old(self)@
                };
                match completed {
                    Err(error) => {
                        &&& done == Err::<Vec<TransferRuntimeEffect>, _>(
                            TransferRuntimeError::Transfer(error),
                        )
                        &&& final(self)@ == cleared
                    },
                    Ok(effects) => if old(self)@.deferred.len() != 0 {
                        &&& done == Err::<Vec<TransferRuntimeEffect>, _>(
                            TransferRuntimeError::Protocol,
                        )
                        &&& final(self)@ == cleared
                    } else {
                        &&& final(self)@ == (PeerTransferModel { deferred: effects@, ..cleared })
                        &&& done matches Ok(ended) && ended@ == seq![
                            TransferRuntimeEffect::Completed { transfer },
                            TransferRuntimeEffect::AdvanceQueue,
                        ]
                    },
                }
            }),
    {
        self.pending_completion.remove(transfer.value);
        let ghost cleared = PeerTransferModel {
            pending_completion: old(self)@.pending_completion.remove(transfer.value),
            ..old(self)@
        };
        assert(self@ == cleared);
        match completed {
            Err(error) => Err(TransferRuntimeError::Transfer(error)),
            Ok(effects) => {
                if self.deferred_queue_effects.len() != 0 {
                    return Err(TransferRuntimeError::Protocol);
                }
                self.deferred_queue_effects = effects;
                assert(self@ == (PeerTransferModel { deferred: effects@, ..cleared }));
                let mut ended: Vec<TransferRuntimeEffect> = Vec::new();
                ended.push(TransferRuntimeEffect::Completed { transfer });
                ended.push(TransferRuntimeEffect::AdvanceQueue);
                Ok(ended)
            },
        }
    }

    /// Lets the queue go on after a publication.
    pub fn advance_queue(&mut self) -> (run: QueueRun)
        requires
            old(self).wf(),
        ensures
            final(self).wf(),
            final(self)@ == (PeerTransferModel { deferred: seq![], ..old(self)@ }),
            run.wf(),
            run@ == (QueueRunModel { pending: old(self)@.deferred, effects: seq![] }),
    {
        let mut deferred: Vec<QueueEffect> = Vec::new();
        std::mem::swap(&mut deferred, &mut self.deferred_queue_effects);
        assert(self@ == (PeerTransferModel { deferred: seq![], ..old(self)@ }));
        QueueRun::new(deferred, Vec::new())
    }

    /// Ends everything that is being received, `active` included. The transfers
    /// are named in ascending order, each once.
    pub fn abort_inbound(&mut self, active: Option<TransferId>) -> (effects: Vec<
        TransferRuntimeEffect,
    >)
        requires
            old(self).wf(),
        ensures
            final(self).wf(),
            final(self)@ == old(self)@.aborted(),
            exists|ids: Seq<u128>|
                ascending(ids) && ids.to_set() == old(self)@.abandoned(active) && effects@
                    == #[trigger] cancellations(ids),
    {
        let mut all = IdSet::new();
        if let Some(transfer) = active {
            all.insert(transfer.value);
        }
        let ghost held = all@;
        let ghost waiting = self.pending@.map_values(
            |waiting: PendingManifest| waiting.transfer.value,
        );
        let mut at: usize = 0;
        assert(all@ =~= held.union(waiting.take(0).to_set()));
        while at < self.pending.len()
            invariant
                at <= self.pending@.len(),
                all.wf(),
                waiting == self.pending@.map_values(
                    |waiting: PendingManifest| waiting.transfer.value,
                ),
                all@ == held.union(waiting.take(at as int).to_set()),
            decreases self.pending@.len() - at,
        {
            let id: u128 = self.pending[at].transfer.value;
            all.insert(id);
            proof {
                let longer = waiting.take(at + 1);
                let shorter = waiting.take(at as int);
                assert(longer =~= shorter.push(id));
                assert forall|x: u128| #[trigger] longer.to_set().contains(x)
                    <==> shorter.to_set().insert(id).contains(x) by {
                    if longer.contains(x) {
                        let i = choose|i: int| 0 <= i < longer.len() && longer[i] == x;
                        if i < at {
                            assert(shorter[i] == x);
                        }
                    }
                    if shorter.contains(x) {
                        let i = choose|i: int| 0 <= i < shorter.len() && shorter[i] == x;
                        assert(longer[i] == x);
                    }
                    assert(longer[at as int] == id);
                }
                assert(all@ =~= held.union(longer.to_set()));
            }
            at = at + 1;
        }
        assert(waiting.take(at as int) =~= waiting);
        let blocked = self.backpressured.to_vec();
        all.extend(&blocked);
        assert(all@ =~= old(self)@.abandoned(active));
        self.pending = Vec::new();
        self.pending_completion = IdSet::new();
        self.backpressured = IdSet::new();
        assert(self@ == old(self)@.aborted());
        let ids = all.to_vec();
        let mut effects: Vec<TransferRuntimeEffect> = Vec::new();
        let mut next: usize = 0;
        while next < ids.len()
            invariant
                next <= ids@.len(),
                effects@ == cancellations(ids@).take(next as int),
            decreases ids@.len() - next,
        {
            effects.push(TransferRuntimeEffect::Cancelled { transfer: TransferId { value: ids[next] } });
            assert(effects@ =~= cancellations(ids@).take(next + 1));
            next = next + 1;
        }
        assert(effects@ =~= cancellations(ids@));
        effects
    }

    /// Puts the next permission epoch in force before the peer hears of it. A
    /// revocation ends everything that is being received.
    pub fn update_local_grants(
        &mut self,
        epoch: u64,
        allows: bool,
        active: Option<TransferId>,
    ) -> (done: Result<Vec<TransferRuntimeEffect>, TransferRuntimeError>)
        requires
            old(self).wf(),
        ensures
            final(self).wf(),
            if epoch != old(self)@.config.local_grant_epoch + 1 {
                &&& done == Err::<Vec<TransferRuntimeEffect>, _>(TransferRuntimeError::Protocol)
                &&& final(self)@ == old(self)@
            } else if allows {
                &&& done matches Ok(effects) && effects@.len() == 0
                &&& final(self)@ == old(self)@.regranted(epoch, true)
            } else {
                &&& final(self)@ == old(self)@.regranted(epoch, false).aborted()
                &&& done matches Ok(effects) && exists|ids: Seq<u128>|
                    ascending(ids) && ids.to_set() == old(self)@.abandoned(active) && effects@
                        == #[trigger] cancellations(ids)
            },
    {
        if !is_next_epoch(self.config.local_grant_epoch, epoch) {
            return Err(TransferRuntimeError::Protocol);
        }
        self.config.local_grant_epoch = epoch;
        self.config.local_allows_peer_transfer = allows;
        self.inbound_manifest_sequence = None;
        self.inbound_data_sequence = None;
        self.outbound_resume_sequence = 0;
        assert(self@ == old(self)@.regranted(epoch, allows));
        if allows {
            Ok(Vec::new())
        } else {
            Ok(self.abort_inbound(active))
        }
    }

    /// Says which durable staging is known, and whether other staging counts.
    pub fn configure_persisted_resume(&mut self, known: &Vec<u128>, allow_untracked: bool)
        requires
            old(self).wf(),
        ensures
            final(self).wf(),
            final(self)@ == (PeerTransferModel {
                known_persisted: old(self)@.known_persisted.union(known@.to_set()),
                allow_untracked,
                ..old(self)@
            }),
    {
        self.known_persisted_inbound.extend(known);
        self.allow_untracked_persisted_resume = allow_untracked;
        assert(self@ == (PeerTransferModel {
            known_persisted: old(self)@.known_persisted.union(known@.to_set()),
            allow_untracked,
            ..old(self)@
        }));
    }

    fn require_peer_transfer_grant(&self) -> (granted: Result<(), TransferRuntimeError>)
        ensures
            granted == if self@.config.peer_capabilities.file_transfer {
                Ok(())
            } else {
                Err::<(), _>(TransferRuntimeError::GrantDenied)
            },
    {
        if self.config.peer_capabilities.file_transfer {
            Ok(())
        } else {
            Err(TransferRuntimeError::GrantDenied)
        }
    }

    fn meta(&self, sequence: u64, grant_epoch: u64) -> (meta: EventMeta)
        ensures
            meta == self@.meta(sequence, grant_epoch),
    {
        EventMeta {
            session_id: self.config.session_id,
            origin: self.config.local_device,
            sequence,
            grant_epoch,
            capability: Capability::file_transfer_only(),
        }
    }

    /// Metadata for the next message that starts something on the peer's side.
    pub fn next_manifest_meta(&mut self) -> (next: Result<EventMeta, TransferRuntimeError>)
        requires
            old(self).wf(),
        ensures
            final(self).wf(),
            match (next, old(self)@.next_manifest()) {
                (Ok(meta), Ok((expected, after))) => meta == expected && final(self)@ == after,
                (Err(error), Err(expected)) => error == expected && final(self)@ == old(self)@,
                _ => false,
            },
    {
        if let Err(error) = self.require_peer_transfer_grant() {
            return Err(error);
        }
        match self.outbound_manifest_sequence.checked_add(1) {
            None => Err(TransferRuntimeError::SequenceExhausted),
            Some(sequence) => {
                self.outbound_manifest_sequence = sequence;
                let meta = self.meta(sequence, self.config.peer_grant_epoch);
                assert(old(self)@.next_manifest() == Ok::<_, TransferRuntimeError>((meta, self@)));
                Ok(meta)
            },
        }
    }

    /// Metadata for the next answer to the peer.
    pub fn next_response_meta(&mut self) -> (next: Result<EventMeta, TransferRuntimeError>)
        requires
            old(self).wf(),
        ensures
            final(self).wf(),
            match (next, old(self)@.next_response()) {
                (Ok(meta), Ok((expected, after))) => meta == expected && final(self)@ == after,
                (Err(error), Err(expected)) => error == expected && final(self)@ == old(self)@,
                _ => false,
            },
    {
        if !self.config.local_allows_peer_transfer {
            return Err(TransferRuntimeError::GrantDenied);
        }
        match self.outbound_resume_sequence.checked_add(1) {
            None => Err(TransferRuntimeError::SequenceExhausted),
            Some(sequence) => {
                self.outbound_resume_sequence = sequence;
                let meta = self.meta(sequence, self.config.local_grant_epoch);
                assert(old(self)@.next_response() == Ok::<_, TransferRuntimeError>((meta, self@)));
                Ok(meta)
            },
        }
    }

    /// Metadata for the next chunk.
    pub fn next_data_meta(&mut self) -> (next: Result<EventMeta, TransferRuntimeError>)
        requires
            old(self).wf(),
        ensures
            final(self).wf(),
            match (next, old(self)@.next_data()) {
                (Ok(meta), Ok((expected, after))) => meta == expected && final(self)@ == after,
                (Err(error), Err(expected)) => error == expected && final(self)@ == old(self)@,
                _ => false,
            },
    {
        if let Err(error) = self.require_peer_transfer_grant() {
            return Err(error);
        }
        match self.outbound_data_sequence.checked_add(1) {
            None => Err(TransferRuntimeError::SequenceExhausted),
            Some(sequence) => {
                self.outbound_data_sequence = sequence;
                let meta = self.meta(sequence, self.config.peer_grant_epoch);
                assert(old(self)@.next_data() == Ok::<_, TransferRuntimeError>((meta, self@)));
                Ok(meta)
            },
        }
    }

    /// Announces a transfer of this side.
    pub fn encode_manifest_frame(&mut self, transfer: TransferId) -> (frame: Result<
        FileManifestMessage,
        TransferRuntimeError,
    >)
        requires
            old(self).wf(),
        ensures
            final(self).wf(),
            match (frame, old(self)@.next_manifest()) {
                (Ok(message), Ok((meta, after))) => message == (FileManifestMessage::Manifest { meta, transfer })
                    && final(self)@ == after,
                (Err(error), Err(expected)) => error == expected && final(self)@ == old(self)@,
                _ => false,
            },
    {
        match self.next_manifest_meta() {
            Err(error) => Err(error),
            Ok(meta) => Ok(FileManifestMessage::Manifest { meta, transfer }),
        }
    }

    /// Accepts data of the peer from an offset.
    pub fn encode_resume_frame(&mut self, transfer: TransferId, entry_index: u32, offset: u64) -> (frame: Result<
        FileManifestMessage,
        TransferRuntimeError,
    >)
        requires
            old(self).wf(),
        ensures
            final(self).wf(),
            match (frame, old(self)@.next_response()) {
                (Ok(message), Ok((meta, after))) => message == (FileManifestMessage::Resume { meta, transfer, entry_index, offset })
                    && final(self)@ == after,
                (Err(error), Err(expected)) => error == expected && final(self)@ == old(self)@,
                _ => false,
            },
    {
        match self.next_response_meta() {
            Err(error) => Err(error),
            Ok(meta) => Ok(FileManifestMessage::Resume { meta, transfer, entry_index, offset }),
        }
    }

    /// Refuses a transfer of the peer.
    pub fn encode_cancel_frame(&mut self, transfer: TransferId, reason: u16) -> (frame: Result<
        FileManifestMessage,
        TransferRuntimeError,
    >)
        requires
            old(self).wf(),
        ensures
            final(self).wf(),
            match (frame, old(self)@.next_response()) {
                (Ok(message), Ok((meta, after))) => message == (FileManifestMessage::Cancel { meta, transfer, reason })
                    && final(self)@ == after,
                (Err(error), Err(expected)) => error == expected && final(self)@ == old(self)@,
                _ => false,
            },
    {
        match self.next_response_meta() {
            Err(error) => Err(error),
            Ok(meta) => Ok(FileManifestMessage::Cancel { meta, transfer, reason }),
        }
    }

    /// Gives up a transfer of this side.
    pub fn encode_outbound_cancel_frame(&mut self, transfer: TransferId, reason: u16) -> (frame: Result<
        FileManifestMessage,
        TransferRuntimeError,
    >)
        requires
            old(self).wf(),
        ensures
            final(self).wf(),
            match (frame, old(self)@.next_manifest()) {
                (Ok(message), Ok((meta, after))) => message == (FileManifestMessage::Cancel { meta, transfer, reason })
                    && final(self)@ == after,
                (Err(error), Err(expected)) => error == expected && final(self)@ == old(self)@,
                _ => false,
            },
    {
        match self.next_manifest_meta() {
            Err(error) => Err(error),
            Ok(meta) => Ok(FileManifestMessage::Cancel { meta, transfer, reason }),
        }
    }

    /// Says that the source has reached its end.
    pub fn encode_complete_frame(&mut self, transfer: TransferId) -> (frame: Result<
        FileManifestMessage,
        TransferRuntimeError,
    >)
        requires
            old(self).wf(),
        ensures
            final(self).wf(),
            match (frame, old(self)@.next_manifest()) {
                (Ok(message), Ok((meta, after))) => message == (FileManifestMessage::Complete { meta, transfer })
                    && final(self)@ == after,
                (Err(error), Err(expected)) => error == expected && final(self)@ == old(self)@,
                _ => false,
            },
    {
        match self.next_manifest_meta() {
            Err(error) => Err(error),
            Ok(meta) => Ok(FileManifestMessage::Complete { meta, transfer }),
        }
    }

    /// Says that a transfer of the peer was published.
    pub fn encode_complete_ack_frame(&mut self, transfer: TransferId) -> (frame: Result<
        FileManifestMessage,
        TransferRuntimeError,
    >)
        requires
            old(self).wf(),
        ensures
            final(self).wf(),
            match (frame, old(self)@.next_response()) {
                (Ok(message), Ok((meta, after))) => message == (FileManifestMessage::Complete { meta, transfer })
                    && final(self)@ == after,
                (Err(error), Err(expected)) => error == expected && final(self)@ == old(self)@,
                _ => false,
            },
    {
        match self.next_response_meta() {
            Err(error) => Err(error),
            Ok(meta) => Ok(FileManifestMessage::Complete { meta, transfer }),
        }
    }

    /// Announces one chunk.
    pub fn encode_data_frame(&mut self, transfer: TransferId, entry_index: u32, offset: u64) -> (frame: Result<
        FileDataMessage,
        TransferRuntimeError,
    >)
        requires
            old(self).wf(),
        ensures
            final(self).wf(),
            match (frame, old(self)@.next_data()) {
                (Ok(message), Ok((meta, after))) => message == (FileDataMessage::Chunk { meta, transfer, entry_index, offset })
                    && final(self)@ == after,
                (Err(error), Err(expected)) => error == expected && final(self)@ == old(self)@,
                _ => false,
            },
    {
        match self.next_data_meta() {
            Err(error) => Err(error),
            Ok(meta) => Ok(FileDataMessage::Chunk { meta, transfer, entry_index, offset }),
        }
    }
}

pub open spec fn resumed_effects(
    transfer: TransferId,
    progress: ReceiveProgress,
    offsets: Seq<u64>,
) -> Seq<TransferRuntimeEffect> {
    seq![
        TransferRuntimeEffect::Admitted { transfer, total_bytes: progress.total_bytes },
        TransferRuntimeEffect::Started { transfer },
    ] + (if progress.completed_bytes != 0 {
        seq![
            TransferRuntimeEffect::Progress {
                transfer,
                completed_bytes: progress.completed_bytes,
                total_bytes: progress.total_bytes,
            },
        ]
    } else {
        seq![]
    }) + resumes(transfer, offsets)
}

/// Replay lanes are independent: what is accepted on one moves no other, and a
/// sequence number that was accepted is never accepted on its lane again.
pub proof fn law_replay_lanes_are_independent(
    model: PeerTransferModel,
    meta: EventMeta,
    message: FileManifestMessage,
    queued: bool,
)
    ensures
        model.checked(message, queued) matches Ok(after) ==> {
            &&& after.data_sequence == model.data_sequence
            &&& after.manifest_sequence == model.manifest_sequence || after.resume_sequence
                == model.resume_sequence
            &&& after.checked(message, queued) is Err
        },
        model.remote_meta_error(meta, model.data_sequence) is None ==> {
            let after = model.with_lane(SequenceLane::Data, meta.sequence);
            &&& after.manifest_sequence == model.manifest_sequence
            &&& after.resume_sequence == model.resume_sequence
            &&& after.remote_meta_error(meta, after.data_sequence) == Some(
                TransferRuntimeError::Replay,
            )
        },
{
}

/// A message that this side sends as a start is one that the peer takes as a
/// start, and an answer is one that it takes as an answer, when the two sides
/// agree on the session, the devices, the epochs and the grants.
pub proof fn law_peers_accept_each_other(sender: PeerTransferModel, receiver: PeerTransferModel)
    requires
        receiver.config.session_id == sender.config.session_id,
        receiver.config.peer_device == sender.config.local_device,
        receiver.config.local_grant_epoch == sender.config.peer_grant_epoch,
        receiver.config.peer_grant_epoch == sender.config.local_grant_epoch,
        receiver.config.local_allows_peer_transfer
            == sender.config.peer_capabilities.file_transfer,
        receiver.config.peer_capabilities.file_transfer
            == sender.config.local_allows_peer_transfer,
    ensures
        sender.next_manifest() matches Ok((meta, _)) ==> (receiver.remote_meta_error(
            meta,
            receiver.manifest_sequence,
        ) is None <==> advances(receiver.manifest_sequence, meta.sequence)),
        sender.next_response() matches Ok((meta, _)) ==> (receiver.response_meta_error(meta) is None
            <==> advances(receiver.resume_sequence, meta.sequence)),
        sender.next_data() matches Ok((meta, _)) ==> (receiver.remote_meta_error(
            meta,
            receiver.data_sequence,
        ) is None <==> advances(receiver.data_sequence, meta.sequence)),
{
}

/// A transfer that was published or refused is never received again: a manifest
/// is answered with what became of it, and its data is dropped.
pub proof fn law_ended_transfers_are_not_received_again(
    model: PeerTransferModel,
    meta: EventMeta,
    transfer: TransferId,
    state: Option<TransferQueueState>,
    progress: Option<ReceiveProgress>,
)
    requires
        transfer.value != 0,
    ensures
        model.completed.contains(transfer.value) ==> model.step(
            FileManifestMessage::Manifest { meta, transfer },
            state,
            progress,
        ) == Ok::<_, TransferRuntimeError>(
            ManifestStep::Effect(
                Some(TransferRuntimeEffect::CompletionAcknowledgementRequired { transfer }),
            ),
        ),
        model.rejected.contains(transfer.value) && !model.completed.contains(transfer.value)
            ==> model.step(
            FileManifestMessage::Manifest { meta, transfer },
            state,
            progress,
        ) == Ok::<_, TransferRuntimeError>(
            ManifestStep::Effect(
                Some(TransferRuntimeEffect::RejectionAcknowledgementRequired { transfer }),
            ),
        ),
{
}

/// A message that starts something here is accepted exactly if it is of this
/// session, from this peer, under this side's current grant, for files alone,
/// which this side allows, and goes on in its lane.
pub proof fn law_starting_messages_are_checked(
    model: PeerTransferModel,
    meta: EventMeta,
    last: Option<u64>,
)
    ensures
        ({
            let error = model.remote_meta_error(meta, last);
            let known = meta.session_id == model.config.session_id && meta.origin
                == model.config.peer_device && meta.grant_epoch == model.config.local_grant_epoch;
            let granted = meta.capability.file_transfer && !meta.capability.remote_input
                && !meta.capability.clipboard_read && !meta.capability.clipboard_write
                && model.config.local_allows_peer_transfer;
            let fresh = meta.sequence > 0 && (last matches Some(value) ==> meta.sequence > value);
            &&& error is None <==> known && granted && fresh
            &&& error == Some(TransferRuntimeError::Authentication) <==> !known
            &&& error == Some(TransferRuntimeError::GrantDenied) <==> known && !granted
            &&& error == Some(TransferRuntimeError::Replay) <==> known && granted && !fresh
        }),
{
}

/// A message that answers something of this side is accepted exactly if it is of
/// this session, from this peer, under the peer's current grant, for files alone,
/// which the peer allows, and goes on in the lane of answers.
pub proof fn law_answering_messages_are_checked(model: PeerTransferModel, meta: EventMeta)
    ensures
        ({
            let error = model.response_meta_error(meta);
            let known = meta.session_id == model.config.session_id && meta.origin
                == model.config.peer_device && meta.grant_epoch == model.config.peer_grant_epoch;
            let granted = meta.capability.file_transfer && !meta.capability.remote_input
                && !meta.capability.clipboard_read && !meta.capability.clipboard_write
                && model.config.peer_capabilities.file_transfer;
            let fresh = meta.sequence > 0 && (model.resume_sequence matches Some(value)
                ==> meta.sequence > value);
            &&& error is None <==> known && granted && fresh
            &&& error == Some(TransferRuntimeError::Authentication) <==> !known
            &&& error == Some(TransferRuntimeError::GrantDenied) <==> known && !granted
            &&& error == Some(TransferRuntimeError::Replay) <==> known && granted && !fresh
        }),
{
}

/// A manifest is checked as what starts something and a resume as an answer; an
/// end belongs to the side whose transfer it is. A message moves its own lane on,
/// and no other.
pub proof fn law_messages_are_checked_in_their_lane(
    model: PeerTransferModel,
    message: FileManifestMessage,
    queued: bool,
)
    ensures
        message is Unknown ==> model.checked(message, queued) is Err,
        message matches FileManifestMessage::Manifest { meta, .. } ==> {
            let error = model.remote_meta_error(meta, model.manifest_sequence);
            &&& error matches Some(cause) ==> model.checked(message, queued) == Err::<
                PeerTransferModel,
                _,
            >(cause)
            &&& error is None ==> model.checked(message, queued) == Ok::<_, TransferRuntimeError>(
                PeerTransferModel { manifest_sequence: Some(meta.sequence), ..model },
            )
        },
        message matches FileManifestMessage::Resume { meta, .. } ==> {
            let error = model.response_meta_error(meta);
            &&& error matches Some(cause) ==> model.checked(message, queued) == Err::<
                PeerTransferModel,
                _,
            >(cause)
            &&& error is None ==> model.checked(message, queued) == Ok::<_, TransferRuntimeError>(
                PeerTransferModel { resume_sequence: Some(meta.sequence), ..model },
            )
        },
{
}

/// The end of a transfer that this side receives, or has received, is checked as
/// what starts something here; the end of any other as an answer.
pub proof fn law_ends_are_checked_by_whose_they_are(
    model: PeerTransferModel,
    meta: EventMeta,
    transfer: TransferId,
    reason: u16,
    queued: bool,
)
    ensures
        ({
            let own = queued || model.rejected.contains(transfer.value)
                || model.completed.contains(transfer.value);
            let cancel = model.checked(
                FileManifestMessage::Cancel { meta, transfer, reason },
                queued,
            );
            let complete = model.checked(FileManifestMessage::Complete { meta, transfer }, queued);
            &&& cancel == complete
            &&& transfer.value == 0 ==> cancel == Err::<PeerTransferModel, _>(
                TransferRuntimeError::Protocol,
            )
            &&& transfer.value != 0 && own ==> match model.remote_meta_error(
                meta,
                model.manifest_sequence,
            ) {
                Some(error) => cancel == Err::<PeerTransferModel, _>(error),
                None => cancel == Ok::<_, TransferRuntimeError>(
                    PeerTransferModel { manifest_sequence: Some(meta.sequence), ..model },
                ),
            }
            &&& transfer.value != 0 && !own ==> match model.response_meta_error(meta) {
                Some(error) => cancel == Err::<PeerTransferModel, _>(error),
                None => cancel == Ok::<_, TransferRuntimeError>(
                    PeerTransferModel { resume_sequence: Some(meta.sequence), ..model },
                ),
            }
        }),
{
}

/// A manifest is opened unless its transfer is over: then the peer is told again
/// how it ended. A resume reaches the sender unless its transfer was cancelled.
pub proof fn law_manifests_and_resumes_lead_on(
    model: PeerTransferModel,
    message: FileManifestMessage,
    state: Option<TransferQueueState>,
    progress: Option<ReceiveProgress>,
)
    ensures
        message is Unknown ==> model.step(message, state, progress) == Err::<ManifestStep, _>(
            TransferRuntimeError::Protocol,
        ),
        message matches FileManifestMessage::Manifest { transfer, .. } ==> {
            let step = model.step(message, state, progress);
            let done = model.completed.contains(transfer.value);
            let refused = model.rejected.contains(transfer.value);
            &&& transfer.value == 0 ==> step == Err::<ManifestStep, _>(
                TransferRuntimeError::Protocol,
            )
            &&& transfer.value != 0 && done ==> step == Ok::<_, TransferRuntimeError>(
                ManifestStep::Effect(
                    Some(TransferRuntimeEffect::CompletionAcknowledgementRequired { transfer }),
                ),
            )
            &&& transfer.value != 0 && !done && refused ==> step == Ok::<_, TransferRuntimeError>(
                ManifestStep::Effect(
                    Some(TransferRuntimeEffect::RejectionAcknowledgementRequired { transfer }),
                ),
            )
            &&& transfer.value != 0 && !done && !refused ==> step == Ok::<_, TransferRuntimeError>(
                ManifestStep::Open(transfer),
            )
        },
        message matches FileManifestMessage::Resume { transfer, entry_index, offset, .. } ==> {
            let step = model.step(message, state, progress);
            let given_up = model.cancelled_outbound.contains(transfer.value);
            &&& transfer.value == 0 ==> step == Err::<ManifestStep, _>(
                TransferRuntimeError::Protocol,
            )
            &&& transfer.value != 0 && given_up ==> step == Ok::<_, TransferRuntimeError>(
                ManifestStep::Effect(None),
            )
            &&& transfer.value != 0 && !given_up ==> step == Ok::<_, TransferRuntimeError>(
                ManifestStep::Effect(
                    Some(
                        TransferRuntimeEffect::PeerResumeRequested {
                            transfer,
                            entry_index,
                            offset,
                        },
                    ),
                ),
            )
        },
{
}

/// A cancellation ends a transfer that is queued here, with its receiver where it
/// is the active one; of one that is refused already it says nothing new, and of
/// one that is completed the peer is told so. Any other one is a transfer of this
/// side, and reaches its sender unless it was given up.
pub proof fn law_cancellations_lead_on(
    model: PeerTransferModel,
    meta: EventMeta,
    transfer: TransferId,
    reason: u16,
    state: Option<TransferQueueState>,
    progress: Option<ReceiveProgress>,
)
    ensures
        ({
            let message = FileManifestMessage::Cancel { meta, transfer, reason };
            let step = model.step(message, state, progress);
            let done = model.completed.contains(transfer.value);
            let refused = model.rejected.contains(transfer.value);
            let given_up = model.cancelled_outbound.contains(transfer.value);
            &&& transfer.value == 0 ==> step == Err::<ManifestStep, _>(
                TransferRuntimeError::Protocol,
            )
            &&& transfer.value != 0 ==> {
                &&& refused ==> step == Ok::<_, TransferRuntimeError>(ManifestStep::Effect(None))
                &&& !refused && done ==> step == Ok::<_, TransferRuntimeError>(
                    ManifestStep::Effect(
                        Some(TransferRuntimeEffect::CompletionAcknowledgementRequired { transfer }),
                    ),
                )
                &&& !refused && !done ==> match state {
                    Some(TransferQueueState::Active) => step == Ok::<_, TransferRuntimeError>(
                        ManifestStep::Cancel { transfer, active: true },
                    ),
                    Some(TransferQueueState::Queued) => step == Ok::<_, TransferRuntimeError>(
                        ManifestStep::Cancel { transfer, active: false },
                    ),
                    Some(TransferQueueState::Paused) => step == Ok::<_, TransferRuntimeError>(
                        ManifestStep::Cancel { transfer, active: false },
                    ),
                    Some(TransferQueueState::Terminal) => step == Err::<ManifestStep, _>(
                        TransferRuntimeError::Protocol,
                    ),
                    None => step == Ok::<_, TransferRuntimeError>(
                        ManifestStep::Effect(
                            if given_up {
                                None
                            } else {
                                Some(TransferRuntimeEffect::PeerCancelRequested { transfer })
                            },
                        ),
                    ),
                }
            }
            &&& model.after_step(message, state, progress) == model
        }),
{
}

/// The end of a transfer that is received finalizes it when its last byte is
/// there, and is kept until then. Of a transfer of this side it is the peer's
/// word that it has everything. Of one that is over the peer is told how.
pub proof fn law_completions_lead_on(
    model: PeerTransferModel,
    meta: EventMeta,
    transfer: TransferId,
    state: Option<TransferQueueState>,
    progress: Option<ReceiveProgress>,
)
    ensures
        ({
            let message = FileManifestMessage::Complete { meta, transfer };
            let step = model.step(message, state, progress);
            let after = model.after_step(message, state, progress);
            let done = model.completed.contains(transfer.value);
            let refused = model.rejected.contains(transfer.value);
            let given_up = model.cancelled_outbound.contains(transfer.value);
            let open = transfer.value != 0 && !refused && !done;
            let receives = state == Some(TransferQueueState::Active) && progress is Some;
            let whole = progress matches Some(known) && known.completed_bytes == known.total_bytes;
            &&& transfer.value == 0 ==> step == Err::<ManifestStep, _>(
                TransferRuntimeError::Protocol,
            )
            &&& transfer.value != 0 && refused ==> step == Ok::<_, TransferRuntimeError>(
                ManifestStep::Effect(
                    Some(TransferRuntimeEffect::RejectionAcknowledgementRequired { transfer }),
                ),
            )
            &&& transfer.value != 0 && !refused && done ==> step == Ok::<_, TransferRuntimeError>(
                ManifestStep::Effect(
                    Some(TransferRuntimeEffect::CompletionAcknowledgementRequired { transfer }),
                ),
            )
            &&& open && state is None ==> step == Ok::<_, TransferRuntimeError>(
                ManifestStep::Effect(
                    if given_up {
                        None
                    } else {
                        Some(TransferRuntimeEffect::PeerCompleteAcknowledged { transfer })
                    },
                ),
            )
            &&& open && state is Some && !receives ==> step == Err::<ManifestStep, _>(
                TransferRuntimeError::Protocol,
            )
            &&& open && receives && whole ==> step == Ok::<_, TransferRuntimeError>(
                ManifestStep::Effect(Some(TransferRuntimeEffect::FinalizeRequired { transfer })),
            )
            &&& open && receives && !whole ==> step == Ok::<_, TransferRuntimeError>(
                ManifestStep::Effect(None),
            )
            &&& open && receives && !whole ==> after == (PeerTransferModel {
                pending_completion: model.pending_completion.insert(transfer.value),
                ..model
            })
            &&& !(open && receives && !whole) ==> after == model
        }),
{
}

/// What is over is kept without a loss: everything that was kept and everything
/// that is new, or, where that is too much, nothing changes and the limit is told.
pub proof fn law_ended_transfers_are_kept_or_refused(
    retained: Set<u128>,
    ids: Set<u128>,
    limit: usize,
    id: u128,
)
    ensures
        tombstoned(retained, ids, limit) matches Ok(all) ==> {
            &&& all.contains(id) <==> retained.contains(id) || ids.contains(id)
            &&& all.len() <= limit
        },
        tombstoned(retained, ids, limit) matches Err(error) ==> error is Backpressure
            && retained.union(ids).len() > limit,
{
}

/// A manifest that waits takes the place of an earlier one of the same transfer,
/// and else waits last; taking one away leaves the others in order.
pub proof fn law_waiting_manifests_keep_their_places(
    pending: Seq<PendingManifest>,
    new: PendingManifest,
    place: int,
)
    requires
        forall|i: int, j: int|
            0 <= i < j < pending.len() ==> (#[trigger] pending[i]).transfer != (
            #[trigger] pending[j]).transfer,
    ensures
        (forall|i: int|
            0 <= i < pending.len() ==> (#[trigger] pending[i]).transfer != new.transfer) ==> {
            &&& with_pending(pending, new) == pending.push(new)
            &&& without_pending(pending, new.transfer) == pending
        },
        0 <= place < pending.len() && pending[place].transfer == new.transfer ==> {
            &&& with_pending(pending, new) == pending.update(place, new)
            &&& without_pending(pending, new.transfer) == pending.remove(place)
        },
{
    lemma_pending_place_holds(pending, new.transfer);
    let at = pending_place(pending, new.transfer);
    if at >= 0 && 0 <= place < pending.len() && pending[place].transfer == new.transfer {
        assert(at == place) by {
            if at < place {
                assert(pending[at].transfer != pending[place].transfer);
            } else if place < at {
                assert(pending[place].transfer != pending[at].transfer);
            }
        }
    }
}

proof fn lemma_pending_place_holds(pending: Seq<PendingManifest>, transfer: TransferId)
    ensures
        -1 <= pending_place(pending, transfer) < pending.len(),
        pending_place(pending, transfer) >= 0 ==> pending[pending_place(
            pending,
            transfer,
        )].transfer == transfer,
        pending_place(pending, transfer) < 0 ==> forall|i: int|
            0 <= i < pending.len() ==> (#[trigger] pending[i]).transfer != transfer,
    decreases pending.len(),
{
    if pending.len() > 0 && pending.last().transfer != transfer {
        let rest = pending.drop_last();
        lemma_pending_place_holds(rest, transfer);
        if pending_place(rest, transfer) < 0 {
            assert forall|i: int| 0 <= i < pending.len() implies (#[trigger] pending[i]).transfer
                != transfer by {
                if i < rest.len() {
                    assert(rest[i].transfer != transfer);
                }
            }
        }
    }
}

/// What this side sends is numbered in its own lane, one after the other, until
/// the numbers are used up. What starts something at the peer, and data, needs the
/// peer's grant and names its epoch; what answers the peer needs this side's.
pub proof fn law_sent_messages_are_numbered_in_their_lane(model: PeerTransferModel)
    ensures
        ({
            let peer_grants = model.config.peer_capabilities.file_transfer;
            let own_grants = model.config.local_allows_peer_transfer;
            &&& model.next_manifest() is Ok <==> peer_grants && model.outbound_manifest_sequence
                < u64::MAX
            &&& model.next_response() is Ok <==> own_grants && model.outbound_resume_sequence
                < u64::MAX
            &&& model.next_data() is Ok <==> peer_grants && model.outbound_data_sequence < u64::MAX
            &&& !peer_grants ==> model.next_manifest()->Err_0 is GrantDenied
                && model.next_data()->Err_0 is GrantDenied
            &&& !own_grants ==> model.next_response()->Err_0 is GrantDenied
            &&& peer_grants && model.next_manifest() is Err ==> model.next_manifest()->Err_0
                is SequenceExhausted
            &&& own_grants && model.next_response() is Err ==> model.next_response()->Err_0
                is SequenceExhausted
            &&& peer_grants && model.next_data() is Err ==> model.next_data()->Err_0
                is SequenceExhausted
            &&& model.next_manifest() matches Ok((meta, after)) ==> meta.sequence
                == model.outbound_manifest_sequence + 1 && meta.grant_epoch
                == model.config.peer_grant_epoch && after == (PeerTransferModel {
                outbound_manifest_sequence: meta.sequence,
                ..model
            })
            &&& model.next_response() matches Ok((meta, after)) ==> meta.sequence
                == model.outbound_resume_sequence + 1 && meta.grant_epoch
                == model.config.local_grant_epoch && after == (PeerTransferModel {
                outbound_resume_sequence: meta.sequence,
                ..model
            })
            &&& model.next_data() matches Ok((meta, after)) ==> meta.sequence
                == model.outbound_data_sequence + 1 && meta.grant_epoch
                == model.config.peer_grant_epoch && after == (PeerTransferModel {
                outbound_data_sequence: meta.sequence,
                ..model
            })
        }),
{
}

/// What this side sends names this session, this device and the right to send
/// files alone.
pub proof fn law_sent_messages_name_their_sender(
    model: PeerTransferModel,
    sequence: u64,
    grant_epoch: u64,
)
    ensures
        ({
            let meta = model.meta(sequence, grant_epoch);
            &&& meta.session_id == model.config.session_id
            &&& meta.origin == model.config.local_device
            &&& meta.sequence == sequence
            &&& meta.grant_epoch == grant_epoch
            &&& meta.capability.file_transfer && !meta.capability.remote_input
                && !meta.capability.clipboard_read && !meta.capability.clipboard_write
        }),
{
}

/// Forgetting a transfer takes it out of everything that waits; an abort takes
/// everything out. What is over stays known, and the lanes stay where they are.
pub proof fn law_nothing_waits_for_what_is_given_up(model: PeerTransferModel, transfer: TransferId)
    ensures
        ({
            let after = model.forgotten(transfer);
            &&& !after.pending_completion.contains(transfer.value)
            &&& !after.backpressured.contains(transfer.value)
            &&& after.pending == without_pending(model.pending, transfer)
            &&& forall|other: u128|
                other != transfer.value ==> (#[trigger] after.pending_completion.contains(other)
                    <==> model.pending_completion.contains(other))
            &&& forall|other: u128|
                other != transfer.value ==> (#[trigger] after.backpressured.contains(other)
                    <==> model.backpressured.contains(other))
            &&& after == (PeerTransferModel {
                pending: after.pending,
                pending_completion: after.pending_completion,
                backpressured: after.backpressured,
                ..model
            })
        }),
        ({
            let after = model.aborted();
            &&& after.pending.len() == 0
            &&& forall|other: u128| !#[trigger] after.pending_completion.contains(other)
            &&& forall|other: u128| !#[trigger] after.backpressured.contains(other)
            &&& after == (PeerTransferModel {
                pending: after.pending,
                pending_completion: after.pending_completion,
                backpressured: after.backpressured,
                ..model
            })
        }),
{
}

/// A transfer that is taken in waits with its manifest; the peer holds back its
/// data exactly while another one is active.
pub proof fn law_admitted_manifests_wait(
    model: PeerTransferModel,
    new: PendingManifest,
    waits: bool,
)
    ensures
        ({
            let after = model.admitted(new, waits);
            &&& after.pending == with_pending(model.pending, new)
            &&& waits ==> after.backpressured.contains(new.transfer.value)
            &&& !waits ==> after.backpressured == model.backpressured
            &&& after == (PeerTransferModel {
                pending: after.pending,
                backpressured: after.backpressured,
                ..model
            })
            &&& admitted_effects(new.transfer, 0, waits).len() == if waits {
                2nat
            } else {
                1
            }
        }),
{
}

/// An abort ends everything that waits, everything that is held back, and what is
/// being received.
pub proof fn law_aborts_end_everything(
    model: PeerTransferModel,
    active: Option<TransferId>,
    id: u128,
    at: int,
)
    ensures
        0 <= at < model.pending.len() ==> model.abandoned(active).contains(
            model.pending[at].transfer.value,
        ),
        model.backpressured.contains(id) ==> model.abandoned(active).contains(id),
        active matches Some(transfer) ==> model.abandoned(active).contains(transfer.value),
        model.abandoned(active).contains(id) ==> {
            ||| exists|i: int|
                0 <= i < model.pending.len() && (#[trigger] model.pending[i]).transfer.value == id
            ||| model.backpressured.contains(id)
            ||| active matches Some(transfer) && transfer.value == id
        },
{
    let values = model.pending.map_values(|waiting: PendingManifest| waiting.transfer.value);
    if 0 <= at < model.pending.len() {
        assert(values[at] == model.pending[at].transfer.value);
        assert(values.contains(values[at]));
    }
    if model.abandoned(active).contains(id) && !model.backpressured.contains(id) && !(
    active matches Some(transfer) && transfer.value == id) {
        assert(values.to_set().contains(id));
        let i = choose|i: int| 0 <= i < values.len() && values[i] == id;
        assert(model.pending[i].transfer.value == id);
    }
}

/// A new grant starts the lanes anew that hang on it: what the peer starts here,
/// its data, and what this side answers. The other lanes go on.
pub proof fn law_new_grants_start_their_lanes_anew(
    model: PeerTransferModel,
    epoch: u64,
    allows: bool,
)
    ensures
        ({
            let after = model.regranted(epoch, allows);
            &&& after.config.local_grant_epoch == epoch
            &&& after.config.local_allows_peer_transfer == allows
            &&& after.config.peer_grant_epoch == model.config.peer_grant_epoch
            &&& after.config.peer_capabilities == model.config.peer_capabilities
            &&& after.config.session_id == model.config.session_id
            &&& after.config.local_device == model.config.local_device
            &&& after.config.peer_device == model.config.peer_device
            &&& after.manifest_sequence is None
            &&& after.data_sequence is None
            &&& after.outbound_resume_sequence == 0
            &&& after.resume_sequence == model.resume_sequence
            &&& after.outbound_manifest_sequence == model.outbound_manifest_sequence
            &&& after.outbound_data_sequence == model.outbound_data_sequence
            &&& after.pending == model.pending
            &&& after.completed == model.completed
            &&& after.rejected == model.rejected
            &&& after.cancelled_outbound == model.cancelled_outbound
        }),
{
}

/// What the session is told when transfers are admitted, begun, resumed and given
/// up names each transfer and each entry in order: an entry goes on at its own
/// offset, and from the start where the transfer begins.
pub proof fn law_sessions_are_told_in_order(
    manifest: PendingManifest,
    released: bool,
    waits: bool,
    progress: ReceiveProgress,
    offsets: Seq<u64>,
    ids: Seq<u128>,
    i: int,
)
    requires
        offsets.len() <= 0x1_0000_0000,
        manifest.entry_count <= 0x1_0000_0000,
    ensures
        ({
            let transfer = manifest.transfer;
            let begun = begun_effects(manifest, released);
            let first: int = if released {
                1
            } else {
                0
            };
            let admitted = admitted_effects(transfer, progress.total_bytes, waits);
            let resumed = resumed_effects(transfer, progress, offsets);
            let told: int = if progress.completed_bytes != 0 {
                3
            } else {
                2
            };
            &&& released ==> begun[0] == (TransferRuntimeEffect::BackpressureReleased { transfer })
            &&& begun[first] == (TransferRuntimeEffect::Started { transfer })
            &&& begun.len() == first + 1 + manifest.entry_count
            &&& 0 <= i < manifest.entry_count ==> (begun[first + 1 + i] matches
                TransferRuntimeEffect::ResumeRequired { transfer: of, entry_index, offset } && of
                == transfer && entry_index == i && offset == 0)
            &&& admitted[0] == (TransferRuntimeEffect::Admitted {
                transfer,
                total_bytes: progress.total_bytes,
            })
            &&& waits ==> admitted.len() == 2 && admitted[1] == (
            TransferRuntimeEffect::Backpressured { transfer })
            &&& !waits ==> admitted.len() == 1
            &&& resumed[0] == (TransferRuntimeEffect::Admitted {
                transfer,
                total_bytes: progress.total_bytes,
            })
            &&& resumed[1] == (TransferRuntimeEffect::Started { transfer })
            &&& progress.completed_bytes != 0 ==> resumed[2] == (TransferRuntimeEffect::Progress {
                transfer,
                completed_bytes: progress.completed_bytes,
                total_bytes: progress.total_bytes,
            })
            &&& resumed.len() == told + offsets.len()
            &&& 0 <= i < offsets.len() ==> (resumed[told + i] matches
                TransferRuntimeEffect::ResumeRequired { transfer: of, entry_index, offset } && of
                == transfer && entry_index == i && offset == offsets[i])
            &&& cancellations(ids).len() == ids.len()
            &&& 0 <= i < ids.len() ==> (cancellations(ids)[i] matches
                TransferRuntimeEffect::Cancelled { transfer: of } && of.value == ids[i])
        }),
{
}

/// A transfer is finalized once it is whole and its end was told, whichever of
/// the two comes last.
pub proof fn law_whole_transfers_are_finalized(
    runtime: &mut PeerTransferRuntime,
    transfer: TransferId,
    progress: ReceiveProgress,
    effects: Vec<TransferRuntimeEffect>,
)
    requires
        call_ensures(PeerTransferRuntime::data_written, (runtime, transfer, progress), effects),
    ensures
        effects@.len() > 0,
        effects@[0] == (TransferRuntimeEffect::Progress {
            transfer,
            completed_bytes: progress.completed_bytes,
            total_bytes: progress.total_bytes,
        }),
        effects@.len() == 2 <==> progress.completed_bytes == progress.total_bytes && old(
            runtime,
        )@.pending_completion.contains(transfer.value),
        effects@.len() == 2 ==> effects@[1] == (TransferRuntimeEffect::FinalizeRequired {
            transfer,
        }),
        effects@.len() <= 2,
        progress.completed_bytes == progress.total_bytes ==> !final(runtime)@.pending_completion.contains(transfer.value),
        progress.completed_bytes != progress.total_bytes ==> final(runtime)@ == old(runtime)@,
{
}

/// Data is written of a transfer that is received, dropped of one that is over,
/// and a violation otherwise.
pub proof fn law_data_is_written_of_active_transfers(
    runtime: &mut PeerTransferRuntime,
    message: FileDataMessage,
    state: Option<TransferQueueState>,
    step: Result<DataStep, TransferRuntimeError>,
)
    requires
        call_ensures(PeerTransferRuntime::receive_data_frame, (runtime, &message, state), step),
    ensures
        step matches Ok(DataStep::Write(written)) ==> {
            &&& state == Some(TransferQueueState::Active)
            &&& message matches FileDataMessage::Chunk { transfer, .. } && transfer == written
            &&& written.value != 0
            &&& !old(runtime)@.rejected.contains(written.value)
            &&& !old(runtime)@.completed.contains(written.value)
        },
        step matches Ok(DataStep::Ignore) ==> (message matches FileDataMessage::Chunk {
            transfer,
            ..
        } && (old(runtime)@.rejected.contains(transfer.value) || old(runtime)@.completed.contains(
            transfer.value,
        ))),
        message is Unknown ==> step is Err && final(runtime)@ == old(runtime)@,
        final(runtime)@.rejected == old(runtime)@.rejected,
        final(runtime)@.completed == old(runtime)@.completed,
{
}

/// A queue run takes its steps in order, one at a time; what it cancels it
/// tells, and a pause has no place in it.
pub proof fn law_queue_runs_go_in_order(
    run: &mut QueueRun,
    runtime: &mut PeerTransferRuntime,
    step: Result<QueueStep, TransferRuntimeError>,
)
    requires
        call_ensures(QueueRun::step, (run, runtime), step),
    ensures
        (step matches Ok(QueueStep::Finished)) <==> old(run)@.pending.len() == 0,
        old(run)@.pending.len() > 0 ==> final(run)@.pending.len() == old(run)@.pending.len() - 1,
        old(run)@.pending.len() > 0 ==> (old(run)@.pending[0] matches QueueEffect::Cancel(transfer)
            ==> final(run)@.effects.len() == old(run)@.effects.len() + 1
            && final(run)@.effects.last() == (TransferRuntimeEffect::Cancelled { transfer })),
        old(run)@.pending.len() > 0 && old(run)@.pending[0] is Pause ==> (step matches Err(
            TransferRuntimeError::Protocol,
        )),
        step matches Ok(QueueStep::Begin(manifest)) ==> old(run)@.pending[0] == QueueEffect::Start(
            manifest.transfer,
        ) && old(runtime)@.pending.contains(manifest),
{
    if old(run)@.pending.len() > 0 {
        if let QueueEffect::Start(transfer) = old(run)@.pending[0] {
            lemma_pending_place_holds(old(runtime)@.pending, transfer);
        }
    }
}

/// What a queue cannot take is refused and remembered as refused; the failure
/// of a queue that is not full is told.
pub proof fn law_full_queues_refuse(
    runtime: &mut PeerTransferRuntime,
    manifest: PendingManifest,
    total_bytes: u64,
    queued: Result<Vec<QueueEffect>, TransferError>,
    done: Result<Enqueued, TransferRuntimeError>,
)
    requires
        call_ensures(
            PeerTransferRuntime::manifest_enqueued,
            (runtime, manifest, total_bytes, queued),
            done,
        ),
    ensures
        done matches Ok(Enqueued::Saturated(effect)) ==> {
            &&& queued matches Err(TransferError::QueueFull)
            &&& effect == (TransferRuntimeEffect::QueueSaturated { transfer: manifest.transfer })
            &&& final(runtime)@.pending == old(runtime)@.pending
        },
        done matches Ok(Enqueued::Run(_)) ==> queued is Ok,
        queued is Ok ==> (done matches Ok(Enqueued::Run(_))),
        done is Err ==> final(runtime)@ == old(runtime)@,
        queued matches Err(error) ==> (!(error is QueueFull) ==> done == Err::<Enqueued, _>(
            TransferRuntimeError::Transfer(error),
        )),
{
}

/// A finalized transfer is told as completed before the queue goes on, and its
/// end is no longer awaited, however the queue took it.
pub proof fn law_finalized_transfers_are_told(
    runtime: &mut PeerTransferRuntime,
    transfer: TransferId,
    completed: Result<Vec<QueueEffect>, TransferError>,
    done: Result<Vec<TransferRuntimeEffect>, TransferRuntimeError>,
)
    requires
        call_ensures(
            PeerTransferRuntime::inbound_finalized,
            (runtime, transfer, completed),
            done,
        ),
    ensures
        !final(runtime)@.pending_completion.contains(transfer.value),
        done is Ok <==> completed is Ok && old(runtime)@.deferred.len() == 0,
        done matches Ok(effects) ==> effects@.len() == 2 && effects@[0] == (
        TransferRuntimeEffect::Completed { transfer }) && effects@[1] is AdvanceQueue,
        done is Ok ==> final(runtime)@.deferred == completed->Ok_0@,
        done is Err ==> final(runtime)@.deferred == old(runtime)@.deferred,
{
}

/// A resume is taken only of a durable record, unless none is kept, and only
/// where nothing else is received.
pub proof fn law_resumes_need_a_record(
    runtime: PeerTransferRuntime,
    transfer: TransferId,
    persisted: bool,
    opened: Result<OpenManifest, TransferRuntimeError>,
    receiving: bool,
    active_count: usize,
    queue_len: usize,
    max_queued: usize,
    allowed: Result<(), TransferRuntimeError>,
)
    requires
        call_ensures(PeerTransferRuntime::open_manifest, (&runtime, transfer, persisted), opened),
        call_ensures(
            PeerTransferRuntime::resume_allowed,
            (&runtime, receiving, active_count, queue_len, max_queued),
            allowed,
        ),
    ensures
        (opened matches Ok(OpenManifest::Enqueue)) <==> !persisted,
        (opened matches Ok(OpenManifest::Resume)) <==> persisted && (runtime@.allow_untracked
            || runtime@.known_persisted.contains(transfer.value)),
        opened matches Err(error) ==> error is ResumeDurabilityUnsupported,
        allowed is Ok <==> runtime@.config.local_allows_peer_transfer && !receiving && active_count
            == 0 && queue_len < max_queued,
        allowed matches Err(error) ==> (error is GrantDenied
            <==> !runtime@.config.local_allows_peer_transfer),
{
}

/// Grants change by one epoch at a time, and files that are not granted any
/// more are given up.
pub proof fn law_transfer_grants_follow_each_other(
    runtime: &mut PeerTransferRuntime,
    epoch: u64,
    allows: bool,
    active: Option<TransferId>,
    done: Result<Vec<TransferRuntimeEffect>, TransferRuntimeError>,
)
    requires
        call_ensures(
            PeerTransferRuntime::update_local_grants,
            (runtime, epoch, allows, active),
            done,
        ),
    ensures
        done is Ok <==> epoch == old(runtime)@.config.local_grant_epoch + 1,
        done is Err ==> final(runtime)@ == old(runtime)@,
        done is Ok ==> final(runtime)@.config.local_grant_epoch == epoch
            && final(runtime)@.config.local_allows_peer_transfer == allows,
        done matches Ok(effects) ==> (allows ==> effects@.len() == 0),
        done is Ok && !allows ==> final(runtime)@.pending.len() == 0,
{
}

/// What begins or ends a transfer of this side is numbered among its own
/// messages, what answers the peer among the answers, and data among data:
/// sending the one leaves the numbers of the others as they are.
pub proof fn law_frames_are_numbered_in_their_lane(
    runtime: &mut PeerTransferRuntime,
    answering: &mut PeerTransferRuntime,
    pumping: &mut PeerTransferRuntime,
    transfer: TransferId,
    entry_index: u32,
    offset: u64,
    manifest: Result<FileManifestMessage, TransferRuntimeError>,
    resume: Result<FileManifestMessage, TransferRuntimeError>,
    chunk: Result<FileDataMessage, TransferRuntimeError>,
)
    requires
        call_ensures(PeerTransferRuntime::encode_manifest_frame, (runtime, transfer), manifest),
        call_ensures(
            PeerTransferRuntime::encode_resume_frame,
            (answering, transfer, entry_index, offset),
            resume,
        ),
        call_ensures(
            PeerTransferRuntime::encode_data_frame,
            (pumping, transfer, entry_index, offset),
            chunk,
        ),
    ensures
        manifest matches Ok(message) ==> (message matches FileManifestMessage::Manifest {
            meta,
            transfer: named,
        } && named == transfer && meta.sequence == old(runtime)@.outbound_manifest_sequence + 1
            && meta.sequence == final(runtime)@.outbound_manifest_sequence),
        final(runtime)@.outbound_resume_sequence == old(runtime)@.outbound_resume_sequence,
        final(runtime)@.outbound_data_sequence == old(runtime)@.outbound_data_sequence,
        resume matches Ok(message) ==> (message matches FileManifestMessage::Resume {
            meta,
            transfer: named,
            entry_index: entry,
            offset: from,
        } && named == transfer && entry == entry_index && from == offset && meta.sequence == old(
            answering,
        )@.outbound_resume_sequence + 1 && meta.sequence
            == final(answering)@.outbound_resume_sequence),
        final(answering)@.outbound_manifest_sequence == old(answering)@.outbound_manifest_sequence,
        final(answering)@.outbound_data_sequence == old(answering)@.outbound_data_sequence,
        chunk matches Ok(message) ==> (message matches FileDataMessage::Chunk {
            meta,
            transfer: named,
            entry_index: entry,
            offset: from,
        } && named == transfer && entry == entry_index && from == offset && meta.sequence == old(
            pumping,
        )@.outbound_data_sequence + 1 && meta.sequence == final(pumping)@.outbound_data_sequence),
        final(pumping)@.outbound_manifest_sequence == old(pumping)@.outbound_manifest_sequence,
        final(pumping)@.outbound_resume_sequence == old(pumping)@.outbound_resume_sequence,
{
}

/// The end of a transfer is told among the messages of the side that sends it,
/// and acknowledged or refused among the answers of the other.
pub proof fn law_ends_are_numbered_by_whose_they_are(
    sending: &mut PeerTransferRuntime,
    giving_up: &mut PeerTransferRuntime,
    acknowledging: &mut PeerTransferRuntime,
    refusing: &mut PeerTransferRuntime,
    transfer: TransferId,
    reason: u16,
    complete: Result<FileManifestMessage, TransferRuntimeError>,
    given_up: Result<FileManifestMessage, TransferRuntimeError>,
    acknowledged: Result<FileManifestMessage, TransferRuntimeError>,
    refused: Result<FileManifestMessage, TransferRuntimeError>,
)
    requires
        call_ensures(PeerTransferRuntime::encode_complete_frame, (sending, transfer), complete),
        call_ensures(
            PeerTransferRuntime::encode_outbound_cancel_frame,
            (giving_up, transfer, reason),
            given_up,
        ),
        call_ensures(
            PeerTransferRuntime::encode_complete_ack_frame,
            (acknowledging, transfer),
            acknowledged,
        ),
        call_ensures(
            PeerTransferRuntime::encode_cancel_frame,
            (refusing, transfer, reason),
            refused,
        ),
    ensures
        complete matches Ok(message) ==> (message matches FileManifestMessage::Complete {
            meta,
            transfer: named,
        } && named == transfer && meta.sequence
            == final(sending)@.outbound_manifest_sequence),
        final(sending)@.outbound_resume_sequence == old(sending)@.outbound_resume_sequence,
        given_up matches Ok(message) ==> (message matches FileManifestMessage::Cancel {
            meta,
            transfer: named,
            reason: told,
        } && named == transfer && told == reason && meta.sequence
            == final(giving_up)@.outbound_manifest_sequence),
        final(giving_up)@.outbound_resume_sequence == old(giving_up)@.outbound_resume_sequence,
        acknowledged matches Ok(message) ==> (message matches FileManifestMessage::Complete {
            meta,
            transfer: named,
        } && named == transfer && meta.sequence
            == final(acknowledging)@.outbound_resume_sequence),
        final(acknowledging)@.outbound_manifest_sequence
            == old(acknowledging)@.outbound_manifest_sequence,
        refused matches Ok(message) ==> (message matches FileManifestMessage::Cancel {
            meta,
            transfer: named,
            reason: told,
        } && named == transfer && told == reason && meta.sequence
            == final(refusing)@.outbound_resume_sequence),
        final(refusing)@.outbound_manifest_sequence == old(refusing)@.outbound_manifest_sequence,
{
}

} // verus!
