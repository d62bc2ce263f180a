use nodavo_agent::grants::{Capability, EventMeta};
use nodavo_agent::identifiers::{DeviceId, SessionId, TransferId};
use nodavo_agent::transfer_runtime::{
    DataStep, Enqueued, FileDataMessage, FileManifestMessage, ManifestStep, OpenManifest,
    PeerTransferConfig, PeerTransferRuntime, PendingManifest, QueueEffect, QueueRun, QueueStep,
    ReceiveProgress, TransferError, TransferQueueState, TransferRuntimeEffect,
    TransferRuntimeError, MAX_REJECTED_INBOUND_TOMBSTONES,
};

const LOCAL_EPOCH: u64 = 9;
const PEER_EPOCH: u64 = 17;

fn local() -> DeviceId {
    DeviceId::new([1; 32])
}

fn peer() -> DeviceId {
    DeviceId::new([2; 32])
}

fn session() -> SessionId {
    SessionId::new([3; 16])
}

fn wire_transfer(byte: u8) -> TransferId {
    TransferId::from_bytes([byte; 16])
}

fn event_meta(
    session_id: SessionId,
    origin: DeviceId,
    sequence: u64,
    grant_epoch: u64,
) -> EventMeta {
    EventMeta {
        session_id,
        origin,
        sequence,
        grant_epoch,
        capability: Capability::file_transfer_only(),
    }
}

fn meta(sequence: u64) -> EventMeta {
    event_meta(session(), peer(), sequence, LOCAL_EPOCH)
}

fn response_meta(sequence: u64) -> EventMeta {
    event_meta(session(), peer(), sequence, PEER_EPOCH)
}

fn manifest(sequence: u64, transfer: TransferId) -> FileManifestMessage {
    FileManifestMessage::Manifest {
        meta: meta(sequence),
        transfer,
    }
}

fn chunk(sequence: u64, transfer: TransferId) -> FileDataMessage {
    FileDataMessage::Chunk {
        meta: meta(sequence),
        transfer,
        entry_index: 0,
        offset: 0,
    }
}

/// A queue with one active transfer, and a staging area that counts bytes.
struct Receiver {
    runtime: PeerTransferRuntime,
    waiting: Vec<(TransferId, u64)>,
    active: Option<(TransferId, u64)>,
    received: u64,
    completed: Vec<TransferId>,
    begins: usize,
    fail_begin_at: Option<usize>,
}

type Effects = Result<Vec<TransferRuntimeEffect>, TransferRuntimeError>;

impl Receiver {
    fn with_grants(local_allows_peer_transfer: bool, peer_capabilities: Capability) -> Self {
        Self {
            runtime: PeerTransferRuntime::new(PeerTransferConfig {
                local_device: local(),
                peer_device: peer(),
                session_id: session(),
                local_grant_epoch: LOCAL_EPOCH,
                peer_grant_epoch: PEER_EPOCH,
                local_allows_peer_transfer,
                peer_capabilities,
            }),
            waiting: Vec::new(),
            active: None,
            received: 0,
            completed: Vec::new(),
            begins: 0,
            fail_begin_at: None,
        }
    }

    fn new() -> Self {
        Self::with_grants(true, Capability::file_transfer_only())
    }

    fn state(&self, transfer: TransferId) -> Option<TransferQueueState> {
        if self.active.map(|active| active.0) == Some(transfer) {
            Some(TransferQueueState::Active)
        } else if self.waiting.iter().any(|waiting| waiting.0 == transfer) {
            Some(TransferQueueState::Queued)
        } else if self.completed.contains(&transfer) {
            Some(TransferQueueState::Terminal)
        } else {
            None
        }
    }

    fn progress(&self) -> Option<ReceiveProgress> {
        self.active.map(|(_, total_bytes)| ReceiveProgress {
            completed_bytes: self.received,
            total_bytes,
        })
    }

    fn retained(&self) -> usize {
        self.waiting.len() + usize::from(self.active.is_some())
    }

    fn start_next(&mut self) -> Vec<QueueEffect> {
        if self.waiting.is_empty() {
            return Vec::new();
        }
        let next = self.waiting.remove(0);
        self.active = Some(next);
        self.received = 0;
        vec![QueueEffect::Start(next.0)]
    }

    fn run(&mut self, mut run: QueueRun) -> Effects {
        loop {
            match run.step(&mut self.runtime)? {
                QueueStep::Begin(manifest) => {
                    let at = self.begins;
                    self.begins += 1;
                    if self.fail_begin_at == Some(at) {
                        return Err(TransferRuntimeError::Transfer(TransferError::Platform));
                    }
                    run.begun(&mut self.runtime, manifest)?;
                }
                QueueStep::Again => {}
                QueueStep::Finished => return Ok(run.into_effects()),
            }
        }
    }

    fn manifest_frame(&mut self, message: &FileManifestMessage, total_bytes: u64) -> Effects {
        let transfer = match message {
            FileManifestMessage::Manifest { transfer, .. }
            | FileManifestMessage::Resume { transfer, .. }
            | FileManifestMessage::Cancel { transfer, .. }
            | FileManifestMessage::Complete { transfer, .. } => *transfer,
            FileManifestMessage::Unknown => wire_transfer(0),
        };
        let state = self.state(transfer);
        let progress = self.progress();
        match self
            .runtime
            .receive_manifest_frame(message, state, progress)?
        {
            ManifestStep::Effect(effect) => Ok(effect.into_iter().collect()),
            ManifestStep::Open(transfer) => {
                assert!(matches!(
                    self.runtime.open_manifest(transfer, false)?,
                    OpenManifest::Enqueue
                ));
                self.waiting.push((transfer, total_bytes));
                let queued = if self.active.is_none() {
                    self.start_next()
                } else {
                    Vec::new()
                };
                let enqueued = self.runtime.manifest_enqueued(
                    PendingManifest {
                        transfer,
                        entry_count: 1,
                    },
                    total_bytes,
                    Ok(queued),
                )?;
                match enqueued {
                    Enqueued::Saturated(effect) => Ok(vec![effect]),
                    Enqueued::Run(run) => self.run(run),
                }
            }
            ManifestStep::Cancel { transfer, active } => {
                let mut effects = vec![QueueEffect::Cancel(transfer)];
                if active {
                    self.active = None;
                    effects.extend(self.start_next());
                } else {
                    self.waiting.retain(|waiting| waiting.0 != transfer);
                }
                let run = self.runtime.inbound_cancelled(transfer, Ok(effects))?;
                self.run(run)
            }
        }
    }

    fn data_frame(&mut self, message: &FileDataMessage, bytes: u64) -> Effects {
        let transfer = match message {
            FileDataMessage::Chunk { transfer, .. } => *transfer,
            FileDataMessage::Unknown => wire_transfer(0),
        };
        let state = self.state(transfer);
        match self.runtime.receive_data_frame(message, state)? {
            DataStep::Ignore => Ok(Vec::new()),
            DataStep::Write(transfer) => {
                self.received += bytes;
                let progress = self.progress().unwrap();
                Ok(self.runtime.data_written(transfer, progress))
            }
        }
    }

    fn finalize(&mut self, transfer: TransferId) -> Effects {
        self.completed.push(transfer);
        self.active = None;
        let effects = self.start_next();
        self.runtime.inbound_finalized(transfer, Ok(effects))
    }

    fn advance(&mut self) -> Effects {
        let run = self.runtime.advance_queue();
        self.run(run)
    }
}

#[test]
fn authenticated_manifest_and_data_replay_lanes_are_independent() {
    let transfer = wire_transfer(7);
    let mut receiver = Receiver::new();
    let effects = receiver.manifest_frame(&manifest(1, transfer), 2).unwrap();
    assert_eq!(
        effects,
        [
            TransferRuntimeEffect::Admitted {
                transfer,
                total_bytes: 2,
            },
            TransferRuntimeEffect::Started { transfer },
            TransferRuntimeEffect::ResumeRequired {
                transfer,
                entry_index: 0,
                offset: 0,
            },
        ]
    );

    let data = chunk(1, transfer);
    assert!(matches!(
        receiver.data_frame(&data, 2).unwrap().as_slice(),
        [TransferRuntimeEffect::Progress {
            completed_bytes: 2,
            total_bytes: 2,
            ..
        }]
    ));
    assert_eq!(
        receiver.data_frame(&data, 2),
        Err(TransferRuntimeError::Replay)
    );

    let complete = FileManifestMessage::Complete {
        meta: meta(2),
        transfer,
    };
    assert_eq!(
        receiver.manifest_frame(&complete, 0).unwrap(),
        [TransferRuntimeEffect::FinalizeRequired { transfer }]
    );
    assert_eq!(
        receiver.finalize(transfer).unwrap(),
        [
            TransferRuntimeEffect::Completed { transfer },
            TransferRuntimeEffect::AdvanceQueue,
        ]
    );
    assert_eq!(
        receiver.manifest_frame(&complete, 0),
        Err(TransferRuntimeError::Replay)
    );
}

#[test]
fn rejects_wrong_session_origin_epoch_grant_and_zero_sequence() {
    let transfer = wire_transfer(8);
    let mut receiver = Receiver::new();
    for invalid_meta in [
        event_meta(SessionId::new([9; 16]), peer(), 1, LOCAL_EPOCH),
        event_meta(session(), DeviceId::new([9; 32]), 1, LOCAL_EPOCH),
        event_meta(session(), peer(), 1, 10),
    ] {
        let frame = FileManifestMessage::Manifest {
            meta: invalid_meta,
            transfer,
        };
        assert_eq!(
            receiver.manifest_frame(&frame, 1),
            Err(TransferRuntimeError::Authentication)
        );
    }

    let zero = FileManifestMessage::Manifest {
        meta: event_meta(session(), peer(), 0, LOCAL_EPOCH),
        transfer,
    };
    assert_eq!(
        receiver.manifest_frame(&zero, 1),
        Err(TransferRuntimeError::Replay)
    );

    let mut denied = Receiver::with_grants(false, Capability::file_transfer_only());
    assert_eq!(
        denied.manifest_frame(&manifest(1, transfer), 1),
        Err(TransferRuntimeError::GrantDenied)
    );
}

#[test]
fn queued_transfer_rejects_pre_acceptance_data_and_releases_in_order() {
    let first = wire_transfer(10);
    let second = wire_transfer(11);
    let mut receiver = Receiver::new();
    receiver.manifest_frame(&manifest(1, first), 1).unwrap();
    assert_eq!(
        receiver.manifest_frame(&manifest(2, second), 1).unwrap(),
        [
            TransferRuntimeEffect::Admitted {
                transfer: second,
                total_bytes: 1,
            },
            TransferRuntimeEffect::Backpressured { transfer: second },
        ]
    );
    assert_eq!(
        receiver.data_frame(&chunk(1, second), 1),
        Err(TransferRuntimeError::Protocol)
    );

    let cancel = FileManifestMessage::Cancel {
        meta: meta(3),
        transfer: first,
        reason: 1,
    };
    assert_eq!(
        receiver.manifest_frame(&cancel, 0).unwrap(),
        [
            TransferRuntimeEffect::Cancelled { transfer: first },
            TransferRuntimeEffect::BackpressureReleased { transfer: second },
            TransferRuntimeEffect::Started { transfer: second },
            TransferRuntimeEffect::ResumeRequired {
                transfer: second,
                entry_index: 0,
                offset: 0,
            },
        ]
    );
    assert_eq!(
        receiver.retained(),
        1,
        "cancelled terminal record retained quota"
    );
    assert_eq!(
        receiver.data_frame(&chunk(2, second), 1).unwrap(),
        [TransferRuntimeEffect::Progress {
            transfer: second,
            completed_bytes: 1,
            total_bytes: 1,
        }]
    );
    assert_eq!(receiver.received, 1);
}

#[test]
fn completion_is_latched_until_independent_data_lane_is_durable() {
    let transfer = wire_transfer(12);
    let mut receiver = Receiver::new();
    receiver.manifest_frame(&manifest(1, transfer), 7).unwrap();
    let complete = FileManifestMessage::Complete {
        meta: meta(2),
        transfer,
    };
    assert!(receiver.manifest_frame(&complete, 0).unwrap().is_empty());
    assert_eq!(
        receiver.data_frame(&chunk(1, transfer), 7).unwrap(),
        [
            TransferRuntimeEffect::Progress {
                transfer,
                completed_bytes: 7,
                total_bytes: 7,
            },
            TransferRuntimeEffect::FinalizeRequired { transfer },
        ]
    );
    assert_eq!(
        receiver.finalize(transfer).unwrap(),
        [
            TransferRuntimeEffect::Completed { transfer },
            TransferRuntimeEffect::AdvanceQueue,
        ]
    );
}

#[test]
fn earned_completion_precedes_a_later_queued_begin_failure() {
    let first = wire_transfer(51);
    let second = wire_transfer(52);
    let mut receiver = Receiver::new();
    receiver.fail_begin_at = Some(1);
    receiver.manifest_frame(&manifest(1, first), 1).unwrap();
    receiver.manifest_frame(&manifest(2, second), 1).unwrap();
    receiver.data_frame(&chunk(1, first), 1).unwrap();
    let complete = FileManifestMessage::Complete {
        meta: meta(3),
        transfer: first,
    };
    assert_eq!(
        receiver.manifest_frame(&complete, 0).unwrap(),
        [TransferRuntimeEffect::FinalizeRequired { transfer: first }]
    );
    assert_eq!(
        receiver.finalize(first).unwrap(),
        [
            TransferRuntimeEffect::Completed { transfer: first },
            TransferRuntimeEffect::AdvanceQueue,
        ]
    );
    assert_eq!(
        receiver.advance(),
        Err(TransferRuntimeError::Transfer(TransferError::Platform))
    );
    assert_eq!(receiver.completed, [first]);
}

#[test]
fn cancelled_inbound_absorbs_bounded_late_frames_without_affecting_unrelated_work() {
    let cancelled = wire_transfer(53);
    let unrelated = wire_transfer(54);
    let mut receiver = Receiver::new();
    receiver
        .runtime
        .remember_rejected_inbound(&vec![cancelled.value])
        .unwrap();

    assert!(receiver
        .data_frame(&chunk(1, cancelled), 4)
        .unwrap()
        .is_empty());
    let late_complete = FileManifestMessage::Complete {
        meta: meta(1),
        transfer: cancelled,
    };
    assert_eq!(
        receiver.manifest_frame(&late_complete, 0).unwrap(),
        [TransferRuntimeEffect::RejectionAcknowledgementRequired {
            transfer: cancelled,
        }]
    );
    assert_eq!(
        receiver.manifest_frame(&manifest(2, cancelled), 4).unwrap(),
        [TransferRuntimeEffect::RejectionAcknowledgementRequired {
            transfer: cancelled,
        }]
    );

    assert!(matches!(
        receiver
            .manifest_frame(&manifest(3, unrelated), 2)
            .unwrap()
            .as_slice(),
        [
            TransferRuntimeEffect::Admitted { transfer, .. },
            TransferRuntimeEffect::Started { .. },
            ..
        ] if *transfer == unrelated
    ));
    assert!(matches!(
        receiver
            .data_frame(&chunk(2, unrelated), 2)
            .unwrap()
            .as_slice(),
        [TransferRuntimeEffect::Progress {
            transfer,
            completed_bytes: 2,
            total_bytes: 2,
        }] if *transfer == unrelated
    ));
}

#[test]
fn cancelled_outbound_absorbs_only_exact_late_responses() {
    let cancelled = wire_transfer(55);
    let unknown = wire_transfer(56);
    let mut receiver = Receiver::new();
    receiver
        .runtime
        .remember_cancelled_outbound(&vec![cancelled.value])
        .unwrap();

    let late_resume = FileManifestMessage::Resume {
        meta: response_meta(1),
        transfer: cancelled,
        entry_index: 0,
        offset: 0,
    };
    assert!(receiver.manifest_frame(&late_resume, 0).unwrap().is_empty());
    let late_complete = FileManifestMessage::Complete {
        meta: response_meta(2),
        transfer: cancelled,
    };
    assert!(receiver
        .manifest_frame(&late_complete, 0)
        .unwrap()
        .is_empty());
    let late_cancel = FileManifestMessage::Cancel {
        meta: response_meta(3),
        transfer: cancelled,
        reason: 0,
    };
    assert!(receiver.manifest_frame(&late_cancel, 0).unwrap().is_empty());

    let unknown_resume = FileManifestMessage::Resume {
        meta: response_meta(4),
        transfer: unknown,
        entry_index: 0,
        offset: 0,
    };
    assert_eq!(
        receiver.manifest_frame(&unknown_resume, 0).unwrap(),
        [TransferRuntimeEffect::PeerResumeRequested {
            transfer: unknown,
            entry_index: 0,
            offset: 0,
        }]
    );
}

#[test]
fn session_tombstone_sets_fail_before_exceeding_hard_caps() {
    let mut receiver = Receiver::new();
    let rejected = (0..MAX_REJECTED_INBOUND_TOMBSTONES)
        .map(|index| {
            let mut bytes = [0_u8; 16];
            bytes[..8].copy_from_slice(&u64::try_from(index + 1).unwrap().to_le_bytes());
            TransferId::from_bytes(bytes).value
        })
        .collect::<Vec<_>>();
    receiver
        .runtime
        .remember_rejected_inbound(&rejected)
        .unwrap();
    receiver
        .runtime
        .remember_rejected_inbound(&vec![rejected[0]])
        .unwrap();
    let mut novel = [0_u8; 16];
    novel[8..].copy_from_slice(&1_u64.to_le_bytes());
    assert_eq!(
        receiver
            .runtime
            .remember_rejected_inbound(&vec![TransferId::from_bytes(novel).value]),
        Err(TransferRuntimeError::Backpressure)
    );
    assert_eq!(
        receiver.runtime.rejected_count(),
        MAX_REJECTED_INBOUND_TOMBSTONES
    );
}

#[test]
fn conversions_preserve_exact_id_path_kind_hash_and_resume_sequences() {
    let transfer = TransferId::from_bytes([13; 16]);
    assert_eq!(TransferId::from_bytes(transfer.as_bytes()), transfer);
    let mut outbound = Receiver::new();
    let FileManifestMessage::Manifest {
        meta,
        transfer: encoded_transfer,
    } = outbound.runtime.encode_manifest_frame(transfer).unwrap()
    else {
        panic!("expected manifest message");
    };
    assert_eq!(encoded_transfer.as_bytes(), [13; 16]);
    assert_eq!(meta.sequence, 1);
    assert_eq!(meta.grant_epoch, PEER_EPOCH);

    let mut receiver = Receiver::new();
    for (index, offset) in [4, 0].into_iter().enumerate() {
        let message = receiver
            .runtime
            .encode_resume_frame(transfer, u32::try_from(index).unwrap(), offset)
            .unwrap();
        let FileManifestMessage::Resume {
            meta,
            transfer: resumed,
            entry_index,
            offset,
        } = message
        else {
            panic!("expected resume message");
        };
        assert_eq!(resumed.as_bytes(), [13; 16]);
        assert_eq!(entry_index, u32::try_from(index).unwrap());
        assert_eq!(offset, [4, 0][index]);
        assert_eq!(meta.sequence, (index + 1) as u64);
        assert_eq!(meta.origin, local());
        assert_eq!(meta.grant_epoch, LOCAL_EPOCH);
    }
}

#[test]
fn local_revoke_aborts_active_receive_and_advances_epoch() {
    let transfer = wire_transfer(14);
    let mut receiver = Receiver::new();
    receiver.manifest_frame(&manifest(1, transfer), 7).unwrap();
    assert_eq!(
        receiver
            .runtime
            .update_local_grants(10, false, Some(transfer))
            .unwrap(),
        [TransferRuntimeEffect::Cancelled { transfer }]
    );
    receiver.active = None;
    assert_eq!(
        receiver.manifest_frame(&manifest(2, transfer), 7),
        Err(TransferRuntimeError::Authentication)
    );
    let new_epoch = FileManifestMessage::Manifest {
        meta: event_meta(session(), peer(), 1, 10),
        transfer,
    };
    assert_eq!(
        receiver.manifest_frame(&new_epoch, 7),
        Err(TransferRuntimeError::GrantDenied)
    );
}

#[test]
fn durable_resume_uses_receiver_offsets_and_peer_epoch() {
    let transfer = wire_transfer(15);
    let total = 19;
    let split = 7;
    let mut receiver = Receiver::new();
    let step = receiver
        .runtime
        .receive_manifest_frame(&manifest(1, transfer), None, None)
        .unwrap();
    assert!(matches!(step, ManifestStep::Open(opened) if opened == transfer));
    assert!(matches!(
        receiver.runtime.open_manifest(transfer, true),
        Ok(OpenManifest::Resume)
    ));
    receiver.runtime.resume_allowed(false, 0, 0, 8).unwrap();
    assert_eq!(
        receiver
            .runtime
            .inbound_resumed(
                transfer,
                ReceiveProgress {
                    completed_bytes: split,
                    total_bytes: total,
                },
                &vec![split],
            )
            .unwrap(),
        [
            TransferRuntimeEffect::Admitted {
                transfer,
                total_bytes: total,
            },
            TransferRuntimeEffect::Started { transfer },
            TransferRuntimeEffect::Progress {
                transfer,
                completed_bytes: split,
                total_bytes: total,
            },
            TransferRuntimeEffect::ResumeRequired {
                transfer,
                entry_index: 0,
                offset: split,
            },
        ]
    );
    receiver
        .runtime
        .update_local_grants(10, false, Some(transfer))
        .unwrap();
}

#[test]
fn unsupported_directory_crash_durability_rejects_untracked_restart_resume() {
    let transfer = wire_transfer(16);
    let mut receiver = Receiver::new();
    receiver
        .runtime
        .configure_persisted_resume(&Vec::new(), false);
    let step = receiver
        .runtime
        .receive_manifest_frame(&manifest(1, transfer), None, None)
        .unwrap();
    assert!(matches!(step, ManifestStep::Open(opened) if opened == transfer));
    assert_eq!(
        receiver.runtime.open_manifest(transfer, true).err(),
        Some(TransferRuntimeError::ResumeDurabilityUnsupported)
    );
    receiver
        .runtime
        .configure_persisted_resume(&vec![transfer.value], false);
    assert!(matches!(
        receiver.runtime.open_manifest(transfer, true),
        Ok(OpenManifest::Resume)
    ));
}

#[test]
fn a_full_queue_refuses_a_transfer_for_good() {
    let transfer = wire_transfer(17);
    let mut receiver = Receiver::new();
    let refused = receiver
        .runtime
        .manifest_enqueued(
            PendingManifest {
                transfer,
                entry_count: 1,
            },
            1,
            Err(TransferError::QueueFull),
        )
        .unwrap();
    assert!(matches!(
        refused,
        Enqueued::Saturated(TransferRuntimeEffect::QueueSaturated { .. })
    ));
    assert_eq!(
        receiver.manifest_frame(&manifest(1, transfer), 1).unwrap(),
        [TransferRuntimeEffect::RejectionAcknowledgementRequired { transfer }]
    );
}

#[test]
fn a_cancelled_source_is_told_in_the_lane_of_manifests() {
    let mut receiver = Receiver::new();
    let transfer = wire_transfer(40);
    let cancelled = receiver
        .runtime
        .encode_outbound_cancel_frame(transfer, 3)
        .unwrap();
    assert!(matches!(
        cancelled,
        FileManifestMessage::Cancel {
            meta: EventMeta { sequence: 1, grant_epoch: PEER_EPOCH, .. },
            reason: 3,
            ..
        }
    ));
    let manifest = receiver.runtime.encode_manifest_frame(transfer).unwrap();
    assert!(matches!(
        manifest,
        FileManifestMessage::Manifest {
            meta: EventMeta { sequence: 2, .. },
            ..
        }
    ));
}
