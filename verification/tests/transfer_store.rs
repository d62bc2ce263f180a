use nodavo_agent::grants::Capability;
use nodavo_agent::identifiers::{DeviceId, SessionId, TransferId};
use nodavo_agent::transfer_runtime::{
    FileDataMessage, FileManifestMessage, PeerTransferConfig, PeerTransferRuntime, TransferError,
    TransferRuntimeEffect, TransferRuntimeError, MAX_COMPLETED_INBOUND_TOMBSTONES,
};
use nodavo_agent::transfer_worker::{
    add_stop, worker_turn, CleanupStep, EffectBudget, EntryKind, OutboundEntry, PumpStep,
    ResumeStep, TransferCleanupState, TransferStopMode, TransferStore, WorkerStep, WorkerTurn,
    ABORT_INBOUND, ABORT_OUTBOUND, EFFECT_BUDGET, MAX_PENDING_OUTBOUND_TRANSFERS, REFUSED, STOP,
};

const MAX_CHUNK_BYTES: u64 = 262_144;

fn peer() -> DeviceId {
    DeviceId::new([2; 32])
}

fn other_peer() -> DeviceId {
    DeviceId::new([3; 32])
}

fn runtime(session: u8, peer_capabilities: Capability) -> PeerTransferRuntime {
    PeerTransferRuntime::new(PeerTransferConfig {
        local_device: DeviceId::new([1; 32]),
        peer_device: peer(),
        session_id: SessionId::new([session; 16]),
        local_grant_epoch: 9,
        peer_grant_epoch: 17,
        local_allows_peer_transfer: true,
        peer_capabilities,
    })
}

fn file(size: u64) -> OutboundEntry {
    OutboundEntry {
        kind: EntryKind::File,
        size,
    }
}

fn store() -> TransferStore<u32> {
    TransferStore::new()
}

/// Scans and announces one source.
fn announce(
    store: &mut TransferStore<u32>,
    runtime: &mut PeerTransferRuntime,
    transfer: TransferId,
    entries: Vec<OutboundEntry>,
) -> FileManifestMessage {
    store.reserve_outbound().unwrap();
    store
        .source_scanned(runtime, peer(), transfer, Ok(entries), 0)
        .unwrap()
}

#[test]
fn outbound_reservations_are_bounded_before_scan() {
    let mut store = store();
    for _ in 0..MAX_PENDING_OUTBOUND_TRANSFERS {
        store.reserve_outbound().unwrap();
    }
    assert_eq!(store.outbound_count(), MAX_PENDING_OUTBOUND_TRANSFERS);
    assert_eq!(store.reserve_outbound(), Err(TransferError::QueueFull));
    for _ in 0..MAX_PENDING_OUTBOUND_TRANSFERS {
        store.release_outbound();
    }
    assert_eq!(store.outbound_count(), 0);
}

#[test]
fn missing_cleanup_root_poisons_and_disables_later_file_work() {
    let mut store = store();
    let transfer = TransferId::from_bytes([31; 16]);
    store.remember_inbound(peer(), transfer);
    store.require_peer_inbound_discard(peer());
    assert_eq!(
        store.begin_cleanup(peer()).err(),
        Some(TransferError::Platform)
    );
    assert!(store.is_poisoned());
    assert_eq!(store.reserve_outbound(), Err(TransferError::Platform));
}

#[test]
fn disconnect_cancels_an_in_progress_scan_and_releases_its_reservation() {
    let mut store = store();
    let mut runtime = runtime(9, Capability::file_transfer_only());
    store.reserve_outbound().unwrap();
    let stop = add_stop(0, TransferStopMode::Suspend);
    assert_eq!(
        store
            .source_scanned(
                &mut runtime,
                peer(),
                TransferId::from_bytes([1; 16]),
                Err(TransferError::Cancelled),
                stop,
            )
            .err(),
        Some(TransferError::Cancelled)
    );
    assert_eq!(store.outbound_count(), 0);
}

#[test]
fn link_loss_reannounces_same_source_and_resumes_from_receiver_offset() {
    let mut store = store();
    let transfer = TransferId::from_bytes([7; 16]);
    let mut first = runtime(3, Capability::file_transfer_only());
    let FileManifestMessage::Manifest {
        transfer: announced,
        ..
    } = announce(
        &mut store,
        &mut first,
        transfer,
        vec![file(MAX_CHUNK_BYTES + 17)],
    )
    else {
        panic!("expected initial manifest message");
    };
    assert_eq!(announced, transfer);

    assert_eq!(
        store.handle_peer_resume(peer(), transfer, 0, 0),
        Ok(ResumeStep::Seek {
            entry_index: 0,
            offset: 0,
        })
    );
    store.outbound_resumed(peer(), transfer);
    let PumpStep::Data(FileDataMessage::Chunk { offset, .. }) = store
        .pump_outbound(&mut first, peer(), Some((0, 0)))
        .unwrap()
    else {
        panic!("expected first data chunk message");
    };
    assert_eq!(offset, 0);

    let stop = add_stop(0, TransferStopMode::Suspend);
    store.stop_worker(&mut first, peer(), stop, None);

    let reannounced = store.reannounce_outbound(peer(), true);
    assert_eq!(reannounced, [transfer]);
    assert_eq!(store.ready_outbound(peer()), None);
    let mut second = runtime(4, Capability::file_transfer_only());

    assert_eq!(
        store.handle_peer_resume(peer(), transfer, 0, MAX_CHUNK_BYTES),
        Ok(ResumeStep::Seek {
            entry_index: 0,
            offset: MAX_CHUNK_BYTES,
        })
    );
    store.outbound_resumed(peer(), transfer);
    let PumpStep::Data(FileDataMessage::Chunk { offset, .. }) = store
        .pump_outbound(&mut second, peer(), Some((0, MAX_CHUNK_BYTES)))
        .unwrap()
    else {
        panic!("expected resumed data message");
    };
    assert_eq!(offset, MAX_CHUNK_BYTES);

    assert_eq!(store.mark_peer_revoked(peer()), [transfer]);
    assert_eq!(store.outbound_count(), 0, "peer revoke retained source");
}

#[test]
fn all_complete_resume_including_zero_byte_source_goes_directly_to_complete() {
    let mut store = store();
    let transfer = TransferId::from_bytes([8; 16]);
    let mut runtime = runtime(5, Capability::file_transfer_only());
    let entries = vec![file(0), file(8)];
    announce(&mut store, &mut runtime, transfer, entries);
    assert_eq!(
        store.handle_peer_resume(peer(), transfer, 0, 0),
        Ok(ResumeStep::Waiting)
    );
    assert!(matches!(
        store.handle_peer_resume(peer(), transfer, 1, 8),
        Ok(ResumeStep::Seek { .. })
    ));
    store.outbound_resumed(peer(), transfer);
    assert!(matches!(
        store.pump_outbound(&mut runtime, peer(), None),
        Ok(PumpStep::Complete(FileManifestMessage::Complete {
            transfer: completed,
            ..
        })) if completed == transfer
    ));

    let stop = add_stop(0, TransferStopMode::AbortAll);
    store.stop_worker(&mut runtime, peer(), stop, None);
    assert_eq!(store.outbound_count(), 0);
}

#[test]
fn reconnect_with_peer_file_grant_revoked_purges_retained_source() {
    let mut store = store();
    let transfer = TransferId::from_bytes([9; 16]);
    let mut first = runtime(6, Capability::file_transfer_only());
    announce(&mut store, &mut first, transfer, vec![file(7)]);
    let stop = add_stop(0, TransferStopMode::Suspend);
    store.stop_worker(&mut first, peer(), stop, None);
    assert_eq!(store.outbound_count(), 1);

    let second = runtime(7, Capability::empty());
    let authorized = second.outbound_authorized();
    assert!(!authorized);
    assert!(store.reannounce_outbound(peer(), authorized).is_empty());
    assert_eq!(store.outbound_count(), 0);
}

#[test]
fn suspended_authenticated_inbound_is_discarded_only_for_its_peer() {
    let mut store = store();
    let transfer = TransferId::from_bytes([21; 16]);
    let other = TransferId::from_bytes([22; 16]);
    store.register_staging_root(1, false, true).unwrap();
    store.remember_inbound(peer(), transfer);
    store.remember_inbound(other_peer(), other);

    store.require_peer_inbound_discard(peer());
    let Ok(CleanupStep::Discard(ids)) = store.begin_cleanup(peer()) else {
        panic!("something has to be discarded");
    };
    assert_eq!(ids, [transfer]);
    assert_eq!(
        store.finish_cleanup(peer(), &ids, Ok(())),
        Ok(TransferCleanupState::Complete)
    );
    assert!(!store.is_poisoned());
    assert!(matches!(
        store.begin_cleanup(other_peer()),
        Ok(CleanupStep::Done(TransferCleanupState::Complete))
    ));
    let (kept, _) = store.resume_configuration(other_peer());
    assert_eq!(kept, [other]);
}

#[test]
fn cleanup_waits_for_workers() {
    let mut store = store();
    let transfer = TransferId::from_bytes([23; 16]);
    store.register_staging_root(1, false, true).unwrap();
    store.worker_started();
    store.remember_inbound(peer(), transfer);
    store.require_peer_inbound_discard(peer());
    assert!(matches!(
        store.begin_cleanup(peer()),
        Ok(CleanupStep::Done(TransferCleanupState::Pending))
    ));
    store.worker_finished();
    assert!(matches!(
        store.begin_cleanup(peer()),
        Ok(CleanupStep::Discard(_))
    ));
}

#[test]
fn stops_add_up_and_bound_the_work() {
    let suspended = add_stop(0, TransferStopMode::Suspend);
    assert_eq!(suspended, STOP);
    let inbound = add_stop(suspended, TransferStopMode::AbortInbound);
    assert_eq!(inbound, STOP | ABORT_INBOUND);
    assert_eq!(
        add_stop(inbound, TransferStopMode::AbortAll),
        STOP | ABORT_INBOUND | ABORT_OUTBOUND
    );
    assert!(matches!(worker_turn(suspended, 3), WorkerTurn::Cleanup));
    assert!(matches!(worker_turn(0, 3), WorkerTurn::Effects));
    assert!(matches!(worker_turn(0, 0), WorkerTurn::Receive));
    let mut budget = EffectBudget::new();
    for _ in 0..EFFECT_BUDGET {
        assert!(budget.take(0, 1));
    }
    assert!(!budget.take(0, 1));
}

#[test]
fn full_frames_are_pushed_back() {
    let store = store();
    assert_eq!(store.frame_accepted(false), Ok(()));
    assert_eq!(
        store.frame_accepted(true),
        Err(TransferRuntimeError::Backpressure)
    );
}

#[test]
fn effects_are_carried_out_in_the_store() {
    let mut store = store();
    let mut runtime = runtime(4, Capability::file_transfer_only());
    let transfer = TransferId::from_bytes([7; 16]);
    assert_eq!(
        store.apply_effect(
            &mut runtime,
            peer(),
            TransferRuntimeEffect::Started { transfer }
        ),
        Ok(WorkerStep::Nothing)
    );
    assert_eq!(store.resume_configuration(peer()).0, [transfer]);
    assert_eq!(
        store.apply_effect(
            &mut runtime,
            peer(),
            TransferRuntimeEffect::FinalizeRequired { transfer }
        ),
        Ok(WorkerStep::Finalize(transfer))
    );
    assert_eq!(
        store.apply_effect(
            &mut runtime,
            peer(),
            TransferRuntimeEffect::Completed { transfer }
        ),
        Ok(WorkerStep::RemoveTerminal(transfer))
    );
    assert!(store.resume_configuration(peer()).0.is_empty());
    assert_eq!(store.completed_for(peer()), [transfer.value]);
    assert!(store.completed_for(other_peer()).is_empty());
    assert!(matches!(
        store.apply_effect(
            &mut runtime,
            peer(),
            TransferRuntimeEffect::CompletionAcknowledgementRequired { transfer }
        ),
        Ok(WorkerStep::Send(FileManifestMessage::Complete { .. }))
    ));
    assert!(matches!(
        store.apply_effect(
            &mut runtime,
            peer(),
            TransferRuntimeEffect::QueueSaturated { transfer }
        ),
        Ok(WorkerStep::Send(FileManifestMessage::Cancel { reason: REFUSED, .. }))
    ));
    assert_eq!(
        store.apply_effect(
            &mut runtime,
            peer(),
            TransferRuntimeEffect::PeerCancelRequested { transfer }
        ),
        Err(TransferRuntimeError::Protocol)
    );
}

#[test]
fn a_failed_worker_gives_everything_up() {
    let mut store = store();
    let all = store.fail_worker(0, TransferRuntimeError::Protocol);
    assert_eq!(all, STOP | ABORT_INBOUND | ABORT_OUTBOUND);
    assert!(!store.is_poisoned());
    store.fail_worker(
        STOP,
        TransferRuntimeError::Transfer(TransferError::Platform),
    );
    assert!(store.is_poisoned());
}

#[test]
fn every_peer_is_enrolled_for_cleanup() {
    let mut store = store();
    store.remember_inbound(peer(), TransferId::from_bytes([1; 16]));
    store.remember_inbound(other_peer(), TransferId::from_bytes([2; 16]));
    store.remember_inbound(peer(), TransferId::from_bytes([3; 16]));
    store.worker_started();
    assert_eq!(store.require_all_inbound_discard_if_idle(), None);
    store.worker_finished();
    let mut peers = store.require_all_inbound_discard_if_idle().unwrap();
    assert_eq!(peers.len(), 2);
    peers.retain(|found| *found != peer());
    assert_eq!(peers, [other_peer()]);
}

#[test]
fn a_publication_is_acknowledged_when_the_lane_is_full() {
    let mut store = store();
    let mut runtime = runtime(4, Capability::file_transfer_only());
    let ended: Vec<u128> = (1..=MAX_COMPLETED_INBOUND_TOMBSTONES)
        .map(|id| u128::try_from(id).unwrap())
        .collect();
    runtime.remember_completed_inbound(&ended).unwrap();
    let transfer = TransferId::from_bytes([7; 16]);
    assert_eq!(
        store.apply_effect(
            &mut runtime,
            peer(),
            TransferRuntimeEffect::Completed { transfer }
        ),
        Ok(WorkerStep::RemoveTerminal(transfer))
    );
    assert_eq!(store.completed_for(peer()), [transfer.value]);
    assert_eq!(
        runtime.remember_completed_inbound(&vec![transfer.value]),
        Err(TransferRuntimeError::Backpressure)
    );
}
