use std::collections::HashSet;

use nodavo_agent::identifiers::{DeviceId, TransferId};
use nodavo_agent::transfer_status::{
    InboundAdmission, InboundUpdate, TransferDirection, TransferFailureCode, TransferLimits,
    TransferPhase, TransferRegistry, TransferRegistryError, MAX_LIFETIME_TRANSFER_IDENTITIES,
};

const MAX_NONTERMINAL_TRANSFERS: usize = 32;
const MAX_TERMINAL_TRANSFERS: usize = 64;

fn first_peer() -> DeviceId {
    DeviceId::new([1; 32])
}

fn second_peer() -> DeviceId {
    DeviceId::new([2; 32])
}

fn registry() -> TransferRegistry {
    TransferRegistry::new(TransferLimits {
        nonterminal: MAX_NONTERMINAL_TRANSFERS,
        terminal: MAX_TERMINAL_TRANSFERS,
    })
}

fn text(public_id: u128) -> String {
    uuid::Uuid::from_u128(public_id).hyphenated().to_string()
}

#[test]
fn instance_revision_and_public_ids_are_nonzero_canonical_and_unique() {
    let mut registry = registry();
    let initial = registry.list();
    let instance = uuid::Uuid::parse_str(&initial.instance_id).unwrap();
    assert!(!instance.is_nil());
    assert_eq!(instance.hyphenated().to_string(), initial.instance_id);
    assert_ne!(initial.revision, 0);

    for _ in 0..MAX_NONTERMINAL_TRANSFERS {
        registry.admit_outbound(first_peer()).unwrap();
    }
    assert_eq!(
        registry.admit_outbound(first_peer()).err(),
        Some(TransferRegistryError::Full)
    );
    let listing = registry.list();
    assert_eq!(listing.transfers.len(), MAX_NONTERMINAL_TRANSFERS);
    let ids = listing
        .transfers
        .iter()
        .map(|snapshot| snapshot.transfer_id.clone())
        .collect::<HashSet<_>>();
    assert_eq!(ids.len(), MAX_NONTERMINAL_TRANSFERS);
}

#[test]
fn cancellation_and_completion_are_linearized_and_idempotent() {
    let mut completion_first = registry();
    let admission = completion_first.admit_outbound(first_peer()).unwrap();
    completion_first.manifest_ready(admission.binding.public_id, 10);
    completion_first.reliable_data_sent(admission.binding.public_id, 10);
    completion_first.finalizing(admission.binding.public_id);
    assert!(completion_first.complete(admission.binding.public_id));
    let completed = completion_first.list();
    let repeated = completion_first
        .request_cancel(&text(admission.binding.public_id))
        .unwrap();
    assert!(repeated.target.is_none());
    assert_eq!(repeated.listing, completed);

    let mut cancellation_first = registry();
    let admission = cancellation_first.admit_outbound(first_peer()).unwrap();
    cancellation_first.manifest_ready(admission.binding.public_id, 10);
    let requested = cancellation_first
        .request_cancel(&text(admission.binding.public_id))
        .unwrap();
    assert!(requested.target.is_some());
    assert_eq!(
        requested.listing.transfers[0].phase,
        TransferPhase::CancelRequested
    );
    assert!(!cancellation_first.complete(admission.binding.public_id));
    cancellation_first.cancelled(admission.binding.public_id);
    let cancelled = cancellation_first.list();
    assert_eq!(cancelled.transfers[0].phase, TransferPhase::Cancelled);
    let repeated = cancellation_first
        .request_cancel(&text(admission.binding.public_id))
        .unwrap();
    assert!(repeated.target.is_none());
    assert_eq!(repeated.listing, cancelled);
}

#[test]
fn counters_never_regress_and_equality_does_not_imply_completion() {
    let mut registry = registry();
    let admission = registry.admit_outbound(first_peer()).unwrap();
    registry.manifest_ready(admission.binding.public_id, 10);
    registry.reliable_data_sent(admission.binding.public_id, 8);
    registry.reliable_data_sent(admission.binding.public_id, 4);
    let listing = registry.list();
    assert_eq!(listing.transfers[0].processed_bytes, Some(8));
    registry.reliable_data_sent(admission.binding.public_id, 10);
    let equal = registry.list();
    assert_eq!(equal.transfers[0].processed_bytes, Some(10));
    assert_eq!(equal.transfers[0].phase, TransferPhase::Transferring);
    registry.finalizing(admission.binding.public_id);
    assert_eq!(
        registry.list().transfers[0].phase,
        TransferPhase::Finalizing
    );
}

#[test]
fn wire_id_collisions_and_reuse_are_isolated_by_peer_direction_and_generation() {
    let mut registry = registry();
    let wire = TransferId::from_bytes([9; 16]);
    let InboundAdmission::Live(first) = registry.admit_inbound(first_peer(), wire, 1).unwrap()
    else {
        panic!("first wire admission must be live");
    };
    let InboundAdmission::Live(second) = registry.admit_inbound(second_peer(), wire, 1).unwrap()
    else {
        panic!("second peer wire collision must be isolated");
    };
    assert_ne!(first.public_id, second.public_id);
    assert_eq!(
        registry
            .binding_for_wire(first_peer(), TransferDirection::Inbound, wire)
            .unwrap(),
        first
    );
    assert_eq!(
        registry
            .binding_for_wire(second_peer(), TransferDirection::Inbound, wire)
            .unwrap(),
        second
    );

    registry.cancelled(first.public_id);
    assert_eq!(
        registry.admit_inbound(first_peer(), wire, 1).unwrap(),
        InboundAdmission::Terminal {
            binding: first,
            phase: TransferPhase::Cancelled,
        }
    );
    assert_eq!(registry.list().transfers.len(), 2);
}

#[test]
fn terminal_fifo_is_bounded_and_reports_truncation() {
    let mut registry = registry();
    let mut first = None;
    for index in 0..=MAX_TERMINAL_TRANSFERS {
        let admission = registry.admit_outbound(first_peer()).unwrap();
        if index == 0 {
            first = Some(admission.binding);
        }
        registry.manifest_ready(admission.binding.public_id, 0);
        registry.finalizing(admission.binding.public_id);
        assert!(registry.complete(admission.binding.public_id));
    }
    let listing = registry.list();
    assert_eq!(listing.transfers.len(), MAX_TERMINAL_TRANSFERS);
    assert!(listing.truncated);
    assert!(listing
        .transfers
        .iter()
        .all(|snapshot| snapshot.phase == TransferPhase::Completed));
    let first = first.unwrap();
    assert_eq!(
        registry.binding_for_wire(first_peer(), TransferDirection::Outbound, first.wire_id),
        Some(first),
        "UI FIFO eviction must not erase process-lifetime wire tombstones"
    );
}

#[test]
fn lifetime_identity_ledger_fails_closed_after_terminal_churn() {
    let mut registry = registry();
    for _ in 0..MAX_LIFETIME_TRANSFER_IDENTITIES {
        let admission = registry.admit_outbound(first_peer()).unwrap();
        registry.manifest_ready(admission.binding.public_id, 0);
        registry.finalizing(admission.binding.public_id);
        assert!(registry.complete(admission.binding.public_id));
    }

    assert_eq!(
        registry.admit_outbound(first_peer()).err(),
        Some(TransferRegistryError::LifetimeFull)
    );
    let counts = registry.ledger_counts();
    assert_eq!(counts.public_ids, MAX_LIFETIME_TRANSFER_IDENTITIES);
    assert_eq!(counts.wire_ids, MAX_LIFETIME_TRANSFER_IDENTITIES);
    assert_eq!(counts.wire_links, MAX_LIFETIME_TRANSFER_IDENTITIES);
    assert_eq!(counts.terminal_records, MAX_LIFETIME_TRANSFER_IDENTITIES);
    assert_eq!(counts.terminal_fifo, MAX_TERMINAL_TRANSFERS);
    assert!(counts.entries <= MAX_TERMINAL_TRANSFERS);
}

#[test]
fn admission_rollbacks_consume_but_never_exceed_identity_ledger() {
    let mut registry = registry();
    for _ in 0..MAX_LIFETIME_TRANSFER_IDENTITIES {
        let admission = registry.admit_outbound(first_peer()).unwrap();
        registry.rollback_admission(admission.binding.public_id);
    }

    assert_eq!(
        registry.admit_outbound(first_peer()).err(),
        Some(TransferRegistryError::LifetimeFull)
    );
    let counts = registry.ledger_counts();
    assert_eq!(counts.entries, 0);
    assert_eq!(counts.wire_links, 0);
    assert_eq!(counts.terminal_records, 0);
    assert_eq!(counts.public_ids, MAX_LIFETIME_TRANSFER_IDENTITIES);
    assert_eq!(counts.wire_ids, MAX_LIFETIME_TRANSFER_IDENTITIES);
}

#[test]
fn full_lifetime_ledger_allows_exact_terminal_replay_but_no_novel_identity() {
    let mut registry = registry();
    let retained_wire = TransferId::from_bytes([71; 16]);
    let InboundAdmission::Live(retained) = registry
        .admit_inbound(first_peer(), retained_wire, 0)
        .unwrap()
    else {
        panic!("initial inbound admission must be live");
    };
    registry.cancelled(retained.public_id);
    for _ in 1..MAX_LIFETIME_TRANSFER_IDENTITIES {
        let admission = registry.admit_outbound(first_peer()).unwrap();
        registry.rollback_admission(admission.binding.public_id);
    }

    let before = {
        let counts = registry.ledger_counts();
        (
            counts.public_ids,
            counts.wire_ids,
            counts.wire_links,
            counts.terminal_records,
        )
    };
    assert_eq!(
        registry
            .admit_inbound(first_peer(), retained_wire, 0)
            .unwrap(),
        InboundAdmission::Terminal {
            binding: retained,
            phase: TransferPhase::Cancelled,
        }
    );
    assert_eq!(
        registry
            .admit_inbound(first_peer(), TransferId::from_bytes([72; 16]), 0)
            .unwrap_err(),
        TransferRegistryError::LifetimeFull
    );
    let counts = registry.ledger_counts();
    assert_eq!(
        before,
        (
            counts.public_ids,
            counts.wire_ids,
            counts.wire_links,
            counts.terminal_records,
        )
    );
}

#[test]
fn public_ids_exclude_all_current_and_retired_wire_and_public_ids() {
    let mut registry = registry();
    let admission = registry.admit_outbound(first_peer()).unwrap();
    let public = admission.binding.public_id;
    let wire = admission.binding.wire_id.value;
    registry.cancelled(public);
    assert!(!registry.public_id_available(public));
    assert!(!registry.public_id_available(wire));

    assert_eq!(
        registry
            .admit_inbound(
                second_peer(),
                TransferId::from_bytes(public.to_be_bytes()),
                1,
            )
            .unwrap_err(),
        TransferRegistryError::WireIdCollision,
        "a peer wire ID may never alias any retired local public ID"
    );
}

#[test]
fn inbound_is_visible_and_enters_cancel_requested_without_touching_slow_storage() {
    let mut registry = registry();
    let wire = TransferId::from_bytes([7; 16]);
    let InboundAdmission::Live(binding) = registry.admit_inbound(first_peer(), wire, 2).unwrap()
    else {
        panic!("inbound admission must be live");
    };
    assert!(matches!(
        registry.update_inbound(first_peer(), wire, 1, 2, TransferPhase::Transferring),
        InboundUpdate::Updated(_)
    ));
    let outcome = registry.request_cancel(&text(binding.public_id)).unwrap();
    assert!(outcome.target.is_some());
    assert_eq!(outcome.listing.transfers[0].processed_bytes, Some(1));
    assert_eq!(
        outcome.listing.transfers[0].phase,
        TransferPhase::CancelRequested
    );
}

#[test]
fn stale_inbound_effects_never_resurrect_a_cancelled_wire_generation() {
    let mut registry = registry();
    let wire = TransferId::from_bytes([33; 16]);
    let InboundAdmission::Live(binding) = registry.admit_inbound(first_peer(), wire, 8).unwrap()
    else {
        panic!("first inbound admission must be live");
    };
    assert!(matches!(
        registry.update_inbound(first_peer(), wire, 4, 8, TransferPhase::Transferring),
        InboundUpdate::Updated(_)
    ));
    registry.request_cancel(&text(binding.public_id)).unwrap();
    registry.cancelled(binding.public_id);

    assert_eq!(
        registry.update_inbound(first_peer(), wire, 8, 8, TransferPhase::Transferring),
        InboundUpdate::Terminal(binding)
    );
    assert_eq!(
        registry.admit_inbound(first_peer(), wire, 8).unwrap(),
        InboundAdmission::Terminal {
            binding,
            phase: TransferPhase::Cancelled,
        }
    );
    let listing = registry.list();
    assert_eq!(listing.transfers.len(), 1);
    assert_eq!(listing.transfers[0].phase, TransferPhase::Cancelled);
}

#[test]
fn cleanup_failure_irreversibly_wins_over_cancel_requested() {
    let mut registry = registry();
    let wire = TransferId::from_bytes([34; 16]);
    let InboundAdmission::Live(binding) = registry.admit_inbound(first_peer(), wire, 8).unwrap()
    else {
        panic!("inbound admission must be live");
    };
    registry.request_cancel(&text(binding.public_id)).unwrap();
    registry.cleanup_failed(first_peer(), TransferDirection::Inbound);
    registry.cancelled(binding.public_id);
    let listing = registry.list();
    assert_eq!(listing.transfers[0].phase, TransferPhase::Failed);
    assert_eq!(
        listing.transfers[0].failure,
        Some(TransferFailureCode::CleanupFailed)
    );
}

#[test]
fn identifiers_that_no_transfer_has_are_told_apart() {
    let mut registry = registry();
    assert_eq!(
        registry.request_cancel("not an identifier").err(),
        Some(TransferRegistryError::InvalidId)
    );
    assert_eq!(
        registry.request_cancel(&text(7)).err(),
        Some(TransferRegistryError::NotFound)
    );
    let admission = registry.admit_outbound(first_peer()).unwrap();
    let upper = text(admission.binding.public_id).to_uppercase();
    if upper != text(admission.binding.public_id) {
        assert_eq!(
            registry.request_cancel(&upper).err(),
            Some(TransferRegistryError::InvalidId)
        );
    }
    let InboundAdmission::Live(inbound) = registry
        .admit_inbound(second_peer(), TransferId::from_bytes([5; 16]), 1)
        .unwrap()
    else {
        panic!("inbound admission must be live");
    };
    assert!(!registry.begin_inbound_finalizing(inbound.public_id));
    registry.resume_progress(inbound.public_id, 1);
    assert!(registry.begin_inbound_finalizing(inbound.public_id));
    assert_eq!(
        registry.request_cancel(&text(inbound.public_id)).err(),
        Some(TransferRegistryError::NotCancellable)
    );
}

#[test]
fn paused_transfers_of_a_peer_go_on_where_they_were() {
    let mut registry = registry();
    let admission = registry.admit_outbound(first_peer()).unwrap();
    let other = registry.admit_outbound(second_peer()).unwrap();
    registry.manifest_ready(admission.binding.public_id, 10);
    registry.manifest_ready(other.binding.public_id, 10);
    registry.reliable_data_sent(admission.binding.public_id, 3);
    registry.reliable_data_sent(other.binding.public_id, 4);
    registry.pause_peer(first_peer());
    assert_eq!(
        registry.phase(admission.binding.public_id),
        Some(TransferPhase::Paused)
    );
    assert_eq!(
        registry.phase(other.binding.public_id),
        Some(TransferPhase::Transferring)
    );
    registry.resume_progress(admission.binding.public_id, 3);
    assert_eq!(
        registry.list().transfers[0].processed_bytes,
        Some(3)
    );
}

#[test]
fn a_system_abort_reaches_one_peer_and_one_direction() {
    let mut registry = registry();
    let sent = registry.admit_outbound(first_peer()).unwrap();
    let other = registry.admit_outbound(second_peer()).unwrap();
    registry.manifest_ready(sent.binding.public_id, 10);
    registry.manifest_ready(other.binding.public_id, 10);
    assert!(registry
        .cancellation_for_peer(first_peer(), TransferDirection::Outbound)
        .is_none());

    registry.request_system_abort(first_peer(), TransferDirection::Inbound);
    assert!(!registry.cancellation_requested(sent.binding.public_id));
    registry.request_system_abort(first_peer(), TransferDirection::Outbound);
    assert!(registry.cancellation_requested(sent.binding.public_id));
    assert!(!registry.cancellation_requested(other.binding.public_id));
    assert_eq!(
        registry.cancellation_for_peer(first_peer(), TransferDirection::Outbound),
        Some(sent.binding)
    );

    registry.finish_system_abort(first_peer(), TransferDirection::Outbound);
    assert_eq!(
        registry.phase(sent.binding.public_id),
        Some(TransferPhase::Cancelled)
    );
    assert_ne!(
        registry.phase(other.binding.public_id),
        Some(TransferPhase::Cancelled)
    );

    registry.fail_peer(second_peer(), TransferFailureCode::CleanupFailed);
    assert_eq!(
        registry.phase(other.binding.public_id),
        Some(TransferPhase::Failed)
    );
    assert_eq!(
        registry.phase(sent.binding.public_id),
        Some(TransferPhase::Cancelled)
    );
}
