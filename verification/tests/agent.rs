use nodavo_agent::agent_core::{AgentCore, PairingOutcome};
use nodavo_agent::agent_operations::{
    cancel_error, cleanup_turn, validate_selected_paths, CapabilityAction, CapabilityOutcome,
    CapabilityRun, CleanupTurn,
};
use nodavo_agent::agent_status::{AgentFocusState, AgentPhase, AgentStatus, InputOwner, ProbeTicket};
use nodavo_agent::grants::Capability;
use nodavo_agent::identifiers::{device_id_text, DeviceId, TransferId};
use nodavo_agent::pairing_run::{
    confirmed_outcome, expect_hello, paired_record, paired_session, pairing_ended, peer_role,
    CommittedPeer, PairingAction, PairingEvent, PairingMessage, PairingRole, PairingRun,
    TransactionStep,
};
use nodavo_agent::peer_book::{
    capability_names, requested_grants, CapabilityName, PeerBook, TrustedCapability,
};
use nodavo_agent::peer_records::PeerRecord;
use nodavo_agent::platform_readiness::{
    AccessibilityReadiness, InputReadiness, LocalPlatformReadiness, LocalTopologyReadiness,
    SessionTopologyReadiness,
};
use nodavo_agent::reconnect::{
    begin_reconnect, connection_error, is_reconnect_request, mdns_found, mdns_wait,
    reconnect_connected, reconnect_failed, reconnected_session, resolve_endpoint, session_over,
    ConnectionPurpose, ConnectionStage, EndpointRequest, MdnsEvent, ReconnectTarget,
};
use nodavo_agent::routes::PeerPlacement;
use nodavo_agent::runtime::{
    map_session_error, parse_reconnect_request, unix_time_ms, validate_peer_id_text, AgentError,
    ReconnectMode,
};
use nodavo_agent::safety_stop::{
    files_queued, focus_answered, session_stopped, Exchange, SafetyAction, SafetyOutcome,
    SafetyRun, SessionStop,
};
use nodavo_agent::session_commands::LocalSessionCommand;
use nodavo_agent::session_safety::SessionRuntimeError;
use nodavo_agent::session_wire::SessionRole;
use nodavo_agent::transfer_model::TransferRegistryError;
use nodavo_agent::transfer_worker::{CleanupStep, TransferCleanupState, TransferStore};

fn test_peer() -> DeviceId {
    DeviceId::new([6; 32])
}

fn peer_record(seed: u8, grants: Capability, display_name: &str) -> PeerRecord {
    PeerRecord {
        device_id: DeviceId::new([seed; 32]),
        public_key: vec![seed; 32],
        certificate_der: vec![1, 2, 3],
        grants,
        grant_epoch: 1,
        display_name: display_name.to_owned(),
        established_at_unix_ms: 1,
        revoked_at_unix_ms: None,
        server_name: "peer.nodavo.invalid".to_owned(),
        last_endpoint: Some("127.0.0.1:44310".to_owned()),
    }
}

fn granted_status(status: &mut AgentStatus) {
    status.readiness.accessibility = AccessibilityReadiness::Granted;
    status.readiness.input = InputReadiness::Ready;
    status.readiness.local_topology = LocalTopologyReadiness::Available;
}

fn publish_synchronizing_test_session(agent: &mut AgentCore) {
    agent.board.status.phase = AgentPhase::Connected;
    agent.board.status.connected_peer = Some(test_peer());
    agent.board.status.readiness.session_topology = SessionTopologyReadiness::Synchronizing;
    agent.board.record_transition();
}

#[test]
fn readiness_cache_hit_returns_latest_concurrent_session_state() {
    let mut agent = AgentCore::new();
    granted_status(&mut agent.board.status);
    agent.board.probed_at = Some(10_000);
    publish_synchronizing_test_session(&mut agent);

    assert_eq!(agent.board.begin_probe(10_001), None);
    let refreshed = agent.board.status;
    assert_eq!(refreshed.phase, AgentPhase::Connected);
    assert_eq!(refreshed.connected_peer, Some(test_peer()));
    assert_eq!(
        refreshed.readiness.session_topology,
        SessionTopologyReadiness::Synchronizing
    );
}

#[test]
fn concurrent_readiness_follower_waits_for_completed_probe() {
    let mut agent = AgentCore::new();
    agent.board.status.readiness.accessibility = AccessibilityReadiness::Granted;
    let leader = agent.board.begin_probe(10_000).unwrap();
    assert!(agent
        .board
        .finish_probe(leader, LocalPlatformReadiness::unavailable(), 10_050));
    let leader_status = agent.board.status;
    assert_eq!(
        leader_status.readiness.accessibility,
        AccessibilityReadiness::Unavailable
    );
    assert_eq!(agent.board.begin_probe(10_050), None);
    assert_eq!(agent.board.status, leader_status);
    assert!(agent.board.probed_at.is_some());
}

#[test]
fn invalidated_readiness_probe_neither_publishes_nor_populates_cache() {
    let mut agent = AgentCore::new();
    granted_status(&mut agent.board.status);
    let ticket = agent.board.begin_probe(10_000).unwrap();
    publish_synchronizing_test_session(&mut agent);
    assert!(!agent
        .board
        .finish_probe(ticket, LocalPlatformReadiness::unavailable(), 10_010));

    let refreshed = agent.board.status;
    assert_eq!(refreshed.phase, AgentPhase::Connected);
    assert_eq!(
        refreshed.readiness.session_topology,
        SessionTopologyReadiness::Synchronizing
    );
    assert_eq!(
        refreshed.readiness.accessibility,
        AccessibilityReadiness::Granted
    );
    assert_eq!(refreshed.readiness.input, InputReadiness::Ready);
    assert_eq!(
        refreshed.readiness.local_topology,
        LocalTopologyReadiness::Available
    );
    assert!(agent.board.probed_at.is_none());

    agent.board.status.phase = AgentPhase::Ready;
    agent.board.status.connected_peer = None;
    agent.board.status.readiness.session_topology = SessionTopologyReadiness::NotConnected;
    let retry = agent.board.begin_probe(10_020).unwrap();
    assert_eq!(retry, ProbeTicket { epoch: 1 });
    assert!(agent
        .board
        .finish_probe(retry, LocalPlatformReadiness::unavailable(), 10_030));
    assert_eq!(
        agent.board.status.readiness.accessibility,
        AccessibilityReadiness::Unavailable
    );
    assert!(agent.board.probed_at.is_some());
}

#[test]
fn overall_safety_deadline_latches_stopping_before_ready() {
    let mut agent = AgentCore::new();
    agent.board.status.phase = AgentPhase::Connected;
    agent.board.status.connected_peer = Some(test_peer());
    agent.board.status.readiness.session_topology = SessionTopologyReadiness::Ready;
    agent.session_started();
    let disconnect_before = agent.disconnects;

    agent.begin_safety_stop().unwrap();
    let (mut run, action) = SafetyRun::begin(SessionStop::Emergency);
    assert_eq!(
        action,
        SafetyAction::StopSession(LocalSessionCommand::EmergencyStop)
    );
    assert_eq!(
        run.advance(SafetyOutcome::DeadlinePassed),
        SafetyAction::Fail
    );
    assert_eq!(agent.fail_safety_stop(), AgentError::SafetyRecoveryFailed);

    assert!(agent.safety.failure_latched());
    assert_ne!(agent.disconnects, disconnect_before);
    let status = agent.board.status;
    assert_eq!(status.phase, AgentPhase::Stopping);
    assert_eq!(status.connected_peer, None);
    assert_eq!(status.input_owner, InputOwner::Local);
    assert_eq!(status.focus_state, AgentFocusState::Local);
    assert_eq!(
        status.readiness.session_topology,
        SessionTopologyReadiness::NotConnected
    );
    agent.publish_session_finished(false);
    assert_eq!(agent.board.status.phase, AgentPhase::Stopping);
    let book = PeerBook::new(Vec::new());
    assert_eq!(
        begin_reconnect(&mut agent, &book, "reconnect:ignored").err(),
        Some(AgentError::SafetyRecoveryFailed)
    );
}

#[test]
fn safety_operation_owns_ready_after_session_finalizer_and_cleanup() {
    let mut agent = AgentCore::new();
    agent.board.status.phase = AgentPhase::Connected;
    agent.board.status.connected_peer = Some(test_peer());
    agent.safety.set_operation_active(true);

    agent.publish_session_finished(false);
    assert_eq!(agent.board.status.phase, AgentPhase::Stopping);
    assert!(agent.safety.operation_active());

    let completed = agent.finish_safety_stop().unwrap();
    assert_eq!(completed.phase, AgentPhase::Ready);
    assert_eq!(completed.connected_peer, None);
    assert!(!agent.safety.operation_active());
}

#[test]
fn safety_waits_for_preexisting_handshake_generation_before_ready() {
    let mut agent = AgentCore::new();
    agent.begin_operation().unwrap();
    agent.begin_safety_stop().unwrap();
    let (mut run, _) = SafetyRun::begin(SessionStop::Emergency);
    assert_eq!(
        run.advance(SafetyOutcome::Stopped(session_stopped(Exchange::NoSession))),
        SafetyAction::Disconnect
    );
    agent.disconnect_all();
    assert_eq!(run.advance(SafetyOutcome::Done), SafetyAction::WaitIdle);
    assert_eq!(agent.board.status.phase, AgentPhase::Stopping);
    assert_eq!(agent.publish_connected(test_peer()), Err(AgentError::Busy));

    agent.end_operation();
    assert_eq!(run.advance(SafetyOutcome::Done), SafetyAction::Enroll);
    assert_eq!(
        run.advance(SafetyOutcome::Enrolled(Ok(None))),
        SafetyAction::Pause
    );
    assert_eq!(run.advance(SafetyOutcome::Done), SafetyAction::Enroll);
    assert_eq!(
        run.advance(SafetyOutcome::Enrolled(Ok(Some(vec![test_peer()])))),
        SafetyAction::Cleanup(test_peer())
    );
    assert_eq!(
        run.advance(SafetyOutcome::Cleaned(Ok(()))),
        SafetyAction::Finish
    );
    let status = agent.finish_safety_stop().unwrap();
    assert_eq!(status.phase, AgentPhase::Ready);
    assert!(!agent.safety.operation_active());
    assert!(!agent.safety.failure_latched());
}

#[test]
fn capability_change_persists_epoch_atomically_and_listing_stays_public() {
    let peer = peer_record(4, Capability::empty(), "Office PC");
    let peer_id = device_id_text(peer.device_id);
    let mut book = PeerBook::new(vec![peer]);

    let change = book
        .set_capability(&peer_id, TrustedCapability::RemoteInput, true)
        .unwrap()
        .unwrap();
    assert_eq!(change.candidate[0].grant_epoch, 2);
    assert!(change.candidate[0].grants.remote_input);
    assert_eq!(change.epoch, 2);
    book.commit(change.candidate, true).unwrap();
    let listed = book.trusted_peers();
    assert_eq!(listed.len(), 1);
    assert_eq!(listed[0].peer_id, peer_id);
    assert_eq!(listed[0].display_name, "Office PC");
    assert!(listed[0].active);
    assert_eq!(listed[0].local_grants, vec![CapabilityName::Input]);

    let change = book
        .set_capability(&peer_id, TrustedCapability::ClipboardRead, true)
        .unwrap()
        .unwrap();
    assert_eq!(
        book.commit(change.candidate, false),
        Err(AgentError::Storage)
    );
    let listed = book.trusted_peers();
    assert_eq!(listed[0].local_grants, vec![CapabilityName::Input]);
    assert_eq!(book.active_peer(&peer_id).unwrap().grant_epoch, 2);
    assert!(book
        .set_capability(&peer_id, TrustedCapability::RemoteInput, true)
        .unwrap()
        .is_none());
}

#[test]
fn offline_file_grant_revoke_discards_only_authenticated_peer_staging() {
    let peer = peer_record(5, Capability::file_transfer_only(), "Offline peer");
    let device = peer.device_id;
    let peer_id = device_id_text(device);
    let mut book = PeerBook::new(vec![peer]);
    let mut store: TransferStore<u32> = TransferStore::new();
    store.register_staging_root(1, false, true).unwrap();
    let transfer = TransferId::from_bytes([1; 16]);
    store.remember_inbound(device, transfer);

    let change = book
        .set_capability(&peer_id, TrustedCapability::FileTransfer, false)
        .unwrap()
        .unwrap();
    let (mut run, action) = CapabilityRun::begin(&change, TrustedCapability::FileTransfer, false);
    book.commit(change.candidate, true).unwrap();
    let CapabilityAction::RequireInboundDiscard(discarded) = action else {
        panic!("received parts have to be discarded")
    };
    assert_eq!(discarded, device);
    store.require_peer_inbound_discard(discarded);
    assert!(matches!(
        run.advance(CapabilityOutcome::Done),
        CapabilityAction::Notify(LocalSessionCommand::UpdateLocalGrant {
            epoch: 2,
            enabled: false,
            ..
        })
    ));
    assert!(matches!(
        run.advance(CapabilityOutcome::Notified(Exchange::NoSession)),
        CapabilityAction::WaitCleanup(peer) if peer == device
    ));
    let Ok(CleanupStep::Discard(ids)) = store.begin_cleanup(device) else {
        panic!("something has to be discarded")
    };
    assert_eq!(ids, [transfer]);
    let state = store.finish_cleanup(device, &ids, Ok(())).unwrap();
    assert!(matches!(
        cleanup_turn(Some(Ok(state))),
        CleanupTurn::Done
    ));
    assert!(matches!(
        run.advance(CapabilityOutcome::Cleaned(Ok(()))),
        CapabilityAction::End(Ok(()))
    ));
    assert!(
        !book
            .active_peer(&peer_id)
            .unwrap()
            .grants
            .file_transfer
    );
    assert!(!store.is_poisoned());
}

#[test]
fn a_session_that_misses_a_change_is_disconnected() {
    let peer = peer_record(5, Capability::empty(), "Peer");
    let peer_id = device_id_text(peer.device_id);
    let book = PeerBook::new(vec![peer]);
    let change = book
        .set_capability(&peer_id, TrustedCapability::ClipboardWrite, true)
        .unwrap()
        .unwrap();
    let (mut run, action) = CapabilityRun::begin(&change, TrustedCapability::ClipboardWrite, true);
    assert!(matches!(action, CapabilityAction::Notify(_)));
    assert!(matches!(
        run.advance(CapabilityOutcome::Notified(Exchange::SendTimedOut)),
        CapabilityAction::Disconnect
    ));
    assert!(matches!(
        run.advance(CapabilityOutcome::Done),
        CapabilityAction::End(Ok(()))
    ));
    assert!(matches!(
        cleanup_turn(Some(Ok(TransferCleanupState::Pending))),
        CleanupTurn::Again
    ));
    assert!(matches!(
        cleanup_turn(None),
        CleanupTurn::Failed(AgentError::TransferFailed)
    ));
}

#[test]
fn peers_are_found_changed_and_revoked_by_their_identifier() {
    let peer = peer_record(7, Capability::empty(), "Peer");
    let peer_id = device_id_text(peer.device_id);
    let mut book = PeerBook::new(vec![peer]);
    assert_eq!(
        book.active_peer("missing").err(),
        Some(AgentError::PeerNotFound)
    );
    let candidate = book
        .update_peer_endpoint(&peer_id, "10.0.0.1:1".to_owned())
        .unwrap();
    book.commit(candidate, true).unwrap();
    assert_eq!(
        book.active_peer(&peer_id).unwrap().last_endpoint.as_deref(),
        Some("10.0.0.1:1")
    );
    let (candidate, device) = book.revoke(&peer_id, 0).unwrap();
    assert_eq!(device, DeviceId::new([7; 32]));
    assert_eq!(candidate[0].revoked_at_unix_ms, Some(1));
    book.commit(candidate, true).unwrap();
    assert_eq!(
        book.revoke(&peer_id, 5).err(),
        Some(AgentError::PeerNotFound)
    );
    assert!(!book.trusted_peers()[0].active);

    let candidate = book.persist_peer(peer_record(7, Capability::empty(), "Again"));
    book.commit(candidate, true).unwrap();
    assert_eq!(book.trusted_peers().len(), 1);
    assert_eq!(book.active_peer(&peer_id).unwrap().display_name, "Again");
    let candidate = book.persist_peer(peer_record(8, Capability::empty(), "Other"));
    book.commit(candidate, true).unwrap();
    assert_eq!(book.trusted_peers().len(), 2);

    let mut last = peer_record(9, Capability::empty(), "Last");
    last.grant_epoch = u64::MAX;
    let last_id = device_id_text(last.device_id);
    let book = PeerBook::new(vec![last]);
    assert_eq!(
        book.set_capability(&last_id, TrustedCapability::FileTransfer, true)
            .err(),
        Some(AgentError::GrantEpochExhausted)
    );
}

#[test]
fn capabilities_are_named_in_one_order() {
    let names = [
        CapabilityName::Files,
        CapabilityName::ClipboardRead,
        CapabilityName::Files,
    ];
    let grants = requested_grants(&names);
    assert_eq!(
        capability_names(grants),
        vec![CapabilityName::ClipboardRead, CapabilityName::Files]
    );
    assert_eq!(requested_grants(&[]), Capability::empty());
}

/// Runs a pairing; the peer answers with `messages`, in their order.
fn run_pairing(
    role: PairingRole,
    accepted: bool,
    messages: &[PairingMessage],
    session: Result<(), SessionRuntimeError>,
) -> (Vec<String>, Result<(), AgentError>) {
    let (mut run, mut action) = PairingRun::begin(role);
    let mut log = Vec::new();
    let mut at = 0;
    loop {
        let event = match action {
            PairingAction::AwaitConfirmation => PairingEvent::Confirmed(accepted),
            PairingAction::Reduce(step) => {
                log.push(format!("{step:?}"));
                PairingEvent::Reduced(Ok(()))
            }
            PairingAction::Send(message) => {
                log.push(format!("send {message:?}"));
                PairingEvent::Sent(Ok(()))
            }
            PairingAction::Receive => {
                at += 1;
                match messages.get(at - 1) {
                    Some(message) => PairingEvent::Received(*message),
                    None => PairingEvent::Disconnected,
                }
            }
            PairingAction::CheckBinding => PairingEvent::Checked(true),
            PairingAction::PersistPeer => {
                log.push("persist".to_owned());
                PairingEvent::Persisted(Ok(()))
            }
            PairingAction::PublishConnected => PairingEvent::Published(Ok(())),
            PairingAction::Publish(outcome) => {
                log.push(format!("{outcome:?}"));
                PairingEvent::Done
            }
            PairingAction::RunSession => {
                log.push("session".to_owned());
                PairingEvent::SessionEnded(session)
            }
            PairingAction::ClosePairing => {
                log.push("close".to_owned());
                PairingEvent::Done
            }
            PairingAction::CloseEmergency => {
                log.push("emergency".to_owned());
                PairingEvent::Done
            }
            PairingAction::End(end) => return (log, end),
        };
        action = run.advance(event);
    }
}

#[test]
fn a_pairing_commits_after_both_sides_agreed() {
    let (log, end) = run_pairing(
        PairingRole::Initiator,
        true,
        &[
            PairingMessage::Confirmation(true),
            PairingMessage::Acceptance(PairingRole::Responder),
            PairingMessage::ReadyToCommit,
            PairingMessage::Committed,
        ],
        Ok(()),
    );
    assert_eq!(end, Ok(()));
    assert_eq!(
        log,
        [
            "ConfirmSas(Initiator)",
            "send Confirmation(true)",
            "ConfirmSas(Responder)",
            "SubmitOwnAcceptance",
            "send Acceptance(Initiator)",
            "SubmitPeerAcceptance",
            "send ReadyToCommit",
            "Commit",
            "persist",
            "send Committed",
            "Finished(true)",
            "session",
        ]
    );
}

#[test]
fn a_refused_or_broken_pairing_stores_nothing() {
    let (log, end) = run_pairing(PairingRole::Responder, false, &[], Ok(()));
    assert_eq!(end, Ok(()));
    assert_eq!(
        log,
        ["Abort", "send Confirmation(false)", "close", "Finished(false)"]
    );

    let (log, end) = run_pairing(
        PairingRole::Responder,
        true,
        &[PairingMessage::Confirmation(false)],
        Ok(()),
    );
    assert_eq!(end, Ok(()));
    assert!(log.contains(&"Finished(false)".to_owned()));
    assert!(!log.contains(&"persist".to_owned()));

    let (log, end) = run_pairing(
        PairingRole::Responder,
        true,
        &[
            PairingMessage::Confirmation(true),
            PairingMessage::Acceptance(PairingRole::Responder),
        ],
        Ok(()),
    );
    assert_eq!(end, Err(AgentError::PairingFailed));
    assert!(!log.contains(&"persist".to_owned()));

    let (log, end) = run_pairing(
        PairingRole::Initiator,
        true,
        &[PairingMessage::Confirmation(true)],
        Ok(()),
    );
    assert_eq!(end, Ok(()));
    assert_eq!(log.last().map(String::as_str), Some("emergency"));
    let (mut run, _) = PairingRun::begin(PairingRole::Initiator);
    assert!(matches!(
        run.advance(PairingEvent::ConfirmationTimedOut),
        PairingAction::End(Err(AgentError::PairingTimedOut))
    ));
    assert_eq!(peer_role(PairingRole::Responder), PairingRole::Initiator);
    assert_eq!(expect_hello(PairingMessage::Hello), Ok(()));
    assert_eq!(
        expect_hello(PairingMessage::Committed),
        Err(AgentError::PairingFailed)
    );
    assert_ne!(TransactionStep::Abort, TransactionStep::Commit);
}

#[test]
fn the_end_of_a_pairing_is_told() {
    assert_eq!(pairing_ended(Ok(())), (None, false));
    assert_eq!(
        pairing_ended(Err(AgentError::Storage)),
        (Some(PairingOutcome::Failed), false)
    );
    assert_eq!(
        pairing_ended(Err(AgentError::SafetyRecoveryFailed)),
        (Some(PairingOutcome::Failed), true)
    );
    assert_eq!(
        confirmed_outcome(PairingOutcome::Finished(true), Err(AgentError::Busy)),
        Ok(PairingOutcome::Finished(true))
    );
    assert_eq!(
        confirmed_outcome(PairingOutcome::Pending, Err(AgentError::PairingTimedOut)),
        Err(AgentError::PairingTimedOut)
    );
    let record = paired_record(
        CommittedPeer {
            device_id: DeviceId::new([3; 32]),
            public_key: vec![3; 32],
            certificate_der: vec![9],
            grants: Capability::remote_input_only(),
            display_name: "Peer".to_owned(),
            server_name: "peer.nodavo.invalid".to_owned(),
            endpoint: "10.0.0.1:1".to_owned(),
        },
        77,
    );
    assert_eq!(record.grant_epoch, 1);
    assert_eq!(record.established_at_unix_ms, 77);
    let config = paired_session(
        PairingRole::Responder,
        DeviceId::new([1; 32]),
        &record,
        Capability::file_transfer_only(),
        PeerPlacement::Disabled,
        12,
    );
    assert_eq!(config.role, SessionRole::Acceptor);
    assert_eq!(config.existing_control, Some(12));
    assert_eq!(
        config.peer_grants_to_local,
        Some(Capability::file_transfer_only())
    );
}

#[test]
fn a_pairing_is_confirmed_once_under_its_identifier() {
    let mut agent = AgentCore::new();
    assert_eq!(
        agent.confirm_pairing("id"),
        Err(AgentError::PairingNotFound)
    );
    agent.begin_operation().unwrap();
    assert_eq!(agent.begin_operation(), Err(AgentError::Busy));
    agent.show_pairing().unwrap();
    assert_eq!(agent.board.status.phase, AgentPhase::Pairing);
    agent.pairing_prepared("id".to_owned());
    assert_eq!(
        agent.confirm_pairing("other"),
        Err(AgentError::PairingNotFound)
    );
    assert_eq!(agent.confirm_pairing("id"), Ok(()));
    assert_eq!(
        agent.confirm_pairing("id"),
        Err(AgentError::AlreadyConfirmed)
    );

    let mut other = AgentCore::new();
    other.begin_operation().unwrap();
    other.begin_waiting().unwrap();
    assert_eq!(other.begin_waiting(), Err(AgentError::Busy));
    assert_eq!(
        other.pairing_not_prepared(AgentError::PairingTimedOut),
        AgentError::PairingTimedOut
    );
    assert!(!other.busy);
    assert!(!other.deliver_inbound());
    other.begin_safety_stop().unwrap();
    assert_eq!(other.begin_safety_stop(), Err(AgentError::Busy));
    assert_eq!(other.show_pairing(), Err(AgentError::Busy));
}

#[test]
fn a_known_peer_is_met_where_it_was_or_where_the_user_says() {
    let peer = peer_record(4, Capability::empty(), "Peer");
    let device = peer.device_id;
    let peer_id = device_id_text(device);
    let book = PeerBook::new(vec![peer]);
    let mut agent = AgentCore::new();
    let plan = begin_reconnect(&mut agent, &book, &format!("reconnect:{peer_id}")).unwrap();
    assert_eq!(plan.role, SessionRole::Opener);
    assert!(matches!(plan.target, ReconnectTarget::Dial(at) if at == "127.0.0.1:44310"));
    assert!(agent.busy);
    assert_eq!(
        begin_reconnect(&mut agent, &book, &format!("reconnect-listen:{peer_id}")).err(),
        Some(AgentError::Busy)
    );
    assert_eq!(
        reconnect_failed(&mut agent, AgentError::ReconnectFailed),
        AgentError::ReconnectFailed
    );
    let plan =
        begin_reconnect(&mut agent, &book, &format!("reconnect:{peer_id}@mdns:x")).unwrap();
    assert!(matches!(plan.target, ReconnectTarget::Resolve(at) if at == "mdns:x"));
    let status = reconnect_connected(&mut agent, device).unwrap();
    assert_eq!(status.phase, AgentPhase::Connected);
    assert_eq!(status.connected_peer, Some(device));
    assert_eq!(status.input_owner, InputOwner::Local);
    assert_eq!(status.focus_state, AgentFocusState::Local);
    assert_eq!(
        status.readiness.session_topology,
        SessionTopologyReadiness::Synchronizing
    );
    assert_eq!(agent.board.status, status);
    assert_eq!(agent.board.transition_epoch, 1);
    assert_eq!(agent.board.probed_at, None);
    assert!(agent.session && agent.busy && !agent.waiting);
    let config = reconnected_session(
        plan.role,
        DeviceId::new([1; 32]),
        &plan.peer,
        PeerPlacement::Left,
    );
    assert_eq!(config.peer_grants_to_local, None);
    assert_eq!(config.peer_device, device);
    agent.peer_revoked();
    assert_eq!(agent.disconnects, 1);
    session_over(&mut agent, Ok(()));
    assert_eq!(agent.board.status.phase, AgentPhase::Ready);
    assert!(!agent.busy);
    let unknown = device_id_text(DeviceId::new([9; 32]));
    assert_eq!(
        begin_reconnect(&mut agent, &book, &format!("reconnect:{unknown}")).err(),
        Some(AgentError::PeerNotFound)
    );
    assert!(!agent.busy);
}

#[test]
fn endpoints_are_told_apart() {
    assert!(is_reconnect_request("reconnect:x"));
    assert!(is_reconnect_request("reconnect-listen:x"));
    assert!(!is_reconnect_request("listen"));
    assert!(matches!(
        resolve_endpoint("mdns:Office PC"),
        Ok(EndpointRequest::Mdns(name)) if name == "Office PC"
    ));
    assert!(matches!(
        resolve_endpoint("10.0.0.1:1"),
        Ok(EndpointRequest::Address(text)) if text == "10.0.0.1:1"
    ));
    assert_eq!(
        resolve_endpoint("mdns:").err(),
        Some(AgentError::InvalidEndpoint)
    );
    assert_eq!(mdns_wait(0), Err(AgentError::DiscoveryUnavailable));
    assert_eq!(mdns_wait(20), Ok(20));
    assert_eq!(mdns_wait(499_999_999), Ok(499_999_999));
    assert_eq!(mdns_wait(5_000_000_000), Ok(500_000_000));
    let locations = MdnsEvent::Resolved(vec![
        None,
        Some("a".to_owned()),
        Some("b".to_owned()),
        Some("b".to_owned()),
    ]);
    assert_eq!(mdns_found(&locations, "b"), Ok(Some(2)));
    assert_eq!(mdns_found(&locations, "c"), Ok(None));
    assert_eq!(mdns_found(&MdnsEvent::Nothing, "c"), Ok(None));
    assert_eq!(
        mdns_found(&MdnsEvent::Disconnected, "c"),
        Err(AgentError::DiscoveryUnavailable)
    );
    assert_eq!(
        connection_error(ConnectionPurpose::Reconnect, ConnectionStage::TransportBinding),
        AgentError::PeerNotFound
    );
    assert_eq!(
        connection_error(ConnectionPurpose::Pairing, ConnectionStage::Preflight),
        AgentError::PairingFailed
    );
    assert_eq!(
        connection_error(ConnectionPurpose::Pairing, ConnectionStage::StreamDeadline),
        AgentError::PairingTimedOut
    );
}

#[test]
fn requests_to_meet_a_peer_are_read() {
    let id = "a1".repeat(32);
    assert_eq!(validate_peer_id_text(&id), Ok(()));
    assert_eq!(
        validate_peer_id_text(&id.to_uppercase()),
        Err(AgentError::InvalidEndpoint)
    );
    assert_eq!(
        parse_reconnect_request(&format!("reconnect-listen:{id}")),
        Ok(ReconnectMode::Listen {
            peer_id: id.clone()
        })
    );
    assert_eq!(
        parse_reconnect_request(&format!("reconnect:{id}@10.0.0.1:1")),
        Ok(ReconnectMode::Connect {
            peer_id: id.clone(),
            endpoint: Some("10.0.0.1:1".to_owned()),
        })
    );
    assert_eq!(
        parse_reconnect_request(&format!("reconnect:{id}@")),
        Err(AgentError::InvalidEndpoint)
    );
    assert_eq!(
        parse_reconnect_request("listen"),
        Err(AgentError::InvalidEndpoint)
    );
    assert_eq!(unix_time_ms(None), 0);
    assert_eq!(unix_time_ms(Some(u128::MAX)), u64::MAX);
    assert_eq!(unix_time_ms(Some(5)), 5);
}

#[test]
fn exchanges_with_the_session_are_reported() {
    assert_eq!(session_stopped(Exchange::Replied(Ok(()))), Ok(true));
    assert_eq!(
        session_stopped(Exchange::ReplyClosed),
        Err(AgentError::SafetyRecoveryFailed)
    );
    assert_eq!(
        focus_answered(Exchange::NoSession),
        Err(AgentError::NotConnected)
    );
    assert_eq!(
        focus_answered(Exchange::Replied(Err(SessionRuntimeError::FocusRejected))),
        Err(AgentError::FocusRejected)
    );
    assert_eq!(files_queued(Exchange::Replied(Ok(4))), Ok(4));
    let timed_out: Exchange<u8> = Exchange::ReplyTimedOut;
    assert_eq!(files_queued(timed_out), Err(AgentError::TransferFailed));
    let closed: Exchange<u8> = Exchange::SendClosed;
    assert_eq!(files_queued(closed), Err(AgentError::NotConnected));
    assert_eq!(
        map_session_error(SessionRuntimeError::Transport),
        AgentError::NotConnected
    );
    assert_eq!(
        cancel_error(TransferRegistryError::InvalidId),
        AgentError::TransferNotFound
    );
    assert_eq!(
        cancel_error(TransferRegistryError::NotCancellable),
        AgentError::TransferNotCancellable
    );
    assert_eq!(
        cancel_error(TransferRegistryError::LifetimeFull),
        AgentError::TransferFailed
    );
}

#[test]
fn chosen_paths_are_checked() {
    let paths = |list: &[&str]| list.iter().map(|path| (*path).to_owned()).collect::<Vec<_>>();
    assert_eq!(
        validate_selected_paths(&paths(&["/a", "/b"]), &vec![true, true], 2, 4),
        Ok(())
    );
    for (list, absolute) in [
        (paths(&[]), vec![]),
        (paths(&["/a", "/b", "/c"]), vec![true, true, true]),
        (paths(&[""]), vec![true]),
        (paths(&["/long"]), vec![true]),
        (paths(&["/\0"]), vec![true]),
        (paths(&["a"]), vec![false]),
    ] {
        assert_eq!(
            validate_selected_paths(&list, &absolute, 2, 4),
            Err(AgentError::TransferFailed)
        );
    }
}
