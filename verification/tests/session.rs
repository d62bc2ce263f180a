use nodavo_agent::agent_status::{AgentFocusState, AgentPhase, AgentStatus, InputOwner};
use nodavo_agent::displays::{DisplayGeometry, DisplayRotation, DisplayTopology, NativeDisplaySnapshot};
use nodavo_agent::grants::{Capability, EventMeta};
use nodavo_agent::identifiers::{DeviceId, SessionId};
use nodavo_agent::input::{InputEvent, InputPayload, KeyState};
use nodavo_agent::native_bridge::PlatformSafetyEvent;
use nodavo_agent::platform_readiness::SessionTopologyReadiness;
use nodavo_agent::routes::PeerPlacement;
use nodavo_agent::session_commands::{
    continue_local_command, handle_local_command, platform_safety_command, CommandStep,
    LocalSessionCommand,
};
use nodavo_agent::session_control::{
    after_recovery, core_event_for_platform_safety, handle_transfer_worker_event,
    handle_transport_event, input_failed, placement_update_recovery_event, request_focus,
    session_error_of_clipboard, ControlStep, Dispatch, FrameRoute, InputFailure,
    TransferWorkerEvent,
};
use nodavo_agent::session_core::{CoreEvent, DisconnectReason, Effect, FocusState, LinkState};
use nodavo_agent::session_effects::{
    close_reason, lease_ttl_ms, ActionOutcome, EffectRun, RunStep, SessionAction,
};
use nodavo_agent::session_link::{
    channel_plan, establish_channel, establish_channels, opens_channels, receive_handshake,
    receive_opening_handshake, send_handshake, HandshakeFrames,
};
use nodavo_agent::session_loop::{
    loop_action, loop_next, loop_turn, refresh_ended, LoopAction, LoopEvent, LoopNext, LoopTurn,
    RefreshOutcome, RefreshVerdict, SessionRun, SessionStep,
};
use nodavo_agent::session_model::{
    saturating_add, CoreView, LocalTopologyRefresh, PeerGrantState, PeerSession, SequenceKind,
    SessionConfig,
};
use nodavo_agent::session_refresh::{RefreshRun, RefreshStep};
use nodavo_agent::session_safety::{
    transfer_send_failure_is_link_loss, SessionRuntimeError, SessionSafetyState,
};
use nodavo_agent::session_wire::{
    ChannelKind, Channels, CloseReason, ControlMessage, DatagramAvailability, InputRoute,
    SessionRole, TransportEvent,
};
use nodavo_agent::clipboard_runtime::ClipboardRuntimeError;
use nodavo_agent::topology_runtime::{EdgeSettings, PeerTopologyState};
use nodavo_agent::transfer_runtime::{TransferError, TransferRuntimeError};

const MAX_DISPLAYS: usize = 16;

fn settings() -> EdgeSettings {
    EdgeSettings {
        activation_band_milli: 8_000,
        hysteresis_milli: 12_000,
        entry_inset_milli: 4_000,
        debounce_ms: 80,
        cooldown_ms: 300,
    }
}

fn topology_state() -> PeerTopologyState {
    PeerTopologyState::from_environment(PeerPlacement::Right, true, MAX_DISPLAYS, settings(), true)
        .unwrap()
}

fn display_snapshot(native_id: u64, pixel_width: u32) -> NativeDisplaySnapshot {
    NativeDisplaySnapshot {
        native_id,
        geometry: DisplayGeometry {
            origin_x_milli: 0,
            origin_y_milli: 0,
            pixel_width,
            pixel_height: 1_080,
            scale_x_milli: 1_000,
            scale_y_milli: 1_000,
            rotation: DisplayRotation::Degrees0,
            logical_width_milli: u64::from(pixel_width) * 1_000,
            logical_height_milli: 1_080_000,
        },
        admitted: true,
    }
}

fn all_grants() -> Capability {
    Capability {
        remote_input: true,
        clipboard_read: true,
        clipboard_write: true,
        file_transfer: true,
    }
}

fn opener() -> SessionConfig {
    SessionConfig {
        role: SessionRole::Opener,
        local_device: DeviceId::new([1; 32]),
        peer_device: DeviceId::new([2; 32]),
        local_grants_to_peer: all_grants(),
        local_grant_epoch: 3,
        peer_grants_to_local: Some(all_grants()),
        peer_grant_epoch: Some(7),
        peer_placement: PeerPlacement::Right,
        existing_control: None,
    }
}

fn acceptor() -> SessionConfig {
    SessionConfig {
        role: SessionRole::Acceptor,
        local_device: DeviceId::new([2; 32]),
        peer_device: DeviceId::new([1; 32]),
        local_grants_to_peer: all_grants(),
        local_grant_epoch: 7,
        peer_grants_to_local: Some(all_grants()),
        peer_grant_epoch: Some(3),
        peer_placement: PeerPlacement::Right,
        existing_control: None,
    }
}

fn channels() -> Channels {
    Channels {
        control: 1,
        reliable_input: 2,
        pointer_fallback: Some(3),
        clipboard: 4,
        file_manifest: 5,
        file_data: 6,
        datagrams: DatagramAvailability::Unavailable,
    }
}

fn session() -> PeerSession {
    PeerSession::new(
        opener(),
        channels(),
        SessionId::new([9; 16]),
        PeerGrantState {
            capabilities: all_grants(),
            epoch: 7,
        },
        topology_state(),
        SessionSafetyState::new(),
    )
}

fn reducer(focus: FocusState) -> CoreView {
    CoreView {
        focus,
        link: LinkState::Up,
        local_pointer_routing_ready: false,
        outbound_pointer_enter_required: false,
        local_grant_allows_peer_input: true,
        peer_grant_allows_local_input: true,
        local_topology_refresh_pending: false,
        remote_topology_known: true,
        local_topology_acknowledged: true,
    }
}

fn connected_status() -> AgentStatus {
    let mut status = AgentStatus::new();
    status.phase = AgentPhase::Connected;
    status.connected_peer = Some(DeviceId::new([2; 32]));
    status.readiness.session_topology = SessionTopologyReadiness::Synchronizing;
    status
}

fn key(state: KeyState) -> InputEvent {
    InputEvent::Key {
        usage_page: 7,
        usage_id: 4,
        state,
        modifiers: 0,
    }
}

/// Runs effects to the end; every action is performed with `outcome`.
fn run_effects(
    session: &mut PeerSession,
    effects: Vec<Effect>,
    core: &CoreView,
    outcome: ActionOutcome,
) -> (Vec<SessionAction>, Result<(), SessionRuntimeError>) {
    let mut run = EffectRun::new(effects);
    let mut actions = Vec::new();
    for _ in 0..100 {
        match run.next(session, core, 10) {
            RunStep::Perform(action) => {
                actions.push(action);
                run.performed(session, outcome);
            }
            RunStep::Continue => {}
            RunStep::Finished(result) => return (actions, result),
        }
    }
    panic!("the run does not end")
}

#[test]
fn transfer_reliable_send_transport_failure_is_link_loss_only() {
    assert!(transfer_send_failure_is_link_loss(
        SessionRuntimeError::Transport
    ));
    assert!(!transfer_send_failure_is_link_loss(
        SessionRuntimeError::ProtocolViolation
    ));
    assert!(!transfer_send_failure_is_link_loss(
        SessionRuntimeError::Platform
    ));
    assert!(!transfer_send_failure_is_link_loss(
        SessionRuntimeError::SafetyRecoveryFailed
    ));
}

#[test]
fn placement_during_requesting_remote_requires_exact_reconnect_recovery() {
    let focus = FocusState::RequestingRemote {
        lease_id: 7,
        expires_at: 5_000,
    };
    assert_eq!(
        placement_update_recovery_event(focus),
        Some(CoreEvent::ReconnectRequested)
    );
}

#[test]
fn placement_during_controlling_remote_requires_exact_reconnect_recovery() {
    let focus = FocusState::ControllingRemote {
        lease_id: 8,
        expires_at: 5_000,
    };
    assert_eq!(
        placement_update_recovery_event(focus),
        Some(CoreEvent::ReconnectRequested)
    );
    assert_eq!(placement_update_recovery_event(FocusState::Local), None);
}

#[test]
fn missing_refresh_ack_deadline_survives_a_dirty_storm_and_latest_wins() {
    let mut topology = topology_state();
    let mut refresh = LocalTopologyRefresh::new();
    refresh.arm_ack_deadline(10);

    for width in [1_280, 1_440, 1_920] {
        let candidate = topology
            .prepare_local_candidate(&[display_snapshot(101, width)], true)
            .unwrap();
        refresh.coalesce(candidate);
    }

    assert!(!refresh.timed_out(5_009));
    assert!(refresh.timed_out(5_010));
    let committed = topology
        .commit_local_candidate(refresh.take_pending().unwrap())
        .unwrap();
    assert_eq!(committed.displays[0].geometry.pixel_width, 1_920);
    assert!(refresh.take_pending().is_none());

    let mut snapshot_refresh = LocalTopologyRefresh::new();
    snapshot_refresh.begin_snapshot(10);
    for ready_event_at in [11, 100, 1_000, 5_009] {
        snapshot_refresh.begin_snapshot(ready_event_at);
        assert!(!snapshot_refresh.timed_out(5_009));
    }
    assert!(snapshot_refresh.timed_out(5_010));
}

#[test]
fn safety_latch_refuses_late_topology_ready_publication() {
    let mut status = connected_status();
    let mut session_safety = SessionSafetyState::new();
    session_safety.latch_failure();
    assert!(matches!(
        status
            .publish_session_topology_readiness(&session_safety, SessionTopologyReadiness::Ready),
        Err(SessionRuntimeError::SafetyRecoveryFailed)
    ));
    assert_eq!(status.phase, AgentPhase::Stopping);
    assert_eq!(
        status.readiness.session_topology,
        SessionTopologyReadiness::NotConnected
    );

    let mut status = connected_status();
    let mut session_safety = SessionSafetyState::new();
    session_safety.set_operation_active(true);
    assert!(matches!(
        status
            .publish_session_topology_readiness(&session_safety, SessionTopologyReadiness::Ready),
        Err(SessionRuntimeError::SafetyRecoveryFailed)
    ));
    assert_eq!(
        status.readiness.session_topology,
        SessionTopologyReadiness::NotConnected
    );
}

#[test]
fn two_sides_agree_on_their_handshake() {
    let session_id = SessionId::new([5; 16]);
    let mut frames = HandshakeFrames::new();
    let mut whole = false;
    for message in send_handshake(&opener(), session_id) {
        assert!(!whole);
        whole = frames.push(message);
    }
    assert!(whole);
    let (accepted_id, grant) = receive_opening_handshake(&acceptor(), &frames).unwrap();
    assert_eq!(accepted_id, session_id);
    assert_eq!(grant.capabilities, all_grants());
    assert_eq!(grant.epoch, 3);

    let mut answer = HandshakeFrames::new();
    for message in send_handshake(&acceptor(), accepted_id) {
        answer.push(message);
    }
    let grant = receive_handshake(&opener(), &answer, session_id).unwrap();
    assert_eq!(grant.epoch, 7);
    assert_eq!(
        receive_handshake(&opener(), &answer, SessionId::new([6; 16])).err(),
        Some(SessionRuntimeError::ProtocolViolation)
    );

    let mut stranger = acceptor();
    stranger.local_device = DeviceId::new([8; 32]);
    assert_eq!(
        receive_opening_handshake(&stranger, &frames).err(),
        Some(SessionRuntimeError::ProtocolViolation)
    );
}

#[test]
fn channels_are_opened_in_one_order() {
    assert!(opens_channels(SessionRole::Opener));
    assert!(!opens_channels(SessionRole::Acceptor));
    let plan = channel_plan(&opener(), DatagramAvailability::Unavailable);
    assert_eq!(
        plan,
        vec![
            ChannelKind::Control,
            ChannelKind::ReliableInput,
            ChannelKind::PointerFallback,
            ChannelKind::Clipboard,
            ChannelKind::FileManifest,
            ChannelKind::FileData,
        ]
    );
    let opened = vec![1, 2, 3, 4, 5, 6];
    assert_eq!(
        establish_channels(&opener(), DatagramAvailability::Unavailable, &opened),
        Some(channels())
    );
    let mut known = opener();
    known.existing_control = Some(40);
    let established =
        establish_channels(&known, DatagramAvailability::Available, &vec![1, 2, 3, 4]).unwrap();
    assert_eq!(established.control, 40);
    assert_eq!(established.pointer_fallback, None);
    assert_eq!(established.clipboard, 2);
    assert_eq!(
        establish_channels(&known, DatagramAvailability::Available, &vec![1, 2, 3]),
        None
    );
    assert_eq!(
        establish_channel(
            ChannelKind::Clipboard,
            TransportEvent::ChannelOpened {
                channel: 4,
                kind: ChannelKind::Clipboard,
                bidirectional: true,
            },
        ),
        Ok(4)
    );
    assert_eq!(
        establish_channel(
            ChannelKind::Clipboard,
            TransportEvent::ChannelOpened {
                channel: 4,
                kind: ChannelKind::FileData,
                bidirectional: true,
            },
        ),
        Err(SessionRuntimeError::ProtocolViolation)
    );
}

#[test]
fn effects_are_carried_out_in_their_order() {
    let mut session = session();
    let core = reducer(FocusState::ControllingRemote {
        lease_id: 9,
        expires_at: 5_000,
    });
    let (actions, result) = run_effects(
        &mut session,
        vec![
            Effect::SendInput {
                lease_id: 9,
                input: key(KeyState::Pressed),
            },
            Effect::SendReleaseAll { lease_id: 9 },
            Effect::RestoreLocalOwnership,
        ],
        &core,
        ActionOutcome::Done,
    );
    assert_eq!(result, Ok(()));
    assert_eq!(actions.len(), 3);
    let SessionAction::SendInput { route, message } = &actions[0] else {
        panic!("input goes first")
    };
    assert_eq!(*route, InputRoute::Channel(2));
    assert_eq!(message.meta.sequence, 1);
    assert_eq!(message.meta.origin, DeviceId::new([1; 32]));
    let SessionAction::SendInput { message, .. } = &actions[1] else {
        panic!("the release goes second")
    };
    assert_eq!(message.payload, InputPayload::ReleaseAll);
    assert_eq!(message.meta.sequence, 2);
    assert_eq!(actions[2], SessionAction::RestoreLocalOwnership);
}

#[test]
fn a_failed_restore_fails_the_run_at_its_end() {
    let mut session = session();
    let core = reducer(FocusState::Local);
    let (actions, result) = run_effects(
        &mut session,
        vec![
            Effect::RestoreLocalOwnership,
            Effect::Disconnect {
                reason: DisconnectReason::LocalLocked,
            },
        ],
        &core,
        ActionOutcome::Failed(SessionRuntimeError::Platform),
    );
    assert!(result.is_err());
    assert_eq!(actions[0], SessionAction::RestoreLocalOwnership);
}

#[test]
fn lease_times_are_bounded() {
    assert_eq!(lease_ttl_ms(5_000, 1_000), 4_000);
    assert_eq!(lease_ttl_ms(1_000_000, 0), 30_000);
    assert_eq!(lease_ttl_ms(10, 1_000), 1);
    assert_eq!(saturating_add(u64::MAX, 1), u64::MAX);
    assert_eq!(saturating_add(40, 2), 42);
    assert_eq!(
        close_reason(DisconnectReason::EmergencyStop),
        CloseReason::EmergencyDisconnect
    );
}

#[test]
fn sequences_rise_in_lanes_of_their_own() {
    let mut session = session();
    let control = session.next_meta(SequenceKind::Control);
    let reliable = session.next_meta(SequenceKind::Reliable);
    let next = session.next_meta(SequenceKind::Control);
    assert_eq!(control.sequence, 1);
    assert_eq!(reliable.sequence, 1);
    assert_eq!(next.sequence, 2);
    assert_eq!(control.session_id, SessionId::new([9; 16]));
}

#[test]
fn a_close_counts_only_for_this_session() {
    let mut session = session();
    let own = session.handle_control(
        &ControlMessage::SessionClose {
            session_id: SessionId::new([9; 16]),
        },
        FocusState::Local,
        10,
    );
    assert!(matches!(own, Ok(ControlStep::Reduce { ends: true, .. })));
    let other = session.handle_control(
        &ControlMessage::SessionClose {
            session_id: SessionId::new([8; 16]),
        },
        FocusState::Local,
        10,
    );
    assert_eq!(other.err(), Some(SessionRuntimeError::ProtocolViolation));
    let ping = session.handle_control(&ControlMessage::Ping { nonce: 3 }, FocusState::Local, 10);
    assert!(matches!(
        ping,
        Ok(ControlStep::Reply {
            message: ControlMessage::Pong { nonce: 3 }
        })
    ));
}

#[test]
fn frames_are_dispatched_by_their_channel() {
    let frame = |channel| TransportEvent::ReliableData {
        channel,
        end_of_stream: false,
    };
    assert_eq!(
        handle_transport_event(&channels(), &frame(4), true).unwrap(),
        Dispatch::Clipboard
    );
    assert_eq!(
        handle_transport_event(&channels(), &frame(6), true).unwrap(),
        Dispatch::FileData
    );
    assert_eq!(
        handle_transport_event(&channels(), &TransportEvent::Datagram, true).unwrap(),
        Dispatch::Datagram
    );
    assert!(matches!(
        handle_transport_event(&channels(), &TransportEvent::ChannelClosed { channel: 1 }, true),
        Ok(Dispatch::Recover { .. }) | Ok(Dispatch::Violation) | Err(_)
    ));
}

#[test]
fn file_frames_go_to_their_own_channels() {
    assert_eq!(
        handle_transfer_worker_event(
            &channels(),
            TransferWorkerEvent::SendManifest { counts: false },
        ),
        Ok(FrameRoute {
            channel: 5,
            counts: false,
        })
    );
    assert_eq!(
        handle_transfer_worker_event(&channels(), TransferWorkerEvent::SendData),
        Ok(FrameRoute {
            channel: 6,
            counts: true,
        })
    );
    assert_eq!(
        handle_transfer_worker_event(
            &channels(),
            TransferWorkerEvent::Fatal(TransferRuntimeError::Transfer(TransferError::Platform)),
        ),
        Err(SessionRuntimeError::Platform)
    );
    assert_eq!(
        handle_transfer_worker_event(
            &channels(),
            TransferWorkerEvent::Fatal(TransferRuntimeError::Replay),
        ),
        Err(SessionRuntimeError::ProtocolViolation)
    );
    assert_eq!(
        session_error_of_clipboard(ClipboardRuntimeError::GrantDenied),
        SessionRuntimeError::ProtocolViolation
    );
    assert_eq!(
        session_error_of_clipboard(ClipboardRuntimeError::Platform),
        SessionRuntimeError::Platform
    );
}

#[test]
fn failed_input_recovers_unless_displays_changed() {
    assert!(matches!(
        input_failed(SessionRuntimeError::TopologyRefreshRequired),
        InputFailure::Refresh
    ));
    assert!(matches!(
        input_failed(SessionRuntimeError::Platform),
        InputFailure::Recover {
            error: SessionRuntimeError::Platform
        }
    ));
    assert_eq!(
        after_recovery(SessionRuntimeError::Platform, true),
        SessionRuntimeError::Platform
    );
    assert_eq!(
        after_recovery(SessionRuntimeError::Platform, false),
        SessionRuntimeError::SafetyRecoveryFailed
    );
}

#[test]
fn focus_requests_keep_to_the_lease_bounds() {
    let CoreEvent::LocalFocusRequested { expires_at, .. } = request_focus(10, 4, false, 100) else {
        panic!("a request for focus")
    };
    assert_eq!(expires_at, 1_100);
    let CoreEvent::LocalFocusRequested { expires_at, .. } = request_focus(90_000, 4, true, 100)
    else {
        panic!("a request for focus")
    };
    assert_eq!(expires_at, 30_100);
}

#[test]
fn grant_updates_are_one_capability_and_one_epoch() {
    let mut session = session();
    let without_input = Capability {
        remote_input: false,
        ..all_grants()
    };
    let (_, event) = session
        .begin_local_grant_update(without_input, 4, Capability::remote_input_only(), false)
        .unwrap();
    assert_eq!(
        event,
        CoreEvent::LocalGrantUpdated {
            local_grant_epoch: 4,
            local_grant_allows_peer_input: false,
        }
    );
    session
        .commit_local_grant_update(&Vec::new(), without_input, 4)
        .unwrap();
    assert_eq!(session.local_grant_epoch(), 4);
    assert!(session
        .begin_local_grant_update(without_input, 6, Capability::remote_input_only(), false)
        .is_err());
    assert!(session
        .begin_peer_grant_update(DeviceId::new([7; 32]), Capability::remote_input_only(), 8, false)
        .is_err());
}

#[test]
fn safety_signals_become_commands_that_end_the_session() {
    assert_eq!(
        platform_safety_command(PlatformSafetyEvent::CaptureFailed),
        LocalSessionCommand::EmergencyStop
    );
    assert_eq!(
        core_event_for_platform_safety(PlatformSafetyEvent::LocalLocked),
        CoreEvent::LocalLocked
    );
    let command = LocalSessionCommand::LocalSleeping;
    let step = handle_local_command(&command, FocusState::Local);
    assert!(matches!(
        step,
        CommandStep::Recover {
            event: CoreEvent::LocalSleeping
        }
    ));
    let CommandStep::Finish(end) = continue_local_command(&command, &step, Ok(()), LinkState::Up)
    else {
        panic!("the command ends")
    };
    assert_eq!(end.acknowledgement, Some(Ok(())));
    assert_eq!(end.result, Ok(true));
}

#[test]
fn the_loop_puts_safety_first() {
    assert!(matches!(
        loop_turn(Some(PlatformSafetyEvent::LocalLocked), true),
        LoopTurn::Safety {
            command: LocalSessionCommand::LocalLocked
        }
    ));
    assert!(matches!(loop_turn(None, true), LoopTurn::Late));
    assert!(matches!(loop_turn(None, false), LoopTurn::Wait));
    assert!(matches!(
        loop_action(&LoopEvent::Disconnect { requested: true }),
        LoopAction::RecoverAndEnd
    ));
    assert!(matches!(
        loop_next(true, Err(SessionRuntimeError::Transport)),
        LoopNext::RecoverLink { .. }
    ));
    assert!(matches!(
        loop_next(false, Ok(false)),
        LoopNext::Again
    ));
    assert!(matches!(
        refresh_ended(RefreshOutcome::TimedOut),
        RefreshVerdict::Recover { .. } | RefreshVerdict::Done(Err(_))
    ));
}

#[test]
fn a_refresh_publishes_that_it_synchronizes_and_stops_routing_first() {
    let mut session = session();
    let core = reducer(FocusState::Local);
    let mut run = RefreshRun::observe(false);
    let first = run.advance(&mut session, &core, 10, ActionOutcome::Done);
    assert!(matches!(
        first,
        RefreshStep::PublishReadiness {
            readiness: SessionTopologyReadiness::Synchronizing,
        }
    ));
    let second = run.advance(&mut session, &core, 10, ActionOutcome::Done);
    assert!(matches!(second, RefreshStep::StopRouting));
}

#[test]
fn a_failed_capture_is_recovered_from() {
    let mut session = session();
    let core = reducer(FocusState::Local);
    let mut run = SessionRun::new();
    assert!(matches!(
        run.advance(&mut session, &core, Ok(())),
        SessionStep::StartCapture
    ));
    assert!(matches!(
        run.advance(&mut session, &core, Err(SessionRuntimeError::Platform)),
        SessionStep::Recover { .. }
    ));
    assert!(matches!(
        run.advance(&mut session, &core, Ok(())),
        SessionStep::Finished(Err(SessionRuntimeError::Platform))
    ));
}

#[test]
fn a_failed_recovery_latches_the_failure() {
    let mut session = session();
    let mut status = connected_status();
    let before = connected_status();
    let recovered = session.finish_recovery(
        &mut status,
        FocusState::Local,
        Err(SessionRuntimeError::Platform),
    );
    assert_eq!(recovered, Err(SessionRuntimeError::SafetyRecoveryFailed));
    assert!(session.safety().failure_latched());
    assert_eq!(status.phase, AgentPhase::Stopping);
    assert_eq!(status.input_owner, InputOwner::Local);
    assert_eq!(status.focus_state, AgentFocusState::Local);
    assert_eq!(status.connected_peer, before.connected_peer);
    assert_eq!(
        status.readiness.accessibility,
        before.readiness.accessibility
    );
    assert_eq!(status.readiness.input, before.readiness.input);
    assert_eq!(
        status.readiness.local_topology,
        before.readiness.local_topology
    );
}

#[test]
fn only_the_authorized_topology_is_staged() {
    let mut session = session();
    let meta = EventMeta {
        session_id: SessionId::new([9; 16]),
        origin: DeviceId::new([2; 32]),
        sequence: 1,
        grant_epoch: 7,
        capability: Capability::empty(),
    };
    let step = session
        .handle_control(
            &ControlMessage::DisplayTopology { meta, revision: 4 },
            FocusState::Local,
            10,
        )
        .unwrap();
    assert!(matches!(
        step,
        ControlStep::TopologyReceived { revision: 4, .. }
    ));
    session.topology_received(
        &vec![Effect::AcceptRemoteTopology { revision: 4 }],
        DisplayTopology {
            revision: 4,
            displays: Vec::new(),
        },
    );
    assert!(session.commit_remote(4).is_some());
    assert_eq!(
        session.topology().remote().map(|remote| remote.revision),
        Some(4)
    );
}
