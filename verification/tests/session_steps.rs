use nodavo_agent::agent_status::{AgentPhase, StatusBoard};
use nodavo_agent::agent_core::AgentCore;
use nodavo_agent::displays::{
    DisplayGeometry, DisplayRotation, DisplayTopology, NativeDisplaySnapshot,
};
use nodavo_agent::grants::{Capability, EventMeta};
use nodavo_agent::identifiers::{DeviceId, SessionId};
use nodavo_agent::input::{
    InputEvent, InputMessage, InputPayload, KeyState, NormalizedPosition, WireState,
};
use nodavo_agent::native_bridge::PlatformSafetyEvent;
use nodavo_agent::platform_readiness::{
    AccessibilityReadiness, LocalPlatformReadiness, SessionTopologyReadiness,
};
use nodavo_agent::routes::PeerPlacement;
use nodavo_agent::session_commands::{TimerRun, TimerStep};
use nodavo_agent::session_control::{
    control_preflight, dispatch_preflight, handle_input, ControlStep, Dispatch, LocalInputStep,
};
use nodavo_agent::session_core::{
    effects_disconnect, CoreEvent, DisconnectReason, Effect, FocusState, LinkState,
};
use nodavo_agent::session_effects::ActionOutcome;
use nodavo_agent::session_link::receive_control_frame;
use nodavo_agent::session_loop::{
    establishment_accepted, init_interrupted, session_established, transfer_config, InitRun,
    InitSignal, InitStep, InitVerdict,
};
use nodavo_agent::session_model::{CoreView, PeerGrantState, PeerSession, SessionConfig};
use nodavo_agent::session_refresh::{RefreshRun, RefreshStep};
use nodavo_agent::session_safety::{SessionRuntimeError, SessionSafetyState};
use nodavo_agent::session_wire::{
    Channels, ControlMessage, DatagramAvailability, SessionRole, TransportEvent,
};
use nodavo_agent::topology_runtime::{EdgeSettings, PeerTopologyState};
use nodavo_agent::transfer_runtime::TransferError;
use nodavo_agent::transfer_worker::TransferStopMode;

fn all_grants() -> Capability {
    Capability {
        remote_input: true,
        clipboard_read: true,
        clipboard_write: true,
        file_transfer: true,
    }
}

fn config() -> SessionConfig {
    SessionConfig {
        role: SessionRole::Opener,
        local_device: DeviceId::new([1; 32]),
        peer_device: DeviceId::new([2; 32]),
        local_grants_to_peer: all_grants(),
        local_grant_epoch: 3,
        peer_grants_to_local: Some(all_grants()),
        peer_grant_epoch: Some(7),
        peer_placement: PeerPlacement::Right,
        existing_control: None,
    }
}

fn granted() -> PeerGrantState {
    PeerGrantState {
        capabilities: all_grants(),
        epoch: 7,
    }
}

fn session_id() -> SessionId {
    SessionId::new([9; 16])
}

fn session() -> PeerSession {
    PeerSession::new(
        config(),
        Channels {
            control: 1,
            reliable_input: 2,
            pointer_fallback: Some(3),
            clipboard: 4,
            file_manifest: 5,
            file_data: 6,
            datagrams: DatagramAvailability::Unavailable,
        },
        session_id(),
        granted(),
        PeerTopologyState::from_environment(
            PeerPlacement::Right,
            true,
            16,
            EdgeSettings {
                activation_band_milli: 8_000,
                hysteresis_milli: 12_000,
                entry_inset_milli: 4_000,
                debounce_ms: 80,
                cooldown_ms: 300,
            },
            true,
        )
        .unwrap(),
        SessionSafetyState::new(),
    )
}

fn reducer(focus: FocusState) -> CoreView {
    CoreView {
        focus,
        link: LinkState::Up,
        local_pointer_routing_ready: false,
        outbound_pointer_enter_required: false,
        local_grant_allows_peer_input: true,
        peer_grant_allows_local_input: true,
        local_topology_refresh_pending: false,
        remote_topology_known: true,
        local_topology_acknowledged: true,
    }
}

fn geometry(pixel_width: u32) -> DisplayGeometry {
    DisplayGeometry {
        origin_x_milli: 0,
        origin_y_milli: 0,
        pixel_width,
        pixel_height: 1_080,
        scale_x_milli: 1_000,
        scale_y_milli: 1_000,
        rotation: DisplayRotation::Degrees0,
        logical_width_milli: u64::from(pixel_width) * 1_000,
        logical_height_milli: 1_080_000,
    }
}

fn snapshot(pixel_width: u32) -> Vec<NativeDisplaySnapshot> {
    vec![NativeDisplaySnapshot {
        native_id: 11,
        geometry: geometry(pixel_width),
        admitted: true,
    }]
}

fn meta() -> EventMeta {
    EventMeta {
        session_id: session_id(),
        origin: DeviceId::new([2; 32]),
        sequence: 1,
        grant_epoch: 3,
        capability: Capability::remote_input_only(),
    }
}

#[test]
fn a_negotiated_session_tells_the_reducer_its_terms() {
    assert_eq!(
        session_established(&config(), session_id(), &granted()),
        CoreEvent::SessionEstablished {
            session_id: session_id(),
            peer_id: DeviceId::new([2; 32]),
            local_grant_epoch: 3,
            peer_grant_epoch: 7,
            local_grant_allows_peer_input: true,
            peer_grant_allows_local_input: true,
        }
    );
    assert_eq!(establishment_accepted(&Vec::new()), Ok(()));
    assert_eq!(
        establishment_accepted(&vec![Effect::Rejected]),
        Err(SessionRuntimeError::ProtocolViolation)
    );
    let transfers = transfer_config(&config(), session_id(), &granted());
    assert_eq!(transfers.local_grant_epoch, 3);
    assert_eq!(transfers.peer_grant_epoch, 7);
    assert!(transfers.local_allows_peer_transfer);
}

#[test]
fn handshake_frames_come_over_the_control_channel() {
    let hello = ControlMessage::Ping { nonce: 4 };
    let data = |channel, end_of_stream| TransportEvent::ReliableData {
        channel,
        end_of_stream,
    };
    assert_eq!(
        receive_control_frame(1, data(1, false), Some(hello)),
        Ok(hello)
    );
    for (event, message) in [
        (data(2, false), Some(hello)),
        (data(1, true), Some(hello)),
        (data(1, false), None),
        (TransportEvent::Datagram, Some(hello)),
    ] {
        assert_eq!(
            receive_control_frame(1, event, message),
            Err(SessionRuntimeError::ProtocolViolation)
        );
    }
}

#[test]
fn urgent_messages_do_not_wait_for_a_refresh() {
    assert!(!control_preflight(&ControlMessage::EmergencyDisconnect {
        session_id: session_id()
    }));
    assert!(control_preflight(&ControlMessage::Ping { nonce: 1 }));
    assert!(!dispatch_preflight(&Dispatch::Control));
    assert!(!dispatch_preflight(&Dispatch::Recover {
        event: CoreEvent::LinkDisconnected
    }));
    assert!(dispatch_preflight(&Dispatch::Clipboard));
    let mut session = session();
    assert!(!session.preflight_needed(true));
    session.set_initialized();
    assert!(session.preflight_needed(true));
    assert!(!session.preflight_needed(false));
    session.begin_snapshot(5);
    assert!(session.preflight_needed(false));
    assert!(effects_disconnect(&vec![
        Effect::CancelFocusLease,
        Effect::Disconnect {
            reason: DisconnectReason::LinkLost
        },
    ]));
    assert!(!effects_disconnect(&vec![Effect::CancelFocusLease]));
}

#[test]
fn peer_input_is_read_with_its_lease() {
    let message = InputMessage {
        meta: meta(),
        lease_id: 8,
        payload: InputPayload::Key {
            usage_page: 7,
            usage_id: 4,
            state: WireState::Down,
            modifiers: 0,
        },
    };
    assert_eq!(
        handle_input(Some(message), true, 50),
        Ok(CoreEvent::RemoteInput {
            meta: meta(),
            lease_id: 8,
            received_at: 50,
            input: InputEvent::Key {
                usage_page: 7,
                usage_id: 4,
                state: KeyState::Pressed,
                modifiers: 0,
            },
        })
    );
    let release = InputMessage {
        payload: InputPayload::ReleaseAll,
        ..message
    };
    assert_eq!(
        handle_input(Some(release), false, 50),
        Ok(CoreEvent::RemoteReleaseAll {
            meta: meta(),
            lease_id: 8,
            received_at: 50,
        })
    );
    assert_eq!(
        handle_input(None, true, 50),
        Err(SessionRuntimeError::ProtocolViolation)
    );
}

#[test]
fn local_input_is_dropped_while_displays_change() {
    let session = session();
    let key = InputEvent::Key {
        usage_page: 7,
        usage_id: 4,
        state: KeyState::Pressed,
        modifiers: 0,
    };
    assert_eq!(
        session.handle_local_input(key, &reducer(FocusState::Local), 5),
        Ok(LocalInputStep::Reduce {
            event: CoreEvent::LocalInput { input: key }
        })
    );
    let mut changing = reducer(FocusState::Local);
    changing.local_topology_refresh_pending = true;
    assert_eq!(
        session.handle_local_input(key, &changing, 5),
        Ok(LocalInputStep::Stay)
    );
    assert_eq!(session.may_send_files(false), Ok(()));
    assert_eq!(session.may_send_files(true), Err(TransferError::Cancelled));
}

#[test]
fn a_granted_focus_lets_the_pointer_in_only_where_it_was_kept() {
    let mut session = session();
    let controlling = FocusState::ControllingRemote {
        lease_id: 4,
        expires_at: 100,
    };
    assert_eq!(session.focus_granted(&Vec::new(), controlling), Ok(None));
    assert_eq!(
        session.focus_granted(&vec![Effect::Rejected], controlling),
        Ok(None)
    );
    let grant = ControlMessage::FocusLeaseGrant {
        meta: meta(),
        lease_id: 4,
        ttl_ms: 30,
        pointer_enter_required: false,
    };
    assert_eq!(
        session.handle_control(
            &grant,
            FocusState::RequestingRemote {
                lease_id: 4,
                expires_at: 100
            },
            10
        ),
        Ok(ControlStep::FocusGranted {
            event: CoreEvent::RemoteFocusGranted {
                meta: meta(),
                lease_id: 4,
                expires_at: 40,
                pointer_enter_required: false,
            }
        })
    );
}

#[test]
fn a_changed_peer_grant_starts_the_lanes_anew() {
    let mut session = session();
    let local = DeviceId::new([1; 32]);
    let (mode, event, left) = session
        .begin_peer_grant_update(local, Capability::file_transfer_only(), 8, false)
        .unwrap();
    assert_eq!(mode, TransferStopMode::AbortOutbound);
    assert_eq!(
        event,
        CoreEvent::PeerGrantUpdated {
            peer_grant_epoch: 8,
            peer_grant_allows_local_input: true,
        }
    );
    assert_eq!(
        session.commit_peer_grant_update(&vec![Effect::Rejected], left, 8),
        Err(SessionRuntimeError::ProtocolViolation)
    );
    assert_eq!(session.peer_grant_epoch(), 7);
    assert_eq!(session.commit_peer_grant_update(&Vec::new(), left, 8), Ok(()));
    assert_eq!(session.peer_grant_epoch(), 8);
    assert!(!session.peer_capabilities().file_transfer);
    assert_eq!(
        session.may_send_files(false),
        Err(TransferError::Cancelled)
    );
    assert_eq!(
        session
            .begin_peer_grant_update(local, Capability::file_transfer_only(), 10, true)
            .err(),
        Some(SessionRuntimeError::ProtocolViolation)
    );
}

#[test]
fn a_placement_is_kept_only_with_its_routes() {
    let mut session = session();
    let refused = session.set_placement(PeerPlacement::Left);
    assert_eq!(
        session.commit_placement(PeerPlacement::Left, refused, false),
        Err(SessionRuntimeError::Platform)
    );
    assert_eq!(session.config().peer_placement, PeerPlacement::Right);
    let accepted = session.set_placement(PeerPlacement::Left);
    assert_eq!(
        session.commit_placement(PeerPlacement::Left, accepted, true),
        Ok(())
    );
    assert_eq!(session.config().peer_placement, PeerPlacement::Left);
}

#[test]
fn displays_are_exchanged_before_the_session_goes_on() {
    let mut session = session();
    let mut view = reducer(FocusState::Local);
    view.remote_topology_known = false;
    view.local_topology_acknowledged = false;
    let done = ActionOutcome::Done;
    let mut run = InitRun::new();
    assert!(matches!(
        run.advance(&mut session, &view, done),
        InitStep::TakeSnapshot
    ));
    assert!(matches!(
        run.advance(&mut session, &view, ActionOutcome::SnapshotPending),
        InitStep::Wait
    ));
    assert!(matches!(
        run.advance(&mut session, &view, done),
        InitStep::TakeSnapshot
    ));
    assert!(matches!(
        run.snapshot(&mut session, &view, &snapshot(1_920), true),
        InitStep::Publish
    ));
    assert!(matches!(
        run.advance(&mut session, &view, done),
        InitStep::Reduce {
            event: CoreEvent::LocalTopologyRefreshStarted
        }
    ));
    assert!(matches!(
        run.advance(&mut session, &view, done),
        InitStep::AwaitPeer
    ));
    view.remote_topology_known = true;
    assert!(matches!(
        run.advance(&mut session, &view, done),
        InitStep::AwaitPeer
    ));
    view.local_topology_acknowledged = true;
    assert!(matches!(
        run.advance(&mut session, &view, done),
        InitStep::Reduce {
            event: CoreEvent::LocalTopologyRefreshUnchanged
        }
    ));
    assert!(matches!(
        run.advance(&mut session, &view, done),
        InitStep::Finished(Ok(()))
    ));
}

#[test]
fn displays_that_nobody_may_see_are_not_published() {
    let mut session = session();
    let mut view = reducer(FocusState::Local);
    view.local_grant_allows_peer_input = false;
    let done = ActionOutcome::Done;
    let mut run = InitRun::new();
    run.advance(&mut session, &view, done);
    assert!(matches!(
        run.snapshot(&mut session, &view, &snapshot(1_920), true),
        InitStep::Reduce { .. }
    ));
    assert!(matches!(
        run.advance(&mut session, &view, done),
        InitStep::ArmRoutes
    ));
    assert!(run.proposed_routes().is_some());
    assert!(matches!(
        run.advance(&mut session, &view, done),
        InitStep::Reduce { .. }
    ));
    assert!(matches!(
        run.advance(&mut session, &view, done),
        InitStep::Finished(Ok(()))
    ));
}

#[test]
fn what_interrupts_the_exchange_decides_how_it_fails() {
    assert!(matches!(
        init_interrupted(true, InitSignal::Disconnect { requested: true }),
        InitVerdict::Recover {
            event: CoreEvent::LocalEmergencyStop,
            error: SessionRuntimeError::Platform
        }
    ));
    assert!(matches!(
        init_interrupted(true, InitSignal::Disconnect { requested: false }),
        InitVerdict::Fail(SessionRuntimeError::Platform)
    ));
    assert!(matches!(
        init_interrupted(false, InitSignal::Safety(Some(PlatformSafetyEvent::LocalLocked))),
        InitVerdict::Recover {
            event: CoreEvent::LocalLocked,
            ..
        }
    ));
    assert!(matches!(
        init_interrupted(false, InitSignal::Safety(None)),
        InitVerdict::Again
    ));
    assert!(matches!(
        init_interrupted(false, InitSignal::TimedOut),
        InitVerdict::Fail(SessionRuntimeError::Platform)
    ));
    assert!(matches!(
        init_interrupted(true, InitSignal::TimedOut),
        InitVerdict::Fail(SessionRuntimeError::Transport)
    ));
    assert!(matches!(
        init_interrupted(true, InitSignal::PeerEnded),
        InitVerdict::Fail(SessionRuntimeError::Transport)
    ));
}

#[test]
fn a_tick_renews_a_lease_that_runs_out() {
    let mut session = session();
    let controlling = FocusState::ControllingRemote {
        lease_id: 4,
        expires_at: 2_000,
    };
    let mut run = TimerRun::new();
    let ok = Ok(false);
    assert!(matches!(
        run.advance(&mut session, controlling, 1_000, ok),
        TimerStep::Preflight
    ));
    assert!(matches!(
        run.advance(&mut session, controlling, 1_000, ok),
        TimerStep::CheckHealth
    ));
    assert!(matches!(
        run.advance(&mut session, controlling, 1_000, ok),
        TimerStep::PollClipboard
    ));
    assert!(matches!(
        run.advance(&mut session, controlling, 1_000, ok),
        TimerStep::PumpTransfer
    ));
    assert!(matches!(
        run.advance(&mut session, controlling, 1_000, ok),
        TimerStep::Reduce {
            event: CoreEvent::LocalLeaseRenewalRequested {
                lease_id: 4,
                expires_at: 6_000
            }
        }
    ));
    assert!(matches!(
        run.advance(&mut session, controlling, 1_040, ok),
        TimerStep::Reduce {
            event: CoreEvent::TimerElapsed { now: 1_000 }
        }
    ));
    assert!(session.is_renewal_pending());
    assert!(matches!(
        run.advance(&mut session, controlling, 1_000, Ok(true)),
        TimerStep::UpdateStatus
    ));
    assert!(matches!(
        run.advance(&mut session, controlling, 1_000, ok),
        TimerStep::Finished(Ok(true))
    ));
}

#[test]
fn a_late_refresh_or_an_unhealthy_platform_ends_the_session() {
    let mut late = session();
    late.begin_snapshot(10);
    let mut run = TimerRun::new();
    assert!(matches!(
        run.advance(&mut late, FocusState::Local, 5_010, Ok(false)),
        TimerStep::Recover {
            event: CoreEvent::LocalEmergencyStop
        }
    ));
    assert!(matches!(
        run.advance(&mut late, FocusState::Local, 5_010, Ok(false)),
        TimerStep::Finished(Ok(true))
    ));

    let mut unhealthy = session();
    let mut run = TimerRun::new();
    run.advance(&mut unhealthy, FocusState::Local, 10, Ok(false));
    run.advance(&mut unhealthy, FocusState::Local, 10, Ok(false));
    assert!(matches!(
        run.advance(
            &mut unhealthy,
            FocusState::Local,
            10,
            Err(SessionRuntimeError::Platform)
        ),
        TimerStep::Recover { .. }
    ));
    assert!(matches!(
        run.advance(&mut unhealthy, FocusState::Local, 10, Ok(false)),
        TimerStep::Finished(Err(SessionRuntimeError::Platform))
    ));
}

#[test]
fn changed_displays_go_to_the_peer_and_held_back_input_is_tried_again() {
    let mut session = session();
    session.set_initialized();
    let view = reducer(FocusState::Local);
    let done = ActionOutcome::Done;
    let motion = InputEvent::PointerMotion {
        position: NormalizedPosition {
            display: 1,
            x: 5,
            y: 6,
        },
    };
    assert!(session.queue_injection_retry(motion, vec![Effect::CancelFocusLease]));
    let mut run = RefreshRun::observe(false);
    let mut steps = 0;
    let mut step = run.advance(&mut session, &view, 10, done);
    while !matches!(step, RefreshStep::TakeSnapshot) {
        steps += 1;
        assert!(steps < 20);
        step = run.advance(&mut session, &view, 10, done);
    }
    let mut step = run.snapshot(&mut session, &view, 20, &snapshot(1_920), true);
    let mut sent = None;
    let mut injected = None;
    loop {
        steps += 1;
        assert!(steps < 40);
        match &step {
            RefreshStep::SendTopology { message } => {
                sent = Some(*message);
                let topology = run.published_topology().unwrap();
                assert_eq!(topology.displays[0].geometry.pixel_width, 1_920);
            }
            RefreshStep::Inject { input } => injected = Some(*input),
            RefreshStep::CarryOut => {
                assert_eq!(
                    run.take_remaining(),
                    Some(vec![Effect::CancelFocusLease])
                );
                assert_eq!(run.take_remaining(), None);
            }
            RefreshStep::Finished(result) => {
                assert_eq!(*result, Ok(()));
                break;
            }
            _ => {}
        }
        step = run.advance(&mut session, &view, 20, done);
    }
    assert!(matches!(
        sent,
        Some(ControlMessage::DisplayTopology { revision: 1, .. })
    ));
    assert!(matches!(
        injected,
        Some(InputEvent::PointerMotion {
            position: NormalizedPosition {
                display: 11,
                x: 5,
                y: 6
            }
        })
    ));

    let mut waiting = RefreshRun::drive();
    assert!(matches!(
        waiting.advance(&mut session, &view, 30, done),
        RefreshStep::Finished(Ok(()))
    ));
}

#[test]
fn a_topology_is_taken_over_only_when_accepted() {
    let mut session = session();
    let topology = DisplayTopology {
        revision: 2,
        displays: Vec::new(),
    };
    session.topology_received(&vec![Effect::CancelFocusLease], topology);
    assert!(session.commit_remote(2).is_none());
    let topology = DisplayTopology {
        revision: 2,
        displays: Vec::new(),
    };
    session.topology_received(&vec![Effect::AcceptRemoteTopology { revision: 2 }], topology);
    assert!(session.commit_remote(2).is_some());
}

#[test]
fn asking_for_permission_keeps_what_the_session_shows() {
    let mut board: StatusBoard = AgentCore::new().board;
    board.status.phase = AgentPhase::Connected;
    board.status.readiness.accessibility = AccessibilityReadiness::Granted;
    board.status.readiness.session_topology = SessionTopologyReadiness::Ready;
    board.permission_requested(LocalPlatformReadiness::unavailable(), 70);
    assert_eq!(
        board.status.readiness.accessibility,
        AccessibilityReadiness::Unavailable
    );
    assert_eq!(
        board.status.readiness.session_topology,
        SessionTopologyReadiness::Ready
    );
    assert_eq!(board.probed_at, Some(70));
    assert_eq!(board.status.phase, AgentPhase::Connected);
}
