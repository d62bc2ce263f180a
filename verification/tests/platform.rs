use std::sync::mpsc::sync_channel;

use nodavo_agent::displays::{DisplayGeometry, DisplayRotation, NativeDisplaySnapshot};
use nodavo_agent::input::{InputEvent, KeyState, NormalizedPosition};
use nodavo_agent::native_bridge::PlatformSafetyEvent;
use nodavo_agent::platform_port::{
    absolute_pointer_transition_is_retryable, acknowledge_inject_result, acknowledgement_sent,
    ensure_healthy, finish_worker_before_deadline, injector_worker_start_allowed,
    mac_display_snapshot_error, receive_worker_stop_before_deadline, restore_local_ownership,
    safety_event_for_lifecycle, submit_worker_command_before_deadline, worker_replied,
    worker_started, CommandRun, CommandStep, DisplayFault, FinishStep, InjectorCommand,
    InjectorPoison, InputLifecycleEvent, PlatformPortError, StartReply, StartStep, StopReply, SubmitAttempt,
    SubmitStep, WorkerSight,
};
use nodavo_agent::platform_readiness::{
    mac_local_readiness, probe_or_unavailable, windows_local_readiness, AccessibilityReadiness,
    InputReadiness, LocalTopologyReadiness, SessionTopologyReadiness,
};
use nodavo_agent::virtual_platform::VirtualPlatformPort;

fn display(native_id: u64, pixel_width: u32) -> NativeDisplaySnapshot {
    NativeDisplaySnapshot {
        native_id,
        geometry: DisplayGeometry {
            origin_x_milli: 0,
            origin_y_milli: 0,
            pixel_width,
            pixel_height: 1_080,
            scale_x_milli: 1_000,
            scale_y_milli: 1_000,
            rotation: DisplayRotation::Degrees0,
            logical_width_milli: u64::from(pixel_width) * 1_000,
            logical_height_milli: 1_080_000,
        },
        admitted: true,
    }
}

fn pointer() -> InputEvent {
    InputEvent::PointerMotion {
        position: NormalizedPosition {
            display: 1,
            x: 0,
            y: u16::MAX,
        },
    }
}

fn key() -> InputEvent {
    InputEvent::Key {
        usage_page: 7,
        usage_id: 4,
        state: KeyState::Pressed,
        modifiers: 0,
    }
}

#[test]
fn virtual_display_change_signal_is_bounded_and_latest_snapshot_wins() {
    let mut platform = VirtualPlatformPort::new(vec![display(101, 1_920)]);
    platform.signal_display_change(vec![display(1, 1_280)]);
    platform.signal_display_change(vec![display(2, 1_920)]);

    assert!(platform.display_change_pending());
    assert!(platform.display_change_pending());
    assert_eq!(platform.display_snapshot(), Ok(vec![display(2, 1_920)]));
    assert!(!platform.display_change_pending());

    platform.signal_unstable_display_change();
    assert!(platform.display_change_pending());
    assert!(platform.display_change_pending());
    assert_eq!(
        platform.display_snapshot(),
        Err(PlatformPortError::DisplaySnapshotPending)
    );
    platform.signal_display_change(vec![display(3, 2_560)]);
    assert!(platform.display_change_pending());
    assert_eq!(platform.display_snapshot(), Ok(vec![display(3, 2_560)]));
    assert!(!platform.display_change_pending());
}

#[test]
fn a_virtual_platform_remembers_what_was_done() {
    let mut platform = VirtualPlatformPort::new(vec![display(101, 1_920)]);
    platform.set_routing_to_peer(true);
    assert!(platform.routing_to_peer);
    platform.fail_next_pointer_injection = true;
    assert_eq!(
        platform.inject(pointer()),
        Err(PlatformPortError::DisplaySnapshotPending)
    );
    assert_eq!(platform.inject(pointer()), Ok(()));
    assert_eq!(platform.injection_attempts, 2);
    assert_eq!(platform.injected, vec![pointer()]);
    assert_eq!(platform.restore_local_ownership(), Ok(()));
    assert_eq!(platform.restore_count, 1);
    platform.fail_restore_local_ownership = true;
    assert_eq!(
        platform.restore_local_ownership(),
        Err(PlatformPortError::Native)
    );
}

#[test]
fn native_adapter_is_inert_until_start_and_maps_terminal_lifecycle() {
    assert_eq!(
        ensure_healthy(false, false, false, true),
        Err(PlatformPortError::Native)
    );
    assert_eq!(ensure_healthy(true, true, true, true), Ok(()));
    assert_eq!(
        safety_event_for_lifecycle(InputLifecycleEvent::SystemWillSleep),
        Some(PlatformSafetyEvent::LocalSleeping)
    );
    assert_eq!(
        safety_event_for_lifecycle(InputLifecycleEvent::SessionDidResignActive),
        Some(PlatformSafetyEvent::LocalLocked)
    );
    assert_eq!(
        safety_event_for_lifecycle(InputLifecycleEvent::TapDisabledByTimeout),
        Some(PlatformSafetyEvent::CaptureFailed)
    );
    assert_eq!(
        safety_event_for_lifecycle(InputLifecycleEvent::SystemDidWake),
        None
    );
    assert_eq!(
        mac_display_snapshot_error(DisplayFault::ConfigurationChanged),
        PlatformPortError::DisplaySnapshotPending
    );
    assert_eq!(
        mac_display_snapshot_error(DisplayFault::TopologyUnstable),
        PlatformPortError::DisplaySnapshotPending
    );
    assert_eq!(
        mac_display_snapshot_error(DisplayFault::Other),
        PlatformPortError::Native
    );
}

#[test]
fn bounded_worker_finish_joins_clean_exit_without_poison() {
    let mut poison = InjectorPoison::new();
    assert!(matches!(
        finish_worker_before_deadline(
            WorkerSight::Running {
                past_deadline: false
            },
            &mut poison,
        ),
        FinishStep::Wait
    ));
    assert!(matches!(
        finish_worker_before_deadline(WorkerSight::Finished { panicked: false }, &mut poison),
        FinishStep::Gone { clean: true }
    ));
    assert!(injector_worker_start_allowed(&poison));
}

#[test]
fn bounded_worker_finish_poisons_before_detaching_a_stuck_worker() {
    let mut poison = InjectorPoison::new();
    assert!(matches!(
        finish_worker_before_deadline(
            WorkerSight::Running {
                past_deadline: true
            },
            &mut poison,
        ),
        FinishStep::Gone { clean: false }
    ));
    assert!(!injector_worker_start_allowed(&poison));
}

#[test]
fn stuck_inject_poisons_and_makes_recovery_submission_nonblocking() {
    let mut poison = InjectorPoison::new();
    assert!(matches!(
        submit_worker_command_before_deadline(None, &mut poison),
        SubmitStep::Retry
    ));
    assert!(matches!(
        submit_worker_command_before_deadline(Some(SubmitAttempt::Sent), &mut poison),
        SubmitStep::AwaitReply
    ));
    let reply: Option<()> = None;
    assert!(worker_replied(reply, &mut poison).is_err());
    assert!(!injector_worker_start_allowed(&poison));
    assert!(matches!(
        submit_worker_command_before_deadline(None, &mut poison),
        SubmitStep::Failed
    ));
}

#[test]
fn disconnected_worker_command_poisons_before_returning() {
    let mut poison = InjectorPoison::new();
    assert!(matches!(
        submit_worker_command_before_deadline(Some(SubmitAttempt::Disconnected), &mut poison),
        SubmitStep::Failed
    ));
    assert!(!injector_worker_start_allowed(&poison));
}

#[test]
fn missing_or_failed_stop_ack_and_worker_panic_poison_replacement() {
    let mut failed_poison = InjectorPoison::new();
    assert!(!receive_worker_stop_before_deadline(
        &StopReply::Replied(Err::<(), ()>(())),
        &mut failed_poison,
    ));
    assert!(!injector_worker_start_allowed(&failed_poison));

    let mut missing_poison = InjectorPoison::new();
    let missing: StopReply<()> = StopReply::NoReply;
    assert!(!receive_worker_stop_before_deadline(
        &missing,
        &mut missing_poison,
    ));
    assert!(!injector_worker_start_allowed(&missing_poison));

    let mut panic_poison = InjectorPoison::new();
    assert!(matches!(
        finish_worker_before_deadline(WorkerSight::Finished { panicked: true }, &mut panic_poison),
        FinishStep::Gone { clean: false }
    ));
    assert!(!injector_worker_start_allowed(&panic_poison));
}

#[test]
fn fatal_inject_ack_is_poisoned_before_observation_but_pointer_transition_retries() {
    #[derive(Debug, PartialEq, Eq)]
    enum FakeInjectError {
        Fatal,
        TopologyTransition,
    }

    let mut fatal_poison = InjectorPoison::new();
    let (fatal_acknowledgement, fatal_received) = sync_channel(1);
    let fatal = acknowledge_inject_result(Err(FakeInjectError::Fatal), &mut fatal_poison, false);
    assert!(fatal_received.try_recv().is_err());
    assert!(!injector_worker_start_allowed(&fatal_poison));
    let delivered = fatal_acknowledgement.send(fatal).is_ok();
    acknowledgement_sent(delivered, &mut fatal_poison);
    assert_eq!(fatal_received.recv(), Ok(Err(FakeInjectError::Fatal)));
    assert!(!injector_worker_start_allowed(&fatal_poison));

    let mut transition_poison = InjectorPoison::new();
    let (transition_acknowledgement, transition_received) = sync_channel(1);
    let transition = acknowledge_inject_result(
        Err(FakeInjectError::TopologyTransition),
        &mut transition_poison,
        absolute_pointer_transition_is_retryable(pointer(), true),
    );
    let delivered = transition_acknowledgement.send(transition).is_ok();
    acknowledgement_sent(delivered, &mut transition_poison);
    assert_eq!(
        transition_received.recv(),
        Ok(Err(FakeInjectError::TopologyTransition))
    );
    assert!(injector_worker_start_allowed(&transition_poison));

    assert!(!absolute_pointer_transition_is_retryable(key(), true));
}

#[test]
fn a_worker_that_does_not_start_is_not_replaced() {
    let mut poison = InjectorPoison::new();
    assert!(matches!(
        worker_started(StartReply::NotReady, &mut poison),
        StartStep::Finish
    ));
    assert!(matches!(
        worker_started(StartReply::TimedOut, &mut poison),
        StartStep::Detach
    ));
    assert!(!injector_worker_start_allowed(&poison));
}

#[test]
fn results_are_recorded_before_anybody_is_told() {
    let inject = |event, topology_transition| InjectorCommand::Inject {
        event,
        topology_transition,
    };
    for (command, failed, fenced_first, goes_on, fenced) in [
        (inject(key(), false), false, false, true, false),
        (inject(key(), true), true, true, true, true),
        (inject(pointer(), false), true, true, true, true),
        (inject(pointer(), true), true, false, true, false),
        (InjectorCommand::Release, false, false, true, false),
        (InjectorCommand::Release, true, true, true, true),
        (InjectorCommand::Stop, false, false, false, false),
        (InjectorCommand::Stop, true, false, false, true),
    ] {
        for delivered in [true, false] {
            let mut poison = InjectorPoison::new();
            let (run, step) = CommandRun::begin(command, failed, &mut poison);
            assert_eq!(step, CommandStep::Acknowledge { failed });
            assert_eq!(!injector_worker_start_allowed(&poison), fenced_first);
            assert_eq!(run.acknowledged(delivered, &mut poison), goes_on);
            assert_eq!(
                !injector_worker_start_allowed(&poison),
                fenced || !delivered
            );
        }
    }
    let mut poison = InjectorPoison::new();
    let (_, step) = CommandRun::begin(InjectorCommand::Disconnected, false, &mut poison);
    assert_eq!(step, CommandStep::End);
    assert!(injector_worker_start_allowed(&poison));
    CommandRun::begin(InjectorCommand::Disconnected, true, &mut poison);
    assert!(!injector_worker_start_allowed(&poison));
}

#[test]
fn ownership_is_restored_only_when_everything_was() {
    assert_eq!(restore_local_ownership(true, None), Ok(()));
    assert_eq!(
        restore_local_ownership(true, Some(false)),
        Err(PlatformPortError::Native)
    );
    assert_eq!(
        restore_local_ownership(false, Some(true)),
        Err(PlatformPortError::Native)
    );
}

#[test]
fn permission_loss_always_blocks_macos_input() {
    let readiness =
        mac_local_readiness(false, true, true).snapshot(SessionTopologyReadiness::NotConnected);
    assert_eq!(
        readiness.accessibility,
        AccessibilityReadiness::ActionRequired
    );
    assert_eq!(readiness.input, InputReadiness::BlockedByPermission);
    assert_eq!(readiness.local_topology, LocalTopologyReadiness::Available);
}

#[test]
fn windows_desktop_block_is_public_and_fail_closed() {
    let readiness = windows_local_readiness(InputReadiness::BlockedByDesktop, false)
        .snapshot(SessionTopologyReadiness::Synchronizing);
    assert_eq!(readiness.input, InputReadiness::BlockedByDesktop);
    assert_eq!(
        readiness.local_topology,
        LocalTopologyReadiness::Unavailable
    );
    assert_eq!(
        readiness.session_topology,
        SessionTopologyReadiness::Synchronizing
    );
}

#[test]
fn a_probe_that_did_not_complete_finds_nothing() {
    let readiness = probe_or_unavailable(None);
    assert_eq!(readiness.accessibility, AccessibilityReadiness::Unavailable);
    assert_eq!(readiness.input, InputReadiness::Unavailable);
    assert_eq!(
        readiness.local_topology,
        LocalTopologyReadiness::Unavailable
    );
}
