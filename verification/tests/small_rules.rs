use nodavo_agent::grants::{is_next_epoch, is_single_capability, next_sequence, Capability};
use nodavo_agent::id_set::IdSet;
use nodavo_agent::identifiers::TransferId;
use nodavo_agent::input::{
    is_replaceable, ButtonState, InputEvent, KeyState, NormalizedPosition, PointerDelta, ScrollUnit,
};
use nodavo_agent::native_bridge::PlatformSafetyEvent;
use nodavo_agent::platform_port::{
    acknowledgement_sent, injector_worker_start_allowed, release_injected, InjectorPoison,
    PlatformPortError,
};
use nodavo_agent::routes::PeerPlacement;
use nodavo_agent::safety_stop::{stop_command, SessionStop};
use nodavo_agent::session_commands::{
    command_preflight, platform_safety_command, LocalSessionCommand,
};
use nodavo_agent::session_control::session_error_of_transfer;
use nodavo_agent::session_core::{effects_rejected, Effect};
use nodavo_agent::session_link::announces_current_only;
use nodavo_agent::session_safety::SessionRuntimeError;
use nodavo_agent::topology_runtime::{EdgeSettings, ManualFocus, PeerTopologyState};
use nodavo_agent::transfer_runtime::{TransferError, TransferRuntimeError};
use nodavo_agent::transfer_status::public_text;

#[test]
fn grants_change_one_at_a_time() {
    assert!(is_single_capability(Capability::file_transfer_only()));
    assert!(!is_single_capability(Capability::empty()));
    let mut two = Capability::remote_input_only();
    two.set(Capability::clipboard_read_only(), true);
    assert!(two.remote_input && two.clipboard_read);
    assert!(!is_single_capability(two));
    two.set(Capability::remote_input_only(), false);
    assert_eq!(two, Capability::clipboard_read_only());
    assert!(is_next_epoch(4, 5));
    assert!(!is_next_epoch(4, 4));
    assert!(!is_next_epoch(4, 6));
    assert!(!is_next_epoch(u64::MAX, 0));
}

#[test]
fn sequences_skip_zero_when_they_wrap() {
    let mut sequence = 0;
    assert_eq!(next_sequence(&mut sequence), 1);
    assert_eq!(next_sequence(&mut sequence), 2);
    sequence = u64::MAX;
    assert_eq!(next_sequence(&mut sequence), 1);
    assert_eq!(sequence, 1);
}

#[test]
fn keys_and_buttons_are_not_replaceable() {
    assert!(is_replaceable(InputEvent::PointerMotion {
        position: NormalizedPosition {
            display: 1,
            x: 2,
            y: 3,
        },
    }));
    assert!(is_replaceable(InputEvent::PointerDelta {
        delta: PointerDelta {
            horizontal: 1,
            vertical: -1,
        },
    }));
    assert!(is_replaceable(InputEvent::Scroll {
        horizontal: 0,
        vertical: 1,
        unit: ScrollUnit::Lines,
    }));
    assert!(!is_replaceable(InputEvent::Key {
        usage_page: 7,
        usage_id: 4,
        state: KeyState::Released,
        modifiers: 0,
    }));
    assert!(!is_replaceable(InputEvent::PointerButton {
        button: 1,
        state: ButtonState::Pressed,
    }));
}

#[test]
fn safety_commands_do_not_wait() {
    for (reason, command) in [
        (SessionStop::Emergency, LocalSessionCommand::EmergencyStop),
        (SessionStop::Locked, LocalSessionCommand::LocalLocked),
        (SessionStop::Sleeping, LocalSessionCommand::LocalSleeping),
    ] {
        assert_eq!(stop_command(reason), command);
        assert!(!command_preflight(&command));
    }
    assert_eq!(
        platform_safety_command(PlatformSafetyEvent::CaptureFailed),
        LocalSessionCommand::EmergencyStop
    );
    assert!(!command_preflight(&LocalSessionCommand::UpdatePeerPlacement {
        placement: PeerPlacement::Left,
    }));
    assert!(command_preflight(&LocalSessionCommand::ReleaseFocus));
    assert!(command_preflight(&LocalSessionCommand::SendFiles {
        none_selected: false,
    }));
}

#[test]
fn transfer_failures_of_this_machine_are_told_apart() {
    for error in [
        TransferRuntimeError::Transfer(TransferError::Platform),
        TransferRuntimeError::Transfer(TransferError::DestinationExists),
        TransferRuntimeError::Transfer(TransferError::IntegrityMismatch),
        TransferRuntimeError::ResumeDurabilityUnsupported,
    ] {
        assert_eq!(
            session_error_of_transfer(error),
            SessionRuntimeError::Platform
        );
    }
    for error in [
        TransferRuntimeError::Replay,
        TransferRuntimeError::Backpressure,
        TransferRuntimeError::Transfer(TransferError::QueueFull),
    ] {
        assert_eq!(
            session_error_of_transfer(error),
            SessionRuntimeError::ProtocolViolation
        );
    }
}

#[test]
fn one_rejection_among_effects_counts() {
    assert!(!effects_rejected(&vec![]));
    assert!(!effects_rejected(&vec![
        Effect::CancelFocusLease,
        Effect::RestoreLocalOwnership
    ]));
    assert!(effects_rejected(&vec![
        Effect::CancelFocusLease,
        Effect::Rejected
    ]));
}

#[test]
fn a_lost_acknowledgement_poisons_the_injector() {
    let mut poison = InjectorPoison::new();
    acknowledgement_sent(true, &mut poison);
    assert!(injector_worker_start_allowed(&poison));
    acknowledgement_sent(false, &mut poison);
    assert!(!injector_worker_start_allowed(&poison));
    acknowledgement_sent(true, &mut poison);
    assert!(!injector_worker_start_allowed(&poison));
}

#[test]
fn nothing_is_released_without_an_injector_only_if_nothing_is_held() {
    assert_eq!(release_injected(Some(true), false), Ok(()));
    assert_eq!(
        release_injected(Some(false), true),
        Err(PlatformPortError::Native)
    );
    assert_eq!(release_injected(None, true), Ok(()));
    assert_eq!(
        release_injected(None, false),
        Err(PlatformPortError::Native)
    );
}

#[test]
fn manual_focus_needs_both_topologies() {
    let mut topology = PeerTopologyState::from_environment(
        PeerPlacement::Right,
        true,
        16,
        EdgeSettings {
            activation_band_milli: 8_000,
            hysteresis_milli: 12_000,
            entry_inset_milli: 4_000,
            debounce_ms: 80,
            cooldown_ms: 300,
        },
        true,
    )
    .unwrap();
    assert!(topology.local_topology().is_none());
    assert!(topology.remote().is_none());
    assert!(!matches!(
        topology.prepare_manual_focus(),
        Ok(ManualFocus::WithoutPointer | ManualFocus::Carry { .. })
    ));
    assert!(!topology.pointer_enter_required());
}

#[test]
fn wire_identities_are_big_endian() {
    let bytes = [0, 1, 2, 3, 4, 5, 6, 7, 8, 9, 10, 11, 12, 13, 14, 255];
    let transfer = TransferId::from_bytes(bytes);
    assert_eq!(transfer.value, u128::from_be_bytes(bytes));
    assert_eq!(transfer.as_bytes(), bytes);
    let greatest = TransferId { value: u128::MAX };
    assert_eq!(greatest.as_bytes(), [255; 16]);
    assert_eq!(TransferId { value: 1 }.as_bytes()[15], 1);
    assert_eq!(
        public_text(0x1234_5678_9abc_def0_1234_5678_9abc_def0),
        "12345678-9abc-def0-1234-56789abcdef0"
    );
}

#[test]
fn exactly_the_current_version_is_spoken() {
    assert!(announces_current_only(&vec![true]));
    assert!(!announces_current_only(&vec![]));
    assert!(!announces_current_only(&vec![false]));
    assert!(!announces_current_only(&vec![true, false]));
    assert!(!announces_current_only(&vec![true, true]));
}

#[test]
fn sets_of_identifiers_are_listed_in_order() {
    let mut set = IdSet::new();
    set.extend(&vec![9, 2, u128::MAX, 2, 0]);
    assert_eq!(set.len(), 4);
    assert!(set.contains(9) && !set.contains(3));
    assert_eq!(set.to_vec(), [0, 2, 9, u128::MAX]);
    assert!(set.remove(2) && !set.remove(2));
    assert_eq!(set.to_vec(), [0, 9, u128::MAX]);
}
