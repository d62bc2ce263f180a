use nodavo_agent::displays::{
    DisplayDescriptor, DisplayGeometry, DisplayRotation, DisplayTopology, LocalDisplayMap,
    NativeDisplaySnapshot, TopologyRuntimeError,
};
use nodavo_agent::input::{InputEvent, NormalizedPosition};
use nodavo_agent::routes::{
    derive_exterior_routes, DisplayEdge, EdgeAlignment, EdgeRoute, PeerPlacement,
    MAX_DERIVED_EDGE_ROUTES,
};
use nodavo_agent::session_core::FocusState;
use nodavo_agent::topology_runtime::{
    edge_settings, env_u32, EdgeDecision, EdgeEnvironment, EdgeSettings, LocalPointerAction,
    ManualFocus, PeerTopologyState, PointerStep, TargetPointerPosition,
};

const MAX_DISPLAYS: usize = 16;

fn geometry(horizontal_origin: i32, vertical_origin: i32) -> DisplayGeometry {
    DisplayGeometry {
        origin_x_milli: horizontal_origin,
        origin_y_milli: vertical_origin,
        pixel_width: 1_920,
        pixel_height: 1_080,
        scale_x_milli: 1_000,
        scale_y_milli: 1_000,
        rotation: DisplayRotation::Degrees0,
        logical_width_milli: 1_920_000,
        logical_height_milli: 1_080_000,
    }
}

fn positioned_descriptor(
    id: u32,
    horizontal_origin: i32,
    vertical_origin: i32,
) -> DisplayDescriptor {
    DisplayDescriptor {
        id,
        geometry: geometry(horizontal_origin, vertical_origin),
    }
}

fn topology(revision: u64) -> DisplayTopology {
    DisplayTopology {
        revision,
        displays: vec![positioned_descriptor(1, 0, 0)],
    }
}

fn snapshot(native: u64) -> NativeDisplaySnapshot {
    NativeDisplaySnapshot {
        native_id: native,
        geometry: geometry(0, 0),
        admitted: true,
    }
}

fn settings() -> EdgeSettings {
    edge_settings(&EdgeEnvironment {
        activation_band_milli: None,
        hysteresis_milli: None,
        entry_inset_milli: None,
        debounce_ms: None,
        cooldown_ms: None,
    })
    .unwrap()
}

fn state(placement: PeerPlacement, granted: bool) -> PeerTopologyState {
    PeerTopologyState::from_environment(placement, granted, MAX_DISPLAYS, settings(), true).unwrap()
}

/// A state whose local and remote displays are committed and ready.
fn ready_state(placement: PeerPlacement, granted: bool) -> PeerTopologyState {
    let mut state = state(placement, granted);
    let candidate = state
        .prepare_local_candidate(&[snapshot(7)], true)
        .unwrap()
        .unwrap();
    state.commit_local_candidate(candidate).unwrap();
    let proposal = state.mark_unpublished_local_ready().unwrap();
    state.install_routes(proposal, true).unwrap();
    state.stage_remote(topology(1), 1).unwrap();
    let proposal = state.commit_remote(1).unwrap();
    state.install_routes(proposal, true).unwrap();
    state
}

#[test]
fn native_ids_never_become_session_ids_and_remain_stable() {
    let mut map = LocalDisplayMap::new();
    let candidate = map
        .prepare_reconcile(&[snapshot(0xDEAD_BEEF)], MAX_DISPLAYS, true)
        .unwrap()
        .unwrap();
    let first = map.commit(candidate).unwrap();
    assert_eq!(first.displays[0].id, 1);
    assert!(map
        .prepare_reconcile(&[snapshot(0xDEAD_BEEF)], MAX_DISPLAYS, true)
        .unwrap()
        .is_none());
    let candidate = map
        .prepare_reconcile(&[snapshot(0xDEAD_BEEF), snapshot(9)], MAX_DISPLAYS, true)
        .unwrap()
        .unwrap();
    let second = map.commit(candidate).unwrap();
    assert_eq!(second.displays[0].id, 1);
    assert_eq!(second.displays[1].id, 2);
}

#[test]
fn candidate_is_transactional_and_removed_ids_never_resolve() {
    let mut map = LocalDisplayMap::new();
    let initial = map
        .prepare_reconcile(&[snapshot(100), snapshot(200)], MAX_DISPLAYS, true)
        .unwrap()
        .unwrap();
    assert!(!map.is_known(), "prepare mutated the active revision");
    assert!(map.session_id(100).is_none());
    map.commit(initial).unwrap();
    let removed_session = map.session_id(100).unwrap();
    let retained_session = map.session_id(200).unwrap();

    let removal = map
        .prepare_reconcile(&[snapshot(200)], MAX_DISPLAYS, true)
        .unwrap()
        .unwrap();
    assert_eq!(map.native_id(removed_session), Some(100));
    map.commit(removal).unwrap();
    assert_eq!(map.session_id(100), None);
    assert_eq!(map.native_id(removed_session), None);
    assert_eq!(map.session_id(200), Some(retained_session));

    let readded = map
        .prepare_reconcile(&[snapshot(100), snapshot(200)], MAX_DISPLAYS, true)
        .unwrap()
        .unwrap();
    map.commit(readded).unwrap();
    assert_ne!(map.session_id(100), Some(removed_session));
    assert_eq!(map.session_id(200), Some(retained_session));
}

#[test]
fn invalid_or_stale_candidate_never_partially_mutates_active_map() {
    let mut map = LocalDisplayMap::new();
    let initial = map
        .prepare_reconcile(&[snapshot(1)], MAX_DISPLAYS, true)
        .unwrap()
        .unwrap();
    map.commit(initial).unwrap();
    let before = map.topology().unwrap();
    let mut invalid = snapshot(2);
    invalid.geometry.pixel_width = 0;
    invalid.admitted = false;
    assert!(matches!(
        map.prepare_reconcile(&[snapshot(1), invalid], MAX_DISPLAYS, true),
        Err(TopologyRuntimeError::InvalidNativeSnapshot)
    ));
    let after = map.topology().unwrap();
    assert_eq!(after.revision, before.revision);
    assert_eq!(after.displays, before.displays);
    assert_eq!(map.session_id(1), Some(1));
    assert_eq!(map.session_id(2), None);

    let stale = map
        .prepare_reconcile(&[snapshot(1), snapshot(2)], MAX_DISPLAYS, true)
        .unwrap()
        .unwrap();
    let newer = map
        .prepare_reconcile(&[snapshot(1), snapshot(3)], MAX_DISPLAYS, true)
        .unwrap()
        .unwrap();
    map.commit(newer).unwrap();
    assert_eq!(
        map.commit(stale).err(),
        Some(TopologyRuntimeError::RevisionMismatch)
    );
}

#[test]
fn remote_topology_requires_matching_authorize_then_commit_revision() {
    let mut state = state(PeerPlacement::Right, true);
    assert_eq!(
        state.stage_remote(topology(2), 1),
        Err(TopologyRuntimeError::RevisionMismatch)
    );
    state.stage_remote(topology(2), 2).unwrap();
    assert_eq!(
        state.commit_remote(1).err(),
        Some(TopologyRuntimeError::RevisionMismatch)
    );
    state.stage_remote(topology(2), 2).unwrap();
    let proposal = state.commit_remote(2).unwrap();
    state.install_routes(proposal, true).unwrap();
    assert_eq!(state.remote().map(|remote| remote.revision), Some(2));
}

#[test]
fn incoming_session_token_resolves_only_through_local_map() {
    let mut state = state(PeerPlacement::Right, true);
    let candidate = state
        .prepare_local_candidate(&[snapshot(777)], true)
        .unwrap()
        .unwrap();
    let _ = state.commit_local_candidate(candidate).unwrap();
    let incoming = InputEvent::PointerMotion {
        position: NormalizedPosition {
            display: 1,
            x: 0,
            y: u16::MAX,
        },
    };
    let InputEvent::PointerMotion { position } = state.resolve_incoming(incoming).unwrap() else {
        unreachable!()
    };
    assert_eq!(position.display, 777);
    let unknown = InputEvent::PointerMotion {
        position: NormalizedPosition {
            display: 777,
            x: 0,
            y: u16::MAX,
        },
    };
    assert_eq!(
        state.resolve_incoming(unknown).err(),
        Some(TopologyRuntimeError::DisplayMappingUnavailable)
    );
}

#[test]
fn local_ready_requires_the_exact_published_revision() {
    let mut state = state(PeerPlacement::Right, true);
    state.record_local_publish(3);
    assert_eq!(
        state.mark_local_ready(2).err(),
        Some(TopologyRuntimeError::UnexpectedAcknowledgement)
    );
    assert!(state.mark_local_ready(3).is_ok());
}

#[test]
fn manual_focus_without_routes_preserves_remote_cursor() {
    let mut state = state(PeerPlacement::Disabled, true);
    let candidate = state
        .prepare_local_candidate(&[snapshot(777)], true)
        .unwrap()
        .unwrap();
    let _ = state.commit_local_candidate(candidate).unwrap();
    state.stage_remote(topology(1), 1).unwrap();
    let proposal = state.commit_remote(1).unwrap();
    state.install_routes(proposal, true).unwrap();
    assert!(matches!(
        state.prepare_manual_focus(),
        Ok(ManualFocus::WithoutPointer)
    ));
    assert_eq!(state.take_pending_target(), None);
    assert!(matches!(
        state.local_pointer(
            NormalizedPosition {
                display: 777,
                x: u16::MAX,
                y: u16::MAX,
            },
            FocusState::ControllingRemote {
                lease_id: 9,
                expires_at: 100,
            },
            1,
        ),
        Ok(PointerStep::Settled(LocalPointerAction::Suppressed))
    ));
}

#[test]
fn placement_derives_only_deterministic_exterior_stretch_routes() {
    let local = vec![
        positioned_descriptor(1, 0, 0),
        positioned_descriptor(2, 1_920_000, 0),
        positioned_descriptor(3, 1_920_000, 1_080_000),
    ];
    let remote = vec![
        positioned_descriptor(10, 0, 0),
        positioned_descriptor(11, 0, 1_080_000),
        positioned_descriptor(12, 1_920_000, 0),
    ];

    let routes = derive_exterior_routes(PeerPlacement::Right, &local, &remote);
    assert_eq!(routes.len(), 2);
    assert_eq!(routes[0].source_display, 2);
    assert_eq!(routes[1].source_display, 3);
    assert_eq!(routes[0].destination_display, 10);
    assert_eq!(routes[1].destination_display, 11);
    assert!(routes.iter().all(|route| {
        route.source_edge == DisplayEdge::Right
            && route.destination_edge == DisplayEdge::Left
            && route.alignment == EdgeAlignment::Stretch
    }));
    assert!(routes.len() <= MAX_DERIVED_EDGE_ROUTES);
    assert!(derive_exterior_routes(PeerPlacement::Disabled, &local, &remote).is_empty());
}

#[test]
fn route_activation_requires_grant_and_committed_topologies_and_changes_clear_state() {
    let ungranted = ready_state(PeerPlacement::Right, false);
    assert!(
        ungranted.routes().is_empty(),
        "a missing input grant armed routes"
    );

    let mut state = ready_state(PeerPlacement::Right, true);
    assert_eq!(state.routes().len(), 1);
    let pending_local = state
        .prepare_local_candidate(&[snapshot(7), snapshot(8)], true)
        .unwrap()
        .unwrap();
    let proposal = state.set_peer_placement(PeerPlacement::Left);
    state.install_routes(proposal, true).unwrap();
    assert!(
        state.routes().is_empty(),
        "placement rearmed a route across a pending local topology"
    );
    state.commit_local_candidate(pending_local).unwrap();
    let proposal = state.mark_unpublished_local_ready().unwrap();
    state.install_routes(proposal, true).unwrap();
    assert!(!state.routes().is_empty());
    state.stage_remote(topology(2), 2).unwrap();
    let proposal = state.set_peer_placement(PeerPlacement::Right);
    state.install_routes(proposal, true).unwrap();
    assert!(
        state.routes().is_empty(),
        "placement rearmed a route across a staged remote topology"
    );
    let proposal = state.commit_remote(2).unwrap();
    state.install_routes(proposal, true).unwrap();
    assert!(!state.routes().is_empty());
    let route = state.routes()[0];
    assert_eq!(
        state.edge_observed(Some(EdgeDecision {
            route,
            target: TargetPointerPosition {
                display: 1,
                x: u32::MAX,
                y: 0,
            },
        })),
        LocalPointerAction::RequestFocus
    );
    assert_eq!(state.active_route(), Some(route));
    let mut invalid = snapshot(9);
    invalid.geometry.pixel_width = 0;
    invalid.admitted = false;
    assert!(state.prepare_local_candidate(&[invalid], true).is_err());
    assert!(state.routes().is_empty());
    assert!(state.active_route().is_none());
    assert!(state.take_pending_target().is_none());
    let proposal = state.set_peer_placement(PeerPlacement::Disabled);
    state.install_routes(proposal, true).unwrap();
    assert!(state.routes().is_empty());
    assert!(state.active_route().is_none());
    assert!(state.take_pending_target().is_none());
}

#[test]
fn published_local_topology_ack_is_the_exact_route_activation_gate() {
    let mut state = state(PeerPlacement::Right, true);
    let candidate = state
        .prepare_local_candidate(&[snapshot(70)], true)
        .unwrap()
        .unwrap();
    let local_topology = state.commit_local_candidate(candidate).unwrap();
    state.stage_remote(topology(9), 9).unwrap();
    let proposal = state.commit_remote(9).unwrap();
    state.install_routes(proposal, true).unwrap();
    assert!(state.routes().is_empty());

    state.record_local_publish(local_topology.revision);
    assert!(!state.local_is_ready());
    assert!(state.routes().is_empty());
    assert_eq!(
        state.mark_local_ready(local_topology.revision + 1).err(),
        Some(TopologyRuntimeError::UnexpectedAcknowledgement)
    );
    assert!(state.routes().is_empty());
    let proposal = state.mark_local_ready(local_topology.revision).unwrap();
    state.install_routes(proposal, true).unwrap();
    assert!(state.local_is_ready());
    assert_eq!(state.routes().len(), 1);
}

#[test]
fn refused_routes_leave_the_armed_ones() {
    let mut state = ready_state(PeerPlacement::Right, true);
    assert_eq!(
        state.routes()[0],
        EdgeRoute {
            source_display: 1,
            source_edge: DisplayEdge::Right,
            destination_display: 1,
            destination_edge: DisplayEdge::Left,
            alignment: EdgeAlignment::Stretch,
            enabled: true,
        }
    );
    let proposal = state.set_peer_placement(PeerPlacement::Below);
    assert_eq!(proposal.routes().len(), 1);
    assert_eq!(
        state.install_routes(proposal, false).err(),
        Some(TopologyRuntimeError::InvalidEdgeConfiguration)
    );
    assert_eq!(state.routes().len(), 1);
    assert_eq!(state.routes()[0].source_edge, DisplayEdge::Right);
}

#[test]
fn manual_focus_enters_in_the_middle_of_the_first_route() {
    let mut state = ready_state(PeerPlacement::Right, true);
    let Ok(ManualFocus::Carry { sample, route }) = state.prepare_manual_focus() else {
        panic!("a route must be carried across")
    };
    assert_eq!(sample.display, 1);
    assert_eq!(route, state.routes()[0]);
    state
        .seed_manual_focus(
            route,
            Some(TargetPointerPosition {
                display: 1,
                x: 65_537 * 5,
                y: 65_537 * 7 + 1,
            }),
        )
        .unwrap();
    assert!(state.pointer_enter_required());
    assert_eq!(
        state.take_pending_target(),
        Some(InputEvent::PointerMotion {
            position: NormalizedPosition {
                display: 1,
                x: 5,
                y: 7,
            },
        })
    );
}

#[test]
fn edge_settings_come_from_numbers_only() {
    assert_eq!(env_u32(None, 80), Ok(80));
    assert_eq!(env_u32(Some("12"), 80), Ok(12));
    assert_eq!(env_u32(Some("+12"), 80), Ok(12));
    assert_eq!(
        env_u32(Some("twelve"), 80),
        Err(TopologyRuntimeError::InvalidEdgeConfiguration)
    );
    assert_eq!(
        env_u32(Some("4294967296"), 80),
        Err(TopologyRuntimeError::InvalidEdgeConfiguration)
    );
    assert_eq!(
        env_u32(Some(""), 80),
        Err(TopologyRuntimeError::InvalidEdgeConfiguration)
    );
    let settings = settings();
    assert_eq!(settings.activation_band_milli, 8_000);
    assert_eq!(settings.hysteresis_milli, 12_000);
    assert_eq!(settings.entry_inset_milli, 4_000);
    assert_eq!(settings.debounce_ms, 80);
    assert_eq!(settings.cooldown_ms, 300);
}

#[test]
fn a_topology_that_is_not_admitted_changes_nothing() {
    let mut map = LocalDisplayMap::new();
    let proposed = map
        .proposed_topology(&[snapshot(8), snapshot(9)], MAX_DISPLAYS)
        .unwrap();
    assert_eq!(proposed.revision, 1);
    assert_eq!(
        proposed
            .displays
            .iter()
            .map(|display| display.id)
            .collect::<Vec<_>>(),
        [1, 2]
    );
    assert!(matches!(
        map.prepare_reconcile(&[snapshot(8), snapshot(9)], MAX_DISPLAYS, false),
        Err(TopologyRuntimeError::InvalidNativeSnapshot)
    ));
    assert!(map.topology().is_none());
    let candidate = map
        .prepare_reconcile(&[snapshot(8), snapshot(9)], MAX_DISPLAYS, true)
        .unwrap()
        .unwrap();
    assert_eq!(map.commit(candidate).unwrap(), proposed);
    assert!(map
        .proposed_topology(&[snapshot(8), snapshot(9)], MAX_DISPLAYS)
        .is_none());
    assert!(matches!(
        map.prepare_reconcile(&[snapshot(8), snapshot(9)], MAX_DISPLAYS, false),
        Ok(None)
    ));
    assert!(map.proposed_topology(&[], MAX_DISPLAYS).is_none());
}
