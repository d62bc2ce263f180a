//! The state of one peer session, apart from the reducer, the native platform
//! and the transport, which work outside.

use vstd::prelude::*;
use crate::displays::{
    descriptors,
    maps_native,
    session_of,
    topology_view,
    DisplayMapModel,
    DisplayTopology,
    LocalTopologyCandidate,
    NativeDisplaySnapshot,
    TopologyModel,
    TopologyRuntimeError,
};
use crate::grants::{next_sequence, sequence_after, Capability, EventMeta};
use crate::identifiers::{DeviceId, SessionId};
use crate::input::{InputEvent, NormalizedPosition};
use crate::routes::{EdgeRoute, PeerPlacement};
use crate::session_core::{Effect, FocusState, LinkState};
use crate::session_safety::{SessionRuntimeError, SessionSafetyState};
use crate::session_wire::{Channels, SessionRole};
use crate::topology_runtime::{
    target_motion,
    EdgeDecision,
    EdgeSettings,
    LocalPointerAction,
    ManualFocus,
    PeerTopologyModel,
    PeerTopologyState,
    PointerStep,
    RouteProposal,
    TargetPointerPosition,
};

verus! {

pub const MIN_LEASE_TTL_MS: u32 = 1000;

pub const MAX_LEASE_TTL_MS: u32 = 30000;

pub const DEFAULT_LEASE_TTL_MS: u32 = 5000;

pub const TOPOLOGY_REFRESH_PHASE_TIMEOUT_MS: u64 = 5000;

/// What a session is set up with. The grants are those that this side keeps.
#[derive(Clone, Copy, Debug, PartialEq, Eq, Structural)]
pub struct SessionConfig {
    pub role: SessionRole,
    pub local_device: DeviceId,
    pub peer_device: DeviceId,
    pub local_grants_to_peer: Capability,
    pub local_grant_epoch: u64,
    pub peer_grants_to_local: Option<Capability>,
    pub peer_grant_epoch: Option<u64>,
    pub peer_placement: PeerPlacement,
    pub existing_control: Option<u64>,
}

/// What the peer grants.
#[derive(Clone, Copy, Debug, PartialEq, Eq, Structural)]
pub struct PeerGrantState {
    pub capabilities: Capability,
    pub epoch: u64,
}

/// What the session logic reads of the reducer.
#[derive(Clone, Copy, Debug, PartialEq, Eq, Structural)]
pub struct CoreView {
    pub focus: FocusState,
    pub link: LinkState,
    pub local_pointer_routing_ready: bool,
    pub outbound_pointer_enter_required: bool,
    pub local_grant_allows_peer_input: bool,
    pub peer_grant_allows_local_input: bool,
    pub local_topology_refresh_pending: bool,
    pub remote_topology_known: bool,
    pub local_topology_acknowledged: bool,
}

/// A time `delta` after `now`, at the end of the clock at the latest.
pub open spec fn later(now: u64, delta: u64) -> u64 {
    if now + delta > u64::MAX {
        u64::MAX
    } else {
        (now + delta) as u64
    }
}

pub fn saturating_add(now: u64, delta: u64) -> (sum: u64)
    ensures
        sum == later(now, delta),
{
    match now.checked_add(delta) {
        Some(sum) => sum,
        None => u64::MAX,
    }
}

/// Input that could not be injected while the displays changed, and what was
/// to follow it.
pub struct PendingInjectionRetry {
    pub input: InputEvent,
    pub remaining_effects: Vec<Effect>,
}

pub struct RefreshModel {
    /// The candidate that waits: the revision that it was made for, and what it
    /// leads to.
    pub pending: Option<(u64, DisplayMapModel)>,
    pub retry: Option<(InputEvent, Seq<Effect>)>,
    pub snapshot_deadline: Option<u64>,
    pub ack_deadline: Option<u64>,
}

/// The refresh of the local displays while a session is up. Each phase has a
/// deadline that nothing but its end can move.
pub struct LocalTopologyRefresh {
    pending: Option<LocalTopologyCandidate>,
    injection_retry: Option<PendingInjectionRetry>,
    snapshot_deadline: Option<u64>,
    ack_deadline: Option<u64>,
}

impl View for LocalTopologyRefresh {
    type V = RefreshModel;

    closed spec fn view(&self) -> RefreshModel {
        RefreshModel {
            pending: match self.pending {
                Some(candidate) => Some((candidate.base(), candidate.outcome())),
                None => None,
            },
            retry: match self.injection_retry {
                Some(retry) => Some((retry.input, retry.remaining_effects@)),
                None => None,
            },
            snapshot_deadline: self.snapshot_deadline,
            ack_deadline: self.ack_deadline,
        }
    }
}

impl RefreshModel {
    pub open spec fn snapshot_begun(self, now: u64) -> RefreshModel {
        RefreshModel {
            snapshot_deadline: if self.snapshot_deadline is None {
                Some(later(now, TOPOLOGY_REFRESH_PHASE_TIMEOUT_MS))
            } else {
                self.snapshot_deadline
            },
            ..self
        }
    }

    pub open spec fn late(self, now: u64) -> bool {
        ||| self.snapshot_deadline matches Some(deadline) && now >= deadline
        ||| self.ack_deadline matches Some(deadline) && now >= deadline
    }
}

pub open spec fn candidate_view(candidate: Option<LocalTopologyCandidate>) -> Option<
    (u64, DisplayMapModel),
> {
    match candidate {
        Some(known) => Some((known.base(), known.outcome())),
        None => None,
    }
}

impl LocalTopologyRefresh {
    pub fn new() -> (refresh: LocalTopologyRefresh)
        ensures
            refresh@ == (RefreshModel {
                pending: None,
                retry: None,
                snapshot_deadline: None,
                ack_deadline: None,
            }),
    {
        LocalTopologyRefresh {
            pending: None,
            injection_retry: None,
            snapshot_deadline: None,
            ack_deadline: None,
        }
    }

    /// Keeps the latest candidate only.
    pub fn coalesce(&mut self, candidate: Option<LocalTopologyCandidate>)
        ensures
            final(self)@ == (RefreshModel { pending: candidate_view(candidate), ..old(self)@ }),
    {
        self.pending = candidate;
        assert(self@ == (RefreshModel { pending: candidate_view(candidate), ..old(self)@ }));
    }

    pub fn take_pending(&mut self) -> (candidate: Option<LocalTopologyCandidate>)
        ensures
            candidate_view(candidate) == old(self)@.pending,
            final(self)@ == (RefreshModel { pending: None, ..old(self)@ }),
    {
        let candidate = self.pending.take();
        assert(self@ == (RefreshModel { pending: None, ..old(self)@ }));
        candidate
    }

    /// Keeps a pointer motion for one more try. Other input is not kept, nor a
    /// second one.
    pub fn queue_injection_retry(&mut self, input: InputEvent, remaining_effects: Vec<Effect>) -> (
        queued: Result<(), SessionRuntimeError>)
        ensures
            if !(input is PointerMotion) || old(self)@.retry is Some {
                &&& queued == Err::<(), _>(SessionRuntimeError::Platform)
                &&& final(self)@ == old(self)@
            } else {
                &&& queued is Ok
                &&& final(self)@ == (RefreshModel {
                    retry: Some((input, remaining_effects@)),
                    ..old(self)@
                })
            },
    {
        let motion = match input {
            InputEvent::PointerMotion { .. } => true,
            _ => false,
        };
        if !motion || self.injection_retry.is_some() {
            return Err(SessionRuntimeError::Platform);
        }
        self.injection_retry = Some(PendingInjectionRetry { input, remaining_effects });
        assert(self@ == (RefreshModel {
            retry: Some((input, remaining_effects@)),
            ..old(self)@
        }));
        Ok(())
    }

    pub fn take_injection_retry(&mut self) -> (retry: Option<PendingInjectionRetry>)
        ensures
            match retry {
                Some(kept) => old(self)@.retry == Some((kept.input, kept.remaining_effects@)),
                None => old(self)@.retry is None,
            },
            final(self)@ == (RefreshModel { retry: None, ..old(self)@ }),
    {
        let retry = self.injection_retry.take();
        assert(self@ == (RefreshModel { retry: None, ..old(self)@ }));
        retry
    }

    /// Starts the snapshot phase. A phase that runs already keeps its deadline.
    pub fn begin_snapshot(&mut self, now: u64)
        ensures
            final(self)@ == old(self)@.snapshot_begun(now),
    {
        if self.snapshot_deadline.is_none() {
            self.snapshot_deadline = Some(saturating_add(now, TOPOLOGY_REFRESH_PHASE_TIMEOUT_MS));
        }
    }

    pub fn finish_snapshot(&mut self)
        ensures
            final(self)@ == (RefreshModel { snapshot_deadline: None, ..old(self)@ }),
    {
        self.snapshot_deadline = None;
    }

    pub fn snapshot_pending(&self) -> (pending: bool)
        ensures
            pending == (self@.snapshot_deadline is Some),
    {
        self.snapshot_deadline.is_some()
    }

    /// The peer has to acknowledge a published topology by then.
    pub fn arm_ack_deadline(&mut self, now: u64)
        ensures
            final(self)@ == (RefreshModel {
                ack_deadline: Some(later(now, TOPOLOGY_REFRESH_PHASE_TIMEOUT_MS)),
                ..old(self)@
            }),
    {
        self.ack_deadline = Some(saturating_add(now, TOPOLOGY_REFRESH_PHASE_TIMEOUT_MS));
    }

    pub fn acknowledge(&mut self)
        ensures
            final(self)@ == (RefreshModel { ack_deadline: None, ..old(self)@ }),
    {
        self.ack_deadline = None;
    }

    pub fn timed_out(&self, now: u64) -> (late: bool)
        ensures
            late == self@.late(now),
    {
        let snapshot = match self.snapshot_deadline {
            Some(deadline) => now >= deadline,
            None => false,
        };
        let ack = match self.ack_deadline {
            Some(deadline) => now >= deadline,
            None => false,
        };
        snapshot || ack
    }
}

#[derive(Clone, Copy, Debug, PartialEq, Eq, Structural)]
pub enum SequenceKind {
    Control,
    Reliable,
    Replaceable,
}

pub struct SessionModel {
    pub config: SessionConfig,
    pub channels: Channels,
    pub session_id: SessionId,
    pub control_sequence: u64,
    pub reliable_sequence: u64,
    pub replaceable_sequence: u64,
    pub renewal_pending: bool,
    pub routing_to_peer: bool,
    pub topology_initialized: bool,
    pub topology: PeerTopologyModel,
    pub edge: EdgeSettings,
    pub display_limit: usize,
    pub refresh: RefreshModel,
    pub local_grant_epoch: u64,
    pub peer_grant_epoch: u64,
    pub peer_capabilities: Capability,
    pub failure_latched: bool,
    pub operation_active: bool,
}

impl SessionModel {
    pub open spec fn sequence(self, kind: SequenceKind) -> u64 {
        match kind {
            SequenceKind::Control => self.control_sequence,
            SequenceKind::Reliable => self.reliable_sequence,
            SequenceKind::Replaceable => self.replaceable_sequence,
        }
    }

    /// The metadata of the next message in a lane.
    pub open spec fn next_meta(self, kind: SequenceKind) -> EventMeta {
        EventMeta {
            session_id: self.session_id,
            origin: self.config.local_device,
            sequence: sequence_after(self.sequence(kind)),
            grant_epoch: self.peer_grant_epoch,
            capability: Capability::remote_input_only(),
        }
    }

    pub open spec fn after_meta(self, kind: SequenceKind) -> SessionModel {
        let next = sequence_after(self.sequence(kind));
        match kind {
            SequenceKind::Control => SessionModel { control_sequence: next, ..self },
            SequenceKind::Reliable => SessionModel { reliable_sequence: next, ..self },
            SequenceKind::Replaceable => SessionModel { replaceable_sequence: next, ..self },
        }
    }

    pub open spec fn latched(self) -> SessionModel {
        SessionModel { failure_latched: true, operation_active: true, ..self }
    }
}

/// One session with a peer.
pub struct PeerSession {
    config: SessionConfig,
    channels: Channels,
    session_id: SessionId,
    control_sequence: u64,
    reliable_sequence: u64,
    replaceable_sequence: u64,
    renewal_pending: bool,
    routing_to_peer: bool,
    topology_initialized: bool,
    topology: PeerTopologyState,
    refresh: LocalTopologyRefresh,
    local_grant_epoch: u64,
    peer_grant_epoch: u64,
    peer_capabilities: Capability,
    safety: SessionSafetyState,
}

impl View for PeerSession {
    type V = SessionModel;

    closed spec fn view(&self) -> SessionModel {
        SessionModel {
            config: self.config,
            channels: self.channels,
            session_id: self.session_id,
            control_sequence: self.control_sequence,
            reliable_sequence: self.reliable_sequence,
            replaceable_sequence: self.replaceable_sequence,
            renewal_pending: self.renewal_pending,
            routing_to_peer: self.routing_to_peer,
            topology_initialized: self.topology_initialized,
            topology: self.topology@,
            edge: self.topology.edge(),
            display_limit: self.topology.display_limit(),
            refresh: self.refresh@,
            local_grant_epoch: self.local_grant_epoch,
            peer_grant_epoch: self.peer_grant_epoch,
            peer_capabilities: self.peer_capabilities,
            failure_latched: self.safety.failed(),
            operation_active: self.safety.operating(),
        }
    }
}

impl PeerSession {
    /// A session that was just negotiated.
    pub fn new(
        config: SessionConfig,
        channels: Channels,
        session_id: SessionId,
        peer_grant: PeerGrantState,
        topology: PeerTopologyState,
        safety: SessionSafetyState,
    ) -> (session: PeerSession)
        ensures
            session@ == (SessionModel {
                config,
                channels,
                session_id,
                control_sequence: 0,
                reliable_sequence: 0,
                replaceable_sequence: 0,
                renewal_pending: false,
                routing_to_peer: false,
                topology_initialized: false,
                topology: topology@,
                edge: topology.edge(),
                display_limit: topology.display_limit(),
                refresh: RefreshModel {
                    pending: None,
                    retry: None,
                    snapshot_deadline: None,
                    ack_deadline: None,
                },
                local_grant_epoch: config.local_grant_epoch,
                peer_grant_epoch: peer_grant.epoch,
                peer_capabilities: peer_grant.capabilities,
                failure_latched: safety.failed(),
                operation_active: safety.operating(),
            }),
    {
        PeerSession {
            config,
            channels,
            session_id,
            control_sequence: 0,
            reliable_sequence: 0,
            replaceable_sequence: 0,
            renewal_pending: false,
            routing_to_peer: false,
            topology_initialized: false,
            topology,
            refresh: LocalTopologyRefresh::new(),
            local_grant_epoch: config.local_grant_epoch,
            peer_grant_epoch: peer_grant.epoch,
            peer_capabilities: peer_grant.capabilities,
            safety,
        }
    }

    /// Takes the next sequence number of a lane and makes metadata of it.
    pub fn next_meta(&mut self, kind: SequenceKind) -> (meta: EventMeta)
        ensures
            meta == old(self)@.next_meta(kind),
            final(self)@ == old(self)@.after_meta(kind),
    {
        let sequence: u64 = match kind {
            SequenceKind::Control => next_sequence(&mut self.control_sequence),
            SequenceKind::Reliable => next_sequence(&mut self.reliable_sequence),
            SequenceKind::Replaceable => next_sequence(&mut self.replaceable_sequence),
        };
        assert(self@ == old(self)@.after_meta(kind));
        EventMeta {
            session_id: self.session_id,
            origin: self.config.local_device,
            sequence,
            grant_epoch: self.peer_grant_epoch,
            capability: Capability::remote_input_only(),
        }
    }

    pub fn latch_failure(&mut self)
        ensures
            final(self)@ == old(self)@.latched(),
    {
        self.safety.latch_failure();
        assert(self@ == old(self)@.latched());
    }

    /// Whether routed input goes to the peer.
    pub fn routes_to_peer(&self) -> (routed: bool)
        ensures
            routed == self@.routing_to_peer,
    {
        self.routing_to_peer
    }

    /// The safety latch of this process, for the next session.
    pub fn safety(&self) -> (safety: SessionSafetyState)
        ensures
            safety.failed() == self@.failure_latched,
            safety.operating() == self@.operation_active,
    {
        self.safety
    }

    /// What is known of the displays on both sides.
    pub fn topology(&self) -> (topology: &PeerTopologyState)
        ensures
            topology@ == self@.topology,
            topology.edge() == self@.edge,
            topology.display_limit() == self@.display_limit,
    {
        &self.topology
    }
}

/// `native` is `input` as this machine knows it.
pub open spec fn resolves(
    topology: PeerTopologyModel,
    input: InputEvent,
    native: InputEvent,
) -> bool {
    match input {
        InputEvent::PointerMotion { position } => {
            &&& native is PointerMotion
            &&& position.display <= u32::MAX
            &&& maps_native(topology.local.placed, native->position.display)
            &&& session_of(topology.local.placed, native->position.display) == position.display
            &&& native->position.x == position.x
            &&& native->position.y == position.y
        },
        _ => native == input,
    }
}

/// `input` is for a display that this machine does not have.
pub open spec fn unresolvable(topology: PeerTopologyModel, input: InputEvent) -> bool {
    &&& input matches InputEvent::PointerMotion { position }
    &&& forall|i: int|
        0 <= i < topology.local.placed.len() ==> (
        #[trigger] topology.local.placed[i]).descriptor.id != position.display
}

impl SessionModel {
    pub open spec fn with_topology(self, topology: PeerTopologyModel) -> SessionModel {
        SessionModel { topology, ..self }
    }

    pub open spec fn with_refresh(self, refresh: RefreshModel) -> SessionModel {
        SessionModel { refresh, ..self }
    }

    pub open spec fn with_routing(self, routing_to_peer: bool) -> SessionModel {
        SessionModel { routing_to_peer, ..self }
    }

    pub open spec fn unrouted(self) -> SessionModel {
        SessionModel { routing_to_peer: false, topology: self.topology.unfocused(), ..self }
    }
}

impl PeerSession {
    pub fn channels(&self) -> (channels: Channels)
        ensures
            channels == self@.channels,
    {
        self.channels
    }

    pub fn session_id(&self) -> (id: SessionId)
        ensures
            id == self@.session_id,
    {
        self.session_id
    }

    pub fn config(&self) -> (config: SessionConfig)
        ensures
            config == self@.config,
    {
        self.config
    }

    pub fn local_grant_epoch(&self) -> (epoch: u64)
        ensures
            epoch == self@.local_grant_epoch,
    {
        self.local_grant_epoch
    }

    pub fn peer_grant_epoch(&self) -> (epoch: u64)
        ensures
            epoch == self@.peer_grant_epoch,
    {
        self.peer_grant_epoch
    }

    pub fn peer_capabilities(&self) -> (granted: Capability)
        ensures
            granted == self@.peer_capabilities,
    {
        self.peer_capabilities
    }

    /// New local grants are in force; what the peer knew of the displays is void.
    pub fn put_local_grants(&mut self, grants: Capability, epoch: u64)
        ensures
            final(self)@ == (SessionModel {
                local_grant_epoch: epoch,
                config: SessionConfig { local_grants_to_peer: grants, ..old(self)@.config },
                topology: PeerTopologyModel {
                    published_local_revision: None,
                    ready_local_revision: None,
                    ..old(self)@.topology.in_transition()
                },
                ..old(self)@
            }),
    {
        self.local_grant_epoch = epoch;
        self.config.local_grants_to_peer = grants;
        self.topology.invalidate_local_authorization();
    }

    /// New grants of the peer are in force; sequence numbers start anew, and the
    /// remote displays are void.
    pub fn put_peer_grants(&mut self, granted: Capability, epoch: u64)
        ensures
            final(self)@ == (SessionModel {
                peer_grant_epoch: epoch,
                peer_capabilities: granted,
                control_sequence: 0,
                reliable_sequence: 0,
                replaceable_sequence: 0,
                topology: PeerTopologyModel {
                    staged_remote: None,
                    remote: None,
                    ..old(self)@.topology.disarmed()
                },
                ..old(self)@
            }),
    {
        self.peer_grant_epoch = epoch;
        self.peer_capabilities = granted;
        self.control_sequence = 0;
        self.reliable_sequence = 0;
        self.replaceable_sequence = 0;
        self.topology.invalidate_remote_authorization();
    }

    pub fn set_routing(&mut self, to_peer: bool)
        ensures
            final(self)@ == old(self)@.with_routing(to_peer),
    {
        self.routing_to_peer = to_peer;
    }

    pub fn set_renewal_pending(&mut self, pending: bool)
        ensures
            final(self)@ == (SessionModel { renewal_pending: pending, ..old(self)@ }),
    {
        self.renewal_pending = pending;
    }

    pub fn is_renewal_pending(&self) -> (pending: bool)
        ensures
            pending == self@.renewal_pending,
    {
        self.renewal_pending
    }

    /// Whether the displays were exchanged.
    pub fn is_initialized(&self) -> (initialized: bool)
        ensures
            initialized == self@.topology_initialized,
    {
        self.topology_initialized
    }

    pub fn set_initialized(&mut self)
        ensures
            final(self)@ == (SessionModel { topology_initialized: true, ..old(self)@ }),
    {
        self.topology_initialized = true;
    }

    /// What a local pointer motion leads to.
    pub fn local_pointer(&self, position: NormalizedPosition, focus: FocusState, now: u64) -> (step:
        Result<PointerStep, TopologyRuntimeError>)
        ensures
            step == self@.topology.pointer_step(position, focus, now),
    {
        self.topology.local_pointer(position, focus, now)
    }

    /// Keeps what the edge observer decided on a sample.
    pub fn edge_observed(&mut self, decision: Option<EdgeDecision>) -> (action: LocalPointerAction)
        ensures
            match decision {
                None => action == LocalPointerAction::Local && final(self)@ == old(self)@,
                Some(crossing) => {
                    &&& action == LocalPointerAction::RequestFocus
                    &&& final(self)@ == old(self)@.with_topology(
                        PeerTopologyModel {
                            active_route: Some(crossing.route),
                            pending_target: Some(target_motion(crossing.target)),
                            ..old(self)@.topology
                        },
                    )
                },
            },
    {
        let action = self.topology.edge_observed(decision);
        assert(decision is None ==> self@ == old(self)@);
        action
    }

    /// Takes the motion that seeds the remote pointer.
    pub fn take_pending_target(&mut self) -> (target: Option<InputEvent>)
        ensures
            target == old(self)@.topology.pending_target,
            final(self)@ == old(self)@.with_topology(
                PeerTopologyModel { pending_target: None, ..old(self)@.topology },
            ),
    {
        self.topology.take_pending_target()
    }

    /// Prepares focus that the user asks for by hand.
    pub fn prepare_manual_focus(&mut self) -> (focus: Result<ManualFocus, TopologyRuntimeError>)
        ensures
            old(self)@.topology.manual_focus(focus, final(self)@.topology),
            final(self)@ == old(self)@.with_topology(final(self)@.topology),
    {
        self.topology.prepare_manual_focus()
    }

    /// Keeps where the pointer comes in, once it was carried across the route.
    pub fn seed_manual_focus(&mut self, route: EdgeRoute, target: Option<TargetPointerPosition>) -> (
        seeded: Result<(), TopologyRuntimeError>)
        ensures
            match target {
                None => {
                    &&& seeded == Err::<(), _>(TopologyRuntimeError::DisplayMappingUnavailable)
                    &&& final(self)@ == old(self)@
                },
                Some(place) => {
                    &&& seeded is Ok
                    &&& final(self)@ == old(self)@.with_topology(
                        PeerTopologyModel {
                            active_route: Some(route),
                            pending_target: Some(target_motion(place)),
                            ..old(self)@.topology
                        },
                    )
                },
            },
    {
        self.topology.seed_manual_focus(route, target)
    }

    /// Whether the pointer has to come in before anything else is routed.
    pub fn pointer_enter_required(&self) -> (required: bool)
        ensures
            required == (self@.topology.pending_target is Some),
    {
        self.topology.pointer_enter_required()
    }

    /// Keeps remote displays that the reducer accepted.
    pub fn stage_remote(&mut self, topology: DisplayTopology)
        ensures
            final(self)@ == old(self)@.with_topology(
                PeerTopologyModel {
                    staged_remote: Some(topology@),
                    ..old(self)@.topology.disarmed()
                },
            ),
    {
        let revision: u64 = topology.revision;
        let staged = self.topology.stage_remote(topology, revision);
        assert(staged is Ok);
    }

    /// Ownership is back: nothing is routed and no focus change is under way.
    pub fn unroute(&mut self)
        ensures
            final(self)@ == old(self)@.unrouted(),
    {
        self.routing_to_peer = false;
        self.topology.clear_focus_route();
    }

    /// Input of the peer in terms of this machine's displays.
    pub fn resolve_incoming(&self, input: InputEvent) -> (native: Option<InputEvent>)
        ensures
            match native {
                Some(known) => resolves(self@.topology, input, known),
                None => unresolvable(self@.topology, input),
            },
    {
        match self.topology.resolve_incoming(input) {
            Ok(native) => Some(native),
            Err(_) => None,
        }
    }

    /// Puts the staged remote displays into effect.
    pub fn commit_remote(&mut self, revision: u64) -> (proposal: Option<RouteProposal>)
        ensures
            if old(self)@.topology.staged_remote matches Some(staged) && staged.revision
                == revision {
                let topology = PeerTopologyModel {
                    staged_remote: None,
                    remote: old(self)@.topology.staged_remote,
                    ..old(self)@.topology.unfocused()
                };
                &&& final(self)@ == old(self)@.with_topology(topology)
                &&& proposal matches Some(routes) && topology.warrants(routes@)
            } else {
                &&& proposal is None
                &&& final(self)@ == old(self)@.with_topology(
                    PeerTopologyModel { staged_remote: None, ..old(self)@.topology },
                )
            },
    {
        match self.topology.commit_remote(revision) {
            Ok(proposal) => Some(proposal),
            Err(_) => None,
        }
    }

    /// The peer acknowledged the local displays.
    pub fn mark_local_ready(&mut self, revision: u64) -> (proposal: Option<RouteProposal>)
        ensures
            if old(self)@.topology.published_local_revision == Some(revision) {
                let topology = PeerTopologyModel {
                    ready_local_revision: Some(revision),
                    local_transition_pending: false,
                    ..old(self)@.topology.unfocused()
                };
                &&& final(self)@ == old(self)@.with_topology(topology)
                &&& proposal matches Some(routes) && topology.warrants(routes@)
            } else {
                &&& proposal is None
                &&& final(self)@ == old(self)@
            },
    {
        match self.topology.mark_local_ready(revision) {
            Ok(proposal) => Some(proposal),
            Err(_) => {
                assert(self@ == old(self)@);
                None
            },
        }
    }

    /// Arms routes that the edge observer accepted.
    pub fn install_routes(&mut self, proposal: RouteProposal, accepted: bool) -> (installed: bool)
        ensures
            installed == accepted,
            final(self)@ == if accepted {
                old(self)@.with_topology(
                    PeerTopologyModel { routes: proposal@, ..old(self)@.topology },
                )
            } else {
                old(self)@
            },
    {
        let installed = self.topology.install_routes(proposal, accepted).is_ok();
        assert(!accepted ==> self@ == old(self)@);
        installed
    }

    /// Keeps a pointer motion, and what was to follow it, for one more try.
    pub fn queue_injection_retry(&mut self, input: InputEvent, remaining: Vec<Effect>) -> (queued:
        bool)
        ensures
            queued == (input is PointerMotion && old(self)@.refresh.retry is None),
            final(self)@ == if queued {
                old(self)@.with_refresh(
                    RefreshModel { retry: Some((input, remaining@)), ..old(self)@.refresh },
                )
            } else {
                old(self)@
            },
    {
        let queued = self.refresh.queue_injection_retry(input, remaining).is_ok();
        assert(!queued ==> self@ == old(self)@);
        queued
    }
}

/// What a snapshot of the local displays changes.
#[derive(Clone, Copy, Debug, PartialEq, Eq, Structural)]
pub enum SnapshotVerdict {
    Unchanged,
    Changed,
    Unusable,
}

/// `after` is `before` with a snapshot taken in, as `verdict` says.
pub open spec fn snapshot_taken(
    before: SessionModel,
    snapshots: Seq<NativeDisplaySnapshot>,
    topology_admitted: bool,
    verdict: SnapshotVerdict,
    after: SessionModel,
) -> bool {
    let local = before.topology.local;
    let limit = before.display_limit;
    match verdict {
        SnapshotVerdict::Unusable => {
            &&& local.unusable(snapshots, limit, topology_admitted)
            &&& after == before.with_topology(before.topology.in_transition())
        },
        SnapshotVerdict::Unchanged => {
            &&& local.acceptable(snapshots, limit)
            &&& local.unchanged_by(snapshots)
            &&& after == before.with_refresh(
                RefreshModel { pending: None, snapshot_deadline: None, ..before.refresh },
            )
        },
        SnapshotVerdict::Changed => {
            &&& topology_admitted
            &&& after.refresh.pending matches Some((base, outcome)) && base == local.revision
                && local.changed_map(snapshots, limit, outcome)
            &&& after == before.with_topology(before.topology.in_transition()).with_refresh(
                RefreshModel {
                    pending: after.refresh.pending,
                    snapshot_deadline: None,
                    ..before.refresh
                },
            )
        },
    }
}

/// A candidate fits the displays in effect: it follows their revision.
pub open spec fn commits(topology: PeerTopologyModel, base: u64, outcome: DisplayMapModel) -> bool {
    base == topology.local.revision && outcome.revision as int == if base == u64::MAX {
        u64::MAX as int
    } else {
        base + 1
    }
}

impl PeerSession {
    pub fn snapshot_pending(&self) -> (pending: bool)
        ensures
            pending == (self@.refresh.snapshot_deadline is Some),
    {
        self.refresh.snapshot_pending()
    }

    /// Whether a phase of the refresh has taken too long.
    pub fn refresh_late(&self, now: u64) -> (late: bool)
        ensures
            late == self@.refresh.late(now),
    {
        self.refresh.timed_out(now)
    }

    pub fn begin_snapshot(&mut self, now: u64)
        ensures
            final(self)@ == old(self)@.with_refresh(old(self)@.refresh.snapshot_begun(now)),
    {
        self.refresh.begin_snapshot(now);
    }

    /// The local displays are about to change.
    pub fn begin_local_transition(&mut self)
        ensures
            final(self)@ == old(self)@.with_topology(old(self)@.topology.in_transition()),
    {
        self.topology.begin_local_transition();
    }

    /// The topology that a snapshot of the local displays would lead to, for the
    /// display vocabulary to admit or refuse; none, if there would be no other.
    pub fn proposed_topology(&self, snapshots: &Vec<NativeDisplaySnapshot>) -> (proposed: Option<
        DisplayTopology,
    >)
        ensures
            self@.topology.local.proposes(
                snapshots@,
                self@.display_limit,
                topology_view(proposed),
            ),
    {
        self.topology.proposed_topology(snapshots.as_slice())
    }

    /// Takes a snapshot of the local displays in. Only the latest candidate is
    /// kept, and the snapshot phase ends. `topology_admitted` is the vocabulary's
    /// answer on `proposed_topology`.
    pub fn take_snapshot(
        &mut self,
        snapshots: &Vec<NativeDisplaySnapshot>,
        topology_admitted: bool,
    ) -> (verdict: SnapshotVerdict)
        ensures
            snapshot_taken(old(self)@, snapshots@, topology_admitted, verdict, final(self)@),
    {
        match self.topology.prepare_local_candidate(snapshots.as_slice(), topology_admitted) {
            Err(_) => {
                assert(self@ == old(self)@.with_topology(old(self)@.topology.in_transition()));
                SnapshotVerdict::Unusable
            },
            Ok(candidate) => {
                let changed = candidate.is_some();
                self.refresh.coalesce(candidate);
                self.refresh.finish_snapshot();
                if changed {
                    SnapshotVerdict::Changed
                } else {
                    assert(self@ == old(self)@.with_refresh(
                        RefreshModel {
                            pending: None,
                            snapshot_deadline: None,
                            ..old(self)@.refresh
                        },
                    ));
                    SnapshotVerdict::Unchanged
                }
            },
        }
    }

    /// The local displays turned out to be the same.
    pub fn finish_unchanged(&mut self) -> (proposal: Option<RouteProposal>)
        ensures
            if old(self)@.topology.local.revision > 0 {
                let topology = PeerTopologyModel {
                    local_transition_pending: false,
                    ..old(self)@.topology.unfocused()
                };
                &&& final(self)@ == old(self)@.with_topology(topology)
                &&& proposal matches Some(routes) && topology.warrants(routes@)
            } else {
                &&& proposal is None
                &&& final(self)@ == old(self)@
            },
    {
        match self.topology.finish_unchanged_local_transition() {
            Ok(proposal) => Some(proposal),
            Err(_) => {
                assert(self@ == old(self)@);
                None
            },
        }
    }

    /// Takes the candidate that waits.
    pub fn take_candidate(&mut self) -> (candidate: Option<LocalTopologyCandidate>)
        ensures
            candidate_view(candidate) == old(self)@.refresh.pending,
            final(self)@ == old(self)@.with_refresh(
                RefreshModel { pending: None, ..old(self)@.refresh },
            ),
    {
        self.refresh.take_pending()
    }

    /// Puts a candidate into effect, unless it was made for another revision
    /// than the one in effect.
    pub fn commit_candidate(&mut self, candidate: LocalTopologyCandidate) -> (topology: Option<
        DisplayTopology,
    >)
        ensures
            match topology {
                Some(published) => {
                    &&& commits(old(self)@.topology, candidate.base(), candidate.outcome())
                    &&& published@ == (TopologyModel {
                        revision: candidate.outcome().revision,
                        displays: descriptors(candidate.outcome().placed),
                    })
                    &&& final(self)@ == old(self)@.with_topology(
                        PeerTopologyModel { local: candidate.outcome(), ..old(self)@.topology },
                    )
                },
                None => {
                    &&& !commits(old(self)@.topology, candidate.base(), candidate.outcome())
                    &&& final(self)@ == old(self)@
                },
            },
    {
        match self.topology.commit_local_candidate(candidate) {
            Ok(topology) => Some(topology),
            Err(_) => {
                assert(self@ == old(self)@);
                None
            },
        }
    }

    /// The local displays are in effect and need not be published.
    pub fn mark_unpublished_ready(&mut self) -> (proposal: Option<RouteProposal>)
        ensures
            if old(self)@.topology.local.revision > 0 && old(
                self,
            )@.topology.published_local_revision is None {
                let topology = PeerTopologyModel {
                    local_transition_pending: false,
                    ..old(self)@.topology.unfocused()
                };
                &&& final(self)@ == old(self)@.with_topology(topology)
                &&& proposal matches Some(routes) && topology.warrants(routes@)
            } else {
                &&& proposal is None
                &&& final(self)@ == old(self)@
            },
    {
        match self.topology.mark_unpublished_local_ready() {
            Ok(proposal) => Some(proposal),
            Err(_) => {
                assert(self@ == old(self)@);
                None
            },
        }
    }

    /// The local displays go to the peer, who has to acknowledge them.
    pub fn record_publish(&mut self, revision: u64)
        ensures
            final(self)@ == old(self)@.with_topology(
                PeerTopologyModel {
                    published_local_revision: Some(revision),
                    ready_local_revision: None,
                    ..old(self)@.topology.in_transition()
                },
            ),
    {
        self.topology.record_local_publish(revision);
    }

    /// Once the session is initialized, an acknowledgement has a deadline.
    pub fn arm_ack_deadline(&mut self, now: u64)
        ensures
            final(self)@ == if old(self)@.topology_initialized {
                old(self)@.with_refresh(
                    RefreshModel {
                        ack_deadline: Some(later(now, TOPOLOGY_REFRESH_PHASE_TIMEOUT_MS)),
                        ..old(self)@.refresh
                    },
                )
            } else {
                old(self)@
            },
    {
        if self.topology_initialized {
            self.refresh.arm_ack_deadline(now);
        }
    }

    /// The user moved the peer to another side.
    pub fn set_placement(&mut self, placement: PeerPlacement) -> (proposal: RouteProposal)
        ensures
            ({
                let topology = PeerTopologyModel {
                    placement,
                    ..old(self)@.topology.unfocused()
                };
                &&& final(self)@ == old(self)@.with_topology(topology)
                &&& topology.warrants(proposal@)
            }),
    {
        self.topology.set_peer_placement(placement)
    }

    pub fn keep_placement(&mut self, placement: PeerPlacement)
        ensures
            final(self)@ == (SessionModel {
                config: SessionConfig { peer_placement: placement, ..old(self)@.config },
                ..old(self)@
            }),
    {
        self.config.peer_placement = placement;
    }

    pub fn local_ack_pending(&self) -> (pending: bool)
        ensures
            pending == self@.ack_pending(),
    {
        self.topology.local_ack_pending()
    }

    pub fn local_is_ready(&self) -> (ready: bool)
        ensures
            ready == self@.topology.local_ready(),
    {
        self.topology.local_is_ready()
    }

    /// The peer has acknowledged everything that was published.
    pub fn acknowledge_refresh(&mut self)
        ensures
            final(self)@ == old(self)@.with_refresh(
                RefreshModel { ack_deadline: None, ..old(self)@.refresh },
            ),
    {
        self.refresh.acknowledge();
    }

    pub fn take_injection_retry(&mut self) -> (retry: Option<PendingInjectionRetry>)
        ensures
            match retry {
                Some(kept) => old(self)@.refresh.retry == Some(
                    (kept.input, kept.remaining_effects@),
                ),
                None => old(self)@.refresh.retry is None,
            },
            final(self)@ == old(self)@.with_refresh(
                RefreshModel { retry: None, ..old(self)@.refresh },
            ),
    {
        self.refresh.take_injection_retry()
    }
}

impl SessionModel {
    /// The peer owes an acknowledgement.
    pub open spec fn ack_pending(self) -> bool {
        self.topology.published_local_revision != self.topology.ready_local_revision
    }
}

/// In one lane no sequence number is zero, and each is one above the one before
/// it, until the numbers are used up.
pub proof fn law_sequences_rise(model: SessionModel, kind: SequenceKind)
    ensures
        model.next_meta(kind).sequence != 0,
        model.sequence(kind) < u64::MAX ==> model.next_meta(kind).sequence == model.sequence(kind)
            + 1,
        model.after_meta(kind).sequence(kind) == model.next_meta(kind).sequence,
{
}

/// A storm of display changes moves no deadline: only the first change of a
/// phase counts, and once that phase is late it stays late.
pub proof fn law_deadlines_do_not_move(refresh: RefreshModel, first: u64, again: u64, now: u64)
    ensures
        refresh.snapshot_begun(first).snapshot_begun(again) == refresh.snapshot_begun(first),
        refresh.late(first) && first <= now ==> refresh.late(now),
        refresh.snapshot_begun(first).late(now) ==> refresh.snapshot_begun(first).snapshot_begun(
            again,
        ).late(now),
{
}

/// A time after now never lies before it, and lies exactly as far behind it as
/// the clock can tell.
pub proof fn law_later_is_never_earlier(now: u64, delta: u64)
    ensures
        later(now, delta) >= now,
        now + delta <= u64::MAX ==> later(now, delta) == now + delta,
        now + delta > u64::MAX ==> later(now, delta) == u64::MAX,
{
}

/// Each lane counts its own messages and no others. What is sent names this
/// session, this device, the peer's grant and the right to give input.
pub proof fn law_lanes_count_their_own_messages(
    model: SessionModel,
    kind: SequenceKind,
    other: SequenceKind,
)
    ensures
        ({
            let meta = model.next_meta(kind);
            let after = model.after_meta(kind);
            &&& meta.session_id == model.session_id
            &&& meta.origin == model.config.local_device
            &&& meta.grant_epoch == model.peer_grant_epoch
            &&& meta.capability.remote_input && !meta.capability.clipboard_read
                && !meta.capability.clipboard_write && !meta.capability.file_transfer
            &&& kind is Control ==> after.control_sequence == meta.sequence
                && after.reliable_sequence == model.reliable_sequence && after.replaceable_sequence
                == model.replaceable_sequence
            &&& kind is Reliable ==> after.reliable_sequence == meta.sequence
                && after.control_sequence == model.control_sequence && after.replaceable_sequence
                == model.replaceable_sequence
            &&& kind is Replaceable ==> after.replaceable_sequence == meta.sequence
                && after.control_sequence == model.control_sequence && after.reliable_sequence
                == model.reliable_sequence
            &&& kind is Control ==> meta.sequence == sequence_after(model.control_sequence)
            &&& kind is Reliable ==> meta.sequence == sequence_after(model.reliable_sequence)
            &&& kind is Replaceable ==> meta.sequence == sequence_after(
                model.replaceable_sequence,
            )
            &&& after == (SessionModel {
                control_sequence: after.control_sequence,
                reliable_sequence: after.reliable_sequence,
                replaceable_sequence: after.replaceable_sequence,
                ..model
            })
        }),
        other != kind ==> model.after_meta(kind).next_meta(other) == model.next_meta(other),
{
}

/// A snapshot of the displays has five seconds from when it was first waited
/// for, and so has an acknowledgement: the refresh is late once either is over.
pub proof fn law_refresh_phases_take_five_seconds(refresh: RefreshModel, now: u64, then: u64)
    ensures
        ({
            let begun = refresh.snapshot_begun(now);
            &&& refresh.snapshot_deadline is None ==> (begun.snapshot_deadline matches Some(
                deadline,
            ) && (deadline == now + 5_000 || now + 5_000 > u64::MAX && deadline == u64::MAX))
            &&& refresh.snapshot_deadline is Some ==> begun.snapshot_deadline
                == refresh.snapshot_deadline
            &&& begun.ack_deadline == refresh.ack_deadline
            &&& begun.pending == refresh.pending
            &&& begun.retry == refresh.retry
        }),
        refresh.snapshot_deadline matches Some(deadline) ==> (deadline <= then ==> refresh.late(
            then,
        )),
        refresh.ack_deadline matches Some(deadline) ==> (deadline <= then ==> refresh.late(then)),
        (refresh.snapshot_deadline matches Some(deadline) ==> then < deadline) && (
        refresh.ack_deadline matches Some(deadline) ==> then < deadline) ==> !refresh.late(then),
{
}

/// A failure that is latched stays known and keeps the session occupied; nothing
/// else changes. Giving up the routes to the peer forgets where its pointer was.
pub proof fn law_session_marks_touch_nothing_else(model: SessionModel, to_peer: bool)
    ensures
        model.latched().failure_latched,
        model.latched().operation_active,
        model.latched() == (SessionModel {
            failure_latched: true,
            operation_active: true,
            ..model
        }),
        model.with_routing(to_peer).routing_to_peer == to_peer,
        model.with_routing(to_peer) == (SessionModel { routing_to_peer: to_peer, ..model }),
        !model.unrouted().routing_to_peer,
        model.unrouted().topology.active_route is None,
        model.unrouted().topology.pending_target is None,
        model.unrouted().topology.routes == model.topology.routes,
        model.unrouted().topology.local == model.topology.local,
        model.unrouted().topology.remote == model.topology.remote,
        model.unrouted() == (SessionModel {
            routing_to_peer: false,
            topology: model.unrouted().topology,
            ..model
        }),
{
}

/// Input is for this machine as it came; only the display of a place is named as
/// this machine names it. A place is for no display here exactly if none bears
/// its number.
pub proof fn law_places_are_renamed_only(
    topology: PeerTopologyModel,
    input: InputEvent,
    native: InputEvent,
    at: int,
)
    ensures
        !(input is PointerMotion) ==> (resolves(topology, input, native) <==> native == input),
        !(input is PointerMotion) ==> !unresolvable(topology, input),
        resolves(topology, input, native) && input is PointerMotion ==> (native matches
            InputEvent::PointerMotion { position } && position.x == input->position.x && position.y
            == input->position.y),
        input is PointerMotion && 0 <= at < topology.local.placed.len()
            && topology.local.placed[at].descriptor.id == input->position.display ==> !unresolvable(
            topology,
            input,
        ),
        input is PointerMotion && topology.local.placed.len() == 0 ==> unresolvable(
            topology,
            input,
        ),
{
}

/// A snapshot that shows nothing new ends the wait for it and touches nothing
/// else. One that shows something else, or that is of no use, puts the routes
/// away until the change is settled.
pub proof fn law_changed_displays_put_routes_away(
    before: SessionModel,
    snapshots: Seq<NativeDisplaySnapshot>,
    topology_admitted: bool,
    verdict: SnapshotVerdict,
    after: SessionModel,
)
    requires
        snapshot_taken(before, snapshots, topology_admitted, verdict, after),
    ensures
        verdict is Unchanged ==> {
            &&& after.topology == before.topology
            &&& after.refresh.pending is None
            &&& after.refresh.snapshot_deadline is None
        },
        !(verdict is Unchanged) ==> {
            &&& after.topology.local_transition_pending
            &&& after.topology.routes.len() == 0
            &&& after.topology.active_route is None
            &&& after.topology.pending_target is None
            &&& after.topology.local == before.topology.local
            &&& after.topology.remote == before.topology.remote
            &&& after.topology.staged_remote == before.topology.staged_remote
            &&& after.topology.published_local_revision == before.topology.published_local_revision
            &&& after.topology.ready_local_revision == before.topology.ready_local_revision
        },
        verdict is Unusable ==> after.refresh == before.refresh,
        verdict is Changed ==> {
            &&& topology_admitted
            &&& after.refresh.snapshot_deadline is None
            &&& after.refresh.pending matches Some((base, _)) && base
                == before.topology.local.revision
        },
        after.refresh.retry == before.refresh.retry,
        after.refresh.ack_deadline == before.refresh.ack_deadline,
        after == (SessionModel { topology: after.topology, refresh: after.refresh, ..before }),
{
}

/// New displays come into force only over the displays that they were made for,
/// and their revision follows, while there is one that follows.
pub proof fn law_revisions_follow_each_other(
    topology: PeerTopologyModel,
    base: u64,
    outcome: DisplayMapModel,
)
    ensures
        commits(topology, base, outcome) ==> topology.local.revision == base,
        commits(topology, base, outcome) && base < u64::MAX ==> outcome.revision == base + 1,
        base == topology.local.revision && base < u64::MAX && outcome.revision == base + 1
            ==> commits(topology, base, outcome),
        base == u64::MAX ==> (commits(topology, base, outcome) <==> topology.local.revision
            == u64::MAX && outcome.revision == u64::MAX),
{
}

/// The peer owes an acknowledgement from when displays were published until it
/// said that these are ready.
pub proof fn law_published_displays_are_acknowledged(model: SessionModel)
    ensures
        model.topology.published_local_revision is None && model.topology.ready_local_revision
            is None ==> !model.ack_pending(),
        model.topology.published_local_revision matches Some(published) ==> (!model.ack_pending()
            <==> (model.topology.ready_local_revision matches Some(ready) && ready == published)),
{
}

/// Motion that could not be injected is kept to be tried again, one at a time,
/// with all that was to follow it, and is taken once.
pub proof fn law_one_injection_is_tried_again(
    session: &mut PeerSession,
    input: InputEvent,
    remaining: Vec<Effect>,
    queued: bool,
    later: &mut PeerSession,
    retry: Option<PendingInjectionRetry>,
)
    requires
        call_ensures(PeerSession::queue_injection_retry, (session, input, remaining), queued),
        call_ensures(PeerSession::take_injection_retry, (later,), retry),
    ensures
        queued <==> input is PointerMotion && old(session)@.refresh.retry is None,
        queued ==> final(session)@.refresh.retry == Some((input, remaining@)),
        !queued ==> final(session)@ == old(session)@,
        retry is Some <==> old(later)@.refresh.retry is Some,
        retry matches Some(kept) ==> old(later)@.refresh.retry == Some(
            (kept.input, kept.remaining_effects@),
        ),
        final(later)@.refresh.retry is None,
{
}

/// An acknowledgement is waited for only once the first exchange is over, and
/// never past its deadline.
pub proof fn law_acknowledgements_have_a_deadline(session: &mut PeerSession, now: u64)
    requires
        call_ensures(PeerSession::arm_ack_deadline, (session, now), ()),
    ensures
        !old(session)@.topology_initialized ==> final(session)@ == old(session)@,
        old(session)@.topology_initialized ==> (final(session)@.refresh.ack_deadline matches Some(
            deadline,
        ) && now <= deadline && (deadline == now + TOPOLOGY_REFRESH_PHASE_TIMEOUT_MS || deadline
            == u64::MAX)),
        final(session)@.topology == old(session)@.topology,
{
}

/// What this device shows of itself is ready only under the revision that it
/// published, and what the peer shows is taken only under the revision that
/// was accepted.
pub proof fn law_revisions_are_taken_by_name(
    session: &mut PeerSession,
    other: &mut PeerSession,
    revision: u64,
    ready: Option<RouteProposal>,
    taken: Option<RouteProposal>,
)
    requires
        call_ensures(PeerSession::mark_local_ready, (session, revision), ready),
        call_ensures(PeerSession::commit_remote, (other, revision), taken),
    ensures
        ready is Some <==> old(session)@.topology.published_local_revision == Some(revision),
        ready is Some ==> final(session)@.topology.ready_local_revision == Some(revision),
        ready is None ==> final(session)@ == old(session)@,
        taken is Some <==> (old(other)@.topology.staged_remote matches Some(staged)
            && staged.revision == revision),
        taken is Some ==> final(other)@.topology.remote == old(other)@.topology.staged_remote,
        taken is None ==> final(other)@.topology.remote == old(other)@.topology.remote,
        final(other)@.topology.staged_remote is None,
{
}

/// Placing the peer elsewhere ends the crossing that was under way.
pub proof fn law_placing_ends_the_crossing(
    session: &mut PeerSession,
    placement: PeerPlacement,
    proposal: RouteProposal,
)
    requires
        call_ensures(PeerSession::set_placement, (session, placement), proposal),
    ensures
        final(session)@.topology.placement == placement,
        final(session)@.topology.active_route is None,
        final(session)@.topology.pending_target is None,
        final(session)@.topology.local == old(session)@.topology.local,
        final(session)@.topology.remote == old(session)@.topology.remote,
{
}

} // verus!
