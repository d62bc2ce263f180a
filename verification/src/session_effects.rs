//! Carrying out what the session reducer asks for, one effect at a time.
//!
//! The order of the effects is the order of the actions. Each action is
//! performed outside; its outcome decides how the run goes on.

use vstd::prelude::*;
use crate::input::{
    encode_event,
    encode_pointer_enter,
    encode_release_all,
    is_replaceable,
    payload_of,
    InputEvent,
    InputMessage,
    InputPayload,
};
use crate::routes::EdgeRoute;
use crate::session_core::{effects_rejected, DisconnectReason, Effect};
use crate::session_model::{
    resolves,
    unresolvable,
    CoreView,
    PeerSession,
    RefreshModel,
    SequenceKind,
    SessionModel,
    MAX_LEASE_TTL_MS,
};
use crate::session_safety::SessionRuntimeError;
use crate::session_wire::{CloseReason, ControlMessage, DatagramAvailability, InputRoute};
use crate::topology_runtime::{PeerTopologyModel, RouteProposal};
use crate::transfer_worker::TransferStopMode;

verus! {

/// What has to be done outside.
#[allow(inconsistent_fields)]
#[derive(Debug, PartialEq, Eq)]
pub enum SessionAction {
    SetRouting { to_peer: bool },
    RestoreLocalOwnership,
    SendControl { message: ControlMessage },
    SendInput { route: InputRoute, message: InputMessage },
    Inject { input: InputEvent },
    ReleaseInjected { releases: Vec<InputEvent> },
    /// Tell the peer first, if there is something to tell; then close.
    Disconnect { announcement: Option<ControlMessage>, reason: CloseReason },
    /// Offer the run's proposed routes to the edge observer.
    ArmRoutes,
    StopContent { mode: TransferStopMode },
}

/// What became of an action.
#[derive(Clone, Copy, Debug, PartialEq, Eq, Structural)]
pub enum ActionOutcome {
    Done,
    Failed(SessionRuntimeError),
    /// The displays are changing; the platform wants a new snapshot first.
    SnapshotPending,
}

/// How a run goes on.
#[derive(Debug, PartialEq, Eq)]
pub enum RunStep {
    /// Perform this, then report with `performed`.
    Perform(SessionAction),
    /// Nothing had to be performed.
    Continue,
    Finished(Result<(), SessionRuntimeError>),
}

#[derive(Clone, Copy, Debug)]
pub enum RunPhase {
    Start,
    Routing { to_peer: bool },
    /// Routing failed: ownership has to be restored.
    RoutingFailed,
    RoutingFallback,
    Effects,
    Sending,
    /// What comes back does not matter.
    BestEffort,
    Injecting { input: InputEvent },
    Releasing,
    Restoring,
    Arming,
    Ended(Result<(), SessionRuntimeError>),
}

pub struct RunModel {
    pub phase: RunPhase,
    pub rest: Seq<Effect>,
    /// Releases that are still to be routed to the peer.
    pub routed: Seq<InputEvent>,
    pub routed_lease: u64,
    pub deferred_failure: bool,
    pub proposal: Option<Seq<EdgeRoute>>,
}

/// One run through the effects of an event.
pub struct EffectRun {
    phase: RunPhase,
    rest: Vec<Effect>,
    routed: Vec<InputEvent>,
    routed_lease: u64,
    deferred_failure: bool,
    proposal: Option<RouteProposal>,
}

impl View for EffectRun {
    type V = RunModel;

    closed spec fn view(&self) -> RunModel {
        RunModel {
            phase: self.phase,
            rest: self.rest@,
            routed: self.routed@,
            routed_lease: self.routed_lease,
            deferred_failure: self.deferred_failure,
            proposal: match self.proposal {
                Some(proposal) => Some(proposal@),
                None => None,
            },
        }
    }
}

/// The lifetime that is sent for a lease: at least one millisecond, at most the
/// longest that a lease may have.
pub open spec fn lease_ttl(expires_at: u64, now: u64) -> u32 {
    if expires_at <= now {
        1
    } else if expires_at - now > MAX_LEASE_TTL_MS {
        MAX_LEASE_TTL_MS
    } else {
        (expires_at - now) as u32
    }
}

pub fn lease_ttl_ms(expires_at: u64, now: u64) -> (ttl: u32)
    ensures
        ttl == lease_ttl(expires_at, now),
        1 <= ttl <= MAX_LEASE_TTL_MS,
{
    if expires_at <= now {
        return 1;
    }
    let left: u64 = expires_at - now;
    if left > MAX_LEASE_TTL_MS as u64 {
        MAX_LEASE_TTL_MS
    } else {
        left as u32
    }
}

/// The reason that the transport is closed with.
pub open spec fn close_reason_of(reason: DisconnectReason) -> CloseReason {
    match reason {
        DisconnectReason::EmergencyStop
        | DisconnectReason::LocalLocked
        | DisconnectReason::LocalSleeping => CloseReason::EmergencyDisconnect,
        DisconnectReason::LinkLost => CloseReason::TransportFailure,
        DisconnectReason::RequestedReconnect | DisconnectReason::FocusLeaseExpired => {
            CloseReason::Requested
        },
    }
}

pub fn close_reason(reason: DisconnectReason) -> (close: CloseReason)
    ensures
        close == close_reason_of(reason),
{
    match reason {
        DisconnectReason::EmergencyStop
        | DisconnectReason::LocalLocked
        | DisconnectReason::LocalSleeping => CloseReason::EmergencyDisconnect,
        DisconnectReason::LinkLost => CloseReason::TransportFailure,
        DisconnectReason::RequestedReconnect | DisconnectReason::FocusLeaseExpired => {
            CloseReason::Requested
        },
    }
}

/// The lane of an input event.
pub open spec fn lane_of(input: InputEvent) -> SequenceKind {
    if input is PointerMotion || input is PointerDelta || input is Scroll {
        SequenceKind::Replaceable
    } else {
        SequenceKind::Reliable
    }
}

impl SessionModel {
    /// Where input goes: what may be replaced by later input as a datagram or,
    /// without datagrams, over its own channel; the rest reliably.
    pub open spec fn input_route(self, input: InputEvent) -> Option<InputRoute> {
        if lane_of(input) == SequenceKind::Reliable {
            Some(InputRoute::Channel(self.channels.reliable_input))
        } else if self.channels.datagrams == DatagramAvailability::Available {
            Some(InputRoute::Datagram)
        } else {
            match self.channels.pointer_fallback {
                Some(channel) => Some(InputRoute::Channel(channel)),
                None => None,
            }
        }
    }

    /// The action that sends input, if it can be sent.
    pub open spec fn input_action(self, lease_id: u64, input: InputEvent) -> Option<
        SessionAction,
    > {
        match (payload_of(input), self.input_route(input)) {
            (Some(payload), Some(route)) => Some(
                SessionAction::SendInput {
                    route,
                    message: InputMessage {
                        meta: self.next_meta(lane_of(input)),
                        lease_id,
                        payload,
                    },
                },
            ),
            _ => None,
        }
    }
}

impl PeerSession {
    /// Makes the message for input, and says where it goes.
    pub fn route_input(&mut self, lease_id: u64, input: InputEvent) -> (sent: Result<
        (InputRoute, InputMessage),
        SessionRuntimeError,
    >)
        ensures
            final(self)@ == old(self)@.after_meta(lane_of(input)),
            match old(self)@.input_action(lease_id, input) {
                Some(SessionAction::SendInput { route, message }) => sent == Ok::<
                    _,
                    SessionRuntimeError,
                >((route, message)),
                _ => sent == Err::<(InputRoute, InputMessage), _>(
                    SessionRuntimeError::ProtocolViolation,
                ),
            },
    {
        let replaceable = is_replaceable(input);
        let meta = self.next_meta(
            if replaceable {
                SequenceKind::Replaceable
            } else {
                SequenceKind::Reliable
            },
        );
        let message = match encode_event(input, meta, lease_id) {
            Ok(message) => message,
            Err(_) => {
                return Err(SessionRuntimeError::ProtocolViolation);
            },
        };
        if !replaceable {
            return Ok((InputRoute::Channel(self.channels().reliable_input), message));
        }
        if self.channels().datagrams == DatagramAvailability::Available {
            return Ok((InputRoute::Datagram, message));
        }
        match self.channels().pointer_fallback {
            Some(channel) => Ok((InputRoute::Channel(channel), message)),
            None => Err(SessionRuntimeError::ProtocolViolation),
        }
    }
}


/// The control message that an effect sends, if it sends one.
pub open spec fn control_for(
    effect: Effect,
    session: SessionModel,
    core: CoreView,
    now: u64,
) -> Option<ControlMessage> {
    let meta = session.next_meta(SequenceKind::Control);
    match effect {
        Effect::RequestRemoteFocus { lease_id, expires_at, pointer_enter_required } => Some(
            ControlMessage::FocusLeaseRequest {
                meta,
                lease_id,
                ttl_ms: lease_ttl(expires_at, now),
                pointer_enter_required,
            },
        ),
        Effect::RenewRemoteFocus { lease_id, expires_at } => Some(
            ControlMessage::FocusLeaseRequest {
                meta,
                lease_id,
                ttl_ms: lease_ttl(expires_at, now),
                pointer_enter_required: core.outbound_pointer_enter_required,
            },
        ),
        Effect::GrantRemoteFocus { lease_id, expires_at, pointer_enter_required } => Some(
            ControlMessage::FocusLeaseGrant {
                meta,
                lease_id,
                ttl_ms: lease_ttl(expires_at, now),
                pointer_enter_required,
            },
        ),
        Effect::ReleaseRemoteFocus { lease_id } => Some(
            ControlMessage::FocusLeaseRelease { meta, lease_id },
        ),
        Effect::AcknowledgePointerEnter { lease_id } => Some(
            ControlMessage::PointerEnterAck { meta, lease_id },
        ),
        Effect::AcknowledgeRemoteTopology { revision } => Some(
            ControlMessage::DisplayTopologyAck { meta, revision },
        ),
        _ => None,
    }
}

impl RunModel {
    pub open spec fn at(self, phase: RunPhase) -> RunModel {
        RunModel { phase, ..self }
    }

    pub open spec fn popped(self) -> RunModel {
        RunModel { rest: self.rest.skip(1), ..self }
    }

    pub open spec fn ended(self, result: Result<(), SessionRuntimeError>) -> RunModel {
        self.at(RunPhase::Ended(result))
    }
}

/// A run that ends because the protocol was violated.
pub open spec fn violates(run: RunModel, after: RunModel, step: RunStep) -> bool {
    &&& step == RunStep::Continue
    &&& after == run.ended(Err(SessionRuntimeError::ProtocolViolation))
}

/// What the first of the remaining effects leads to.
pub open spec fn effect_taken(
    run: RunModel,
    session: SessionModel,
    core: CoreView,
    now: u64,
    step: RunStep,
    after: RunModel,
    session_after: SessionModel,
) -> bool {
    let popped = run.popped();
    match run.rest[0] {
        Effect::SendInput { lease_id, input } => {
            &&& session_after == session.after_meta(lane_of(input))
            &&& match session.input_action(lease_id, input) {
                Some(action) => {
                    &&& step == RunStep::Perform(action)
                    &&& after == popped.at(RunPhase::Sending)
                },
                None => violates(popped, after, step),
            }
        },
        Effect::SendPointerEnter { lease_id, position } => {
            &&& session_after == session.after_meta(SequenceKind::Reliable)
            &&& if position.display > u32::MAX {
                violates(popped, after, step)
            } else {
                &&& after == popped.at(RunPhase::Sending)
                &&& step == RunStep::Perform(
                    SessionAction::SendInput {
                        route: InputRoute::Channel(session.channels.reliable_input),
                        message: InputMessage {
                            meta: session.next_meta(SequenceKind::Reliable),
                            lease_id,
                            payload: InputPayload::PointerEnter {
                                display_id: position.display as u32,
                                x: (position.x * 65537) as u32,
                                y: (position.y * 65537) as u32,
                            },
                        },
                    },
                )
            }
        },
        Effect::SendReleaseAll { lease_id } => {
            &&& session_after == session.after_meta(SequenceKind::Reliable)
            &&& after == popped.at(RunPhase::Sending)
            &&& step == RunStep::Perform(
                SessionAction::SendInput {
                    route: InputRoute::Channel(session.channels.reliable_input),
                    message: InputMessage {
                        meta: session.next_meta(SequenceKind::Reliable),
                        lease_id,
                        payload: InputPayload::ReleaseAll,
                    },
                },
            )
        },
        Effect::InjectInput { input } => {
            &&& session_after == session
            &&& match step {
                RunStep::Perform(SessionAction::Inject { input: native }) => {
                    &&& resolves(session.topology, input, native)
                    &&& after == popped.at(RunPhase::Injecting { input })
                },
                _ => unresolvable(session.topology, input) && violates(popped, after, step),
            }
        },
        Effect::ReleaseInjectedInput { releases } => {
            &&& session_after == session
            &&& step == RunStep::Perform(SessionAction::ReleaseInjected { releases })
            &&& after == popped.at(RunPhase::Releasing)
        },
        Effect::ReleaseRoutedInput { lease_id, releases } => {
            &&& session_after == session
            &&& step == RunStep::Continue
            &&& after == (RunModel { routed: releases@, routed_lease: lease_id, ..popped })
        },
        Effect::RestoreLocalOwnership => {
            &&& session_after == session
            &&& step == RunStep::Perform(SessionAction::RestoreLocalOwnership)
            &&& after == popped.at(RunPhase::Restoring)
        },
        Effect::Disconnect { reason } => {
            &&& session_after == session
            &&& after == popped.at(RunPhase::BestEffort)
            &&& step == RunStep::Perform(
                SessionAction::Disconnect {
                    announcement: if close_reason_of(reason) == CloseReason::EmergencyDisconnect {
                        Some(
                            ControlMessage::EmergencyDisconnect { session_id: session.session_id },
                        )
                    } else {
                        None
                    },
                    reason: close_reason_of(reason),
                },
            )
        },
        Effect::AcceptRemoteTopology { revision } => {
            if session.topology.staged_remote matches Some(staged) && staged.revision == revision {
                let topology = PeerTopologyModel {
                    staged_remote: None,
                    remote: session.topology.staged_remote,
                    ..session.topology.unfocused()
                };
                &&& session_after == session.with_topology(topology)
                &&& arms(popped, after, topology, step)
            } else {
                &&& session_after == session.with_topology(
                    PeerTopologyModel { staged_remote: None, ..session.topology },
                )
                &&& violates(popped, after, step)
            }
        },
        Effect::LocalTopologyReady { revision } => {
            if session.topology.published_local_revision == Some(revision) {
                let topology = PeerTopologyModel {
                    ready_local_revision: Some(revision),
                    local_transition_pending: false,
                    ..session.topology.unfocused()
                };
                &&& session_after == session.with_topology(topology)
                &&& arms(popped, after, topology, step)
            } else {
                &&& session_after == session
                &&& violates(popped, after, step)
            }
        },
        Effect::ArmFocusLease | Effect::CancelFocusLease => {
            &&& session_after == session
            &&& step == RunStep::Continue
            &&& after == popped
        },
        Effect::SuspendContentOperations => {
            &&& session_after == session
            &&& step == RunStep::Perform(
                SessionAction::StopContent { mode: TransferStopMode::Suspend },
            )
            &&& after == popped.at(RunPhase::BestEffort)
        },
        Effect::AbortContentOperations => {
            &&& session_after == session
            &&& step == RunStep::Perform(
                SessionAction::StopContent { mode: TransferStopMode::AbortAll },
            )
            &&& after == popped.at(RunPhase::BestEffort)
        },
        Effect::Rejected => {
            &&& session_after == session
            &&& violates(popped, after, step)
        },
        _ => {
            &&& session_after == session.after_meta(SequenceKind::Control)
            &&& after == popped.at(RunPhase::Sending)
            &&& step == RunStep::Perform(
                SessionAction::SendControl {
                    message: control_for(run.rest[0], session, core, now)->Some_0,
                },
            )
        },
    }
}

/// Routes that the new topology warrants are offered to the edge observer.
pub open spec fn arms(
    run: RunModel,
    after: RunModel,
    topology: PeerTopologyModel,
    step: RunStep,
) -> bool {
    &&& step == RunStep::Perform(SessionAction::ArmRoutes)
    &&& after.proposal matches Some(routes) && topology.warrants(routes)
    &&& after == (RunModel { proposal: after.proposal, ..run.at(RunPhase::Arming) })
}

impl EffectRun {
    /// Starts a run.
    pub fn new(effects: Vec<Effect>) -> (run: EffectRun)
        ensures
            run@ == (RunModel {
                phase: RunPhase::Start,
                rest: effects@,
                routed: seq![],
                routed_lease: 0,
                deferred_failure: false,
                proposal: None,
            }),
    {
        let run = EffectRun {
            phase: RunPhase::Start,
            rest: effects,
            routed: Vec::new(),
            routed_lease: 0,
            deferred_failure: false,
            proposal: None,
        };
        assert(run@.routed =~= seq![]);
        run
    }

    /// A refused event does nothing but fail: with `FocusRejected` where this
    /// side made it.
    pub fn local(effects: Vec<Effect>) -> (run: Result<EffectRun, SessionRuntimeError>)
        ensures
            match run {
                Err(error) => error == SessionRuntimeError::FocusRejected && exists|i: int|
                    0 <= i < effects@.len() && #[trigger] effects@[i] is Rejected,
                Ok(started) => {
                    &&& forall|i: int|
                        0 <= i < effects@.len() ==> !(#[trigger] effects@[i] is Rejected)
                    &&& started@ == (RunModel {
                        phase: RunPhase::Start,
                        rest: effects@,
                        routed: seq![],
                        routed_lease: 0,
                        deferred_failure: false,
                        proposal: None,
                    })
                },
            },
    {
        if effects_rejected(&effects) {
            return Err(SessionRuntimeError::FocusRejected);
        }
        Ok(EffectRun::new(effects))
    }

    /// The routes that wait for the edge observer.
    pub fn proposed_routes(&self) -> (routes: Option<&Vec<EdgeRoute>>)
        ensures
            match routes {
                Some(known) => self@.proposal == Some(known@),
                None => self@.proposal is None,
            },
    {
        match &self.proposal {
            Some(proposal) => Some(proposal.routes()),
            None => None,
        }
    }

    /// Says what to do next. Before the first effect, routing follows what the
    /// reducer says. While an action is under way nothing happens.
    pub fn next(&mut self, session: &mut PeerSession, core: &CoreView, now: u64) -> (step: RunStep)
        ensures
            match old(self)@.phase {
                RunPhase::Start => {
                    &&& final(session)@ == old(session)@
                    &&& if core.local_pointer_routing_ready != old(session)@.routing_to_peer {
                        &&& step == RunStep::Perform(
                            SessionAction::SetRouting {
                                to_peer: core.local_pointer_routing_ready,
                            },
                        )
                        &&& final(self)@ == old(self)@.at(
                            RunPhase::Routing { to_peer: core.local_pointer_routing_ready },
                        )
                    } else {
                        &&& step == RunStep::Continue
                        &&& final(self)@ == old(self)@.at(RunPhase::Effects)
                    }
                },
                RunPhase::RoutingFailed => {
                    &&& final(session)@ == old(session)@
                    &&& step == RunStep::Perform(SessionAction::RestoreLocalOwnership)
                    &&& final(self)@ == old(self)@.at(RunPhase::RoutingFallback)
                },
                RunPhase::Ended(result) => {
                    &&& final(session)@ == old(session)@
                    &&& step == RunStep::Finished(result)
                    &&& final(self)@ == old(self)@
                },
                RunPhase::Effects => if old(self)@.routed.len() > 0 {
                    let input = old(self)@.routed[0];
                    let remaining = RunModel { routed: old(self)@.routed.skip(1), ..old(self)@ };
                    &&& final(session)@ == old(session)@.after_meta(lane_of(input))
                    &&& match old(session)@.input_action(old(self)@.routed_lease, input) {
                        Some(action) => {
                            &&& step == RunStep::Perform(action)
                            &&& final(self)@ == remaining.at(RunPhase::BestEffort)
                        },
                        None => {
                            &&& step == RunStep::Continue
                            &&& final(self)@ == remaining
                        },
                    }
                } else if old(self)@.rest.len() == 0 {
                    &&& final(session)@ == old(session)@
                    &&& step == RunStep::Continue
                    &&& final(self)@ == old(self)@.ended(
                        if old(self)@.deferred_failure {
                            Err(SessionRuntimeError::Platform)
                        } else {
                            Ok(())
                        },
                    )
                } else {
                    effect_taken(
                        old(self)@,
                        old(session)@,
                        *core,
                        now,
                        step,
                        final(self)@,
                        final(session)@,
                    )
                },
                _ => {
                    &&& final(session)@ == old(session)@
                    &&& step == RunStep::Continue
                    &&& final(self)@ == old(self)@
                },
            },
    {
        match self.phase {
            RunPhase::Start => {
                let to_peer = core.local_pointer_routing_ready;
                if to_peer != session.routes_to_peer() {
                    self.phase = RunPhase::Routing { to_peer };
                    return RunStep::Perform(SessionAction::SetRouting { to_peer });
                }
                self.phase = RunPhase::Effects;
                RunStep::Continue
            },
            RunPhase::RoutingFailed => {
                self.phase = RunPhase::RoutingFallback;
                RunStep::Perform(SessionAction::RestoreLocalOwnership)
            },
            RunPhase::Ended(result) => RunStep::Finished(result),
            RunPhase::Effects => {
                if self.routed.len() > 0 {
                    let input = self.routed.remove(0);
                    assert(self.routed@ =~= old(self)@.routed.skip(1));
                    return match session.route_input(self.routed_lease, input) {
                        Ok((route, message)) => {
                            self.phase = RunPhase::BestEffort;
                            RunStep::Perform(SessionAction::SendInput { route, message })
                        },
                        Err(_) => RunStep::Continue,
                    };
                }
                if self.rest.len() == 0 {
                    self.phase = RunPhase::Ended(
                        if self.deferred_failure {
                            Err(SessionRuntimeError::Platform)
                        } else {
                            Ok(())
                        },
                    );
                    return RunStep::Continue;
                }
                self.take_effect(session, core, now)
            },
            _ => RunStep::Continue,
        }
    }

    fn take_effect(&mut self, session: &mut PeerSession, core: &CoreView, now: u64) -> (step:
        RunStep)
        requires
            old(self)@.phase == RunPhase::Effects,
            old(self)@.rest.len() > 0,
        ensures
            effect_taken(
                old(self)@,
                old(session)@,
                *core,
                now,
                step,
                final(self)@,
                final(session)@,
            ),
    {
        let effect = self.rest.remove(0);
        assert(self@ == old(self)@.popped());
        match effect {
            Effect::RequestRemoteFocus { lease_id, expires_at, pointer_enter_required } => {
                let ttl_ms: u32 = lease_ttl_ms(expires_at, now);
                let meta = session.next_meta(SequenceKind::Control);
                self.send_control(
                    ControlMessage::FocusLeaseRequest {
                        meta,
                        lease_id,
                        ttl_ms,
                        pointer_enter_required,
                    },
                )
            },
            Effect::RenewRemoteFocus { lease_id, expires_at } => {
                let ttl_ms: u32 = lease_ttl_ms(expires_at, now);
                let meta = session.next_meta(SequenceKind::Control);
                self.send_control(
                    ControlMessage::FocusLeaseRequest {
                        meta,
                        lease_id,
                        ttl_ms,
                        pointer_enter_required: core.outbound_pointer_enter_required,
                    },
                )
            },
            Effect::GrantRemoteFocus { lease_id, expires_at, pointer_enter_required } => {
                let ttl_ms: u32 = lease_ttl_ms(expires_at, now);
                let meta = session.next_meta(SequenceKind::Control);
                self.send_control(
                    ControlMessage::FocusLeaseGrant {
                        meta,
                        lease_id,
                        ttl_ms,
                        pointer_enter_required,
                    },
                )
            },
            Effect::ReleaseRemoteFocus { lease_id } => {
                let meta = session.next_meta(SequenceKind::Control);
                self.send_control(ControlMessage::FocusLeaseRelease { meta, lease_id })
            },
            Effect::AcknowledgePointerEnter { lease_id } => {
                let meta = session.next_meta(SequenceKind::Control);
                self.send_control(ControlMessage::PointerEnterAck { meta, lease_id })
            },
            Effect::AcknowledgeRemoteTopology { revision } => {
                let meta = session.next_meta(SequenceKind::Control);
                self.send_control(ControlMessage::DisplayTopologyAck { meta, revision })
            },
            Effect::SendInput { lease_id, input } => match session.route_input(lease_id, input) {
                Ok((route, message)) => self.send_input(route, message),
                Err(_) => self.violated(),
            },
            Effect::SendPointerEnter { lease_id, position } => {
                let meta = session.next_meta(SequenceKind::Reliable);
                match encode_pointer_enter(position, meta, lease_id) {
                    Ok(message) => self.send_input(
                        InputRoute::Channel(session.channels().reliable_input),
                        message,
                    ),
                    Err(_) => self.violated(),
                }
            },
            Effect::SendReleaseAll { lease_id } => {
                let meta = session.next_meta(SequenceKind::Reliable);
                self.send_input(
                    InputRoute::Channel(session.channels().reliable_input),
                    encode_release_all(meta, lease_id),
                )
            },
            Effect::InjectInput { input } => match session.resolve_incoming(input) {
                Some(native) => {
                    self.phase = RunPhase::Injecting { input };
                    RunStep::Perform(SessionAction::Inject { input: native })
                },
                None => self.violated(),
            },
            Effect::ReleaseInjectedInput { releases } => {
                self.phase = RunPhase::Releasing;
                RunStep::Perform(SessionAction::ReleaseInjected { releases })
            },
            Effect::ReleaseRoutedInput { lease_id, releases } => {
                self.routed = releases;
                self.routed_lease = lease_id;
                RunStep::Continue
            },
            Effect::RestoreLocalOwnership => {
                self.phase = RunPhase::Restoring;
                RunStep::Perform(SessionAction::RestoreLocalOwnership)
            },
            Effect::Disconnect { reason } => {
                self.phase = RunPhase::BestEffort;
                let close = close_reason(reason);
                let announcement = if close == CloseReason::EmergencyDisconnect {
                    Some(ControlMessage::EmergencyDisconnect { session_id: session.session_id() })
                } else {
                    None
                };
                RunStep::Perform(SessionAction::Disconnect { announcement, reason: close })
            },
            Effect::AcceptRemoteTopology { revision } => {
                let proposal = session.commit_remote(revision);
                self.arm(proposal)
            },
            Effect::LocalTopologyReady { revision } => {
                let proposal = session.mark_local_ready(revision);
                self.arm(proposal)
            },
            Effect::ArmFocusLease | Effect::CancelFocusLease => RunStep::Continue,
            Effect::SuspendContentOperations => {
                self.phase = RunPhase::BestEffort;
                RunStep::Perform(SessionAction::StopContent { mode: TransferStopMode::Suspend })
            },
            Effect::AbortContentOperations => {
                self.phase = RunPhase::BestEffort;
                RunStep::Perform(SessionAction::StopContent { mode: TransferStopMode::AbortAll })
            },
            Effect::Rejected => self.violated(),
        }
    }

    /// Offers routes to the edge observer; without any the run has gone wrong.
    fn arm(&mut self, proposal: Option<RouteProposal>) -> (step: RunStep)
        ensures
            match proposal {
                None => violates(old(self)@, final(self)@, step),
                Some(routes) => {
                    &&& step == RunStep::Perform(SessionAction::ArmRoutes)
                    &&& final(self)@ == (RunModel {
                        proposal: Some(routes@),
                        ..old(self)@.at(RunPhase::Arming)
                    })
                },
            },
    {
        match proposal {
            None => self.violated(),
            Some(routes) => {
                self.proposal = Some(routes);
                self.phase = RunPhase::Arming;
                RunStep::Perform(SessionAction::ArmRoutes)
            },
        }
    }

    fn violated(&mut self) -> (step: RunStep)
        ensures
            violates(old(self)@, final(self)@, step),
    {
        self.phase = RunPhase::Ended(Err(SessionRuntimeError::ProtocolViolation));
        RunStep::Continue
    }

    fn send_control(&mut self, message: ControlMessage) -> (step: RunStep)
        ensures
            step == RunStep::Perform(SessionAction::SendControl { message }),
            final(self)@ == old(self)@.at(RunPhase::Sending),
    {
        self.phase = RunPhase::Sending;
        RunStep::Perform(SessionAction::SendControl { message })
    }

    fn send_input(&mut self, route: InputRoute, message: InputMessage) -> (step: RunStep)
        ensures
            step == RunStep::Perform(SessionAction::SendInput { route, message }),
            final(self)@ == old(self)@.at(RunPhase::Sending),
    {
        self.phase = RunPhase::Sending;
        RunStep::Perform(SessionAction::SendInput { route, message })
    }

    /// Takes in what became of the action. A failure to release or to restore
    /// is latched at once and ends the run only after the remaining effects.
    pub fn performed(&mut self, session: &mut PeerSession, outcome: ActionOutcome)
        ensures
            after_action(old(self)@, old(session)@, outcome, final(self)@, final(session)@),
    {
        let done = outcome == ActionOutcome::Done;
        match self.phase {
            RunPhase::Routing { to_peer } => {
                if done {
                    session.set_routing(to_peer);
                    self.phase = RunPhase::Effects;
                } else {
                    self.phase = RunPhase::RoutingFailed;
                }
            },
            RunPhase::RoutingFallback => {
                session.latch_failure();
                session.set_routing(false);
                self.phase = RunPhase::Ended(Err(SessionRuntimeError::Platform));
            },
            RunPhase::Sending => {
                self.phase = match outcome {
                    ActionOutcome::Done => RunPhase::Effects,
                    ActionOutcome::Failed(error) => RunPhase::Ended(Err(error)),
                    ActionOutcome::SnapshotPending => RunPhase::Ended(
                        Err(SessionRuntimeError::Platform),
                    ),
                };
            },
            RunPhase::BestEffort => {
                self.phase = RunPhase::Effects;
            },
            RunPhase::Injecting { input } => {
                match outcome {
                    ActionOutcome::Done => {
                        self.phase = RunPhase::Effects;
                    },
                    ActionOutcome::SnapshotPending => {
                        let mut rest: Vec<Effect> = Vec::new();
                        std::mem::swap(&mut rest, &mut self.rest);
                        assert(self.rest@ =~= seq![]);
                        self.phase = if session.queue_injection_retry(input, rest) {
                            RunPhase::Ended(Err(SessionRuntimeError::TopologyRefreshRequired))
                        } else {
                            RunPhase::Ended(Err(SessionRuntimeError::Platform))
                        };
                    },
                    ActionOutcome::Failed(_) => {
                        session.latch_failure();
                        self.phase = RunPhase::Ended(Err(SessionRuntimeError::Platform));
                    },
                }
            },
            RunPhase::Releasing => {
                if !done {
                    session.latch_failure();
                    self.deferred_failure = true;
                }
                self.phase = RunPhase::Effects;
            },
            RunPhase::Restoring => {
                if !done {
                    session.latch_failure();
                    self.deferred_failure = true;
                }
                session.unroute();
                self.phase = RunPhase::Effects;
            },
            RunPhase::Arming => {
                match self.proposal.take() {
                    None => {
                        self.phase = RunPhase::Effects;
                    },
                    Some(proposal) => {
                        self.phase = if session.install_routes(proposal, done) {
                            RunPhase::Effects
                        } else {
                            RunPhase::Ended(Err(SessionRuntimeError::ProtocolViolation))
                        };
                    },
                }
            },
            _ => {},
        }
    }
}

/// How a run and its session go on after an action.
pub open spec fn after_action(
    run: RunModel,
    session: SessionModel,
    outcome: ActionOutcome,
    after: RunModel,
    session_after: SessionModel,
) -> bool {
    let done = outcome == ActionOutcome::Done;
    match run.phase {
        RunPhase::Routing { to_peer } => if done {
            &&& session_after == session.with_routing(to_peer)
            &&& after == run.at(RunPhase::Effects)
        } else {
            &&& session_after == session
            &&& after == run.at(RunPhase::RoutingFailed)
        },
        RunPhase::RoutingFallback => {
            &&& session_after == session.latched().with_routing(false)
            &&& after == run.ended(Err(SessionRuntimeError::Platform))
        },
        RunPhase::Sending => {
            &&& session_after == session
            &&& after == match outcome {
                ActionOutcome::Done => run.at(RunPhase::Effects),
                ActionOutcome::Failed(error) => run.ended(Err(error)),
                ActionOutcome::SnapshotPending => run.ended(Err(SessionRuntimeError::Platform)),
            }
        },
        RunPhase::BestEffort => {
            &&& session_after == session
            &&& after == run.at(RunPhase::Effects)
        },
        RunPhase::Injecting { input } => match outcome {
            ActionOutcome::Done => {
                &&& session_after == session
                &&& after == run.at(RunPhase::Effects)
            },
            ActionOutcome::SnapshotPending => {
                let emptied = RunModel { rest: seq![], ..run };
                if !(input is PointerMotion) || session.refresh.retry is Some {
                    &&& session_after == session
                    &&& after == emptied.ended(Err(SessionRuntimeError::Platform))
                } else {
                    &&& session_after == session.with_refresh(
                        RefreshModel { retry: Some((input, run.rest)), ..session.refresh },
                    )
                    &&& after == emptied.ended(
                        Err(SessionRuntimeError::TopologyRefreshRequired),
                    )
                }
            },
            ActionOutcome::Failed(_) => {
                &&& session_after == session.latched()
                &&& after == run.ended(Err(SessionRuntimeError::Platform))
            },
        },
        RunPhase::Releasing => if done {
            &&& session_after == session
            &&& after == run.at(RunPhase::Effects)
        } else {
            &&& session_after == session.latched()
            &&& after == (RunModel { deferred_failure: true, ..run.at(RunPhase::Effects) })
        },
        RunPhase::Restoring => if done {
            &&& session_after == session.unrouted()
            &&& after == run.at(RunPhase::Effects)
        } else {
            &&& session_after == session.latched().unrouted()
            &&& after == (RunModel { deferred_failure: true, ..run.at(RunPhase::Effects) })
        },
        RunPhase::Arming => match run.proposal {
            None => {
                &&& session_after == session
                &&& after == run.at(RunPhase::Effects)
            },
            Some(routes) => if done {
                &&& session_after == session.with_topology(
                    PeerTopologyModel { routes, ..session.topology },
                )
                &&& after == (RunModel { proposal: None, ..run.at(RunPhase::Effects) })
            } else {
                &&& session_after == session
                &&& after == (RunModel {
                    proposal: None,
                    ..run.ended(Err(SessionRuntimeError::ProtocolViolation))
                })
            },
        },
        _ => {
            &&& session_after == session
            &&& after == run
        },
    }
}

/// A failure to release injected input or to restore ownership is never lost:
/// it is latched, and the run ends with an error whatever follows.
pub proof fn law_failed_release_is_never_lost(
    run: RunModel,
    session: SessionModel,
    outcome: ActionOutcome,
    after: RunModel,
    session_after: SessionModel,
)
    requires
        run.phase == RunPhase::Releasing || run.phase == RunPhase::Restoring,
        outcome != ActionOutcome::Done,
        after_action(run, session, outcome, after, session_after),
    ensures
        session_after.failure_latched,
        session_after.operation_active,
        after.deferred_failure,
        after.phase == RunPhase::Effects,
        after.rest == run.rest,
{
}

/// A deferred failure survives every step of a run.
pub proof fn law_deferred_failure_stays(
    run: RunModel,
    session: SessionModel,
    core: CoreView,
    now: u64,
    step: RunStep,
    outcome: ActionOutcome,
    after: RunModel,
    session_after: SessionModel,
)
    requires
        run.deferred_failure,
        run.phase != RunPhase::Ended(Ok(())),
        after_action(run, session, outcome, after, session_after) || run.rest.len() > 0
            && run.phase == RunPhase::Effects && effect_taken(
            run,
            session,
            core,
            now,
            step,
            after,
            session_after,
        ),
    ensures
        after.deferred_failure,
        after.phase != RunPhase::Ended(Ok(())),
{
}

/// A lease is sent with the time that is left of it: never nothing, never more
/// than half a minute, and exactly to its end in between.
pub proof fn law_leases_are_sent_with_the_time_left(expires_at: u64, now: u64)
    ensures
        1 <= lease_ttl(expires_at, now) <= 30_000,
        now < expires_at <= now + 30_000 ==> now + lease_ttl(expires_at, now) == expires_at,
        expires_at <= now ==> lease_ttl(expires_at, now) == 1,
        expires_at > now + 30_000 ==> lease_ttl(expires_at, now) == 30_000,
{
}

/// What a stop, a lock or sleep ends is closed as an emergency; a lost link as a
/// failure of the transport; what ends by wish or by time as asked for.
pub proof fn law_close_reasons_tell_why(reason: DisconnectReason)
    ensures
        close_reason_of(reason) is EmergencyDisconnect <==> reason is EmergencyStop || reason
            is LocalLocked || reason is LocalSleeping,
        close_reason_of(reason) is TransportFailure <==> reason is LinkLost,
        close_reason_of(reason) is Requested <==> reason is RequestedReconnect || reason
            is FocusLeaseExpired,
{
}

/// Keys and buttons go over the reliable channel and are counted there. Motion
/// and scrolling go as datagrams where there are any, else over the channel that
/// stands in for them; without that they are not sent.
pub proof fn law_input_takes_its_lane(session: SessionModel, input: InputEvent)
    ensures
        lane_of(input) is Reliable <==> input is Key || input is PointerButton,
        lane_of(input) is Replaceable <==> input is PointerMotion || input is PointerDelta || input
            is Scroll,
        input is Key || input is PointerButton ==> session.input_route(input) == Some(
            InputRoute::Channel(session.channels.reliable_input),
        ),
        input is PointerMotion || input is PointerDelta || input is Scroll ==> {
            &&& session.channels.datagrams is Available ==> session.input_route(input) == Some(
                InputRoute::Datagram,
            )
            &&& session.channels.datagrams is Unavailable ==> match session.input_route(input) {
                Some(InputRoute::Channel(channel)) => session.channels.pointer_fallback == Some(
                    channel,
                ),
                Some(InputRoute::Datagram) => false,
                None => session.channels.pointer_fallback is None,
            }
        },
{
}

/// Input is sent under its lease, as the next message of its lane, where it has
/// a form on the wire and a way to the peer.
pub proof fn law_input_is_sent_under_its_lease(
    session: SessionModel,
    lease_id: u64,
    input: InputEvent,
)
    ensures
        session.input_action(lease_id, input) is Some <==> payload_of(input) is Some
            && session.input_route(input) is Some,
        session.input_action(lease_id, input) matches Some(action) ==> (action matches
            SessionAction::SendInput { route, message } && session.input_route(input) == Some(route)
            && payload_of(input) == Some(message.payload) && message.lease_id == lease_id
            && message.meta == session.next_meta(
            if input is Key || input is PointerButton {
                SequenceKind::Reliable
            } else {
                SequenceKind::Replaceable
            },
        )),
{
}

/// What the reducer says of leases, of the pointer and of displays is told to the
/// peer by the message of that kind, with the next control number, the same lease
/// or revision and the time that is left.
pub proof fn law_effects_are_told_by_their_message(
    effect: Effect,
    session: SessionModel,
    core: CoreView,
    now: u64,
)
    ensures
        effect matches Effect::RequestRemoteFocus {
            lease_id: lease,
            expires_at,
            pointer_enter_required: enter,
        } ==> (control_for(effect, session, core, now) matches Some(
            ControlMessage::FocusLeaseRequest { meta, lease_id, ttl_ms, pointer_enter_required },
        ) && meta == session.next_meta(SequenceKind::Control) && lease_id == lease
            && pointer_enter_required == enter && ttl_ms == lease_ttl(expires_at, now)),
        effect matches Effect::RenewRemoteFocus { lease_id: lease, expires_at } ==> (control_for(
            effect,
            session,
            core,
            now,
        ) matches Some(
            ControlMessage::FocusLeaseRequest { meta, lease_id, ttl_ms, pointer_enter_required },
        ) && meta == session.next_meta(SequenceKind::Control) && lease_id == lease
            && pointer_enter_required == core.outbound_pointer_enter_required && ttl_ms
            == lease_ttl(expires_at, now)),
        effect matches Effect::GrantRemoteFocus {
            lease_id: lease,
            expires_at,
            pointer_enter_required: enter,
        } ==> (control_for(effect, session, core, now) matches Some(
            ControlMessage::FocusLeaseGrant { meta, lease_id, ttl_ms, pointer_enter_required },
        ) && meta == session.next_meta(SequenceKind::Control) && lease_id == lease
            && pointer_enter_required == enter && ttl_ms == lease_ttl(expires_at, now)),
        effect matches Effect::ReleaseRemoteFocus { lease_id: lease } ==> (control_for(
            effect,
            session,
            core,
            now,
        ) matches Some(ControlMessage::FocusLeaseRelease { meta, lease_id }) && meta
            == session.next_meta(SequenceKind::Control) && lease_id == lease),
        effect matches Effect::AcknowledgePointerEnter { lease_id: lease } ==> (control_for(
            effect,
            session,
            core,
            now,
        ) matches Some(ControlMessage::PointerEnterAck { meta, lease_id }) && meta
            == session.next_meta(SequenceKind::Control) && lease_id == lease),
        effect matches Effect::AcknowledgeRemoteTopology { revision: of } ==> (control_for(
            effect,
            session,
            core,
            now,
        ) matches Some(ControlMessage::DisplayTopologyAck { meta, revision }) && meta
            == session.next_meta(SequenceKind::Control) && revision == of),
{
}

/// Each effect leads to the action of its kind, and is taken whatever comes of
/// it. The effects behind it stay as they are, and so does what failed before.
pub proof fn law_effects_lead_to_their_actions(
    run: RunModel,
    session: SessionModel,
    core: CoreView,
    now: u64,
    step: RunStep,
    after: RunModel,
    session_after: SessionModel,
)
    requires
        run.rest.len() > 0,
        effect_taken(run, session, core, now, step, after, session_after),
    ensures
        ({
            let effect = run.rest[0];
            let told = effect is RequestRemoteFocus || effect is RenewRemoteFocus || effect
                is GrantRemoteFocus || effect is ReleaseRemoteFocus || effect
                is AcknowledgePointerEnter || effect is AcknowledgeRemoteTopology;
            &&& after.rest == run.rest.skip(1)
            &&& after.deferred_failure == run.deferred_failure
            &&& told ==> {
                &&& control_for(effect, session, core, now) matches Some(message) && step
                    == RunStep::Perform(SessionAction::SendControl { message })
                &&& after.phase is Sending
                &&& session_after == session.after_meta(SequenceKind::Control)
            }
            &&& effect matches Effect::SendInput { lease_id, input } ==> {
                &&& session_after == session.after_meta(lane_of(input))
                &&& session.input_action(lease_id, input) matches Some(action) ==> step
                    == RunStep::Perform(action) && after.phase is Sending
                &&& session.input_action(lease_id, input) is None ==> after.phase == RunPhase::Ended(
                    Err(SessionRuntimeError::ProtocolViolation),
                )
            }
            &&& effect matches Effect::SendPointerEnter { lease_id: lease, position } ==> {
                &&& session_after == session.after_meta(SequenceKind::Reliable)
                &&& position.display > 0xffff_ffff ==> after.phase == RunPhase::Ended(
                    Err(SessionRuntimeError::ProtocolViolation),
                )
                &&& position.display <= 0xffff_ffff ==> after.phase is Sending && (step matches
                    RunStep::Perform(SessionAction::SendInput { route, message }) && route
                    == InputRoute::Channel(session.channels.reliable_input) && message.lease_id
                    == lease && message.meta == session.next_meta(SequenceKind::Reliable)
                    && message.payload == (InputPayload::PointerEnter {
                    display_id: position.display as u32,
                    x: (position.x * 65537) as u32,
                    y: (position.y * 65537) as u32,
                }))
            }
            &&& effect matches Effect::SendReleaseAll { lease_id: lease } ==> {
                &&& session_after == session.after_meta(SequenceKind::Reliable)
                &&& after.phase is Sending
                &&& step matches RunStep::Perform(SessionAction::SendInput { route, message })
                    && route == InputRoute::Channel(session.channels.reliable_input)
                    && message.payload is ReleaseAll && message.lease_id == lease && message.meta
                    == session.next_meta(SequenceKind::Reliable)
            }
            &&& effect matches Effect::ReleaseInjectedInput { releases } ==> session_after == session
                && after.phase is Releasing && step == RunStep::Perform(
                SessionAction::ReleaseInjected { releases },
            )
            &&& effect matches Effect::ReleaseRoutedInput { lease_id, releases } ==> session_after
                == session && after.routed == releases@ && after.routed_lease == lease_id && step
                is Continue && after.phase == run.phase
            &&& effect is RestoreLocalOwnership ==> session_after == session && after.phase
                is Restoring && step == RunStep::Perform(SessionAction::RestoreLocalOwnership)
            &&& effect is SuspendContentOperations ==> session_after == session && after.phase
                is BestEffort && step == RunStep::Perform(
                SessionAction::StopContent { mode: TransferStopMode::Suspend },
            )
            &&& effect is AbortContentOperations ==> session_after == session && after.phase
                is BestEffort && step == RunStep::Perform(
                SessionAction::StopContent { mode: TransferStopMode::AbortAll },
            )
            &&& effect is ArmFocusLease || effect is CancelFocusLease ==> session_after == session
                && step is Continue && after == (RunModel { rest: run.rest.skip(1), ..run })
            &&& effect is Rejected ==> session_after == session && step is Continue && after.phase
                == RunPhase::Ended(Err(SessionRuntimeError::ProtocolViolation))
        }),
{
}

/// A session that ends tells the peer so only where it is an emergency, and
/// closes with the reason.
pub proof fn law_emergencies_are_announced(
    run: RunModel,
    session: SessionModel,
    core: CoreView,
    now: u64,
    step: RunStep,
    after: RunModel,
    session_after: SessionModel,
)
    requires
        run.rest.len() > 0,
        run.rest[0] is Disconnect,
        effect_taken(run, session, core, now, step, after, session_after),
    ensures
        session_after == session,
        after.phase is BestEffort,
        step matches RunStep::Perform(SessionAction::Disconnect { announcement, reason: closed })
            && (run.rest[0] matches Effect::Disconnect { reason: why } && {
            let emergency = why is EmergencyStop || why is LocalLocked || why is LocalSleeping;
            &&& closed == close_reason_of(why)
            &&& emergency ==> announcement == Some(
                ControlMessage::EmergencyDisconnect { session_id: session.session_id },
            )
            &&& !emergency ==> announcement is None
        }),
{
}

/// Displays come into force only as they were staged or published: under another
/// revision the run ends as a violation, and no route is offered. Where they do,
/// the old focus is forgotten and the routes that they warrant are offered.
pub proof fn law_only_known_displays_come_into_force(
    run: RunModel,
    session: SessionModel,
    core: CoreView,
    now: u64,
    step: RunStep,
    after: RunModel,
    session_after: SessionModel,
)
    requires
        run.rest.len() > 0,
        effect_taken(run, session, core, now, step, after, session_after),
    ensures
        run.rest[0] matches Effect::AcceptRemoteTopology { revision } ==> {
            let known = session.topology.staged_remote matches Some(staged) && staged.revision
                == revision;
            &&& session_after.topology.staged_remote is None
            &&& known ==> {
                &&& session_after.topology.remote == session.topology.staged_remote
                &&& session_after.topology.active_route is None
                &&& session_after.topology.pending_target is None
                &&& step == RunStep::Perform(SessionAction::ArmRoutes)
                &&& after.phase is Arming
                &&& after.proposal matches Some(routes) && session_after.topology.warrants(routes)
            }
            &&& !known ==> {
                &&& session_after.topology.remote == session.topology.remote
                &&& session_after.topology.active_route == session.topology.active_route
                &&& step is Continue
                &&& after.phase == RunPhase::Ended(Err(SessionRuntimeError::ProtocolViolation))
            }
            &&& session_after.topology.local == session.topology.local
            &&& session_after.topology.routes == session.topology.routes
            &&& session_after.topology.published_local_revision
                == session.topology.published_local_revision
            &&& session_after.topology.ready_local_revision == session.topology.ready_local_revision
        },
        run.rest[0] matches Effect::LocalTopologyReady { revision } ==> {
            let known = session.topology.published_local_revision == Some(revision);
            &&& known ==> {
                &&& session_after.topology.ready_local_revision == Some(revision)
                &&& !session_after.topology.local_transition_pending
                &&& session_after.topology.active_route is None
                &&& session_after.topology.pending_target is None
                &&& session_after.topology.remote == session.topology.remote
                &&& step == RunStep::Perform(SessionAction::ArmRoutes)
                &&& after.phase is Arming
                &&& after.proposal matches Some(routes) && session_after.topology.warrants(routes)
            }
            &&& !known ==> {
                &&& session_after == session
                &&& step is Continue
                &&& after.phase == RunPhase::Ended(Err(SessionRuntimeError::ProtocolViolation))
            }
        },
{
}

/// Where an action was done, the run goes on with its effects; the routes that it
/// offered are in force then, and pointer routing is as was asked for.
pub proof fn law_runs_go_on_after_what_was_done(
    run: RunModel,
    session: SessionModel,
    after: RunModel,
    session_after: SessionModel,
)
    requires
        run.phase is Routing || run.phase is Sending || run.phase is BestEffort || run.phase
            is Injecting || run.phase is Releasing || run.phase is Restoring || run.phase is Arming,
        after_action(run, session, ActionOutcome::Done, after, session_after),
    ensures
        after.phase is Effects,
        after.rest == run.rest,
        after.routed == run.routed,
        after.deferred_failure == run.deferred_failure,
        !session.failure_latched ==> !session_after.failure_latched,
        run.phase matches RunPhase::Routing { to_peer } ==> session_after == (SessionModel {
            routing_to_peer: to_peer,
            ..session
        }),
        run.phase is Restoring ==> !session_after.routing_to_peer
            && session_after.topology.active_route is None && session_after.topology.pending_target
            is None,
        run.phase is Arming ==> after.proposal is None && (run.proposal matches Some(routes)
            ==> session_after.topology.routes == routes),
        run.phase is Sending || run.phase is BestEffort || run.phase is Injecting || run.phase
            is Releasing ==> session_after == session,
{
}

/// Where an action failed, the run ends with an error, unless it was done at best
/// effort or has to put things back first. What fails to be injected, released or
/// restored is latched. Routing that failed is answered by restoring ownership,
/// and after that the run ends whatever came of it.
pub proof fn law_runs_end_after_what_failed(
    run: RunModel,
    session: SessionModel,
    outcome: ActionOutcome,
    after: RunModel,
    session_after: SessionModel,
)
    requires
        after_action(run, session, outcome, after, session_after),
    ensures
        run.phase is Routing && !(outcome is Done) ==> after.phase is RoutingFailed && session_after
            == session,
        run.phase is RoutingFallback ==> after.phase == RunPhase::Ended(
            Err(SessionRuntimeError::Platform),
        ) && session_after.failure_latched && !session_after.routing_to_peer,
        run.phase is Sending ==> {
            &&& outcome matches ActionOutcome::Failed(error) ==> after.phase == RunPhase::Ended(
                Err(error),
            )
            &&& outcome is SnapshotPending ==> after.phase == RunPhase::Ended(
                Err(SessionRuntimeError::Platform),
            )
            &&& session_after == session
        },
        run.phase is BestEffort ==> after.phase is Effects && session_after == session,
        run.phase is Injecting && outcome is Failed ==> after.phase == RunPhase::Ended(
            Err(SessionRuntimeError::Platform),
        ) && session_after.failure_latched && after.rest == run.rest,
        run.phase is Arming && !(outcome is Done) && run.proposal is Some ==> after.phase
            == RunPhase::Ended(Err(SessionRuntimeError::ProtocolViolation)) && session_after
            == session && after.proposal is None,
        run.phase is Releasing && !(outcome is Done) ==> after.phase is Effects
            && after.deferred_failure && session_after.failure_latched,
        run.phase is Restoring && !(outcome is Done) ==> after.phase is Effects
            && after.deferred_failure && session_after.failure_latched
            && !session_after.routing_to_peer,
{
}

/// While the displays change, a place that could not be injected is kept once,
/// with everything that was to follow it, for when they are settled. Any other
/// input, and a second place, end the run.
pub proof fn law_a_place_waits_for_the_displays(
    run: RunModel,
    session: SessionModel,
    after: RunModel,
    session_after: SessionModel,
)
    requires
        run.phase is Injecting,
        after_action(run, session, ActionOutcome::SnapshotPending, after, session_after),
    ensures
        run.phase matches RunPhase::Injecting { input } ==> {
            let waits = input is PointerMotion && session.refresh.retry is None;
            &&& waits ==> {
                &&& session_after.refresh.retry == Some((input, run.rest))
                &&& session_after == (SessionModel {
                    refresh: RefreshModel { retry: Some((input, run.rest)), ..session.refresh },
                    ..session
                })
                &&& after.phase == RunPhase::Ended(
                    Err(SessionRuntimeError::TopologyRefreshRequired),
                )
            }
            &&& !waits ==> session_after == session && after.phase == RunPhase::Ended(
                Err(SessionRuntimeError::Platform),
            )
            &&& after.rest.len() == 0
        },
{
}

/// Effects that refuse are not run, and all others are run from the first.
pub proof fn law_refusals_are_not_run(
    effects: Vec<Effect>,
    run: Result<EffectRun, SessionRuntimeError>,
)
    requires
        call_ensures(EffectRun::local, (effects,), run),
    ensures
        run is Err <==> exists|i: int|
            0 <= i < effects@.len() && #[trigger] effects@[i] is Rejected,
        run matches Err(error) ==> error is FocusRejected,
        run matches Ok(started) ==> started@.rest == effects@ && started@.phase is Start
            && !started@.deferred_failure,
{
}

/// A run first brings the routing of the pointer in line, and only where it is
/// not. It ends when nothing is left, with a failure that was put off.
pub proof fn law_runs_settle_routing_first(
    run: &mut EffectRun,
    session: &mut PeerSession,
    core: CoreView,
    now: u64,
    step: RunStep,
)
    requires
        call_ensures(EffectRun::next, (run, session, &core, now), step),
    ensures
        old(run)@.phase is Start && core.local_pointer_routing_ready
            != old(session)@.routing_to_peer ==> step == RunStep::Perform(
            SessionAction::SetRouting { to_peer: core.local_pointer_routing_ready },
        ),
        old(run)@.phase is Start && core.local_pointer_routing_ready
            == old(session)@.routing_to_peer ==> step == RunStep::Continue
            && final(run)@.phase is Effects,
        old(run)@.phase is RoutingFailed ==> step == RunStep::Perform(
            SessionAction::RestoreLocalOwnership,
        ),
        old(run)@.phase matches RunPhase::Ended(result) ==> step == RunStep::Finished(result),
        (step is Finished) ==> old(run)@.phase is Ended,
        old(run)@.phase is Effects && old(run)@.routed.len() == 0 && old(run)@.rest.len() == 0
            ==> (final(run)@.phase matches RunPhase::Ended(result) && (result is Err
            <==> old(run)@.deferred_failure)),
        old(run)@.phase is Start ==> final(session)@ == old(session)@,
{
}

} // verus!
