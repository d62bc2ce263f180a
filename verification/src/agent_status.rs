//! What the agent tells the user interface of itself.

use vstd::prelude::*;
use crate::identifiers::DeviceId;
use crate::platform_readiness::{
    LocalPlatformReadiness,
    ReadinessSnapshot,
    SessionTopologyReadiness,
};
use crate::runtime::AgentError;
use crate::session_core::FocusState;
use crate::session_safety::{SessionRuntimeError, SessionSafetyState};

verus! {

#[derive(Clone, Copy, Debug, PartialEq, Eq, Structural)]
pub enum AgentPhase {
    Ready,
    Pairing,
    Connected,
    Stopping,
}

#[derive(Clone, Copy, Debug, PartialEq, Eq, Structural)]
pub enum InputOwner {
    Local,
    Remote,
}

#[derive(Clone, Copy, Debug, PartialEq, Eq, Structural)]
pub enum AgentFocusState {
    Local,
    ControllingPeer,
    ControlledByPeer,
}

#[derive(Clone, Copy, Debug, PartialEq, Eq, Structural)]
pub struct AgentStatus {
    pub phase: AgentPhase,
    pub connected_peer: Option<DeviceId>,
    pub input_owner: InputOwner,
    pub focus_state: AgentFocusState,
    pub readiness: ReadinessSnapshot,
}

/// A completed probe counts for this long.
pub const LOCAL_READINESS_CACHE_TTL_MS: u64 = 1000;

pub open spec fn owner_of(focus: FocusState) -> InputOwner {
    if focus is ControlledByRemote {
        InputOwner::Remote
    } else {
        InputOwner::Local
    }
}

pub open spec fn shown_focus(focus: FocusState) -> AgentFocusState {
    match focus {
        FocusState::ControllingRemote { .. } => AgentFocusState::ControllingPeer,
        FocusState::ControlledByRemote { .. } => AgentFocusState::ControlledByPeer,
        FocusState::Local | FocusState::RequestingRemote { .. } => AgentFocusState::Local,
    }
}

impl AgentStatus {
    pub open spec fn with_session_topology(
        self,
        session_topology: SessionTopologyReadiness,
    ) -> AgentStatus {
        AgentStatus {
            readiness: ReadinessSnapshot { session_topology, ..self.readiness },
            ..self
        }
    }

    /// The agent when it starts.
    pub fn new() -> (status: AgentStatus)
        ensures
            status == (AgentStatus {
                phase: AgentPhase::Ready,
                connected_peer: None,
                input_owner: InputOwner::Local,
                focus_state: AgentFocusState::Local,
                readiness: LocalPlatformReadiness::unavailable().snapshot(
                    SessionTopologyReadiness::NotConnected,
                ),
            }),
    {
        AgentStatus {
            phase: AgentPhase::Ready,
            connected_peer: None,
            input_owner: InputOwner::Local,
            focus_state: AgentFocusState::Local,
            readiness: LocalPlatformReadiness::unavailable().snapshot(
                SessionTopologyReadiness::NotConnected,
            ),
        }
    }

    /// Shows who has the input now.
    pub fn update_focus(&mut self, focus: FocusState)
        ensures
            *final(self) == (AgentStatus {
                input_owner: owner_of(focus),
                focus_state: shown_focus(focus),
                ..*old(self)
            }),
    {
        self.input_owner = match focus {
            FocusState::ControlledByRemote { .. } => InputOwner::Remote,
            _ => InputOwner::Local,
        };
        self.focus_state = match focus {
            FocusState::ControllingRemote { .. } => AgentFocusState::ControllingPeer,
            FocusState::ControlledByRemote { .. } => AgentFocusState::ControlledByPeer,
            FocusState::Local | FocusState::RequestingRemote { .. } => AgentFocusState::Local,
        };
    }

    /// Shows how far the displays of a session are known. After a safety failure
    /// or during a safety operation no session becomes ready.
    pub fn publish_session_topology_readiness(
        &mut self,
        safety: &SessionSafetyState,
        readiness: SessionTopologyReadiness,
    ) -> (published: Result<(), SessionRuntimeError>)
        ensures
            if readiness != SessionTopologyReadiness::NotConnected && (safety.failed()
                || safety.operating()) {
                &&& published == Err::<(), _>(SessionRuntimeError::SafetyRecoveryFailed)
                &&& *final(self) == (AgentStatus {
                    phase: AgentPhase::Stopping,
                    ..old(self).with_session_topology(SessionTopologyReadiness::NotConnected)
                })
            } else {
                &&& published is Ok
                &&& *final(self) == old(self).with_session_topology(readiness)
            },
    {
        if readiness != SessionTopologyReadiness::NotConnected && safety.blocks_ready() {
            self.phase = AgentPhase::Stopping;
            self.readiness.session_topology = SessionTopologyReadiness::NotConnected;
            return Err(SessionRuntimeError::SafetyRecoveryFailed);
        }
        self.readiness.session_topology = readiness;
        Ok(())
    }

    /// Recovery failed: input is local, and the agent stops.
    pub fn recovery_failed(&mut self)
        ensures
            *final(self) == (AgentStatus {
                phase: AgentPhase::Stopping,
                input_owner: InputOwner::Local,
                focus_state: AgentFocusState::Local,
                ..old(self).with_session_topology(SessionTopologyReadiness::NotConnected)
            }),
    {
        self.input_owner = InputOwner::Local;
        self.focus_state = AgentFocusState::Local;
        self.phase = AgentPhase::Stopping;
        self.readiness.session_topology = SessionTopologyReadiness::NotConnected;
    }
}

/// Whether a session operation may start. `busy` is taken if it does.
pub fn begin_session_operation(safety: &SessionSafetyState, busy: &mut bool) -> (begun: Result<
    (),
    AgentError,
>)
    ensures
        begun == if safety.failed() {
            Err(AgentError::SafetyRecoveryFailed)
        } else if safety.operating() || *old(busy) {
            Err(AgentError::Busy)
        } else {
            Ok(())
        },
        *final(busy) == (*old(busy) || begun is Ok),
{
    if safety.failure_latched() {
        return Err(AgentError::SafetyRecoveryFailed);
    }
    if safety.operation_active() {
        return Err(AgentError::Busy);
    }
    if *busy {
        return Err(AgentError::Busy);
    }
    *busy = true;
    Ok(())
}

/// The status, with what decides whether a readiness probe may change it.
pub struct StatusBoard {
    pub status: AgentStatus,
    /// Counts session starts and ends: a probe that began before one does not
    /// count after it.
    pub transition_epoch: u64,
    /// When the last accepted probe completed.
    pub probed_at: Option<u64>,
}

/// A probe that is under way.
#[derive(Clone, Copy, Debug, PartialEq, Eq, Structural)]
pub struct ProbeTicket {
    pub epoch: u64,
}

pub open spec fn epoch_after(epoch: u64) -> u64 {
    if epoch == u64::MAX {
        0
    } else {
        (epoch + 1) as u64
    }
}

impl StatusBoard {
    /// Nothing that matters to a probe changed since it began.
    pub open spec fn accepts(self, ticket: ProbeTicket) -> bool {
        ticket.epoch == self.transition_epoch && self.status.readiness.session_topology
            == SessionTopologyReadiness::NotConnected
    }

    /// A session starts or ends.
    pub fn record_transition(&mut self)
        ensures
            final(self).status == old(self).status,
            final(self).probed_at == old(self).probed_at,
            final(self).transition_epoch == epoch_after(old(self).transition_epoch),
    {
        self.transition_epoch = self.transition_epoch.wrapping_add(1);
    }

    /// A peer is connected, unless safety forbids it.
    pub fn publish_connected(&mut self, safety: &SessionSafetyState, peer: DeviceId) -> (published:
        Result<(), AgentError>)
        ensures
            if safety.failed() || safety.operating() {
                &&& published == Err::<(), _>(
                    if safety.failed() {
                        AgentError::SafetyRecoveryFailed
                    } else {
                        AgentError::Busy
                    },
                )
                &&& *final(self) == *old(self)
            } else {
                &&& published is Ok
                &&& final(self).status == (AgentStatus {
                    phase: AgentPhase::Connected,
                    connected_peer: Some(peer),
                    input_owner: InputOwner::Local,
                    focus_state: AgentFocusState::Local,
                    ..old(self).status.with_session_topology(
                        SessionTopologyReadiness::Synchronizing,
                    )
                })
                &&& final(self).probed_at == old(self).probed_at
                &&& final(self).transition_epoch == epoch_after(old(self).transition_epoch)
            },
    {
        if safety.failure_latched() {
            return Err(AgentError::SafetyRecoveryFailed);
        }
        if safety.operation_active() {
            return Err(AgentError::Busy);
        }
        self.status.phase = AgentPhase::Connected;
        self.status.connected_peer = Some(peer);
        self.status.input_owner = InputOwner::Local;
        self.status.focus_state = AgentFocusState::Local;
        self.status.readiness.session_topology = SessionTopologyReadiness::Synchronizing;
        self.record_transition();
        Ok(())
    }

    /// Whether the platform has to be probed: not while a session is up, and not
    /// while the last probe is fresh.
    pub fn begin_probe(&self, now: u64) -> (ticket: Option<ProbeTicket>)
        ensures
            ticket == if self.status.readiness.session_topology
                != SessionTopologyReadiness::NotConnected || (self.probed_at matches Some(at)
                && now - at < LOCAL_READINESS_CACHE_TTL_MS) {
                None
            } else {
                Some(ProbeTicket { epoch: self.transition_epoch })
            },
    {
        if self.status.readiness.session_topology != SessionTopologyReadiness::NotConnected {
            return None;
        }
        if let Some(at) = self.probed_at {
            if now < at || now - at < LOCAL_READINESS_CACHE_TTL_MS {
                return None;
            }
        }
        Some(ProbeTicket { epoch: self.transition_epoch })
    }

    /// Takes a probe in, if nothing changed since it began.
    pub fn finish_probe(&mut self, ticket: ProbeTicket, local: LocalPlatformReadiness, now: u64) -> (
        accepted: bool)
        ensures
            accepted == old(self).accepts(ticket),
            *final(self) == if accepted {
                StatusBoard {
                    status: AgentStatus {
                        readiness: local.snapshot(SessionTopologyReadiness::NotConnected),
                        ..old(self).status
                    },
                    probed_at: Some(now),
                    ..*old(self)
                }
            } else {
                *old(self)
            },
    {
        if self.transition_epoch != ticket.epoch || self.status.readiness.session_topology
            != SessionTopologyReadiness::NotConnected {
            return false;
        }
        self.status.readiness = local.snapshot(SessionTopologyReadiness::NotConnected);
        self.probed_at = Some(now);
        true
    }

    /// Takes in what was found after the user was asked for permission. What the
    /// session is ready for stays as it is.
    pub fn permission_requested(&mut self, local: LocalPlatformReadiness, now: u64)
        ensures
            *final(self) == (StatusBoard {
                status: AgentStatus {
                    readiness: local.snapshot(old(self).status.readiness.session_topology),
                    ..old(self).status
                },
                probed_at: Some(now),
                ..*old(self)
            }),
    {
        let session_topology = self.status.readiness.session_topology;
        self.status.readiness = local.snapshot(session_topology);
        self.probed_at = Some(now);
    }
}


/// A probe that began before a session started or ended changes nothing after it.
pub proof fn law_stale_probes_are_dropped(
    before: StatusBoard,
    after: StatusBoard,
    ticket: ProbeTicket,
)
    requires
        ticket.epoch == before.transition_epoch,
        after.transition_epoch == epoch_after(before.transition_epoch),
    ensures
        !after.accepts(ticket),
{
}

/// The peer has the input exactly while it controls this side; otherwise it is
/// local. Who controls whom is shown as it is, and asking is not yet controlling.
pub proof fn law_shown_focus_is_who_controls(focus: FocusState)
    ensures
        owner_of(focus) is Remote <==> focus is ControlledByRemote,
        owner_of(focus) is Local <==> !(focus is ControlledByRemote),
        shown_focus(focus) is ControllingPeer <==> focus is ControllingRemote,
        shown_focus(focus) is ControlledByPeer <==> focus is ControlledByRemote,
        shown_focus(focus) is Local <==> focus is Local || focus is RequestingRemote,
{
}

/// How far the displays of a session are known is shown without a change to
/// anything else.
pub proof fn law_session_readiness_touches_nothing_else(
    status: AgentStatus,
    readiness: SessionTopologyReadiness,
)
    ensures
        ({
            let after = status.with_session_topology(readiness);
            &&& after.readiness.session_topology == readiness
            &&& after.readiness == (ReadinessSnapshot {
                session_topology: readiness,
                ..status.readiness
            })
            &&& after.phase == status.phase
            &&& after.connected_peer == status.connected_peer
            &&& after.input_owner == status.input_owner
            &&& after.focus_state == status.focus_state
        }),
{
}

/// A probe counts exactly if no session started or ended since it began and none
/// is up. Epochs follow each other, around the end of the numbers too, so no two
/// that follow are the same.
pub proof fn law_probes_count_while_nothing_changed(
    board: StatusBoard,
    ticket: ProbeTicket,
    epoch: u64,
)
    ensures
        board.accepts(ticket) <==> ticket.epoch == board.transition_epoch
            && board.status.readiness.session_topology is NotConnected,
        epoch < u64::MAX ==> epoch_after(epoch) == epoch + 1,
        epoch == u64::MAX ==> epoch_after(epoch) == 0,
        LOCAL_READINESS_CACHE_TTL_MS == 1_000,
{
}

/// The platform is not probed while a session is there, nor again before the
/// last answer is too old; a probe belongs to the transition it began in.
pub proof fn law_probes_are_spaced(board: StatusBoard, now: u64, ticket: Option<ProbeTicket>)
    requires
        call_ensures(StatusBoard::begin_probe, (&board, now), ticket),
    ensures
        !(board.status.readiness.session_topology is NotConnected) ==> ticket is None,
        board.status.readiness.session_topology is NotConnected && board.probed_at is None
            ==> ticket is Some,
        board.status.readiness.session_topology is NotConnected ==> (board.probed_at matches Some(
            at,
        ) ==> (ticket is Some <==> now >= at + LOCAL_READINESS_CACHE_TTL_MS)),
        ticket matches Some(begun) ==> begun.epoch == board.transition_epoch,
{
}

/// A probe that is accepted is shown and remembered with its time; one that is
/// not changes nothing.
pub proof fn law_late_probes_are_dropped(
    board: &mut StatusBoard,
    ticket: ProbeTicket,
    local: LocalPlatformReadiness,
    now: u64,
    accepted: bool,
)
    requires
        call_ensures(StatusBoard::finish_probe, (board, ticket, local, now), accepted),
    ensures
        !accepted ==> *final(board) == *old(board),
        accepted ==> final(board).probed_at == Some(now)
            && final(board).status.readiness.accessibility == local.accessibility
            && final(board).status.readiness.input == local.input
            && final(board).status.readiness.local_topology == local.local_topology
            && final(board).status.readiness.session_topology is NotConnected,
        final(board).transition_epoch == old(board).transition_epoch,
        final(board).status.phase == old(board).status.phase,
{
}

/// While a session is being stopped for safety no operation begins and no
/// readiness is shown; an operation begins only where none is going on.
pub proof fn law_operations_begin_alone(
    safety: SessionSafetyState,
    busy: &mut bool,
    begun: Result<(), AgentError>,
)
    requires
        call_ensures(begin_session_operation, (&safety, busy), begun),
    ensures
        begun is Ok <==> !safety.failed() && !safety.operating() && !*old(busy),
        begun matches Err(error) ==> (error == AgentError::SafetyRecoveryFailed <==> safety.failed()),
        begun matches Err(error) ==> (error == AgentError::Busy <==> !safety.failed()),
        begun is Ok ==> *final(busy),
        begun is Err ==> *final(busy) == *old(busy),
{
}

/// No session is shown as connected while one is being stopped for safety, and
/// a session that is begins with the input here.
pub proof fn law_connections_begin_with_local_input(
    board: &mut StatusBoard,
    safety: SessionSafetyState,
    peer: DeviceId,
    published: Result<(), AgentError>,
)
    requires
        call_ensures(StatusBoard::publish_connected, (board, &safety, peer), published),
    ensures
        published is Ok <==> !safety.failed() && !safety.operating(),
        published is Err ==> *final(board) == *old(board),
        published is Ok ==> {
            &&& final(board).status.phase is Connected
            &&& final(board).status.connected_peer == Some(peer)
            &&& final(board).status.input_owner is Local
            &&& final(board).status.focus_state is Local
            &&& final(board).status.readiness.session_topology is Synchronizing
        },
        published matches Err(error) ==> (error == AgentError::SafetyRecoveryFailed
            <==> safety.failed()),
{
}

/// Readiness of a session is not shown while one is being stopped for safety:
/// the device is then shown as stopping.
pub proof fn law_stopping_hides_readiness(
    status: &mut AgentStatus,
    safety: SessionSafetyState,
    readiness: SessionTopologyReadiness,
    published: Result<(), SessionRuntimeError>,
)
    requires
        call_ensures(
            AgentStatus::publish_session_topology_readiness,
            (status, &safety, readiness),
            published,
        ),
    ensures
        published is Err <==> !(readiness is NotConnected) && (safety.failed()
            || safety.operating()),
        published matches Err(error) ==> error is SafetyRecoveryFailed,
        published is Err ==> final(status).phase is Stopping
            && final(status).readiness.session_topology is NotConnected,
        published is Ok ==> final(status).readiness.session_topology == readiness
            && final(status).phase == old(status).phase,
        final(status).connected_peer == old(status).connected_peer,
{
}

} // verus!
