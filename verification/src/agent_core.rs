//! What the agent holds between commands: its status, the safety latch, and
//! which operation is under way.

use vstd::prelude::*;
use crate::agent_status::{
    begin_session_operation,
    epoch_after,
    AgentFocusState,
    AgentPhase,
    AgentStatus,
    InputOwner,
    StatusBoard,
};
use crate::identifiers::DeviceId;
use crate::platform_readiness::{LocalPlatformReadiness, SessionTopologyReadiness};
use crate::runtime::AgentError;
use crate::session_safety::SessionSafetyState;

verus! {

/// How far a pairing came.
#[derive(Clone, Copy, Debug, PartialEq, Eq, Structural)]
pub enum PairingOutcome {
    Pending,
    Finished(bool),
    Failed,
}

/// The pairing that the user can confirm.
pub struct PairingControl {
    pub pairing_id: String,
    /// The user has not answered yet.
    pub open: bool,
}

/// What the agent holds between commands.
pub struct AgentCore {
    pub board: StatusBoard,
    pub safety: SessionSafetyState,
    /// A pairing or a session is under way.
    pub busy: bool,
    /// Counts the orders to disconnect, so that whoever waits sees each.
    pub disconnects: u64,
    /// Somebody waits for an inbound stream.
    pub waiting: bool,
    /// A session takes commands.
    pub session: bool,
    pub pairing: Option<PairingControl>,
}

/// The status with local input, no peer and no session.
pub open spec fn idle_status(status: AgentStatus, phase: AgentPhase) -> AgentStatus {
    AgentStatus {
        phase,
        connected_peer: None,
        input_owner: InputOwner::Local,
        focus_state: AgentFocusState::Local,
        ..status.with_session_topology(SessionTopologyReadiness::NotConnected)
    }
}

/// The error that safety calls for in place of another.
pub open spec fn safety_error(safety: SessionSafetyState, error: AgentError) -> AgentError {
    if safety.failed() {
        AgentError::SafetyRecoveryFailed
    } else if safety.operating() {
        AgentError::Busy
    } else {
        error
    }
}

impl AgentCore {
    /// `self` with another status; nothing else is different.
    pub open spec fn with_status(self, status: AgentStatus) -> AgentCore {
        AgentCore { board: StatusBoard { status, ..self.board }, ..self }
    }

    /// The agent when it starts: idle, with nothing known to work locally.
    pub fn new() -> (core: AgentCore)
        ensures
            core == (AgentCore {
                board: StatusBoard {
                    status: AgentStatus {
                        phase: AgentPhase::Ready,
                        connected_peer: None,
                        input_owner: InputOwner::Local,
                        focus_state: AgentFocusState::Local,
                        readiness: LocalPlatformReadiness::unavailable().snapshot(
                            SessionTopologyReadiness::NotConnected,
                        ),
                    },
                    transition_epoch: 0,
                    probed_at: None,
                },
                safety: core.safety,
                busy: false,
                disconnects: 0,
                waiting: false,
                session: false,
                pairing: None,
            }),
            !core.safety.failed(),
            !core.safety.operating(),
    {
        AgentCore {
            board: StatusBoard { status: AgentStatus::new(), transition_epoch: 0, probed_at: None },
            safety: SessionSafetyState::new(),
            busy: false,
            disconnects: 0,
            waiting: false,
            session: false,
            pairing: None,
        }
    }

    fn set_idle(&mut self, phase: AgentPhase)
        ensures
            *final(self) == old(self).with_status(idle_status(old(self).board.status, phase)),
    {
        self.board.status.phase = phase;
        self.board.status.connected_peer = None;
        self.board.status.input_owner = InputOwner::Local;
        self.board.status.focus_state = AgentFocusState::Local;
        self.board.status.readiness.session_topology = SessionTopologyReadiness::NotConnected;
    }

    /// Takes the one place for a pairing or a session.
    pub fn begin_operation(&mut self) -> (begun: Result<(), AgentError>)
        ensures
            begun == if old(self).safety.failed() {
                Err(AgentError::SafetyRecoveryFailed)
            } else if old(self).safety.operating() || old(self).busy {
                Err(AgentError::Busy)
            } else {
                Ok(())
            },
            *final(self) == (AgentCore { busy: old(self).busy || begun is Ok, ..*old(self) }),
    {
        begin_session_operation(&self.safety, &mut self.busy)
    }

    /// The operation is over.
    pub fn end_operation(&mut self)
        ensures
            *final(self) == (AgentCore { busy: false, ..*old(self) }),
    {
        self.busy = false;
    }

    /// Orders everybody to disconnect.
    pub fn disconnect_all(&mut self)
        ensures
            *final(self) == (AgentCore {
                disconnects: epoch_after(old(self).disconnects),
                ..*old(self)
            }),
            final(self).disconnects != old(self).disconnects,
    {
        self.disconnects = self.disconnects.wrapping_add(1);
    }

    /// Shows that a pairing began. What safety did since the place was taken
    /// still counts: then the place is given back.
    pub fn show_pairing(&mut self) -> (shown: Result<(), AgentError>)
        ensures
            if old(self).safety.failed() || old(self).safety.operating() {
                &&& shown == Err::<(), AgentError>(
                    safety_error(old(self).safety, AgentError::Busy),
                )
                &&& *final(self) == (AgentCore { busy: false, ..*old(self) })
            } else {
                &&& shown is Ok
                &&& *final(self) == old(self).with_status(
                    idle_status(old(self).board.status, AgentPhase::Pairing),
                )
            },
    {
        if self.safety.failure_latched() {
            self.busy = false;
            return Err(AgentError::SafetyRecoveryFailed);
        }
        if self.safety.operation_active() {
            self.busy = false;
            return Err(AgentError::Busy);
        }
        self.set_idle(AgentPhase::Pairing);
        Ok(())
    }

    /// A pairing could not be prepared: the place is given back, nobody waits
    /// for a stream any more, and what safety did comes before the error.
    pub fn pairing_not_prepared(&mut self, error: AgentError) -> (told: AgentError)
        ensures
            told == safety_error(old(self).safety, error),
            *final(self) == (AgentCore {
                busy: false,
                waiting: false,
                ..old(self).with_status(
                    AgentStatus {
                        phase: if old(self).safety.failed() || old(self).safety.operating() {
                            AgentPhase::Stopping
                        } else {
                            AgentPhase::Ready
                        },
                        ..old(self).board.status.with_session_topology(
                            SessionTopologyReadiness::NotConnected,
                        )
                    },
                )
            }),
    {
        self.board.status.phase = if self.safety.blocks_ready() {
            AgentPhase::Stopping
        } else {
            AgentPhase::Ready
        };
        self.board.status.readiness.session_topology = SessionTopologyReadiness::NotConnected;
        self.waiting = false;
        self.busy = false;
        if self.safety.failure_latched() {
            AgentError::SafetyRecoveryFailed
        } else if self.safety.operation_active() {
            AgentError::Busy
        } else {
            error
        }
    }

    /// A pairing was prepared: the user can confirm it under `pairing_id`.
    pub fn pairing_prepared(&mut self, pairing_id: String)
        ensures
            *final(self) == (AgentCore {
                pairing: Some(PairingControl { pairing_id, open: true }),
                ..*old(self)
            }),
    {
        self.pairing = Some(PairingControl { pairing_id, open: true });
    }

    /// The user answers. Only the pairing that is under way can be answered,
    /// once.
    pub fn confirm_pairing(&mut self, pairing_id: &str) -> (taken: Result<(), AgentError>)
        ensures
            final(self).board == old(self).board,
            final(self).safety == old(self).safety,
            final(self).busy == old(self).busy,
            final(self).disconnects == old(self).disconnects,
            final(self).waiting == old(self).waiting,
            final(self).session == old(self).session,
            match old(self).pairing {
                None => taken == Err::<(), AgentError>(AgentError::PairingNotFound)
                    && final(self).pairing is None,
                Some(control) => final(self).pairing matches Some(after) && after.pairing_id@
                    == control.pairing_id@ && if control.pairing_id@ != pairing_id@ {
                    taken == Err::<(), AgentError>(AgentError::PairingNotFound) && after.open
                        == control.open
                } else if !control.open {
                    taken == Err::<(), AgentError>(AgentError::AlreadyConfirmed) && !after.open
                } else {
                    taken is Ok && !after.open
                },
            },
    {
        match self.pairing.take() {
            None => Err(AgentError::PairingNotFound),
            Some(control) => {
                let wanted = pairing_id.to_owned();
                if control.pairing_id != wanted {
                    self.pairing = Some(control);
                    return Err(AgentError::PairingNotFound);
                }
                let open = control.open;
                self.pairing = Some(PairingControl { pairing_id: control.pairing_id, open: false });
                if open {
                    Ok(())
                } else {
                    Err(AgentError::AlreadyConfirmed)
                }
            },
        }
    }

    /// Somebody begins to wait for an inbound stream; one at a time.
    pub fn begin_waiting(&mut self) -> (begun: Result<(), AgentError>)
        ensures
            begun == if old(self).waiting {
                Err::<(), AgentError>(AgentError::Busy)
            } else {
                Ok(())
            },
            *final(self) == (AgentCore { waiting: true, ..*old(self) }),
    {
        if self.waiting {
            return Err(AgentError::Busy);
        }
        self.waiting = true;
        Ok(())
    }

    /// A stream came in: whether somebody gets it. Nobody waits afterwards.
    pub fn deliver_inbound(&mut self) -> (delivered: bool)
        ensures
            delivered == old(self).waiting,
            *final(self) == (AgentCore { waiting: false, ..*old(self) }),
    {
        let delivered = self.waiting;
        self.waiting = false;
        delivered
    }

    /// Shows that a peer is connected, unless safety forbids it.
    pub fn publish_connected(&mut self, peer: DeviceId) -> (published: Result<(), AgentError>)
        ensures
            final(self).safety == old(self).safety,
            final(self).busy == old(self).busy,
            final(self).disconnects == old(self).disconnects,
            final(self).waiting == old(self).waiting,
            final(self).session == old(self).session,
            final(self).pairing == old(self).pairing,
            if old(self).safety.failed() || old(self).safety.operating() {
                &&& published == Err::<(), AgentError>(
                    safety_error(old(self).safety, AgentError::Busy),
                )
                &&& final(self).board == old(self).board
            } else {
                &&& published is Ok
                &&& final(self).board.status == (AgentStatus {
                    phase: AgentPhase::Connected,
                    connected_peer: Some(peer),
                    input_owner: InputOwner::Local,
                    focus_state: AgentFocusState::Local,
                    ..old(self).board.status.with_session_topology(
                        SessionTopologyReadiness::Synchronizing,
                    )
                })
                &&& final(self).board.transition_epoch == epoch_after(
                    old(self).board.transition_epoch,
                )
                &&& final(self).board.probed_at == old(self).board.probed_at
            },
    {
        let safety = self.safety;
        self.board.publish_connected(&safety, peer)
    }

    /// A session begins to take commands.
    pub fn session_started(&mut self)
        ensures
            *final(self) == (AgentCore { session: true, ..*old(self) }),
    {
        self.session = true;
    }

    pub fn session_gone(&mut self)
        ensures
            *final(self) == (AgentCore { session: false, ..*old(self) }),
    {
        self.session = false;
    }

    /// Shows that a pairing or a session is over. A safety failure, its own or
    /// another, and a safety operation keep the agent from being ready.
    pub fn publish_session_finished(&mut self, session_safety_failed: bool)
        ensures
            *final(self) == old(self).with_status(
                idle_status(
                    old(self).board.status,
                    if session_safety_failed || old(self).safety.failed()
                        || old(self).safety.operating() {
                        AgentPhase::Stopping
                    } else {
                        AgentPhase::Ready
                    },
                ),
            ),
    {
        let phase = if session_safety_failed || self.safety.blocks_ready() {
            AgentPhase::Stopping
        } else {
            AgentPhase::Ready
        };
        self.set_idle(phase);
    }

    /// A peer was revoked: a session that is up is ended.
    pub fn peer_revoked(&mut self)
        ensures
            *final(self) == if old(self).session {
                AgentCore {
                    disconnects: epoch_after(old(self).disconnects),
                    ..old(self).with_status(
                        old(self).board.status.with_session_topology(
                            SessionTopologyReadiness::NotConnected,
                        ),
                    )
                }
            } else {
                *old(self)
            },
    {
        if self.session {
            self.disconnect_all();
            self.board.status.readiness.session_topology = SessionTopologyReadiness::NotConnected;
        }
    }

    /// A safety stop begins, unless one failed or is under way.
    pub fn begin_safety_stop(&mut self) -> (begun: Result<(), AgentError>)
        ensures
            if old(self).safety.failed() || old(self).safety.operating() {
                &&& begun == Err::<(), AgentError>(
                    safety_error(old(self).safety, AgentError::Busy),
                )
                &&& *final(self) == *old(self)
            } else {
                &&& begun is Ok
                &&& final(self).safety.operating()
                &&& !final(self).safety.failed()
                &&& *final(self) == (AgentCore {
                    safety: final(self).safety,
                    ..old(self).with_status(
                        AgentStatus {
                            phase: AgentPhase::Stopping,
                            ..old(self).board.status.with_session_topology(
                                SessionTopologyReadiness::NotConnected,
                            )
                        },
                    )
                })
            },
    {
        if self.safety.failure_latched() {
            return Err(AgentError::SafetyRecoveryFailed);
        }
        if self.safety.operation_active() {
            return Err(AgentError::Busy);
        }
        self.safety.set_operation_active(true);
        self.board.status.phase = AgentPhase::Stopping;
        self.board.status.readiness.session_topology = SessionTopologyReadiness::NotConnected;
        Ok(())
    }

    /// A safety stop did all it had to. A failure that was latched meanwhile
    /// still keeps the agent stopped.
    pub fn finish_safety_stop(&mut self) -> (finished: Result<AgentStatus, AgentError>)
        ensures
            if old(self).safety.failed() {
                &&& finished == Err::<AgentStatus, AgentError>(AgentError::SafetyRecoveryFailed)
                &&& *final(self) == old(self).with_status(
                    AgentStatus {
                        phase: AgentPhase::Stopping,
                        ..old(self).board.status.with_session_topology(
                            SessionTopologyReadiness::NotConnected,
                        )
                    },
                )
            } else {
                &&& finished == Ok::<AgentStatus, AgentError>(final(self).board.status)
                &&& !final(self).safety.operating()
                &&& !final(self).safety.failed()
                &&& *final(self) == (AgentCore {
                    safety: final(self).safety,
                    ..old(self).with_status(
                        idle_status(old(self).board.status, AgentPhase::Ready),
                    )
                })
            },
    {
        if self.safety.failure_latched() {
            self.board.status.phase = AgentPhase::Stopping;
            self.board.status.readiness.session_topology = SessionTopologyReadiness::NotConnected;
            return Err(AgentError::SafetyRecoveryFailed);
        }
        self.safety.set_operation_active(false);
        self.set_idle(AgentPhase::Ready);
        Ok(self.board.status)
    }

    /// A safety stop failed or took too long: the failure is latched, everybody
    /// is ordered to disconnect, and the agent stays stopped.
    pub fn fail_safety_stop(&mut self) -> (error: AgentError)
        ensures
            error == AgentError::SafetyRecoveryFailed,
            final(self).safety.failed(),
            final(self).safety.operating(),
            *final(self) == (AgentCore {
                safety: final(self).safety,
                disconnects: epoch_after(old(self).disconnects),
                ..old(self).with_status(idle_status(old(self).board.status, AgentPhase::Stopping))
            }),
    {
        self.safety.latch_failure();
        self.disconnect_all();
        self.set_idle(AgentPhase::Stopping);
        AgentError::SafetyRecoveryFailed
    }
}

/// Once a safety failure is latched, it is what every refusal tells, and no end
/// of a pairing or a session makes the agent ready.
pub proof fn law_latched_failures_come_first(
    core: AgentCore,
    session_safety_failed: bool,
    error: AgentError,
)
    requires
        core.safety.failed(),
    ensures
        safety_error(core.safety, error) == AgentError::SafetyRecoveryFailed,
        idle_status(
            core.board.status,
            if session_safety_failed || core.safety.failed() || core.safety.operating() {
                AgentPhase::Stopping
            } else {
                AgentPhase::Ready
            },
        ).phase == AgentPhase::Stopping,
{
}

/// An idle agent has no peer and no session; input and focus are local, and what
/// is known of the platform stays.
pub proof fn law_idle_agents_have_no_peer(status: AgentStatus, phase: AgentPhase)
    ensures
        ({
            let idle = idle_status(status, phase);
            &&& idle.phase == phase
            &&& idle.connected_peer is None
            &&& idle.input_owner is Local
            &&& idle.focus_state is Local
            &&& idle.readiness.session_topology is NotConnected
            &&& idle == (AgentStatus {
                phase,
                connected_peer: None,
                input_owner: InputOwner::Local,
                focus_state: AgentFocusState::Local,
                readiness: idle.readiness,
            })
            &&& idle.readiness == status.with_session_topology(
                SessionTopologyReadiness::NotConnected,
            ).readiness
        }),
{
}

/// A safety failure goes before a safety operation, and both before any other
/// error.
pub proof fn law_safety_goes_before_other_errors(safety: SessionSafetyState, error: AgentError)
    ensures
        safety.failed() ==> safety_error(safety, error) is SafetyRecoveryFailed,
        !safety.failed() && safety.operating() ==> safety_error(safety, error) is Busy,
        !safety.failed() && !safety.operating() ==> safety_error(safety, error) == error,
{
}

/// Another status changes nothing else of the agent.
pub proof fn law_status_touches_nothing_else(core: AgentCore, status: AgentStatus)
    ensures
        ({
            let after = core.with_status(status);
            &&& after.board.status == status
            &&& after.board.transition_epoch == core.board.transition_epoch
            &&& after.board.probed_at == core.board.probed_at
            &&& after.safety == core.safety
            &&& after.busy == core.busy
            &&& after.disconnects == core.disconnects
            &&& after.waiting == core.waiting
            &&& after.session == core.session
            &&& after.pairing == core.pairing
        }),
{
}

/// Operations exclude each other and a safety stop excludes them all.
pub proof fn law_operations_exclude_each_other(
    core: &mut AgentCore,
    begun: Result<(), AgentError>,
)
    requires
        call_ensures(AgentCore::begin_operation, (core,), begun),
    ensures
        begun is Ok <==> !old(core).safety.failed() && !old(core).safety.operating()
            && !old(core).busy,
        begun matches Err(error) ==> error == if old(core).safety.failed() {
            AgentError::SafetyRecoveryFailed
        } else {
            AgentError::Busy
        },
        begun is Ok ==> final(core).busy,
        begun is Err ==> *final(core) == *old(core),
        final(core).board == old(core).board && final(core).safety == old(core).safety
            && final(core).session == old(core).session && final(core).pairing
            == old(core).pairing,
{
}

/// A pairing is shown unless the device is being stopped, and one that is not
/// shown leaves room for another operation.
pub proof fn law_pairings_are_shown_unless_stopping(
    core: &mut AgentCore,
    shown: Result<(), AgentError>,
)
    requires
        call_ensures(AgentCore::show_pairing, (core,), shown),
    ensures
        shown is Ok <==> !old(core).safety.failed() && !old(core).safety.operating(),
        shown is Ok ==> final(core).board.status.phase is Pairing && final(core).busy
            == old(core).busy,
        shown is Err ==> final(core).board == old(core).board && !final(core).busy,
        shown matches Err(error) ==> (error == AgentError::SafetyRecoveryFailed
            <==> old(core).safety.failed()),
{
}

/// A pairing that could not be prepared leaves the device idle, ready or
/// stopping, with nobody waiting.
pub proof fn law_unprepared_pairings_leave_the_device_idle(
    core: &mut AgentCore,
    error: AgentError,
    told: AgentError,
)
    requires
        call_ensures(AgentCore::pairing_not_prepared, (core, error), told),
    ensures
        !final(core).busy,
        !final(core).waiting,
        final(core).session == old(core).session,
        final(core).board.status.phase is Stopping <==> old(core).safety.failed()
            || old(core).safety.operating(),
        final(core).board.status.phase is Ready <==> !(old(core).safety.failed()
            || old(core).safety.operating()),
        final(core).board.status.readiness.session_topology is NotConnected,
        !old(core).safety.failed() && !old(core).safety.operating() ==> told == error,
        old(core).safety.failed() ==> told == AgentError::SafetyRecoveryFailed,
{
}

/// A pairing is confirmed once, under its own name.
pub proof fn law_pairings_are_confirmed_once(
    core: &mut AgentCore,
    pairing_id: &str,
    taken: Result<(), AgentError>,
)
    requires
        call_ensures(AgentCore::confirm_pairing, (core, pairing_id), taken),
    ensures
        taken is Ok <==> (old(core).pairing matches Some(control) && control.pairing_id@
            == pairing_id@ && control.open),
        taken is Ok ==> (final(core).pairing matches Some(after) && !after.open && after.pairing_id@
            == pairing_id@),
        taken matches Err(error) ==> (error == AgentError::AlreadyConfirmed <==> (
        old(core).pairing matches Some(control) && control.pairing_id@ == pairing_id@)),
        taken matches Err(error) ==> error == AgentError::AlreadyConfirmed || error
            == AgentError::PairingNotFound,
        final(core).pairing is Some <==> old(core).pairing is Some,
{
}

/// One waits at a time.
pub proof fn law_one_waits_at_a_time(core: &mut AgentCore, begun: Result<(), AgentError>)
    requires
        call_ensures(AgentCore::begin_waiting, (core,), begun),
    ensures
        begun is Ok <==> !old(core).waiting,
        begun matches Err(error) ==> error == AgentError::Busy,
        final(core).waiting,
        final(core).busy == old(core).busy && final(core).board == old(core).board,
{
}

/// A session that ended leaves the device without a peer, stopping where
/// safety is in question and ready otherwise.
pub proof fn law_finished_sessions_leave_no_peer(core: &mut AgentCore, session_safety_failed: bool)
    requires
        call_ensures(AgentCore::publish_session_finished, (core, session_safety_failed), ()),
    ensures
        final(core).board.status.connected_peer is None,
        final(core).board.status.input_owner is Local,
        final(core).board.status.focus_state is Local,
        final(core).board.status.readiness.session_topology is NotConnected,
        final(core).board.status.phase is Stopping <==> session_safety_failed
            || old(core).safety.failed() || old(core).safety.operating(),
        final(core).board.status.phase is Ready <==> !(final(core).board.status.phase is Stopping),
{
}

/// A revoked peer's session is told to end; with no session nothing changes.
pub proof fn law_revoked_peers_are_disconnected(core: &mut AgentCore)
    requires
        call_ensures(AgentCore::peer_revoked, (core,), ()),
    ensures
        !old(core).session ==> *final(core) == *old(core),
        old(core).session ==> final(core).board.status.readiness.session_topology is NotConnected
            && final(core).disconnects == epoch_after(old(core).disconnects),
        final(core).busy == old(core).busy,
        final(core).session == old(core).session,
{
}

/// Between its begin and its end a safety stop shows the device as stopping,
/// and ends ready unless the recovery failed.
pub proof fn law_safety_stops_run_once(
    core: &mut AgentCore,
    begun: Result<(), AgentError>,
    later: &mut AgentCore,
    finished: Result<AgentStatus, AgentError>,
)
    requires
        call_ensures(AgentCore::begin_safety_stop, (core,), begun),
        call_ensures(AgentCore::finish_safety_stop, (later,), finished),
    ensures
        begun is Ok <==> !old(core).safety.failed() && !old(core).safety.operating(),
        begun is Err ==> *final(core) == *old(core),
        begun is Ok ==> final(core).safety.operating() && final(core).board.status.phase is Stopping
            && final(core).board.status.readiness.session_topology is NotConnected,
        finished is Err <==> old(later).safety.failed(),
        finished is Err ==> final(later).board.status.phase is Stopping,
        finished matches Ok(status) ==> {
            &&& status == final(later).board.status
            &&& status.phase is Ready
            &&& status.connected_peer is None
            &&& status.input_owner is Local
            &&& !final(later).safety.operating()
        },
{
}

/// A session is shown as connected to its peer, with the input here, unless the
/// device is being stopped.
pub proof fn law_connected_peers_are_shown(
    core: &mut AgentCore,
    peer: DeviceId,
    published: Result<(), AgentError>,
)
    requires
        call_ensures(AgentCore::publish_connected, (core, peer), published),
    ensures
        published is Ok <==> !old(core).safety.failed() && !old(core).safety.operating(),
        published is Err ==> final(core).board == old(core).board,
        published is Ok ==> {
            &&& final(core).board.status.phase is Connected
            &&& final(core).board.status.connected_peer == Some(peer)
            &&& final(core).board.status.input_owner is Local
            &&& final(core).board.status.focus_state is Local
            &&& final(core).board.status.readiness.session_topology is Synchronizing
        },
        final(core).busy == old(core).busy,
{
}

} // verus!
