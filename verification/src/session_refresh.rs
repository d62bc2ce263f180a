//! Refreshing the local displays while a session is up.
//!
//! A change of the displays stops routing and admission of input first. Then a
//! stable snapshot is taken; if it differs, the new displays go to the peer, who
//! has to acknowledge them, before input is routed again. Input that came in
//! between is tried once more.

use vstd::prelude::*;
use crate::displays::{
    descriptors,
    DisplayMapModel,
    DisplayTopology,
    LocalTopologyCandidate,
    NativeDisplaySnapshot,
    TopologyModel,
};
use crate::input::InputEvent;
use crate::platform_readiness::SessionTopologyReadiness;
use crate::routes::EdgeRoute;
use crate::session_core::{CoreEvent, Effect, FocusState};
use crate::session_effects::ActionOutcome;
use crate::session_model::{
    candidate_view,
    commits,
    later,
    resolves,
    snapshot_taken,
    unresolvable,
    CoreView,
    PeerSession,
    RefreshModel,
    SequenceKind,
    SessionModel,
    SnapshotVerdict,
    TOPOLOGY_REFRESH_PHASE_TIMEOUT_MS,
};
use crate::session_safety::SessionRuntimeError;
use crate::session_wire::ControlMessage;
use crate::topology_runtime::{PeerTopologyModel, RouteProposal};

verus! {

/// What a refresh needs done outside.
#[derive(Clone, Copy, Debug)]
pub enum RefreshStep {
    PublishReadiness { readiness: SessionTopologyReadiness },
    StopRouting,
    PauseAdmission,
    /// Take the input that was admitted; hand it on if `forward`, else drop it.
    DrainInput { forward: bool },
    /// Tell the reducer, as an event of this side, and carry its effects out.
    Reduce { event: CoreEvent },
    /// Then call `snapshot` with the result, or `advance` if there is none.
    TakeSnapshot,
    /// Offer the run's proposed routes to the edge observer.
    ArmRoutes,
    ResumeAdmission,
    /// Send this with the run's topology.
    SendTopology { message: ControlMessage },
    Inject { input: InputEvent },
    /// Carry out the run's remaining effects.
    CarryOut,
    Finished(Result<(), SessionRuntimeError>),
}

#[derive(Clone, Copy, Debug)]
pub enum RefreshPhase {
    Start,
    Synchronizing,
    StoppingRouting,
    Pausing,
    Draining,
    Starting,
    Snapshot,
    /// The displays are the same.
    Settling,
    SettledArming,
    SettledResuming,
    /// The displays changed and nobody has to know.
    Unpublished,
    UnpublishedArming,
    UnpublishedResuming,
    UnpublishedReady,
    Drive,
    Publishing { revision: u64 },
    Sending,
    Published,
    DrivenReady,
    Injecting,
    Remaining,
    Ended(Result<(), SessionRuntimeError>),
}

pub struct RefreshRunModel {
    pub phase: RefreshPhase,
    /// Whether input that was held back is tried again at the end.
    pub retries: bool,
    /// Whether there is input of this machine to drain.
    pub has_input: bool,
    pub candidate: Option<(u64, DisplayMapModel)>,
    pub proposal: Option<Seq<EdgeRoute>>,
    pub topology: Option<TopologyModel>,
    pub remaining: Option<Seq<Effect>>,
}

/// One refresh, step by step.
pub struct RefreshRun {
    phase: RefreshPhase,
    retries: bool,
    has_input: bool,
    candidate: Option<LocalTopologyCandidate>,
    proposal: Option<RouteProposal>,
    topology: Option<DisplayTopology>,
    remaining: Option<Vec<Effect>>,
}

impl View for RefreshRun {
    type V = RefreshRunModel;

    closed spec fn view(&self) -> RefreshRunModel {
        RefreshRunModel {
            phase: self.phase,
            retries: self.retries,
            has_input: self.has_input,
            candidate: candidate_view(self.candidate),
            proposal: match self.proposal {
                Some(proposal) => Some(proposal@),
                None => None,
            },
            topology: match self.topology {
                Some(topology) => Some(topology@),
                None => None,
            },
            remaining: match self.remaining {
                Some(effects) => Some(effects@),
                None => None,
            },
        }
    }
}

pub open spec fn error_of(outcome: ActionOutcome) -> SessionRuntimeError {
    match outcome {
        ActionOutcome::Failed(error) => error,
        _ => SessionRuntimeError::Platform,
    }
}

fn outcome_error(outcome: ActionOutcome) -> (error: SessionRuntimeError)
    ensures
        error == error_of(outcome),
{
    match outcome {
        ActionOutcome::Failed(error) => error,
        _ => SessionRuntimeError::Platform,
    }
}

impl RefreshRunModel {
    pub open spec fn at(self, phase: RefreshPhase) -> RefreshRunModel {
        RefreshRunModel { phase, ..self }
    }
}

/// The run is over.
pub open spec fn ends(
    run: RefreshRunModel,
    result: Result<(), SessionRuntimeError>,
    step: RefreshStep,
    after: RefreshRunModel,
) -> bool {
    &&& step == RefreshStep::Finished(result)
    &&& after == run.at(RefreshPhase::Ended(result))
}

/// One more step, at another phase.
pub open spec fn goes(
    run: RefreshRunModel,
    phase: RefreshPhase,
    expected: RefreshStep,
    step: RefreshStep,
    after: RefreshRunModel,
) -> bool {
    &&& step == expected
    &&& after == run.at(phase)
}

/// Routes are offered, if the topology could be settled.
pub open spec fn offers(
    run: RefreshRunModel,
    settled: bool,
    topology: PeerTopologyModel,
    phase: RefreshPhase,
    step: RefreshStep,
    after: RefreshRunModel,
) -> bool {
    if settled {
        &&& step is ArmRoutes
        &&& after.proposal matches Some(routes) && topology.warrants(routes)
        &&& after == (RefreshRunModel { proposal: after.proposal, ..run.at(phase) })
    } else {
        ends(run, Err(SessionRuntimeError::Platform), step, after)
    }
}

/// Input that was held back is tried once more. Input for a display that is
/// gone is dropped.
pub open spec fn retried(
    run: RefreshRunModel,
    session: SessionModel,
    step: RefreshStep,
    after: RefreshRunModel,
    session_after: SessionModel,
) -> bool {
    if !run.retries {
        &&& session_after == session
        &&& ends(run, Ok(()), step, after)
    } else {
        &&& session_after == session.with_refresh(RefreshModel { retry: None, ..session.refresh })
        &&& match session.refresh.retry {
            None => ends(run, Ok(()), step, after),
            Some((input, rest)) => match step {
                RefreshStep::Inject { input: native } => {
                    &&& resolves(session.topology, input, native)
                    &&& after == (RefreshRunModel {
                        remaining: Some(rest),
                        ..run.at(RefreshPhase::Injecting)
                    })
                },
                _ => unresolvable(session.topology, input) && ends(run, Ok(()), step, after),
            },
        }
    }
}

/// The session without a deadline for an acknowledgement that is not owed.
pub open spec fn acknowledged(session: SessionModel) -> SessionModel {
    if session.ack_pending() {
        session
    } else {
        session.with_refresh(RefreshModel { ack_deadline: None, ..session.refresh })
    }
}

/// What the refresh does next: nothing while an acknowledgement or a snapshot is
/// missing; else it publishes the candidate that waits, or says that it is
/// ready.
pub open spec fn driven(
    run: RefreshRunModel,
    session: SessionModel,
    core: CoreView,
    step: RefreshStep,
    after: RefreshRunModel,
    session_after: SessionModel,
) -> bool {
    let settled = acknowledged(session);
    if session.ack_pending() || session.refresh.snapshot_deadline is Some {
        retried(run, settled, step, after, session_after)
    } else {
        let taken = settled.with_refresh(RefreshModel { pending: None, ..settled.refresh });
        match session.refresh.pending {
            Some((base, outcome)) => {
                &&& session_after == taken
                &&& step == (RefreshStep::Reduce {
                    event: CoreEvent::LocalTopologyPublished { revision: outcome.revision },
                })
                &&& after == (RefreshRunModel {
                    candidate: Some((base, outcome)),
                    ..run.at(RefreshPhase::Publishing { revision: outcome.revision })
                })
            },
            None => if !core.local_grant_allows_peer_input || session.topology.local_ready() {
                &&& session_after == taken
                &&& goes(
                    run,
                    RefreshPhase::DrivenReady,
                    RefreshStep::PublishReadiness { readiness: SessionTopologyReadiness::Ready },
                    step,
                    after,
                )
            } else {
                retried(run, taken, step, after, session_after)
            },
        }
    }
}

/// Every step but the taking of a snapshot.
pub open spec fn advanced(
    run: RefreshRunModel,
    session: SessionModel,
    core: CoreView,
    now: u64,
    outcome: ActionOutcome,
    step: RefreshStep,
    after: RefreshRunModel,
    session_after: SessionModel,
) -> bool {
    let done = outcome == ActionOutcome::Done;
    let failed = session_after == session && ends(run, Err(error_of(outcome)), step, after);
    match run.phase {
        RefreshPhase::Start => {
            &&& session_after == session
            &&& if session.refresh.snapshot_deadline is Some {
                goes(run, RefreshPhase::Snapshot, RefreshStep::TakeSnapshot, step, after)
            } else {
                goes(
                    run,
                    RefreshPhase::Synchronizing,
                    RefreshStep::PublishReadiness {
                        readiness: SessionTopologyReadiness::Synchronizing,
                    },
                    step,
                    after,
                )
            }
        },
        RefreshPhase::Synchronizing => if !done {
            failed
        } else {
            &&& session_after == session.with_refresh(session.refresh.snapshot_begun(now))
            &&& goes(run, RefreshPhase::StoppingRouting, RefreshStep::StopRouting, step, after)
        },
        RefreshPhase::StoppingRouting => if !done {
            failed
        } else {
            &&& session_after == session.with_routing(false)
            &&& goes(run, RefreshPhase::Pausing, RefreshStep::PauseAdmission, step, after)
        },
        RefreshPhase::Pausing => if !done {
            failed
        } else {
            &&& session_after == session.with_topology(session.topology.in_transition())
            &&& if run.has_input {
                goes(
                    run,
                    RefreshPhase::Draining,
                    RefreshStep::DrainInput { forward: core.focus is ControllingRemote },
                    step,
                    after,
                )
            } else {
                goes(
                    run,
                    RefreshPhase::Starting,
                    RefreshStep::Reduce { event: CoreEvent::LocalTopologyRefreshStarted },
                    step,
                    after,
                )
            }
        },
        RefreshPhase::Draining => if !done {
            failed
        } else {
            &&& session_after == session
            &&& goes(
                run,
                RefreshPhase::Starting,
                RefreshStep::Reduce { event: CoreEvent::LocalTopologyRefreshStarted },
                step,
                after,
            )
        },
        RefreshPhase::Starting => if !done {
            failed
        } else {
            &&& session_after == session
            &&& goes(run, RefreshPhase::Snapshot, RefreshStep::TakeSnapshot, step, after)
        },
        RefreshPhase::Snapshot => {
            &&& session_after == session
            &&& ends(
                run,
                if outcome == ActionOutcome::SnapshotPending {
                    Ok(())
                } else {
                    Err(error_of(outcome))
                },
                step,
                after,
            )
        },
        RefreshPhase::Settling => if !done {
            failed
        } else {
            let topology = PeerTopologyModel {
                local_transition_pending: false,
                ..session.topology.unfocused()
            };
            let settled = session.topology.local.revision > 0;
            &&& session_after == if settled {
                session.with_topology(topology)
            } else {
                session
            }
            &&& offers(run, settled, topology, RefreshPhase::SettledArming, step, after)
        },
        RefreshPhase::SettledArming => armed(
            run,
            session,
            done,
            RefreshPhase::SettledResuming,
            step,
            after,
            session_after,
        ),
        RefreshPhase::SettledResuming => driven(run, session, core, step, after, session_after),
        RefreshPhase::Unpublished => if !done {
            failed
        } else {
            let topology = PeerTopologyModel {
                local_transition_pending: false,
                ..session.topology.unfocused()
            };
            let settled = session.topology.local.revision > 0
                && session.topology.published_local_revision is None;
            &&& session_after == if settled {
                session.with_topology(topology)
            } else {
                session
            }
            &&& offers(run, settled, topology, RefreshPhase::UnpublishedArming, step, after)
        },
        RefreshPhase::UnpublishedArming => armed(
            run,
            session,
            done,
            RefreshPhase::UnpublishedResuming,
            step,
            after,
            session_after,
        ),
        RefreshPhase::UnpublishedResuming => {
            &&& session_after == session
            &&& goes(
                run,
                RefreshPhase::UnpublishedReady,
                RefreshStep::PublishReadiness { readiness: SessionTopologyReadiness::Ready },
                step,
                after,
            )
        },
        RefreshPhase::UnpublishedReady => if !done {
            failed
        } else {
            retried(run, session, step, after, session_after)
        },
        RefreshPhase::Drive => driven(run, session, core, step, after, session_after),
        RefreshPhase::Publishing { revision } => {
            let kept = RefreshRunModel { candidate: None, ..run };
            if !done {
                &&& session_after == session
                &&& ends(kept, Err(error_of(outcome)), step, after)
            } else {
                match run.candidate {
                    Some((base, topology)) => if commits(session.topology, base, topology) {
                        let shown = TopologyModel {
                            revision: topology.revision,
                            displays: descriptors(topology.placed),
                        };
                        let committed = session.with_topology(
                            PeerTopologyModel { local: topology, ..session.topology },
                        );
                        if topology.revision != revision {
                            &&& session_after == committed
                            &&& ends(
                                kept,
                                Err(SessionRuntimeError::ProtocolViolation),
                                step,
                                after,
                            )
                        } else {
                            let published = committed.with_topology(
                                PeerTopologyModel {
                                    published_local_revision: Some(revision),
                                    ready_local_revision: None,
                                    ..committed.topology.in_transition()
                                },
                            );
                            &&& session_after == published.after_meta(SequenceKind::Control)
                            &&& step == (RefreshStep::SendTopology {
                                message: ControlMessage::DisplayTopology {
                                    meta: published.next_meta(SequenceKind::Control),
                                    revision,
                                },
                            })
                            &&& after == (RefreshRunModel {
                                topology: Some(shown),
                                ..kept.at(RefreshPhase::Sending)
                            })
                        }
                    } else {
                        &&& session_after == session
                        &&& ends(kept, Err(SessionRuntimeError::Platform), step, after)
                    },
                    None => {
                        &&& session_after == session
                        &&& ends(kept, Err(SessionRuntimeError::Platform), step, after)
                    },
                }
            }
        },
        RefreshPhase::Sending => if !done {
            failed
        } else {
            &&& session_after == session
            &&& goes(run, RefreshPhase::Published, RefreshStep::ResumeAdmission, step, after)
        },
        RefreshPhase::Published => retried(
            run,
            if session.topology_initialized {
                session.with_refresh(
                    RefreshModel {
                        ack_deadline: Some(later(now, TOPOLOGY_REFRESH_PHASE_TIMEOUT_MS)),
                        ..session.refresh
                    },
                )
            } else {
                session
            },
            step,
            after,
            session_after,
        ),
        RefreshPhase::DrivenReady => if !done {
            failed
        } else {
            retried(run, session, step, after, session_after)
        },
        RefreshPhase::Injecting => if done {
            &&& session_after == session
            &&& goes(run, RefreshPhase::Remaining, RefreshStep::CarryOut, step, after)
        } else {
            &&& session_after == session.latched()
            &&& ends(run, Err(SessionRuntimeError::Platform), step, after)
        },
        RefreshPhase::Remaining => {
            &&& session_after == session
            &&& ends(
                run,
                if done {
                    Ok(())
                } else {
                    Err(error_of(outcome))
                },
                step,
                after,
            )
        },
        RefreshPhase::Ended(result) => {
            &&& session_after == session
            &&& ends(run, result, step, after)
        },
    }
}

/// The edge observer has answered: the routes are armed, or the run fails.
pub open spec fn armed(
    run: RefreshRunModel,
    session: SessionModel,
    done: bool,
    phase: RefreshPhase,
    step: RefreshStep,
    after: RefreshRunModel,
    session_after: SessionModel,
) -> bool {
    let emptied = RefreshRunModel { proposal: None, ..run };
    match run.proposal {
        Some(routes) => if done {
            &&& session_after == session.with_topology(
                PeerTopologyModel { routes, ..session.topology },
            )
            &&& goes(emptied, phase, RefreshStep::ResumeAdmission, step, after)
        } else {
            &&& session_after == session
            &&& ends(emptied, Err(SessionRuntimeError::Platform), step, after)
        },
        None => {
            &&& session_after == session
            &&& ends(emptied, Err(SessionRuntimeError::Platform), step, after)
        },
    }
}

/// A snapshot was taken.
pub open spec fn snapshot_advanced(
    run: RefreshRunModel,
    session: SessionModel,
    core: CoreView,
    now: u64,
    snapshots: Seq<NativeDisplaySnapshot>,
    topology_admitted: bool,
    step: RefreshStep,
    after: RefreshRunModel,
    session_after: SessionModel,
) -> bool {
    if session.refresh.late(now) {
        &&& session_after == session
        &&& ends(run, Err(SessionRuntimeError::Platform), step, after)
    } else {
        exists|verdict: SnapshotVerdict, taken: SessionModel| #[trigger]
            snapshot_taken(session, snapshots, topology_admitted, verdict, taken) && match verdict {
                SnapshotVerdict::Unusable => {
                    &&& session_after == taken
                    &&& ends(run, Err(SessionRuntimeError::Platform), step, after)
                },
                SnapshotVerdict::Unchanged => {
                    &&& session_after == taken
                    &&& goes(
                        run,
                        RefreshPhase::Settling,
                        RefreshStep::Reduce { event: CoreEvent::LocalTopologyRefreshUnchanged },
                        step,
                        after,
                    )
                },
                SnapshotVerdict::Changed => if core.local_grant_allows_peer_input {
                    driven(run, taken, core, step, after, session_after)
                } else {
                    let bare = taken.with_refresh(
                        RefreshModel { pending: None, ..taken.refresh },
                    );
                    match taken.refresh.pending {
                        Some((base, outcome)) => if commits(taken.topology, base, outcome) {
                            &&& session_after == bare.with_topology(
                                PeerTopologyModel { local: outcome, ..bare.topology },
                            )
                            &&& goes(
                                run,
                                RefreshPhase::Unpublished,
                                RefreshStep::Reduce {
                                    event: CoreEvent::LocalTopologyRefreshUnchanged,
                                },
                                step,
                                after,
                            )
                        } else {
                            &&& session_after == bare
                            &&& ends(run, Err(SessionRuntimeError::Platform), step, after)
                        },
                        None => {
                            &&& session_after == bare
                            &&& ends(run, Err(SessionRuntimeError::Platform), step, after)
                        },
                    }
                },
            }
    }
}

impl RefreshRun {
    /// A change of the displays was seen. `has_input`: there is input of this
    /// machine that was admitted before.
    pub fn observe(has_input: bool) -> (run: RefreshRun)
        ensures
            run@ == (RefreshRunModel {
                phase: RefreshPhase::Start,
                retries: true,
                has_input,
                candidate: None,
                proposal: None,
                topology: None,
                remaining: None,
            }),
    {
        RefreshRun {
            phase: RefreshPhase::Start,
            retries: true,
            has_input,
            candidate: None,
            proposal: None,
            topology: None,
            remaining: None,
        }
    }

    /// The peer acknowledged something: go on from there.
    pub fn drive() -> (run: RefreshRun)
        ensures
            run@ == (RefreshRunModel {
                phase: RefreshPhase::Drive,
                retries: false,
                has_input: false,
                candidate: None,
                proposal: None,
                topology: None,
                remaining: None,
            }),
    {
        RefreshRun {
            phase: RefreshPhase::Drive,
            retries: false,
            has_input: false,
            candidate: None,
            proposal: None,
            topology: None,
            remaining: None,
        }
    }

    /// The routes that wait for the edge observer.
    pub fn proposed_routes(&self) -> (routes: Option<&Vec<EdgeRoute>>)
        ensures
            match routes {
                Some(known) => self@.proposal == Some(known@),
                None => self@.proposal is None,
            },
    {
        match &self.proposal {
            Some(proposal) => Some(proposal.routes()),
            None => None,
        }
    }

    /// The displays that go to the peer.
    pub fn published_topology(&self) -> (topology: Option<&DisplayTopology>)
        ensures
            match topology {
                Some(known) => self@.topology == Some(known@),
                None => self@.topology is None,
            },
    {
        self.topology.as_ref()
    }

    /// Takes the effects that were to follow the input that was tried again.
    pub fn take_remaining(&mut self) -> (effects: Option<Vec<Effect>>)
        ensures
            match effects {
                Some(known) => old(self)@.remaining == Some(known@),
                None => old(self)@.remaining is None,
            },
            final(self)@ == (RefreshRunModel { remaining: None, ..old(self)@ }),
    {
        self.remaining.take()
    }

    fn end(&mut self, result: Result<(), SessionRuntimeError>) -> (step: RefreshStep)
        ensures
            ends(old(self)@, result, step, final(self)@),
    {
        self.phase = RefreshPhase::Ended(result);
        RefreshStep::Finished(result)
    }

    fn go(&mut self, phase: RefreshPhase, step: RefreshStep) -> (taken: RefreshStep)
        ensures
            goes(old(self)@, phase, step, taken, final(self)@),
    {
        self.phase = phase;
        step
    }

    fn retry(&mut self, session: &mut PeerSession) -> (step: RefreshStep)
        ensures
            retried(old(self)@, old(session)@, step, final(self)@, final(session)@),
    {
        if !self.retries {
            return self.end(Ok(()));
        }
        match session.take_injection_retry() {
            None => self.end(Ok(())),
            Some(retry) => match session.resolve_incoming(retry.input) {
                None => self.end(Ok(())),
                Some(input) => {
                    self.remaining = Some(retry.remaining_effects);
                    self.phase = RefreshPhase::Injecting;
                    RefreshStep::Inject { input }
                },
            },
        }
    }

    fn drive_on(&mut self, session: &mut PeerSession, core: &CoreView) -> (step: RefreshStep)
        ensures
            driven(old(self)@, old(session)@, *core, step, final(self)@, final(session)@),
    {
        let owed = session.local_ack_pending();
        if !owed {
            session.acknowledge_refresh();
        }
        if owed || session.snapshot_pending() {
            return self.retry(session);
        }
        match session.take_candidate() {
            Some(candidate) => {
                let revision: u64 = candidate.revision();
                self.candidate = Some(candidate);
                self.phase = RefreshPhase::Publishing { revision };
                RefreshStep::Reduce { event: CoreEvent::LocalTopologyPublished { revision } }
            },
            None => {
                if !core.local_grant_allows_peer_input || session.local_is_ready() {
                    return self.go(
                        RefreshPhase::DrivenReady,
                        RefreshStep::PublishReadiness {
                            readiness: SessionTopologyReadiness::Ready,
                        },
                    );
                }
                self.retry(session)
            },
        }
    }

    fn offer(&mut self, proposal: Option<RouteProposal>, phase: RefreshPhase) -> (step: RefreshStep)
        ensures
            match proposal {
                Some(routes) => {
                    &&& step is ArmRoutes
                    &&& final(self)@ == (RefreshRunModel {
                        proposal: Some(routes@),
                        ..old(self)@.at(phase)
                    })
                },
                None => ends(
                    old(self)@,
                    Err(SessionRuntimeError::Platform),
                    step,
                    final(self)@,
                ),
            },
    {
        match proposal {
            Some(routes) => {
                self.proposal = Some(routes);
                self.phase = phase;
                RefreshStep::ArmRoutes
            },
            None => self.end(Err(SessionRuntimeError::Platform)),
        }
    }

    fn arm(&mut self, session: &mut PeerSession, done: bool, phase: RefreshPhase) -> (step:
        RefreshStep)
        ensures
            armed(old(self)@, old(session)@, done, phase, step, final(self)@, final(session)@),
    {
        match self.proposal.take() {
            None => self.end(Err(SessionRuntimeError::Platform)),
            Some(proposal) => {
                if session.install_routes(proposal, done) {
                    self.go(phase, RefreshStep::ResumeAdmission)
                } else {
                    self.end(Err(SessionRuntimeError::Platform))
                }
            },
        }
    }

    fn publish(&mut self, session: &mut PeerSession, revision: u64) -> (step: RefreshStep)
        requires
            old(self)@.phase == (RefreshPhase::Publishing { revision }),
        ensures
            forall|core: CoreView, now: u64| #[trigger]
                advanced(
                    old(self)@,
                    old(session)@,
                    core,
                    now,
                    ActionOutcome::Done,
                    step,
                    final(self)@,
                    final(session)@,
                ),
    {
        match self.candidate.take() {
            None => self.end(Err(SessionRuntimeError::Platform)),
            Some(candidate) => match session.commit_candidate(candidate) {
                None => self.end(Err(SessionRuntimeError::Platform)),
                Some(topology) => {
                    if topology.revision != revision {
                        return self.end(Err(SessionRuntimeError::ProtocolViolation));
                    }
                    session.record_publish(revision);
                    let meta = session.next_meta(SequenceKind::Control);
                    self.topology = Some(topology);
                    self.phase = RefreshPhase::Sending;
                    RefreshStep::SendTopology {
                        message: ControlMessage::DisplayTopology { meta, revision },
                    }
                },
            },
        }
    }

    /// Takes in what became of the last step and says what is next.
    pub fn advance(
        &mut self,
        session: &mut PeerSession,
        core: &CoreView,
        now: u64,
        outcome: ActionOutcome,
    ) -> (step: RefreshStep)
        ensures
            advanced(
                old(self)@,
                old(session)@,
                *core,
                now,
                outcome,
                step,
                final(self)@,
                final(session)@,
            ),
    {
        let done = outcome == ActionOutcome::Done;
        match self.phase {
            RefreshPhase::Start => {
                if session.snapshot_pending() {
                    self.go(RefreshPhase::Snapshot, RefreshStep::TakeSnapshot)
                } else {
                    self.go(
                        RefreshPhase::Synchronizing,
                        RefreshStep::PublishReadiness {
                            readiness: SessionTopologyReadiness::Synchronizing,
                        },
                    )
                }
            },
            RefreshPhase::Snapshot => {
                match outcome {
                    ActionOutcome::SnapshotPending => self.end(Ok(())),
                    _ => self.end(Err(outcome_error(outcome))),
                }
            },
            RefreshPhase::SettledArming => self.arm(session, done, RefreshPhase::SettledResuming),
            RefreshPhase::UnpublishedArming => self.arm(
                session,
                done,
                RefreshPhase::UnpublishedResuming,
            ),
            RefreshPhase::SettledResuming | RefreshPhase::Drive => self.drive_on(session, core),
            RefreshPhase::UnpublishedResuming => self.go(
                RefreshPhase::UnpublishedReady,
                RefreshStep::PublishReadiness { readiness: SessionTopologyReadiness::Ready },
            ),
            RefreshPhase::Published => {
                session.arm_ack_deadline(now);
                self.retry(session)
            },
            RefreshPhase::Injecting => {
                if done {
                    self.go(RefreshPhase::Remaining, RefreshStep::CarryOut)
                } else {
                    session.latch_failure();
                    self.end(Err(SessionRuntimeError::Platform))
                }
            },
            RefreshPhase::Remaining => {
                if done {
                    self.end(Ok(()))
                } else {
                    self.end(Err(outcome_error(outcome)))
                }
            },
            RefreshPhase::Ended(result) => self.end(result),
            RefreshPhase::Publishing { revision } => {
                if !done {
                    self.candidate = None;
                    return self.end(Err(outcome_error(outcome)));
                }
                self.publish(session, revision)
            },
            _ => {
                if !done {
                    return self.end(Err(outcome_error(outcome)));
                }
                self.advance_done(session, core, now)
            },
        }
    }

    fn advance_done(&mut self, session: &mut PeerSession, core: &CoreView, now: u64) -> (step:
        RefreshStep)
        requires
            old(self)@.phase is Synchronizing || old(self)@.phase is StoppingRouting || old(
                self,
            )@.phase is Pausing || old(self)@.phase is Draining || old(self)@.phase is Starting
                || old(self)@.phase is Settling || old(self)@.phase is Unpublished || old(
                self,
            )@.phase is UnpublishedReady || old(self)@.phase is Sending || old(
                self,
            )@.phase is DrivenReady,
        ensures
            advanced(
                old(self)@,
                old(session)@,
                *core,
                now,
                ActionOutcome::Done,
                step,
                final(self)@,
                final(session)@,
            ),
    {
        match self.phase {
            RefreshPhase::Synchronizing => {
                session.begin_snapshot(now);
                self.go(RefreshPhase::StoppingRouting, RefreshStep::StopRouting)
            },
            RefreshPhase::StoppingRouting => {
                session.set_routing(false);
                self.go(RefreshPhase::Pausing, RefreshStep::PauseAdmission)
            },
            RefreshPhase::Pausing => {
                session.begin_local_transition();
                if self.has_input {
                    let forward = match core.focus {
                        FocusState::ControllingRemote { .. } => true,
                        _ => false,
                    };
                    self.go(RefreshPhase::Draining, RefreshStep::DrainInput { forward })
                } else {
                    self.go(
                        RefreshPhase::Starting,
                        RefreshStep::Reduce { event: CoreEvent::LocalTopologyRefreshStarted },
                    )
                }
            },
            RefreshPhase::Draining => self.go(
                RefreshPhase::Starting,
                RefreshStep::Reduce { event: CoreEvent::LocalTopologyRefreshStarted },
            ),
            RefreshPhase::Starting => self.go(RefreshPhase::Snapshot, RefreshStep::TakeSnapshot),
            RefreshPhase::Settling => {
                let proposal = session.finish_unchanged();
                self.offer(proposal, RefreshPhase::SettledArming)
            },
            RefreshPhase::Unpublished => {
                let proposal = session.mark_unpublished_ready();
                self.offer(proposal, RefreshPhase::UnpublishedArming)
            },
            RefreshPhase::Sending => self.go(RefreshPhase::Published, RefreshStep::ResumeAdmission),
            _ => self.retry(session),
        }
    }

    /// Takes a stable snapshot in. One that comes too late fails the refresh.
    /// `topology_admitted` is the display vocabulary's answer on
    /// `PeerSession::proposed_topology`.
    pub fn snapshot(
        &mut self,
        session: &mut PeerSession,
        core: &CoreView,
        now: u64,
        snapshots: &Vec<NativeDisplaySnapshot>,
        topology_admitted: bool,
    ) -> (step: RefreshStep)
        ensures
            snapshot_advanced(
                old(self)@,
                old(session)@,
                *core,
                now,
                snapshots@,
                topology_admitted,
                step,
                final(self)@,
                final(session)@,
            ),
    {
        if session.refresh_late(now) {
            return self.end(Err(SessionRuntimeError::Platform));
        }
        let verdict = session.take_snapshot(snapshots, topology_admitted);
        let ghost taken = session@;
        assert(snapshot_taken(old(session)@, snapshots@, topology_admitted, verdict, taken));
        match verdict {
            SnapshotVerdict::Unusable => self.end(Err(SessionRuntimeError::Platform)),
            SnapshotVerdict::Unchanged => self.go(
                RefreshPhase::Settling,
                RefreshStep::Reduce { event: CoreEvent::LocalTopologyRefreshUnchanged },
            ),
            SnapshotVerdict::Changed => {
                if core.local_grant_allows_peer_input {
                    return self.drive_on(session, core);
                }
                match session.take_candidate() {
                    None => self.end(Err(SessionRuntimeError::Platform)),
                    Some(candidate) => match session.commit_candidate(candidate) {
                        None => self.end(Err(SessionRuntimeError::Platform)),
                        Some(_) => self.go(
                            RefreshPhase::Unpublished,
                            RefreshStep::Reduce {
                                event: CoreEvent::LocalTopologyRefreshUnchanged,
                            },
                        ),
                    },
                }
            },
        }
    }
}

/// Before a snapshot is taken, routing to the peer and the old routes have
/// ended.
pub proof fn law_refresh_stops_routing_first(
    run: RefreshRunModel,
    session: SessionModel,
    core: CoreView,
    now: u64,
    step: RefreshStep,
    after: RefreshRunModel,
    session_after: SessionModel,
)
    requires
        advanced(run, session, core, now, ActionOutcome::Done, step, after, session_after),
    ensures
        run.phase is StoppingRouting ==> !session_after.routing_to_peer,
        run.phase is Pausing ==> session_after.topology.routes.len() == 0
            && session_after.topology.local_transition_pending,
        step is TakeSnapshot && run.phase !is Start ==> run.phase is Starting,
{
}

/// Input that was held back is tried at most once more: a second failure is
/// latched.
pub proof fn law_one_retry_only(
    run: RefreshRunModel,
    session: SessionModel,
    core: CoreView,
    now: u64,
    outcome: ActionOutcome,
    step: RefreshStep,
    after: RefreshRunModel,
    session_after: SessionModel,
)
    requires
        advanced(run, session, core, now, outcome, step, after, session_after),
    ensures
        step is Inject ==> session_after.refresh.retry is None,
        run.phase is Injecting && outcome != ActionOutcome::Done ==> session_after.failure_latched
            && step == RefreshStep::Finished(Err(SessionRuntimeError::Platform)),
{
}

/// A refresh goes its way in order while each step is done: routing stops, input
/// is held and drained, the reducer is told, and only then the displays are looked
/// at. What was admitted before goes on to the peer only while it is controlled.
pub proof fn law_refreshes_go_in_order(
    run: RefreshRunModel,
    session: SessionModel,
    core: CoreView,
    now: u64,
    step: RefreshStep,
    after: RefreshRunModel,
    session_after: SessionModel,
)
    requires
        advanced(run, session, core, now, ActionOutcome::Done, step, after, session_after),
    ensures
        run.phase is Start && session.refresh.snapshot_deadline is Some ==> step is TakeSnapshot
            && after.phase is Snapshot && session_after == session,
        run.phase is Start && session.refresh.snapshot_deadline is None ==> step == (
        RefreshStep::PublishReadiness { readiness: SessionTopologyReadiness::Synchronizing })
            && after.phase is Synchronizing && session_after == session,
        run.phase is Synchronizing ==> step is StopRouting && after.phase is StoppingRouting
            && session_after == session.with_refresh(session.refresh.snapshot_begun(now)),
        run.phase is StoppingRouting ==> step is PauseAdmission && after.phase is Pausing
            && session_after == session.with_routing(false),
        run.phase is Pausing && run.has_input ==> step == (RefreshStep::DrainInput {
            forward: core.focus is ControllingRemote,
        }) && after.phase is Draining,
        run.phase is Pausing && !run.has_input || run.phase is Draining ==> step == (
        RefreshStep::Reduce { event: CoreEvent::LocalTopologyRefreshStarted }) && after.phase
            is Starting,
        run.phase is Starting ==> step is TakeSnapshot && after.phase is Snapshot && session_after
            == session,
        run.phase is UnpublishedResuming ==> step == (RefreshStep::PublishReadiness {
            readiness: SessionTopologyReadiness::Ready,
        }) && after.phase is UnpublishedReady && session_after == session,
        run.phase is Sending ==> step is ResumeAdmission && after.phase is Published
            && session_after == session,
        run.phase is Injecting ==> step is CarryOut && after.phase is Remaining && session_after
            == session && after.remaining == run.remaining,
        run.phase is Remaining ==> step == RefreshStep::Finished(Ok(())),
        step matches RefreshStep::Finished(result) ==> after.phase == RefreshPhase::Ended(result),
{
}

/// A step that failed ends the refresh with its failure. A snapshot that is not
/// there yet is no failure: the refresh ends and is taken up again.
pub proof fn law_refreshes_end_with_the_failure(
    run: RefreshRunModel,
    session: SessionModel,
    core: CoreView,
    now: u64,
    outcome: ActionOutcome,
    step: RefreshStep,
    after: RefreshRunModel,
    session_after: SessionModel,
)
    requires
        !(outcome is Done),
        advanced(run, session, core, now, outcome, step, after, session_after),
    ensures
        ({
            let told = run.phase is Synchronizing || run.phase is StoppingRouting || run.phase
                is Pausing || run.phase is Draining || run.phase is Starting || run.phase
                is Settling || run.phase is Unpublished || run.phase is UnpublishedReady
                || run.phase is Publishing || run.phase is Sending || run.phase is DrivenReady
                || run.phase is Remaining;
            &&& told ==> session_after == session && (step matches RefreshStep::Finished(
                Err(error),
            ) && match outcome {
                ActionOutcome::Failed(cause) => error == cause,
                _ => error is Platform,
            })
            &&& run.phase is SettledArming || run.phase is UnpublishedArming ==> session_after
                == session && step == RefreshStep::Finished(Err(SessionRuntimeError::Platform))
            &&& run.phase is Snapshot && outcome is SnapshotPending ==> step
                == RefreshStep::Finished(Ok(())) && session_after == session
            &&& run.phase is Snapshot && outcome is Failed ==> (outcome matches
                ActionOutcome::Failed(cause) && step == RefreshStep::Finished(Err(cause))
                && session_after == session)
        }),
{
}

/// Displays that are settled end the change: the old focus is forgotten, and the
/// routes that they warrant are offered and, once taken, in force. Without known
/// displays the refresh fails.
pub proof fn law_settled_displays_offer_their_routes(
    run: RefreshRunModel,
    session: SessionModel,
    core: CoreView,
    now: u64,
    step: RefreshStep,
    after: RefreshRunModel,
    session_after: SessionModel,
)
    requires
        advanced(run, session, core, now, ActionOutcome::Done, step, after, session_after),
    ensures
        run.phase is Settling || run.phase is Unpublished ==> {
            let known = session.topology.local.revision > 0 && (run.phase is Unpublished
                ==> session.topology.published_local_revision is None);
            &&& known ==> {
                &&& step is ArmRoutes
                &&& !session_after.topology.local_transition_pending
                &&& session_after.topology.active_route is None
                &&& session_after.topology.pending_target is None
                &&& session_after.topology.local == session.topology.local
                &&& session_after.topology.remote == session.topology.remote
                &&& after.proposal matches Some(routes) && session_after.topology.warrants(routes)
                &&& run.phase is Settling ==> after.phase is SettledArming
                &&& run.phase is Unpublished ==> after.phase is UnpublishedArming
            }
            &&& !known ==> step == RefreshStep::Finished(Err(SessionRuntimeError::Platform))
                && session_after == session
        },
        run.phase is SettledArming || run.phase is UnpublishedArming ==> match run.proposal {
            Some(routes) => {
                &&& step is ResumeAdmission
                &&& session_after.topology.routes == routes
                &&& session_after == session.with_topology(
                    PeerTopologyModel { routes, ..session.topology },
                )
                &&& run.phase is SettledArming ==> after.phase is SettledResuming
                &&& run.phase is UnpublishedArming ==> after.phase is UnpublishedResuming
            },
            None => step == RefreshStep::Finished(Err(SessionRuntimeError::Platform))
                && session_after == session,
        },
        run.phase is SettledArming || run.phase is UnpublishedArming ==> after.proposal is None,
{
}

/// While the peer owes an acknowledgement or a snapshot is missing, nothing is
/// published. Else what waits is published, and where nothing waits and nothing
/// is owed, this side is ready. A deadline for an acknowledgement that is not owed
/// is dropped.
pub proof fn law_one_publication_at_a_time(
    run: RefreshRunModel,
    session: SessionModel,
    core: CoreView,
    step: RefreshStep,
    after: RefreshRunModel,
    session_after: SessionModel,
)
    requires
        driven(run, session, core, step, after, session_after),
    ensures
        ({
            let owed = session.topology.published_local_revision
                != session.topology.ready_local_revision;
            let waits = owed || session.refresh.snapshot_deadline is Some;
            &&& waits ==> !(step is PublishReadiness) && !(step is Reduce)
                && session_after.refresh.pending == session.refresh.pending
            &&& !owed ==> session_after.refresh.ack_deadline is None
            &&& owed ==> session_after.refresh.ack_deadline == session.refresh.ack_deadline
            &&& !waits ==> session_after.refresh.pending is None
            &&& !waits ==> (session.refresh.pending matches Some((base, outcome)) ==> step == (
            RefreshStep::Reduce {
                event: CoreEvent::LocalTopologyPublished { revision: outcome.revision },
            }) && after.candidate == Some((base, outcome)) && after.phase == (
            RefreshPhase::Publishing { revision: outcome.revision }))
            &&& step is PublishReadiness ==> {
                &&& !waits
                &&& session.refresh.pending is None
                &&& step == (RefreshStep::PublishReadiness {
                    readiness: SessionTopologyReadiness::Ready,
                })
                &&& after.phase is DrivenReady
                &&& !core.local_grant_allows_peer_input || session.topology.local_ready()
            }
            &&& !waits && session.refresh.pending is None && (!core.local_grant_allows_peer_input
                || session.topology.local_ready()) ==> step is PublishReadiness
            &&& session_after.topology == session.topology
            &&& session_after.refresh.snapshot_deadline == session.refresh.snapshot_deadline
        }),
{
}

/// At the end of a refresh that was seen here, input that was held back is
/// injected where its display is still there, with what was to follow it kept;
/// for a display that is gone it is dropped.
pub proof fn law_held_input_is_tried_again(
    run: RefreshRunModel,
    session: SessionModel,
    step: RefreshStep,
    after: RefreshRunModel,
    session_after: SessionModel,
)
    requires
        retried(run, session, step, after, session_after),
    ensures
        !run.retries ==> step == RefreshStep::Finished(Ok(())) && session_after == session,
        run.retries ==> session_after == (SessionModel {
            refresh: RefreshModel { retry: None, ..session.refresh },
            ..session
        }),
        run.retries && session.refresh.retry is None ==> step == RefreshStep::Finished(Ok(())),
        run.retries ==> (session.refresh.retry matches Some((input, rest)) ==> match step {
            RefreshStep::Inject { input: native } => resolves(session.topology, input, native)
                && after.remaining == Some(rest) && after.phase is Injecting,
            RefreshStep::Finished(Ok(_)) => unresolvable(session.topology, input),
            _ => false,
        }),
{
}

/// Published displays are the candidate's, under its revision, in the next
/// control message: they are in force here, not yet ready there, and no route
/// leads over them. A candidate for other displays is not published.
pub proof fn law_publication_sends_the_candidate(
    run: RefreshRunModel,
    session: SessionModel,
    core: CoreView,
    now: u64,
    revision: u64,
    step: RefreshStep,
    after: RefreshRunModel,
    session_after: SessionModel,
)
    requires
        run.phase == (RefreshPhase::Publishing { revision }),
        advanced(run, session, core, now, ActionOutcome::Done, step, after, session_after),
    ensures
        ({
            let fits = run.candidate matches Some((base, outcome)) && commits(
                session.topology,
                base,
                outcome,
            );
            let sent = fits && (run.candidate matches Some((_, outcome)) && outcome.revision
                == revision);
            &&& after.candidate is None
            &&& sent ==> {
                &&& step matches RefreshStep::SendTopology {
                    message: ControlMessage::DisplayTopology { meta, revision: shown },
                } && shown == revision && meta == session.next_meta(SequenceKind::Control)
                &&& after.phase is Sending
                &&& run.candidate matches Some((_, outcome)) && session_after.topology.local
                    == outcome && after.topology == Some(
                    TopologyModel { revision, displays: descriptors(outcome.placed) },
                )
                &&& session_after.topology.published_local_revision == Some(revision)
                &&& session_after.topology.ready_local_revision is None
                &&& session_after.topology.local_transition_pending
                &&& session_after.topology.routes.len() == 0
                &&& session_after.control_sequence == session.next_meta(
                    SequenceKind::Control,
                ).sequence
            }
            &&& !sent ==> step is Finished && !(step matches RefreshStep::Finished(Ok(_)))
            &&& !fits ==> session_after == session && step == RefreshStep::Finished(
                Err(SessionRuntimeError::Platform),
            )
            &&& fits && !sent ==> step == RefreshStep::Finished(
                Err(SessionRuntimeError::ProtocolViolation),
            )
        }),
{
}

/// Once displays were sent, the peer has five seconds to acknowledge them, after
/// the first exchange.
pub proof fn law_acknowledgements_have_five_seconds(
    run: RefreshRunModel,
    session: SessionModel,
    core: CoreView,
    now: u64,
    outcome: ActionOutcome,
    step: RefreshStep,
    after: RefreshRunModel,
    session_after: SessionModel,
)
    requires
        run.phase is Published,
        advanced(run, session, core, now, outcome, step, after, session_after),
    ensures
        session.topology_initialized ==> (session_after.refresh.ack_deadline matches Some(deadline)
            && (deadline == now + 5_000 || now + 5_000 > u64::MAX && deadline == u64::MAX)),
        !session.topology_initialized ==> session_after.refresh.ack_deadline
            == session.refresh.ack_deadline,
        session_after.topology == session.topology,
{
}

/// A snapshot that comes too late, or is of no use, fails the refresh; one that
/// shows nothing new settles the displays that are known. New displays are
/// published where the peer may give input here, and else come into force at
/// once.
pub proof fn law_snapshots_decide_the_refresh(
    run: RefreshRunModel,
    session: SessionModel,
    core: CoreView,
    now: u64,
    snapshots: Seq<NativeDisplaySnapshot>,
    topology_admitted: bool,
    step: RefreshStep,
    after: RefreshRunModel,
    session_after: SessionModel,
)
    requires
        snapshot_advanced(
            run,
            session,
            core,
            now,
            snapshots,
            topology_admitted,
            step,
            after,
            session_after,
        ),
    ensures
        session.refresh.late(now) ==> step == RefreshStep::Finished(
            Err(SessionRuntimeError::Platform),
        ) && session_after == session,
        !session.refresh.late(now) ==> exists|verdict: SnapshotVerdict, taken: SessionModel| #[trigger]
            snapshot_taken(session, snapshots, topology_admitted, verdict, taken) && {
                &&& verdict is Unusable ==> step == RefreshStep::Finished(
                    Err(SessionRuntimeError::Platform),
                ) && session_after == taken
                &&& verdict is Unchanged ==> session_after == taken && after.phase is Settling
                    && step == (RefreshStep::Reduce {
                    event: CoreEvent::LocalTopologyRefreshUnchanged,
                })
                &&& verdict is Changed && core.local_grant_allows_peer_input ==> driven(
                    run,
                    taken,
                    core,
                    step,
                    after,
                    session_after,
                )
                &&& verdict is Changed && !core.local_grant_allows_peer_input ==> {
                    &&& session_after.refresh.pending is None
                    &&& match step {
                        RefreshStep::Reduce { event } => event is LocalTopologyRefreshUnchanged
                            && after.phase is Unpublished && (taken.refresh.pending matches Some(
                            (base, outcome),
                        ) && commits(taken.topology, base, outcome) && session_after.topology.local
                            == outcome),
                        RefreshStep::Finished(Err(error)) => error is Platform && !(
                        taken.refresh.pending matches Some((base, outcome)) && commits(
                            taken.topology,
                            base,
                            outcome,
                        )) && session_after.topology == taken.topology,
                        _ => false,
                    }
                }
            },
{
}

} // verus!
