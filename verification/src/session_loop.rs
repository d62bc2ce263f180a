//! A session from its start to its end: exchanging the displays, then one event
//! after the other, in a fixed order of priority.

use vstd::prelude::*;
use crate::displays::NativeDisplaySnapshot;
use crate::identifiers::SessionId;
use crate::native_bridge::PlatformSafetyEvent;
use crate::routes::EdgeRoute;
use crate::session_commands::{
    command_preflight,
    first_step,
    platform_safety_command,
    urgent_command,
    CommandStep,
    LocalSessionCommand,
};
use crate::session_control::{core_event_for_platform_safety, safety_event_of};
use crate::session_core::{CoreEvent, Effect, FocusState, LinkState};
use crate::session_effects::ActionOutcome;
use crate::session_model::{
    commits,
    snapshot_taken,
    CoreView,
    PeerGrantState,
    PeerSession,
    RefreshModel,
    SessionConfig,
    SessionModel,
    SnapshotVerdict,
};
use crate::session_refresh::error_of;
use crate::session_safety::{transfer_send_failure_is_link_loss, SessionRuntimeError};
use crate::topology_runtime::{PeerTopologyModel, RouteProposal};
use crate::transfer_runtime::PeerTransferConfig;

verus! {

/// What the reducer is told once a session is negotiated.
pub fn session_established(
    config: &SessionConfig,
    session_id: SessionId,
    peer_grant: &PeerGrantState,
) -> (event: CoreEvent)
    ensures
        event == (CoreEvent::SessionEstablished {
            session_id,
            peer_id: config.peer_device,
            local_grant_epoch: config.local_grant_epoch,
            peer_grant_epoch: peer_grant.epoch,
            local_grant_allows_peer_input: config.local_grants_to_peer.remote_input,
            peer_grant_allows_local_input: peer_grant.capabilities.remote_input,
        }),
{
    CoreEvent::SessionEstablished {
        session_id,
        peer_id: config.peer_device,
        local_grant_epoch: config.local_grant_epoch,
        peer_grant_epoch: peer_grant.epoch,
        local_grant_allows_peer_input: config.local_grants_to_peer.remote_input,
        peer_grant_allows_local_input: peer_grant.capabilities.remote_input,
    }
}

/// A session that has just begun asks for nothing.
pub fn establishment_accepted(effects: &Vec<Effect>) -> (accepted: Result<(), SessionRuntimeError>)
    ensures
        accepted == if effects@.len() == 0 {
            Ok(())
        } else {
            Err::<(), _>(SessionRuntimeError::ProtocolViolation)
        },
{
    if effects.len() == 0 {
        Ok(())
    } else {
        Err(SessionRuntimeError::ProtocolViolation)
    }
}

/// What file transfers of the session go by.
pub fn transfer_config(
    config: &SessionConfig,
    session_id: SessionId,
    peer_grant: &PeerGrantState,
) -> (transfer: PeerTransferConfig)
    ensures
        transfer == (PeerTransferConfig {
            local_device: config.local_device,
            peer_device: config.peer_device,
            session_id,
            local_grant_epoch: config.local_grant_epoch,
            peer_grant_epoch: peer_grant.epoch,
            local_allows_peer_transfer: config.local_grants_to_peer.file_transfer,
            peer_capabilities: peer_grant.capabilities,
        }),
{
    PeerTransferConfig {
        local_device: config.local_device,
        peer_device: config.peer_device,
        session_id,
        local_grant_epoch: config.local_grant_epoch,
        peer_grant_epoch: peer_grant.epoch,
        local_allows_peer_transfer: config.local_grants_to_peer.file_transfer,
        peer_capabilities: peer_grant.capabilities,
    }
}

impl PeerSession {
    /// Whether the displays have to be refreshed before anything else.
    /// `change_pending`: the platform has seen a change.
    pub fn preflight_needed(&self, change_pending: bool) -> (needed: bool)
        ensures
            needed == (self@.topology_initialized && (change_pending
                || self@.refresh.snapshot_deadline is Some)),
    {
        self.is_initialized() && (change_pending || self.snapshot_pending())
    }
}

/// How a refresh came to its end.
#[derive(Clone, Copy, Debug)]
pub enum RefreshOutcome {
    Completed(Result<(), SessionRuntimeError>),
    TimedOut,
    PlatformSafety(Option<PlatformSafetyEvent>),
    Disconnect,
}

/// What follows a refresh.
#[derive(Clone, Copy, Debug)]
pub enum RefreshVerdict {
    Done(Result<(), SessionRuntimeError>),
    /// Recover; then fail as a failure of the platform.
    Recover { event: CoreEvent },
}

/// A safety signal, a disconnect or a timeout goes before the refresh.
pub fn refresh_ended(outcome: RefreshOutcome) -> (verdict: RefreshVerdict)
    ensures
        verdict == match outcome {
            RefreshOutcome::Completed(result) => RefreshVerdict::Done(result),
            RefreshOutcome::PlatformSafety(Some(event)) => RefreshVerdict::Recover {
                event: safety_event_of(event),
            },
            _ => RefreshVerdict::Recover { event: CoreEvent::LocalEmergencyStop },
        },
{
    match outcome {
        RefreshOutcome::Completed(result) => RefreshVerdict::Done(result),
        RefreshOutcome::PlatformSafety(Some(event)) => RefreshVerdict::Recover {
            event: core_event_for_platform_safety(event),
        },
        RefreshOutcome::TimedOut
        | RefreshOutcome::PlatformSafety(None)
        | RefreshOutcome::Disconnect => RefreshVerdict::Recover {
            event: CoreEvent::LocalEmergencyStop,
        },
    }
}

/// What comes between while the displays are first exchanged.
#[derive(Clone, Copy, Debug)]
pub enum InitSignal {
    /// All sessions are to end, or nobody can ask for that any more.
    Disconnect { requested: bool },
    /// A safety signal, or nobody can give one any more.
    Safety(Option<PlatformSafetyEvent>),
    TimedOut,
    /// What the peer sent ended the session.
    PeerEnded,
}

/// What follows a signal.
#[derive(Clone, Copy, Debug)]
pub enum InitVerdict {
    /// Nothing; wait again.
    Again,
    /// Recover; then fail with this.
    Recover { event: CoreEvent, error: SessionRuntimeError },
    Fail(SessionRuntimeError),
}

/// An order to end and a safety signal are recovered from before the exchange
/// fails. A snapshot that does not come is the platform's failure, and a peer
/// that does not answer is the connection's.
pub fn init_interrupted(waits_for_peer: bool, signal: InitSignal) -> (verdict: InitVerdict)
    ensures
        verdict == match signal {
            InitSignal::Disconnect { requested: true } => InitVerdict::Recover {
                event: CoreEvent::LocalEmergencyStop,
                error: SessionRuntimeError::Platform,
            },
            InitSignal::Disconnect { requested: false } => InitVerdict::Fail(
                SessionRuntimeError::Platform,
            ),
            InitSignal::Safety(Some(event)) => InitVerdict::Recover {
                event: safety_event_of(event),
                error: SessionRuntimeError::Platform,
            },
            InitSignal::Safety(None) => InitVerdict::Again,
            InitSignal::TimedOut => InitVerdict::Fail(
                if waits_for_peer {
                    SessionRuntimeError::Transport
                } else {
                    SessionRuntimeError::Platform
                },
            ),
            InitSignal::PeerEnded => InitVerdict::Fail(SessionRuntimeError::Transport),
        },
{
    match signal {
        InitSignal::Disconnect { requested } => if requested {
            InitVerdict::Recover {
                event: CoreEvent::LocalEmergencyStop,
                error: SessionRuntimeError::Platform,
            }
        } else {
            InitVerdict::Fail(SessionRuntimeError::Platform)
        },
        InitSignal::Safety(Some(event)) => InitVerdict::Recover {
            event: core_event_for_platform_safety(event),
            error: SessionRuntimeError::Platform,
        },
        InitSignal::Safety(None) => InitVerdict::Again,
        InitSignal::TimedOut => InitVerdict::Fail(
            if waits_for_peer {
                SessionRuntimeError::Transport
            } else {
                SessionRuntimeError::Platform
            },
        ),
        InitSignal::PeerEnded => InitVerdict::Fail(SessionRuntimeError::Transport),
    }
}

/// What exchanging the displays needs done next.
#[derive(Clone, Copy, Debug)]
pub enum InitStep {
    /// Then call `snapshot` with the result, or `advance` if there is none.
    TakeSnapshot,
    /// Wait a moment; `init_interrupted` says which signals fail the wait.
    Wait,
    /// Publish the candidate that waits: drive a refresh to its end.
    Publish,
    /// Tell the reducer, as an event of this side, and carry its effects out.
    Reduce { event: CoreEvent },
    ArmRoutes,
    /// Handle one event of the connection; `init_interrupted` says what fails.
    AwaitPeer,
    Finished(Result<(), SessionRuntimeError>),
}

#[derive(Clone, Copy, Debug)]
pub enum InitPhase {
    Start,
    Snapshot,
    Waiting,
    Publishing,
    Starting { unpublished: bool },
    Arming,
    Exchanging,
    Finishing,
    Ended(Result<(), SessionRuntimeError>),
}

pub struct InitRunModel {
    pub phase: InitPhase,
    pub proposal: Option<Seq<EdgeRoute>>,
}

/// The first exchange of displays, step by step.
pub struct InitRun {
    phase: InitPhase,
    proposal: Option<RouteProposal>,
}

impl View for InitRun {
    type V = InitRunModel;

    closed spec fn view(&self) -> InitRunModel {
        InitRunModel {
            phase: self.phase,
            proposal: match self.proposal {
                Some(proposal) => Some(proposal@),
                None => None,
            },
        }
    }
}

pub open spec fn init_ends(
    run: InitRunModel,
    result: Result<(), SessionRuntimeError>,
    step: InitStep,
    after: InitRunModel,
) -> bool {
    &&& step == InitStep::Finished(result)
    &&& after == (InitRunModel { phase: InitPhase::Ended(result), ..run })
}

pub open spec fn init_goes(
    run: InitRunModel,
    phase: InitPhase,
    expected: InitStep,
    step: InitStep,
    after: InitRunModel,
) -> bool {
    &&& step == expected
    &&& after == (InitRunModel { phase, ..run })
}

/// Everything that has to be exchanged was exchanged: the remote displays where
/// the peer may be controlled, the acknowledgement where it may control.
pub open spec fn exchanged(core: CoreView) -> bool {
    &&& core.peer_grant_allows_local_input ==> core.remote_topology_known
    &&& core.local_grant_allows_peer_input ==> core.local_topology_acknowledged
}

pub open spec fn exchanging(
    run: InitRunModel,
    core: CoreView,
    step: InitStep,
    after: InitRunModel,
) -> bool {
    if exchanged(core) {
        init_goes(
            run,
            InitPhase::Finishing,
            InitStep::Reduce { event: CoreEvent::LocalTopologyRefreshUnchanged },
            step,
            after,
        )
    } else {
        init_goes(run, InitPhase::Exchanging, InitStep::AwaitPeer, step, after)
    }
}

/// Every step but the taking of a snapshot.
pub open spec fn init_advanced(
    run: InitRunModel,
    session: SessionModel,
    core: CoreView,
    outcome: ActionOutcome,
    step: InitStep,
    after: InitRunModel,
    session_after: SessionModel,
) -> bool {
    let done = outcome == ActionOutcome::Done;
    let failed = session_after == session && init_ends(run, Err(error_of(outcome)), step, after);
    match run.phase {
        InitPhase::Start => {
            &&& session_after == session
            &&& init_goes(run, InitPhase::Snapshot, InitStep::TakeSnapshot, step, after)
        },
        InitPhase::Snapshot => if outcome == ActionOutcome::SnapshotPending {
            &&& session_after == session
            &&& init_goes(run, InitPhase::Waiting, InitStep::Wait, step, after)
        } else {
            failed
        },
        InitPhase::Waiting => if !done {
            failed
        } else {
            &&& session_after == session
            &&& init_goes(run, InitPhase::Snapshot, InitStep::TakeSnapshot, step, after)
        },
        InitPhase::Publishing => if !done {
            failed
        } else {
            &&& session_after == session
            &&& init_goes(
                run,
                InitPhase::Starting { unpublished: false },
                InitStep::Reduce { event: CoreEvent::LocalTopologyRefreshStarted },
                step,
                after,
            )
        },
        InitPhase::Starting { unpublished } => if !done {
            failed
        } else if !unpublished {
            &&& session_after == session
            &&& exchanging(run, core, step, after)
        } else if session.topology.local.revision > 0
            && session.topology.published_local_revision is None {
            let topology = PeerTopologyModel {
                local_transition_pending: false,
                ..session.topology.unfocused()
            };
            &&& session_after == session.with_topology(topology)
            &&& step is ArmRoutes
            &&& after.phase is Arming
            &&& after.proposal matches Some(routes) && topology.warrants(routes)
        } else {
            &&& session_after == session
            &&& init_ends(run, Err(SessionRuntimeError::Platform), step, after)
        },
        InitPhase::Arming => {
            let emptied = InitRunModel { proposal: None, ..run };
            match run.proposal {
                Some(routes) => if done {
                    &&& session_after == session.with_topology(
                        PeerTopologyModel { routes, ..session.topology },
                    )
                    &&& exchanging(emptied, core, step, after)
                } else {
                    &&& session_after == session
                    &&& init_ends(emptied, Err(SessionRuntimeError::Platform), step, after)
                },
                None => {
                    &&& session_after == session
                    &&& init_ends(emptied, Err(SessionRuntimeError::Platform), step, after)
                },
            }
        },
        InitPhase::Exchanging => if !done {
            failed
        } else {
            &&& session_after == session
            &&& exchanging(run, core, step, after)
        },
        InitPhase::Finishing => {
            &&& session_after == session
            &&& init_ends(
                run,
                if done {
                    Ok(())
                } else {
                    Err(error_of(outcome))
                },
                step,
                after,
            )
        },
        InitPhase::Ended(result) => {
            &&& session_after == session
            &&& init_ends(run, result, step, after)
        },
    }
}

/// The first snapshot was taken: it has to make displays known.
pub open spec fn init_snapshot(
    run: InitRunModel,
    session: SessionModel,
    core: CoreView,
    snapshots: Seq<NativeDisplaySnapshot>,
    topology_admitted: bool,
    step: InitStep,
    after: InitRunModel,
    session_after: SessionModel,
) -> bool {
    exists|verdict: SnapshotVerdict, taken: SessionModel| #[trigger]
        snapshot_taken(session, snapshots, topology_admitted, verdict, taken) && if verdict
            != SnapshotVerdict::Changed {
            &&& session_after == taken
            &&& init_ends(run, Err(SessionRuntimeError::Platform), step, after)
        } else if core.local_grant_allows_peer_input {
            &&& session_after == taken
            &&& init_goes(run, InitPhase::Publishing, InitStep::Publish, step, after)
        } else {
            let bare = taken.with_refresh(RefreshModel { pending: None, ..taken.refresh });
            match taken.refresh.pending {
                Some((base, outcome)) => if commits(taken.topology, base, outcome) {
                    &&& session_after == bare.with_topology(
                        PeerTopologyModel { local: outcome, ..bare.topology },
                    )
                    &&& init_goes(
                        run,
                        InitPhase::Starting { unpublished: true },
                        InitStep::Reduce { event: CoreEvent::LocalTopologyRefreshStarted },
                        step,
                        after,
                    )
                } else {
                    &&& session_after == bare
                    &&& init_ends(run, Err(SessionRuntimeError::Platform), step, after)
                },
                None => {
                    &&& session_after == bare
                    &&& init_ends(run, Err(SessionRuntimeError::Platform), step, after)
                },
            }
        }
}

impl InitRun {
    pub fn new() -> (run: InitRun)
        ensures
            run@ == (InitRunModel { phase: InitPhase::Start, proposal: None }),
    {
        InitRun { phase: InitPhase::Start, proposal: None }
    }

    /// The routes that wait for the edge observer.
    pub fn proposed_routes(&self) -> (routes: Option<&Vec<EdgeRoute>>)
        ensures
            match routes {
                Some(known) => self@.proposal == Some(known@),
                None => self@.proposal is None,
            },
    {
        match &self.proposal {
            Some(proposal) => Some(proposal.routes()),
            None => None,
        }
    }

    fn end(&mut self, result: Result<(), SessionRuntimeError>) -> (step: InitStep)
        ensures
            init_ends(old(self)@, result, step, final(self)@),
    {
        self.phase = InitPhase::Ended(result);
        InitStep::Finished(result)
    }

    fn fail(&mut self, outcome: ActionOutcome) -> (step: InitStep)
        ensures
            init_ends(old(self)@, Err(error_of(outcome)), step, final(self)@),
    {
        match outcome {
            ActionOutcome::Failed(error) => self.end(Err(error)),
            _ => self.end(Err(SessionRuntimeError::Platform)),
        }
    }

    fn go(&mut self, phase: InitPhase, step: InitStep) -> (taken: InitStep)
        ensures
            init_goes(old(self)@, phase, step, taken, final(self)@),
    {
        self.phase = phase;
        step
    }

    fn exchange(&mut self, core: &CoreView) -> (step: InitStep)
        ensures
            exchanging(old(self)@, *core, step, final(self)@),
    {
        let remote_ready = !core.peer_grant_allows_local_input || core.remote_topology_known;
        let local_ready = !core.local_grant_allows_peer_input || core.local_topology_acknowledged;
        if remote_ready && local_ready {
            self.go(
                InitPhase::Finishing,
                InitStep::Reduce { event: CoreEvent::LocalTopologyRefreshUnchanged },
            )
        } else {
            self.go(InitPhase::Exchanging, InitStep::AwaitPeer)
        }
    }

    /// Takes in what became of the last step and says what is next.
    pub fn advance(
        &mut self,
        session: &mut PeerSession,
        core: &CoreView,
        outcome: ActionOutcome,
    ) -> (step: InitStep)
        ensures
            init_advanced(
                old(self)@,
                old(session)@,
                *core,
                outcome,
                step,
                final(self)@,
                final(session)@,
            ),
    {
        let done = outcome == ActionOutcome::Done;
        match self.phase {
            InitPhase::Start => self.go(InitPhase::Snapshot, InitStep::TakeSnapshot),
            InitPhase::Snapshot => {
                if outcome == ActionOutcome::SnapshotPending {
                    self.go(InitPhase::Waiting, InitStep::Wait)
                } else {
                    self.fail(outcome)
                }
            },
            InitPhase::Waiting => {
                if !done {
                    return self.fail(outcome);
                }
                self.go(InitPhase::Snapshot, InitStep::TakeSnapshot)
            },
            InitPhase::Publishing => {
                if !done {
                    return self.fail(outcome);
                }
                self.go(
                    InitPhase::Starting { unpublished: false },
                    InitStep::Reduce { event: CoreEvent::LocalTopologyRefreshStarted },
                )
            },
            InitPhase::Starting { unpublished } => {
                if !done {
                    return self.fail(outcome);
                }
                if !unpublished {
                    return self.exchange(core);
                }
                match session.mark_unpublished_ready() {
                    Some(proposal) => {
                        self.proposal = Some(proposal);
                        self.phase = InitPhase::Arming;
                        InitStep::ArmRoutes
                    },
                    None => self.end(Err(SessionRuntimeError::Platform)),
                }
            },
            InitPhase::Arming => match self.proposal.take() {
                None => self.end(Err(SessionRuntimeError::Platform)),
                Some(proposal) => {
                    if session.install_routes(proposal, done) {
                        self.exchange(core)
                    } else {
                        self.end(Err(SessionRuntimeError::Platform))
                    }
                },
            },
            InitPhase::Exchanging => {
                if !done {
                    return self.fail(outcome);
                }
                self.exchange(core)
            },
            InitPhase::Finishing => {
                if done {
                    self.end(Ok(()))
                } else {
                    self.fail(outcome)
                }
            },
            InitPhase::Ended(result) => self.end(result),
        }
    }

    /// Takes the first snapshot in. `topology_admitted` is the display
    /// vocabulary's answer on `PeerSession::proposed_topology`.
    pub fn snapshot(
        &mut self,
        session: &mut PeerSession,
        core: &CoreView,
        snapshots: &Vec<NativeDisplaySnapshot>,
        topology_admitted: bool,
    ) -> (step: InitStep)
        ensures
            init_snapshot(
                old(self)@,
                old(session)@,
                *core,
                snapshots@,
                topology_admitted,
                step,
                final(self)@,
                final(session)@,
            ),
    {
        let verdict = session.take_snapshot(snapshots, topology_admitted);
        let ghost taken = session@;
        assert(snapshot_taken(old(session)@, snapshots@, topology_admitted, verdict, taken));
        if verdict != SnapshotVerdict::Changed {
            return self.end(Err(SessionRuntimeError::Platform));
        }
        if core.local_grant_allows_peer_input {
            return self.go(InitPhase::Publishing, InitStep::Publish);
        }
        match session.take_candidate() {
            None => self.end(Err(SessionRuntimeError::Platform)),
            Some(candidate) => match session.commit_candidate(candidate) {
                None => self.end(Err(SessionRuntimeError::Platform)),
                Some(_) => self.go(
                    InitPhase::Starting { unpublished: true },
                    InitStep::Reduce { event: CoreEvent::LocalTopologyRefreshStarted },
                ),
            },
        }
    }
}

/// What the loop does before it waits for anything.
#[derive(Clone, Copy, Debug, PartialEq, Eq, Structural)]
pub enum LoopTurn {
    /// Handle this command; the session ends then.
    Safety { command: LocalSessionCommand },
    /// A refresh took too long: recover; the session ends then.
    Late,
    Wait,
}

/// A safety signal goes before everything, a late refresh before new events.
pub fn loop_turn(pending: Option<PlatformSafetyEvent>, late: bool) -> (turn: LoopTurn)
    ensures
        match pending {
            Some(event) => turn matches LoopTurn::Safety { command } && urgent_command(command)
                && first_step(
                command,
                FocusState::Local,
            ) == (CommandStep::Recover { event: safety_event_of(event) }),
            None => turn == if late {
                LoopTurn::Late
            } else {
                LoopTurn::Wait
            },
        },
{
    match pending {
        Some(event) => LoopTurn::Safety { command: platform_safety_command(event) },
        None => if late {
            LoopTurn::Late
        } else {
            LoopTurn::Wait
        },
    }
}

/// What the loop may wait for, the most urgent first.
#[derive(Clone, Copy, Debug, PartialEq, Eq, Structural)]
pub enum LoopEvent {
    /// All sessions are to end, or nobody can ask for that any more.
    Disconnect { requested: bool },
    Safety(Option<PlatformSafetyEvent>),
    Command(LocalSessionCommand),
    /// The transfer worker has something to send, or is gone.
    Transfer { gone: bool },
    Transport,
    TransportTimedOut,
    TransportFailed,
    /// Native input, or its bridge has failed.
    Input { failed: bool },
    Timer,
}

/// What the loop does with an event.
#[derive(Clone, Copy, Debug)]
pub enum LoopAction {
    /// Nothing; wait again.
    Again,
    End,
    /// Recover, then end.
    RecoverAndEnd,
    /// Recover with `event`, then fail with `error`.
    RecoverAndFail { event: CoreEvent, error: SessionRuntimeError },
    /// Handle the command, after a refresh if `preflight`.
    Command { command: LocalSessionCommand, preflight: bool },
    /// Refresh if needed, then send what the worker has.
    Transfer,
    Transport,
    Input,
    Timer,
}

pub open spec fn action_of(event: LoopEvent) -> LoopAction {
    match event {
        LoopEvent::Disconnect { requested } => if requested {
            LoopAction::RecoverAndEnd
        } else {
            LoopAction::End
        },
        LoopEvent::Safety(None) => LoopAction::Again,
        LoopEvent::Safety(Some(signal)) => LoopAction::Command {
            command: match signal {
                PlatformSafetyEvent::LocalLocked => LocalSessionCommand::LocalLocked,
                PlatformSafetyEvent::LocalSleeping => LocalSessionCommand::LocalSleeping,
                PlatformSafetyEvent::CaptureFailed => LocalSessionCommand::EmergencyStop,
            },
            preflight: false,
        },
        LoopEvent::Command(command) => LoopAction::Command {
            command,
            preflight: !urgent_command(command),
        },
        LoopEvent::Transfer { gone } => if gone {
            LoopAction::RecoverAndFail {
                event: CoreEvent::LocalEmergencyStop,
                error: SessionRuntimeError::Platform,
            }
        } else {
            LoopAction::Transfer
        },
        LoopEvent::Transport => LoopAction::Transport,
        LoopEvent::TransportTimedOut => LoopAction::Again,
        LoopEvent::TransportFailed => LoopAction::RecoverAndFail {
            event: CoreEvent::LinkDisconnected,
            error: SessionRuntimeError::Transport,
        },
        LoopEvent::Input { failed } => if failed {
            LoopAction::RecoverAndFail {
                event: CoreEvent::LocalEmergencyStop,
                error: SessionRuntimeError::Platform,
            }
        } else {
            LoopAction::Input
        },
        LoopEvent::Timer => LoopAction::Timer,
    }
}

/// Says what the loop does with an event.
pub fn loop_action(event: &LoopEvent) -> (action: LoopAction)
    ensures
        action == action_of(*event),
{
    match event {
        LoopEvent::Disconnect { requested } => if *requested {
            LoopAction::RecoverAndEnd
        } else {
            LoopAction::End
        },
        LoopEvent::Safety(None) => LoopAction::Again,
        LoopEvent::Safety(Some(signal)) => LoopAction::Command {
            command: platform_safety_command(*signal),
            preflight: false,
        },
        LoopEvent::Command(command) => LoopAction::Command {
            command: *command,
            preflight: command_preflight(command),
        },
        LoopEvent::Transfer { gone } => if *gone {
            LoopAction::RecoverAndFail {
                event: CoreEvent::LocalEmergencyStop,
                error: SessionRuntimeError::Platform,
            }
        } else {
            LoopAction::Transfer
        },
        LoopEvent::Transport => LoopAction::Transport,
        LoopEvent::TransportTimedOut => LoopAction::Again,
        LoopEvent::TransportFailed => LoopAction::RecoverAndFail {
            event: CoreEvent::LinkDisconnected,
            error: SessionRuntimeError::Transport,
        },
        LoopEvent::Input { failed } => if *failed {
            LoopAction::RecoverAndFail {
                event: CoreEvent::LocalEmergencyStop,
                error: SessionRuntimeError::Platform,
            }
        } else {
            LoopAction::Input
        },
        LoopEvent::Timer => LoopAction::Timer,
    }
}

/// How the loop goes on after an event was handled.
#[derive(Clone, Copy, Debug)]
pub enum LoopNext {
    Again,
    End(Result<(), SessionRuntimeError>),
    /// The link is gone: recover, then fail with `error`.
    RecoverLink { error: SessionRuntimeError },
}

/// Takes in what became of a handled event: whether it ended the session. While
/// files are sent, a failing transport is a lost link.
pub fn loop_next(sending_files: bool, handled: Result<bool, SessionRuntimeError>) -> (next: LoopNext)
    ensures
        next == match handled {
            Ok(ends) => if ends {
                LoopNext::End(Ok(()))
            } else {
                LoopNext::Again
            },
            Err(error) => if sending_files && error == SessionRuntimeError::Transport {
                LoopNext::RecoverLink { error }
            } else {
                LoopNext::End(Err(error))
            },
        },
{
    match handled {
        Ok(true) => LoopNext::End(Ok(())),
        Ok(false) => LoopNext::Again,
        Err(error) => if sending_files && transfer_send_failure_is_link_loss(error) {
            LoopNext::RecoverLink { error }
        } else {
            LoopNext::End(Err(error))
        },
    }
}

/// What a session needs done next.
#[derive(Clone, Copy, Debug)]
pub enum SessionStep {
    StartCapture,
    /// Exchange the displays.
    Initialize,
    Preflight,
    PublishReady,
    UpdateStatus,
    /// Run the loop to its end.
    Loop,
    Recover { event: CoreEvent },
    Finished(Result<(), SessionRuntimeError>),
}

#[derive(Clone, Copy, Debug)]
pub enum SessionPhase {
    Start,
    Capture,
    Initializing,
    Preflight,
    Readying,
    Status,
    Loop,
    /// Recovering; the session fails with this unless recovery fails too.
    Recovering { error: SessionRuntimeError },
    Ended(Result<(), SessionRuntimeError>),
}

/// A session from its start to its end, step by step.
pub struct SessionRun {
    pub phase: SessionPhase,
}

pub open spec fn session_ends(
    result: Result<(), SessionRuntimeError>,
    step: SessionStep,
    after: SessionPhase,
) -> bool {
    step == SessionStep::Finished(result) && after == SessionPhase::Ended(result)
}

pub open spec fn session_recovers(
    error: SessionRuntimeError,
    step: SessionStep,
    after: SessionPhase,
) -> bool {
    step == (SessionStep::Recover { event: CoreEvent::LocalEmergencyStop }) && after == (
    SessionPhase::Recovering { error })
}

/// A step of a session. Whatever fails while the link is up is recovered from
/// before the session ends; a failed recovery is what the session ends with.
pub open spec fn session_advanced(
    phase: SessionPhase,
    session: SessionModel,
    core: CoreView,
    outcome: Result<(), SessionRuntimeError>,
    step: SessionStep,
    after: SessionPhase,
    session_after: SessionModel,
) -> bool {
    match (phase, outcome) {
        (SessionPhase::Start, _) => {
            &&& session_after == session
            &&& step == SessionStep::StartCapture
            &&& after == SessionPhase::Capture
        },
        (SessionPhase::Ended(result), _) => {
            &&& session_after == session
            &&& session_ends(result, step, after)
        },
        (SessionPhase::Recovering { error }, _) => {
            &&& session_after == session
            &&& session_ends(
                Err(
                    if outcome is Ok {
                        error
                    } else {
                        SessionRuntimeError::SafetyRecoveryFailed
                    },
                ),
                step,
                after,
            )
        },
        (SessionPhase::Capture, Err(_)) => {
            &&& session_after == session
            &&& session_recovers(SessionRuntimeError::Platform, step, after)
        },
        (SessionPhase::Capture, Ok(_)) => {
            &&& session_after == session
            &&& step == SessionStep::Initialize
            &&& after == SessionPhase::Initializing
        },
        (SessionPhase::Initializing, Err(_)) => {
            &&& session_after == session
            &&& if core.link == LinkState::Down {
                session_ends(Err(SessionRuntimeError::Platform), step, after)
            } else {
                session_recovers(SessionRuntimeError::Platform, step, after)
            }
        },
        (SessionPhase::Initializing, Ok(_)) => {
            &&& session_after == (SessionModel { topology_initialized: true, ..session })
            &&& step == SessionStep::Preflight
            &&& after == SessionPhase::Preflight
        },
        (SessionPhase::Loop, Err(error)) => {
            &&& session_after == session
            &&& if core.link == LinkState::Down {
                session_ends(Err(error), step, after)
            } else {
                session_recovers(error, step, after)
            }
        },
        (SessionPhase::Loop, Ok(_)) => session_after == session && session_ends(
            Ok(()),
            step,
            after,
        ),
        (_, Err(error)) => session_after == session && session_ends(Err(error), step, after),
        (SessionPhase::Preflight, Ok(_)) => {
            &&& session_after == session
            &&& if core.local_topology_refresh_pending {
                step == SessionStep::UpdateStatus && after == SessionPhase::Status
            } else {
                step == SessionStep::PublishReady && after == SessionPhase::Readying
            }
        },
        (SessionPhase::Readying, Ok(_)) => {
            &&& session_after == session
            &&& step == SessionStep::UpdateStatus
            &&& after == SessionPhase::Status
        },
        (SessionPhase::Status, Ok(_)) => {
            &&& session_after == session
            &&& step == SessionStep::Loop
            &&& after == SessionPhase::Loop
        },
    }
}

impl SessionRun {
    pub fn new() -> (run: SessionRun)
        ensures
            run.phase == SessionPhase::Start,
    {
        SessionRun { phase: SessionPhase::Start }
    }

    fn end(&mut self, result: Result<(), SessionRuntimeError>) -> (step: SessionStep)
        ensures
            session_ends(result, step, final(self).phase),
    {
        self.phase = SessionPhase::Ended(result);
        SessionStep::Finished(result)
    }

    fn recover(&mut self, error: SessionRuntimeError) -> (step: SessionStep)
        ensures
            session_recovers(error, step, final(self).phase),
    {
        self.phase = SessionPhase::Recovering { error };
        SessionStep::Recover { event: CoreEvent::LocalEmergencyStop }
    }

    /// Takes in what became of the last step and says what is next.
    pub fn advance(
        &mut self,
        session: &mut PeerSession,
        core: &CoreView,
        outcome: Result<(), SessionRuntimeError>,
    ) -> (step: SessionStep)
        ensures
            session_advanced(
                old(self).phase,
                old(session)@,
                *core,
                outcome,
                step,
                final(self).phase,
                final(session)@,
            ),
    {
        match (self.phase, outcome) {
            (SessionPhase::Start, _) => {
                self.phase = SessionPhase::Capture;
                SessionStep::StartCapture
            },
            (SessionPhase::Ended(result), _) => self.end(result),
            (SessionPhase::Recovering { error }, Ok(())) => self.end(Err(error)),
            (SessionPhase::Recovering { .. }, Err(_)) => self.end(
                Err(SessionRuntimeError::SafetyRecoveryFailed),
            ),
            (SessionPhase::Capture, Err(_)) => self.recover(SessionRuntimeError::Platform),
            (SessionPhase::Capture, Ok(())) => {
                self.phase = SessionPhase::Initializing;
                SessionStep::Initialize
            },
            (SessionPhase::Initializing, Err(_)) => {
                if core.link == LinkState::Down {
                    self.end(Err(SessionRuntimeError::Platform))
                } else {
                    self.recover(SessionRuntimeError::Platform)
                }
            },
            (SessionPhase::Initializing, Ok(())) => {
                session.set_initialized();
                self.phase = SessionPhase::Preflight;
                SessionStep::Preflight
            },
            (SessionPhase::Loop, Err(error)) => {
                if core.link == LinkState::Down {
                    self.end(Err(error))
                } else {
                    self.recover(error)
                }
            },
            (SessionPhase::Loop, Ok(())) => self.end(Ok(())),
            (_, Err(error)) => self.end(Err(error)),
            (SessionPhase::Preflight, Ok(())) => {
                if core.local_topology_refresh_pending {
                    self.phase = SessionPhase::Status;
                    SessionStep::UpdateStatus
                } else {
                    self.phase = SessionPhase::Readying;
                    SessionStep::PublishReady
                }
            },
            (SessionPhase::Readying, Ok(())) => {
                self.phase = SessionPhase::Status;
                SessionStep::UpdateStatus
            },
            (SessionPhase::Status, Ok(())) => {
                self.phase = SessionPhase::Loop;
                SessionStep::Loop
            },
        }
    }
}

/// A session whose link is still up never ends with a failure of its capture,
/// its first exchange or its loop before recovery was tried.
pub proof fn law_failures_are_recovered_from(
    phase: SessionPhase,
    session: SessionModel,
    core: CoreView,
    outcome: Result<(), SessionRuntimeError>,
    step: SessionStep,
    after: SessionPhase,
    session_after: SessionModel,
)
    requires
        session_advanced(phase, session, core, outcome, step, after, session_after),
        outcome is Err,
        core.link == LinkState::Up,
        phase is Capture || phase is Initializing || phase is Loop,
    ensures
        step == (SessionStep::Recover { event: CoreEvent::LocalEmergencyStop }),
{
}

/// The loop starts only after the displays were exchanged.
pub proof fn law_loop_follows_exchange(
    phase: SessionPhase,
    session: SessionModel,
    core: CoreView,
    outcome: Result<(), SessionRuntimeError>,
    step: SessionStep,
    after: SessionPhase,
    session_after: SessionModel,
)
    requires
        session_advanced(phase, session, core, outcome, step, after, session_after),
        phase is Preflight || phase is Readying || phase is Status
            ==> session.topology_initialized,
    ensures
        after is Preflight || after is Readying || after is Status || step is Loop
            ==> session_after.topology_initialized,
{
}

/// Displays were exchanged exactly when everyone who may give input knows where:
/// this side the peer's displays, the peer this side's.
pub proof fn law_displays_are_exchanged_both_ways(core: CoreView)
    ensures
        exchanged(core) <==> !(core.peer_grant_allows_local_input && !core.remote_topology_known)
            && !(core.local_grant_allows_peer_input && !core.local_topology_acknowledged),
{
}

/// The first exchange goes in order: a snapshot, waited for if it is not there
/// yet, its publication, the reducer, and then the peer until everything was
/// exchanged. Only then does it end well.
pub proof fn law_the_first_exchange_goes_in_order(
    run: InitRunModel,
    session: SessionModel,
    core: CoreView,
    outcome: ActionOutcome,
    step: InitStep,
    after: InitRunModel,
    session_after: SessionModel,
)
    requires
        init_advanced(run, session, core, outcome, step, after, session_after),
    ensures
        run.phase is Start ==> step is TakeSnapshot && after.phase is Snapshot && session_after
            == session,
        run.phase is Snapshot && outcome is SnapshotPending ==> step is Wait && after.phase
            is Waiting && session_after == session,
        run.phase is Waiting && outcome is Done ==> step is TakeSnapshot && after.phase is Snapshot
            && session_after == session,
        run.phase is Publishing && outcome is Done ==> step == (InitStep::Reduce {
            event: CoreEvent::LocalTopologyRefreshStarted,
        }) && after.phase == (InitPhase::Starting { unpublished: false }) && session_after
            == session,
        run.phase == (InitPhase::Starting { unpublished: false }) && outcome is Done || run.phase
            is Exchanging && outcome is Done || run.phase is Arming && outcome is Done
            && run.proposal is Some ==> {
            &&& exchanged(core) ==> step == (InitStep::Reduce {
                event: CoreEvent::LocalTopologyRefreshUnchanged,
            }) && after.phase is Finishing
            &&& !exchanged(core) ==> step is AwaitPeer && after.phase is Exchanging
        },
        run.phase == (InitPhase::Starting { unpublished: true }) && outcome is Done ==> {
            let known = session.topology.local.revision > 0
                && session.topology.published_local_revision is None;
            &&& known ==> step is ArmRoutes && after.phase is Arming
                && !session_after.topology.local_transition_pending
                && session_after.topology.active_route is None
                && session_after.topology.pending_target is None && (after.proposal matches Some(
                routes,
            ) && session_after.topology.warrants(routes))
            &&& !known ==> step == InitStep::Finished(Err(SessionRuntimeError::Platform))
                && session_after == session
        },
        run.phase is Arming ==> after.proposal is None,
        run.phase is Arming && outcome is Done ==> (run.proposal matches Some(routes)
            ==> session_after.topology.routes == routes),
        run.phase is Arming && (!(outcome is Done) || run.proposal is None) ==> step
            == InitStep::Finished(Err(SessionRuntimeError::Platform)) && session_after == session,
        run.phase is Finishing && outcome is Done ==> step == InitStep::Finished(Ok(())),
        step == InitStep::Finished(Ok(())) ==> run.phase is Finishing && outcome is Done
            || run.phase == InitPhase::Ended(Ok(())),
{
}

/// A step of the first exchange that failed ends it with its failure.
pub proof fn law_the_first_exchange_ends_with_the_failure(
    run: InitRunModel,
    session: SessionModel,
    core: CoreView,
    outcome: ActionOutcome,
    step: InitStep,
    after: InitRunModel,
    session_after: SessionModel,
)
    requires
        init_advanced(run, session, core, outcome, step, after, session_after),
        outcome is Failed,
        run.phase is Snapshot || run.phase is Waiting || run.phase is Publishing || run.phase
            is Starting || run.phase is Exchanging || run.phase is Finishing,
    ensures
        outcome matches ActionOutcome::Failed(error) ==> step == InitStep::Finished(Err(error))
            && after.phase == InitPhase::Ended(Err(error)),
        session_after == session,
{
}

/// The first snapshot has to make displays known. They are published where the
/// peer may give input here, and else come into force at once.
pub proof fn law_the_first_snapshot_makes_displays_known(
    run: InitRunModel,
    session: SessionModel,
    core: CoreView,
    snapshots: Seq<NativeDisplaySnapshot>,
    topology_admitted: bool,
    step: InitStep,
    after: InitRunModel,
    session_after: SessionModel,
)
    requires
        init_snapshot(
            run,
            session,
            core,
            snapshots,
            topology_admitted,
            step,
            after,
            session_after,
        ),
    ensures
        exists|verdict: SnapshotVerdict, taken: SessionModel| #[trigger]
            snapshot_taken(session, snapshots, topology_admitted, verdict, taken) && {
                &&& !(verdict is Changed) ==> step == InitStep::Finished(
                    Err(SessionRuntimeError::Platform),
                ) && session_after == taken
                &&& verdict is Changed && core.local_grant_allows_peer_input ==> step is Publish
                    && after.phase is Publishing && session_after == taken
                &&& verdict is Changed && !core.local_grant_allows_peer_input ==> {
                    &&& session_after.refresh.pending is None
                    &&& match step {
                        InitStep::Reduce { event } => event is LocalTopologyRefreshStarted
                            && after.phase == (InitPhase::Starting { unpublished: true }) && (
                        taken.refresh.pending matches Some((base, outcome)) && commits(
                            taken.topology,
                            base,
                            outcome,
                        ) && session_after.topology.local == outcome),
                        InitStep::Finished(Err(error)) => error is Platform && !(
                        taken.refresh.pending matches Some((base, outcome)) && commits(
                            taken.topology,
                            base,
                            outcome,
                        )),
                        _ => false,
                    }
                }
            },
{
}

/// Each event of the loop is handled as what it is. A request to end everything
/// is recovered from; what the platform signals becomes the command that stops,
/// locks or sleeps, and waits for nothing; a worker, a bridge or a connection that
/// is gone fails the session.
pub proof fn law_loop_events_are_handled_as_they_are(event: LoopEvent)
    ensures
        event matches LoopEvent::Disconnect { requested } ==> {
            &&& requested ==> action_of(event) is RecoverAndEnd
            &&& !requested ==> action_of(event) is End
        },
        event matches LoopEvent::Safety(Some(signal)) ==> (action_of(event) matches
            LoopAction::Command { command, preflight } && !preflight && (signal is LocalLocked
            <==> command is LocalLocked) && (signal is LocalSleeping <==> command is LocalSleeping)
            && (signal is CaptureFailed <==> command is EmergencyStop)),
        event matches LoopEvent::Safety(None) ==> action_of(event) is Again,
        event is TransportTimedOut ==> action_of(event) is Again,
        event matches LoopEvent::Command(given) ==> (action_of(event) matches LoopAction::Command {
            command,
            preflight,
        } && command == given && (preflight <==> given is RequestFocus || given is ReleaseFocus
            || given is SendFiles || given is WakeTransferCancellation)),
        event matches LoopEvent::Transfer { gone } ==> {
            &&& gone ==> action_of(event) == (LoopAction::RecoverAndFail {
                event: CoreEvent::LocalEmergencyStop,
                error: SessionRuntimeError::Platform,
            })
            &&& !gone ==> action_of(event) is Transfer
        },
        event matches LoopEvent::Input { failed } ==> {
            &&& failed ==> action_of(event) == (LoopAction::RecoverAndFail {
                event: CoreEvent::LocalEmergencyStop,
                error: SessionRuntimeError::Platform,
            })
            &&& !failed ==> action_of(event) is Input
        },
        event is Transport ==> action_of(event) is Transport,
        event is TransportFailed ==> action_of(event) == (LoopAction::RecoverAndFail {
            event: CoreEvent::LinkDisconnected,
            error: SessionRuntimeError::Transport,
        }),
        event is Timer ==> action_of(event) is Timer,
{
}

/// A session starts capture, exchanges displays, says that it is ready unless a
/// refresh is under way, shows its status and runs its loop, in this order.
pub proof fn law_sessions_go_in_order(
    phase: SessionPhase,
    session: SessionModel,
    core: CoreView,
    step: SessionStep,
    after: SessionPhase,
    session_after: SessionModel,
)
    requires
        session_advanced(phase, session, core, Ok(()), step, after, session_after),
    ensures
        phase is Start ==> step is StartCapture && after is Capture,
        phase is Capture ==> step is Initialize && after is Initializing,
        phase is Initializing ==> step is Preflight && after is Preflight
            && session_after.topology_initialized,
        phase is Preflight && core.local_topology_refresh_pending ==> step is UpdateStatus && after
            is Status,
        phase is Preflight && !core.local_topology_refresh_pending ==> step is PublishReady && after
            is Readying,
        phase is Readying ==> step is UpdateStatus && after is Status,
        phase is Status ==> step is Loop && after is Loop,
        phase is Loop ==> step == SessionStep::Finished(Ok(())) && after == SessionPhase::Ended(
            Ok(()),
        ),
        phase matches SessionPhase::Recovering { error } ==> step == SessionStep::Finished(
            Err(error),
        ),
        session_after == (SessionModel {
            topology_initialized: session.topology_initialized || phase is Initializing,
            ..session
        }),
{
}

/// A failure is recovered from by an emergency stop before the session ends with
/// it, where capture, the exchange or the loop failed while the link was up. A
/// failure of capture or of the exchange is one of the platform. A recovery that
/// fails is what the session ends with.
pub proof fn law_sessions_fail_with_the_cause(
    phase: SessionPhase,
    session: SessionModel,
    core: CoreView,
    cause: SessionRuntimeError,
    step: SessionStep,
    after: SessionPhase,
    session_after: SessionModel,
)
    requires
        session_advanced(phase, session, core, Err(cause), step, after, session_after),
    ensures
        session_after == session,
        phase is Capture || phase is Initializing && core.link is Up ==> step == (
        SessionStep::Recover { event: CoreEvent::LocalEmergencyStop }) && after == (
        SessionPhase::Recovering { error: SessionRuntimeError::Platform }),
        phase is Loop && core.link is Up ==> step == (SessionStep::Recover {
            event: CoreEvent::LocalEmergencyStop,
        }) && after == (SessionPhase::Recovering { error: cause }),
        phase is Initializing && core.link is Down ==> step == SessionStep::Finished(
            Err(SessionRuntimeError::Platform),
        ),
        phase is Loop && core.link is Down || phase is Preflight || phase is Readying || phase
            is Status ==> step == SessionStep::Finished(Err(cause)),
        phase is Recovering ==> step == SessionStep::Finished(
            Err(SessionRuntimeError::SafetyRecoveryFailed),
        ),
{
}

/// A session opens without effects; anything else breaks the protocol.
pub proof fn law_sessions_open_quietly(
    effects: Vec<Effect>,
    accepted: Result<(), SessionRuntimeError>,
)
    requires
        call_ensures(establishment_accepted, (&effects,), accepted),
    ensures
        accepted is Ok <==> effects@.len() == 0,
        accepted matches Err(error) ==> error is ProtocolViolation,
{
}

/// Displays are looked at again before an event only once the first exchange
/// is over, and then whenever they changed or are still awaited.
pub proof fn law_changed_displays_are_looked_at(
    session: PeerSession,
    change_pending: bool,
    needed: bool,
)
    requires
        call_ensures(PeerSession::preflight_needed, (&session, change_pending), needed),
    ensures
        !session@.topology_initialized ==> !needed,
        session@.topology_initialized && change_pending ==> needed,
        session@.topology_initialized && session@.refresh.snapshot_deadline is Some ==> needed,
        needed ==> change_pending || session@.refresh.snapshot_deadline is Some,
{
}

/// A refresh that did not end by itself is recovered from, and the recovery is
/// an emergency stop unless a safety signal named another cause.
pub proof fn law_interrupted_refreshes_are_recovered_from(
    outcome: RefreshOutcome,
    verdict: RefreshVerdict,
)
    requires
        call_ensures(refresh_ended, (outcome,), verdict),
    ensures
        verdict is Done <==> outcome is Completed,
        outcome matches RefreshOutcome::Completed(result) ==> verdict == RefreshVerdict::Done(
            result,
        ),
        verdict matches RefreshVerdict::Recover { event } ==> {
            &&& event is LocalLocked <==> outcome == RefreshOutcome::PlatformSafety(
                Some(PlatformSafetyEvent::LocalLocked),
            )
            &&& event is LocalSleeping <==> outcome == RefreshOutcome::PlatformSafety(
                Some(PlatformSafetyEvent::LocalSleeping),
            )
            &&& event is LocalLocked || event is LocalSleeping || event is LocalEmergencyStop
        },
{
}

/// The first exchange goes on only where nobody gives safety signals any more.
/// It is recovered from where somebody asked for its end or a safety signal
/// came. A peer that is silent or gone is a failure of the transport.
pub proof fn law_interruptions_end_the_first_exchange(
    waits_for_peer: bool,
    signal: InitSignal,
    verdict: InitVerdict,
)
    requires
        call_ensures(init_interrupted, (waits_for_peer, signal), verdict),
    ensures
        verdict is Again <==> (signal matches InitSignal::Safety(None)),
        verdict is Recover <==> (signal matches InitSignal::Disconnect { requested: true }) || (
        signal matches InitSignal::Safety(Some(_))),
        verdict matches InitVerdict::Recover { event, error } ==> {
            &&& error is Platform
            &&& event is LocalLocked <==> signal == InitSignal::Safety(
                Some(PlatformSafetyEvent::LocalLocked),
            )
            &&& event is LocalSleeping <==> signal == InitSignal::Safety(
                Some(PlatformSafetyEvent::LocalSleeping),
            )
            &&& event is LocalLocked || event is LocalSleeping || event is LocalEmergencyStop
        },
        verdict matches InitVerdict::Fail(error) ==> {
            &&& error is Transport <==> signal is PeerEnded || signal is TimedOut && waits_for_peer
            &&& error is Transport || error is Platform
        },
{
}

/// A pending safety signal is taken up before a late refresh, and a late
/// refresh before waiting.
pub proof fn law_safety_goes_before_a_late_refresh(
    pending: Option<PlatformSafetyEvent>,
    late: bool,
    turn: LoopTurn,
)
    requires
        call_ensures(loop_turn, (pending, late), turn),
    ensures
        turn is Safety <==> pending is Some,
        turn is Late <==> pending is None && late,
        turn is Wait <==> pending is None && !late,
{
}

/// The loop goes on after an event unless the event ended it. Of failures only
/// a lost link while files are sent is recovered from, and none is forgotten.
pub proof fn law_failures_end_the_loop(
    sending_files: bool,
    handled: Result<bool, SessionRuntimeError>,
    next: LoopNext,
)
    requires
        call_ensures(loop_next, (sending_files, handled), next),
    ensures
        next is Again <==> handled == Ok::<bool, SessionRuntimeError>(false),
        (next matches LoopNext::End(Ok(_))) <==> handled == Ok::<bool, SessionRuntimeError>(true),
        next is RecoverLink <==> sending_files && handled == Err::<bool, SessionRuntimeError>(
            SessionRuntimeError::Transport,
        ),
        next matches LoopNext::RecoverLink { error } ==> handled == Err::<bool, _>(error),
        next matches LoopNext::End(Err(error)) ==> handled == Err::<bool, _>(error),
{
}

} // verus!
