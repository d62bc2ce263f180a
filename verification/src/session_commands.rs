//! Commands of the user and the platform to a running session, recovery, and the
//! timer.

use vstd::prelude::*;
use crate::agent_status::{
    owner_of,
    shown_focus,
    AgentFocusState,
    AgentPhase,
    AgentStatus,
    InputOwner,
};
use crate::grants::Capability;
use crate::native_bridge::PlatformSafetyEvent;
use crate::platform_readiness::SessionTopologyReadiness;
use crate::routes::PeerPlacement;
use crate::session_control::placement_update_recovery_event;
use crate::session_core::{CoreEvent, FocusState, LinkState};
use crate::session_model::{PeerSession, SessionConfig, SessionModel};
use crate::session_safety::SessionRuntimeError;
use crate::topology_runtime::{PeerTopologyModel, RouteProposal};

verus! {

#[derive(Clone, Copy, Debug, PartialEq, Eq, Structural)]
pub enum LocalSessionCommand {
    RequestFocus { ttl_ms: u32 },
    ReleaseFocus,
    EmergencyStop,
    LocalLocked,
    LocalSleeping,
    UpdateLocalGrant { grants: Capability, epoch: u64, capability: Capability, enabled: bool },
    UpdatePeerPlacement { placement: PeerPlacement },
    SendFiles { none_selected: bool },
    WakeTransferCancellation,
}

/// The command that a safety signal of the platform is.
pub fn platform_safety_command(event: PlatformSafetyEvent) -> (command: LocalSessionCommand)
    ensures
        command == match event {
            PlatformSafetyEvent::LocalLocked => LocalSessionCommand::LocalLocked,
            PlatformSafetyEvent::LocalSleeping => LocalSessionCommand::LocalSleeping,
            PlatformSafetyEvent::CaptureFailed => LocalSessionCommand::EmergencyStop,
        },
{
    match event {
        PlatformSafetyEvent::LocalLocked => LocalSessionCommand::LocalLocked,
        PlatformSafetyEvent::LocalSleeping => LocalSessionCommand::LocalSleeping,
        PlatformSafetyEvent::CaptureFailed => LocalSessionCommand::EmergencyStop,
    }
}

/// Commands that do not wait for a refresh of the displays.
pub open spec fn urgent_command(command: LocalSessionCommand) -> bool {
    command is EmergencyStop || command is LocalLocked || command is LocalSleeping
        || command is UpdateLocalGrant || command is UpdatePeerPlacement
}

pub fn command_preflight(command: &LocalSessionCommand) -> (preflight: bool)
    ensures
        preflight == !urgent_command(*command),
{
    match command {
        LocalSessionCommand::EmergencyStop
        | LocalSessionCommand::LocalLocked
        | LocalSessionCommand::LocalSleeping
        | LocalSessionCommand::UpdateLocalGrant { .. }
        | LocalSessionCommand::UpdatePeerPlacement { .. } => false,
        _ => true,
    }
}

/// How a command ends.
#[derive(Clone, Copy, Debug)]
pub struct CommandEnd {
    /// What the one who gave the command is told. Where files were selected, the
    /// transfer worker tells it.
    pub acknowledgement: Option<Result<(), SessionRuntimeError>>,
    pub update_status: bool,
    /// Whether the session ends, or fails.
    pub result: Result<bool, SessionRuntimeError>,
}

/// What a command needs done next.
#[derive(Clone, Copy, Debug)]
pub enum CommandStep {
    Preflight,
    /// Prepare where the pointer comes in.
    PrepareFocus,
    /// Ask for focus, and carry the reducer's effects out.
    AskFocus { ttl_ms: u32 },
    /// Tell the reducer, as an event of this side, and carry its effects out.
    Reduce { event: CoreEvent },
    Recover { event: CoreEvent },
    UpdateGrant { grants: Capability, epoch: u64, capability: Capability, enabled: bool },
    /// Call `set_placement`, offer the routes, then `commit_placement`.
    SetPlacement { placement: PeerPlacement },
    /// Hand the files to the transfer worker, or refuse them.
    SendFiles { none_selected: bool },
    WakeTransfer,
    Finish(CommandEnd),
}

pub open spec fn acknowledged(
    result: Result<(), SessionRuntimeError>,
    update_status: bool,
    end: Result<bool, SessionRuntimeError>,
) -> CommandStep {
    CommandStep::Finish(
        CommandEnd { acknowledgement: Some(result), update_status, result: end },
    )
}

pub open spec fn first_step(command: LocalSessionCommand, focus: FocusState) -> CommandStep {
    match command {
        LocalSessionCommand::RequestFocus { .. } => CommandStep::Preflight,
        LocalSessionCommand::ReleaseFocus => CommandStep::Reduce {
            event: CoreEvent::LocalFocusReleased,
        },
        LocalSessionCommand::EmergencyStop => CommandStep::Recover {
            event: CoreEvent::LocalEmergencyStop,
        },
        LocalSessionCommand::LocalLocked => CommandStep::Recover { event: CoreEvent::LocalLocked },
        LocalSessionCommand::LocalSleeping => CommandStep::Recover {
            event: CoreEvent::LocalSleeping,
        },
        LocalSessionCommand::UpdateLocalGrant { grants, epoch, capability, enabled } => {
            CommandStep::UpdateGrant { grants, epoch, capability, enabled }
        },
        LocalSessionCommand::UpdatePeerPlacement { placement } => if focus is Local {
            CommandStep::SetPlacement { placement }
        } else {
            CommandStep::Recover { event: CoreEvent::ReconnectRequested }
        },
        LocalSessionCommand::SendFiles { none_selected } => CommandStep::SendFiles {
            none_selected,
        },
        LocalSessionCommand::WakeTransferCancellation => CommandStep::WakeTransfer,
    }
}

/// Starts a command.
pub fn handle_local_command(command: &LocalSessionCommand, focus: FocusState) -> (step: CommandStep)
    ensures
        step == first_step(*command, focus),
{
    match command {
        LocalSessionCommand::RequestFocus { .. } => CommandStep::Preflight,
        LocalSessionCommand::ReleaseFocus => CommandStep::Reduce {
            event: CoreEvent::LocalFocusReleased,
        },
        LocalSessionCommand::EmergencyStop => CommandStep::Recover {
            event: CoreEvent::LocalEmergencyStop,
        },
        LocalSessionCommand::LocalLocked => CommandStep::Recover { event: CoreEvent::LocalLocked },
        LocalSessionCommand::LocalSleeping => CommandStep::Recover {
            event: CoreEvent::LocalSleeping,
        },
        LocalSessionCommand::UpdateLocalGrant { grants, epoch, capability, enabled } => {
            CommandStep::UpdateGrant {
                grants: *grants,
                epoch: *epoch,
                capability: *capability,
                enabled: *enabled,
            }
        },
        LocalSessionCommand::UpdatePeerPlacement { placement } => {
            match placement_update_recovery_event(focus) {
                Some(event) => CommandStep::Recover { event },
                None => CommandStep::SetPlacement { placement: *placement },
            }
        },
        LocalSessionCommand::SendFiles { none_selected } => CommandStep::SendFiles {
            none_selected: *none_selected,
        },
        LocalSessionCommand::WakeTransferCancellation => CommandStep::WakeTransfer,
    }
}

/// How a command goes on after a step.
pub open spec fn following_step(
    command: LocalSessionCommand,
    step: CommandStep,
    outcome: Result<(), SessionRuntimeError>,
    link: LinkState,
) -> CommandStep {
    match command {
        LocalSessionCommand::RequestFocus { ttl_ms } => match (step, outcome) {
            (CommandStep::Preflight, Ok(_)) => CommandStep::PrepareFocus,
            (CommandStep::PrepareFocus, Ok(_)) => CommandStep::AskFocus { ttl_ms },
            (CommandStep::PrepareFocus, Err(_)) => acknowledged(
                Err(SessionRuntimeError::FocusRejected),
                false,
                Ok(false),
            ),
            (_, Err(error)) => acknowledged(Err(error), false, Ok(false)),
            (_, Ok(_)) => acknowledged(Ok(()), true, Ok(false)),
        },
        LocalSessionCommand::ReleaseFocus => acknowledged(outcome, true, Ok(false)),
        LocalSessionCommand::EmergencyStop
        | LocalSessionCommand::LocalLocked
        | LocalSessionCommand::LocalSleeping => acknowledged(
            outcome,
            false,
            if outcome is Ok {
                Ok(true)
            } else {
                Err(SessionRuntimeError::SafetyRecoveryFailed)
            },
        ),
        LocalSessionCommand::UpdateLocalGrant { .. } => if outcome is Ok {
            acknowledged(outcome, true, Ok(true))
        } else {
            acknowledged(outcome, false, Ok(false))
        },
        LocalSessionCommand::UpdatePeerPlacement { .. } => {
            let result = match (step, outcome) {
                (CommandStep::Recover { .. }, Ok(_)) => Err(SessionRuntimeError::FocusRejected),
                (CommandStep::SetPlacement { .. }, Err(_)) => Err(SessionRuntimeError::Platform),
                _ => outcome,
            };
            if link == LinkState::Down {
                acknowledged(
                    result,
                    false,
                    if result == Err::<(), _>(SessionRuntimeError::SafetyRecoveryFailed) {
                        Err(SessionRuntimeError::SafetyRecoveryFailed)
                    } else {
                        Ok(true)
                    },
                )
            } else {
                acknowledged(result, result is Ok, Ok(false))
            }
        },
        LocalSessionCommand::SendFiles { .. } => CommandStep::Finish(
            CommandEnd { acknowledgement: None, update_status: true, result: Ok(false) },
        ),
        LocalSessionCommand::WakeTransferCancellation => CommandStep::Finish(
            CommandEnd {
                acknowledgement: None,
                update_status: outcome is Ok,
                result: match outcome {
                    Ok(_) => Ok(false),
                    Err(error) => Err(error),
                },
            },
        ),
    }
}

fn acknowledge(
    result: Result<(), SessionRuntimeError>,
    update_status: bool,
    end: Result<bool, SessionRuntimeError>,
) -> (step: CommandStep)
    ensures
        step == acknowledged(result, update_status, end),
{
    CommandStep::Finish(
        CommandEnd { acknowledgement: Some(result), update_status, result: end },
    )
}

/// Takes in what became of a step. Whoever gave the command is told before the
/// session goes on; a failed safety command ends the session with a failure.
pub fn continue_local_command(
    command: &LocalSessionCommand,
    step: &CommandStep,
    outcome: Result<(), SessionRuntimeError>,
    link: LinkState,
) -> (next: CommandStep)
    ensures
        next == following_step(*command, *step, outcome, link),
{
    match command {
        LocalSessionCommand::RequestFocus { ttl_ms } => match (step, outcome) {
            (CommandStep::Preflight, Ok(())) => CommandStep::PrepareFocus,
            (CommandStep::PrepareFocus, Ok(())) => CommandStep::AskFocus { ttl_ms: *ttl_ms },
            (CommandStep::PrepareFocus, Err(_)) => acknowledge(
                Err(SessionRuntimeError::FocusRejected),
                false,
                Ok(false),
            ),
            (_, Err(error)) => acknowledge(Err(error), false, Ok(false)),
            (_, Ok(())) => acknowledge(Ok(()), true, Ok(false)),
        },
        LocalSessionCommand::ReleaseFocus => acknowledge(outcome, true, Ok(false)),
        LocalSessionCommand::EmergencyStop
        | LocalSessionCommand::LocalLocked
        | LocalSessionCommand::LocalSleeping => {
            let end = if outcome.is_ok() {
                Ok(true)
            } else {
                Err(SessionRuntimeError::SafetyRecoveryFailed)
            };
            acknowledge(outcome, false, end)
        },
        LocalSessionCommand::UpdateLocalGrant { .. } => {
            let done = outcome.is_ok();
            acknowledge(outcome, done, Ok(done))
        },
        LocalSessionCommand::UpdatePeerPlacement { .. } => {
            let result: Result<(), SessionRuntimeError> = match (step, outcome) {
                (CommandStep::Recover { .. }, Ok(())) => Err(SessionRuntimeError::FocusRejected),
                (CommandStep::SetPlacement { .. }, Err(_)) => Err(SessionRuntimeError::Platform),
                _ => outcome,
            };
            if link == LinkState::Down {
                let end = match result {
                    Err(SessionRuntimeError::SafetyRecoveryFailed) => Err(
                        SessionRuntimeError::SafetyRecoveryFailed,
                    ),
                    _ => Ok(true),
                };
                acknowledge(result, false, end)
            } else {
                let done = result.is_ok();
                acknowledge(result, done, Ok(false))
            }
        },
        LocalSessionCommand::SendFiles { .. } => CommandStep::Finish(
            CommandEnd { acknowledgement: None, update_status: true, result: Ok(false) },
        ),
        LocalSessionCommand::WakeTransferCancellation => match outcome {
            Ok(()) => CommandStep::Finish(
                CommandEnd { acknowledgement: None, update_status: true, result: Ok(false) },
            ),
            Err(error) => CommandStep::Finish(
                CommandEnd { acknowledgement: None, update_status: false, result: Err(error) },
            ),
        },
    }
}

impl PeerSession {
    /// The edge observer has answered to the new routes. Only if it accepted them
    /// is the placement kept.
    pub fn commit_placement(
        &mut self,
        placement: PeerPlacement,
        proposal: RouteProposal,
        accepted: bool,
    ) -> (committed: Result<(), SessionRuntimeError>)
        ensures
            if accepted {
                &&& committed is Ok
                &&& final(self)@ == (SessionModel {
                    config: SessionConfig { peer_placement: placement, ..old(self)@.config },
                    ..old(self)@.with_topology(
                        PeerTopologyModel { routes: proposal@, ..old(self)@.topology },
                    )
                })
            } else {
                &&& committed == Err::<(), _>(SessionRuntimeError::Platform)
                &&& final(self)@ == old(self)@
            },
    {
        if !self.install_routes(proposal, accepted) {
            return Err(SessionRuntimeError::Platform);
        }
        self.keep_placement(placement);
        Ok(())
    }

    /// A recovery was tried. If it failed at the platform the failure is latched,
    /// and the agent stops; else the session is shown as gone.
    pub fn finish_recovery(
        &mut self,
        status: &mut AgentStatus,
        focus: FocusState,
        result: Result<(), SessionRuntimeError>,
    ) -> (recovered: Result<(), SessionRuntimeError>)
        ensures
            match result {
                Ok(_) => {
                    &&& recovered is Ok
                    &&& final(self)@ == old(self)@
                    &&& *final(status) == (AgentStatus {
                        input_owner: owner_of(focus),
                        focus_state: shown_focus(focus),
                        ..old(status).with_session_topology(SessionTopologyReadiness::NotConnected)
                    })
                },
                Err(error) => {
                    &&& recovered == Err::<(), _>(SessionRuntimeError::SafetyRecoveryFailed)
                    &&& final(self)@ == if error == SessionRuntimeError::Platform || error
                        == SessionRuntimeError::SafetyRecoveryFailed {
                        old(self)@.latched()
                    } else {
                        old(self)@
                    }
                    &&& *final(status) == (AgentStatus {
                        phase: AgentPhase::Stopping,
                        input_owner: InputOwner::Local,
                        focus_state: AgentFocusState::Local,
                        ..old(status).with_session_topology(SessionTopologyReadiness::NotConnected)
                    })
                },
            },
    {
        match result {
            Ok(()) => {
                status.update_focus(focus);
                let safety = self.safety();
                let published = status.publish_session_topology_readiness(
                    &safety,
                    SessionTopologyReadiness::NotConnected,
                );
                assert(published is Ok);
                Ok(())
            },
            Err(error) => {
                if error == SessionRuntimeError::Platform || error
                    == SessionRuntimeError::SafetyRecoveryFailed {
                    self.latch_failure();
                }
                status.recovery_failed();
                Err(SessionRuntimeError::SafetyRecoveryFailed)
            },
        }
    }
}

/// What a tick of the timer needs done next.
#[derive(Clone, Copy, Debug)]
pub enum TimerStep {
    Preflight,
    CheckHealth,
    PollClipboard,
    PumpTransfer,
    /// Tell the reducer and carry its effects out.
    Reduce { event: CoreEvent },
    Recover { event: CoreEvent },
    UpdateStatus,
    /// Whether the session ends, or fails.
    Finished(Result<bool, SessionRuntimeError>),
}

#[derive(Clone, Copy, Debug)]
pub enum TimerPhase {
    Start,
    Preflight,
    Health,
    Clipboard,
    Pump,
    /// The reducer sees the time that the renewal was asked for at.
    Renewing { read_at: u64 },
    Ticking,
    Status { ends: bool },
    /// Recovering because a refresh took too long.
    Late,
    /// Recovering because the platform is not healthy.
    Unhealthy,
    Ended(Result<bool, SessionRuntimeError>),
}

/// One tick of the timer, step by step.
pub struct TimerRun {
    pub phase: TimerPhase,
}

/// A step of a tick. A refresh that takes too long, or a platform that is not
/// healthy, ends the session; nothing is exchanged after that.
pub open spec fn ticked(
    phase: TimerPhase,
    session: SessionModel,
    focus: FocusState,
    now: u64,
    outcome: Result<bool, SessionRuntimeError>,
    step: TimerStep,
    after: TimerPhase,
    session_after: SessionModel,
) -> bool {
    let recover = TimerStep::Recover { event: CoreEvent::LocalEmergencyStop };
    let fails = |error: SessionRuntimeError|
        step == TimerStep::Finished(Err(error)) && after == TimerPhase::Ended(Err(error));
    match (phase, outcome) {
        (TimerPhase::Start, _) => {
            &&& session_after == session
            &&& if session.refresh.late(now) {
                step == recover && after == TimerPhase::Late
            } else {
                step == TimerStep::Preflight && after == TimerPhase::Preflight
            }
        },
        (TimerPhase::Ended(result), _) => {
            &&& session_after == session
            &&& step == TimerStep::Finished(result)
            &&& after == phase
        },
        (TimerPhase::Health, Err(_)) => {
            &&& session_after == session
            &&& step == recover
            &&& after == TimerPhase::Unhealthy
        },
        (_, Err(error)) => session_after == session && fails(error),
        (TimerPhase::Late, Ok(_)) => {
            &&& session_after == session
            &&& step == TimerStep::Finished(Ok(true))
            &&& after == TimerPhase::Ended(Ok(true))
        },
        (TimerPhase::Unhealthy, Ok(_)) => session_after == session && fails(
            SessionRuntimeError::Platform,
        ),
        (TimerPhase::Preflight, Ok(_)) => {
            &&& session_after == session
            &&& step == TimerStep::CheckHealth
            &&& after == TimerPhase::Health
        },
        (TimerPhase::Health, Ok(_)) => {
            &&& session_after == session
            &&& if session.refresh.late(now) {
                step == recover && after == TimerPhase::Late
            } else {
                step == TimerStep::PollClipboard && after == TimerPhase::Clipboard
            }
        },
        (TimerPhase::Clipboard, Ok(_)) => {
            &&& session_after == session
            &&& step == TimerStep::PumpTransfer
            &&& after == TimerPhase::Pump
        },
        (TimerPhase::Pump, Ok(_)) => {
            &&& session_after == session
            &&& match session.renewal_event(focus, now) {
                Some(event) => step == (TimerStep::Reduce { event }) && after == (
                TimerPhase::Renewing { read_at: now }),
                None => step == (TimerStep::Reduce { event: CoreEvent::TimerElapsed { now } })
                    && after == TimerPhase::Ticking,
            }
        },
        (TimerPhase::Renewing { read_at }, Ok(_)) => {
            &&& session_after == (SessionModel { renewal_pending: true, ..session })
            &&& step == (TimerStep::Reduce { event: CoreEvent::TimerElapsed { now: read_at } })
            &&& after == TimerPhase::Ticking
        },
        (TimerPhase::Ticking, Ok(ends)) => {
            &&& session_after == session
            &&& step == TimerStep::UpdateStatus
            &&& after == (TimerPhase::Status { ends })
        },
        (TimerPhase::Status { ends }, Ok(_)) => {
            &&& session_after == session
            &&& step == TimerStep::Finished(Ok(ends))
            &&& after == TimerPhase::Ended(Ok(ends))
        },
    }
}

impl TimerRun {
    pub fn new() -> (run: TimerRun)
        ensures
            run.phase == TimerPhase::Start,
    {
        TimerRun { phase: TimerPhase::Start }
    }

    fn end(&mut self, result: Result<bool, SessionRuntimeError>) -> (step: TimerStep)
        ensures
            step == TimerStep::Finished(result),
            final(self).phase == TimerPhase::Ended(result),
    {
        self.phase = TimerPhase::Ended(result);
        TimerStep::Finished(result)
    }

    /// Takes in what became of the last step and says what is next. After the
    /// reducer has seen the time, `outcome` says whether it ended the session.
    pub fn advance(
        &mut self,
        session: &mut PeerSession,
        focus: FocusState,
        now: u64,
        outcome: Result<bool, SessionRuntimeError>,
    ) -> (step: TimerStep)
        ensures
            ticked(
                old(self).phase,
                old(session)@,
                focus,
                now,
                outcome,
                step,
                final(self).phase,
                final(session)@,
            ),
    {
        match (self.phase, outcome) {
            (TimerPhase::Start, _) => {
                if session.refresh_late(now) {
                    self.phase = TimerPhase::Late;
                    return TimerStep::Recover { event: CoreEvent::LocalEmergencyStop };
                }
                self.phase = TimerPhase::Preflight;
                TimerStep::Preflight
            },
            (TimerPhase::Ended(result), _) => TimerStep::Finished(result),
            (TimerPhase::Health, Err(_)) => {
                self.phase = TimerPhase::Unhealthy;
                TimerStep::Recover { event: CoreEvent::LocalEmergencyStop }
            },
            (_, Err(error)) => self.end(Err(error)),
            (TimerPhase::Late, Ok(_)) => self.end(Ok(true)),
            (TimerPhase::Unhealthy, Ok(_)) => self.end(Err(SessionRuntimeError::Platform)),
            (TimerPhase::Preflight, Ok(_)) => {
                self.phase = TimerPhase::Health;
                TimerStep::CheckHealth
            },
            (TimerPhase::Health, Ok(_)) => {
                if session.refresh_late(now) {
                    self.phase = TimerPhase::Late;
                    return TimerStep::Recover { event: CoreEvent::LocalEmergencyStop };
                }
                self.phase = TimerPhase::Clipboard;
                TimerStep::PollClipboard
            },
            (TimerPhase::Clipboard, Ok(_)) => {
                self.phase = TimerPhase::Pump;
                TimerStep::PumpTransfer
            },
            (TimerPhase::Pump, Ok(_)) => match session.renewal(focus, now) {
                Some(event) => {
                    self.phase = TimerPhase::Renewing { read_at: now };
                    TimerStep::Reduce { event }
                },
                None => {
                    self.phase = TimerPhase::Ticking;
                    TimerStep::Reduce { event: CoreEvent::TimerElapsed { now } }
                },
            },
            (TimerPhase::Renewing { read_at }, Ok(_)) => {
                session.set_renewal_pending(true);
                self.phase = TimerPhase::Ticking;
                TimerStep::Reduce { event: CoreEvent::TimerElapsed { now: read_at } }
            },
            (TimerPhase::Ticking, Ok(ends)) => {
                self.phase = TimerPhase::Status { ends };
                TimerStep::UpdateStatus
            },
            (TimerPhase::Status { ends }, Ok(_)) => self.end(Ok(ends)),
        }
    }
}

/// A safety command always ends the session, with a failure where recovery
/// failed, and is always acknowledged.
pub proof fn law_safety_commands_end_the_session(
    command: LocalSessionCommand,
    focus: FocusState,
    outcome: Result<(), SessionRuntimeError>,
    link: LinkState,
)
    requires
        command is EmergencyStop || command is LocalLocked || command is LocalSleeping,
    ensures
        urgent_command(command),
        first_step(command, focus) is Recover,
        following_step(command, first_step(command, focus), outcome, link) == acknowledged(
            outcome,
            false,
            match outcome {
                Ok(_) => Ok(true),
                Err(_) => Err(SessionRuntimeError::SafetyRecoveryFailed),
            },
        ),
{
}

/// While input is exchanged a new placement is refused: the connection is made
/// anew first.
pub proof fn law_placement_waits_for_local_focus(
    placement: PeerPlacement,
    focus: FocusState,
    link: LinkState,
)
    requires
        !(focus is Local),
    ensures
        ({
            let command = LocalSessionCommand::UpdatePeerPlacement { placement };
            let step = first_step(command, focus);
            &&& step == (CommandStep::Recover { event: CoreEvent::ReconnectRequested })
            &&& following_step(command, step, Ok(()), link) matches CommandStep::Finish(end)
                && end.acknowledgement == Some(
                Err::<(), _>(SessionRuntimeError::FocusRejected),
            )
        }),
{
}

/// A command does not wait for the displays exactly if it stops or ends
/// something, changes a grant, or moves the peer.
pub proof fn law_stops_and_changes_do_not_wait(command: LocalSessionCommand)
    ensures
        urgent_command(command) <==> !(command is RequestFocus || command is ReleaseFocus || command
            is SendFiles || command is WakeTransferCancellation),
{
}

/// Each command begins with the step of its kind. The peer is moved only while
/// nobody has the focus; otherwise the connection is made anew.
pub proof fn law_commands_begin_with_their_step(command: LocalSessionCommand, focus: FocusState)
    ensures
        command is RequestFocus <==> first_step(command, focus) is Preflight,
        command is ReleaseFocus ==> first_step(command, focus) == (CommandStep::Reduce {
            event: CoreEvent::LocalFocusReleased,
        }),
        command is EmergencyStop ==> first_step(command, focus) == (CommandStep::Recover {
            event: CoreEvent::LocalEmergencyStop,
        }),
        command is LocalLocked ==> first_step(command, focus) == (CommandStep::Recover {
            event: CoreEvent::LocalLocked,
        }),
        command is LocalSleeping ==> first_step(command, focus) == (CommandStep::Recover {
            event: CoreEvent::LocalSleeping,
        }),
        command matches LocalSessionCommand::UpdateLocalGrant { grants, epoch, capability, enabled }
            ==> first_step(command, focus) == (CommandStep::UpdateGrant {
            grants,
            epoch,
            capability,
            enabled,
        }),
        command matches LocalSessionCommand::UpdatePeerPlacement { placement } ==> {
            &&& focus is Local ==> first_step(command, focus) == (CommandStep::SetPlacement {
                placement,
            })
            &&& !(focus is Local) ==> first_step(command, focus) == (CommandStep::Recover {
                event: CoreEvent::ReconnectRequested,
            })
        },
        command matches LocalSessionCommand::SendFiles { none_selected } ==> first_step(
            command,
            focus,
        ) == (CommandStep::SendFiles { none_selected }),
        command is WakeTransferCancellation <==> first_step(command, focus) is WakeTransfer,
{
}

/// Focus is asked for once the displays are settled and the place where the
/// pointer comes in is known. A failure on the way is told to the one who asked,
/// as a refusal where no place was found, and the session goes on.
pub proof fn law_focus_is_asked_for_step_by_step(
    ttl_ms: u32,
    outcome: Result<(), SessionRuntimeError>,
    link: LinkState,
)
    ensures
        ({
            let command = LocalSessionCommand::RequestFocus { ttl_ms };
            let settled = following_step(command, CommandStep::Preflight, outcome, link);
            let prepared = following_step(command, CommandStep::PrepareFocus, outcome, link);
            let asked = following_step(command, CommandStep::AskFocus { ttl_ms }, outcome, link);
            &&& outcome is Ok ==> settled is PrepareFocus
            &&& outcome is Ok ==> prepared == (CommandStep::AskFocus { ttl_ms })
            &&& outcome is Ok ==> (asked matches CommandStep::Finish(end) && end.acknowledgement
                == Some(Ok::<(), SessionRuntimeError>(())) && end.update_status && end.result == Ok::<
                bool,
                SessionRuntimeError,
            >(false))
            &&& outcome matches Err(error) ==> {
                &&& settled matches CommandStep::Finish(end) && end.acknowledgement == Some(
                    Err::<(), SessionRuntimeError>(error),
                ) && !end.update_status && end.result == Ok::<bool, SessionRuntimeError>(false)
                &&& asked matches CommandStep::Finish(end) && end.acknowledgement == Some(
                    Err::<(), SessionRuntimeError>(error),
                ) && !end.update_status && end.result == Ok::<bool, SessionRuntimeError>(false)
                &&& prepared matches CommandStep::Finish(end) && end.acknowledgement == Some(
                    Err::<(), SessionRuntimeError>(SessionRuntimeError::FocusRejected),
                ) && !end.update_status && end.result == Ok::<bool, SessionRuntimeError>(false)
            }
        }),
{
}

/// Every other command is over after its one step. It tells what became of that,
/// and the session ends with it where the machine stops, locks or sleeps, where a
/// grant changed, or where the link went down while the peer was moved. A stop
/// that could not be carried out fails the session.
pub proof fn law_commands_end_after_their_step(
    command: LocalSessionCommand,
    step: CommandStep,
    outcome: Result<(), SessionRuntimeError>,
    link: LinkState,
)
    requires
        !(command is RequestFocus),
    ensures
        following_step(command, step, outcome, link) matches CommandStep::Finish(end) && {
            let stops = command is EmergencyStop || command is LocalLocked || command
                is LocalSleeping;
            &&& command is ReleaseFocus ==> end.acknowledgement == Some(outcome)
                && end.update_status && end.result == Ok::<bool, SessionRuntimeError>(false)
            &&& stops ==> end.acknowledgement == Some(outcome) && !end.update_status
            &&& stops && outcome is Ok ==> end.result == Ok::<bool, SessionRuntimeError>(true)
            &&& stops && outcome is Err ==> end.result == Err::<bool, SessionRuntimeError>(
                SessionRuntimeError::SafetyRecoveryFailed,
            )
            &&& command is UpdateLocalGrant ==> end.acknowledgement == Some(outcome)
                && end.update_status == (outcome is Ok) && end.result == Ok::<
                bool,
                SessionRuntimeError,
            >(outcome is Ok)
            &&& command is UpdatePeerPlacement ==> {
                &&& outcome is Ok && step is Recover ==> end.acknowledgement == Some(
                    Err::<(), SessionRuntimeError>(SessionRuntimeError::FocusRejected),
                )
                &&& outcome is Ok && !(step is Recover) ==> end.acknowledgement == Some(outcome)
                &&& outcome is Err && step is SetPlacement ==> end.acknowledgement == Some(
                    Err::<(), SessionRuntimeError>(SessionRuntimeError::Platform),
                )
                &&& outcome is Err && !(step is SetPlacement) ==> end.acknowledgement == Some(
                    outcome,
                )
                &&& link is Up ==> end.result == Ok::<bool, SessionRuntimeError>(false)
                    && end.update_status == (outcome is Ok && !(step is Recover))
                &&& link is Down ==> !end.update_status && (end.result == Ok::<
                    bool,
                    SessionRuntimeError,
                >(true) || end.result == Err::<bool, SessionRuntimeError>(
                    SessionRuntimeError::SafetyRecoveryFailed,
                ))
                &&& link is Down ==> (end.result is Err <==> end.acknowledgement == Some(
                    Err::<(), SessionRuntimeError>(SessionRuntimeError::SafetyRecoveryFailed),
                ))
            }
            &&& command is SendFiles ==> end.acknowledgement is None && end.update_status
                && end.result == Ok::<bool, SessionRuntimeError>(false)
            &&& command is WakeTransferCancellation ==> {
                &&& end.acknowledgement is None
                &&& end.update_status == (outcome is Ok)
                &&& outcome is Ok ==> end.result == Ok::<bool, SessionRuntimeError>(false)
                &&& outcome matches Err(error) ==> end.result == Err::<bool, SessionRuntimeError>(
                    error,
                )
            }
        },
{
}

/// A tick looks at the displays, the platform, the clipboard, the files and the
/// lease in this order, and goes from one to the next while each went well.
pub proof fn law_ticks_go_in_order(
    phase: TimerPhase,
    session: SessionModel,
    focus: FocusState,
    now: u64,
    went: bool,
    step: TimerStep,
    after: TimerPhase,
    session_after: SessionModel,
)
    requires
        ticked(phase, session, focus, now, Ok(went), step, after, session_after),
    ensures
        phase is Start && !session.refresh.late(now) ==> step is Preflight && after is Preflight,
        phase is Preflight ==> step is CheckHealth && after is Health,
        phase is Health && !session.refresh.late(now) ==> step is PollClipboard && after
            is Clipboard,
        phase is Clipboard ==> step is PumpTransfer && after is Pump,
        phase is Pump && session.renewal_event(focus, now) is None ==> after is Ticking && step == (
        TimerStep::Reduce { event: CoreEvent::TimerElapsed { now } }),
        phase is Pump ==> (session.renewal_event(focus, now) matches Some(event) ==> step == (
        TimerStep::Reduce { event }) && after == (TimerPhase::Renewing { read_at: now })),
        phase matches TimerPhase::Renewing { read_at } ==> after is Ticking && step == (
        TimerStep::Reduce { event: CoreEvent::TimerElapsed { now: read_at } })
            && session_after.renewal_pending,
        phase is Ticking ==> step is UpdateStatus && after == (TimerPhase::Status { ends: went }),
        phase matches TimerPhase::Status { ends } ==> step == TimerStep::Finished(Ok(ends)),
        phase is Late ==> step == TimerStep::Finished(Ok(true)),
        phase is Unhealthy ==> step == TimerStep::Finished(Err(SessionRuntimeError::Platform)),
        !(phase is Renewing) ==> session_after == session,
        step matches TimerStep::Finished(result) ==> after == TimerPhase::Ended(result),
{
}

/// A tick stops everything where the displays take too long or the platform is
/// not healthy, and any other failure ends it with that failure.
pub proof fn law_ticks_stop_what_is_late(
    phase: TimerPhase,
    session: SessionModel,
    focus: FocusState,
    now: u64,
    outcome: Result<bool, SessionRuntimeError>,
    step: TimerStep,
    after: TimerPhase,
    session_after: SessionModel,
)
    requires
        ticked(phase, session, focus, now, outcome, step, after, session_after),
    ensures
        phase is Start && session.refresh.late(now) ==> after is Late && step == (
        TimerStep::Recover { event: CoreEvent::LocalEmergencyStop }),
        phase is Health && outcome is Ok && session.refresh.late(now) ==> after is Late && step == (
        TimerStep::Recover { event: CoreEvent::LocalEmergencyStop }),
        phase is Health && outcome is Err ==> after is Unhealthy && step == (TimerStep::Recover {
            event: CoreEvent::LocalEmergencyStop,
        }),
        outcome matches Err(error) ==> (!(phase is Start || phase is Health || phase is Ended)
            ==> step == TimerStep::Finished(Err(error)) && after == TimerPhase::Ended(Err(error))
            && session_after == session),
        phase matches TimerPhase::Ended(result) ==> step == TimerStep::Finished(result) && after
            == phase,
{
}

/// A failed capture is stopped like an emergency; a lock and a sleep keep
/// their names.
pub proof fn law_safety_signals_become_commands(
    event: PlatformSafetyEvent,
    command: LocalSessionCommand,
)
    requires
        call_ensures(platform_safety_command, (event,), command),
    ensures
        command is LocalLocked <==> event is LocalLocked,
        command is LocalSleeping <==> event is LocalSleeping,
        command is EmergencyStop <==> event is CaptureFailed,
{
}

/// After a recovery no session is shown as ready. A recovery that failed shows
/// the device as stopping, with the input here.
pub proof fn law_recoveries_are_shown(
    session: &mut PeerSession,
    status: &mut AgentStatus,
    focus: FocusState,
    result: Result<(), SessionRuntimeError>,
    recovered: Result<(), SessionRuntimeError>,
)
    requires
        call_ensures(PeerSession::finish_recovery, (session, status, focus, result), recovered),
    ensures
        recovered is Ok <==> result is Ok,
        recovered matches Err(error) ==> error is SafetyRecoveryFailed,
        final(status).readiness.session_topology is NotConnected,
        recovered is Err ==> final(status).phase is Stopping && final(status).input_owner is Local
            && final(status).focus_state is Local,
        recovered is Ok ==> final(status).phase == old(status).phase && final(session)@
            == old(session)@,
{
}

/// A placement stands once its routes are accepted, and not before.
pub proof fn law_placements_stand_when_accepted(
    session: &mut PeerSession,
    placement: PeerPlacement,
    proposal: RouteProposal,
    accepted: bool,
    committed: Result<(), SessionRuntimeError>,
)
    requires
        call_ensures(
            PeerSession::commit_placement,
            (session, placement, proposal, accepted),
            committed,
        ),
    ensures
        committed is Ok <==> accepted,
        accepted ==> final(session)@.config.peer_placement == placement
            && final(session)@.topology.routes == proposal@,
        !accepted ==> final(session)@ == old(session)@,
        committed matches Err(error) ==> error is Platform,
{
}

} // verus!
