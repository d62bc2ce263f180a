//! Rules of the native input boundary.
//!
//! Native capture and injection run on threads of their own. A worker that may
//! still hold injected input must never be replaced, so every doubt about it
//! poisons the process for good.

use vstd::prelude::*;
use crate::input::InputEvent;
use crate::native_bridge::PlatformSafetyEvent;

verus! {

#[derive(Clone, Copy, Debug, PartialEq, Eq, Structural)]
pub enum PlatformPortError {
    /// A changed display graph is not stable yet.
    DisplaySnapshotPending,
    /// There is no native input here.
    Unavailable,
    /// Native input failed.
    Native,
}

/// Whether a failed injection may be tried again: only a pointer position, and
/// only because the displays changed under it.
pub fn absolute_pointer_transition_is_retryable(event: InputEvent, topology_transition: bool) -> (
    retryable: bool)
    ensures
        retryable == (topology_transition && event is PointerMotion),
{
    match event {
        InputEvent::PointerMotion { .. } => topology_transition,
        _ => false,
    }
}

/// Whether a native worker may have been left in an unknown state.
#[derive(Clone, Copy, Debug, PartialEq, Eq, Structural)]
pub struct InjectorPoison {
    poisoned: bool,
}

impl InjectorPoison {
    pub closed spec fn set(self) -> bool {
        self.poisoned
    }

    pub fn new() -> (poison: InjectorPoison)
        ensures
            !poison.set(),
    {
        InjectorPoison { poisoned: false }
    }

    /// Nothing ever takes this back.
    pub fn store(&mut self)
        ensures
            final(self).set(),
    {
        self.poisoned = true;
    }
}

/// Whether a native injector may be started.
pub fn injector_worker_start_allowed(poison: &InjectorPoison) -> (allowed: bool)
    ensures
        allowed == !poison.set(),
{
    !poison.poisoned
}

/// Records the result of an injection, and only then hands out what is sent to
/// the caller. Any failure but a retryable display transition keeps a
/// replacement from starting.
pub fn acknowledge_inject_result<Error>(
    result: Result<(), Error>,
    poison: &mut InjectorPoison,
    retryable_transition: bool,
) -> (acknowledgement: Result<(), Error>)
    ensures
        acknowledgement == result,
        final(poison).set() == (old(poison).set() || (result is Err && !retryable_transition)),
{
    if result.is_err() && !retryable_transition {
        poison.store();
    }
    result
}

/// Records whether an acknowledgement reached its caller.
pub fn acknowledgement_sent(delivered: bool, poison: &mut InjectorPoison)
    ensures
        final(poison).set() == (old(poison).set() || !delivered),
{
    if !delivered {
        poison.store();
    }
}

/// What waiting for a worker's last acknowledgement led to.
#[derive(Debug, PartialEq, Eq)]
pub enum StopReply<Error> {
    DeadlinePassed,
    NoReply,
    Replied(Result<(), Error>),
}

/// Whether a worker stopped in good order before its deadline.
pub fn receive_worker_stop_before_deadline<Error>(
    reply: &StopReply<Error>,
    poison: &mut InjectorPoison,
) -> (stopped: bool)
    ensures
        stopped == (*reply matches StopReply::Replied(Ok(_))),
        final(poison).set() == (old(poison).set() || !stopped),
{
    match reply {
        StopReply::Replied(Ok(_)) => true,
        _ => {
            poison.store();
            false
        },
    }
}


/// What is seen of a worker that should end.
#[derive(Clone, Copy, Debug, PartialEq, Eq, Structural)]
pub enum WorkerSight {
    /// There is no worker.
    Absent,
    Running { past_deadline: bool },
    Finished { panicked: bool },
}

/// Whether a worker has ended.
#[derive(Clone, Copy, Debug, PartialEq, Eq, Structural)]
pub enum FinishStep {
    /// Look again in a moment.
    Wait,
    /// The worker is gone, in good order or not. One that is still running is
    /// left behind for good.
    Gone { clean: bool },
}

/// Waits for a worker to end, up to its deadline. A worker that is stuck or has
/// panicked poisons the process before anything else happens.
pub fn finish_worker_before_deadline(sight: WorkerSight, poison: &mut InjectorPoison) -> (step:
    FinishStep)
    ensures
        step == match sight {
            WorkerSight::Absent => FinishStep::Gone { clean: true },
            WorkerSight::Running { past_deadline } => if past_deadline {
                FinishStep::Gone { clean: false }
            } else {
                FinishStep::Wait
            },
            WorkerSight::Finished { panicked } => FinishStep::Gone { clean: !panicked },
        },
        final(poison).set() == (old(poison).set() || step == (FinishStep::Gone { clean: false })),
{
    match sight {
        WorkerSight::Absent => FinishStep::Gone { clean: true },
        WorkerSight::Running { past_deadline } => {
            if !past_deadline {
                return FinishStep::Wait;
            }
            poison.store();
            FinishStep::Gone { clean: false }
        },
        WorkerSight::Finished { panicked } => {
            if panicked {
                poison.store();
            }
            FinishStep::Gone { clean: !panicked }
        },
    }
}

/// What became of an attempt to hand a command to a worker.
#[derive(Clone, Copy, Debug, PartialEq, Eq, Structural)]
pub enum SubmitAttempt {
    Sent,
    /// The worker is gone.
    Disconnected,
    /// The worker is busy.
    Full { past_deadline: bool },
}

#[derive(Clone, Copy, Debug, PartialEq, Eq, Structural)]
pub enum SubmitStep {
    /// Try again in a moment.
    Retry,
    AwaitReply,
    Failed,
}

/// Hands a command to a worker, up to its deadline. To a poisoned worker nothing
/// is handed at all, so that nobody waits for it.
pub fn submit_worker_command_before_deadline(
    attempt: Option<SubmitAttempt>,
    poison: &mut InjectorPoison,
) -> (step: SubmitStep)
    ensures
        match attempt {
            None => {
                &&& step == if old(poison).set() {
                    SubmitStep::Failed
                } else {
                    SubmitStep::Retry
                }
                &&& final(poison).set() == old(poison).set()
            },
            Some(known) => {
                &&& step == match known {
                    SubmitAttempt::Sent => SubmitStep::AwaitReply,
                    SubmitAttempt::Disconnected => SubmitStep::Failed,
                    SubmitAttempt::Full { past_deadline } => if past_deadline {
                        SubmitStep::Failed
                    } else {
                        SubmitStep::Retry
                    },
                }
                &&& final(poison).set() == (old(poison).set() || step == SubmitStep::Failed)
            },
        },
{
    match attempt {
        None => if poison.poisoned {
            SubmitStep::Failed
        } else {
            SubmitStep::Retry
        },
        Some(SubmitAttempt::Sent) => SubmitStep::AwaitReply,
        Some(SubmitAttempt::Disconnected) => {
            poison.store();
            SubmitStep::Failed
        },
        Some(SubmitAttempt::Full { past_deadline }) => {
            if !past_deadline {
                return SubmitStep::Retry;
            }
            poison.store();
            SubmitStep::Failed
        },
    }
}

/// Takes the reply of a worker, which is missing if it did not come in time.
pub fn worker_replied<Reply>(reply: Option<Reply>, poison: &mut InjectorPoison) -> (answer: Result<
    Reply,
    PlatformPortError,
>)
    ensures
        match reply {
            Some(known) => answer == Ok::<Reply, PlatformPortError>(known),
            None => answer == Err::<Reply, _>(PlatformPortError::Native),
        },
        final(poison).set() == (old(poison).set() || reply is None),
{
    match reply {
        Some(known) => Ok(known),
        None => {
            poison.store();
            Err(PlatformPortError::Native)
        },
    }
}

/// How a worker that was started has answered.
#[derive(Clone, Copy, Debug, PartialEq, Eq, Structural)]
pub enum StartReply {
    Ready,
    /// It could not be made, or ended at once.
    NotReady,
    /// Nothing came in time: it may still be inside native code.
    TimedOut,
}

#[derive(Clone, Copy, Debug, PartialEq, Eq, Structural)]
pub enum StartStep {
    Running,
    /// Wait for it to end; then starting has failed.
    Finish,
    /// Leave it behind; starting has failed.
    Detach,
}

/// A worker that does not answer in time is never replaced.
pub fn worker_started(reply: StartReply, poison: &mut InjectorPoison) -> (step: StartStep)
    ensures
        step == match reply {
            StartReply::Ready => StartStep::Running,
            StartReply::NotReady => StartStep::Finish,
            StartReply::TimedOut => StartStep::Detach,
        },
        final(poison).set() == (old(poison).set() || reply == StartReply::TimedOut),
{
    match reply {
        StartReply::Ready => StartStep::Running,
        StartReply::NotReady => StartStep::Finish,
        StartReply::TimedOut => {
            poison.store();
            StartStep::Detach
        },
    }
}

/// What an injector worker was told to do.
#[derive(Clone, Copy, Debug, PartialEq, Eq, Structural)]
pub enum InjectorCommand {
    Inject { event: InputEvent, topology_transition: bool },
    Release,
    Stop,
    /// Nobody can tell it anything any more.
    Disconnected,
}

/// A failure that keeps a replacement from starting before whoever gave the
/// command hears of it. A worker that stops sets the fence after it has told.
pub open spec fn fatal_at_once(command: InjectorCommand, failed: bool) -> bool {
    failed && match command {
        InjectorCommand::Inject { event, topology_transition } => !(topology_transition
            && event is PointerMotion),
        InjectorCommand::Release | InjectorCommand::Disconnected => true,
        InjectorCommand::Stop => false,
    }
}

/// What a worker does next about a command.
#[derive(Clone, Copy, Debug, PartialEq, Eq, Structural)]
pub enum CommandStep {
    /// Send the result to whoever gave the command; then call `acknowledged`.
    Acknowledge { failed: bool },
    /// There is nobody to tell.
    End,
}

/// A command of an injector worker after it was carried out: first its result is
/// recorded, then whoever gave it is told.
pub struct CommandRun {
    command: InjectorCommand,
    failed: bool,
}

pub struct CommandRunModel {
    pub command: InjectorCommand,
    pub failed: bool,
}

impl View for CommandRun {
    type V = CommandRunModel;

    closed spec fn view(&self) -> CommandRunModel {
        CommandRunModel { command: self.command, failed: self.failed }
    }
}

/// `step` comes once the result of `command` was recorded, with the fence as
/// `fenced` says then.
pub open spec fn command_recorded(
    command: InjectorCommand,
    failed: bool,
    fenced_before: bool,
    step: CommandStep,
    fenced: bool,
) -> bool {
    &&& fenced == (fenced_before || fatal_at_once(command, failed))
    &&& step == if command is Disconnected {
        CommandStep::End
    } else {
        CommandStep::Acknowledge { failed }
    }
}

/// What becomes of the fence when the result was sent, or could not be.
pub open spec fn command_acknowledged(
    run: CommandRunModel,
    delivered: bool,
    fenced_before: bool,
    goes_on: bool,
    fenced: bool,
) -> bool {
    &&& fenced == (fenced_before || !delivered || run.command is Stop && run.failed)
    &&& goes_on == (run.command is Inject || run.command is Release)
}

impl CommandRun {
    /// Records what became of a command, before anybody hears of it.
    pub fn begin(command: InjectorCommand, failed: bool, poison: &mut InjectorPoison) -> (begun: (
        CommandRun,
        CommandStep,
    ))
        ensures
            begun.0@ == (CommandRunModel { command, failed }),
            command_recorded(
                command,
                failed,
                old(poison).set(),
                begun.1,
                final(poison).set(),
            ),
    {
        let run = CommandRun { command, failed };
        let step = match command {
            InjectorCommand::Disconnected => CommandStep::End,
            _ => CommandStep::Acknowledge { failed },
        };
        match command {
            InjectorCommand::Inject { event, topology_transition } => {
                let retryable = absolute_pointer_transition_is_retryable(
                    event,
                    topology_transition,
                );
                let result = if failed {
                    Err(())
                } else {
                    Ok(())
                };
                let _ = acknowledge_inject_result(result, poison, retryable);
            },
            InjectorCommand::Release | InjectorCommand::Disconnected => {
                if failed {
                    poison.store();
                }
            },
            InjectorCommand::Stop => {},
        }
        (run, step)
    }

    /// The result was sent, or could not be. Says whether the worker goes on.
    pub fn acknowledged(self, delivered: bool, poison: &mut InjectorPoison) -> (goes_on: bool)
        ensures
            command_acknowledged(
                self@,
                delivered,
                old(poison).set(),
                goes_on,
                final(poison).set(),
            ),
    {
        acknowledgement_sent(delivered, poison);
        match self.command {
            InjectorCommand::Inject { .. } | InjectorCommand::Release => true,
            InjectorCommand::Stop => {
                if self.failed {
                    poison.store();
                }
                false
            },
            InjectorCommand::Disconnected => false,
        }
    }
}

/// The fence is set before a fatal result is sent: once the step to send it
/// comes, no replacement can start, whatever becomes of the sending.
pub proof fn law_fence_is_set_before_fatal_acknowledgements(
    command: InjectorCommand,
    failed: bool,
    fenced_before: bool,
    step: CommandStep,
    fenced: bool,
    delivered: bool,
    goes_on: bool,
    fenced_after: bool,
)
    requires
        fatal_at_once(command, failed),
        command_recorded(command, failed, fenced_before, step, fenced),
        command_acknowledged(
            CommandRunModel { command, failed },
            delivered,
            fenced,
            goes_on,
            fenced_after,
        ),
    ensures
        fenced,
        fenced_after,
        command is Disconnected || step == (CommandStep::Acknowledge { failed: true }),
{
}

/// A fence that is set stays set.
pub proof fn law_fences_stay(
    command: InjectorCommand,
    failed: bool,
    step: CommandStep,
    fenced: bool,
    delivered: bool,
    goes_on: bool,
    fenced_after: bool,
)
    requires
        command_recorded(command, failed, true, step, fenced),
        command_acknowledged(
            CommandRunModel { command, failed },
            delivered,
            fenced,
            goes_on,
            fenced_after,
        ),
    ensures
        fenced,
        fenced_after,
{
}

/// What happens to native capture outside of input.
#[derive(Clone, Copy, Debug, PartialEq, Eq, Structural)]
pub enum InputLifecycleEvent {
    CaptureStarted,
    CaptureStopped,
    SystemWillSleep,
    SystemDidWake,
    ScreensDidSleep,
    ScreensDidWake,
    SessionDidResignActive,
    SessionDidBecomeActive,
    TapDisabledByTimeout,
    TapDisabledByUserInput,
}

/// The safety signal that a lifecycle event is, if it is one.
pub fn safety_event_for_lifecycle(lifecycle: InputLifecycleEvent) -> (event: Option<
    PlatformSafetyEvent,
>)
    ensures
        event == match lifecycle {
            InputLifecycleEvent::SystemWillSleep => Some(PlatformSafetyEvent::LocalSleeping),
            InputLifecycleEvent::ScreensDidSleep
            | InputLifecycleEvent::SessionDidResignActive => Some(PlatformSafetyEvent::LocalLocked),
            InputLifecycleEvent::TapDisabledByTimeout
            | InputLifecycleEvent::TapDisabledByUserInput => Some(
                PlatformSafetyEvent::CaptureFailed,
            ),
            _ => None,
        },
{
    match lifecycle {
        InputLifecycleEvent::SystemWillSleep => Some(PlatformSafetyEvent::LocalSleeping),
        InputLifecycleEvent::ScreensDidSleep
        | InputLifecycleEvent::SessionDidResignActive => Some(PlatformSafetyEvent::LocalLocked),
        InputLifecycleEvent::TapDisabledByTimeout
        | InputLifecycleEvent::TapDisabledByUserInput => Some(PlatformSafetyEvent::CaptureFailed),
        InputLifecycleEvent::CaptureStarted
        | InputLifecycleEvent::CaptureStopped
        | InputLifecycleEvent::SystemDidWake
        | InputLifecycleEvent::ScreensDidWake
        | InputLifecycleEvent::SessionDidBecomeActive => None,
    }
}

/// How the native displays failed.
#[derive(Clone, Copy, Debug, PartialEq, Eq, Structural)]
pub enum DisplayFault {
    ConfigurationChanged,
    TopologyUnstable,
    Other,
}

/// A display graph that is still changing is worth waiting for.
pub fn mac_display_snapshot_error(fault: DisplayFault) -> (error: PlatformPortError)
    ensures
        error == match fault {
            DisplayFault::Other => PlatformPortError::Native,
            _ => PlatformPortError::DisplaySnapshotPending,
        },
{
    match fault {
        DisplayFault::ConfigurationChanged
        | DisplayFault::TopologyUnstable => PlatformPortError::DisplaySnapshotPending,
        DisplayFault::Other => PlatformPortError::Native,
    }
}

/// Releasing injected input. `released` is what the injector said, if there is
/// one; without one there must be nothing to release.
pub fn release_injected(released: Option<bool>, none_held: bool) -> (done: Result<
    (),
    PlatformPortError,
>)
    ensures
        done == if released == Some(true) || released is None && none_held {
            Ok(())
        } else {
            Err::<(), _>(PlatformPortError::Native)
        },
{
    match released {
        Some(true) => Ok(()),
        Some(false) => Err(PlatformPortError::Native),
        None => if none_held {
            Ok(())
        } else {
            Err(PlatformPortError::Native)
        },
    }
}

/// Restoring local ownership: routing has to stop, and what was injected has to
/// be released. Both are tried whatever became of the other.
pub fn restore_local_ownership(routing_stopped: bool, released: Option<bool>) -> (done: Result<
    (),
    PlatformPortError,
>)
    ensures
        done == if routing_stopped && released != Some(false) {
            Ok(())
        } else {
            Err::<(), _>(PlatformPortError::Native)
        },
{
    let failed = match released {
        Some(true) | None => false,
        Some(false) => true,
    };
    if !routing_stopped || failed {
        Err(PlatformPortError::Native)
    } else {
        Ok(())
    }
}

/// Native input is healthy while everything that it needs is there.
pub fn ensure_healthy(
    capture_running: bool,
    injector_running: bool,
    displays_watched: bool,
    trusted: bool,
) -> (healthy: Result<(), PlatformPortError>)
    ensures
        healthy == if capture_running && injector_running && displays_watched && trusted {
            Ok(())
        } else {
            Err::<(), _>(PlatformPortError::Native)
        },
{
    if capture_running && injector_running && displays_watched && trusted {
        Ok(())
    } else {
        Err(PlatformPortError::Native)
    }
}

/// A failure keeps a replacement from starting at once, unless it is a place that
/// could not be injected while the displays change, or a stop, which is told
/// first.
pub proof fn law_failures_are_fatal_at_once(command: InjectorCommand, failed: bool)
    ensures
        !failed ==> !fatal_at_once(command, failed),
        failed ==> {
            &&& command is Release ==> fatal_at_once(command, failed)
            &&& command is Disconnected ==> fatal_at_once(command, failed)
            &&& command is Stop ==> !fatal_at_once(command, failed)
            &&& command matches InjectorCommand::Inject { event, topology_transition } ==> (
            fatal_at_once(command, failed) <==> !(event is PointerMotion) || !topology_transition)
        },
{
}

/// Whoever gave a command is told what became of it, unless nobody is there. The
/// fence is set by a fatal failure, by a result that reached nobody, and by a stop
/// that failed, and by nothing else. A worker goes on until it is stopped.
pub proof fn law_commands_are_acknowledged(
    command: InjectorCommand,
    failed: bool,
    fenced_before: bool,
    step: CommandStep,
    fenced: bool,
    delivered: bool,
    goes_on: bool,
    fenced_after: bool,
)
    requires
        command_recorded(command, failed, fenced_before, step, fenced),
        command_acknowledged(
            CommandRunModel { command, failed },
            delivered,
            fenced,
            goes_on,
            fenced_after,
        ),
    ensures
        command is Disconnected <==> step is End,
        !(command is Disconnected) ==> step == (CommandStep::Acknowledge { failed }),
        goes_on <==> command is Inject || command is Release,
        !failed && delivered ==> fenced_after == fenced_before,
        !delivered ==> fenced_after,
        command is Stop && failed ==> fenced_after,
        command is Stop ==> fenced == fenced_before,
        fatal_at_once(command, failed) ==> fenced && fenced_after,
        fenced_after && !fenced_before ==> failed || !delivered,
{
}

/// Sleep, a lock or lost capture are signals; starting, stopping and waking up
/// are none.
pub proof fn law_lifecycle_signals_are_told_apart(
    lifecycle: InputLifecycleEvent,
    event: Option<PlatformSafetyEvent>,
)
    requires
        call_ensures(safety_event_for_lifecycle, (lifecycle,), event),
    ensures
        event == Some(PlatformSafetyEvent::LocalSleeping) <==> lifecycle is SystemWillSleep,
        event == Some(PlatformSafetyEvent::LocalLocked) <==> lifecycle is ScreensDidSleep
            || lifecycle is SessionDidResignActive,
        event == Some(PlatformSafetyEvent::CaptureFailed) <==> lifecycle is TapDisabledByTimeout
            || lifecycle is TapDisabledByUserInput,
        event is None <==> lifecycle is CaptureStarted || lifecycle is CaptureStopped
            || lifecycle is SystemDidWake || lifecycle is ScreensDidWake
            || lifecycle is SessionDidBecomeActive,
{
}

/// Displays that are still changing are waited for; no other fault is.
pub proof fn law_changing_displays_are_waited_for(fault: DisplayFault, error: PlatformPortError)
    requires
        call_ensures(mac_display_snapshot_error, (fault,), error),
    ensures
        error is DisplaySnapshotPending <==> fault is ConfigurationChanged
            || fault is TopologyUnstable,
        error is Native <==> fault is Other,
{
}

/// Input that was injected is released for certain: by a release that
/// succeeded, or where nothing was held and nothing was there to release it.
pub proof fn law_injected_input_is_released(
    released: Option<bool>,
    none_held: bool,
    done: Result<(), PlatformPortError>,
    routing_stopped: bool,
    restored: Result<(), PlatformPortError>,
)
    requires
        call_ensures(release_injected, (released, none_held), done),
        call_ensures(restore_local_ownership, (routing_stopped, released), restored),
    ensures
        released == Some(true) ==> done is Ok,
        released == Some(false) ==> done is Err && restored is Err,
        released is None ==> (done is Ok <==> none_held),
        !routing_stopped ==> restored is Err,
        routing_stopped && released != Some(false) ==> restored is Ok,
        done matches Err(error) ==> error is Native,
        restored matches Err(error) ==> error is Native,
{
}

/// The platform is healthy only while all of its parts are.
pub proof fn law_health_needs_every_part(
    capture_running: bool,
    injector_running: bool,
    displays_watched: bool,
    trusted: bool,
    healthy: Result<(), PlatformPortError>,
)
    requires
        call_ensures(
            ensure_healthy,
            (capture_running, injector_running, displays_watched, trusted),
            healthy,
        ),
    ensures
        !capture_running ==> healthy is Err,
        !injector_running ==> healthy is Err,
        !displays_watched ==> healthy is Err,
        !trusted ==> healthy is Err,
        capture_running && injector_running && displays_watched && trusted ==> healthy is Ok,
        healthy matches Err(error) ==> error is Native,
{
}

/// A worker counts as gone cleanly only where it ended by itself without a
/// panic or never ran; every other end spoils the injector for good.
pub proof fn law_lost_workers_spoil_the_injector(
    sight: WorkerSight,
    poison: &mut InjectorPoison,
    step: FinishStep,
)
    requires
        call_ensures(finish_worker_before_deadline, (sight, poison), step),
    ensures
        step is Wait <==> (sight matches WorkerSight::Running { past_deadline: false }),
        (step matches FinishStep::Gone { clean: true }) <==> sight is Absent || (
        sight matches WorkerSight::Finished { panicked: false }),
        (step matches FinishStep::Gone { clean: false }) ==> final(poison).set(),
        old(poison).set() ==> final(poison).set(),
        final(poison).set() && !old(poison).set() ==> (step matches FinishStep::Gone {
            clean: false,
        }),
{
}

/// A command that cannot be handed over in time fails and spoils the injector;
/// a spoilt injector takes no command.
pub proof fn law_spoilt_injectors_take_nothing(
    attempt: Option<SubmitAttempt>,
    poison: &mut InjectorPoison,
    step: SubmitStep,
)
    requires
        call_ensures(submit_worker_command_before_deadline, (attempt, poison), step),
    ensures
        step is AwaitReply <==> (attempt matches Some(SubmitAttempt::Sent)),
        attempt is None ==> (step is Failed <==> old(poison).set()),
        (attempt matches Some(SubmitAttempt::Disconnected)) ==> step is Failed,
        (attempt matches Some(SubmitAttempt::Full { past_deadline: false })) ==> step is Retry,
        (attempt matches Some(SubmitAttempt::Full { past_deadline: true })) ==> step is Failed,
        step is Failed ==> final(poison).set(),
        old(poison).set() ==> final(poison).set(),
        !(step is Failed) ==> final(poison).set() == old(poison).set(),
{
}

/// A worker runs once it said that it is ready; one that says nothing is left
/// behind and spoils the injector.
pub proof fn law_silent_workers_are_left_behind(
    reply: StartReply,
    poison: &mut InjectorPoison,
    step: StartStep,
)
    requires
        call_ensures(worker_started, (reply, poison), step),
    ensures
        step is Running <==> reply is Ready,
        step is Finish <==> reply is NotReady,
        step is Detach <==> reply is TimedOut,
        reply is TimedOut ==> final(poison).set(),
        !(reply is TimedOut) ==> final(poison).set() == old(poison).set(),
{
}

/// The result of an injection is handed on as it is; a failure spoils the
/// injector unless it is one that may be tried again, and only motion during a
/// change of displays may.
pub proof fn law_failed_injections_spoil<Error>(
    event: InputEvent,
    transition: bool,
    retryable: bool,
    result: Result<(), Error>,
    poison: &mut InjectorPoison,
    acknowledgement: Result<(), Error>,
)
    requires
        call_ensures(absolute_pointer_transition_is_retryable, (event, transition), retryable),
        call_ensures(
            acknowledge_inject_result::<Error>,
            (result, poison, retryable),
            acknowledgement,
        ),
    ensures
        acknowledgement == result,
        result is Err && !(event is PointerMotion) ==> final(poison).set(),
        result is Err && !transition ==> final(poison).set(),
        event is PointerMotion && transition ==> final(poison).set() == old(poison).set(),
        result is Ok ==> final(poison).set() == old(poison).set(),
        old(poison).set() ==> final(poison).set(),
{
}

/// A stop that was not confirmed spoils the injector, and a spoilt one does not
/// start.
pub proof fn law_unconfirmed_stops_spoil<Error>(
    reply: StopReply<Error>,
    poison: &mut InjectorPoison,
    stopped: bool,
    later: InjectorPoison,
    allowed: bool,
)
    requires
        call_ensures(receive_worker_stop_before_deadline::<Error>, (&reply, poison), stopped),
        call_ensures(injector_worker_start_allowed, (&later,), allowed),
    ensures
        stopped <==> (reply matches StopReply::Replied(Ok(_))),
        !stopped ==> final(poison).set(),
        stopped ==> final(poison).set() == old(poison).set(),
        allowed <==> !later.set(),
{
}

/// An acknowledgement that nobody took spoils the injector.
pub proof fn law_lost_acknowledgements_spoil(delivered: bool, poison: &mut InjectorPoison)
    requires
        call_ensures(acknowledgement_sent, (delivered, poison), ()),
    ensures
        !delivered ==> final(poison).set(),
        delivered ==> final(poison).set() == old(poison).set(),
{
}

} // verus!
