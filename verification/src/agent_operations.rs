//! Commands of the user that take several steps: switching a capability,
//! choosing files, cancelling a transfer, and clearing what a peer left.

use vstd::prelude::*;
use vstd::string::*;
use crate::identifiers::DeviceId;
use crate::peer_book::{protocol_capability, GrantChange, TrustedCapability};
use crate::runtime::AgentError;
use crate::safety_stop::Exchange;
use crate::session_commands::LocalSessionCommand;
use crate::transfer_model::TransferRegistryError;
use crate::transfer_worker::TransferCleanupState;

verus! {

/// What is done about a capability that was switched and stored.
#[derive(Clone, Copy, Debug)]
pub enum CapabilityAction {
    /// Everything that the peer sent and that is not whole is to be discarded.
    RequireInboundDiscard(DeviceId),
    /// Hand the command to the session, if there is one, and wait for its
    /// acknowledgement.
    Notify(LocalSessionCommand),
    Disconnect,
    /// Wait until what was to be discarded is gone.
    WaitCleanup(DeviceId),
    End(Result<(), AgentError>),
}

/// What came of it.
#[derive(Debug)]
pub enum CapabilityOutcome {
    Done,
    Notified(Exchange<()>),
    Cleaned(Result<(), AgentError>),
}

#[derive(Clone, Copy, Debug, PartialEq, Eq, Structural)]
pub enum CapabilityPhase {
    Discarding,
    Notifying,
    Disconnecting,
    Cleaning,
    Over,
}

/// The steps after one capability was switched and stored.
#[derive(Clone, Copy, Debug)]
pub struct CapabilityRun {
    pub peer: DeviceId,
    pub command: LocalSessionCommand,
    /// Files may not be sent any more.
    pub discards: bool,
    pub phase: CapabilityPhase,
}

/// The session took the change over, or there is none.
pub open spec fn change_applied(exchange: Exchange<()>) -> bool {
    exchange is NoSession || (exchange is Replied && exchange->Replied_0 is Ok)
}

pub open spec fn capability_fits(phase: CapabilityPhase, outcome: CapabilityOutcome) -> bool {
    match phase {
        CapabilityPhase::Discarding => outcome is Done,
        CapabilityPhase::Notifying => outcome is Notified,
        CapabilityPhase::Disconnecting => outcome is Done,
        CapabilityPhase::Cleaning => outcome is Cleaned,
        CapabilityPhase::Over => false,
    }
}

impl CapabilityRun {
    /// What is left when the session was told.
    pub open spec fn told(self) -> (CapabilityPhase, CapabilityAction) {
        if self.discards {
            (CapabilityPhase::Cleaning, CapabilityAction::WaitCleanup(self.peer))
        } else {
            (CapabilityPhase::Over, CapabilityAction::End(Ok(())))
        }
    }

    /// The phase and the action that follow an outcome.
    pub open spec fn turn(self, outcome: CapabilityOutcome) -> (CapabilityPhase, CapabilityAction) {
        match (self.phase, outcome) {
            (CapabilityPhase::Discarding, _) => (
                CapabilityPhase::Notifying,
                CapabilityAction::Notify(self.command),
            ),
            (CapabilityPhase::Notifying, CapabilityOutcome::Notified(exchange)) => {
                if change_applied(exchange) {
                    self.told()
                } else {
                    (CapabilityPhase::Disconnecting, CapabilityAction::Disconnect)
                }
            },
            (CapabilityPhase::Disconnecting, _) => self.told(),
            (CapabilityPhase::Cleaning, CapabilityOutcome::Cleaned(end)) => (
                CapabilityPhase::Over,
                CapabilityAction::End(end),
            ),
            _ => (CapabilityPhase::Over, CapabilityAction::End(Ok(()))),
        }
    }

    /// Begins after the change was stored.
    pub fn begin(change: &GrantChange, capability: TrustedCapability, enabled: bool) -> (started: (
        CapabilityRun,
        CapabilityAction,
    ))
        ensures
            started.0.peer == change.peer_device,
            started.0.command == (LocalSessionCommand::UpdateLocalGrant {
                grants: change.grants,
                epoch: change.epoch,
                capability: protocol_capability(capability),
                enabled,
            }),
            started.0.discards == (capability == TrustedCapability::FileTransfer && !enabled),
            (started.0.phase, started.1) == if started.0.discards {
                (
                    CapabilityPhase::Discarding,
                    CapabilityAction::RequireInboundDiscard(change.peer_device),
                )
            } else {
                (CapabilityPhase::Notifying, CapabilityAction::Notify(started.0.command))
            },
    {
        let command = LocalSessionCommand::UpdateLocalGrant {
            grants: change.grants,
            epoch: change.epoch,
            capability: protocol_capability(capability),
            enabled,
        };
        let discards = capability == TrustedCapability::FileTransfer && !enabled;
        let (phase, action) = if discards {
            (
                CapabilityPhase::Discarding,
                CapabilityAction::RequireInboundDiscard(change.peer_device),
            )
        } else {
            (CapabilityPhase::Notifying, CapabilityAction::Notify(command))
        };
        (CapabilityRun { peer: change.peer_device, command, discards, phase }, action)
    }

    fn after_told(&self) -> (next: (CapabilityPhase, CapabilityAction))
        ensures
            next == self.told(),
    {
        if self.discards {
            (CapabilityPhase::Cleaning, CapabilityAction::WaitCleanup(self.peer))
        } else {
            (CapabilityPhase::Over, CapabilityAction::End(Ok(())))
        }
    }

    /// Goes on after an action was carried out.
    pub fn advance(&mut self, outcome: CapabilityOutcome) -> (action: CapabilityAction)
        requires
            capability_fits(old(self).phase, outcome),
        ensures
            (final(self).phase, action) == old(self).turn(outcome),
            final(self).peer == old(self).peer,
            final(self).command == old(self).command,
            final(self).discards == old(self).discards,
    {
        let (phase, action) = match (self.phase, outcome) {
            (CapabilityPhase::Discarding, _) => (
                CapabilityPhase::Notifying,
                CapabilityAction::Notify(self.command),
            ),
            (CapabilityPhase::Notifying, CapabilityOutcome::Notified(exchange)) => {
                let applied = match exchange {
                    Exchange::NoSession => true,
                    Exchange::Replied(reply) => reply.is_ok(),
                    _ => false,
                };
                if applied {
                    self.after_told()
                } else {
                    (CapabilityPhase::Disconnecting, CapabilityAction::Disconnect)
                }
            },
            (CapabilityPhase::Disconnecting, _) => self.after_told(),
            (CapabilityPhase::Cleaning, CapabilityOutcome::Cleaned(end)) => (
                CapabilityPhase::Over,
                CapabilityAction::End(end),
            ),
            _ => (CapabilityPhase::Over, CapabilityAction::End(Ok(()))),
        };
        self.phase = phase;
        action
    }
}

/// A session that does not take a stored change over is disconnected, so that
/// the stored grant counts when it comes back.
pub proof fn law_unapplied_changes_disconnect(run: CapabilityRun, exchange: Exchange<()>)
    requires
        run.phase is Notifying,
    ensures
        run.turn(CapabilityOutcome::Notified(exchange)).1 is Disconnect <==> !change_applied(
            exchange,
        ),
{
}

/// When sending files is forbidden, the command does not end well before what
/// was received of them is gone.
pub proof fn law_forbidden_files_are_cleared(run: CapabilityRun, outcome: CapabilityOutcome)
    requires
        run.discards,
        capability_fits(run.phase, outcome),
        run.turn(outcome).1 is End,
    ensures
        run.phase is Cleaning,
{
}

/// What a step of the clean-up of a peer means.
#[derive(Clone, Copy, Debug)]
pub enum CleanupTurn {
    Done,
    /// Wait a moment, and look again.
    Again,
    Failed(AgentError),
}

/// Goes on with a clean-up. `state` is missing when the time is over; a failed
/// step ends the clean-up.
pub fn cleanup_turn(state: Option<Result<TransferCleanupState, ()>>) -> (turn: CleanupTurn)
    ensures
        turn == match state {
            Some(Ok(TransferCleanupState::Complete)) => CleanupTurn::Done,
            Some(Ok(TransferCleanupState::Pending)) => CleanupTurn::Again,
            _ => CleanupTurn::Failed(AgentError::TransferFailed),
        },
{
    match state {
        Some(Ok(TransferCleanupState::Complete)) => CleanupTurn::Done,
        Some(Ok(TransferCleanupState::Pending)) => CleanupTurn::Again,
        _ => CleanupTurn::Failed(AgentError::TransferFailed),
    }
}

/// A path that may be sent: some text, not too long, without a zero byte, and
/// absolute.
pub open spec fn path_form(path: Seq<char>, absolute: bool, max_path_bytes: nat) -> bool {
    &&& path.len() > 0
    &&& vstd::utf8::encode_utf8(path).len() <= max_path_bytes
    &&& !vstd::utf8::encode_utf8(path).contains(0u8)
    &&& absolute
}

pub open spec fn paths_form(
    paths: Seq<String>,
    absolute: Seq<bool>,
    max_paths: nat,
    max_path_bytes: nat,
) -> bool {
    &&& 1 <= paths.len() <= max_paths
    &&& forall|i: int|
        0 <= i < paths.len() ==> path_form(
            (#[trigger] paths[i])@,
            absolute[i],
            max_path_bytes,
        )
}

fn has_zero(bytes: &[u8]) -> (found: bool)
    ensures
        found == bytes@.contains(0u8),
{
    let mut at: usize = 0;
    while at < bytes.len()
        invariant
            at <= bytes@.len(),
            forall|i: int| 0 <= i < at ==> #[trigger] bytes@[i] != 0,
        decreases bytes@.len() - at,
    {
        if bytes[at] == 0 {
            assert(bytes@[at as int] == 0);
            return true;
        }
        at = at + 1;
    }
    false
}

/// Checks the paths that the user chose. `absolute` says of each whether it is
/// an absolute path.
pub fn validate_selected_paths(
    paths: &Vec<String>,
    absolute: &Vec<bool>,
    max_paths: usize,
    max_path_bytes: usize,
) -> (checked: Result<(), AgentError>)
    requires
        absolute@.len() == paths@.len(),
    ensures
        checked == if paths_form(paths@, absolute@, max_paths as nat, max_path_bytes as nat) {
            Ok::<(), AgentError>(())
        } else {
            Err(AgentError::TransferFailed)
        },
{
    if paths.len() == 0 || paths.len() > max_paths {
        return Err(AgentError::TransferFailed);
    }
    let mut at: usize = 0;
    while at < paths.len()
        invariant
            at <= paths@.len(),
            1 <= paths@.len() <= max_paths,
            absolute@.len() == paths@.len(),
            forall|i: int|
                0 <= i < at ==> path_form(
                    (#[trigger] paths@[i])@,
                    absolute@[i],
                    max_path_bytes as nat,
                ),
        decreases paths@.len() - at,
    {
        let path = paths[at].as_str();
        assert(path@ == paths@[at as int]@);
        if path.is_empty() || path.as_bytes().len() > max_path_bytes || has_zero(path.as_bytes())
            || !absolute[at] {
            assert(!path_form(paths@[at as int]@, absolute@[at as int], max_path_bytes as nat));
            return Err(AgentError::TransferFailed);
        }
        at = at + 1;
    }
    Ok(())
}

/// How a refused cancellation is reported.
pub fn cancel_error(error: TransferRegistryError) -> (told: AgentError)
    ensures
        told == match error {
            TransferRegistryError::InvalidId => AgentError::TransferNotFound,
            TransferRegistryError::NotFound => AgentError::TransferNotFound,
            TransferRegistryError::NotCancellable => AgentError::TransferNotCancellable,
            _ => AgentError::TransferFailed,
        },
{
    match error {
        TransferRegistryError::InvalidId => AgentError::TransferNotFound,
        TransferRegistryError::NotFound => AgentError::TransferNotFound,
        TransferRegistryError::NotCancellable => AgentError::TransferNotCancellable,
        _ => AgentError::TransferFailed,
    }
}

/// A change of a grant is told to the session, after what was received has been
/// marked where files are forbidden. A session that does not take it over is
/// disconnected. It ends once the session knows, and where files are forbidden
/// once what was received is gone, with what came of that.
pub proof fn law_grant_changes_go_in_order(
    run: CapabilityRun,
    exchange: Exchange<()>,
    cleaned: Result<(), AgentError>,
)
    ensures
        ({
            let told = if run.discards {
                (CapabilityPhase::Cleaning, CapabilityAction::WaitCleanup(run.peer))
            } else {
                (CapabilityPhase::Over, CapabilityAction::End(Ok(())))
            };
            let applied = exchange is NoSession || (exchange matches Exchange::Replied(reply)
                && reply is Ok);
            &&& run.phase is Discarding ==> run.turn(CapabilityOutcome::Done) == (
                CapabilityPhase::Notifying,
                CapabilityAction::Notify(run.command),
            )
            &&& run.phase is Notifying && applied ==> run.turn(
                CapabilityOutcome::Notified(exchange),
            ) == told
            &&& run.phase is Notifying && !applied ==> run.turn(
                CapabilityOutcome::Notified(exchange),
            ) == (CapabilityPhase::Disconnecting, CapabilityAction::Disconnect)
            &&& run.phase is Disconnecting ==> run.turn(CapabilityOutcome::Done) == told
            &&& run.phase is Cleaning ==> run.turn(CapabilityOutcome::Cleaned(cleaned)) == (
                CapabilityPhase::Over,
                CapabilityAction::End(cleaned),
            )
        }),
{
}

/// Each step waits for what its own action brings.
pub proof fn law_each_step_waits_for_its_outcome(
    phase: CapabilityPhase,
    outcome: CapabilityOutcome,
)
    ensures
        outcome is Done ==> (capability_fits(phase, outcome) <==> phase is Discarding || phase
            is Disconnecting),
        outcome is Notified ==> (capability_fits(phase, outcome) <==> phase is Notifying),
        outcome is Cleaned ==> (capability_fits(phase, outcome) <==> phase is Cleaning),
{
}

/// Paths may be sent exactly if there is one at least and not too many, and each
/// is some text of a permitted length, absolute, and without a zero byte.
pub proof fn law_sendable_paths(
    paths: Seq<String>,
    absolute: Seq<bool>,
    max_paths: nat,
    max_path_bytes: nat,
)
    ensures
        paths.len() == 0 ==> !paths_form(paths, absolute, max_paths, max_path_bytes),
        paths.len() > max_paths ==> !paths_form(paths, absolute, max_paths, max_path_bytes),
        paths_form(paths, absolute, max_paths, max_path_bytes) ==> forall|i: int|
            0 <= i < paths.len() ==> {
                &&& (#[trigger] paths[i])@.len() > 0
                &&& absolute[i]
                &&& vstd::utf8::encode_utf8(paths[i]@).len() <= max_path_bytes
                &&& !vstd::utf8::encode_utf8(paths[i]@).contains(0u8)
            },
        1 <= paths.len() <= max_paths && (forall|i: int|
            0 <= i < paths.len() ==> {
                &&& (#[trigger] paths[i])@.len() > 0
                &&& absolute[i]
                &&& vstd::utf8::encode_utf8(paths[i]@).len() <= max_path_bytes
                &&& !vstd::utf8::encode_utf8(paths[i]@).contains(0u8)
            }) ==> paths_form(paths, absolute, max_paths, max_path_bytes),
{
}

/// Taking the grant for files away discards what came in of them before the
/// session is told; every other change is told at once.
pub proof fn law_only_lost_file_grants_discard(
    change: GrantChange,
    capability: TrustedCapability,
    enabled: bool,
    started: (CapabilityRun, CapabilityAction),
)
    requires
        call_ensures(CapabilityRun::begin, (&change, capability, enabled), started),
    ensures
        (started.1 is RequireInboundDiscard) <==> capability is FileTransfer && !enabled,
        (started.1 is Notify) <==> !(started.1 is RequireInboundDiscard),
        started.1 matches CapabilityAction::RequireInboundDiscard(peer) ==> peer
            == change.peer_device,
        started.1 matches CapabilityAction::Notify(command) ==> (command matches
            LocalSessionCommand::UpdateLocalGrant { grants, epoch, enabled: switched, .. } && grants
            == change.grants && epoch == change.epoch && switched == enabled),
{
}

/// Only a cleanup that says that it is complete is done, and only one that says
/// that it is pending is asked again.
pub proof fn law_cleanups_are_waited_for(
    state: Option<Result<TransferCleanupState, ()>>,
    turn: CleanupTurn,
)
    requires
        call_ensures(cleanup_turn, (state,), turn),
    ensures
        turn is Done <==> (state matches Some(Ok(TransferCleanupState::Complete))),
        turn is Again <==> (state matches Some(Ok(TransferCleanupState::Pending))),
        turn matches CleanupTurn::Failed(error) ==> error == AgentError::TransferFailed,
{
}

/// A transfer is told as not found only where no transfer has that identity.
pub proof fn law_refused_cancellations_are_told_apart(
    error: TransferRegistryError,
    told: AgentError,
)
    requires
        call_ensures(cancel_error, (error,), told),
    ensures
        told == AgentError::TransferNotFound <==> error is InvalidId || error is NotFound,
        told == AgentError::TransferNotCancellable <==> error is NotCancellable,
        told == AgentError::TransferNotFound || told == AgentError::TransferNotCancellable || told
            == AgentError::TransferFailed,
{
}

} // verus!
