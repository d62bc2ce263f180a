//! One exchange with the user interface: one command in, one event out, and
//! the peer authorized before and after the command is read.

use vstd::prelude::*;

verus! {

/// Why an exchange ended without success.
#[derive(Clone, Copy, Debug, PartialEq, Eq, Structural)]
pub enum IpcError {
    /// The peer is not the one that may give commands.
    PermissionDenied,
    /// The frame could not be read or written.
    Frame,
    /// More than one request came on the connection.
    SecondRequest,
    /// The peer did not close the connection in time.
    CloseTimedOut,
    /// The wait for the close failed.
    CloseFailed,
}

/// What an exchange does next.
#[derive(Clone, Copy, Debug)]
pub enum ExchangeAction {
    Authorize,
    ReadCommand,
    Dispatch,
    WriteEvent,
    /// Wait for the peer to close the connection.
    AwaitClose,
    End(Result<(), IpcError>),
}

/// How the connection ended, or that it did not.
#[derive(Clone, Copy, Debug, PartialEq, Eq, Structural)]
pub enum CloseSight {
    Closed,
    /// The connection broke off: pipe broken, reset, not connected or cut short.
    Broken,
    /// Something came.
    Data,
    TimedOut,
    OtherError,
}

/// What came of an action.
#[derive(Clone, Copy, Debug, PartialEq, Eq, Structural)]
pub enum ExchangeOutcome {
    /// Whether the peer may give commands.
    Authorized(bool),
    /// Whether a command was read.
    Read(bool),
    Dispatched,
    /// Whether the event was written.
    Written(bool),
    Close(CloseSight),
}

#[derive(Clone, Copy, Debug, PartialEq, Eq, Structural)]
pub enum ExchangePhase {
    /// The peer is authorized before anything is read.
    Opening,
    Reading,
    /// The peer is authorized again, with the command read.
    Gate,
    Dispatching,
    Writing,
    Closing,
    Over,
}

/// How the wait for the close is taken. A connection that broke off is closed.
#[verifier::allow_in_spec]
pub fn close_result(sight: CloseSight) -> Result<(), IpcError>
    returns
        (match sight {
            CloseSight::Closed => Ok::<(), IpcError>(()),
            CloseSight::Broken => Ok(()),
            CloseSight::Data => Err(IpcError::SecondRequest),
            CloseSight::TimedOut => Err(IpcError::CloseTimedOut),
            CloseSight::OtherError => Err(IpcError::CloseFailed),
        }),
{
    match sight {
        CloseSight::Closed => Ok(()),
        CloseSight::Broken => Ok(()),
        CloseSight::Data => Err(IpcError::SecondRequest),
        CloseSight::TimedOut => Err(IpcError::CloseTimedOut),
        CloseSight::OtherError => Err(IpcError::CloseFailed),
    }
}

pub open spec fn exchange_fits(phase: ExchangePhase, outcome: ExchangeOutcome) -> bool {
    match phase {
        ExchangePhase::Opening => outcome is Authorized,
        ExchangePhase::Reading => outcome is Read,
        ExchangePhase::Gate => outcome is Authorized,
        ExchangePhase::Dispatching => outcome is Dispatched,
        ExchangePhase::Writing => outcome is Written,
        ExchangePhase::Closing => outcome is Close,
        ExchangePhase::Over => false,
    }
}

/// The phase and the action that follow an outcome.
pub open spec fn exchange_turn(phase: ExchangePhase, outcome: ExchangeOutcome) -> (
    ExchangePhase,
    ExchangeAction,
) {
    match (phase, outcome) {
        (ExchangePhase::Opening, ExchangeOutcome::Authorized(true)) => (
            ExchangePhase::Reading,
            ExchangeAction::ReadCommand,
        ),
        (ExchangePhase::Reading, ExchangeOutcome::Read(true)) => (
            ExchangePhase::Gate,
            ExchangeAction::Authorize,
        ),
        (ExchangePhase::Gate, ExchangeOutcome::Authorized(true)) => (
            ExchangePhase::Dispatching,
            ExchangeAction::Dispatch,
        ),
        (ExchangePhase::Dispatching, _) => (ExchangePhase::Writing, ExchangeAction::WriteEvent),
        (ExchangePhase::Writing, ExchangeOutcome::Written(true)) => (
            ExchangePhase::Closing,
            ExchangeAction::AwaitClose,
        ),
        (ExchangePhase::Closing, ExchangeOutcome::Close(sight)) => (
            ExchangePhase::Over,
            ExchangeAction::End(close_result(sight)),
        ),
        (_, ExchangeOutcome::Authorized(_)) => (
            ExchangePhase::Over,
            ExchangeAction::End(Err(IpcError::PermissionDenied)),
        ),
        _ => (ExchangePhase::Over, ExchangeAction::End(Err(IpcError::Frame))),
    }
}

/// One exchange.
#[derive(Clone, Copy, Debug, PartialEq, Eq, Structural)]
pub struct ExchangeRun {
    pub phase: ExchangePhase,
}

impl ExchangeRun {
    /// The peer is authorized before anything is read.
    pub fn begin() -> (started: (ExchangeRun, ExchangeAction))
        ensures
            started.0.phase is Opening,
            started.1 is Authorize,
    {
        (ExchangeRun { phase: ExchangePhase::Opening }, ExchangeAction::Authorize)
    }

    /// Goes on after an action was carried out.
    pub fn advance(&mut self, outcome: ExchangeOutcome) -> (action: ExchangeAction)
        requires
            exchange_fits(old(self).phase, outcome),
        ensures
            (final(self).phase, action) == exchange_turn(old(self).phase, outcome),
    {
        let (phase, action) = match (self.phase, outcome) {
            (ExchangePhase::Opening, ExchangeOutcome::Authorized(true)) => (
                ExchangePhase::Reading,
                ExchangeAction::ReadCommand,
            ),
            (ExchangePhase::Reading, ExchangeOutcome::Read(true)) => (
                ExchangePhase::Gate,
                ExchangeAction::Authorize,
            ),
            (ExchangePhase::Gate, ExchangeOutcome::Authorized(true)) => (
                ExchangePhase::Dispatching,
                ExchangeAction::Dispatch,
            ),
            (ExchangePhase::Dispatching, _) => (
                ExchangePhase::Writing,
                ExchangeAction::WriteEvent,
            ),
            (ExchangePhase::Writing, ExchangeOutcome::Written(true)) => (
                ExchangePhase::Closing,
                ExchangeAction::AwaitClose,
            ),
            (ExchangePhase::Closing, ExchangeOutcome::Close(sight)) => (
                ExchangePhase::Over,
                ExchangeAction::End(close_result(sight)),
            ),
            (_, ExchangeOutcome::Authorized(_)) => (
                ExchangePhase::Over,
                ExchangeAction::End(Err(IpcError::PermissionDenied)),
            ),
            _ => (ExchangePhase::Over, ExchangeAction::End(Err(IpcError::Frame))),
        };
        self.phase = phase;
        action
    }
}

/// The phase and the last action of an exchange after all these outcomes.
pub open spec fn exchange_after(outcomes: Seq<ExchangeOutcome>) -> (ExchangePhase, ExchangeAction)
    decreases outcomes.len(),
{
    if outcomes.len() == 0 {
        (ExchangePhase::Opening, ExchangeAction::Authorize)
    } else {
        exchange_turn(exchange_after(outcomes.drop_last()).0, outcomes.last())
    }
}

/// How many outcomes led to a phase.
pub open spec fn exchange_rank(phase: ExchangePhase) -> int {
    match phase {
        ExchangePhase::Opening => 0,
        ExchangePhase::Reading => 1,
        ExchangePhase::Gate => 2,
        ExchangePhase::Dispatching => 3,
        ExchangePhase::Writing => 4,
        ExchangePhase::Closing => 5,
        ExchangePhase::Over => 6,
    }
}

proof fn lemma_rank(outcomes: Seq<ExchangeOutcome>)
    ensures
        exchange_after(outcomes).0 is Over || exchange_rank(exchange_after(outcomes).0)
            == outcomes.len(),
    decreases outcomes.len(),
{
    if outcomes.len() > 0 {
        lemma_rank(outcomes.drop_last());
    }
}

/// Nothing is read before the peer was authorized, and a command is dispatched
/// only when the peer was authorized, a command was read, and the peer was
/// authorized again.
pub proof fn law_commands_pass_both_gates(outcomes: Seq<ExchangeOutcome>)
    ensures
        exchange_after(outcomes).1 is ReadCommand ==> outcomes == seq![
            ExchangeOutcome::Authorized(true),
        ],
        exchange_after(outcomes).1 is Dispatch ==> outcomes == seq![
            ExchangeOutcome::Authorized(true),
            ExchangeOutcome::Read(true),
            ExchangeOutcome::Authorized(true),
        ],
{
    if outcomes.len() > 0 {
        let before = outcomes.drop_last();
        lemma_rank(before);
        if before.len() > 0 {
            let earlier = before.drop_last();
            lemma_rank(earlier);
            if earlier.len() > 0 {
                lemma_rank(earlier.drop_last());
                assert(exchange_after(outcomes).1 is Dispatch ==> earlier.drop_last().len() == 0);
            }
        }
        if exchange_after(outcomes).1 is ReadCommand {
            assert(outcomes =~= seq![ExchangeOutcome::Authorized(true)]);
        }
        if exchange_after(outcomes).1 is Dispatch {
            assert(before.len() == 2);
            assert(exchange_after(before) == exchange_turn(
                exchange_after(before.drop_last()).0,
                before.last(),
            ));
            assert(exchange_after(before.drop_last()).0 is Reading);
            assert(before.drop_last().last() == ExchangeOutcome::Authorized(true));
            assert(outcomes =~= seq![
                ExchangeOutcome::Authorized(true),
                ExchangeOutcome::Read(true),
                ExchangeOutcome::Authorized(true),
            ]);
        }
    }
}

/// No connection carries two commands: whatever happens on it, at most one is
/// read and at most one is dispatched.
pub proof fn law_one_command_per_connection(outcomes: Seq<ExchangeOutcome>, i: int, j: int)
    requires
        0 <= i <= outcomes.len(),
        0 <= j <= outcomes.len(),
    ensures
        exchange_after(outcomes.take(i)).1 is ReadCommand && exchange_after(
            outcomes.take(j),
        ).1 is ReadCommand ==> i == j,
        exchange_after(outcomes.take(i)).1 is Dispatch && exchange_after(
            outcomes.take(j),
        ).1 is Dispatch ==> i == j,
{
    law_commands_pass_both_gates(outcomes.take(i));
    law_commands_pass_both_gates(outcomes.take(j));
}

/// Whether a message of the user interface has a length that can be read.
pub fn message_size_valid(length: usize, max_length: usize) -> (valid: bool)
    ensures
        valid == (1 <= length <= max_length),
{
    length > 0 && length <= max_length
}

/// An exchange that goes well goes its steps in this order, and the answer is
/// written whatever it is.
pub proof fn law_exchanges_go_in_order(outcome: ExchangeOutcome, sight: CloseSight)
    ensures
        exchange_turn(ExchangePhase::Opening, ExchangeOutcome::Authorized(true)) == (
            ExchangePhase::Reading,
            ExchangeAction::ReadCommand,
        ),
        exchange_turn(ExchangePhase::Reading, ExchangeOutcome::Read(true)) == (
            ExchangePhase::Gate,
            ExchangeAction::Authorize,
        ),
        exchange_turn(ExchangePhase::Gate, ExchangeOutcome::Authorized(true)) == (
            ExchangePhase::Dispatching,
            ExchangeAction::Dispatch,
        ),
        exchange_turn(ExchangePhase::Dispatching, outcome) == (
            ExchangePhase::Writing,
            ExchangeAction::WriteEvent,
        ),
        exchange_turn(ExchangePhase::Writing, ExchangeOutcome::Written(true)) == (
            ExchangePhase::Closing,
            ExchangeAction::AwaitClose,
        ),
        exchange_turn(ExchangePhase::Closing, ExchangeOutcome::Close(sight)) == (
            ExchangePhase::Over,
            ExchangeAction::End(
                match sight {
                    CloseSight::Closed => Ok(()),
                    CloseSight::Broken => Ok(()),
                    CloseSight::Data => Err(IpcError::SecondRequest),
                    CloseSight::TimedOut => Err(IpcError::CloseTimedOut),
                    CloseSight::OtherError => Err(IpcError::CloseFailed),
                },
            ),
        ),
{
}

/// A peer that is not authorized ends the exchange as denied, at either gate; what
/// could not be read or written ends it as a broken frame.
pub proof fn law_exchanges_end_with_the_failure()
    ensures
        exchange_turn(ExchangePhase::Opening, ExchangeOutcome::Authorized(false)) == (
            ExchangePhase::Over,
            ExchangeAction::End(Err(IpcError::PermissionDenied)),
        ),
        exchange_turn(ExchangePhase::Gate, ExchangeOutcome::Authorized(false)) == (
            ExchangePhase::Over,
            ExchangeAction::End(Err(IpcError::PermissionDenied)),
        ),
        exchange_turn(ExchangePhase::Reading, ExchangeOutcome::Read(false)) == (
            ExchangePhase::Over,
            ExchangeAction::End(Err(IpcError::Frame)),
        ),
        exchange_turn(ExchangePhase::Writing, ExchangeOutcome::Written(false)) == (
            ExchangePhase::Over,
            ExchangeAction::End(Err(IpcError::Frame)),
        ),
{
}

/// Each phase waits for the outcome of its own action.
pub proof fn law_each_exchange_waits_for_its_outcome(
    phase: ExchangePhase,
    outcome: ExchangeOutcome,
)
    ensures
        outcome is Authorized ==> (exchange_fits(phase, outcome) <==> phase is Opening || phase
            is Gate),
        outcome is Read ==> (exchange_fits(phase, outcome) <==> phase is Reading),
        outcome is Dispatched ==> (exchange_fits(phase, outcome) <==> phase is Dispatching),
        outcome is Written ==> (exchange_fits(phase, outcome) <==> phase is Writing),
        outcome is Close ==> (exchange_fits(phase, outcome) <==> phase is Closing),
{
}

/// Neither nothing nor more than the most is a message.
pub proof fn law_messages_have_a_size(length: usize, max_length: usize, valid: bool)
    requires
        call_ensures(message_size_valid, (length, max_length), valid),
    ensures
        length == 0 ==> !valid,
        length > max_length ==> !valid,
        length > 0 && length <= max_length ==> valid,
{
}

} // verus!
