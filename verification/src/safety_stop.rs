//! Stopping everything: how an emergency, a locked screen or sleep ends the
//! session and clears what a peer left behind.

use vstd::prelude::*;
use crate::identifiers::DeviceId;
use crate::runtime::{map_session_error, reported, AgentError};
use crate::session_commands::LocalSessionCommand;
use crate::session_safety::SessionRuntimeError;

verus! {

/// Why everything stops.
#[derive(Clone, Copy, Debug, PartialEq, Eq, Structural)]
pub enum SessionStop {
    Emergency,
    Locked,
    Sleeping,
}

/// The command that tells a session why it stops.
#[verifier::allow_in_spec]
pub fn stop_command(reason: SessionStop) -> LocalSessionCommand
    returns
        (match reason {
            SessionStop::Emergency => LocalSessionCommand::EmergencyStop,
            SessionStop::Locked => LocalSessionCommand::LocalLocked,
            SessionStop::Sleeping => LocalSessionCommand::LocalSleeping,
        }),
{
    match reason {
        SessionStop::Emergency => LocalSessionCommand::EmergencyStop,
        SessionStop::Locked => LocalSessionCommand::LocalLocked,
        SessionStop::Sleeping => LocalSessionCommand::LocalSleeping,
    }
}

/// What came of a command to the session and its acknowledgement.
#[derive(Debug)]
pub enum Exchange<Answer> {
    NoSession,
    SendTimedOut,
    SendClosed,
    ReplyTimedOut,
    ReplyClosed,
    Replied(Result<Answer, SessionRuntimeError>),
}

/// Whether a session was stopped; there may be none.
pub fn session_stopped(exchange: Exchange<()>) -> (stopped: Result<bool, AgentError>)
    ensures
        stopped == match exchange {
            Exchange::NoSession => Ok::<bool, AgentError>(false),
            Exchange::Replied(Ok(())) => Ok(true),
            Exchange::Replied(Err(error)) => Err(reported(error)),
            _ => Err(AgentError::SafetyRecoveryFailed),
        },
{
    match exchange {
        Exchange::NoSession => Ok(false),
        Exchange::Replied(Ok(())) => Ok(true),
        Exchange::Replied(Err(error)) => Err(map_session_error(error)),
        _ => Err(AgentError::SafetyRecoveryFailed),
    }
}

/// Whether the session gave or took the focus as it was asked.
pub fn focus_answered(exchange: Exchange<()>) -> (answered: Result<(), AgentError>)
    ensures
        answered == match exchange {
            Exchange::Replied(Ok(())) => Ok::<(), AgentError>(()),
            Exchange::Replied(Err(error)) => Err(reported(error)),
            _ => Err(AgentError::NotConnected),
        },
{
    match exchange {
        Exchange::Replied(Ok(())) => Ok(()),
        Exchange::Replied(Err(error)) => Err(map_session_error(error)),
        _ => Err(AgentError::NotConnected),
    }
}

/// Whether files were queued, and as which transfer.
pub fn files_queued<Id>(exchange: Exchange<Id>) -> (queued: Result<Id, AgentError>)
    ensures
        queued == match exchange {
            Exchange::Replied(Ok(id)) => Ok::<Id, AgentError>(id),
            Exchange::NoSession => Err(AgentError::NotConnected),
            Exchange::SendClosed => Err(AgentError::NotConnected),
            Exchange::ReplyClosed => Err(AgentError::NotConnected),
            _ => Err(AgentError::TransferFailed),
        },
{
    match exchange {
        Exchange::Replied(Ok(id)) => Ok(id),
        Exchange::NoSession => Err(AgentError::NotConnected),
        Exchange::SendClosed => Err(AgentError::NotConnected),
        Exchange::ReplyClosed => Err(AgentError::NotConnected),
        _ => Err(AgentError::TransferFailed),
    }
}

/// What a safety stop does next.
#[derive(Clone, Copy, Debug, PartialEq, Eq, Structural)]
pub enum SafetyAction {
    /// Hand the command to the session and wait for its acknowledgement.
    StopSession(LocalSessionCommand),
    Disconnect,
    /// Wait until no pairing and no session is under way.
    WaitIdle,
    /// Mark everything that peers left behind, if no transfer works on it.
    Enroll,
    /// Wait a moment.
    Pause,
    /// Clear what one peer left behind.
    Cleanup(DeviceId),
    /// Everything was done.
    Finish,
    /// Something was not done.
    Fail,
}

/// What came of an action.
pub enum SafetyOutcome {
    Stopped(Result<bool, AgentError>),
    Done,
    /// The peers that left something behind; nothing, while a transfer works.
    Enrolled(Result<Option<Vec<DeviceId>>, AgentError>),
    Cleaned(Result<(), AgentError>),
    /// The time for the whole stop is over.
    DeadlinePassed,
}

#[derive(Clone, Copy, Debug, PartialEq, Eq, Structural)]
pub enum SafetyPhase {
    Stopping,
    Disconnecting,
    Waiting,
    Enrolling,
    Pausing,
    Cleaning,
    Ended,
}

/// One safety stop.
pub struct SafetyRun {
    pub phase: SafetyPhase,
    /// The peers that are still to be cleaned up.
    pub left: Vec<DeviceId>,
}

pub open spec fn outcome_expected(phase: SafetyPhase, outcome: SafetyOutcome) -> bool {
    outcome is DeadlinePassed || match phase {
        SafetyPhase::Stopping => outcome is Stopped,
        SafetyPhase::Disconnecting => outcome is Done,
        SafetyPhase::Waiting => outcome is Done,
        SafetyPhase::Enrolling => outcome is Enrolled,
        SafetyPhase::Pausing => outcome is Done,
        SafetyPhase::Cleaning => outcome is Cleaned,
        SafetyPhase::Ended => false,
    }
}

/// The clean-up goes on with the peers in `left`, or everything is done.
pub open spec fn cleanup_of(left: Seq<DeviceId>) -> (SafetyPhase, Seq<DeviceId>, SafetyAction) {
    if left.len() == 0 {
        (SafetyPhase::Ended, left, SafetyAction::Finish)
    } else {
        (SafetyPhase::Cleaning, left.drop_first(), SafetyAction::Cleanup(left[0]))
    }
}

pub open spec fn given_up(left: Seq<DeviceId>) -> (SafetyPhase, Seq<DeviceId>, SafetyAction) {
    (SafetyPhase::Ended, left, SafetyAction::Fail)
}

/// The phase, the peers left and the action that follow an outcome.
pub open spec fn safety_turn(phase: SafetyPhase, left: Seq<DeviceId>, outcome: SafetyOutcome) -> (
    SafetyPhase,
    Seq<DeviceId>,
    SafetyAction,
) {
    match (phase, outcome) {
        (SafetyPhase::Stopping, SafetyOutcome::Stopped(Ok(true))) => (
            SafetyPhase::Waiting,
            left,
            SafetyAction::WaitIdle,
        ),
        (SafetyPhase::Stopping, SafetyOutcome::Stopped(Ok(false))) => (
            SafetyPhase::Disconnecting,
            left,
            SafetyAction::Disconnect,
        ),
        (SafetyPhase::Disconnecting, SafetyOutcome::Done) => (
            SafetyPhase::Waiting,
            left,
            SafetyAction::WaitIdle,
        ),
        (SafetyPhase::Waiting, SafetyOutcome::Done) => (
            SafetyPhase::Enrolling,
            left,
            SafetyAction::Enroll,
        ),
        (SafetyPhase::Enrolling, SafetyOutcome::Enrolled(Ok(None))) => (
            SafetyPhase::Pausing,
            left,
            SafetyAction::Pause,
        ),
        (SafetyPhase::Pausing, SafetyOutcome::Done) => (
            SafetyPhase::Enrolling,
            left,
            SafetyAction::Enroll,
        ),
        (SafetyPhase::Enrolling, SafetyOutcome::Enrolled(Ok(Some(peers)))) => cleanup_of(peers@),
        (SafetyPhase::Cleaning, SafetyOutcome::Cleaned(Ok(()))) => cleanup_of(left),
        _ => given_up(left),
    }
}

impl SafetyRun {
    /// The stop begins with the session.
    pub fn begin(reason: SessionStop) -> (started: (SafetyRun, SafetyAction))
        ensures
            started.0.phase == SafetyPhase::Stopping,
            started.0.left@.len() == 0,
            started.1 == SafetyAction::StopSession(stop_command(reason)),
    {
        (
            SafetyRun { phase: SafetyPhase::Stopping, left: Vec::new() },
            SafetyAction::StopSession(stop_command(reason)),
        )
    }

    fn cleanup(&mut self) -> (action: SafetyAction)
        ensures
            (final(self).phase, final(self).left@, action) == cleanup_of(old(self).left@),
    {
        if self.left.len() == 0 {
            self.phase = SafetyPhase::Ended;
            return SafetyAction::Finish;
        }
        let peer = self.left.remove(0);
        assert(self.left@ =~= old(self).left@.drop_first());
        self.phase = SafetyPhase::Cleaning;
        SafetyAction::Cleanup(peer)
    }

    fn go(&mut self, phase: SafetyPhase, action: SafetyAction) -> (taken: SafetyAction)
        ensures
            final(self).phase == phase,
            final(self).left == old(self).left,
            taken == action,
    {
        self.phase = phase;
        action
    }

    /// Goes on after an action was carried out, or when the time is over.
    pub fn advance(&mut self, outcome: SafetyOutcome) -> (action: SafetyAction)
        requires
            outcome_expected(old(self).phase, outcome),
        ensures
            (final(self).phase, final(self).left@, action) == safety_turn(
                old(self).phase,
                old(self).left@,
                outcome,
            ),
    {
        match (self.phase, outcome) {
            (SafetyPhase::Stopping, SafetyOutcome::Stopped(Ok(true))) => self.go(
                SafetyPhase::Waiting,
                SafetyAction::WaitIdle,
            ),
            (SafetyPhase::Stopping, SafetyOutcome::Stopped(Ok(false))) => self.go(
                SafetyPhase::Disconnecting,
                SafetyAction::Disconnect,
            ),
            (SafetyPhase::Disconnecting, SafetyOutcome::Done) => self.go(
                SafetyPhase::Waiting,
                SafetyAction::WaitIdle,
            ),
            (SafetyPhase::Waiting, SafetyOutcome::Done) => self.go(
                SafetyPhase::Enrolling,
                SafetyAction::Enroll,
            ),
            (SafetyPhase::Enrolling, SafetyOutcome::Enrolled(Ok(None))) => self.go(
                SafetyPhase::Pausing,
                SafetyAction::Pause,
            ),
            (SafetyPhase::Pausing, SafetyOutcome::Done) => self.go(
                SafetyPhase::Enrolling,
                SafetyAction::Enroll,
            ),
            (SafetyPhase::Enrolling, SafetyOutcome::Enrolled(Ok(Some(peers)))) => {
                self.left = peers;
                self.cleanup()
            },
            (SafetyPhase::Cleaning, SafetyOutcome::Cleaned(Ok(()))) => self.cleanup(),
            _ => self.go(SafetyPhase::Ended, SafetyAction::Fail),
        }
    }
}

/// The phase, the peers left and the last action of a stop after all these
/// outcomes.
pub open spec fn safety_after(reason: SessionStop, outcomes: Seq<SafetyOutcome>) -> (
    SafetyPhase,
    Seq<DeviceId>,
    SafetyAction,
)
    decreases outcomes.len(),
{
    if outcomes.len() == 0 {
        (SafetyPhase::Stopping, seq![], SafetyAction::StopSession(stop_command(reason)))
    } else {
        let before = safety_after(reason, outcomes.drop_last());
        safety_turn(before.0, before.1, outcomes.last())
    }
}

/// The peers that the outcome at `at` enrolled.
pub open spec fn enrolled_at(outcomes: Seq<SafetyOutcome>, at: int) -> Option<Seq<DeviceId>> {
    match outcomes[at] {
        SafetyOutcome::Enrolled(Ok(Some(peers))) => Some(peers@),
        _ => None,
    }
}

/// Peers were enrolled by the outcome at `at`, and everything since then was a
/// clean-up that succeeded.
pub open spec fn cleaned_since(outcomes: Seq<SafetyOutcome>, at: int) -> bool {
    &&& 0 <= at < outcomes.len()
    &&& enrolled_at(outcomes, at) is Some
    &&& forall|i: int|
        at < i < outcomes.len() ==> (#[trigger] outcomes[i]) is Cleaned
            && outcomes[i]->Cleaned_0 is Ok
}

proof fn lemma_cleaning(reason: SessionStop, outcomes: Seq<SafetyOutcome>)
    ensures
        safety_after(reason, outcomes).2 is Finish ==> exists|at: int| #[trigger]
            cleaned_since(outcomes, at) && outcomes.len() == at + 1 + enrolled_at(
                outcomes,
                at,
            )->Some_0.len(),
        safety_after(reason, outcomes).0 is Cleaning ==> exists|at: int| #[trigger]
            cleaned_since(outcomes, at) && outcomes.len() <= at + enrolled_at(
                outcomes,
                at,
            )->Some_0.len() && safety_after(reason, outcomes).1 == enrolled_at(
                outcomes,
                at,
            )->Some_0.skip(outcomes.len() - at),
    decreases outcomes.len(),
{
    if outcomes.len() > 0 {
        let before = outcomes.drop_last();
        let last = outcomes.len() - 1;
        lemma_cleaning(reason, before);
        let state = safety_after(reason, before);
        assert(outcomes.last() == outcomes[last]);
        if enrolled_at(outcomes, last) is Some && state.0 is Enrolling {
            let peers = enrolled_at(outcomes, last)->Some_0;
            assert(cleaned_since(outcomes, last));
            assert(peers.drop_first() =~= peers.skip(1));
        } else if state.0 is Cleaning {
            let at = choose|at: int| #[trigger]
                cleaned_since(before, at) && before.len() <= at + enrolled_at(
                    before,
                    at,
                )->Some_0.len() && state.1 == enrolled_at(before, at)->Some_0.skip(
                    before.len() - at,
                );
            assert(enrolled_at(outcomes, at) == enrolled_at(before, at));
            if outcomes.last() is Cleaned && outcomes.last()->Cleaned_0 is Ok {
                assert forall|i: int| at < i < outcomes.len() implies (
                #[trigger] outcomes[i]) is Cleaned && outcomes[i]->Cleaned_0 is Ok by {
                    if i < last {
                        assert(outcomes[i] == before[i]);
                    }
                }
                assert(cleaned_since(outcomes, at));
                let peers = enrolled_at(before, at)->Some_0;
                if state.1.len() > 0 {
                    assert(state.1.drop_first() =~= peers.skip(outcomes.len() - at));
                }
            }
        }
    }
}

/// A stop succeeds only after every peer that was enrolled is cleaned up: the
/// enrolment is followed by as many clean-ups as it named peers, each of them a
/// success, and by nothing else.
pub proof fn law_stops_end_after_cleanup(reason: SessionStop, outcomes: Seq<SafetyOutcome>)
    requires
        safety_after(reason, outcomes).2 is Finish,
    ensures
        exists|at: int| #[trigger]
            cleaned_since(outcomes, at) && outcomes.len() == at + 1 + enrolled_at(
                outcomes,
                at,
            )->Some_0.len(),
{
    lemma_cleaning(reason, outcomes);
}

/// The time limit ends a stop in every phase, and as a failure.
pub proof fn law_deadline_fails_every_stop(phase: SafetyPhase, left: Seq<DeviceId>)
    ensures
        safety_turn(phase, left, SafetyOutcome::DeadlinePassed) == given_up(left),
{
}

/// Enrolled peers are cleaned up one after the other, each once and in their
/// order; only then the stop succeeds.
pub proof fn law_every_peer_is_cleaned_up(
    reason: SessionStop,
    outcomes: Seq<SafetyOutcome>,
    peers: Vec<DeviceId>,
    done: nat,
)
    requires
        safety_after(reason, outcomes).0 is Enrolling,
        done <= peers@.len(),
    ensures
        ({
            let enrolled = outcomes.push(SafetyOutcome::Enrolled(Ok(Some(peers))));
            let cleaned = Seq::new(done, |i: int| SafetyOutcome::Cleaned(Ok(())));
            let after = safety_after(reason, enrolled + cleaned);
            if done < peers@.len() {
                &&& after.0 is Cleaning
                &&& after.1 == peers@.skip(done as int + 1)
                &&& after.2 == SafetyAction::Cleanup(peers@[done as int])
            } else {
                after.2 == SafetyAction::Finish
            }
        }),
    decreases done,
{
    let enrolled = outcomes.push(SafetyOutcome::Enrolled(Ok(Some(peers))));
    let cleaned = Seq::new(done, |i: int| SafetyOutcome::Cleaned(Ok(())));
    let all = enrolled + cleaned;
    if done == 0 {
        assert(all =~= enrolled);
        assert(enrolled.drop_last() =~= outcomes);
        assert(peers@.len() > 0 ==> peers@.drop_first() =~= peers@.skip(1));
    } else {
        let less = (done - 1) as nat;
        law_every_peer_is_cleaned_up(reason, outcomes, peers, less);
        let before = enrolled + Seq::new(less, |i: int| SafetyOutcome::Cleaned(Ok(())));
        assert(all.drop_last() =~= before);
        assert(all.last() == SafetyOutcome::Cleaned(Ok(())));
        if done < peers@.len() {
            assert(peers@.skip(done as int).drop_first() =~= peers@.skip(done as int + 1));
        }
    }
}

/// A stop goes in order while everything succeeds: the session stops, or all are
/// disconnected where there was none; everything comes to rest; what peers left
/// behind is marked, again after a pause while a transfer works on it.
pub proof fn law_stops_go_in_order(left: Seq<DeviceId>, stopped: bool)
    ensures
        safety_turn(SafetyPhase::Stopping, left, SafetyOutcome::Stopped(Ok(stopped))) == if stopped {
            (SafetyPhase::Waiting, left, SafetyAction::WaitIdle)
        } else {
            (SafetyPhase::Disconnecting, left, SafetyAction::Disconnect)
        },
        safety_turn(SafetyPhase::Disconnecting, left, SafetyOutcome::Done) == (
            SafetyPhase::Waiting,
            left,
            SafetyAction::WaitIdle,
        ),
        safety_turn(SafetyPhase::Waiting, left, SafetyOutcome::Done) == (
            SafetyPhase::Enrolling,
            left,
            SafetyAction::Enroll,
        ),
        safety_turn(SafetyPhase::Enrolling, left, SafetyOutcome::Enrolled(Ok(None))) == (
            SafetyPhase::Pausing,
            left,
            SafetyAction::Pause,
        ),
        safety_turn(SafetyPhase::Pausing, left, SafetyOutcome::Done) == (
            SafetyPhase::Enrolling,
            left,
            SafetyAction::Enroll,
        ),
{
}

/// A failure in any phase ends the stop as a failure, and keeps who is left.
pub proof fn law_any_failure_fails_the_stop(
    phase: SafetyPhase,
    left: Seq<DeviceId>,
    outcome: SafetyOutcome,
)
    ensures
        ({
            let turn = safety_turn(phase, left, outcome);
            let fails = {
                ||| outcome is DeadlinePassed
                ||| outcome matches SafetyOutcome::Stopped(Err(_))
                ||| outcome matches SafetyOutcome::Enrolled(Err(_))
                ||| outcome matches SafetyOutcome::Cleaned(Err(_))
            };
            &&& fails ==> turn.0 is Ended && turn.2 is Fail && turn.1 == left
            &&& turn.2 is Fail ==> turn.0 is Ended
            &&& turn.2 is Fail && outcome_expected(phase, outcome) ==> fails
        }),
{
}

/// Each phase waits for the outcome of its own action, or for the time to be
/// over; after the end nothing is waited for.
pub proof fn law_each_phase_waits_for_its_outcome(phase: SafetyPhase, outcome: SafetyOutcome)
    ensures
        outcome is DeadlinePassed ==> outcome_expected(phase, outcome),
        outcome is Stopped ==> (outcome_expected(phase, outcome) <==> phase is Stopping),
        outcome is Done ==> (outcome_expected(phase, outcome) <==> phase is Disconnecting || phase
            is Waiting || phase is Pausing),
        outcome is Enrolled ==> (outcome_expected(phase, outcome) <==> phase is Enrolling),
        outcome is Cleaned ==> (outcome_expected(phase, outcome) <==> phase is Cleaning),
{
}

/// Where there is no session nothing was stopped, and that is no failure; a
/// session that does not answer counts as not stopped safely.
pub proof fn law_stops_are_confirmed(exchange: Exchange<()>, stopped: Result<bool, AgentError>)
    requires
        call_ensures(session_stopped, (exchange,), stopped),
    ensures
        stopped == Ok::<bool, AgentError>(false) <==> exchange is NoSession,
        stopped == Ok::<bool, AgentError>(true) <==> (exchange matches Exchange::Replied(Ok(_))),
        !(exchange is NoSession) && !(exchange is Replied) ==> stopped == Err::<bool, AgentError>(
            AgentError::SafetyRecoveryFailed,
        ),
{
}

/// Focus is answered only by a session that agreed to it, and one that gives
/// no reply is not connected.
pub proof fn law_focus_is_answered_by_the_session(
    exchange: Exchange<()>,
    answered: Result<(), AgentError>,
)
    requires
        call_ensures(focus_answered, (exchange,), answered),
    ensures
        answered is Ok <==> (exchange matches Exchange::Replied(Ok(_))),
        !(exchange is Replied) ==> answered == Err::<(), AgentError>(AgentError::NotConnected),
{
}

/// Files are queued under the identity that the session gave; where no session
/// took them the device is not connected, and all else is a failed transfer.
pub proof fn law_queued_files_keep_their_identity<Id>(
    exchange: Exchange<Id>,
    queued: Result<Id, AgentError>,
)
    requires
        call_ensures(files_queued::<Id>, (exchange,), queued),
    ensures
        queued matches Ok(id) ==> (exchange matches Exchange::Replied(Ok(given)) && given == id),
        (exchange matches Exchange::Replied(Ok(_))) ==> queued is Ok,
        queued == Err::<Id, AgentError>(AgentError::NotConnected) <==> exchange is NoSession
            || exchange is SendClosed || exchange is ReplyClosed,
        queued is Err && queued->Err_0 != AgentError::NotConnected ==> queued->Err_0
            == AgentError::TransferFailed,
{
}

} // verus!
