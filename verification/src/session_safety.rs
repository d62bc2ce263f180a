//! Failures of a peer session, and the latch that keeps a failed session from
//! being replaced.

use vstd::prelude::*;

verus! {

#[derive(Clone, Copy, Debug, PartialEq, Eq, Structural)]
pub enum SessionRuntimeError {
    /// The requested focus transition is not authorized or valid.
    FocusRejected,
    /// The authenticated peer sent an invalid session message.
    ProtocolViolation,
    /// Peer transport failed.
    Transport,
    /// Native platform input integration failed.
    Platform,
    /// Local input release or ownership restore failed.
    SafetyRecoveryFailed,
    /// Native display geometry changed before input injection.
    TopologyRefreshRequired,
}

/// Whether a failure to send file data means that the link is gone.
pub fn transfer_send_failure_is_link_loss(error: SessionRuntimeError) -> (lost: bool)
    ensures
        lost == (error == SessionRuntimeError::Transport),
{
    match error {
        SessionRuntimeError::Transport => true,
        _ => false,
    }
}

/// Whether local ownership of input can still be trusted. A failure is latched
/// for the rest of the process; nothing clears it.
#[derive(Clone, Copy, Debug, PartialEq, Eq, Structural)]
pub struct SessionSafetyState {
    failure: bool,
    operation: bool,
}

impl SessionSafetyState {
    /// Whether a safety failure was ever recorded.
    pub closed spec fn failed(self) -> bool {
        self.failure
    }

    /// Whether a safety operation is under way.
    pub closed spec fn operating(self) -> bool {
        self.operation
    }

    pub fn new() -> (state: SessionSafetyState)
        ensures
            !state.failed(),
            !state.operating(),
    {
        SessionSafetyState { failure: false, operation: false }
    }

    pub fn failure_latched(&self) -> (latched: bool)
        ensures
            latched == self.failed(),
    {
        self.failure
    }

    pub fn operation_active(&self) -> (active: bool)
        ensures
            active == self.operating(),
    {
        self.operation
    }

    pub fn blocks_ready(&self) -> (blocked: bool)
        ensures
            blocked == (self.failed() || self.operating()),
    {
        self.failure_latched() || self.operation_active()
    }

    pub fn set_operation_active(&mut self, active: bool)
        ensures
            final(self).operating() == active,
            final(self).failed() == old(self).failed(),
    {
        self.operation = active;
    }

    pub fn latch_failure(&mut self)
        ensures
            final(self).failed(),
            final(self).operating(),
    {
        self.failure = true;
        self.operation = true;
    }
}

/// A latched failure stays, and blocks; only a lost link is told as one.
pub proof fn law_latched_failures_block(
    state: &mut SessionSafetyState,
    other: &mut SessionSafetyState,
    active: bool,
    seen: SessionSafetyState,
    blocked: bool,
    error: SessionRuntimeError,
    lost: bool,
)
    requires
        call_ensures(SessionSafetyState::latch_failure, (state,), ()),
        call_ensures(SessionSafetyState::set_operation_active, (other, active), ()),
        call_ensures(SessionSafetyState::blocks_ready, (&seen,), blocked),
        call_ensures(transfer_send_failure_is_link_loss, (error,), lost),
    ensures
        final(state).failed() && final(state).operating(),
        final(other).failed() == old(other).failed(),
        final(other).operating() == active,
        !blocked <==> !seen.failed() && !seen.operating(),
        lost <==> error is Transport,
{
}

} // verus!
