//! The two-party pairing after its preparation: confirmation by both users,
//! acceptance by both devices, and the commit of trust.

use vstd::prelude::*;
use crate::agent_core::PairingOutcome;
use crate::grants::Capability;
use crate::identifiers::DeviceId;
use crate::peer_records::{PeerRecord, PeerRecordModel};
use crate::routes::PeerPlacement;
use crate::runtime::{map_session_error, reported, AgentError};
use crate::session_model::SessionConfig;
use crate::session_safety::SessionRuntimeError;
use crate::session_wire::SessionRole;

verus! {

/// Which side of the pairing a device is.
#[derive(Clone, Copy, Debug, PartialEq, Eq, Structural)]
pub enum PairingRole {
    Initiator,
    Responder,
}

/// The other side.
#[verifier::allow_in_spec]
pub fn peer_role(role: PairingRole) -> PairingRole
    returns
        (match role {
            PairingRole::Initiator => PairingRole::Responder,
            PairingRole::Responder => PairingRole::Initiator,
        }),
{
    match role {
        PairingRole::Initiator => PairingRole::Responder,
        PairingRole::Responder => PairingRole::Initiator,
    }
}

/// The part that a side has in the session that follows.
#[verifier::allow_in_spec]
pub fn session_role(role: PairingRole) -> SessionRole
    returns
        (match role {
            PairingRole::Initiator => SessionRole::Opener,
            PairingRole::Responder => SessionRole::Acceptor,
        }),
{
    match role {
        PairingRole::Initiator => SessionRole::Opener,
        PairingRole::Responder => SessionRole::Acceptor,
    }
}

/// A message of the pairing protocol. The acceptance itself travels beside it.
#[derive(Clone, Copy, Debug, PartialEq, Eq, Structural)]
pub enum PairingMessage {
    Hello,
    Confirmation(bool),
    /// The role that the acceptance was made for.
    Acceptance(PairingRole),
    ReadyToCommit,
    Committed,
}

/// The first message has to be a hello.
pub fn expect_hello(message: PairingMessage) -> (expected: Result<(), AgentError>)
    ensures
        expected == if message is Hello {
            Ok::<(), AgentError>(())
        } else {
            Err(AgentError::PairingFailed)
        },
{
    match message {
        PairingMessage::Hello => Ok(()),
        _ => Err(AgentError::PairingFailed),
    }
}

/// A step of the pairing transaction.
#[derive(Clone, Copy, Debug, PartialEq, Eq, Structural)]
pub enum TransactionStep {
    Abort,
    /// The short code was confirmed by the side in this role.
    ConfirmSas(PairingRole),
    /// Make the acceptance of this side, and submit it.
    SubmitOwnAcceptance,
    SubmitPeerAcceptance,
    /// Commit the trust, at the present time.
    Commit,
}

/// What the pairing does next.
#[derive(Clone, Copy, Debug)]
pub enum PairingAction {
    /// Wait for the user, or for an order to disconnect.
    AwaitConfirmation,
    Reduce(TransactionStep),
    Send(PairingMessage),
    /// Wait for the peer, or for an order to disconnect.
    Receive,
    /// Compare the committed trust with the peer that was met.
    CheckBinding,
    PersistPeer,
    PublishConnected,
    /// Tell the user how the pairing ended.
    Publish(PairingOutcome),
    RunSession,
    /// Close the connection in order.
    ClosePairing,
    CloseEmergency,
    /// The pairing is over.
    End(Result<(), AgentError>),
}

/// What came of an action.
#[derive(Clone, Copy, Debug)]
pub enum PairingEvent {
    Confirmed(bool),
    ConfirmationTimedOut,
    ConfirmationDropped,
    Received(PairingMessage),
    ReceiveFailed,
    /// An order to disconnect came.
    Disconnected,
    /// Nobody can order to disconnect any more.
    DisconnectLost,
    Reduced(Result<(), AgentError>),
    Sent(Result<(), AgentError>),
    Checked(bool),
    Persisted(Result<(), AgentError>),
    Published(Result<(), AgentError>),
    SessionEnded(Result<(), SessionRuntimeError>),
    Done,
}

#[derive(Clone, Copy, Debug)]
pub enum PairingPhase {
    Confirming,
    /// The user refused.
    Aborting,
    SendingRefusal,
    /// The user agreed.
    ConfirmingOwn,
    SendingConfirmation,
    ReceivingConfirmation,
    /// The peer refused.
    AbortingForPeer,
    ConfirmingPeer,
    Accepting,
    SendingAcceptance,
    ReceivingAcceptance,
    SubmittingPeer,
    SendingReady,
    ReceivingReady,
    Committing,
    Checking,
    Persisting,
    SendingCommitted,
    ReceivingCommitted,
    Publishing,
    Finishing,
    InSession,
    /// The connection is closed in order; then the user is told of the refusal.
    ClosingRefused,
    TellingRefusal,
    /// The connection is closed at once; then this is the result.
    ClosingAtOnce { end: Result<(), AgentError> },
    Over,
}

/// One pairing, from the side in `role`.
#[derive(Clone, Copy, Debug)]
pub struct PairingRun {
    pub role: PairingRole,
    pub phase: PairingPhase,
}

/// The event belongs to what the phase waits for.
pub open spec fn event_fits(phase: PairingPhase, event: PairingEvent) -> bool {
    match phase {
        PairingPhase::Confirming => event is Confirmed || event is ConfirmationTimedOut
            || event is ConfirmationDropped || event is Disconnected || event is DisconnectLost,
        PairingPhase::Aborting => event is Reduced,
        PairingPhase::AbortingForPeer => event is Reduced,
        PairingPhase::ConfirmingOwn => event is Reduced,
        PairingPhase::ConfirmingPeer => event is Reduced,
        PairingPhase::Accepting => event is Reduced,
        PairingPhase::SubmittingPeer => event is Reduced,
        PairingPhase::Committing => event is Reduced,
        PairingPhase::SendingRefusal => event is Sent,
        PairingPhase::SendingConfirmation => event is Sent,
        PairingPhase::SendingAcceptance => event is Sent,
        PairingPhase::SendingReady => event is Sent,
        PairingPhase::SendingCommitted => event is Sent,
        PairingPhase::ReceivingConfirmation => receive_event(event),
        PairingPhase::ReceivingAcceptance => receive_event(event),
        PairingPhase::ReceivingReady => receive_event(event),
        PairingPhase::ReceivingCommitted => receive_event(event),
        PairingPhase::Checking => event is Checked,
        PairingPhase::Persisting => event is Persisted,
        PairingPhase::Publishing => event is Published,
        PairingPhase::Finishing => event is Done,
        PairingPhase::InSession => event is SessionEnded,
        PairingPhase::ClosingRefused => event is Done,
        PairingPhase::TellingRefusal => event is Done,
        PairingPhase::ClosingAtOnce { .. } => event is Done,
        PairingPhase::Over => false,
    }
}

pub open spec fn receive_event(event: PairingEvent) -> bool {
    event is Received || event is ReceiveFailed || event is Disconnected || event is DisconnectLost
}

pub open spec fn ended(end: Result<(), AgentError>) -> (PairingPhase, PairingAction) {
    (PairingPhase::Over, PairingAction::End(end))
}

/// An order to disconnect closes the connection at once; that is no failure.
pub open spec fn closed_at_once(end: Result<(), AgentError>) -> (PairingPhase, PairingAction) {
    (PairingPhase::ClosingAtOnce { end }, PairingAction::CloseEmergency)
}

pub open spec fn failed() -> (PairingPhase, PairingAction) {
    ended(Err(AgentError::PairingFailed))
}

/// What follows when the peer was listened to: `next` on the message that is
/// due, and the end on anything else.
pub open spec fn heard(
    event: PairingEvent,
    due: PairingMessage,
    next: (PairingPhase, PairingAction),
) -> (PairingPhase, PairingAction) {
    match event {
        PairingEvent::Received(message) => if message == due {
            next
        } else {
            failed()
        },
        PairingEvent::Disconnected => closed_at_once(Ok(())),
        _ => failed(),
    }
}

/// `next` after a success, and the end with its error after a failure.
pub open spec fn after_success(
    done: Result<(), AgentError>,
    next: (PairingPhase, PairingAction),
) -> (PairingPhase, PairingAction) {
    match done {
        Ok(()) => next,
        Err(error) => ended(Err(error)),
    }
}

/// The phase and the action that follow an event.
pub open spec fn pairing_turn(role: PairingRole, phase: PairingPhase, event: PairingEvent) -> (
    PairingPhase,
    PairingAction,
) {
    match (phase, event) {
        (PairingPhase::Confirming, PairingEvent::Confirmed(true)) => (
            PairingPhase::ConfirmingOwn,
            PairingAction::Reduce(TransactionStep::ConfirmSas(role)),
        ),
        (PairingPhase::Confirming, PairingEvent::Confirmed(false)) => (
            PairingPhase::Aborting,
            PairingAction::Reduce(TransactionStep::Abort),
        ),
        (PairingPhase::Confirming, PairingEvent::ConfirmationTimedOut) => ended(
            Err(AgentError::PairingTimedOut),
        ),
        (PairingPhase::Confirming, PairingEvent::Disconnected) => closed_at_once(Ok(())),
        (PairingPhase::Aborting, _) => (
            PairingPhase::SendingRefusal,
            PairingAction::Send(PairingMessage::Confirmation(false)),
        ),
        (PairingPhase::SendingRefusal, PairingEvent::Sent(done)) => after_success(
            done,
            (PairingPhase::ClosingRefused, PairingAction::ClosePairing),
        ),
        (PairingPhase::ClosingRefused, _) => (
            PairingPhase::TellingRefusal,
            PairingAction::Publish(PairingOutcome::Finished(false)),
        ),
        (PairingPhase::TellingRefusal, _) => ended(Ok(())),
        (PairingPhase::ConfirmingOwn, PairingEvent::Reduced(done)) => after_success(
            done,
            (
                PairingPhase::SendingConfirmation,
                PairingAction::Send(PairingMessage::Confirmation(true)),
            ),
        ),
        (PairingPhase::SendingConfirmation, PairingEvent::Sent(done)) => after_success(
            done,
            (PairingPhase::ReceivingConfirmation, PairingAction::Receive),
        ),
        (
            PairingPhase::ReceivingConfirmation,
            PairingEvent::Received(PairingMessage::Confirmation(false)),
        ) => (PairingPhase::AbortingForPeer, PairingAction::Reduce(TransactionStep::Abort)),
        (PairingPhase::ReceivingConfirmation, event) => heard(
            event,
            PairingMessage::Confirmation(true),
            (
                PairingPhase::ConfirmingPeer,
                PairingAction::Reduce(TransactionStep::ConfirmSas(peer_role(role))),
            ),
        ),
        (PairingPhase::AbortingForPeer, _) => (
            PairingPhase::ClosingRefused,
            PairingAction::ClosePairing,
        ),
        (PairingPhase::ConfirmingPeer, PairingEvent::Reduced(done)) => after_success(
            done,
            (PairingPhase::Accepting, PairingAction::Reduce(TransactionStep::SubmitOwnAcceptance)),
        ),
        (PairingPhase::Accepting, PairingEvent::Reduced(done)) => after_success(
            done,
            (
                PairingPhase::SendingAcceptance,
                PairingAction::Send(PairingMessage::Acceptance(role)),
            ),
        ),
        (PairingPhase::SendingAcceptance, PairingEvent::Sent(done)) => after_success(
            done,
            (PairingPhase::ReceivingAcceptance, PairingAction::Receive),
        ),
        (PairingPhase::ReceivingAcceptance, event) => heard(
            event,
            PairingMessage::Acceptance(peer_role(role)),
            (
                PairingPhase::SubmittingPeer,
                PairingAction::Reduce(TransactionStep::SubmitPeerAcceptance),
            ),
        ),
        (PairingPhase::SubmittingPeer, PairingEvent::Reduced(done)) => after_success(
            done,
            (PairingPhase::SendingReady, PairingAction::Send(PairingMessage::ReadyToCommit)),
        ),
        (PairingPhase::SendingReady, PairingEvent::Sent(done)) => after_success(
            done,
            (PairingPhase::ReceivingReady, PairingAction::Receive),
        ),
        (PairingPhase::ReceivingReady, event) => heard(
            event,
            PairingMessage::ReadyToCommit,
            (PairingPhase::Committing, PairingAction::Reduce(TransactionStep::Commit)),
        ),
        (PairingPhase::Committing, PairingEvent::Reduced(done)) => after_success(
            done,
            (PairingPhase::Checking, PairingAction::CheckBinding),
        ),
        (PairingPhase::Checking, PairingEvent::Checked(true)) => (
            PairingPhase::Persisting,
            PairingAction::PersistPeer,
        ),
        (PairingPhase::Persisting, PairingEvent::Persisted(done)) => after_success(
            done,
            (PairingPhase::SendingCommitted, PairingAction::Send(PairingMessage::Committed)),
        ),
        (PairingPhase::SendingCommitted, PairingEvent::Sent(done)) => after_success(
            done,
            (PairingPhase::ReceivingCommitted, PairingAction::Receive),
        ),
        (PairingPhase::ReceivingCommitted, event) => heard(
            event,
            PairingMessage::Committed,
            (PairingPhase::Publishing, PairingAction::PublishConnected),
        ),
        (PairingPhase::Publishing, PairingEvent::Published(Ok(()))) => (
            PairingPhase::Finishing,
            PairingAction::Publish(PairingOutcome::Finished(true)),
        ),
        (PairingPhase::Publishing, PairingEvent::Published(Err(error))) => closed_at_once(
            Err(error),
        ),
        (PairingPhase::Finishing, _) => (PairingPhase::InSession, PairingAction::RunSession),
        (PairingPhase::InSession, PairingEvent::SessionEnded(Ok(()))) => ended(Ok(())),
        (PairingPhase::InSession, PairingEvent::SessionEnded(Err(error))) => ended(
            Err(reported(error)),
        ),
        (PairingPhase::ClosingAtOnce { end }, _) => ended(end),
        _ => failed(),
    }
}

fn over(end: Result<(), AgentError>) -> (next: (PairingPhase, PairingAction))
    ensures
        next == ended(end),
{
    (PairingPhase::Over, PairingAction::End(end))
}

fn close_now(end: Result<(), AgentError>) -> (next: (PairingPhase, PairingAction))
    ensures
        next == closed_at_once(end),
{
    (PairingPhase::ClosingAtOnce { end }, PairingAction::CloseEmergency)
}

fn next_after(done: Result<(), AgentError>, phase: PairingPhase, action: PairingAction) -> (next: (
    PairingPhase,
    PairingAction,
))
    ensures
        next == after_success(done, (phase, action)),
{
    match done {
        Ok(()) => (phase, action),
        Err(error) => over(Err(error)),
    }
}

fn next_heard(
    event: PairingEvent,
    due: PairingMessage,
    phase: PairingPhase,
    action: PairingAction,
) -> (next: (PairingPhase, PairingAction))
    ensures
        next == heard(event, due, (phase, action)),
{
    match event {
        PairingEvent::Received(message) => if message == due {
            (phase, action)
        } else {
            over(Err(AgentError::PairingFailed))
        },
        PairingEvent::Disconnected => close_now(Ok(())),
        _ => over(Err(AgentError::PairingFailed)),
    }
}

impl PairingRun {
    /// A prepared pairing waits for the user.
    pub fn begin(role: PairingRole) -> (started: (PairingRun, PairingAction))
        ensures
            started.0.role == role,
            started.0.phase is Confirming,
            started.1 is AwaitConfirmation,
    {
        (PairingRun { role, phase: PairingPhase::Confirming }, PairingAction::AwaitConfirmation)
    }

    /// Goes on after an action was carried out.
    pub fn advance(&mut self, event: PairingEvent) -> (action: PairingAction)
        requires
            event_fits(old(self).phase, event),
        ensures
            (final(self).phase, action) == pairing_turn(old(self).role, old(self).phase, event),
            final(self).role == old(self).role,
    {
        let (phase, action) = match (self.phase, event) {
            (PairingPhase::Confirming, PairingEvent::Confirmed(true)) => (
                PairingPhase::ConfirmingOwn,
                PairingAction::Reduce(TransactionStep::ConfirmSas(self.role)),
            ),
            (PairingPhase::Confirming, PairingEvent::Confirmed(false)) => (
                PairingPhase::Aborting,
                PairingAction::Reduce(TransactionStep::Abort),
            ),
            (PairingPhase::Confirming, PairingEvent::ConfirmationTimedOut) => over(
                Err(AgentError::PairingTimedOut),
            ),
            (PairingPhase::Confirming, PairingEvent::Disconnected) => close_now(Ok(())),
            (PairingPhase::Aborting, _) => (
                PairingPhase::SendingRefusal,
                PairingAction::Send(PairingMessage::Confirmation(false)),
            ),
            (PairingPhase::SendingRefusal, PairingEvent::Sent(done)) => next_after(
                done,
                PairingPhase::ClosingRefused,
                PairingAction::ClosePairing,
            ),
            (PairingPhase::ClosingRefused, _) => (
                PairingPhase::TellingRefusal,
                PairingAction::Publish(PairingOutcome::Finished(false)),
            ),
            (PairingPhase::TellingRefusal, _) => over(Ok(())),
            (PairingPhase::ConfirmingOwn, PairingEvent::Reduced(done)) => next_after(
                done,
                PairingPhase::SendingConfirmation,
                PairingAction::Send(PairingMessage::Confirmation(true)),
            ),
            (PairingPhase::SendingConfirmation, PairingEvent::Sent(done)) => next_after(
                done,
                PairingPhase::ReceivingConfirmation,
                PairingAction::Receive,
            ),
            (
                PairingPhase::ReceivingConfirmation,
                PairingEvent::Received(PairingMessage::Confirmation(false)),
            ) => (PairingPhase::AbortingForPeer, PairingAction::Reduce(TransactionStep::Abort)),
            (PairingPhase::ReceivingConfirmation, event) => next_heard(
                event,
                PairingMessage::Confirmation(true),
                PairingPhase::ConfirmingPeer,
                PairingAction::Reduce(TransactionStep::ConfirmSas(peer_role(self.role))),
            ),
            (PairingPhase::AbortingForPeer, _) => (
                PairingPhase::ClosingRefused,
                PairingAction::ClosePairing,
            ),
            (PairingPhase::ConfirmingPeer, PairingEvent::Reduced(done)) => next_after(
                done,
                PairingPhase::Accepting,
                PairingAction::Reduce(TransactionStep::SubmitOwnAcceptance),
            ),
            (PairingPhase::Accepting, PairingEvent::Reduced(done)) => next_after(
                done,
                PairingPhase::SendingAcceptance,
                PairingAction::Send(PairingMessage::Acceptance(self.role)),
            ),
            (PairingPhase::SendingAcceptance, PairingEvent::Sent(done)) => next_after(
                done,
                PairingPhase::ReceivingAcceptance,
                PairingAction::Receive,
            ),
            (PairingPhase::ReceivingAcceptance, event) => next_heard(
                event,
                PairingMessage::Acceptance(peer_role(self.role)),
                PairingPhase::SubmittingPeer,
                PairingAction::Reduce(TransactionStep::SubmitPeerAcceptance),
            ),
            (PairingPhase::SubmittingPeer, PairingEvent::Reduced(done)) => next_after(
                done,
                PairingPhase::SendingReady,
                PairingAction::Send(PairingMessage::ReadyToCommit),
            ),
            (PairingPhase::SendingReady, PairingEvent::Sent(done)) => next_after(
                done,
                PairingPhase::ReceivingReady,
                PairingAction::Receive,
            ),
            (PairingPhase::ReceivingReady, event) => next_heard(
                event,
                PairingMessage::ReadyToCommit,
                PairingPhase::Committing,
                PairingAction::Reduce(TransactionStep::Commit),
            ),
            (PairingPhase::Committing, PairingEvent::Reduced(done)) => next_after(
                done,
                PairingPhase::Checking,
                PairingAction::CheckBinding,
            ),
            (PairingPhase::Checking, PairingEvent::Checked(true)) => (
                PairingPhase::Persisting,
                PairingAction::PersistPeer,
            ),
            (PairingPhase::Persisting, PairingEvent::Persisted(done)) => next_after(
                done,
                PairingPhase::SendingCommitted,
                PairingAction::Send(PairingMessage::Committed),
            ),
            (PairingPhase::SendingCommitted, PairingEvent::Sent(done)) => next_after(
                done,
                PairingPhase::ReceivingCommitted,
                PairingAction::Receive,
            ),
            (PairingPhase::ReceivingCommitted, event) => next_heard(
                event,
                PairingMessage::Committed,
                PairingPhase::Publishing,
                PairingAction::PublishConnected,
            ),
            (PairingPhase::Publishing, PairingEvent::Published(Ok(()))) => (
                PairingPhase::Finishing,
                PairingAction::Publish(PairingOutcome::Finished(true)),
            ),
            (PairingPhase::Publishing, PairingEvent::Published(Err(error))) => close_now(
                Err(error),
            ),
            (PairingPhase::Finishing, _) => (PairingPhase::InSession, PairingAction::RunSession),
            (PairingPhase::InSession, PairingEvent::SessionEnded(Ok(()))) => over(Ok(())),
            (PairingPhase::InSession, PairingEvent::SessionEnded(Err(error))) => over(
                Err(map_session_error(error)),
            ),
            (PairingPhase::ClosingAtOnce { end }, _) => over(end),
            _ => over(Err(AgentError::PairingFailed)),
        };
        self.phase = phase;
        action
    }
}

/// How the end of a pairing is told: a failure is told as one, and a success
/// was told already.
pub fn pairing_ended(end: Result<(), AgentError>) -> (told: (Option<PairingOutcome>, bool))
    ensures
        told.0 == if end is Err {
            Some(PairingOutcome::Failed)
        } else {
            None
        },
        told.1 == (end == Err::<(), AgentError>(AgentError::SafetyRecoveryFailed)),
{
    match end {
        Ok(()) => (None, false),
        Err(AgentError::SafetyRecoveryFailed) => (Some(PairingOutcome::Failed), true),
        Err(_) => (Some(PairingOutcome::Failed), false),
    }
}

/// How a confirmed pairing turned out, when its outcome was waited for.
/// `waited` says how the wait went, when there was one.
pub fn confirmed_outcome(
    before: PairingOutcome,
    waited: Result<PairingOutcome, AgentError>,
) -> (outcome: Result<PairingOutcome, AgentError>)
    ensures
        outcome == if before == PairingOutcome::Pending {
            waited
        } else {
            Ok(before)
        },
{
    if before == PairingOutcome::Pending {
        waited
    } else {
        Ok(before)
    }
}

/// What a committed pairing says of the peer.
pub struct CommittedPeer {
    pub device_id: DeviceId,
    pub public_key: Vec<u8>,
    pub certificate_der: Vec<u8>,
    pub grants: Capability,
    pub display_name: String,
    pub server_name: String,
    pub endpoint: String,
}

/// The record of a peer that was just paired: trusted from now on, at the first
/// epoch, under the name that it gave itself.
pub fn paired_record(peer: CommittedPeer, established_at_unix_ms: u64) -> (record: PeerRecord)
    ensures
        record@ == (PeerRecordModel {
            device_id: peer.device_id,
            public_key: peer.public_key@,
            certificate_der: peer.certificate_der@,
            grants: peer.grants,
            grant_epoch: 1,
            display_name: peer.display_name@,
            established_at_unix_ms,
            revoked_at_unix_ms: None,
            server_name: peer.server_name@,
            last_endpoint: Some(peer.endpoint@),
        }),
{
    PeerRecord {
        device_id: peer.device_id,
        public_key: peer.public_key,
        certificate_der: peer.certificate_der,
        grants: peer.grants,
        grant_epoch: 1,
        display_name: peer.display_name,
        established_at_unix_ms,
        revoked_at_unix_ms: None,
        server_name: peer.server_name,
        last_endpoint: Some(peer.endpoint),
    }
}

/// The session that follows a pairing goes on with its control channel, and
/// knows already what the peer grants.
pub fn paired_session(
    role: PairingRole,
    local_device: DeviceId,
    record: &PeerRecord,
    peer_grants: Capability,
    peer_placement: PeerPlacement,
    control: u64,
) -> (config: SessionConfig)
    ensures
        config == (SessionConfig {
            role: session_role(role),
            local_device,
            peer_device: record@.device_id,
            local_grants_to_peer: record@.grants,
            local_grant_epoch: record@.grant_epoch,
            peer_grants_to_local: Some(peer_grants),
            peer_grant_epoch: Some(1),
            peer_placement,
            existing_control: Some(control),
        }),
{
    SessionConfig {
        role: session_role(role),
        local_device,
        peer_device: record.device_id,
        local_grants_to_peer: record.grants,
        local_grant_epoch: record.grant_epoch,
        peer_grants_to_local: Some(peer_grants),
        peer_grant_epoch: Some(1),
        peer_placement,
        existing_control: Some(control),
    }
}

/// The phase and the last action after a whole run of events.
pub open spec fn pairing_after(role: PairingRole, events: Seq<PairingEvent>) -> (
    PairingPhase,
    PairingAction,
)
    decreases events.len(),
{
    if events.len() == 0 {
        (PairingPhase::Confirming, PairingAction::AwaitConfirmation)
    } else {
        pairing_turn(role, pairing_after(role, events.drop_last()).0, events.last())
    }
}

/// Every event of the run belonged to what the pairing waited for.
pub open spec fn events_fit(role: PairingRole, events: Seq<PairingEvent>) -> bool {
    forall|i: int|
        0 <= i < events.len() ==> event_fits(
            #[trigger] pairing_after(role, events.take(i)).0,
            events[i],
        )
}

/// How far a phase is on the way to a session; none off that way.
pub open spec fn progress(phase: PairingPhase) -> int {
    match phase {
        PairingPhase::ConfirmingOwn | PairingPhase::SendingConfirmation => 1,
        PairingPhase::ReceivingConfirmation => 1,
        PairingPhase::ConfirmingPeer | PairingPhase::Accepting => 2,
        PairingPhase::SendingAcceptance | PairingPhase::ReceivingAcceptance => 2,
        PairingPhase::SubmittingPeer | PairingPhase::SendingReady => 3,
        PairingPhase::ReceivingReady => 3,
        PairingPhase::Committing | PairingPhase::Checking => 4,
        PairingPhase::Persisting => 5,
        PairingPhase::SendingCommitted | PairingPhase::ReceivingCommitted => 6,
        PairingPhase::Publishing => 7,
        PairingPhase::Finishing | PairingPhase::InSession => 8,
        _ => 0,
    }
}

/// The peer was stored in this run.
pub open spec fn was_stored(events: Seq<PairingEvent>) -> bool {
    exists|i: int|
        0 <= i < events.len() && (#[trigger] events[i]) is Persisted && events[i]->Persisted_0 is Ok
}

/// The peer was shown as connected in this run.
pub open spec fn was_published(events: Seq<PairingEvent>) -> bool {
    exists|i: int|
        0 <= i < events.len() && (#[trigger] events[i]) is Published && events[i]->Published_0 is Ok
}

/// What has happened in a run that came so far.
pub open spec fn agreed(role: PairingRole, events: Seq<PairingEvent>, far: int) -> bool {
    &&& far >= 1 ==> events.contains(PairingEvent::Confirmed(true))
    &&& far >= 2 ==> events.contains(PairingEvent::Received(PairingMessage::Confirmation(true)))
    &&& far >= 3 ==> events.contains(
        PairingEvent::Received(PairingMessage::Acceptance(peer_role(role))),
    )
    &&& far >= 4 ==> events.contains(PairingEvent::Received(PairingMessage::ReadyToCommit))
    &&& far >= 5 ==> events.contains(PairingEvent::Checked(true))
    &&& far >= 6 ==> was_stored(events)
    &&& far >= 7 ==> events.contains(PairingEvent::Received(PairingMessage::Committed))
    &&& far >= 8 ==> was_published(events)
}

proof fn lemma_agreed(role: PairingRole, events: Seq<PairingEvent>)
    requires
        events_fit(role, events),
    ensures
        agreed(role, events, progress(pairing_after(role, events).0)),
    decreases events.len(),
{
    if events.len() > 0 {
        let before = events.drop_last();
        let event = events.last();
        assert(before == events.take(events.len() - 1));
        assert forall|i: int| 0 <= i < before.len() implies event_fits(
            #[trigger] pairing_after(role, before.take(i)).0,
            before[i],
        ) by {
            assert(before.take(i) == events.take(i));
        }
        lemma_agreed(role, before);
        let phase = pairing_after(role, before).0;
        assert(event_fits(phase, event));
        assert forall|e: PairingEvent| before.contains(e) implies events.contains(e) by {
            let at = choose|i: int| 0 <= i < before.len() && before[i] == e;
            assert(events[at] == e);
        }
        assert(events[events.len() - 1] == event);
        assert(events.contains(event));
        let far = progress(pairing_turn(role, phase, event).0);
        if was_stored(before) {
            let at = choose|i: int|
                0 <= i < before.len() && (#[trigger] before[i]) is Persisted
                    && before[i]->Persisted_0 is Ok;
            assert(events[at] == before[at]);
        }
        if was_published(before) {
            let at = choose|i: int|
                0 <= i < before.len() && (#[trigger] before[i]) is Published
                    && before[i]->Published_0 is Ok;
            assert(events[at] == before[at]);
        }
        assert(agreed(role, events, far));
    }
}

/// Whatever happens in a pairing, a peer is stored only when both users had
/// confirmed the code, the peer's acceptance had come in the peer's role, the
/// peer was ready to commit, and the committed trust was found to be that of the
/// peer that was met.
pub proof fn law_trust_is_committed_last(role: PairingRole, events: Seq<PairingEvent>)
    requires
        events_fit(role, events),
        pairing_after(role, events).1 is PersistPeer,
    ensures
        events.contains(PairingEvent::Confirmed(true)),
        events.contains(PairingEvent::Received(PairingMessage::Confirmation(true))),
        events.contains(PairingEvent::Received(PairingMessage::Acceptance(peer_role(role)))),
        events.contains(PairingEvent::Received(PairingMessage::ReadyToCommit)),
        events.contains(PairingEvent::Checked(true)),
{
    lemma_agreed(role, events);
}

/// A session runs only when, besides, the peer was stored here, the peer had
/// said that it had committed too, and safety allowed it.
pub proof fn law_sessions_follow_commitment(role: PairingRole, events: Seq<PairingEvent>)
    requires
        events_fit(role, events),
        pairing_after(role, events).1 is RunSession,
    ensures
        events.contains(PairingEvent::Confirmed(true)),
        events.contains(PairingEvent::Received(PairingMessage::Confirmation(true))),
        events.contains(PairingEvent::Received(PairingMessage::Acceptance(peer_role(role)))),
        events.contains(PairingEvent::Received(PairingMessage::ReadyToCommit)),
        events.contains(PairingEvent::Checked(true)),
        was_stored(events),
        events.contains(PairingEvent::Received(PairingMessage::Committed)),
        was_published(events),
{
    lemma_agreed(role, events);
}

/// What one side sends in a phase is what the other side waits for in the phase
/// after the same phase of its own.
pub proof fn law_sides_understand_each_other(role: PairingRole)
    ensures
        pairing_turn(role, PairingPhase::Accepting, PairingEvent::Reduced(Ok(()))).1
            == PairingAction::Send(PairingMessage::Acceptance(role)),
        pairing_turn(
            peer_role(role),
            PairingPhase::ReceivingAcceptance,
            PairingEvent::Received(PairingMessage::Acceptance(role)),
        ).0 is SubmittingPeer,
        pairing_turn(role, PairingPhase::ConfirmingOwn, PairingEvent::Reduced(Ok(()))).1
            == PairingAction::Send(PairingMessage::Confirmation(true)),
        pairing_turn(
            peer_role(role),
            PairingPhase::ReceivingConfirmation,
            PairingEvent::Received(PairingMessage::Confirmation(true)),
        ).0 is ConfirmingPeer,
        pairing_turn(role, PairingPhase::SubmittingPeer, PairingEvent::Reduced(Ok(()))).1
            == PairingAction::Send(PairingMessage::ReadyToCommit),
        pairing_turn(
            peer_role(role),
            PairingPhase::ReceivingReady,
            PairingEvent::Received(PairingMessage::ReadyToCommit),
        ).0 is Committing,
        pairing_turn(role, PairingPhase::Persisting, PairingEvent::Persisted(Ok(()))).1
            == PairingAction::Send(PairingMessage::Committed),
        pairing_turn(
            peer_role(role),
            PairingPhase::ReceivingCommitted,
            PairingEvent::Received(PairingMessage::Committed),
        ).0 is Publishing,
{
}

/// A pairing that goes well goes its steps in this order: each side confirms, is
/// confirmed, accepts, is accepted, is ready, commits, checks whom it trusts,
/// stores the peer, says so, and shows it as connected.
pub proof fn law_pairings_go_in_order(role: PairingRole)
    ensures
        ({
            let done = Ok::<(), AgentError>(());
            let other = match role {
                PairingRole::Initiator => PairingRole::Responder,
                PairingRole::Responder => PairingRole::Initiator,
            };
            let reduced = PairingEvent::Reduced(done);
            let sent = PairingEvent::Sent(done);
            &&& pairing_turn(role, PairingPhase::Confirming, PairingEvent::Confirmed(true)) == (
                PairingPhase::ConfirmingOwn,
                PairingAction::Reduce(TransactionStep::ConfirmSas(role)),
            )
            &&& pairing_turn(role, PairingPhase::ConfirmingOwn, reduced) == (
                PairingPhase::SendingConfirmation,
                PairingAction::Send(PairingMessage::Confirmation(true)),
            )
            &&& pairing_turn(role, PairingPhase::SendingConfirmation, sent) == (
                PairingPhase::ReceivingConfirmation,
                PairingAction::Receive,
            )
            &&& pairing_turn(
                role,
                PairingPhase::ReceivingConfirmation,
                PairingEvent::Received(PairingMessage::Confirmation(true)),
            ) == (
                PairingPhase::ConfirmingPeer,
                PairingAction::Reduce(TransactionStep::ConfirmSas(other)),
            )
            &&& pairing_turn(role, PairingPhase::ConfirmingPeer, reduced) == (
                PairingPhase::Accepting,
                PairingAction::Reduce(TransactionStep::SubmitOwnAcceptance),
            )
            &&& pairing_turn(role, PairingPhase::Accepting, reduced) == (
                PairingPhase::SendingAcceptance,
                PairingAction::Send(PairingMessage::Acceptance(role)),
            )
            &&& pairing_turn(role, PairingPhase::SendingAcceptance, sent) == (
                PairingPhase::ReceivingAcceptance,
                PairingAction::Receive,
            )
            &&& pairing_turn(
                role,
                PairingPhase::ReceivingAcceptance,
                PairingEvent::Received(PairingMessage::Acceptance(other)),
            ) == (
                PairingPhase::SubmittingPeer,
                PairingAction::Reduce(TransactionStep::SubmitPeerAcceptance),
            )
            &&& pairing_turn(role, PairingPhase::SubmittingPeer, reduced) == (
                PairingPhase::SendingReady,
                PairingAction::Send(PairingMessage::ReadyToCommit),
            )
            &&& pairing_turn(role, PairingPhase::SendingReady, sent) == (
                PairingPhase::ReceivingReady,
                PairingAction::Receive,
            )
            &&& pairing_turn(
                role,
                PairingPhase::ReceivingReady,
                PairingEvent::Received(PairingMessage::ReadyToCommit),
            ) == (PairingPhase::Committing, PairingAction::Reduce(TransactionStep::Commit))
            &&& pairing_turn(role, PairingPhase::Committing, reduced) == (
                PairingPhase::Checking,
                PairingAction::CheckBinding,
            )
            &&& pairing_turn(role, PairingPhase::Checking, PairingEvent::Checked(true)) == (
                PairingPhase::Persisting,
                PairingAction::PersistPeer,
            )
            &&& pairing_turn(role, PairingPhase::Persisting, PairingEvent::Persisted(done)) == (
                PairingPhase::SendingCommitted,
                PairingAction::Send(PairingMessage::Committed),
            )
            &&& pairing_turn(role, PairingPhase::SendingCommitted, sent) == (
                PairingPhase::ReceivingCommitted,
                PairingAction::Receive,
            )
            &&& pairing_turn(
                role,
                PairingPhase::ReceivingCommitted,
                PairingEvent::Received(PairingMessage::Committed),
            ) == (PairingPhase::Publishing, PairingAction::PublishConnected)
            &&& pairing_turn(role, PairingPhase::Publishing, PairingEvent::Published(done)) == (
                PairingPhase::Finishing,
                PairingAction::Publish(PairingOutcome::Finished(true)),
            )
            &&& pairing_turn(role, PairingPhase::Finishing, PairingEvent::Done) == (
                PairingPhase::InSession,
                PairingAction::RunSession,
            )
            &&& pairing_turn(role, PairingPhase::InSession, PairingEvent::SessionEnded(Ok(()))) == (
                PairingPhase::Over,
                PairingAction::End(Ok(())),
            )
        }),
{
}

/// A refusal, of this user or of the other, aborts the transaction, closes the
/// connection in order and is told to the user; the other side hears of it only
/// where this side refused. That is no failure.
pub proof fn law_refusals_end_a_pairing(
    role: PairingRole,
    reduced: Result<(), AgentError>,
    sent: Result<(), AgentError>,
)
    ensures
        pairing_turn(role, PairingPhase::Confirming, PairingEvent::Confirmed(false)) == (
            PairingPhase::Aborting,
            PairingAction::Reduce(TransactionStep::Abort),
        ),
        pairing_turn(role, PairingPhase::Aborting, PairingEvent::Reduced(reduced)) == (
            PairingPhase::SendingRefusal,
            PairingAction::Send(PairingMessage::Confirmation(false)),
        ),
        sent is Ok ==> pairing_turn(role, PairingPhase::SendingRefusal, PairingEvent::Sent(sent))
            == (PairingPhase::ClosingRefused, PairingAction::ClosePairing),
        pairing_turn(
            role,
            PairingPhase::ReceivingConfirmation,
            PairingEvent::Received(PairingMessage::Confirmation(false)),
        ) == (PairingPhase::AbortingForPeer, PairingAction::Reduce(TransactionStep::Abort)),
        pairing_turn(role, PairingPhase::AbortingForPeer, PairingEvent::Reduced(reduced)) == (
            PairingPhase::ClosingRefused,
            PairingAction::ClosePairing,
        ),
        pairing_turn(role, PairingPhase::ClosingRefused, PairingEvent::Done) == (
            PairingPhase::TellingRefusal,
            PairingAction::Publish(PairingOutcome::Finished(false)),
        ),
        pairing_turn(role, PairingPhase::TellingRefusal, PairingEvent::Done) == (
            PairingPhase::Over,
            PairingAction::End(Ok(())),
        ),
{
}

/// What fails ends the pairing with its error: a step of the transaction, a
/// message that could not be sent, a peer that could not be stored. A peer that is
/// not the one that was met, and a message that was not due, end it as failed. A
/// peer that may not be shown is closed at once.
pub proof fn law_failures_end_a_pairing(
    role: PairingRole,
    phase: PairingPhase,
    event: PairingEvent,
    cause: AgentError,
)
    requires
        event_fits(phase, event),
    ensures
        ({
            let turn = pairing_turn(role, phase, event);
            let listens = phase is ReceivingConfirmation || phase is ReceivingAcceptance || phase
                is ReceivingReady || phase is ReceivingCommitted;
            let aborts = phase is Aborting || phase is AbortingForPeer;
            &&& event == PairingEvent::Reduced(Err(cause)) && !aborts ==> turn == (
                PairingPhase::Over,
                PairingAction::End(Err(cause)),
            )
            &&& event == PairingEvent::Sent(Err(cause)) ==> turn == (
                PairingPhase::Over,
                PairingAction::End(Err(cause)),
            )
            &&& event == PairingEvent::Persisted(Err(cause)) ==> turn == (
                PairingPhase::Over,
                PairingAction::End(Err(cause)),
            )
            &&& event == PairingEvent::Published(Err(cause)) ==> turn == (
                PairingPhase::ClosingAtOnce { end: Err(cause) },
                PairingAction::CloseEmergency,
            )
            &&& event == PairingEvent::Checked(false) ==> turn == (
                PairingPhase::Over,
                PairingAction::End(Err(AgentError::PairingFailed)),
            )
            &&& event is ConfirmationTimedOut ==> turn == (
                PairingPhase::Over,
                PairingAction::End(Err(AgentError::PairingTimedOut)),
            )
            &&& event is ConfirmationDropped || event is DisconnectLost || event is ReceiveFailed
                ==> turn == (
                PairingPhase::Over,
                PairingAction::End(Err(AgentError::PairingFailed)),
            )
            &&& event is Disconnected ==> turn == (
                PairingPhase::ClosingAtOnce { end: Ok(()) },
                PairingAction::CloseEmergency,
            )
            &&& phase matches PairingPhase::ClosingAtOnce { end } ==> turn == (
                PairingPhase::Over,
                PairingAction::End(end),
            )
            &&& listens ==> (event matches PairingEvent::Received(message) ==> {
                let due = match phase {
                    PairingPhase::ReceivingConfirmation => message is Confirmation,
                    PairingPhase::ReceivingAcceptance => message == PairingMessage::Acceptance(
                        match role {
                            PairingRole::Initiator => PairingRole::Responder,
                            PairingRole::Responder => PairingRole::Initiator,
                        },
                    ),
                    PairingPhase::ReceivingReady => message is ReadyToCommit,
                    _ => message is Committed,
                };
                !due ==> turn == (
                    PairingPhase::Over,
                    PairingAction::End(Err(AgentError::PairingFailed)),
                )
            })
            &&& event matches PairingEvent::SessionEnded(Err(error)) ==> turn == (
                PairingPhase::Over,
                PairingAction::End(Err(reported(error))),
            )
        }),
{
}

/// Each phase waits for what its action brings; after the end nothing is waited
/// for.
pub proof fn law_each_pairing_phase_waits_for_its_event(phase: PairingPhase, event: PairingEvent)
    ensures
        event_fits(phase, event) <==> match event {
            PairingEvent::Confirmed(_) => phase is Confirming,
            PairingEvent::ConfirmationTimedOut => phase is Confirming,
            PairingEvent::ConfirmationDropped => phase is Confirming,
            PairingEvent::Received(_) => phase is ReceivingConfirmation || phase
                is ReceivingAcceptance || phase is ReceivingReady || phase is ReceivingCommitted,
            PairingEvent::ReceiveFailed => phase is ReceivingConfirmation || phase
                is ReceivingAcceptance || phase is ReceivingReady || phase is ReceivingCommitted,
            PairingEvent::Disconnected => phase is Confirming || phase is ReceivingConfirmation
                || phase is ReceivingAcceptance || phase is ReceivingReady || phase
                is ReceivingCommitted,
            PairingEvent::DisconnectLost => phase is Confirming || phase is ReceivingConfirmation
                || phase is ReceivingAcceptance || phase is ReceivingReady || phase
                is ReceivingCommitted,
            PairingEvent::Reduced(_) => phase is Aborting || phase is AbortingForPeer || phase
                is ConfirmingOwn || phase is ConfirmingPeer || phase is Accepting || phase
                is SubmittingPeer || phase is Committing,
            PairingEvent::Sent(_) => phase is SendingRefusal || phase is SendingConfirmation
                || phase is SendingAcceptance || phase is SendingReady || phase
                is SendingCommitted,
            PairingEvent::Checked(_) => phase is Checking,
            PairingEvent::Persisted(_) => phase is Persisting,
            PairingEvent::Published(_) => phase is Publishing,
            PairingEvent::SessionEnded(_) => phase is InSession,
            PairingEvent::Done => phase is Finishing || phase is ClosingRefused || phase
                is TellingRefusal || phase is ClosingAtOnce,
        },
{
}

/// A pairing begins with a greeting and with nothing else.
pub proof fn law_pairings_begin_with_a_greeting(
    message: PairingMessage,
    expected: Result<(), AgentError>,
)
    requires
        call_ensures(expect_hello, (message,), expected),
    ensures
        expected is Ok <==> message is Hello,
        expected matches Err(error) ==> error == AgentError::PairingFailed,
{
}

/// A pairing that ended without an error is not told as failed, and only a
/// failed recovery stops the device.
pub proof fn law_failed_pairings_are_told(
    end: Result<(), AgentError>,
    told: (Option<PairingOutcome>, bool),
)
    requires
        call_ensures(pairing_ended, (end,), told),
    ensures
        told.0 is None <==> end is Ok,
        end is Err ==> told.0 == Some(PairingOutcome::Failed),
        told.1 ==> end is Err && end->Err_0 == AgentError::SafetyRecoveryFailed,
        end is Ok ==> !told.1,
        end is Err && end->Err_0 == AgentError::SafetyRecoveryFailed ==> told.1,
{
}

/// An outcome that is settled already is not waited for.
pub proof fn law_settled_outcomes_stand(
    before: PairingOutcome,
    waited: Result<PairingOutcome, AgentError>,
    outcome: Result<PairingOutcome, AgentError>,
)
    requires
        call_ensures(confirmed_outcome, (before, waited), outcome),
    ensures
        before != PairingOutcome::Pending ==> outcome == Ok::<PairingOutcome, AgentError>(before),
        before == PairingOutcome::Pending ==> outcome == waited,
{
}

/// A session that follows a pairing grants what the record says, and takes the
/// peer's grants as those of the first epoch, which is that of the record too.
pub proof fn law_paired_sessions_start_at_the_first_epoch(
    role: PairingRole,
    local_device: DeviceId,
    record: PeerRecord,
    peer_grants: Capability,
    peer_placement: PeerPlacement,
    control: u64,
    config: SessionConfig,
)
    requires
        call_ensures(
            paired_session,
            (role, local_device, &record, peer_grants, peer_placement, control),
            config,
        ),
    ensures
        config.local_device == local_device,
        config.peer_device == record@.device_id,
        config.local_grants_to_peer == record@.grants,
        config.local_grant_epoch == record@.grant_epoch,
        config.peer_grants_to_local == Some(peer_grants),
        config.peer_grant_epoch == Some(1u64),
        config.existing_control == Some(control),
        config.peer_placement == peer_placement,
{
}

} // verus!
