//! The commands of the user interface: what each asks of the agent, and what it
//! is answered.

use vstd::prelude::*;
use crate::agent_core::PairingOutcome;
use crate::agent_status::AgentStatus;
use crate::grants::Capability;
use crate::peer_book::{
    requested_grants,
    trusted_capability,
    CapabilityName,
    TrustedCapability,
    TrustedPeerSummary,
};
use crate::platform_readiness::ReadinessRequestError;
use crate::reconnect::is_reconnect_request;
use crate::routes::PeerPlacement;
use crate::runtime::AgentError;
use crate::safety_stop::SessionStop;
use crate::transfer_model::TransferListing;

verus! {

/// A command of the user interface.
pub enum UiCommand {
    GetStatus,
    RequestAccessibilityPermission,
    ListTrustedPeers,
    BeginPairing { endpoint: String, capabilities: Vec<CapabilityName> },
    ConfirmPairing { pairing_id: String, accepted: bool },
    SetCapability { peer_id: String, capability: CapabilityName, enabled: bool },
    SetPeerPlacement { peer_id: String, placement: PeerPlacement },
    RevokePeer { peer_id: String },
    SendFiles { paths: Vec<String> },
    ListTransfers,
    CancelTransfer { transfer_id: String },
    RequestRemoteFocus { ttl_ms: u32 },
    ReleaseFocus,
    LocalLocked,
    LocalSleeping,
    GetUpdateStatus,
    CheckForUpdate,
    DecideUpdate { offer_id: String, accepted: bool },
    EmergencyStop,
    Shutdown,
}

/// What a command asks the agent to do, beyond what it says itself.
#[derive(Clone, Copy, Debug, PartialEq, Eq, Structural)]
pub enum AgentCall {
    RefreshReadiness,
    RequestPermission,
    ListPeers,
    /// Meet the known peer that the endpoint names.
    Reconnect,
    /// Pair with a new peer, and grant it this.
    BeginPairing(Capability),
    ConfirmPairing,
    SetCapability(TrustedCapability),
    SetPlacement,
    RevokePeer,
    SendFiles,
    ListTransfers,
    CancelTransfer,
    RequestFocus,
    ReleaseFocus,
    Stop(SessionStop),
    UpdateStatus,
    CheckForUpdate,
    DecideUpdate,
    PrepareExit,
}

/// A request names a known peer.
pub open spec fn names_known_peer(endpoint: Seq<char>) -> bool {
    "reconnect:"@.is_prefix_of(endpoint) || "reconnect-listen:"@.is_prefix_of(endpoint)
}

/// `call` is what `command` asks for.
pub open spec fn asks_for(command: UiCommand, call: AgentCall) -> bool {
    match command {
        UiCommand::GetStatus => call == AgentCall::RefreshReadiness,
        UiCommand::RequestAccessibilityPermission => call == AgentCall::RequestPermission,
        UiCommand::ListTrustedPeers => call == AgentCall::ListPeers,
        UiCommand::BeginPairing { endpoint, capabilities } => if names_known_peer(endpoint@) {
            call == AgentCall::Reconnect
        } else {
            call matches AgentCall::BeginPairing(grants) && {
                &&& grants.remote_input == capabilities@.contains(CapabilityName::Input)
                &&& grants.clipboard_read == capabilities@.contains(CapabilityName::ClipboardRead)
                &&& grants.clipboard_write == capabilities@.contains(CapabilityName::ClipboardWrite)
                &&& grants.file_transfer == capabilities@.contains(CapabilityName::Files)
            }
        },
        UiCommand::ConfirmPairing { .. } => call == AgentCall::ConfirmPairing,
        UiCommand::SetCapability { capability, .. } => call == AgentCall::SetCapability(
            trusted_capability(capability),
        ),
        UiCommand::SetPeerPlacement { .. } => call == AgentCall::SetPlacement,
        UiCommand::RevokePeer { .. } => call == AgentCall::RevokePeer,
        UiCommand::SendFiles { .. } => call == AgentCall::SendFiles,
        UiCommand::ListTransfers => call == AgentCall::ListTransfers,
        UiCommand::CancelTransfer { .. } => call == AgentCall::CancelTransfer,
        UiCommand::RequestRemoteFocus { .. } => call == AgentCall::RequestFocus,
        UiCommand::ReleaseFocus => call == AgentCall::ReleaseFocus,
        UiCommand::LocalLocked => call == AgentCall::Stop(SessionStop::Locked),
        UiCommand::LocalSleeping => call == AgentCall::Stop(SessionStop::Sleeping),
        UiCommand::GetUpdateStatus => call == AgentCall::UpdateStatus,
        UiCommand::CheckForUpdate => call == AgentCall::CheckForUpdate,
        UiCommand::DecideUpdate { .. } => call == AgentCall::DecideUpdate,
        UiCommand::EmergencyStop => call == AgentCall::Stop(SessionStop::Emergency),
        UiCommand::Shutdown => call == AgentCall::PrepareExit,
    }
}

/// What a command asks the agent to do.
pub fn route_command(command: &UiCommand) -> (call: AgentCall)
    ensures
        asks_for(*command, call),
{
    match command {
        UiCommand::GetStatus => AgentCall::RefreshReadiness,
        UiCommand::RequestAccessibilityPermission => AgentCall::RequestPermission,
        UiCommand::ListTrustedPeers => AgentCall::ListPeers,
        UiCommand::BeginPairing { endpoint, capabilities } => {
            if is_reconnect_request(endpoint.as_str()) {
                AgentCall::Reconnect
            } else {
                AgentCall::BeginPairing(requested_grants(capabilities.as_slice()))
            }
        },
        UiCommand::ConfirmPairing { .. } => AgentCall::ConfirmPairing,
        UiCommand::SetCapability { capability, .. } => AgentCall::SetCapability(
            trusted_capability(*capability),
        ),
        UiCommand::SetPeerPlacement { .. } => AgentCall::SetPlacement,
        UiCommand::RevokePeer { .. } => AgentCall::RevokePeer,
        UiCommand::SendFiles { .. } => AgentCall::SendFiles,
        UiCommand::ListTransfers => AgentCall::ListTransfers,
        UiCommand::CancelTransfer { .. } => AgentCall::CancelTransfer,
        UiCommand::RequestRemoteFocus { .. } => AgentCall::RequestFocus,
        UiCommand::ReleaseFocus => AgentCall::ReleaseFocus,
        UiCommand::LocalLocked => AgentCall::Stop(SessionStop::Locked),
        UiCommand::LocalSleeping => AgentCall::Stop(SessionStop::Sleeping),
        UiCommand::GetUpdateStatus => AgentCall::UpdateStatus,
        UiCommand::CheckForUpdate => AgentCall::CheckForUpdate,
        UiCommand::DecideUpdate { .. } => AgentCall::DecideUpdate,
        UiCommand::EmergencyStop => AgentCall::Stop(SessionStop::Emergency),
        UiCommand::Shutdown => AgentCall::PrepareExit,
    }
}

/// A pairing that waits for the user.
pub struct PairingStarted {
    pub pairing_id: String,
    pub peer_name: String,
    pub code: String,
}

/// Why an update step was refused.
#[derive(Clone, Copy, Debug, PartialEq, Eq, Structural)]
pub enum CoordinatorError {
    NotConfigured,
    Busy,
    OfferMismatch,
    InvalidTransition,
    Internal,
}

/// What the agent did. What is known of an update is carried through as it is.
pub enum AgentReply<Snapshot> {
    Status(Result<AgentStatus, AgentError>),
    Permission(Result<AgentStatus, ReadinessRequestError>),
    Peers(Vec<TrustedPeerSummary>),
    Pairing(Result<PairingStarted, AgentError>),
    Confirmed(Result<PairingOutcome, AgentError>),
    Changed(Result<(), AgentError>),
    Queued(Result<String, AgentError>),
    Listing(Result<TransferListing, AgentError>),
    /// With the words for a refusal.
    Update(Result<Snapshot, (CoordinatorError, String)>),
}

/// What the user interface is told.
pub enum AgentEvent<Snapshot> {
    Status(AgentStatus),
    TrustedPeers { peers: Vec<TrustedPeerSummary> },
    PairingCode { pairing_id: String, peer_name: String, code: String },
    PairingFinished { pairing_id: String, paired: bool },
    CapabilityChanged { peer_id: String, capability: CapabilityName, enabled: bool },
    PeerPlacementChanged { peer_id: String, placement: PeerPlacement },
    TransferQueued { transfer_id: String },
    Transfers(TransferListing),
    UpdateStatus(Snapshot),
    Error { code: String, message: String },
    ShutdownAccepted,
}

/// The code of a failure.
pub open spec fn error_code_text(error: AgentError) -> Seq<char> {
    match error {
        AgentError::Busy => "busy"@,
        AgentError::InvalidEndpoint => "invalid_endpoint"@,
        AgentError::DiscoveryUnavailable => "discovery_unavailable"@,
        AgentError::PairingTimedOut => "pairing_timed_out"@,
        AgentError::ReconnectFailed => "reconnect_failed"@,
        AgentError::PairingNotFound => "pairing_not_found"@,
        AgentError::AlreadyConfirmed => "already_confirmed"@,
        AgentError::PeerNotFound => "peer_not_found"@,
        AgentError::Storage => "storage_unavailable"@,
        AgentError::GrantEpochExhausted => "grant_epoch_exhausted"@,
        AgentError::ReceiveDestinationUnavailable => "receive_destination_unavailable"@,
        AgentError::PlacementApplyFailed => "placement_apply_failed"@,
        AgentError::PairingFailed => "pairing_failed"@,
        AgentError::NotConnected => "not_connected"@,
        AgentError::FocusRejected => "focus_rejected"@,
        AgentError::SafetyRecoveryFailed => "safety_recovery_failed"@,
        AgentError::TransferFailed => "transfer_failed"@,
        AgentError::TransferNotFound => "transfer_not_found"@,
        AgentError::TransferNotCancellable => "transfer_not_cancellable"@,
    }
}

/// The code of a failure, which the user interface tells failures apart by.
pub fn error_code(error: AgentError) -> (code: &'static str)
    ensures
        code@ == error_code_text(error),
{
    match error {
        AgentError::Busy => "busy",
        AgentError::InvalidEndpoint => "invalid_endpoint",
        AgentError::DiscoveryUnavailable => "discovery_unavailable",
        AgentError::PairingTimedOut => "pairing_timed_out",
        AgentError::ReconnectFailed => "reconnect_failed",
        AgentError::PairingNotFound => "pairing_not_found",
        AgentError::AlreadyConfirmed => "already_confirmed",
        AgentError::PeerNotFound => "peer_not_found",
        AgentError::Storage => "storage_unavailable",
        AgentError::GrantEpochExhausted => "grant_epoch_exhausted",
        AgentError::ReceiveDestinationUnavailable => "receive_destination_unavailable",
        AgentError::PlacementApplyFailed => "placement_apply_failed",
        AgentError::PairingFailed => "pairing_failed",
        AgentError::NotConnected => "not_connected",
        AgentError::FocusRejected => "focus_rejected",
        AgentError::SafetyRecoveryFailed => "safety_recovery_failed",
        AgentError::TransferFailed => "transfer_failed",
        AgentError::TransferNotFound => "transfer_not_found",
        AgentError::TransferNotCancellable => "transfer_not_cancellable",
    }
}

/// The words for a failure. They name no path, peer or content.
pub open spec fn error_words(error: AgentError) -> Seq<char> {
    match error {
        AgentError::Busy => "another pairing or peer session is already active"@,
        AgentError::InvalidEndpoint => "the manual or mDNS endpoint is invalid"@,
        AgentError::DiscoveryUnavailable => "no matching mDNS advertisement was found"@,
        AgentError::PairingTimedOut => "the peer did not connect before the pairing deadline"@,
        AgentError::PairingFailed => "the pairing protocol failed"@,
        AgentError::ReconnectFailed => "pinned peer authentication or reconnect failed"@,
        AgentError::PairingNotFound => "the requested pairing transaction does not exist"@,
        AgentError::AlreadyConfirmed => "the pairing transaction was already confirmed"@,
        AgentError::PeerNotFound => "the trusted peer does not exist or is already revoked"@,
        AgentError::Storage => "development trust storage failed"@,
        AgentError::GrantEpochExhausted => "the local capability grant epoch is exhausted"@,
        AgentError::NotConnected => "no authenticated peer session is connected"@,
        AgentError::FocusRejected => "the focus request is not authorized or valid"@,
        AgentError::SafetyRecoveryFailed =>
            "local input release and ownership restore did not complete"@,
        AgentError::TransferFailed =>
            "the selected file transfer could not be prepared or queued"@,
        AgentError::TransferNotFound => "the local transfer does not exist"@,
        AgentError::TransferNotCancellable => "the local transfer cannot be cancelled"@,
        AgentError::ReceiveDestinationUnavailable =>
            "the fixed receive destination is unavailable"@,
        AgentError::PlacementApplyFailed => "the peer placement could not be applied"@,
    }
}

/// The words for a failure.
pub fn error_message(error: AgentError) -> (message: &'static str)
    ensures
        message@ == error_words(error),
{
    match error {
        AgentError::Busy => "another pairing or peer session is already active",
        AgentError::InvalidEndpoint => "the manual or mDNS endpoint is invalid",
        AgentError::DiscoveryUnavailable => "no matching mDNS advertisement was found",
        AgentError::PairingTimedOut => "the peer did not connect before the pairing deadline",
        AgentError::PairingFailed => "the pairing protocol failed",
        AgentError::ReconnectFailed => "pinned peer authentication or reconnect failed",
        AgentError::PairingNotFound => "the requested pairing transaction does not exist",
        AgentError::AlreadyConfirmed => "the pairing transaction was already confirmed",
        AgentError::PeerNotFound => "the trusted peer does not exist or is already revoked",
        AgentError::Storage => "development trust storage failed",
        AgentError::GrantEpochExhausted => "the local capability grant epoch is exhausted",
        AgentError::NotConnected => "no authenticated peer session is connected",
        AgentError::FocusRejected => "the focus request is not authorized or valid",
        AgentError::SafetyRecoveryFailed => {
            "local input release and ownership restore did not complete"
        },
        AgentError::TransferFailed => {
            "the selected file transfer could not be prepared or queued"
        },
        AgentError::TransferNotFound => "the local transfer does not exist",
        AgentError::TransferNotCancellable => "the local transfer cannot be cancelled",
        AgentError::ReceiveDestinationUnavailable => {
            "the fixed receive destination is unavailable"
        },
        AgentError::PlacementApplyFailed => "the peer placement could not be applied",
    }
}

/// `event` says that `error` happened.
pub open spec fn tells_error<Snapshot>(event: AgentEvent<Snapshot>, error: AgentError) -> bool {
    event matches AgentEvent::Error { code, message } && code@ == error_code_text(error) && message@
        == error_words(error)
}

/// Tells a failure.
pub fn agent_error_event<Snapshot>(error: AgentError) -> (event: AgentEvent<Snapshot>)
    ensures
        tells_error(event, error),
{
    AgentEvent::Error {
        code: error_code(error).to_owned(),
        message: error_message(error).to_owned(),
    }
}

pub open spec fn readiness_code(error: ReadinessRequestError) -> Seq<char> {
    match error {
        ReadinessRequestError::UnsupportedPlatform => "unsupported_platform"@,
        ReadinessRequestError::ProbeUnavailable => "readiness_unavailable"@,
    }
}

pub open spec fn readiness_words(error: ReadinessRequestError) -> Seq<char> {
    match error {
        ReadinessRequestError::UnsupportedPlatform =>
            "accessibility permission requests are unsupported on this platform"@,
        ReadinessRequestError::ProbeUnavailable =>
            "the bounded platform readiness probe did not complete"@,
    }
}

/// Tells that permission could not be asked for.
pub fn readiness_error_event<Snapshot>(error: ReadinessRequestError) -> (event: AgentEvent<Snapshot>)
    ensures
        event matches AgentEvent::Error { code, message } && code@ == readiness_code(error)
            && message@ == readiness_words(error),
{
    let (code, message) = match error {
        ReadinessRequestError::UnsupportedPlatform => (
            "unsupported_platform",
            "accessibility permission requests are unsupported on this platform",
        ),
        ReadinessRequestError::ProbeUnavailable => (
            "readiness_unavailable",
            "the bounded platform readiness probe did not complete",
        ),
    };
    AgentEvent::Error { code: code.to_owned(), message: message.to_owned() }
}

pub open spec fn update_code(error: CoordinatorError) -> Seq<char> {
    match error {
        CoordinatorError::NotConfigured => "update_not_configured"@,
        CoordinatorError::Busy => "update_busy"@,
        CoordinatorError::OfferMismatch => "update_offer_mismatch"@,
        CoordinatorError::InvalidTransition => "update_invalid_transition"@,
        CoordinatorError::Internal => "update_internal"@,
    }
}

/// Tells that an update step was refused, in the given words.
pub fn update_error_event<Snapshot>(error: CoordinatorError, message: String) -> (event: AgentEvent<
    Snapshot,
>)
    ensures
        event matches AgentEvent::Error { code, message: told } && code@ == update_code(error)
            && told == message,
{
    let code = match error {
        CoordinatorError::NotConfigured => "update_not_configured",
        CoordinatorError::Busy => "update_busy",
        CoordinatorError::OfferMismatch => "update_offer_mismatch",
        CoordinatorError::InvalidTransition => "update_invalid_transition",
        CoordinatorError::Internal => "update_internal",
    };
    AgentEvent::Error { code: code.to_owned(), message }
}

/// The reply is one that the command can have.
pub open spec fn reply_fits<Snapshot>(command: UiCommand, reply: AgentReply<Snapshot>) -> bool {
    match command {
        UiCommand::GetStatus => reply matches AgentReply::Status(Ok(_)),
        UiCommand::RequestAccessibilityPermission => reply is Permission,
        UiCommand::ListTrustedPeers => reply is Peers,
        UiCommand::BeginPairing { endpoint, .. } => if names_known_peer(endpoint@) {
            reply is Status
        } else {
            reply is Pairing
        },
        UiCommand::ConfirmPairing { .. } => reply is Confirmed,
        UiCommand::SetCapability { .. } => reply is Changed,
        UiCommand::SetPeerPlacement { .. } => reply is Changed,
        UiCommand::RevokePeer { .. } => reply is Status,
        UiCommand::SendFiles { .. } => reply is Queued,
        UiCommand::ListTransfers => reply matches AgentReply::Listing(Ok(_)),
        UiCommand::CancelTransfer { .. } => reply is Listing,
        UiCommand::RequestRemoteFocus { .. } => reply is Status,
        UiCommand::ReleaseFocus => reply is Status,
        UiCommand::LocalLocked => reply is Status,
        UiCommand::LocalSleeping => reply is Status,
        UiCommand::GetUpdateStatus => reply matches AgentReply::Update(Ok(_)),
        UiCommand::CheckForUpdate => reply is Update,
        UiCommand::DecideUpdate { .. } => reply is Update,
        UiCommand::EmergencyStop => reply is Status,
        UiCommand::Shutdown => reply is Changed,
    }
}

/// `event` answers `command`, given what the agent did.
pub open spec fn answers<Snapshot>(
    command: UiCommand,
    reply: AgentReply<Snapshot>,
    event: AgentEvent<Snapshot>,
) -> bool {
    match reply {
        AgentReply::Status(Ok(status)) => event == AgentEvent::<Snapshot>::Status(status),
        AgentReply::Status(Err(error)) => tells_error(event, error),
        AgentReply::Permission(Ok(status)) => event == AgentEvent::<Snapshot>::Status(status),
        AgentReply::Permission(Err(error)) => event matches AgentEvent::Error { code, message }
            && code@ == readiness_code(error) && message@ == readiness_words(error),
        AgentReply::Peers(peers) => event == (AgentEvent::<Snapshot>::TrustedPeers { peers }),
        AgentReply::Pairing(Ok(started)) => event == (AgentEvent::<Snapshot>::PairingCode {
            pairing_id: started.pairing_id,
            peer_name: started.peer_name,
            code: started.code,
        }),
        AgentReply::Pairing(Err(error)) => tells_error(event, error),
        AgentReply::Confirmed(Ok(PairingOutcome::Finished(paired))) => {
            command matches UiCommand::ConfirmPairing { pairing_id, .. } ==> event == (AgentEvent::<
                Snapshot,
            >::PairingFinished { pairing_id, paired })
        },
        AgentReply::Confirmed(Ok(_)) => event matches AgentEvent::Error { code, message } && code@
            == "pairing_failed"@ && message@ == "pairing did not complete"@,
        AgentReply::Confirmed(Err(error)) => tells_error(event, error),
        AgentReply::Changed(Ok(())) => match command {
            UiCommand::SetCapability { peer_id, capability, enabled } => event == (AgentEvent::<
                Snapshot,
            >::CapabilityChanged { peer_id, capability, enabled }),
            UiCommand::SetPeerPlacement { peer_id, placement } => event == (AgentEvent::<
                Snapshot,
            >::PeerPlacementChanged { peer_id, placement }),
            _ => event is ShutdownAccepted,
        },
        AgentReply::Changed(Err(error)) => tells_error(event, error),
        AgentReply::Queued(Ok(transfer_id)) => event == (AgentEvent::<Snapshot>::TransferQueued {
            transfer_id,
        }),
        AgentReply::Queued(Err(error)) => tells_error(event, error),
        AgentReply::Listing(Ok(listing)) => event == AgentEvent::<Snapshot>::Transfers(listing),
        AgentReply::Listing(Err(error)) => tells_error(event, error),
        AgentReply::Update(Ok(snapshot)) => event == AgentEvent::UpdateStatus(snapshot),
        AgentReply::Update(Err((error, words))) => event matches AgentEvent::Error {
            code,
            message,
        } && code@ == update_code(error) && message == words,
    }
}

/// Answers a command, given what the agent did.
pub fn answer_command<Snapshot>(command: UiCommand, reply: AgentReply<Snapshot>) -> (event: AgentEvent<
    Snapshot,
>)
    requires
        reply_fits(command, reply),
    ensures
        answers(command, reply, event),
{
    match reply {
        AgentReply::Status(Ok(status)) => AgentEvent::Status(status),
        AgentReply::Status(Err(error)) => agent_error_event(error),
        AgentReply::Permission(Ok(status)) => AgentEvent::Status(status),
        AgentReply::Permission(Err(error)) => readiness_error_event(error),
        AgentReply::Peers(peers) => AgentEvent::TrustedPeers { peers },
        AgentReply::Pairing(Ok(started)) => AgentEvent::PairingCode {
            pairing_id: started.pairing_id,
            peer_name: started.peer_name,
            code: started.code,
        },
        AgentReply::Pairing(Err(error)) => agent_error_event(error),
        AgentReply::Confirmed(Ok(outcome)) => {
            if let (UiCommand::ConfirmPairing { pairing_id, .. }, PairingOutcome::Finished(paired)) = (
                command,
                outcome,
            ) {
                return AgentEvent::PairingFinished { pairing_id, paired };
            }
            AgentEvent::Error {
                code: "pairing_failed".to_owned(),
                message: "pairing did not complete".to_owned(),
            }
        },
        AgentReply::Confirmed(Err(error)) => agent_error_event(error),
        AgentReply::Changed(Ok(())) => match command {
            UiCommand::SetCapability { peer_id, capability, enabled } => {
                AgentEvent::CapabilityChanged { peer_id, capability, enabled }
            },
            UiCommand::SetPeerPlacement { peer_id, placement } => {
                AgentEvent::PeerPlacementChanged { peer_id, placement }
            },
            _ => AgentEvent::ShutdownAccepted,
        },
        AgentReply::Changed(Err(error)) => agent_error_event(error),
        AgentReply::Queued(Ok(transfer_id)) => AgentEvent::TransferQueued { transfer_id },
        AgentReply::Queued(Err(error)) => agent_error_event(error),
        AgentReply::Listing(Ok(listing)) => AgentEvent::Transfers(listing),
        AgentReply::Listing(Err(error)) => agent_error_event(error),
        AgentReply::Update(Ok(snapshot)) => AgentEvent::UpdateStatus(snapshot),
        AgentReply::Update(Err((error, message))) => update_error_event(error, message),
    }
}

/// The agent shuts down only when it was told to, and could prepare for it.
pub proof fn law_shutdown_is_asked_for<Snapshot>(
    command: UiCommand,
    reply: AgentReply<Snapshot>,
    event: AgentEvent<Snapshot>,
)
    requires
        reply_fits(command, reply),
        answers(command, reply, event),
        event is ShutdownAccepted,
    ensures
        command is Shutdown,
{
}

/// Each command asks for the call of its kind. An endpoint that names a known peer
/// is a reconnection; any other one is a pairing, which grants exactly what was
/// named.
pub proof fn law_commands_ask_for_their_call(command: UiCommand, call: AgentCall)
    requires
        asks_for(command, call),
    ensures
        command is GetStatus <==> call is RefreshReadiness,
        command is RequestAccessibilityPermission <==> call is RequestPermission,
        command is ListTrustedPeers <==> call is ListPeers,
        command is ConfirmPairing <==> call is ConfirmPairing,
        command is SetPeerPlacement <==> call is SetPlacement,
        command is RevokePeer <==> call is RevokePeer,
        command is SendFiles <==> call is SendFiles,
        command is ListTransfers <==> call is ListTransfers,
        command is CancelTransfer <==> call is CancelTransfer,
        command is RequestRemoteFocus <==> call is RequestFocus,
        command is ReleaseFocus <==> call is ReleaseFocus,
        command is LocalLocked <==> call == AgentCall::Stop(SessionStop::Locked),
        command is LocalSleeping <==> call == AgentCall::Stop(SessionStop::Sleeping),
        command is EmergencyStop <==> call == AgentCall::Stop(SessionStop::Emergency),
        command is GetUpdateStatus <==> call is UpdateStatus,
        command is CheckForUpdate <==> call is CheckForUpdate,
        command is DecideUpdate <==> call is DecideUpdate,
        command is Shutdown <==> call is PrepareExit,
        command matches UiCommand::SetCapability { capability, .. } ==> (call matches
            AgentCall::SetCapability(named) && named == trusted_capability(capability)),
        command matches UiCommand::BeginPairing { endpoint, capabilities } ==> {
            let known = "reconnect:"@.is_prefix_of(endpoint@) || "reconnect-listen:"@.is_prefix_of(
                endpoint@,
            );
            &&& known ==> call is Reconnect
            &&& !known ==> (call matches AgentCall::BeginPairing(grants) && (grants.remote_input
                <==> capabilities@.contains(CapabilityName::Input)) && (grants.clipboard_read
                <==> capabilities@.contains(CapabilityName::ClipboardRead)) && (
            grants.clipboard_write <==> capabilities@.contains(CapabilityName::ClipboardWrite)) && (
            grants.file_transfer <==> capabilities@.contains(CapabilityName::Files)))
        },
        call is Reconnect || call is BeginPairing ==> command is BeginPairing,
        call is SetCapability ==> command is SetCapability,
{
}

/// The code of a failure, letter by letter.
pub proof fn law_failures_have_their_codes(error: AgentError)
    ensures
        error is Busy ==> error_code_text(error) == "busy"@,
        error is InvalidEndpoint ==> error_code_text(error) == "invalid_endpoint"@,
        error is DiscoveryUnavailable ==> error_code_text(error) == "discovery_unavailable"@,
        error is PairingTimedOut ==> error_code_text(error) == "pairing_timed_out"@,
        error is ReconnectFailed ==> error_code_text(error) == "reconnect_failed"@,
        error is PairingNotFound ==> error_code_text(error) == "pairing_not_found"@,
        error is AlreadyConfirmed ==> error_code_text(error) == "already_confirmed"@,
        error is PeerNotFound ==> error_code_text(error) == "peer_not_found"@,
        error is Storage ==> error_code_text(error) == "storage_unavailable"@,
        error is GrantEpochExhausted ==> error_code_text(error) == "grant_epoch_exhausted"@,
        error is ReceiveDestinationUnavailable ==> error_code_text(error)
            == "receive_destination_unavailable"@,
        error is PlacementApplyFailed ==> error_code_text(error) == "placement_apply_failed"@,
        error is PairingFailed ==> error_code_text(error) == "pairing_failed"@,
        error is NotConnected ==> error_code_text(error) == "not_connected"@,
        error is FocusRejected ==> error_code_text(error) == "focus_rejected"@,
        error is SafetyRecoveryFailed ==> error_code_text(error) == "safety_recovery_failed"@,
        error is TransferFailed ==> error_code_text(error) == "transfer_failed"@,
        error is TransferNotFound ==> error_code_text(error) == "transfer_not_found"@,
        error is TransferNotCancellable ==> error_code_text(error) == "transfer_not_cancellable"@,
{
}

/// The words of a failure, letter by letter.
pub proof fn law_failures_have_their_words(error: AgentError)
    ensures
        error is Busy ==> error_words(error) == "another pairing or peer session is already active"@,
        error is InvalidEndpoint ==> error_words(error) == "the manual or mDNS endpoint is invalid"@,
        error is DiscoveryUnavailable ==> error_words(error)
            == "no matching mDNS advertisement was found"@,
        error is PairingTimedOut ==> error_words(error)
            == "the peer did not connect before the pairing deadline"@,
        error is PairingFailed ==> error_words(error) == "the pairing protocol failed"@,
        error is ReconnectFailed ==> error_words(error)
            == "pinned peer authentication or reconnect failed"@,
        error is PairingNotFound ==> error_words(error)
            == "the requested pairing transaction does not exist"@,
        error is AlreadyConfirmed ==> error_words(error)
            == "the pairing transaction was already confirmed"@,
        error is PeerNotFound ==> error_words(error)
            == "the trusted peer does not exist or is already revoked"@,
        error is Storage ==> error_words(error) == "development trust storage failed"@,
        error is GrantEpochExhausted ==> error_words(error)
            == "the local capability grant epoch is exhausted"@,
        error is NotConnected ==> error_words(error)
            == "no authenticated peer session is connected"@,
        error is FocusRejected ==> error_words(error)
            == "the focus request is not authorized or valid"@,
        error is SafetyRecoveryFailed ==> error_words(error)
            == "local input release and ownership restore did not complete"@,
        error is TransferFailed ==> error_words(error)
            == "the selected file transfer could not be prepared or queued"@,
        error is TransferNotFound ==> error_words(error) == "the local transfer does not exist"@,
        error is TransferNotCancellable ==> error_words(error)
            == "the local transfer cannot be cancelled"@,
        error is ReceiveDestinationUnavailable ==> error_words(error)
            == "the fixed receive destination is unavailable"@,
        error is PlacementApplyFailed ==> error_words(error)
            == "the peer placement could not be applied"@,
{
}

/// The codes of the other refusals, letter by letter.
pub proof fn law_refusals_have_their_codes(readiness: ReadinessRequestError, update: CoordinatorError)
    ensures
        readiness is UnsupportedPlatform ==> readiness_code(readiness) == "unsupported_platform"@
            && readiness_words(readiness)
            == "accessibility permission requests are unsupported on this platform"@,
        readiness is ProbeUnavailable ==> readiness_code(readiness) == "readiness_unavailable"@
            && readiness_words(readiness)
            == "the bounded platform readiness probe did not complete"@,
        update is NotConfigured ==> update_code(update) == "update_not_configured"@,
        update is Busy ==> update_code(update) == "update_busy"@,
        update is OfferMismatch ==> update_code(update) == "update_offer_mismatch"@,
        update is InvalidTransition ==> update_code(update) == "update_invalid_transition"@,
        update is Internal ==> update_code(update) == "update_internal"@,
{
}

/// What the agent did is told as it is, and of whom the command spoke; what failed
/// is told with its code and its words, and as nothing else.
pub proof fn law_answers_tell_what_was_done<Snapshot>(
    command: UiCommand,
    reply: AgentReply<Snapshot>,
    event: AgentEvent<Snapshot>,
)
    requires
        reply_fits(command, reply),
        answers(command, reply, event),
    ensures
        ({
            let failure = match reply {
                AgentReply::Status(Err(error)) => Some(error),
                AgentReply::Pairing(Err(error)) => Some(error),
                AgentReply::Confirmed(Err(error)) => Some(error),
                AgentReply::Changed(Err(error)) => Some(error),
                AgentReply::Queued(Err(error)) => Some(error),
                AgentReply::Listing(Err(error)) => Some(error),
                _ => None,
            };
            failure matches Some(error) ==> (event matches AgentEvent::Error { code, message }
                && code@ == error_code_text(error) && message@ == error_words(error))
        }),
        reply matches AgentReply::Status(Ok(status)) ==> event == AgentEvent::<Snapshot>::Status(
            status,
        ),
        reply matches AgentReply::Permission(Ok(status)) ==> event
            == AgentEvent::<Snapshot>::Status(status),
        reply matches AgentReply::Permission(Err(error)) ==> (event matches AgentEvent::Error {
            code,
            message,
        } && code@ == readiness_code(error) && message@ == readiness_words(error)),
        reply matches AgentReply::Peers(peers) ==> event == (
        AgentEvent::<Snapshot>::TrustedPeers { peers }),
        reply matches AgentReply::Pairing(Ok(started)) ==> (event matches AgentEvent::PairingCode {
            pairing_id,
            peer_name,
            code,
        } && pairing_id == started.pairing_id && peer_name == started.peer_name && code
            == started.code),
        reply matches AgentReply::Confirmed(Ok(PairingOutcome::Finished(done))) ==> (event matches
            AgentEvent::PairingFinished { pairing_id: told, paired } && paired == done && (command
            matches UiCommand::ConfirmPairing { pairing_id, .. } && told == pairing_id)),
        command matches UiCommand::SetCapability { peer_id: peer, capability: named, enabled: on }
            ==> (reply matches AgentReply::Changed(Ok(_)) ==> (event matches
            AgentEvent::CapabilityChanged { peer_id, capability, enabled } && peer_id == peer
            && capability == named && enabled == on)),
        command matches UiCommand::SetPeerPlacement { peer_id: peer, placement: side } ==> (reply
            matches AgentReply::Changed(Ok(_)) ==> (event matches AgentEvent::PeerPlacementChanged {
            peer_id,
            placement,
        } && peer_id == peer && placement == side)),
        command is Shutdown ==> (reply matches AgentReply::Changed(Ok(_)) ==> event
            is ShutdownAccepted),
        reply matches AgentReply::Queued(Ok(id)) ==> (event matches AgentEvent::TransferQueued {
            transfer_id,
        } && transfer_id == id),
        reply matches AgentReply::Listing(Ok(listing)) ==> event
            == AgentEvent::<Snapshot>::Transfers(listing),
        reply matches AgentReply::Update(Ok(snapshot)) ==> event == AgentEvent::UpdateStatus(
            snapshot,
        ),
        reply matches AgentReply::Update(Err((error, words))) ==> (event matches AgentEvent::Error {
            code,
            message,
        } && code@ == update_code(error) && message == words),
{
}

/// A reply belongs to its command: of what kind it is follows from that.
pub proof fn law_replies_belong_to_their_command<Snapshot>(
    command: UiCommand,
    reply: AgentReply<Snapshot>,
)
    ensures
        reply is Permission ==> (reply_fits(command, reply) <==> command
            is RequestAccessibilityPermission),
        reply is Peers ==> (reply_fits(command, reply) <==> command is ListTrustedPeers),
        reply is Confirmed ==> (reply_fits(command, reply) <==> command is ConfirmPairing),
        reply is Changed ==> (reply_fits(command, reply) <==> command is SetCapability || command
            is SetPeerPlacement || command is Shutdown),
        reply is Queued ==> (reply_fits(command, reply) <==> command is SendFiles),
        reply matches AgentReply::Listing(Err(_)) ==> (reply_fits(command, reply) <==> command
            is CancelTransfer),
        reply matches AgentReply::Listing(Ok(_)) ==> (reply_fits(command, reply) <==> command
            is CancelTransfer || command is ListTransfers),
        reply matches AgentReply::Update(Ok(_)) ==> (reply_fits(command, reply) <==> command
            is GetUpdateStatus || command is CheckForUpdate || command is DecideUpdate),
        reply matches AgentReply::Update(Err(_)) ==> (reply_fits(command, reply) <==> command
            is CheckForUpdate || command is DecideUpdate),
        reply is Pairing && reply_fits(command, reply) ==> command is BeginPairing,
        reply is Status && (command is RevokePeer || command is RequestRemoteFocus || command
            is ReleaseFocus || command is LocalLocked || command is LocalSleeping || command
            is EmergencyStop) ==> reply_fits(command, reply),
{
}

} // verus!
