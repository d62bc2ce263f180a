use nodavo_agent::agent_commands::{
    agent_error_event, answer_command, error_code, error_message, readiness_error_event,
    route_command, update_error_event, AgentCall, AgentEvent, AgentReply, CoordinatorError,
    PairingStarted, UiCommand,
};
use nodavo_agent::agent_core::PairingOutcome;
use nodavo_agent::agent_status::AgentStatus;
use nodavo_agent::grants::Capability;
use nodavo_agent::local_ipc::{
    close_result, message_size_valid, CloseSight, ExchangeAction, ExchangeOutcome, ExchangeRun,
    IpcError,
};
use nodavo_agent::peer_book::{CapabilityName, TrustedCapability};
use nodavo_agent::platform_readiness::ReadinessRequestError;
use nodavo_agent::routes::PeerPlacement;
use nodavo_agent::runtime::AgentError;
use nodavo_agent::safety_stop::SessionStop;

/// A connection that holds some frames, and a peer that is refused at one gate.
struct Connection {
    frames: usize,
    calls: usize,
    reject_at: usize,
    dispatches: usize,
}

impl Connection {
    fn exchange(&mut self) -> Result<(), IpcError> {
        let (mut run, mut action) = ExchangeRun::begin();
        loop {
            let outcome = match action {
                ExchangeAction::Authorize => {
                    self.calls += 1;
                    ExchangeOutcome::Authorized(self.calls != self.reject_at)
                }
                ExchangeAction::ReadCommand => {
                    let read = self.frames > 0;
                    self.frames = self.frames.saturating_sub(1);
                    ExchangeOutcome::Read(read)
                }
                ExchangeAction::Dispatch => {
                    self.dispatches += 1;
                    ExchangeOutcome::Dispatched
                }
                ExchangeAction::WriteEvent => ExchangeOutcome::Written(true),
                ExchangeAction::AwaitClose => ExchangeOutcome::Close(if self.frames > 0 {
                    CloseSight::Data
                } else {
                    CloseSight::Closed
                }),
                ExchangeAction::End(result) => return result,
            };
            action = run.advance(outcome);
        }
    }
}

fn connection(frames: usize, reject_at: usize) -> Connection {
    Connection {
        frames,
        calls: 0,
        reject_at,
        dispatches: 0,
    }
}

#[test]
fn receive_destination_pairing_failure_has_exact_content_free_ipc_error() {
    let event: AgentEvent<()> = agent_error_event(AgentError::ReceiveDestinationUnavailable);
    let AgentEvent::Error { code, message } = event else {
        panic!("receive destination failure must remain a public error")
    };
    assert_eq!(code, "receive_destination_unavailable");
    assert_eq!(message, "the fixed receive destination is unavailable");
    assert!(!message.contains('/') && !message.contains('\\'));
}

#[test]
fn post_decode_gate_rejects_before_command_can_be_dispatched() {
    let mut connection = connection(1, 2);
    assert_eq!(connection.exchange(), Err(IpcError::PermissionDenied));
    assert_eq!(connection.calls, 2);
    assert_eq!(connection.frames, 0);
    assert_eq!(connection.dispatches, 0);
}

#[test]
fn pre_read_gate_runs_before_untrusted_frame_decoding() {
    let mut connection = connection(1, 1);
    assert_eq!(connection.exchange(), Err(IpcError::PermissionDenied));
    assert_eq!(connection.calls, 1);
    assert_eq!(connection.frames, 1);
}

#[test]
fn framed_connection_services_exactly_one_exchange() {
    let mut connection = connection(1, usize::MAX);
    assert_eq!(connection.exchange(), Ok(()));
    assert_eq!(connection.dispatches, 1);
    assert_eq!(connection.calls, 2);
}

#[test]
fn framed_connection_rejects_a_second_queued_request() {
    let mut connection = connection(2, usize::MAX);
    assert_eq!(connection.exchange(), Err(IpcError::SecondRequest));
    assert_eq!(connection.dispatches, 1);
    assert_eq!(connection.calls, 2);
}

#[test]
fn unreadable_frames_end_the_exchange() {
    let mut connection = connection(0, usize::MAX);
    assert_eq!(connection.exchange(), Err(IpcError::Frame));
    assert_eq!(connection.dispatches, 0);
    assert_eq!(close_result(CloseSight::Broken), Ok(()));
    assert_eq!(
        close_result(CloseSight::TimedOut),
        Err(IpcError::CloseTimedOut)
    );
    assert_eq!(
        close_result(CloseSight::OtherError),
        Err(IpcError::CloseFailed)
    );
    assert!(message_size_valid(1, 10));
    assert!(!message_size_valid(0, 10));
    assert!(!message_size_valid(11, 10));
}

#[test]
fn commands_are_routed_by_what_they_ask() {
    assert_eq!(
        route_command(&UiCommand::GetStatus),
        AgentCall::RefreshReadiness
    );
    assert_eq!(
        route_command(&UiCommand::BeginPairing {
            endpoint: "reconnect:abc".to_owned(),
            capabilities: Vec::new(),
        }),
        AgentCall::Reconnect
    );
    assert_eq!(
        route_command(&UiCommand::BeginPairing {
            endpoint: "listen".to_owned(),
            capabilities: vec![CapabilityName::Files, CapabilityName::Input],
        }),
        AgentCall::BeginPairing(Capability {
            remote_input: true,
            clipboard_read: false,
            clipboard_write: false,
            file_transfer: true,
        })
    );
    assert_eq!(
        route_command(&UiCommand::SetCapability {
            peer_id: "p".to_owned(),
            capability: CapabilityName::ClipboardWrite,
            enabled: true,
        }),
        AgentCall::SetCapability(TrustedCapability::ClipboardWrite)
    );
    assert_eq!(
        route_command(&UiCommand::LocalSleeping),
        AgentCall::Stop(SessionStop::Sleeping)
    );
    assert_eq!(route_command(&UiCommand::Shutdown), AgentCall::PrepareExit);
}

#[test]
fn replies_become_events() {
    let status = AgentStatus::new();
    let event: AgentEvent<u8> =
        answer_command(UiCommand::GetStatus, AgentReply::Status(Ok(status)));
    assert!(matches!(event, AgentEvent::Status(told) if told == status));

    let event: AgentEvent<u8> = answer_command(
        UiCommand::BeginPairing {
            endpoint: "listen".to_owned(),
            capabilities: Vec::new(),
        },
        AgentReply::Pairing(Ok(PairingStarted {
            pairing_id: "id".to_owned(),
            peer_name: "peer".to_owned(),
            code: "123".to_owned(),
        })),
    );
    assert!(matches!(event, AgentEvent::PairingCode { code, .. } if code == "123"));

    let confirm = || UiCommand::ConfirmPairing {
        pairing_id: "id".to_owned(),
        accepted: true,
    };
    let event: AgentEvent<u8> = answer_command(
        confirm(),
        AgentReply::Confirmed(Ok(PairingOutcome::Finished(true))),
    );
    assert!(
        matches!(event, AgentEvent::PairingFinished { pairing_id, paired: true } if pairing_id == "id")
    );
    let event: AgentEvent<u8> = answer_command(
        confirm(),
        AgentReply::Confirmed(Ok(PairingOutcome::Failed)),
    );
    assert!(
        matches!(event, AgentEvent::Error { message, .. } if message == "pairing did not complete")
    );

    let event: AgentEvent<u8> = answer_command(
        UiCommand::SetPeerPlacement {
            peer_id: "p".to_owned(),
            placement: PeerPlacement::Left,
        },
        AgentReply::Changed(Ok(())),
    );
    assert!(matches!(
        event,
        AgentEvent::PeerPlacementChanged {
            placement: PeerPlacement::Left,
            ..
        }
    ));
    let event: AgentEvent<u8> =
        answer_command(UiCommand::Shutdown, AgentReply::Changed(Ok(())));
    assert!(matches!(event, AgentEvent::ShutdownAccepted));
    let event: AgentEvent<u8> = answer_command(
        UiCommand::Shutdown,
        AgentReply::Changed(Err(AgentError::SafetyRecoveryFailed)),
    );
    assert!(matches!(event, AgentEvent::Error { code, .. } if code == "safety_recovery_failed"));
    let event: AgentEvent<u8> =
        answer_command(UiCommand::CheckForUpdate, AgentReply::Update(Ok(5)));
    assert!(matches!(event, AgentEvent::UpdateStatus(5)));
}

#[test]
fn every_failure_has_its_code_and_words() {
    let table = [
        (
            AgentError::Busy,
            "busy",
            "another pairing or peer session is already active",
        ),
        (
            AgentError::InvalidEndpoint,
            "invalid_endpoint",
            "the manual or mDNS endpoint is invalid",
        ),
        (
            AgentError::DiscoveryUnavailable,
            "discovery_unavailable",
            "no matching mDNS advertisement was found",
        ),
        (
            AgentError::PairingTimedOut,
            "pairing_timed_out",
            "the peer did not connect before the pairing deadline",
        ),
        (
            AgentError::PairingFailed,
            "pairing_failed",
            "the pairing protocol failed",
        ),
        (
            AgentError::ReconnectFailed,
            "reconnect_failed",
            "pinned peer authentication or reconnect failed",
        ),
        (
            AgentError::PairingNotFound,
            "pairing_not_found",
            "the requested pairing transaction does not exist",
        ),
        (
            AgentError::AlreadyConfirmed,
            "already_confirmed",
            "the pairing transaction was already confirmed",
        ),
        (
            AgentError::PeerNotFound,
            "peer_not_found",
            "the trusted peer does not exist or is already revoked",
        ),
        (
            AgentError::Storage,
            "storage_unavailable",
            "development trust storage failed",
        ),
        (
            AgentError::GrantEpochExhausted,
            "grant_epoch_exhausted",
            "the local capability grant epoch is exhausted",
        ),
        (
            AgentError::NotConnected,
            "not_connected",
            "no authenticated peer session is connected",
        ),
        (
            AgentError::FocusRejected,
            "focus_rejected",
            "the focus request is not authorized or valid",
        ),
        (
            AgentError::SafetyRecoveryFailed,
            "safety_recovery_failed",
            "local input release and ownership restore did not complete",
        ),
        (
            AgentError::TransferFailed,
            "transfer_failed",
            "the selected file transfer could not be prepared or queued",
        ),
        (
            AgentError::TransferNotFound,
            "transfer_not_found",
            "the local transfer does not exist",
        ),
        (
            AgentError::TransferNotCancellable,
            "transfer_not_cancellable",
            "the local transfer cannot be cancelled",
        ),
    ];
    for (error, code, message) in table {
        assert_eq!(error_code(error), code);
        assert_eq!(error_message(error), message);
    }
    assert_eq!(
        error_code(AgentError::PlacementApplyFailed),
        "placement_apply_failed"
    );
    let event: AgentEvent<()> = readiness_error_event(ReadinessRequestError::ProbeUnavailable);
    assert!(matches!(event, AgentEvent::Error { code, .. } if code == "readiness_unavailable"));
    let event: AgentEvent<()> =
        update_error_event(CoordinatorError::OfferMismatch, "words".to_owned());
    assert!(
        matches!(event, AgentEvent::Error { code, message } if code == "update_offer_mismatch" && message == "words")
    );
}
