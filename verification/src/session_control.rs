//! What a session does with messages, input, commands and time: each is turned
//! into events for the reducer, or into a verdict.

use vstd::prelude::*;
use crate::clipboard_runtime::ClipboardRuntimeError;
use crate::displays::DisplayTopology;
use crate::grants::{is_next_epoch, is_single_capability, Capability};
use crate::identifiers::DeviceId;
use crate::input::{
    decode_event,
    decoded_payload,
    restricted_payload,
    DecodedInput,
    InputEvent,
    InputMessage,
};
use crate::native_bridge::PlatformSafetyEvent;
use crate::session_core::{effects_rejected, CoreEvent, Effect, FocusState};
use crate::session_model::{
    later,
    saturating_add,
    CoreView,
    PeerSession,
    SessionConfig,
    SessionModel,
    DEFAULT_LEASE_TTL_MS,
    MAX_LEASE_TTL_MS,
    MIN_LEASE_TTL_MS,
};
use crate::session_safety::SessionRuntimeError;
use crate::session_wire::{Channels, CloseReason, ControlMessage, TransportEvent};
use crate::topology_runtime::{PeerTopologyModel, PointerSample, PointerStep};
use crate::transfer_runtime::{TransferError, TransferRuntimeError};
use crate::transfer_worker::TransferStopMode;

verus! {

/// Messages that are handled before a refresh of the displays is looked at.
pub open spec fn urgent(message: ControlMessage) -> bool {
    message is CapabilityGrant || message is CapabilityRevoke || message is SessionClose
        || message is EmergencyDisconnect
}

/// Whether a pending refresh of the displays goes before this message.
pub fn control_preflight(message: &ControlMessage) -> (preflight: bool)
    ensures
        preflight == !urgent(*message),
{
    match message {
        ControlMessage::CapabilityGrant { .. }
        | ControlMessage::CapabilityRevoke { .. }
        | ControlMessage::SessionClose { .. }
        | ControlMessage::EmergencyDisconnect { .. } => false,
        _ => true,
    }
}

/// What a control message leads to.
#[derive(Clone, Copy, Debug, PartialEq, Eq, Structural)]
pub enum ControlStep {
    /// The peer changes what it grants; the session ends after that.
    PeerGrant { peer: DeviceId, capability: Capability, epoch: u64, enabled: bool },
    /// Tell the reducer.
    Reduce { event: CoreEvent, ends: bool },
    /// Tell the reducer, then `focus_granted`.
    FocusGranted { event: CoreEvent },
    /// Tell the reducer, then `topology_received`.
    TopologyReceived { event: CoreEvent, revision: u64 },
    /// Tell the reducer, carry its effects out, then drive the refresh.
    TopologyAcknowledged { event: CoreEvent },
    Reply { message: ControlMessage },
    Ignore,
}

impl SessionModel {
    /// What a control message leads to at `now`.
    pub open spec fn control_step(self, message: ControlMessage, focus: FocusState, now: u64) -> Result<
        ControlStep,
        SessionRuntimeError,
    > {
        match message {
            ControlMessage::CapabilityGrant { peer, capabilities, epoch } => Ok(
                ControlStep::PeerGrant { peer, capability: capabilities, epoch, enabled: true },
            ),
            ControlMessage::CapabilityRevoke { peer, capabilities, epoch } => Ok(
                ControlStep::PeerGrant { peer, capability: capabilities, epoch, enabled: false },
            ),
            ControlMessage::FocusLeaseRequest { meta, lease_id, ttl_ms, pointer_enter_required } => {
                Ok(
                    ControlStep::Reduce {
                        event: CoreEvent::RemoteFocusRequested {
                            meta,
                            lease_id,
                            expires_at: later(now, ttl_ms as u64),
                            pointer_enter_required,
                        },
                        ends: false,
                    },
                )
            },
            ControlMessage::FocusLeaseGrant { meta, lease_id, ttl_ms, pointer_enter_required } => {
                let expires_at = later(now, ttl_ms as u64);
                Ok(
                    ControlStep::FocusGranted {
                        event: if focus is RequestingRemote {
                            CoreEvent::RemoteFocusGranted {
                                meta,
                                lease_id,
                                expires_at,
                                pointer_enter_required,
                            }
                        } else {
                            CoreEvent::RemoteLeaseRenewed {
                                meta,
                                lease_id,
                                expires_at,
                                pointer_enter_required,
                            }
                        },
                    },
                )
            },
            ControlMessage::FocusLeaseRelease { meta, lease_id } => Ok(
                ControlStep::Reduce {
                    event: CoreEvent::RemoteFocusReleased { meta, lease_id },
                    ends: false,
                },
            ),
            ControlMessage::DisplayTopology { meta, revision } => Ok(
                ControlStep::TopologyReceived {
                    event: CoreEvent::RemoteTopologyReceived { meta, revision },
                    revision,
                },
            ),
            ControlMessage::DisplayTopologyAck { meta, revision } => Ok(
                if self.topology_initialized {
                    ControlStep::TopologyAcknowledged {
                        event: CoreEvent::RemoteTopologyAcknowledged { meta, revision },
                    }
                } else {
                    ControlStep::Reduce {
                        event: CoreEvent::RemoteTopologyAcknowledged { meta, revision },
                        ends: false,
                    }
                },
            ),
            ControlMessage::PointerEnterAck { meta, lease_id } => Ok(
                ControlStep::Reduce {
                    event: CoreEvent::RemotePointerEnterAcknowledged { meta, lease_id },
                    ends: false,
                },
            ),
            ControlMessage::Ping { nonce } => Ok(
                ControlStep::Reply { message: ControlMessage::Pong { nonce } },
            ),
            ControlMessage::Pong { .. } | ControlMessage::Error => Ok(ControlStep::Ignore),
            ControlMessage::SessionClose { session_id } => if session_id == self.session_id {
                Ok(ControlStep::Reduce { event: CoreEvent::ReconnectRequested, ends: true })
            } else {
                Err(SessionRuntimeError::ProtocolViolation)
            },
            ControlMessage::EmergencyDisconnect { session_id } => if session_id == self.session_id {
                Ok(ControlStep::Reduce { event: CoreEvent::LocalEmergencyStop, ends: true })
            } else {
                Err(SessionRuntimeError::ProtocolViolation)
            },
            ControlMessage::Hello { .. }
            | ControlMessage::SessionOpen { .. }
            | ControlMessage::Other => Err(SessionRuntimeError::ProtocolViolation),
        }
    }

    /// A lease that is granted outside a request renews one.
    pub open spec fn after_control(self, message: ControlMessage, focus: FocusState) -> SessionModel {
        if message is FocusLeaseGrant && !(focus is RequestingRemote) {
            SessionModel { renewal_pending: false, ..self }
        } else {
            self
        }
    }
}

/// The reducer took the remote displays of this revision.
pub open spec fn accepts_topology(effects: Seq<Effect>, revision: u64) -> bool {
    exists|i: int|
        0 <= i < effects.len() && #[trigger] effects[i] == (Effect::AcceptRemoteTopology {
            revision,
        })
}

pub open spec fn rejects(effects: Seq<Effect>) -> bool {
    exists|i: int| 0 <= i < effects.len() && #[trigger] effects[i] is Rejected
}

impl PeerSession {
    /// Says what a control message leads to.
    pub fn handle_control(&mut self, message: &ControlMessage, focus: FocusState, now: u64) -> (step:
        Result<ControlStep, SessionRuntimeError>)
        ensures
            step == old(self)@.control_step(*message, focus, now),
            final(self)@ == old(self)@.after_control(*message, focus),
    {
        let session_id = self.session_id();
        match message {
            ControlMessage::CapabilityGrant { peer, capabilities, epoch } => Ok(
                ControlStep::PeerGrant {
                    peer: *peer,
                    capability: *capabilities,
                    epoch: *epoch,
                    enabled: true,
                },
            ),
            ControlMessage::CapabilityRevoke { peer, capabilities, epoch } => Ok(
                ControlStep::PeerGrant {
                    peer: *peer,
                    capability: *capabilities,
                    epoch: *epoch,
                    enabled: false,
                },
            ),
            ControlMessage::FocusLeaseRequest { meta, lease_id, ttl_ms, pointer_enter_required } => {
                let expires_at: u64 = saturating_add(now, *ttl_ms as u64);
                Ok(
                    ControlStep::Reduce {
                        event: CoreEvent::RemoteFocusRequested {
                            meta: *meta,
                            lease_id: *lease_id,
                            expires_at,
                            pointer_enter_required: *pointer_enter_required,
                        },
                        ends: false,
                    },
                )
            },
            ControlMessage::FocusLeaseGrant { meta, lease_id, ttl_ms, pointer_enter_required } => {
                let expires_at: u64 = saturating_add(now, *ttl_ms as u64);
                match focus {
                    FocusState::RequestingRemote { .. } => Ok(
                        ControlStep::FocusGranted {
                            event: CoreEvent::RemoteFocusGranted {
                                meta: *meta,
                                lease_id: *lease_id,
                                expires_at,
                                pointer_enter_required: *pointer_enter_required,
                            },
                        },
                    ),
                    _ => {
                        self.set_renewal_pending(false);
                        Ok(
                            ControlStep::FocusGranted {
                                event: CoreEvent::RemoteLeaseRenewed {
                                    meta: *meta,
                                    lease_id: *lease_id,
                                    expires_at,
                                    pointer_enter_required: *pointer_enter_required,
                                },
                            },
                        )
                    },
                }
            },
            ControlMessage::FocusLeaseRelease { meta, lease_id } => Ok(
                ControlStep::Reduce {
                    event: CoreEvent::RemoteFocusReleased { meta: *meta, lease_id: *lease_id },
                    ends: false,
                },
            ),
            ControlMessage::DisplayTopology { meta, revision } => Ok(
                ControlStep::TopologyReceived {
                    event: CoreEvent::RemoteTopologyReceived { meta: *meta, revision: *revision },
                    revision: *revision,
                },
            ),
            ControlMessage::DisplayTopologyAck { meta, revision } => {
                let event = CoreEvent::RemoteTopologyAcknowledged {
                    meta: *meta,
                    revision: *revision,
                };
                if self.is_initialized() {
                    Ok(ControlStep::TopologyAcknowledged { event })
                } else {
                    Ok(ControlStep::Reduce { event, ends: false })
                }
            },
            ControlMessage::PointerEnterAck { meta, lease_id } => Ok(
                ControlStep::Reduce {
                    event: CoreEvent::RemotePointerEnterAcknowledged {
                        meta: *meta,
                        lease_id: *lease_id,
                    },
                    ends: false,
                },
            ),
            ControlMessage::Ping { nonce } => Ok(
                ControlStep::Reply { message: ControlMessage::Pong { nonce: *nonce } },
            ),
            ControlMessage::Pong { .. } | ControlMessage::Error => Ok(ControlStep::Ignore),
            ControlMessage::SessionClose { session_id: meant } => if *meant == session_id {
                Ok(ControlStep::Reduce { event: CoreEvent::ReconnectRequested, ends: true })
            } else {
                Err(SessionRuntimeError::ProtocolViolation)
            },
            ControlMessage::EmergencyDisconnect { session_id: meant } => if *meant == session_id {
                Ok(ControlStep::Reduce { event: CoreEvent::LocalEmergencyStop, ends: true })
            } else {
                Err(SessionRuntimeError::ProtocolViolation)
            },
            ControlMessage::Hello { .. }
            | ControlMessage::SessionOpen { .. }
            | ControlMessage::Other => Err(SessionRuntimeError::ProtocolViolation),
        }
    }

    /// The reducer has seen a grant of focus. Where this side controls the peer
    /// now and a pointer position was kept, the pointer comes in there.
    pub fn focus_granted(&mut self, effects: &Vec<Effect>, focus: FocusState) -> (entered: Result<
        Option<CoreEvent>,
        SessionRuntimeError,
    >)
        ensures
            if rejects(effects@) || !(focus is ControllingRemote) {
                &&& entered == Ok::<Option<CoreEvent>, SessionRuntimeError>(None)
                &&& final(self)@ == old(self)@
            } else {
                &&& final(self)@ == old(self)@.with_topology(
                    PeerTopologyModel { pending_target: None, ..old(self)@.topology },
                )
                &&& entered == match old(self)@.topology.pending_target {
                    None => Ok(None),
                    Some(InputEvent::PointerMotion { position }) => Ok(
                        Some(CoreEvent::LocalPointerEnter { position }),
                    ),
                    Some(_) => Err(SessionRuntimeError::ProtocolViolation),
                }
            },
    {
        let controlling = match focus {
            FocusState::ControllingRemote { .. } => true,
            _ => false,
        };
        if effects_rejected(effects) || !controlling {
            return Ok(None);
        }
        match self.take_pending_target() {
            None => Ok(None),
            Some(InputEvent::PointerMotion { position }) => Ok(
                Some(CoreEvent::LocalPointerEnter { position }),
            ),
            Some(_) => Err(SessionRuntimeError::ProtocolViolation),
        }
    }

    /// The reducer has seen a remote topology. It is kept only if it was
    /// accepted.
    pub fn topology_received(&mut self, effects: &Vec<Effect>, topology: DisplayTopology)
        ensures
            final(self)@ == if accepts_topology(effects@, topology.revision) {
                old(self)@.with_topology(
                    PeerTopologyModel {
                        staged_remote: Some(topology@),
                        ..old(self)@.topology.disarmed()
                    },
                )
            } else {
                old(self)@
            },
    {
        let revision: u64 = topology.revision;
        let mut at: usize = 0;
        while at < effects.len()
            invariant
                at <= effects@.len(),
                self@ == old(self)@,
                revision == topology.revision,
                forall|i: int|
                    0 <= i < at ==> #[trigger] effects@[i] != (Effect::AcceptRemoteTopology {
                        revision,
                    }),
            decreases effects@.len() - at,
        {
            if let Effect::AcceptRemoteTopology { revision: accepted } = &effects[at] {
                if *accepted == revision {
                    assert(effects@[at as int] == (Effect::AcceptRemoteTopology { revision }));
                    self.stage_remote(topology);
                    return ;
                }
            }
            at = at + 1;
        }
    }
}


/// Where something that came over the connection goes.
#[derive(Clone, Copy, Debug, PartialEq, Eq, Structural)]
pub enum Dispatch {
    Control,
    ReliableInput,
    PointerFallback,
    Clipboard,
    FileManifest,
    FileData,
    Datagram,
    /// The session ends: recover with this event.
    Recover { event: CoreEvent },
    Violation,
}

pub open spec fn dispatch_of(channels: Channels, event: TransportEvent) -> Dispatch {
    match event {
        TransportEvent::ReliableData { channel, .. } => if channel == channels.control {
            Dispatch::Control
        } else if channel == channels.reliable_input {
            Dispatch::ReliableInput
        } else if Some(channel) == channels.pointer_fallback {
            Dispatch::PointerFallback
        } else if channel == channels.clipboard {
            Dispatch::Clipboard
        } else if channel == channels.file_manifest {
            Dispatch::FileManifest
        } else if channel == channels.file_data {
            Dispatch::FileData
        } else {
            Dispatch::Violation
        },
        TransportEvent::Datagram => Dispatch::Datagram,
        TransportEvent::Closed { reason } => Dispatch::Recover {
            event: if reason == CloseReason::EmergencyDisconnect {
                CoreEvent::LocalEmergencyStop
            } else {
                CoreEvent::LinkDisconnected
            },
        },
        TransportEvent::ChannelClosed { channel } => if channels.vital(channel) {
            Dispatch::Recover { event: CoreEvent::LinkDisconnected }
        } else {
            Dispatch::Violation
        },
        TransportEvent::ChannelOpened { .. } | TransportEvent::Other => Dispatch::Violation,
    }
}

/// Says where something that came over the connection goes. `valid` says whether
/// the transport's own rules admit it.
pub fn handle_transport_event(channels: &Channels, event: &TransportEvent, valid: bool) -> (
    dispatch: Result<Dispatch, SessionRuntimeError>)
    ensures
        dispatch == if valid {
            Ok(dispatch_of(*channels, *event))
        } else {
            Err(SessionRuntimeError::ProtocolViolation)
        },
{
    if !valid {
        return Err(SessionRuntimeError::ProtocolViolation);
    }
    Ok(
        match event {
            TransportEvent::ReliableData { channel, .. } => if *channel == channels.control {
                Dispatch::Control
            } else if *channel == channels.reliable_input {
                Dispatch::ReliableInput
            } else if Some(*channel) == channels.pointer_fallback {
                Dispatch::PointerFallback
            } else if *channel == channels.clipboard {
                Dispatch::Clipboard
            } else if *channel == channels.file_manifest {
                Dispatch::FileManifest
            } else if *channel == channels.file_data {
                Dispatch::FileData
            } else {
                Dispatch::Violation
            },
            TransportEvent::Datagram => Dispatch::Datagram,
            TransportEvent::Closed { reason } => Dispatch::Recover {
                event: if *reason == CloseReason::EmergencyDisconnect {
                    CoreEvent::LocalEmergencyStop
                } else {
                    CoreEvent::LinkDisconnected
                },
            },
            TransportEvent::ChannelClosed { channel } => if channels.is_vital(*channel) {
                Dispatch::Recover { event: CoreEvent::LinkDisconnected }
            } else {
                Dispatch::Violation
            },
            TransportEvent::ChannelOpened { .. } | TransportEvent::Other => Dispatch::Violation,
        },
    )
}

/// Whether a pending refresh of the displays goes first. The control channel
/// decides for itself, and the end of the session does not wait.
pub fn dispatch_preflight(dispatch: &Dispatch) -> (preflight: bool)
    ensures
        preflight == !(dispatch is Control || dispatch is Recover),
{
    match dispatch {
        Dispatch::Control | Dispatch::Recover { .. } => false,
        _ => true,
    }
}

/// The event that a message of the peer's input is.
pub open spec fn input_event_of(message: InputMessage, received_at: u64) -> CoreEvent {
    let meta = message.meta;
    let lease_id = message.lease_id;
    match decoded_payload(message.payload) {
        DecodedInput::Event(input) => CoreEvent::RemoteInput { meta, lease_id, received_at, input },
        DecodedInput::PointerEnter(position) => CoreEvent::RemotePointerEnter {
            meta,
            lease_id,
            received_at,
            position,
        },
        DecodedInput::ReleaseAll => CoreEvent::RemoteReleaseAll { meta, lease_id, received_at },
    }
}

/// Reads input of the peer. `message` is missing where the frame held something
/// else.
pub fn handle_input(message: Option<InputMessage>, supported: bool, received_at: u64) -> (event:
    Result<CoreEvent, SessionRuntimeError>)
    ensures
        event == match message {
            None => Err(SessionRuntimeError::ProtocolViolation),
            Some(known) => if restricted_payload(known.payload) && !supported {
                Err(SessionRuntimeError::ProtocolViolation)
            } else {
                Ok(input_event_of(known, received_at))
            },
        },
{
    let known = match message {
        Some(known) => known,
        None => {
            return Err(SessionRuntimeError::ProtocolViolation);
        },
    };
    let meta = known.meta;
    let lease_id: u64 = known.lease_id;
    match decode_event(&known, supported) {
        Err(_) => Err(SessionRuntimeError::ProtocolViolation),
        Ok(DecodedInput::Event(input)) => Ok(
            CoreEvent::RemoteInput { meta, lease_id, received_at, input },
        ),
        Ok(DecodedInput::PointerEnter(position)) => Ok(
            CoreEvent::RemotePointerEnter { meta, lease_id, received_at, position },
        ),
        Ok(DecodedInput::ReleaseAll) => Ok(
            CoreEvent::RemoteReleaseAll { meta, lease_id, received_at },
        ),
    }
}

/// What follows when input of the peer could not be carried out.
#[derive(Clone, Copy, Debug, PartialEq, Eq, Structural)]
pub enum InputFailure {
    /// The displays changed: refresh them, then try again.
    Refresh,
    /// Recover; then fail with this.
    Recover { error: SessionRuntimeError },
}

pub fn input_failed(error: SessionRuntimeError) -> (failure: InputFailure)
    ensures
        failure == if error == SessionRuntimeError::TopologyRefreshRequired {
            InputFailure::Refresh
        } else {
            InputFailure::Recover { error }
        },
{
    if error == SessionRuntimeError::TopologyRefreshRequired {
        InputFailure::Refresh
    } else {
        InputFailure::Recover { error }
    }
}

/// The error that is left after a recovery was tried.
pub fn after_recovery(error: SessionRuntimeError, recovered: bool) -> (left: SessionRuntimeError)
    ensures
        left == if recovered {
            error
        } else {
            SessionRuntimeError::SafetyRecoveryFailed
        },
{
    if recovered {
        error
    } else {
        SessionRuntimeError::SafetyRecoveryFailed
    }
}

/// A lease that this side asks for: its lifetime is held within the limits.
pub fn request_focus(ttl_ms: u32, lease_id: u64, pointer_enter_required: bool, now: u64) -> (event:
    CoreEvent)
    ensures
        event == (CoreEvent::LocalFocusRequested {
            lease_id,
            expires_at: later(now, requested_ttl(ttl_ms) as u64),
            pointer_enter_required,
        }),
{
    let ttl: u32 = if ttl_ms < MIN_LEASE_TTL_MS {
        MIN_LEASE_TTL_MS
    } else if ttl_ms > MAX_LEASE_TTL_MS {
        MAX_LEASE_TTL_MS
    } else {
        ttl_ms
    };
    let expires_at: u64 = saturating_add(now, ttl as u64);
    CoreEvent::LocalFocusRequested { lease_id, expires_at, pointer_enter_required }
}

pub open spec fn requested_ttl(ttl_ms: u32) -> u32 {
    if ttl_ms < MIN_LEASE_TTL_MS {
        MIN_LEASE_TTL_MS
    } else if ttl_ms > MAX_LEASE_TTL_MS {
        MAX_LEASE_TTL_MS
    } else {
        ttl_ms
    }
}

/// What input of this machine leads to.
#[derive(Clone, Copy, Debug, PartialEq, Eq, Structural)]
pub enum LocalInputStep {
    /// It stays here.
    Stay,
    /// The edge observer has to see the sample; then `edge_observed`.
    Observe(PointerSample),
    Reduce { event: CoreEvent },
}

impl PeerSession {
    /// Says what input of this machine leads to. While the displays change it is
    /// dropped. Pointer motion goes to the peer only across a route.
    pub fn handle_local_input(&self, input: InputEvent, core: &CoreView, now: u64) -> (step: Result<
        LocalInputStep,
        SessionRuntimeError,
    >)
        ensures
            if core.local_topology_refresh_pending {
                step == Ok::<_, SessionRuntimeError>(LocalInputStep::Stay)
            } else {
                match input {
                    InputEvent::PointerMotion { position } => match self@.topology.pointer_step(
                        position,
                        core.focus,
                        now,
                    ) {
                        Ok(PointerStep::Settled(_)) => step == Ok::<_, SessionRuntimeError>(
                            LocalInputStep::Stay,
                        ),
                        Ok(PointerStep::Observe(sample)) => step == Ok::<_, SessionRuntimeError>(
                            LocalInputStep::Observe(sample),
                        ),
                        Err(_) => step == Err::<LocalInputStep, _>(SessionRuntimeError::Platform),
                    },
                    _ => step == Ok::<_, SessionRuntimeError>(
                        LocalInputStep::Reduce { event: CoreEvent::LocalInput { input } },
                    ),
                }
            },
    {
        if core.local_topology_refresh_pending {
            return Ok(LocalInputStep::Stay);
        }
        match input {
            InputEvent::PointerMotion { position } => match self.local_pointer(
                position,
                core.focus,
                now,
            ) {
                Ok(PointerStep::Settled(_)) => Ok(LocalInputStep::Stay),
                Ok(PointerStep::Observe(sample)) => Ok(LocalInputStep::Observe(sample)),
                Err(_) => Err(SessionRuntimeError::Platform),
            },
            _ => Ok(LocalInputStep::Reduce { event: CoreEvent::LocalInput { input } }),
        }
    }

    /// Whether the lease on the peer is renewed now: when no more than a third
    /// of its usual lifetime is left, and no renewal is under way.
    pub fn renewal(&self, focus: FocusState, now: u64) -> (event: Option<CoreEvent>)
        ensures
            event == self@.renewal_event(focus, now),
    {
        match focus {
            FocusState::ControllingRemote { lease_id, expires_at } => {
                let left: u64 = if expires_at > now {
                    expires_at - now
                } else {
                    0
                };
                if self.is_renewal_pending() || left > (DEFAULT_LEASE_TTL_MS / 3) as u64 {
                    return None;
                }
                let renewed_until: u64 = saturating_add(now, DEFAULT_LEASE_TTL_MS as u64);
                Some(CoreEvent::LocalLeaseRenewalRequested { lease_id, expires_at: renewed_until })
            },
            _ => None,
        }
    }

    /// Whether files may be sent now: the peer has to allow it.
    pub fn may_send_files(&self, none_selected: bool) -> (allowed: Result<(), TransferError>)
        ensures
            allowed == if self@.peer_capabilities.file_transfer && !none_selected {
                Ok(())
            } else {
                Err::<(), _>(TransferError::Cancelled)
            },
    {
        if !self.peer_capabilities().file_transfer || none_selected {
            Err(TransferError::Cancelled)
        } else {
            Ok(())
        }
    }

    /// The local grants are about to change by one capability, in the next epoch.
    /// Says how file work stops and what the reducer is told.
    pub fn begin_local_grant_update(
        &self,
        grants: Capability,
        epoch: u64,
        capability: Capability,
        enabled: bool,
    ) -> (plan: Result<(TransferStopMode, CoreEvent), SessionRuntimeError>)
        ensures
            plan == if self@.local_grant_update_valid(grants, epoch, capability, enabled) {
                Ok(
                    (
                        if capability == Capability::file_transfer_only() && !enabled {
                            TransferStopMode::AbortInbound
                        } else {
                            TransferStopMode::Suspend
                        },
                        CoreEvent::LocalGrantUpdated {
                            local_grant_epoch: epoch,
                            local_grant_allows_peer_input: grants.remote_input,
                        },
                    ),
                )
            } else {
                Err(SessionRuntimeError::ProtocolViolation)
            },
    {
        if !is_single_capability(capability) || !is_next_epoch(self.local_grant_epoch(), epoch) {
            return Err(SessionRuntimeError::ProtocolViolation);
        }
        let previous = self.config().local_grants_to_peer;
        if previous.contains(capability) == enabled {
            return Err(SessionRuntimeError::ProtocolViolation);
        }
        let mut expected = previous;
        expected.set(capability, enabled);
        if grants != expected {
            return Err(SessionRuntimeError::ProtocolViolation);
        }
        let mode = if capability == Capability::file_transfer_only() && !enabled {
            TransferStopMode::AbortInbound
        } else {
            TransferStopMode::Suspend
        };
        Ok(
            (
                mode,
                CoreEvent::LocalGrantUpdated {
                    local_grant_epoch: epoch,
                    local_grant_allows_peer_input: grants.remote_input,
                },
            ),
        )
    }

    /// The reducer has seen the new local grants. They are in force unless it
    /// refused them; what the peer knew of the displays is void.
    pub fn commit_local_grant_update(
        &mut self,
        effects: &Vec<Effect>,
        grants: Capability,
        epoch: u64,
    ) -> (committed: Result<(), SessionRuntimeError>)
        ensures
            if rejects(effects@) {
                &&& committed == Err::<(), _>(SessionRuntimeError::ProtocolViolation)
                &&& final(self)@ == old(self)@
            } else {
                &&& committed is Ok
                &&& final(self)@ == (SessionModel {
                    local_grant_epoch: epoch,
                    config: SessionConfig { local_grants_to_peer: grants, ..old(self)@.config },
                    topology: PeerTopologyModel {
                        published_local_revision: None,
                        ready_local_revision: None,
                        ..old(self)@.topology.in_transition()
                    },
                    ..old(self)@
                })
            },
    {
        if effects_rejected(effects) {
            return Err(SessionRuntimeError::ProtocolViolation);
        }
        self.put_local_grants(grants, epoch);
        Ok(())
    }

    /// The peer changes what it grants, by one capability, in the next epoch.
    /// Says how file work stops, what the reducer is told and what is granted
    /// then.
    pub fn begin_peer_grant_update(
        &self,
        peer: DeviceId,
        capability: Capability,
        epoch: u64,
        enabled: bool,
    ) -> (plan: Result<(TransferStopMode, CoreEvent, Capability), SessionRuntimeError>)
        ensures
            plan == if self@.peer_grant_update_valid(peer, capability, epoch, enabled) {
                let granted = self@.peer_capabilities.with(capability, enabled);
                Ok(
                    (
                        if capability == Capability::file_transfer_only() && !enabled {
                            TransferStopMode::AbortOutbound
                        } else {
                            TransferStopMode::Suspend
                        },
                        CoreEvent::PeerGrantUpdated {
                            peer_grant_epoch: epoch,
                            peer_grant_allows_local_input: granted.remote_input,
                        },
                        granted,
                    ),
                )
            } else {
                Err(SessionRuntimeError::ProtocolViolation)
            },
    {
        if peer != self.config().local_device || !is_single_capability(capability)
            || !is_next_epoch(self.peer_grant_epoch(), epoch) || self.peer_capabilities().contains(
            capability,
        ) == enabled {
            return Err(SessionRuntimeError::ProtocolViolation);
        }
        let mut granted = self.peer_capabilities();
        granted.set(capability, enabled);
        let mode = if capability == Capability::file_transfer_only() && !enabled {
            TransferStopMode::AbortOutbound
        } else {
            TransferStopMode::Suspend
        };
        Ok(
            (
                mode,
                CoreEvent::PeerGrantUpdated {
                    peer_grant_epoch: epoch,
                    peer_grant_allows_local_input: granted.remote_input,
                },
                granted,
            ),
        )
    }

    /// The reducer has seen the new peer grants. They are in force unless it
    /// refused them; sequence numbers start anew, and the remote displays are
    /// void.
    pub fn commit_peer_grant_update(
        &mut self,
        effects: &Vec<Effect>,
        granted: Capability,
        epoch: u64,
    ) -> (committed: Result<(), SessionRuntimeError>)
        ensures
            if rejects(effects@) {
                &&& committed == Err::<(), _>(SessionRuntimeError::ProtocolViolation)
                &&& final(self)@ == old(self)@
            } else {
                &&& committed is Ok
                &&& final(self)@ == (SessionModel {
                    peer_grant_epoch: epoch,
                    peer_capabilities: granted,
                    control_sequence: 0,
                    reliable_sequence: 0,
                    replaceable_sequence: 0,
                    topology: PeerTopologyModel {
                        staged_remote: None,
                        remote: None,
                        ..old(self)@.topology.disarmed()
                    },
                    ..old(self)@
                })
            },
    {
        if effects_rejected(effects) {
            return Err(SessionRuntimeError::ProtocolViolation);
        }
        self.put_peer_grants(granted, epoch);
        Ok(())
    }
}

impl SessionModel {
    pub open spec fn renewal_event(self, focus: FocusState, now: u64) -> Option<CoreEvent> {
        match focus {
            FocusState::ControllingRemote { lease_id, expires_at } => if !self.renewal_pending
                && expires_at - now <= DEFAULT_LEASE_TTL_MS / 3 {
                Some(
                    CoreEvent::LocalLeaseRenewalRequested {
                        lease_id,
                        expires_at: later(now, DEFAULT_LEASE_TTL_MS as u64),
                    },
                )
            } else {
                None
            },
            _ => None,
        }
    }

    /// Exactly one capability changes, to what it was not, in the next epoch.
    pub open spec fn local_grant_update_valid(
        self,
        grants: Capability,
        epoch: u64,
        capability: Capability,
        enabled: bool,
    ) -> bool {
        &&& capability.single()
        &&& epoch == self.local_grant_epoch + 1
        &&& self.config.local_grants_to_peer.holds(capability) != enabled
        &&& grants == self.config.local_grants_to_peer.with(capability, enabled)
    }

    pub open spec fn peer_grant_update_valid(
        self,
        peer: DeviceId,
        capability: Capability,
        epoch: u64,
        enabled: bool,
    ) -> bool {
        &&& peer == self.config.local_device
        &&& capability.single()
        &&& epoch == self.peer_grant_epoch + 1
        &&& self.peer_capabilities.holds(capability) != enabled
    }
}

/// Changing where the peer is placed while it is used: the connection has to be
/// made anew. Nothing has to be done while focus is local.
pub fn placement_update_recovery_event(focus: FocusState) -> (event: Option<CoreEvent>)
    ensures
        event == match focus {
            FocusState::Local => None,
            _ => Some(CoreEvent::ReconnectRequested),
        },
{
    match focus {
        FocusState::Local => None,
        FocusState::RequestingRemote { .. }
        | FocusState::ControllingRemote { .. }
        | FocusState::ControlledByRemote { .. } => Some(CoreEvent::ReconnectRequested),
    }
}

/// The event that a safety signal of the platform is.
pub open spec fn safety_event_of(event: PlatformSafetyEvent) -> CoreEvent {
    match event {
        PlatformSafetyEvent::LocalLocked => CoreEvent::LocalLocked,
        PlatformSafetyEvent::LocalSleeping => CoreEvent::LocalSleeping,
        PlatformSafetyEvent::CaptureFailed => CoreEvent::LocalEmergencyStop,
    }
}

pub fn core_event_for_platform_safety(event: PlatformSafetyEvent) -> (core: CoreEvent)
    ensures
        core == safety_event_of(event),
{
    match event {
        PlatformSafetyEvent::LocalLocked => CoreEvent::LocalLocked,
        PlatformSafetyEvent::LocalSleeping => CoreEvent::LocalSleeping,
        PlatformSafetyEvent::CaptureFailed => CoreEvent::LocalEmergencyStop,
    }
}

/// What a failure of file work is to the session: a matter of the platform, or
/// a fault of the peer.
pub open spec fn shown_transfer_error(error: TransferRuntimeError) -> SessionRuntimeError {
    match error {
        TransferRuntimeError::ResumeDurabilityUnsupported => SessionRuntimeError::Platform,
        TransferRuntimeError::Transfer(TransferError::Platform) => SessionRuntimeError::Platform,
        TransferRuntimeError::Transfer(TransferError::DestinationExists) => {
            SessionRuntimeError::Platform
        },
        TransferRuntimeError::Transfer(TransferError::IntegrityMismatch) => {
            SessionRuntimeError::Platform
        },
        _ => SessionRuntimeError::ProtocolViolation,
    }
}

/// How a failure of file work shows in the session.
pub fn session_error_of_transfer(error: TransferRuntimeError) -> (shown: SessionRuntimeError)
    ensures
        shown == shown_transfer_error(error),
{
    match error {
        TransferRuntimeError::Transfer(
            TransferError::Platform
            | TransferError::DestinationExists
            | TransferError::IntegrityMismatch,
        )
        | TransferRuntimeError::ResumeDurabilityUnsupported => SessionRuntimeError::Platform,
        _ => SessionRuntimeError::ProtocolViolation,
    }
}

/// How a failure of the clipboard shows in the session.
pub fn session_error_of_clipboard(error: ClipboardRuntimeError) -> (shown: SessionRuntimeError)
    ensures
        shown == match error {
            ClipboardRuntimeError::Protocol => SessionRuntimeError::ProtocolViolation,
            ClipboardRuntimeError::GrantDenied => SessionRuntimeError::ProtocolViolation,
            ClipboardRuntimeError::Platform => SessionRuntimeError::Platform,
        },
{
    match error {
        ClipboardRuntimeError::Protocol => SessionRuntimeError::ProtocolViolation,
        ClipboardRuntimeError::GrantDenied => SessionRuntimeError::ProtocolViolation,
        ClipboardRuntimeError::Platform => SessionRuntimeError::Platform,
    }
}

/// What the file worker asks of the session. The frame travels beside it.
#[derive(Clone, Copy, Debug, PartialEq, Eq, Structural)]
pub enum TransferWorkerEvent {
    /// `counts` says whether progress is recorded when the frame was sent.
    SendManifest { counts: bool },
    SendData,
    Fatal(TransferRuntimeError),
}

/// Where a frame of the file worker goes, and whether progress is recorded once
/// the transport took it.
#[derive(Clone, Copy, Debug, PartialEq, Eq, Structural)]
pub struct FrameRoute {
    pub channel: u64,
    pub counts: bool,
}

/// Routes what the file worker asks for. A failure of the worker ends the
/// session.
pub fn handle_transfer_worker_event(channels: &Channels, event: TransferWorkerEvent) -> (route:
    Result<FrameRoute, SessionRuntimeError>)
    ensures
        match event {
            TransferWorkerEvent::SendManifest { counts } => route == Ok::<
                FrameRoute,
                SessionRuntimeError,
            >(FrameRoute { channel: channels.file_manifest, counts }),
            TransferWorkerEvent::SendData => route == Ok::<FrameRoute, SessionRuntimeError>(
                FrameRoute { channel: channels.file_data, counts: true },
            ),
            TransferWorkerEvent::Fatal(error) => route == Err::<FrameRoute, SessionRuntimeError>(
                shown_transfer_error(error),
            ),
        },
{
    match event {
        TransferWorkerEvent::SendManifest { counts } => Ok(
            FrameRoute { channel: channels.file_manifest, counts },
        ),
        TransferWorkerEvent::SendData => Ok(
            FrameRoute { channel: channels.file_data, counts: true },
        ),
        TransferWorkerEvent::Fatal(error) => Err(session_error_of_transfer(error)),
    }
}

/// A session ends only for its own name: a close for another session is a
/// violation and changes nothing.
pub proof fn law_sessions_end_only_by_name(
    model: SessionModel,
    message: ControlMessage,
    focus: FocusState,
    now: u64,
)
    ensures
        model.control_step(message, focus, now) matches Ok(ControlStep::Reduce {
            ends: true,
            event,
        }) ==> message == (ControlMessage::SessionClose { session_id: model.session_id })
            || message == (ControlMessage::EmergencyDisconnect { session_id: model.session_id }),
        model.control_step(message, focus, now) is Err ==> model.after_control(message, focus)
            == model,
{
}

/// A valid update of the local grants changes exactly the capability that it
/// names, and the same update is not valid a second time.
pub proof fn law_grant_updates_are_single_steps(
    model: SessionModel,
    after: SessionModel,
    grants: Capability,
    epoch: u64,
    capability: Capability,
    enabled: bool,
)
    requires
        model.local_grant_update_valid(grants, epoch, capability, enabled),
        after.local_grant_epoch == epoch,
        after.config.local_grants_to_peer == grants,
    ensures
        grants.holds(capability) == enabled,
        grants.with(capability, !enabled) == model.config.local_grants_to_peer,
        !after.local_grant_update_valid(grants, epoch, capability, enabled),
{
}

/// Every control message that names a lease reaches the reducer as the event of
/// its kind, with the metadata and the lease that it came with, whoever has the
/// focus. A lease ends its lifetime after now, or at the end of time.
pub proof fn law_lease_messages_reach_the_reducer(
    model: SessionModel,
    message: ControlMessage,
    focus: FocusState,
    now: u64,
)
    ensures
        message matches ControlMessage::FocusLeaseRelease { meta, lease_id }
            ==> model.control_step(message, focus, now) == Ok::<_, SessionRuntimeError>(
            ControlStep::Reduce {
                event: CoreEvent::RemoteFocusReleased { meta, lease_id },
                ends: false,
            },
        ),
        message matches ControlMessage::PointerEnterAck { meta, lease_id }
            ==> model.control_step(message, focus, now) == Ok::<_, SessionRuntimeError>(
            ControlStep::Reduce {
                event: CoreEvent::RemotePointerEnterAcknowledged { meta, lease_id },
                ends: false,
            },
        ),
        message matches ControlMessage::FocusLeaseRequest {
            meta: sent,
            lease_id: lease,
            ttl_ms,
            pointer_enter_required: enter,
        } ==> (model.control_step(message, focus, now) matches Ok(ControlStep::Reduce {
            event: CoreEvent::RemoteFocusRequested {
                meta,
                lease_id,
                expires_at,
                pointer_enter_required,
            },
            ends: false,
        }) && meta == sent && lease_id == lease && pointer_enter_required == enter && (expires_at
            == now + ttl_ms || now + ttl_ms > u64::MAX && expires_at == u64::MAX)),
        focus is RequestingRemote ==> (message matches ControlMessage::FocusLeaseGrant {
            meta: sent,
            lease_id: lease,
            ttl_ms,
            pointer_enter_required: enter,
        } ==> (model.control_step(message, focus, now) matches Ok(
            ControlStep::FocusGranted {
                event: CoreEvent::RemoteFocusGranted {
                    meta,
                    lease_id,
                    expires_at,
                    pointer_enter_required,
                },
            },
        ) && meta == sent && lease_id == lease && pointer_enter_required == enter && (expires_at
            == now + ttl_ms || now + ttl_ms > u64::MAX && expires_at == u64::MAX))),
        !(focus is RequestingRemote) ==> (message matches ControlMessage::FocusLeaseGrant {
            meta: sent,
            lease_id: lease,
            ttl_ms,
            pointer_enter_required: enter,
        } ==> (model.control_step(message, focus, now) matches Ok(
            ControlStep::FocusGranted {
                event: CoreEvent::RemoteLeaseRenewed {
                    meta,
                    lease_id,
                    expires_at,
                    pointer_enter_required,
                },
            },
        ) && meta == sent && lease_id == lease && pointer_enter_required == enter && (expires_at
            == now + ttl_ms || now + ttl_ms > u64::MAX && expires_at == u64::MAX))),
{
}

/// Only pongs and error reports are ignored, and only messages that open a
/// session, that are unknown, or that close another session are violations. The
/// grants of the peer and its displays are passed on as they came, and a ping is
/// answered with its own nonce.
pub proof fn law_control_messages_are_not_passed_over(
    model: SessionModel,
    message: ControlMessage,
    focus: FocusState,
    now: u64,
)
    ensures
        model.control_step(message, focus, now) == Ok::<_, SessionRuntimeError>(ControlStep::Ignore)
            <==> message is Pong || message is Error,
        model.control_step(message, focus, now) is Err <==> {
            ||| message is Hello
            ||| message is SessionOpen
            ||| message is Other
            ||| message matches ControlMessage::SessionClose { session_id } && session_id
                != model.session_id
            ||| message matches ControlMessage::EmergencyDisconnect { session_id } && session_id
                != model.session_id
        },
        model.control_step(message, focus, now) matches Err(error) ==> error is ProtocolViolation,
        message matches ControlMessage::Ping { nonce } ==> model.control_step(message, focus, now)
            == Ok::<_, SessionRuntimeError>(
            ControlStep::Reply { message: ControlMessage::Pong { nonce } },
        ),
        message matches ControlMessage::CapabilityGrant { peer, capabilities, epoch }
            ==> model.control_step(message, focus, now) == Ok::<_, SessionRuntimeError>(
            ControlStep::PeerGrant { peer, capability: capabilities, epoch, enabled: true },
        ),
        message matches ControlMessage::CapabilityRevoke { peer, capabilities, epoch }
            ==> model.control_step(message, focus, now) == Ok::<_, SessionRuntimeError>(
            ControlStep::PeerGrant { peer, capability: capabilities, epoch, enabled: false },
        ),
        message matches ControlMessage::DisplayTopology { meta, revision } ==> model.control_step(
            message,
            focus,
            now,
        ) == Ok::<_, SessionRuntimeError>(
            ControlStep::TopologyReceived {
                event: CoreEvent::RemoteTopologyReceived { meta, revision },
                revision,
            },
        ),
        message matches ControlMessage::DisplayTopologyAck { meta, revision } ==> {
            let event = CoreEvent::RemoteTopologyAcknowledged { meta, revision };
            &&& model.topology_initialized ==> model.control_step(message, focus, now) == Ok::<
                _,
                SessionRuntimeError,
            >(ControlStep::TopologyAcknowledged { event })
            &&& !model.topology_initialized ==> model.control_step(message, focus, now) == Ok::<
                _,
                SessionRuntimeError,
            >(ControlStep::Reduce { event, ends: false })
        },
        message == (ControlMessage::SessionClose { session_id: model.session_id })
            ==> model.control_step(message, focus, now) == Ok::<_, SessionRuntimeError>(
            ControlStep::Reduce { event: CoreEvent::ReconnectRequested, ends: true },
        ),
        message == (ControlMessage::EmergencyDisconnect { session_id: model.session_id })
            ==> model.control_step(message, focus, now) == Ok::<_, SessionRuntimeError>(
            ControlStep::Reduce { event: CoreEvent::LocalEmergencyStop, ends: true },
        ),
{
}

/// A control message changes nothing of the session but this: a lease that comes
/// without having been asked for ends the renewal that is under way.
pub proof fn law_only_granted_leases_end_a_renewal(
    model: SessionModel,
    message: ControlMessage,
    focus: FocusState,
)
    ensures
        ({
            let after = model.after_control(message, focus);
            let renews = message is FocusLeaseGrant && !(focus is RequestingRemote);
            &&& renews ==> !after.renewal_pending
            &&& !renews ==> after.renewal_pending == model.renewal_pending
            &&& after == (SessionModel { renewal_pending: after.renewal_pending, ..model })
        }),
{
}

/// A pending refresh of the displays holds up every control message but those
/// that change grants or end the session.
pub proof fn law_grants_and_ends_do_not_wait(message: ControlMessage)
    ensures
        message is CapabilityGrant ==> urgent(message),
        message is CapabilityRevoke ==> urgent(message),
        message is SessionClose ==> urgent(message),
        message is EmergencyDisconnect ==> urgent(message),
        urgent(message) ==> message is CapabilityGrant || message is CapabilityRevoke || message
            is SessionClose || message is EmergencyDisconnect,
{
}

/// Data of each channel goes to the reader of that channel and of no other, and
/// data of an unknown channel is a violation. The end of the connection, or of a
/// channel that every session needs, is recovered from; no other event of the
/// transport is expected.
pub proof fn law_each_channel_has_its_reader(channels: Channels, event: TransportEvent)
    requires
        channels.control != channels.reliable_input,
        channels.control != channels.clipboard,
        channels.control != channels.file_manifest,
        channels.control != channels.file_data,
        channels.reliable_input != channels.clipboard,
        channels.reliable_input != channels.file_manifest,
        channels.reliable_input != channels.file_data,
        channels.clipboard != channels.file_manifest,
        channels.clipboard != channels.file_data,
        channels.file_manifest != channels.file_data,
        channels.pointer_fallback matches Some(fallback) ==> fallback != channels.control
            && fallback != channels.reliable_input && fallback != channels.clipboard && fallback
            != channels.file_manifest && fallback != channels.file_data,
    ensures
        event matches TransportEvent::ReliableData { channel, .. } ==> {
            let dispatch = dispatch_of(channels, event);
            &&& dispatch is Control <==> channel == channels.control
            &&& dispatch is ReliableInput <==> channel == channels.reliable_input
            &&& dispatch is PointerFallback <==> channels.pointer_fallback == Some(channel)
            &&& dispatch is Clipboard <==> channel == channels.clipboard
            &&& dispatch is FileManifest <==> channel == channels.file_manifest
            &&& dispatch is FileData <==> channel == channels.file_data
            &&& !(dispatch is Datagram) && !(dispatch is Recover)
        },
        event is Datagram <==> dispatch_of(channels, event) is Datagram,
        event matches TransportEvent::Closed { reason } ==> dispatch_of(channels, event) == (
        Dispatch::Recover {
            event: match reason {
                CloseReason::EmergencyDisconnect => CoreEvent::LocalEmergencyStop,
                CloseReason::Requested => CoreEvent::LinkDisconnected,
                CloseReason::TransportFailure => CoreEvent::LinkDisconnected,
            },
        }),
        event matches TransportEvent::ChannelClosed { channel } ==> {
            let needed = channel == channels.control || channel == channels.reliable_input
                || channel == channels.clipboard || channel == channels.file_manifest || channel
                == channels.file_data;
            &&& needed ==> dispatch_of(channels, event) == (Dispatch::Recover {
                event: CoreEvent::LinkDisconnected,
            })
            &&& !needed ==> dispatch_of(channels, event) is Violation
        },
        event is ChannelOpened || event is Other ==> dispatch_of(channels, event) is Violation,
{
}

/// A lease is asked for a second at least and for half a minute at most; within
/// these limits for as long as was wished.
pub proof fn law_lease_lifetimes_are_held_within_limits(ttl_ms: u32)
    ensures
        1_000 <= requested_ttl(ttl_ms) <= 30_000,
        1_000 <= ttl_ms <= 30_000 ==> requested_ttl(ttl_ms) == ttl_ms,
        ttl_ms < 1_000 ==> requested_ttl(ttl_ms) == 1_000,
        ttl_ms > 30_000 ==> requested_ttl(ttl_ms) == 30_000,
{
}

/// The lease on the peer is renewed, for five seconds from now, exactly when no
/// renewal is under way and at most a third of that is left of it.
pub proof fn law_leases_are_renewed_in_time(model: SessionModel, focus: FocusState, now: u64)
    ensures
        focus matches FocusState::ControllingRemote { lease_id: held, expires_at: until } ==> {
            &&& model.renewal_event(focus, now) is Some <==> !model.renewal_pending && until <= now
                + 1_666
            &&& model.renewal_event(focus, now) matches Some(event) ==> (event matches
                CoreEvent::LocalLeaseRenewalRequested { lease_id, expires_at } && lease_id == held
                && (expires_at == now + 5_000 || now + 5_000 > u64::MAX && expires_at
                == u64::MAX))
        },
        !(focus is ControllingRemote) ==> model.renewal_event(focus, now) is None,
{
}

/// Input of the peer becomes the event of its kind, with its own metadata and
/// lease and the time at which it came.
pub proof fn law_input_messages_keep_their_lease(message: InputMessage, at: u64)
    ensures
        match input_event_of(message, at) {
            CoreEvent::RemoteInput { meta, lease_id, received_at, input } => meta == message.meta
                && lease_id == message.lease_id && received_at == at && decoded_payload(
                message.payload,
            ) == DecodedInput::Event(input),
            CoreEvent::RemotePointerEnter { meta, lease_id, received_at, position } => meta
                == message.meta && lease_id == message.lease_id && received_at == at
                && decoded_payload(message.payload) == DecodedInput::PointerEnter(position),
            CoreEvent::RemoteReleaseAll { meta, lease_id, received_at } => meta == message.meta
                && lease_id == message.lease_id && received_at == at && decoded_payload(
                message.payload,
            ) is ReleaseAll,
            _ => false,
        },
{
}

/// Locking and sleeping are told as such; a capture that failed stops everything.
pub proof fn law_safety_signals_are_told_apart(event: PlatformSafetyEvent)
    ensures
        event is LocalLocked <==> safety_event_of(event) is LocalLocked,
        event is LocalSleeping <==> safety_event_of(event) is LocalSleeping,
        event is CaptureFailed <==> safety_event_of(event) is LocalEmergencyStop,
{
}

/// A failure of file work is a matter of this machine exactly when its disk or
/// its files are at fault; every other one is a fault of the peer.
pub proof fn law_transfer_faults_are_told_apart(error: TransferRuntimeError)
    ensures
        shown_transfer_error(error) is Platform <==> {
            ||| error is ResumeDurabilityUnsupported
            ||| error matches TransferRuntimeError::Transfer(cause) && (cause is Platform || cause
                is DestinationExists || cause is IntegrityMismatch)
        },
        shown_transfer_error(error) is Platform || shown_transfer_error(error) is ProtocolViolation,
{
}

/// A valid update of the grants names one capability, changes it to what it was
/// not and leaves the other three as they were, in the epoch that follows.
pub proof fn law_grant_updates_change_one_capability(
    model: SessionModel,
    grants: Capability,
    epoch: u64,
    capability: Capability,
    enabled: bool,
)
    ensures
        ({
            let before = model.config.local_grants_to_peer;
            let names_one = {
                ||| capability.remote_input && !capability.clipboard_read
                    && !capability.clipboard_write && !capability.file_transfer
                ||| !capability.remote_input && capability.clipboard_read
                    && !capability.clipboard_write && !capability.file_transfer
                ||| !capability.remote_input && !capability.clipboard_read
                    && capability.clipboard_write && !capability.file_transfer
                ||| !capability.remote_input && !capability.clipboard_read
                    && !capability.clipboard_write && capability.file_transfer
            };
            model.local_grant_update_valid(grants, epoch, capability, enabled) <==> {
                &&& names_one
                &&& epoch == model.local_grant_epoch + 1
                &&& if capability.remote_input {
                    before.remote_input != enabled && grants.remote_input == enabled
                } else {
                    grants.remote_input == before.remote_input
                }
                &&& if capability.clipboard_read {
                    before.clipboard_read != enabled && grants.clipboard_read == enabled
                } else {
                    grants.clipboard_read == before.clipboard_read
                }
                &&& if capability.clipboard_write {
                    before.clipboard_write != enabled && grants.clipboard_write == enabled
                } else {
                    grants.clipboard_write == before.clipboard_write
                }
                &&& if capability.file_transfer {
                    before.file_transfer != enabled && grants.file_transfer == enabled
                } else {
                    grants.file_transfer == before.file_transfer
                }
            }
        }),
{
}

/// The peer may change its grants to this device only, one capability at a time,
/// to what it was not, in the epoch that follows.
pub proof fn law_peer_grants_change_one_capability(
    model: SessionModel,
    peer: DeviceId,
    capability: Capability,
    epoch: u64,
    enabled: bool,
)
    ensures
        ({
            let before = model.peer_capabilities;
            model.peer_grant_update_valid(peer, capability, epoch, enabled) <==> {
                &&& peer == model.config.local_device
                &&& epoch == model.peer_grant_epoch + 1
                &&& {
                    ||| capability.remote_input && !capability.clipboard_read
                        && !capability.clipboard_write && !capability.file_transfer
                        && before.remote_input != enabled
                    ||| !capability.remote_input && capability.clipboard_read
                        && !capability.clipboard_write && !capability.file_transfer
                        && before.clipboard_read != enabled
                    ||| !capability.remote_input && !capability.clipboard_read
                        && capability.clipboard_write && !capability.file_transfer
                        && before.clipboard_write != enabled
                    ||| !capability.remote_input && !capability.clipboard_read
                        && !capability.clipboard_write && capability.file_transfer
                        && before.file_transfer != enabled
                }
            }
        }),
{
}

/// Remote displays are kept when the reducer accepts this very revision among
/// its effects, wherever that stands.
pub proof fn law_displays_are_kept_when_accepted(effects: Seq<Effect>, revision: u64, at: int)
    requires
        0 <= at < effects.len(),
    ensures
        effects[at] == (Effect::AcceptRemoteTopology { revision }) ==> accepts_topology(
            effects,
            revision,
        ),
        effects[at] is Rejected ==> rejects(effects),
        effects.len() == 1 && accepts_topology(effects, revision) ==> effects[0] == (
        Effect::AcceptRemoteTopology { revision }),
        effects.len() == 1 && rejects(effects) ==> effects[0] is Rejected,
{
}

/// Nothing has to be recovered while focus is local; from every other focus the
/// connection is made anew.
pub proof fn law_moving_the_peer_ends_its_focus(focus: FocusState, event: Option<CoreEvent>)
    requires
        call_ensures(placement_update_recovery_event, (focus,), event),
    ensures
        event is None <==> focus is Local,
        event matches Some(told) ==> told is ReconnectRequested,
{
}

/// Files may be sent exactly if the peer allows it and some were chosen.
pub proof fn law_files_need_the_grant(
    session: PeerSession,
    none_selected: bool,
    allowed: Result<(), TransferError>,
)
    requires
        call_ensures(PeerSession::may_send_files, (&session, none_selected), allowed),
    ensures
        allowed is Ok <==> session@.peer_capabilities.file_transfer && !none_selected,
        allowed matches Err(error) ==> error is Cancelled,
{
}

/// An input message makes an event unless it was not understood, or speaks of
/// input that this platform cannot inject; the event keeps the lease and the
/// time of arrival.
pub proof fn law_input_is_injected_when_supported(
    message: Option<InputMessage>,
    supported: bool,
    received_at: u64,
    event: Result<CoreEvent, SessionRuntimeError>,
)
    requires
        call_ensures(handle_input, (message, supported, received_at), event),
    ensures
        event is Ok <==> message is Some && (supported || !restricted_payload(
            message->Some_0.payload,
        )),
        event is Err ==> event == Err::<CoreEvent, _>(SessionRuntimeError::ProtocolViolation),
{
}

/// A failure to inject is recovered from with its own error, unless new
/// displays are all that it takes; a recovery that fails hides that error.
pub proof fn law_failures_are_recovered_from(
    error: SessionRuntimeError,
    failure: InputFailure,
    recovered: bool,
    left: SessionRuntimeError,
)
    requires
        call_ensures(input_failed, (error,), failure),
        call_ensures(after_recovery, (error, recovered), left),
    ensures
        failure is Refresh <==> error is TopologyRefreshRequired,
        failure matches InputFailure::Recover { error: kept } ==> kept == error,
        recovered ==> left == error,
        !recovered ==> left is SafetyRecoveryFailed,
{
}

/// Local input that is no motion of the pointer reaches the reducer as it
/// came, and nothing does while new displays are awaited.
pub proof fn law_local_input_waits_for_displays(
    session: PeerSession,
    input: InputEvent,
    core: CoreView,
    now: u64,
    step: Result<LocalInputStep, SessionRuntimeError>,
)
    requires
        call_ensures(PeerSession::handle_local_input, (&session, input, &core, now), step),
    ensures
        core.local_topology_refresh_pending ==> (step matches Ok(LocalInputStep::Stay)),
        !core.local_topology_refresh_pending && !(input is PointerMotion) ==> (step matches Ok(
            LocalInputStep::Reduce { event: CoreEvent::LocalInput { input: sent } },
        ) && sent == input),
        step is Err ==> input is PointerMotion && !core.local_topology_refresh_pending,
        (step matches Ok(LocalInputStep::Reduce { .. })) ==> !(input is PointerMotion),
        (step matches Ok(LocalInputStep::Observe(_))) ==> input is PointerMotion,
{
}

/// Files that the peer sends are given up only when the grant to send them is
/// taken away, and the reducer learns the new epoch with what it allows.
pub proof fn law_taking_the_file_grant_away_aborts_what_comes_in(
    session: PeerSession,
    grants: Capability,
    epoch: u64,
    capability: Capability,
    enabled: bool,
    plan: Result<(TransferStopMode, CoreEvent), SessionRuntimeError>,
)
    requires
        call_ensures(
            PeerSession::begin_local_grant_update,
            (&session, grants, epoch, capability, enabled),
            plan,
        ),
    ensures
        plan is Ok <==> session@.local_grant_update_valid(grants, epoch, capability, enabled),
        plan matches Ok((stop, event)) ==> {
            &&& stop is AbortInbound <==> capability == Capability::file_transfer_only() && !enabled
            &&& !(stop is AbortInbound) ==> stop is Suspend
            &&& event matches CoreEvent::LocalGrantUpdated {
                local_grant_epoch,
                local_grant_allows_peer_input,
            } && local_grant_epoch == epoch && local_grant_allows_peer_input == grants.remote_input
        },
{
}

/// Files that go to the peer are given up only when the peer takes its grant
/// for them away; what the peer grants then differs in that capability alone.
pub proof fn law_losing_the_file_grant_aborts_what_goes_out(
    session: PeerSession,
    peer: DeviceId,
    capability: Capability,
    epoch: u64,
    enabled: bool,
    plan: Result<(TransferStopMode, CoreEvent, Capability), SessionRuntimeError>,
)
    requires
        call_ensures(
            PeerSession::begin_peer_grant_update,
            (&session, peer, capability, epoch, enabled),
            plan,
        ),
    ensures
        plan is Ok <==> session@.peer_grant_update_valid(peer, capability, epoch, enabled),
        plan matches Ok((stop, event, granted)) ==> {
            &&& stop is AbortOutbound <==> capability == Capability::file_transfer_only()
                && !enabled
            &&& !(stop is AbortOutbound) ==> stop is Suspend
            &&& granted == session@.peer_capabilities.with(capability, enabled)
            &&& event matches CoreEvent::PeerGrantUpdated {
                peer_grant_epoch,
                peer_grant_allows_local_input,
            } && peer_grant_epoch == epoch && peer_grant_allows_local_input
                == granted.remote_input
        },
{
}

/// Only a failure of the platform's clipboard is shown as one of the
/// platform; everything else is the peer's fault.
pub proof fn law_clipboard_faults_are_told_apart(
    error: ClipboardRuntimeError,
    shown: SessionRuntimeError,
)
    requires
        call_ensures(session_error_of_clipboard, (error,), shown),
    ensures
        shown is Platform <==> error is Platform,
        shown is ProtocolViolation <==> !(error is Platform),
{
}

/// What a transfer sends goes out on one of the two channels for files, data
/// always counted as progress, and only a fatal error ends the session.
pub proof fn law_transfer_frames_take_the_file_channels(
    channels: Channels,
    event: TransferWorkerEvent,
    route: Result<FrameRoute, SessionRuntimeError>,
)
    requires
        call_ensures(handle_transfer_worker_event, (&channels, event), route),
    ensures
        route is Err <==> event is Fatal,
        route matches Ok(taken) ==> {
            &&& event is SendData ==> taken.channel == channels.file_data && taken.counts
            &&& event matches TransferWorkerEvent::SendManifest { counts } ==> taken.channel
                == channels.file_manifest && taken.counts == counts
        },
{
}

/// A frame that breaks the bounds of its channel is never handed on.
pub proof fn law_invalid_frames_end_the_session(
    channels: Channels,
    event: TransportEvent,
    valid: bool,
    dispatch: Result<Dispatch, SessionRuntimeError>,
)
    requires
        call_ensures(handle_transport_event, (&channels, &event, valid), dispatch),
    ensures
        dispatch is Ok <==> valid,
        !valid ==> dispatch == Err::<Dispatch, _>(SessionRuntimeError::ProtocolViolation),
{
}

/// `handle_control` hands every message that names a lease to the reducer as
/// the event of its kind, and passes over nothing but a reply to a ping and a
/// reported error.
pub proof fn law_handled_lease_messages_are_reduced(
    session: &mut PeerSession,
    message: ControlMessage,
    focus: FocusState,
    now: u64,
    step: Result<ControlStep, SessionRuntimeError>,
)
    requires
        call_ensures(PeerSession::handle_control, (session, &message, focus, now), step),
    ensures
        message matches ControlMessage::FocusLeaseRelease { meta, lease_id } ==> step == Ok::<
            _,
            SessionRuntimeError,
        >(
            ControlStep::Reduce {
                event: CoreEvent::RemoteFocusReleased { meta, lease_id },
                ends: false,
            },
        ),
        message matches ControlMessage::PointerEnterAck { meta, lease_id } ==> step == Ok::<
            _,
            SessionRuntimeError,
        >(
            ControlStep::Reduce {
                event: CoreEvent::RemotePointerEnterAcknowledged { meta, lease_id },
                ends: false,
            },
        ),
        message is FocusLeaseRequest ==> (step matches Ok(
            ControlStep::Reduce { event: CoreEvent::RemoteFocusRequested { .. }, ends: false },
        )),
        message is FocusLeaseGrant ==> (step matches Ok(ControlStep::FocusGranted { .. })),
        (step matches Ok(ControlStep::Ignore)) ==> message is Pong || message is Error,
{
}

/// The pointer enters the peer at the target that waits for it, once, and only
/// when the focus was granted.
pub proof fn law_the_pointer_enters_once(
    session: &mut PeerSession,
    effects: Vec<Effect>,
    focus: FocusState,
    entered: Result<Option<CoreEvent>, SessionRuntimeError>,
)
    requires
        call_ensures(PeerSession::focus_granted, (session, &effects, focus), entered),
    ensures
        rejects(effects@) || !(focus is ControllingRemote) ==> final(session)@ == old(session)@
            && (entered matches Ok(None)),
        !rejects(effects@) && focus is ControllingRemote
            ==> final(session)@.topology.pending_target is None,
        entered matches Ok(Some(event)) ==> (event matches CoreEvent::LocalPointerEnter { position }
            && old(session)@.topology.pending_target == Some(
            InputEvent::PointerMotion { position },
        )),
        final(session)@.topology.active_route == old(session)@.topology.active_route,
{
}

/// Grants that the reducer refuses change nothing; accepted ones take their
/// epoch, and the peer's start its numbers again.
pub proof fn law_refused_grants_change_nothing(
    session: &mut PeerSession,
    other: &mut PeerSession,
    effects: Vec<Effect>,
    grants: Capability,
    epoch: u64,
    local: Result<(), SessionRuntimeError>,
    peer: Result<(), SessionRuntimeError>,
)
    requires
        call_ensures(
            PeerSession::commit_local_grant_update,
            (session, &effects, grants, epoch),
            local,
        ),
        call_ensures(
            PeerSession::commit_peer_grant_update,
            (other, &effects, grants, epoch),
            peer,
        ),
    ensures
        local is Ok <==> !rejects(effects@),
        peer is Ok <==> !rejects(effects@),
        local is Err ==> final(session)@ == old(session)@,
        peer is Err ==> final(other)@ == old(other)@,
        local is Ok ==> final(session)@.local_grant_epoch == epoch
            && final(session)@.config.local_grants_to_peer == grants
            && final(session)@.peer_capabilities == old(session)@.peer_capabilities
            && final(session)@.topology.published_local_revision is None,
        peer is Ok ==> final(other)@.peer_grant_epoch == epoch && final(other)@.peer_capabilities
            == grants && final(other)@.control_sequence == 0 && final(other)@.reliable_sequence == 0
            && final(other)@.replaceable_sequence == 0 && final(other)@.topology.remote is None
            && final(other)@.local_grant_epoch == old(other)@.local_grant_epoch,
{
}

/// Displays of the peer are staged exactly when the reducer accepts them.
pub proof fn law_accepted_displays_are_staged(
    session: &mut PeerSession,
    effects: Vec<Effect>,
    topology: DisplayTopology,
)
    requires
        call_ensures(PeerSession::topology_received, (session, &effects, topology), ()),
    ensures
        accepts_topology(effects@, topology.revision) ==> final(session)@.topology.staged_remote
            == Some(topology@),
        !accepts_topology(effects@, topology.revision) ==> final(session)@ == old(session)@,
        final(session)@.topology.remote == old(session)@.topology.remote,
{
}

/// Displays are looked at before everything but what ends or recovers the
/// session and what comes on the control channel.
pub proof fn law_recoveries_do_not_wait(dispatch: Dispatch, preflight: bool)
    requires
        call_ensures(dispatch_preflight, (&dispatch,), preflight),
    ensures
        dispatch is Control ==> !preflight,
        dispatch is Recover ==> !preflight,
        !(dispatch is Control) && !(dispatch is Recover) ==> preflight,
{
}

} // verus!
