//! What a peer session exchanges: channels, control messages, transport events.

use vstd::prelude::*;
use crate::grants::{Capability, EventMeta};
use crate::identifiers::{DeviceId, SessionId};

verus! {

#[derive(Clone, Copy, Debug, PartialEq, Eq, Structural)]
pub enum SessionRole {
    Opener,
    Acceptor,
}

#[derive(Clone, Copy, Debug, PartialEq, Eq, Structural)]
pub enum DatagramAvailability {
    Unavailable,
    Available,
}

#[derive(Clone, Copy, Debug, PartialEq, Eq, Structural)]
pub enum ChannelKind {
    Control,
    ReliableInput,
    PointerFallback,
    Clipboard,
    FileManifest,
    FileData,
}

/// The channels of an established session.
#[derive(Clone, Copy, Debug, PartialEq, Eq, Structural)]
pub struct Channels {
    pub control: u64,
    pub reliable_input: u64,
    pub pointer_fallback: Option<u64>,
    pub clipboard: u64,
    pub file_manifest: u64,
    pub file_data: u64,
    pub datagrams: DatagramAvailability,
}

impl Channels {
    /// A channel without which the session cannot go on.
    pub open spec fn vital(self, channel: u64) -> bool {
        channel == self.control || channel == self.reliable_input || channel == self.clipboard
            || channel == self.file_manifest || channel == self.file_data
    }

    pub fn is_vital(&self, channel: u64) -> (vital: bool)
        ensures
            vital == self.vital(channel),
    {
        channel == self.control || channel == self.reliable_input || channel == self.clipboard
            || channel == self.file_manifest || channel == self.file_data
    }
}

#[derive(Clone, Copy, Debug, PartialEq, Eq, Structural)]
pub enum CloseReason {
    Requested,
    TransportFailure,
    EmergencyDisconnect,
}

/// A message on the control channel. The displays of a topology and the
/// versions of a hello travel beside it.
#[derive(Clone, Copy, Debug, PartialEq, Eq, Structural)]
pub enum ControlMessage {
    /// `current_version_only`: exactly the one version that is spoken here.
    Hello { current_version_only: bool, capabilities: Capability },
    /// `peer` is whom the grant is for.
    CapabilityGrant { peer: DeviceId, capabilities: Capability, epoch: u64 },
    CapabilityRevoke { peer: DeviceId, capabilities: Capability, epoch: u64 },
    /// `peer` is whom the session is offered to.
    SessionOpen { session_id: SessionId, peer: DeviceId, epoch: u64 },
    FocusLeaseRequest { meta: EventMeta, lease_id: u64, ttl_ms: u32, pointer_enter_required: bool },
    FocusLeaseGrant { meta: EventMeta, lease_id: u64, ttl_ms: u32, pointer_enter_required: bool },
    FocusLeaseRelease { meta: EventMeta, lease_id: u64 },
    DisplayTopology { meta: EventMeta, revision: u64 },
    DisplayTopologyAck { meta: EventMeta, revision: u64 },
    PointerEnterAck { meta: EventMeta, lease_id: u64 },
    Ping { nonce: u64 },
    Pong { nonce: u64 },
    Error,
    SessionClose { session_id: SessionId },
    EmergencyDisconnect { session_id: SessionId },
    Other,
}

/// Where an input message goes.
#[derive(Clone, Copy, Debug, PartialEq, Eq, Structural)]
pub enum InputRoute {
    Datagram,
    Channel(u64),
}

/// What happened on the connection. Payloads travel beside it.
#[derive(Clone, Copy, Debug, PartialEq, Eq, Structural)]
pub enum TransportEvent {
    ChannelOpened { channel: u64, kind: ChannelKind, bidirectional: bool },
    ReliableData { channel: u64, end_of_stream: bool },
    Datagram,
    ChannelClosed { channel: u64 },
    Closed { reason: CloseReason },
    Other,
}

} // verus!
