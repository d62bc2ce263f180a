//! Vocabulary shared with the session reducer: focus, events and effects.

use vstd::prelude::*;
use crate::grants::EventMeta;
use crate::identifiers::{DeviceId, SessionId};
use crate::input::{InputEvent, NormalizedPosition};

verus! {

/// Who controls whom. Times are milliseconds of the session's own clock.
#[derive(Clone, Copy, Debug, PartialEq, Eq, Structural)]
pub enum FocusState {
    Local,
    RequestingRemote { lease_id: u64, expires_at: u64 },
    ControllingRemote { lease_id: u64, expires_at: u64 },
    ControlledByRemote { lease_id: u64, expires_at: u64 },
}

#[derive(Clone, Copy, Debug, PartialEq, Eq, Structural)]
pub enum LinkState {
    Down,
    Up,
}

#[derive(Clone, Copy, Debug, PartialEq, Eq, Structural)]
pub enum DisconnectReason {
    EmergencyStop,
    LocalLocked,
    LocalSleeping,
    LinkLost,
    RequestedReconnect,
    FocusLeaseExpired,
}

/// What the session reducer is told.
#[derive(Clone, Copy, Debug, PartialEq, Eq, Structural)]
pub enum CoreEvent {
    ConnectStarted,
    TransportConnected,
    AuthenticationSucceeded,
    SessionEstablished {
        session_id: SessionId,
        peer_id: DeviceId,
        local_grant_epoch: u64,
        peer_grant_epoch: u64,
        local_grant_allows_peer_input: bool,
        peer_grant_allows_local_input: bool,
    },
    LocalFocusRequested { lease_id: u64, expires_at: u64, pointer_enter_required: bool },
    LocalFocusReleased,
    LocalLeaseRenewalRequested { lease_id: u64, expires_at: u64 },
    LocalPointerEnter { position: NormalizedPosition },
    LocalInput { input: InputEvent },
    LocalEmergencyStop,
    LocalLocked,
    LocalSleeping,
    LinkDisconnected,
    ReconnectRequested,
    TimerElapsed { now: u64 },
    LocalGrantUpdated { local_grant_epoch: u64, local_grant_allows_peer_input: bool },
    PeerGrantUpdated { peer_grant_epoch: u64, peer_grant_allows_local_input: bool },
    LocalTopologyRefreshStarted,
    LocalTopologyRefreshUnchanged,
    LocalTopologyPublished { revision: u64 },
    RemoteFocusRequested {
        meta: EventMeta,
        lease_id: u64,
        expires_at: u64,
        pointer_enter_required: bool,
    },
    RemoteFocusGranted {
        meta: EventMeta,
        lease_id: u64,
        expires_at: u64,
        pointer_enter_required: bool,
    },
    RemoteLeaseRenewed {
        meta: EventMeta,
        lease_id: u64,
        expires_at: u64,
        pointer_enter_required: bool,
    },
    RemoteFocusReleased { meta: EventMeta, lease_id: u64 },
    RemoteTopologyReceived { meta: EventMeta, revision: u64 },
    RemoteTopologyAcknowledged { meta: EventMeta, revision: u64 },
    RemotePointerEnterAcknowledged { meta: EventMeta, lease_id: u64 },
    RemoteInput { meta: EventMeta, lease_id: u64, received_at: u64, input: InputEvent },
    RemotePointerEnter {
        meta: EventMeta,
        lease_id: u64,
        received_at: u64,
        position: NormalizedPosition,
    },
    RemoteReleaseAll { meta: EventMeta, lease_id: u64, received_at: u64 },
}

/// What the session reducer asks for.
#[derive(Debug, PartialEq, Eq)]
pub enum Effect {
    RequestRemoteFocus { lease_id: u64, expires_at: u64, pointer_enter_required: bool },
    RenewRemoteFocus { lease_id: u64, expires_at: u64 },
    GrantRemoteFocus { lease_id: u64, expires_at: u64, pointer_enter_required: bool },
    ReleaseRemoteFocus { lease_id: u64 },
    SendInput { lease_id: u64, input: InputEvent },
    SendPointerEnter { lease_id: u64, position: NormalizedPosition },
    AcknowledgePointerEnter { lease_id: u64 },
    SendReleaseAll { lease_id: u64 },
    InjectInput { input: InputEvent },
    ReleaseInjectedInput { releases: Vec<InputEvent> },
    ReleaseRoutedInput { lease_id: u64, releases: Vec<InputEvent> },
    RestoreLocalOwnership,
    Disconnect { reason: DisconnectReason },
    AcceptRemoteTopology { revision: u64 },
    AcknowledgeRemoteTopology { revision: u64 },
    LocalTopologyReady { revision: u64 },
    ArmFocusLease,
    CancelFocusLease,
    SuspendContentOperations,
    AbortContentOperations,
    Rejected,
}

/// Whether the reducer refused the event.
pub fn effects_rejected(effects: &Vec<Effect>) -> (rejected: bool)
    ensures
        rejected == exists|i: int| 0 <= i < effects@.len() && #[trigger] effects@[i] is Rejected,
{
    let mut at: usize = 0;
    while at < effects.len()
        invariant
            at <= effects@.len(),
            forall|i: int| 0 <= i < at ==> !(#[trigger] effects@[i] is Rejected),
        decreases effects@.len() - at,
    {
        if let Effect::Rejected = effects[at] {
            assert(effects@[at as int] is Rejected);
            return true;
        }
        at = at + 1;
    }
    false
}

/// Whether the reducer ends the session.
pub fn effects_disconnect(effects: &Vec<Effect>) -> (disconnects: bool)
    ensures
        disconnects == exists|i: int|
            0 <= i < effects@.len() && #[trigger] effects@[i] is Disconnect,
{
    let mut at: usize = 0;
    while at < effects.len()
        invariant
            at <= effects@.len(),
            forall|i: int| 0 <= i < at ==> !(#[trigger] effects@[i] is Disconnect),
        decreases effects@.len() - at,
    {
        if let Effect::Disconnect { .. } = effects[at] {
            assert(effects@[at as int] is Disconnect);
            return true;
        }
        at = at + 1;
    }
    false
}

} // verus!
