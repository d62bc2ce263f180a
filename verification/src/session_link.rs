//! Bringing a session up: its channels and the handshake on the control channel.

use vstd::prelude::*;
use crate::grants::Capability;
use crate::identifiers::{DeviceId, SessionId};
use crate::session_model::{PeerGrantState, SessionConfig};
use crate::session_safety::SessionRuntimeError;
use crate::session_wire::{
    ChannelKind,
    Channels,
    ControlMessage,
    DatagramAvailability,
    SessionRole,
    TransportEvent,
};

verus! {

/// The channels that have to be established, in this order.
pub open spec fn channel_plan_of(
    has_control: bool,
    datagrams: DatagramAvailability,
) -> Seq<ChannelKind> {
    (if has_control {
        seq![]
    } else {
        seq![ChannelKind::Control]
    }) + seq![ChannelKind::ReliableInput] + (if datagrams == DatagramAvailability::Unavailable {
        seq![ChannelKind::PointerFallback]
    } else {
        seq![]
    }) + seq![ChannelKind::Clipboard, ChannelKind::FileManifest, ChannelKind::FileData]
}

/// The channels that have to be established. A control channel that pairing has
/// opened is used again; pointer input has a channel of its own only where the
/// connection carries no datagrams.
pub fn channel_plan(config: &SessionConfig, datagrams: DatagramAvailability) -> (plan: Vec<
    ChannelKind,
>)
    ensures
        plan@ == channel_plan_of(config.existing_control is Some, datagrams),
{
    let mut plan: Vec<ChannelKind> = Vec::new();
    if config.existing_control.is_none() {
        plan.push(ChannelKind::Control);
    }
    plan.push(ChannelKind::ReliableInput);
    if datagrams == DatagramAvailability::Unavailable {
        plan.push(ChannelKind::PointerFallback);
    }
    plan.push(ChannelKind::Clipboard);
    plan.push(ChannelKind::FileManifest);
    plan.push(ChannelKind::FileData);
    assert(plan@ =~= channel_plan_of(config.existing_control is Some, datagrams));
    plan
}

/// Whether this side opens the channels, or waits for them.
pub fn opens_channels(role: SessionRole) -> (opens: bool)
    ensures
        opens == (role == SessionRole::Opener),
{
    role == SessionRole::Opener
}

/// Takes the next channel. Anything but a bidirectional channel of the kind that
/// is due is a violation.
pub fn establish_channel(kind: ChannelKind, event: TransportEvent) -> (channel: Result<
    u64,
    SessionRuntimeError,
>)
    ensures
        channel == match event {
            TransportEvent::ChannelOpened { channel, kind: actual, bidirectional } => if actual
                == kind && bidirectional {
                Ok(channel)
            } else {
                Err(SessionRuntimeError::ProtocolViolation)
            },
            _ => Err(SessionRuntimeError::ProtocolViolation),
        },
{
    match event {
        TransportEvent::ChannelOpened { channel, kind: actual, bidirectional } => if actual == kind
            && bidirectional {
            Ok(channel)
        } else {
            Err(SessionRuntimeError::ProtocolViolation)
        },
        _ => Err(SessionRuntimeError::ProtocolViolation),
    }
}

/// Puts the channels together, in the order in which they were established.
pub fn establish_channels(
    config: &SessionConfig,
    datagrams: DatagramAvailability,
    opened: &Vec<u64>,
) -> (channels: Option<Channels>)
    ensures
        ({
            let plan = channel_plan_of(config.existing_control is Some, datagrams);
            match channels {
                None => opened@.len() != plan.len(),
                Some(all) => {
                    &&& opened@.len() == plan.len()
                    &&& all.datagrams == datagrams
                    &&& forall|i: int|
                        0 <= i < plan.len() ==> #[trigger] has_channel(all, plan[i], opened@[i])
                    &&& config.existing_control matches Some(known) ==> all.control == known
                    &&& all.pointer_fallback is Some <==> datagrams
                        == DatagramAvailability::Unavailable
                },
            }
        }),
{
    let plan = channel_plan(config, datagrams);
    if opened.len() != plan.len() {
        return None;
    }
    let mut at: usize = 0;
    let control: u64 = match config.existing_control {
        Some(channel) => channel,
        None => {
            at = 1;
            opened[0]
        },
    };
    let reliable_input: u64 = opened[at];
    at = at + 1;
    let pointer_fallback: Option<u64> = if datagrams == DatagramAvailability::Unavailable {
        at = at + 1;
        Some(opened[at - 1])
    } else {
        None
    };
    Some(
        Channels {
            control,
            reliable_input,
            pointer_fallback,
            clipboard: opened[at],
            file_manifest: opened[at + 1],
            file_data: opened[at + 2],
            datagrams,
        },
    )
}

/// The channel of one kind.
pub open spec fn has_channel(channels: Channels, kind: ChannelKind, channel: u64) -> bool {
    match kind {
        ChannelKind::Control => channels.control == channel,
        ChannelKind::ReliableInput => channels.reliable_input == channel,
        ChannelKind::PointerFallback => channels.pointer_fallback == Some(channel),
        ChannelKind::Clipboard => channels.clipboard == channel,
        ChannelKind::FileManifest => channels.file_manifest == channel,
        ChannelKind::FileData => channels.file_data == channel,
    }
}

/// Whether a hello announces exactly the version that is spoken here. `current`
/// says of each announced version whether it is that one.
pub fn announces_current_only(current: &Vec<bool>) -> (only: bool)
    ensures
        only == (current@ == seq![true]),
{
    let only = current.len() == 1 && current[0];
    assert(only ==> current@ =~= seq![true]);
    only
}

/// What is sent to open a session, in this order. A side that grants nothing
/// sends no grant.
pub open spec fn handshake_of(config: SessionConfig, session_id: SessionId) -> Seq<
    ControlMessage,
> {
    let capabilities = config.local_grants_to_peer;
    let hello = ControlMessage::Hello { current_version_only: true, capabilities };
    let open = ControlMessage::SessionOpen {
        session_id,
        peer: config.peer_device,
        epoch: config.local_grant_epoch,
    };
    if capabilities.none() {
        seq![hello, open]
    } else {
        seq![
            hello,
            ControlMessage::CapabilityGrant {
                peer: config.peer_device,
                capabilities,
                epoch: config.local_grant_epoch,
            },
            open,
        ]
    }
}

/// The messages that open a session. The grant and the session name whom they
/// are for, not who sends them.
pub fn send_handshake(config: &SessionConfig, session_id: SessionId) -> (messages: Vec<
    ControlMessage,
>)
    ensures
        messages@ == handshake_of(*config, session_id),
{
    let capabilities = config.local_grants_to_peer;
    let mut messages: Vec<ControlMessage> = Vec::new();
    messages.push(ControlMessage::Hello { current_version_only: true, capabilities });
    if !capabilities.is_empty() {
        messages.push(
            ControlMessage::CapabilityGrant {
                peer: config.peer_device,
                capabilities,
                epoch: config.local_grant_epoch,
            },
        );
    }
    messages.push(
        ControlMessage::SessionOpen {
            session_id,
            peer: config.peer_device,
            epoch: config.local_grant_epoch,
        },
    );
    assert(messages@ =~= handshake_of(*config, session_id));
    messages
}

/// Takes a frame of the handshake. `message` is what the frame holds, if it
/// holds a control message.
pub fn receive_control_frame(
    control: u64,
    event: TransportEvent,
    message: Option<ControlMessage>,
) -> (received: Result<ControlMessage, SessionRuntimeError>)
    ensures
        received == if event == (TransportEvent::ReliableData {
            channel: control,
            end_of_stream: false,
        }) && message is Some {
            Ok(message->Some_0)
        } else {
            Err(SessionRuntimeError::ProtocolViolation)
        },
{
    match (event, message) {
        (TransportEvent::ReliableData { channel, end_of_stream: false }, Some(known)) => if channel
            == control {
            Ok(known)
        } else {
            Err(SessionRuntimeError::ProtocolViolation)
        },
        _ => Err(SessionRuntimeError::ProtocolViolation),
    }
}

/// The frames of a handshake: a hello, a grant if the second frame is one, and
/// the session.
#[derive(Clone, Copy, Debug)]
pub struct HandshakeFrames {
    pub hello: Option<ControlMessage>,
    pub grant: Option<ControlMessage>,
    pub session: Option<ControlMessage>,
}

impl HandshakeFrames {
    /// The frames that were taken, as a sequence.
    pub open spec fn received(self) -> Seq<ControlMessage> {
        (match self.hello {
            Some(message) => seq![message],
            None => seq![],
        }) + (match self.grant {
            Some(message) => seq![message],
            None => seq![],
        }) + (match self.session {
            Some(message) => seq![message],
            None => seq![],
        })
    }

    /// Frames come in order, and only the second one may be a grant.
    pub open spec fn wf(self) -> bool {
        &&& (self.grant is Some || self.session is Some) ==> self.hello is Some
        &&& self.grant matches Some(message) ==> message is CapabilityGrant
        &&& self.grant is None ==> (self.session matches Some(message) ==> !(
        message is CapabilityGrant))
    }

    /// No frame was taken yet.
    pub fn new() -> (frames: HandshakeFrames)
        ensures
            frames == (HandshakeFrames { hello: None, grant: None, session: None }),
            frames.wf(),
            frames.received() == Seq::<ControlMessage>::empty(),
    {
        let frames = HandshakeFrames { hello: None, grant: None, session: None };
        assert(frames.received() =~= Seq::<ControlMessage>::empty());
        frames
    }

    /// Takes one more frame, and says whether the handshake is whole.
    pub fn push(&mut self, message: ControlMessage) -> (whole: bool)
        requires
            old(self).wf(),
            old(self).session is None,
        ensures
            final(self).wf(),
            final(self).received() == old(self).received().push(message),
            whole == (final(self).session is Some),
            whole == (old(self).hello is Some && (old(self).grant is Some || !(
            message is CapabilityGrant))),
    {
        if self.hello.is_none() {
            self.hello = Some(message);
            assert(self.received() =~= old(self).received().push(message));
            return false;
        }
        if self.grant.is_none() {
            if let ControlMessage::CapabilityGrant { .. } = message {
                self.grant = Some(message);
                assert(self.received() =~= old(self).received().push(message));
                return false;
            }
        }
        self.session = Some(message);
        assert(self.received() =~= old(self).received().push(message));
        true
    }
}

/// What a handshake says.
#[derive(Clone, Copy, Debug, PartialEq, Eq, Structural)]
pub struct Handshake {
    pub capabilities: Capability,
    pub granted: Capability,
    pub peer: DeviceId,
    pub session_id: SessionId,
    pub session_peer: DeviceId,
    pub epoch: u64,
}

pub open spec fn unpacked(
    hello: ControlMessage,
    grant: Option<ControlMessage>,
    session: ControlMessage,
) -> Result<Handshake, SessionRuntimeError> {
    match (hello, session) {
        (
            ControlMessage::Hello { current_version_only, capabilities },
            ControlMessage::SessionOpen { session_id, peer: session_peer, epoch: session_epoch },
        ) => if !current_version_only {
            Err(SessionRuntimeError::ProtocolViolation)
        } else {
            match grant {
                None => if capabilities.none() {
                    Ok(
                        Handshake {
                            capabilities,
                            granted: capabilities,
                            peer: session_peer,
                            session_id,
                            session_peer,
                            epoch: session_epoch,
                        },
                    )
                } else {
                    Err(SessionRuntimeError::ProtocolViolation)
                },
                Some(ControlMessage::CapabilityGrant { peer, capabilities: granted, epoch }) => {
                    if !granted.none() && epoch == session_epoch {
                        Ok(
                            Handshake {
                                capabilities,
                                granted,
                                peer,
                                session_id,
                                session_peer,
                                epoch,
                            },
                        )
                    } else {
                        Err(SessionRuntimeError::ProtocolViolation)
                    }
                },
                Some(_) => Err(SessionRuntimeError::ProtocolViolation),
            }
        },
        _ => Err(SessionRuntimeError::ProtocolViolation),
    }
}

/// Reads the frames of a handshake. Exactly the current version is spoken; a
/// grant grants something, and only a peer that announces nothing sends none.
pub fn unpack_handshake(
    hello: &ControlMessage,
    grant: Option<ControlMessage>,
    session: &ControlMessage,
) -> (handshake: Result<Handshake, SessionRuntimeError>)
    ensures
        handshake == unpacked(*hello, grant, *session),
{
    let capabilities = match hello {
        ControlMessage::Hello { current_version_only: true, capabilities } => *capabilities,
        _ => {
            return Err(SessionRuntimeError::ProtocolViolation);
        },
    };
    match session {
        ControlMessage::SessionOpen { session_id, peer: session_peer, epoch: session_epoch } => {
            match grant {
                None => {
                    if !capabilities.is_empty() {
                        return Err(SessionRuntimeError::ProtocolViolation);
                    }
                    Ok(
                        Handshake {
                            capabilities,
                            granted: capabilities,
                            peer: *session_peer,
                            session_id: *session_id,
                            session_peer: *session_peer,
                            epoch: *session_epoch,
                        },
                    )
                },
                Some(ControlMessage::CapabilityGrant { peer, capabilities: granted, epoch }) => {
                    if granted.is_empty() || epoch != *session_epoch {
                        return Err(SessionRuntimeError::ProtocolViolation);
                    }
                    Ok(
                        Handshake {
                            capabilities,
                            granted,
                            peer,
                            session_id: *session_id,
                            session_peer: *session_peer,
                            epoch,
                        },
                    )
                },
                Some(_) => Err(SessionRuntimeError::ProtocolViolation),
            }
        },
        _ => Err(SessionRuntimeError::ProtocolViolation),
    }
}

/// What a handshake has to say to be accepted.
pub open spec fn acceptable(config: SessionConfig, handshake: Handshake) -> bool {
    &&& handshake.capabilities == handshake.granted
    &&& handshake.peer == config.local_device
    &&& handshake.session_peer == config.local_device
    &&& config.peer_grant_epoch matches Some(expected) ==> expected == handshake.epoch
    &&& config.peer_grants_to_local matches Some(expected) ==> expected == handshake.capabilities
}

/// Holds a handshake against what is expected of this peer.
pub fn validate_handshake(config: &SessionConfig, handshake: &Handshake) -> (valid: Result<
    (),
    SessionRuntimeError,
>)
    ensures
        valid == if acceptable(*config, *handshake) {
            Ok(())
        } else {
            Err::<(), _>(SessionRuntimeError::ProtocolViolation)
        },
{
    let epoch_differs = match config.peer_grant_epoch {
        Some(expected) => expected != handshake.epoch,
        None => false,
    };
    let grants_differ = match config.peer_grants_to_local {
        Some(expected) => expected != handshake.capabilities,
        None => false,
    };
    if handshake.capabilities != handshake.granted || handshake.peer != config.local_device
        || handshake.session_peer != config.local_device || epoch_differs || grants_differ {
        Err(SessionRuntimeError::ProtocolViolation)
    } else {
        Ok(())
    }
}

/// What the accepting side makes of a handshake.
pub open spec fn opening(config: SessionConfig, frames: HandshakeFrames) -> Result<
    (SessionId, PeerGrantState),
    SessionRuntimeError,
> {
    match (frames.hello, frames.session) {
        (Some(hello), Some(session)) => match unpacked(hello, frames.grant, session) {
            Ok(handshake) => if acceptable(config, handshake) {
                Ok(
                    (
                        handshake.session_id,
                        PeerGrantState {
                            capabilities: handshake.capabilities,
                            epoch: handshake.epoch,
                        },
                    ),
                )
            } else {
                Err(SessionRuntimeError::ProtocolViolation)
            },
            Err(error) => Err(error),
        },
        _ => Err(SessionRuntimeError::ProtocolViolation),
    }
}

/// Takes the opener's handshake: its session and what it grants.
pub fn receive_opening_handshake(config: &SessionConfig, frames: &HandshakeFrames) -> (accepted:
    Result<(SessionId, PeerGrantState), SessionRuntimeError>)
    ensures
        accepted == opening(*config, *frames),
{
    match (frames.hello, frames.session) {
        (Some(hello), Some(session)) => {
            let handshake = match unpack_handshake(&hello, frames.grant, &session) {
                Ok(handshake) => handshake,
                Err(error) => {
                    return Err(error);
                },
            };
            if let Err(error) = validate_handshake(config, &handshake) {
                return Err(error);
            }
            Ok(
                (
                    handshake.session_id,
                    PeerGrantState {
                        capabilities: handshake.capabilities,
                        epoch: handshake.epoch,
                    },
                ),
            )
        },
        _ => Err(SessionRuntimeError::ProtocolViolation),
    }
}

/// Takes the acceptor's handshake, which has to be for the session that was
/// opened.
pub fn receive_handshake(
    config: &SessionConfig,
    frames: &HandshakeFrames,
    expected_session: SessionId,
) -> (accepted: Result<PeerGrantState, SessionRuntimeError>)
    ensures
        accepted == match opening(*config, *frames) {
            Ok((session_id, grant)) => if session_id == expected_session {
                Ok(grant)
            } else {
                Err(SessionRuntimeError::ProtocolViolation)
            },
            Err(error) => Err(error),
        },
{
    match receive_opening_handshake(config, frames) {
        Ok((session_id, grant)) => {
            if session_id != expected_session {
                return Err(SessionRuntimeError::ProtocolViolation);
            }
            Ok(grant)
        },
        Err(error) => Err(error),
    }
}

/// A handshake that one side sends is accepted by the side that it is for, and
/// gives it the session and the grants of the sender.
pub proof fn law_handshakes_are_understood(
    sender: SessionConfig,
    receiver: SessionConfig,
    session_id: SessionId,
    frames: HandshakeFrames,
)
    requires
        sender.peer_device == receiver.local_device,
        receiver.peer_grant_epoch matches Some(expected) ==> expected == sender.local_grant_epoch,
        receiver.peer_grants_to_local matches Some(expected) ==> expected
            == sender.local_grants_to_peer,
        frames.wf(),
        frames.session is Some,
        frames.received() == handshake_of(sender, session_id),
    ensures
        opening(receiver, frames) == Ok::<_, SessionRuntimeError>(
            (
                session_id,
                PeerGrantState {
                    capabilities: sender.local_grants_to_peer,
                    epoch: sender.local_grant_epoch,
                },
            ),
        ),
{
    let sent = handshake_of(sender, session_id);
    let all = frames.received();
    assert(frames.hello is Some);
    assert(all[0] == frames.hello->Some_0);
    assert(all[0] == sent[0]);
    assert(all.last() == frames.session->Some_0);
    assert(all.last() == sent.last());
    if frames.grant is Some {
        assert(all.len() == 3);
        assert(all[1] == frames.grant->Some_0);
        assert(all[1] == sent[1]);
    } else {
        assert(all.len() == 2);
    }
}

/// A handshake that is not for this device is never accepted.
pub proof fn law_handshakes_for_others_are_refused(
    sender: SessionConfig,
    receiver: SessionConfig,
    session_id: SessionId,
    frames: HandshakeFrames,
)
    requires
        sender.peer_device != receiver.local_device,
        frames.wf(),
        frames.session is Some,
        frames.received() == handshake_of(sender, session_id),
    ensures
        opening(receiver, frames) is Err,
{
    let sent = handshake_of(sender, session_id);
    let all = frames.received();
    assert(frames.hello is Some);
    assert(all.last() == frames.session->Some_0);
    assert(all.last() == sent.last());
}

/// Every channel of a session is established once, the control channel first
/// unless pairing has opened it, and the one that stands in for datagrams exactly
/// where there are none.
pub proof fn law_every_channel_is_established_once(
    has_control: bool,
    datagrams: DatagramAvailability,
    kind: ChannelKind,
)
    ensures
        ({
            let plan = channel_plan_of(has_control, datagrams);
            let wanted = match kind {
                ChannelKind::Control => !has_control,
                ChannelKind::PointerFallback => datagrams is Unavailable,
                ChannelKind::ReliableInput => true,
                ChannelKind::Clipboard => true,
                ChannelKind::FileManifest => true,
                ChannelKind::FileData => true,
            };
            &&& plan.contains(kind) <==> wanted
            &&& forall|i: int, j: int|
                0 <= i < j < plan.len() ==> #[trigger] plan[i] != #[trigger] plan[j]
            &&& !has_control ==> plan[0] is Control
            &&& plan[plan.len() - 3] is Clipboard
            &&& plan[plan.len() - 2] is FileManifest
            &&& plan[plan.len() - 1] is FileData
            &&& plan[if has_control {
                0int
            } else {
                1int
            }] is ReliableInput
        }),
{
    let plan = channel_plan_of(has_control, datagrams);
    let first: int = if has_control {
        0
    } else {
        1
    };
    assert(plan[first] is ReliableInput);
    if !has_control {
        assert(plan[0] is Control);
    }
    if datagrams is Unavailable {
        assert(plan[first + 1] is PointerFallback);
    }
    assert(plan[plan.len() - 3] is Clipboard);
    assert(plan[plan.len() - 2] is FileManifest);
    assert(plan[plan.len() - 1] is FileData);
}

/// A channel is of one kind exactly if that kind's place holds it.
pub proof fn law_channels_stand_in_their_places(channels: Channels, channel: u64)
    ensures
        has_channel(channels, ChannelKind::Control, channel) <==> channel == channels.control,
        has_channel(channels, ChannelKind::ReliableInput, channel) <==> channel
            == channels.reliable_input,
        has_channel(channels, ChannelKind::PointerFallback, channel) <==> Some(channel)
            == channels.pointer_fallback,
        has_channel(channels, ChannelKind::Clipboard, channel) <==> channel == channels.clipboard,
        has_channel(channels, ChannelKind::FileManifest, channel) <==> channel
            == channels.file_manifest,
        has_channel(channels, ChannelKind::FileData, channel) <==> channel == channels.file_data,
{
}

/// The handshake begins with a hello in the version that is spoken here and ends
/// with the session. A grant stands between them exactly if something is granted.
/// All of it names what this side grants, whom to, and in which epoch.
pub proof fn law_handshakes_say_what_is_granted(config: SessionConfig, session_id: SessionId)
    ensures
        ({
            let frames = handshake_of(config, session_id);
            let granted = config.local_grants_to_peer;
            let something = granted.remote_input || granted.clipboard_read || granted.clipboard_write
                || granted.file_transfer;
            &&& frames.len() == if something {
                3nat
            } else {
                2
            }
            &&& frames[0] == (ControlMessage::Hello {
                current_version_only: true,
                capabilities: granted,
            })
            &&& frames[frames.len() - 1] == (ControlMessage::SessionOpen {
                session_id,
                peer: config.peer_device,
                epoch: config.local_grant_epoch,
            })
            &&& something ==> frames[1] == (ControlMessage::CapabilityGrant {
                peer: config.peer_device,
                capabilities: granted,
                epoch: config.local_grant_epoch,
            })
        }),
{
}

/// A handshake is taken exactly if it is a hello in this version and a session,
/// with a grant between them where the hello says that something is granted: the
/// grant has to say the same as the hello and the session, be meant for this
/// device, and be what is known of the peer. What comes of it is that session, and
/// what was granted in that epoch.
pub proof fn law_handshakes_are_taken_as_they_agree(config: SessionConfig, frames: HandshakeFrames)
    ensures
        opening(config, frames) matches Err(error) ==> error is ProtocolViolation,
        opening(config, frames) is Ok <==> {
            &&& frames.hello matches Some(
                ControlMessage::Hello { current_version_only: true, capabilities: said },
            )
            &&& frames.session matches Some(
                ControlMessage::SessionOpen { peer: meant, epoch: since, .. },
            )
            &&& meant == config.local_device
            &&& config.peer_grant_epoch is None || config.peer_grant_epoch == Some(since)
            &&& config.peer_grants_to_local is None || config.peer_grants_to_local == Some(said)
            &&& {
                let something = said.remote_input || said.clipboard_read || said.clipboard_write
                    || said.file_transfer;
                &&& !something ==> frames.grant is None
                &&& something ==> frames.grant == Some(
                    ControlMessage::CapabilityGrant {
                        peer: config.local_device,
                        capabilities: said,
                        epoch: since,
                    },
                )
            }
        },
        opening(config, frames) matches Ok((opened, state)) ==> (frames.hello matches Some(
            ControlMessage::Hello { capabilities, .. },
        ) && state.capabilities == capabilities && (frames.session matches Some(
            ControlMessage::SessionOpen { session_id, epoch, .. },
        ) && opened == session_id && state.epoch == epoch)),
{
}

/// A channel counts as open only under the kind it was asked for, and only
/// where both sides can send on it.
pub proof fn law_channels_open_as_asked_for(
    kind: ChannelKind,
    event: TransportEvent,
    opened: Result<u64, SessionRuntimeError>,
)
    requires
        call_ensures(establish_channel, (kind, event), opened),
    ensures
        opened matches Ok(id) ==> event == (TransportEvent::ChannelOpened {
            channel: id,
            kind,
            bidirectional: true,
        }),
        opened matches Err(error) ==> error is ProtocolViolation && forall|id: u64|
            event != (#[trigger] opened_event(id, kind)),
{
}

/// The event that says that a channel of a kind is open to both sides.
pub open spec fn opened_event(channel: u64, kind: ChannelKind) -> TransportEvent {
    TransportEvent::ChannelOpened { channel, kind, bidirectional: true }
}

/// A control message is taken only from a frame of the control channel that
/// does not end it.
pub proof fn law_control_frames_come_on_their_channel(
    control: u64,
    event: TransportEvent,
    message: Option<ControlMessage>,
    received: Result<ControlMessage, SessionRuntimeError>,
)
    requires
        call_ensures(receive_control_frame, (control, event, message), received),
    ensures
        received matches Ok(taken) ==> {
            &&& message == Some(taken)
            &&& event matches TransportEvent::ReliableData { channel, end_of_stream } && channel
                == control && !end_of_stream
        },
        received matches Err(error) ==> error is ProtocolViolation,
        message is Some && event == (TransportEvent::ReliableData {
            channel: control,
            end_of_stream: false,
        }) ==> received is Ok,
{
}

/// An opening of another session is refused, however well formed it is.
pub proof fn law_openings_of_other_sessions_are_refused(
    config: SessionConfig,
    frames: HandshakeFrames,
    expected_session: SessionId,
    accepted: Result<PeerGrantState, SessionRuntimeError>,
)
    requires
        call_ensures(receive_handshake, (&config, &frames, expected_session), accepted),
    ensures
        accepted is Ok <==> (opening(config, frames) matches Ok((session, _)) && session
            == expected_session),
        opening(config, frames) matches Ok((session, grant)) ==> (accepted matches Ok(taken)
            ==> taken == grant),
        opening(config, frames) is Ok && accepted is Err ==> accepted == Err::<PeerGrantState, _>(
            SessionRuntimeError::ProtocolViolation,
        ),
{
}

/// One side opens the channels, and the protocol is announced in its current
/// form alone.
pub proof fn law_one_side_opens(role: SessionRole, opens: bool, current: Vec<bool>, only: bool)
    requires
        call_ensures(opens_channels, (role,), opens),
        call_ensures(announces_current_only, (&current,), only),
    ensures
        opens <==> role is Opener,
        !opens <==> role is Acceptor,
        only ==> current@.len() == 1 && current@[0],
        current@.len() == 1 && current@[0] ==> only,
{
    if current@.len() == 1 && current@[0] {
        assert(current@ =~= seq![true]);
    }
}

/// Of the channels that are opened each stands under its own kind, and one for
/// pointer motion is opened exactly where datagrams are not to be had.
pub proof fn law_opened_channels_stand_under_their_kind(
    config: SessionConfig,
    datagrams: DatagramAvailability,
    opened: Vec<u64>,
    channels: Option<Channels>,
)
    requires
        call_ensures(establish_channels, (&config, datagrams, &opened), channels),
    ensures
        channels matches Some(all) ==> {
            &&& all.datagrams == datagrams
            &&& all.pointer_fallback is Some <==> datagrams is Unavailable
            &&& config.existing_control matches Some(known) ==> all.control == known
        },
{
}

} // verus!
