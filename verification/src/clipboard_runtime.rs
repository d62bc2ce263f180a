//! Capability-checked clipboard exchange.
//!
//! The clipboard reducer and the platform clipboard work outside. The runtime
//! checks what the peer sends, and turns the reducer's effects into messages and
//! into work for the platform, one effect at a time.

use vstd::prelude::*;
use crate::grants::{sequence_after, Capability, EventMeta};
use crate::identifiers::{DeviceId, SessionId};

verus! {

#[derive(Clone, Copy, Debug, PartialEq, Eq, Structural)]
pub enum ClipboardRuntimeError {
    /// A message failed validation.
    Protocol,
    /// The capability was not granted.
    GrantDenied,
    /// The platform clipboard failed.
    Platform,
}

#[derive(Clone, Copy, Debug, PartialEq, Eq, Structural)]
pub enum RepresentationKind {
    Utf8Text,
    Html,
    Png,
    Bmp,
    FileList,
}

/// The digest of some content.
#[derive(Clone, Copy, Debug, PartialEq, Eq, Structural)]
pub struct ContentHash {
    pub high: u128,
    pub low: u128,
}

#[derive(Clone, Copy, Debug, PartialEq, Eq, Structural)]
pub struct RepresentationKey {
    pub origin: DeviceId,
    pub revision: u64,
    pub kind: RepresentationKind,
    pub hash: ContentHash,
}

#[derive(Clone, Copy, Debug, PartialEq, Eq, Structural)]
pub struct RepresentationMeta {
    pub kind: RepresentationKind,
    pub byte_len: u64,
    pub hash: ContentHash,
}

#[derive(Debug, PartialEq, Eq)]
pub enum ClipboardOffer {
    Cleared { origin: DeviceId, revision: u64 },
    Content { origin: DeviceId, revision: u64, representations: Vec<RepresentationMeta> },
}

/// What the clipboard reducer asks for.
#[derive(Debug, PartialEq, Eq)]
pub enum ClipboardEffect {
    SendOffer { offer: ClipboardOffer },
    SendRequest { key: RepresentationKey },
    SendChunk { key: RepresentationKey, offset: u64, bytes: Vec<u8> },
    SendAbort { revision: u64, reason: u16 },
    RemoteOfferAvailable { offer: ClipboardOffer },
    ReadLocalChunk { key: RepresentationKey, offset: u64, max_bytes: usize },
    BeginReceive { key: RepresentationKey, byte_len: u64 },
    WriteReceiveChunk { key: RepresentationKey, offset: u64, bytes: Vec<u8> },
    CommitReceive { key: RepresentationKey },
    AbortReceive { key: RepresentationKey },
    ClearLocal { origin: DeviceId, revision: u64 },
}

#[derive(Debug, PartialEq, Eq)]
pub enum ClipboardMessage {
    Offer { meta: EventMeta, revision: u64, representations: Vec<RepresentationMeta> },
    Clear { meta: EventMeta, revision: u64 },
    Request { meta: EventMeta, revision: u64, kind: RepresentationKind, hash: ContentHash },
    Chunk {
        meta: EventMeta,
        revision: u64,
        kind: RepresentationKind,
        hash: ContentHash,
        offset: u64,
        bytes: Vec<u8>,
    },
    Abort { meta: EventMeta, revision: u64, reason: u16 },
    Unknown,
}

/// What this side lets the peer do with its clipboard.
#[derive(Clone, Copy, Debug, PartialEq, Eq, Structural)]
pub struct PeerClipboardGrants {
    pub allow_peer_read: bool,
    pub allow_peer_write: bool,
}

/// The clipboard part of what is granted.
pub fn clipboard_grants(grants: Capability) -> (clipboard: PeerClipboardGrants)
    ensures
        clipboard == (PeerClipboardGrants {
            allow_peer_read: grants.clipboard_read,
            allow_peer_write: grants.clipboard_write,
        }),
{
    PeerClipboardGrants {
        allow_peer_read: grants.clipboard_read,
        allow_peer_write: grants.clipboard_write,
    }
}

/// What works in both directions: what this side allows and the peer takes part
/// in.
pub fn effective_grants(local: PeerClipboardGrants, peer: Capability) -> (effective:
    PeerClipboardGrants)
    ensures
        effective == (PeerClipboardGrants {
            allow_peer_read: local.allow_peer_read && peer.clipboard_write,
            allow_peer_write: local.allow_peer_write && peer.clipboard_read,
        }),
{
    PeerClipboardGrants {
        allow_peer_read: local.allow_peer_read && peer.clipboard_write,
        allow_peer_write: local.allow_peer_write && peer.clipboard_read,
    }
}

#[derive(Clone, Copy, Debug, PartialEq, Eq, Structural)]
pub struct ClipboardConfig {
    pub local_device: DeviceId,
    pub peer_device: DeviceId,
    pub session_id: SessionId,
    pub grant_epoch: u64,
    pub local_grants: PeerClipboardGrants,
    pub peer_capabilities: Capability,
}

pub struct ClipboardModel {
    pub config: ClipboardConfig,
    pub outbound_sequence: u64,
    pub inbound_sequence: Option<u64>,
    pub deferred: Seq<ClipboardEffect>,
}

pub struct PeerClipboardRuntime {
    config: ClipboardConfig,
    outbound_sequence: u64,
    inbound_sequence: Option<u64>,
    deferred: Vec<ClipboardEffect>,
}

impl View for PeerClipboardRuntime {
    type V = ClipboardModel;

    closed spec fn view(&self) -> ClipboardModel {
        ClipboardModel {
            config: self.config,
            outbound_sequence: self.outbound_sequence,
            inbound_sequence: self.inbound_sequence,
            deferred: self.deferred@,
        }
    }
}

pub open spec fn meta_of(message: ClipboardMessage) -> Option<EventMeta> {
    match message {
        ClipboardMessage::Offer { meta, .. } => Some(meta),
        ClipboardMessage::Clear { meta, .. } => Some(meta),
        ClipboardMessage::Request { meta, .. } => Some(meta),
        ClipboardMessage::Chunk { meta, .. } => Some(meta),
        ClipboardMessage::Abort { meta, .. } => Some(meta),
        ClipboardMessage::Unknown => None,
    }
}

/// The capability that a message has to name: content is written, requests read.
pub open spec fn capability_fits(message: ClipboardMessage, capability: Capability) -> bool {
    match message {
        ClipboardMessage::Offer { .. }
        | ClipboardMessage::Clear { .. }
        | ClipboardMessage::Chunk { .. } => capability == Capability::clipboard_write_only(),
        ClipboardMessage::Request { .. } => capability == Capability::clipboard_read_only(),
        ClipboardMessage::Abort { .. } => capability == Capability::clipboard_read_only()
            || capability == Capability::clipboard_write_only(),
        ClipboardMessage::Unknown => false,
    }
}

pub fn message_capability_is_valid(message: &ClipboardMessage, capability: Capability) -> (valid:
    bool)
    ensures
        valid == capability_fits(*message, capability),
{
    match message {
        ClipboardMessage::Offer { .. }
        | ClipboardMessage::Clear { .. }
        | ClipboardMessage::Chunk { .. } => capability == Capability::clipboard_write_only(),
        ClipboardMessage::Request { .. } => capability == Capability::clipboard_read_only(),
        ClipboardMessage::Abort { .. } => capability == Capability::clipboard_read_only()
            || capability == Capability::clipboard_write_only(),
        ClipboardMessage::Unknown => false,
    }
}

impl ClipboardModel {
    /// Why metadata of the peer is refused, if it is.
    pub open spec fn meta_error(self, meta: EventMeta) -> Option<ClipboardRuntimeError> {
        if meta.session_id != self.config.session_id || meta.origin != self.config.peer_device
            || meta.grant_epoch != self.config.grant_epoch || meta.sequence == 0 || (
        self.inbound_sequence matches Some(last) && meta.sequence <= last) {
            Some(ClipboardRuntimeError::Protocol)
        } else if meta.capability == Capability::clipboard_read_only()
            && self.config.local_grants.allow_peer_read || meta.capability
            == Capability::clipboard_write_only() && self.config.local_grants.allow_peer_write {
            None
        } else {
            Some(ClipboardRuntimeError::GrantDenied)
        }
    }

    /// Why a message of the peer is refused, if it is.
    pub open spec fn message_error(self, message: ClipboardMessage) -> Option<
        ClipboardRuntimeError,
    > {
        match meta_of(message) {
            None => Some(ClipboardRuntimeError::Protocol),
            Some(meta) => if !capability_fits(message, meta.capability) {
                Some(ClipboardRuntimeError::Protocol)
            } else {
                self.meta_error(meta)
            },
        }
    }

    pub open spec fn next_meta(self, capability: Capability) -> EventMeta {
        EventMeta {
            session_id: self.config.session_id,
            origin: self.config.local_device,
            sequence: sequence_after(self.outbound_sequence),
            grant_epoch: self.config.grant_epoch,
            capability,
        }
    }

    pub open spec fn after_meta(self) -> ClipboardModel {
        ClipboardModel { outbound_sequence: sequence_after(self.outbound_sequence), ..self }
    }

    /// The capability that an abort names.
    pub open spec fn abort_capability(self) -> Capability {
        if self.config.peer_capabilities.clipboard_read {
            Capability::clipboard_read_only()
        } else {
            Capability::clipboard_write_only()
        }
    }
}

/// What the reducer is told of a message.
#[derive(Debug, PartialEq, Eq)]
pub enum ClipboardCall {
    ReceiveOffer { offer: ClipboardOffer },
    ReceiveRequest { revision: u64, kind: RepresentationKind, hash: ContentHash },
    ReceiveChunk { key: RepresentationKey, offset: u64, bytes: Vec<u8> },
    ReceiveAbort { revision: u64 },
}

pub open spec fn call_of(message: ClipboardMessage, peer: DeviceId) -> Option<ClipboardCall> {
    match message {
        ClipboardMessage::Offer { revision, representations, .. } => Some(
            ClipboardCall::ReceiveOffer {
                offer: ClipboardOffer::Content { origin: peer, revision, representations },
            },
        ),
        ClipboardMessage::Clear { revision, .. } => Some(
            ClipboardCall::ReceiveOffer {
                offer: ClipboardOffer::Cleared { origin: peer, revision },
            },
        ),
        ClipboardMessage::Request { revision, kind, hash, .. } => Some(
            ClipboardCall::ReceiveRequest { revision, kind, hash },
        ),
        ClipboardMessage::Chunk { revision, kind, hash, offset, bytes, .. } => Some(
            ClipboardCall::ReceiveChunk {
                key: RepresentationKey { origin: peer, revision, kind, hash },
                offset,
                bytes,
            },
        ),
        ClipboardMessage::Abort { revision, .. } => Some(ClipboardCall::ReceiveAbort { revision }),
        ClipboardMessage::Unknown => None,
    }
}

/// Takes the representation that is wanted most among those that are offered and
/// that the platform supports.
pub open spec fn preferred(
    representations: Seq<RepresentationMeta>,
    supported: PlatformKinds,
) -> Option<RepresentationKind> {
    if wanted(representations, supported, RepresentationKind::Utf8Text) {
        Some(RepresentationKind::Utf8Text)
    } else if wanted(representations, supported, RepresentationKind::Html) {
        Some(RepresentationKind::Html)
    } else if wanted(representations, supported, RepresentationKind::Png) {
        Some(RepresentationKind::Png)
    } else if wanted(representations, supported, RepresentationKind::Bmp) {
        Some(RepresentationKind::Bmp)
    } else {
        None
    }
}

pub open spec fn wanted(
    representations: Seq<RepresentationMeta>,
    supported: PlatformKinds,
    kind: RepresentationKind,
) -> bool {
    supported.has(kind) && exists|i: int|
        0 <= i < representations.len() && (#[trigger] representations[i]).kind == kind
}

/// What the platform clipboard can hold.
#[derive(Clone, Copy, Debug, PartialEq, Eq, Structural)]
pub struct PlatformKinds {
    pub text: bool,
    pub html: bool,
    pub png: bool,
    pub bmp: bool,
}

impl PlatformKinds {
    pub open spec fn has(self, kind: RepresentationKind) -> bool {
        match kind {
            RepresentationKind::Utf8Text => self.text,
            RepresentationKind::Html => self.html,
            RepresentationKind::Png => self.png,
            RepresentationKind::Bmp => self.bmp,
            RepresentationKind::FileList => false,
        }
    }

    pub fn supports(&self, kind: RepresentationKind) -> (supported: bool)
        ensures
            supported == self.has(kind),
    {
        match kind {
            RepresentationKind::Utf8Text => self.text,
            RepresentationKind::Html => self.html,
            RepresentationKind::Png => self.png,
            RepresentationKind::Bmp => self.bmp,
            RepresentationKind::FileList => false,
        }
    }
}

fn offers(
    representations: &Vec<RepresentationMeta>,
    supported: &PlatformKinds,
    kind: RepresentationKind,
) -> (offered: bool)
    ensures
        offered == wanted(representations@, *supported, kind),
{
    if !supported.supports(kind) {
        return false;
    }
    let mut at: usize = 0;
    while at < representations.len()
        invariant
            at <= representations@.len(),
            supported.has(kind),
            forall|i: int| 0 <= i < at ==> (#[trigger] representations@[i]).kind != kind,
        decreases representations@.len() - at,
    {
        if representations[at].kind == kind {
            return true;
        }
        at = at + 1;
    }
    false
}

/// What is fetched of an offer, if anything: text rather than markup, markup
/// rather than images.
pub fn select_representation(offer: &ClipboardOffer, supported: &PlatformKinds) -> (selected: Option<
    (u64, RepresentationKind),
>)
    ensures
        selected == match *offer {
            ClipboardOffer::Cleared { .. } => None,
            ClipboardOffer::Content { revision, representations, .. } => match preferred(
                representations@,
                *supported,
            ) {
                Some(kind) => Some((revision, kind)),
                None => None,
            },
        },
{
    match offer {
        ClipboardOffer::Cleared { .. } => None,
        ClipboardOffer::Content { revision, representations, .. } => {
            if offers(representations, supported, RepresentationKind::Utf8Text) {
                Some((*revision, RepresentationKind::Utf8Text))
            } else if offers(representations, supported, RepresentationKind::Html) {
                Some((*revision, RepresentationKind::Html))
            } else if offers(representations, supported, RepresentationKind::Png) {
                Some((*revision, RepresentationKind::Png))
            } else if offers(representations, supported, RepresentationKind::Bmp) {
                Some((*revision, RepresentationKind::Bmp))
            } else {
                None
            }
        },
    }
}

impl PeerClipboardRuntime {
    pub fn new(config: ClipboardConfig) -> (runtime: PeerClipboardRuntime)
        ensures
            runtime@ == (ClipboardModel {
                config,
                outbound_sequence: 0,
                inbound_sequence: None,
                deferred: seq![],
            }),
    {
        let runtime = PeerClipboardRuntime {
            config,
            outbound_sequence: 0,
            inbound_sequence: None,
            deferred: Vec::new(),
        };
        assert(runtime@.deferred =~= seq![]);
        runtime
    }

    /// Whether the clipboard is watched at all.
    pub fn polls(&self) -> (polls: bool)
        ensures
            polls == (self@.config.local_grants.allow_peer_read
                && self@.config.peer_capabilities.clipboard_write
                || self@.config.local_grants.allow_peer_write
                && self@.config.peer_capabilities.clipboard_read),
    {
        let grants = effective_grants(self.config.local_grants, self.config.peer_capabilities);
        grants.allow_peer_read || grants.allow_peer_write
    }

    /// The clipboard was looked at. A change of it makes what was deferred void;
    /// else one deferred effect is carried out.
    pub fn polled(&mut self, observed: Option<Vec<ClipboardEffect>>) -> (run: Option<ClipboardRun>)
        ensures
            match observed {
                Some(effects) => {
                    &&& run matches Some(started) && started@ == (ClipboardRunModel {
                        pending: effects@,
                        outbound: seq![],
                    })
                    &&& final(self)@ == (ClipboardModel { deferred: seq![], ..old(self)@ })
                },
                None => if old(self)@.deferred.len() == 0 {
                    &&& run is None
                    &&& final(self)@ == old(self)@
                } else {
                    &&& run matches Some(started) && started@ == (ClipboardRunModel {
                        pending: seq![old(self)@.deferred[0]],
                        outbound: seq![],
                    })
                    &&& final(self)@ == (ClipboardModel {
                        deferred: old(self)@.deferred.skip(1),
                        ..old(self)@
                    })
                },
            },
    {
        match observed {
            Some(effects) => {
                self.deferred = Vec::new();
                assert(self@.deferred =~= seq![]);
                Some(ClipboardRun::start(effects))
            },
            None => {
                if self.deferred.len() == 0 {
                    return None;
                }
                let effect = self.deferred.remove(0);
                assert(self@.deferred =~= old(self)@.deferred.skip(1));
                let mut effects: Vec<ClipboardEffect> = Vec::new();
                effects.push(effect);
                assert(effects@ =~= seq![old(self)@.deferred[0]]);
                Some(ClipboardRun::start(effects))
            },
        }
    }

    /// The session ends: nothing is deferred any more.
    pub fn disconnect(&mut self, effects: Vec<ClipboardEffect>) -> (run: ClipboardRun)
        ensures
            run@ == (ClipboardRunModel { pending: effects@, outbound: seq![] }),
            final(self)@ == (ClipboardModel { deferred: seq![], ..old(self)@ }),
    {
        self.deferred = Vec::new();
        assert(self@.deferred =~= seq![]);
        ClipboardRun::start(effects)
    }

    fn validate_remote_meta(&self, meta: &EventMeta) -> (valid: Result<(), ClipboardRuntimeError>)
        ensures
            valid == match self@.meta_error(*meta) {
                Some(error) => Err(error),
                None => Ok(()),
            },
    {
        let replayed = match self.inbound_sequence {
            Some(last) => meta.sequence <= last,
            None => false,
        };
        if meta.session_id != self.config.session_id || meta.origin != self.config.peer_device
            || meta.grant_epoch != self.config.grant_epoch || meta.sequence == 0 || replayed {
            return Err(ClipboardRuntimeError::Protocol);
        }
        let allowed = if meta.capability == Capability::clipboard_read_only() {
            self.config.local_grants.allow_peer_read
        } else if meta.capability == Capability::clipboard_write_only() {
            self.config.local_grants.allow_peer_write
        } else {
            false
        };
        if allowed {
            Ok(())
        } else {
            Err(ClipboardRuntimeError::GrantDenied)
        }
    }

    /// Checks a message of the peer, and says what the reducer is told.
    pub fn receive(&mut self, message: ClipboardMessage) -> (call: Result<
        ClipboardCall,
        ClipboardRuntimeError,
    >)
        ensures
            match old(self)@.message_error(message) {
                Some(error) => {
                    &&& call == Err::<ClipboardCall, _>(error)
                    &&& final(self)@ == old(self)@
                },
                None => {
                    &&& meta_of(message) matches Some(meta) && final(self)@ == (ClipboardModel {
                        inbound_sequence: Some(meta.sequence),
                        ..old(self)@
                    })
                    &&& call_of(message, old(self)@.config.peer_device) matches Some(expected)
                        && call == Ok::<_, ClipboardRuntimeError>(expected)
                },
            },
    {
        let meta = match &message {
            ClipboardMessage::Offer { meta, .. } => *meta,
            ClipboardMessage::Clear { meta, .. } => *meta,
            ClipboardMessage::Request { meta, .. } => *meta,
            ClipboardMessage::Chunk { meta, .. } => *meta,
            ClipboardMessage::Abort { meta, .. } => *meta,
            ClipboardMessage::Unknown => {
                return Err(ClipboardRuntimeError::Protocol);
            },
        };
        if !message_capability_is_valid(&message, meta.capability) {
            return Err(ClipboardRuntimeError::Protocol);
        }
        if let Err(error) = self.validate_remote_meta(&meta) {
            return Err(error);
        }
        self.inbound_sequence = Some(meta.sequence);
        let origin = self.config.peer_device;
        match message {
            ClipboardMessage::Offer { revision, representations, .. } => Ok(
                ClipboardCall::ReceiveOffer {
                    offer: ClipboardOffer::Content { origin, revision, representations },
                },
            ),
            ClipboardMessage::Clear { revision, .. } => Ok(
                ClipboardCall::ReceiveOffer {
                    offer: ClipboardOffer::Cleared { origin, revision },
                },
            ),
            ClipboardMessage::Request { revision, kind, hash, .. } => Ok(
                ClipboardCall::ReceiveRequest { revision, kind, hash },
            ),
            ClipboardMessage::Chunk { revision, kind, hash, offset, bytes, .. } => Ok(
                ClipboardCall::ReceiveChunk {
                    key: RepresentationKey { origin, revision, kind, hash },
                    offset,
                    bytes,
                },
            ),
            ClipboardMessage::Abort { revision, .. } => Ok(
                ClipboardCall::ReceiveAbort { revision },
            ),
            ClipboardMessage::Unknown => Err(ClipboardRuntimeError::Protocol),
        }
    }

    fn next_meta(&mut self, capability: Capability) -> (meta: EventMeta)
        ensures
            meta == old(self)@.next_meta(capability),
            final(self)@ == old(self)@.after_meta(),
    {
        if self.outbound_sequence == u64::MAX {
            self.outbound_sequence = 1;
        } else {
            self.outbound_sequence = self.outbound_sequence + 1;
        }
        EventMeta {
            session_id: self.config.session_id,
            origin: self.config.local_device,
            sequence: self.outbound_sequence,
            grant_epoch: self.config.grant_epoch,
            capability,
        }
    }
}

pub struct ClipboardRunModel {
    pub pending: Seq<ClipboardEffect>,
    pub outbound: Seq<ClipboardMessage>,
}

/// The reducer's effects while they are carried out, and the messages that came
/// of them.
pub struct ClipboardRun {
    pending: Vec<ClipboardEffect>,
    outbound: Vec<ClipboardMessage>,
}

impl View for ClipboardRun {
    type V = ClipboardRunModel;

    closed spec fn view(&self) -> ClipboardRunModel {
        ClipboardRunModel { pending: self.pending@, outbound: self.outbound@ }
    }
}

impl ClipboardRunModel {
    /// A chunk was made already.
    pub open spec fn has_chunk(self) -> bool {
        exists|i: int| 0 <= i < self.outbound.len() && #[trigger] self.outbound[i] is Chunk
    }

    pub open spec fn popped(self) -> ClipboardRunModel {
        ClipboardRunModel { pending: self.pending.skip(1), ..self }
    }

    pub open spec fn sent(self, message: ClipboardMessage) -> ClipboardRunModel {
        ClipboardRunModel { outbound: self.outbound.push(message), ..self }
    }
}

/// What a run needs done next.
#[derive(Debug, PartialEq, Eq)]
pub enum ClipboardStep {
    /// One effect was carried out.
    Continue,
    /// Ask the reducer for this part of the peer's clipboard; then `extend`.
    RequestRemote { revision: u64, kind: RepresentationKind },
    /// Have the platform carry this out; then `port_answered`, and `extend`. A
    /// failure cancels the revision.
    Execute { effect: ClipboardEffect, revision: u64 },
    Finished,
}

/// The revision that a platform effect is about.
pub open spec fn revision_of(effect: ClipboardEffect) -> u64 {
    match effect {
        ClipboardEffect::ReadLocalChunk { key, .. } => key.revision,
        ClipboardEffect::BeginReceive { key, .. } => key.revision,
        ClipboardEffect::WriteReceiveChunk { key, .. } => key.revision,
        ClipboardEffect::CommitReceive { key } => key.revision,
        ClipboardEffect::AbortReceive { key } => key.revision,
        ClipboardEffect::ClearLocal { revision, .. } => revision,
        _ => 0,
    }
}

/// The message that an effect sends, and under which capability.
pub open spec fn outgoing(effect: ClipboardEffect, runtime: ClipboardModel) -> Option<
    (Capability, ClipboardMessage),
> {
    let write = Capability::clipboard_write_only();
    let read = Capability::clipboard_read_only();
    match effect {
        ClipboardEffect::SendOffer { offer } => Some(
            (
                write,
                match offer {
                    ClipboardOffer::Cleared { revision, .. } => ClipboardMessage::Clear {
                        meta: runtime.next_meta(write),
                        revision,
                    },
                    ClipboardOffer::Content { revision, representations, .. } => {
                        ClipboardMessage::Offer {
                            meta: runtime.next_meta(write),
                            revision,
                            representations,
                        }
                    },
                },
            ),
        ),
        ClipboardEffect::SendRequest { key } => Some(
            (
                read,
                ClipboardMessage::Request {
                    meta: runtime.next_meta(read),
                    revision: key.revision,
                    kind: key.kind,
                    hash: key.hash,
                },
            ),
        ),
        ClipboardEffect::SendChunk { key, offset, bytes } => Some(
            (
                write,
                ClipboardMessage::Chunk {
                    meta: runtime.next_meta(write),
                    revision: key.revision,
                    kind: key.kind,
                    hash: key.hash,
                    offset,
                    bytes,
                },
            ),
        ),
        ClipboardEffect::SendAbort { revision, reason } => Some(
            (
                runtime.abort_capability(),
                ClipboardMessage::Abort {
                    meta: runtime.next_meta(runtime.abort_capability()),
                    revision,
                    reason,
                },
            ),
        ),
        _ => None,
    }
}

/// What the first pending effect leads to.
pub open spec fn clipboard_stepped(
    run: ClipboardRunModel,
    runtime: ClipboardModel,
    supported: PlatformKinds,
    step: Result<ClipboardStep, ClipboardRuntimeError>,
    after: ClipboardRunModel,
    runtime_after: ClipboardModel,
) -> bool {
    if run.pending.len() == 0 {
        &&& step == Ok::<_, ClipboardRuntimeError>(ClipboardStep::Finished)
        &&& after == run
        &&& runtime_after == runtime
    } else if run.pending[0] is ReadLocalChunk && run.has_chunk() {
        &&& step == Ok::<_, ClipboardRuntimeError>(ClipboardStep::Finished)
        &&& after == (ClipboardRunModel { pending: seq![], ..run })
        &&& runtime_after == (ClipboardModel {
            deferred: runtime.deferred + run.pending,
            ..runtime
        })
    } else {
        match outgoing(run.pending[0], runtime) {
            Some((capability, message)) => if runtime.config.peer_capabilities.holds(capability) {
                &&& step == Ok::<_, ClipboardRuntimeError>(ClipboardStep::Continue)
                &&& after == run.popped().sent(message)
                &&& runtime_after == runtime.after_meta()
            } else {
                &&& step == Err::<ClipboardStep, _>(ClipboardRuntimeError::GrantDenied)
                &&& after == run.popped()
                &&& runtime_after == runtime
            },
            None => {
                &&& after == run.popped()
                &&& runtime_after == runtime
                &&& match run.pending[0] {
                    ClipboardEffect::RemoteOfferAvailable { offer } => step == Ok::<
                        _,
                        ClipboardRuntimeError,
                    >(
                        match offer {
                            ClipboardOffer::Content { revision, representations, .. } => {
                                match preferred(representations@, supported) {
                                    Some(kind) => ClipboardStep::RequestRemote { revision, kind },
                                    None => ClipboardStep::Continue,
                                }
                            },
                            ClipboardOffer::Cleared { .. } => ClipboardStep::Continue,
                        },
                    ),
                    effect => step == Ok::<_, ClipboardRuntimeError>(
                        ClipboardStep::Execute { effect, revision: revision_of(effect) },
                    ),
                }
            },
        }
    }
}

impl ClipboardRun {
    /// Starts a run with what the reducer asked for.
    pub fn start(effects: Vec<ClipboardEffect>) -> (run: ClipboardRun)
        ensures
            run@ == (ClipboardRunModel { pending: effects@, outbound: seq![] }),
    {
        let run = ClipboardRun { pending: effects, outbound: Vec::new() };
        assert(run@.outbound =~= seq![]);
        run
    }

    fn made_chunk(&self) -> (made: bool)
        ensures
            made == self@.has_chunk(),
    {
        let mut at: usize = 0;
        while at < self.outbound.len()
            invariant
                at <= self.outbound@.len(),
                forall|i: int| 0 <= i < at ==> !(#[trigger] self.outbound@[i] is Chunk),
            decreases self.outbound@.len() - at,
        {
            if let ClipboardMessage::Chunk { .. } = self.outbound[at] {
                assert(self@.outbound[at as int] is Chunk);
                return true;
            }
            at = at + 1;
        }
        false
    }

    fn defer_all(&mut self, runtime: &mut PeerClipboardRuntime)
        ensures
            final(self)@ == (ClipboardRunModel { pending: seq![], ..old(self)@ }),
            final(runtime)@ == (ClipboardModel {
                deferred: old(runtime)@.deferred + old(self)@.pending,
                ..old(runtime)@
            }),
    {
        let mut rest: Vec<ClipboardEffect> = Vec::new();
        std::mem::swap(&mut rest, &mut self.pending);
        runtime.deferred.append(&mut rest);
        assert(self@.pending =~= seq![]);
        assert(runtime@.deferred =~= old(runtime)@.deferred + old(self)@.pending);
    }

    /// Carries out one effect. Once a chunk was made, reading the next one waits
    /// for the next turn, and so does everything after it.
    pub fn step(&mut self, runtime: &mut PeerClipboardRuntime, supported: &PlatformKinds) -> (step:
        Result<ClipboardStep, ClipboardRuntimeError>)
        ensures
            clipboard_stepped(
                old(self)@,
                old(runtime)@,
                *supported,
                step,
                final(self)@,
                final(runtime)@,
            ),
    {
        if self.pending.len() == 0 {
            return Ok(ClipboardStep::Finished);
        }
        let reads = match self.pending[0] {
            ClipboardEffect::ReadLocalChunk { .. } => true,
            _ => false,
        };
        if reads && self.made_chunk() {
            self.defer_all(runtime);
            return Ok(ClipboardStep::Finished);
        }
        let effect = self.pending.remove(0);
        assert(self@ == old(self)@.popped());
        let granted = runtime.config.peer_capabilities;
        match effect {
            ClipboardEffect::SendOffer { offer } => {
                if !granted.clipboard_write {
                    return Err(ClipboardRuntimeError::GrantDenied);
                }
                let meta = runtime.next_meta(Capability::clipboard_write_only());
                self.outbound.push(
                    match offer {
                        ClipboardOffer::Cleared { revision, .. } => ClipboardMessage::Clear {
                            meta,
                            revision,
                        },
                        ClipboardOffer::Content { revision, representations, .. } => {
                            ClipboardMessage::Offer { meta, revision, representations }
                        },
                    },
                );
                Ok(ClipboardStep::Continue)
            },
            ClipboardEffect::SendRequest { key } => {
                if !granted.clipboard_read {
                    return Err(ClipboardRuntimeError::GrantDenied);
                }
                let meta = runtime.next_meta(Capability::clipboard_read_only());
                self.outbound.push(
                    ClipboardMessage::Request {
                        meta,
                        revision: key.revision,
                        kind: key.kind,
                        hash: key.hash,
                    },
                );
                Ok(ClipboardStep::Continue)
            },
            ClipboardEffect::SendChunk { key, offset, bytes } => {
                if !granted.clipboard_write {
                    return Err(ClipboardRuntimeError::GrantDenied);
                }
                let meta = runtime.next_meta(Capability::clipboard_write_only());
                self.outbound.push(
                    ClipboardMessage::Chunk {
                        meta,
                        revision: key.revision,
                        kind: key.kind,
                        hash: key.hash,
                        offset,
                        bytes,
                    },
                );
                Ok(ClipboardStep::Continue)
            },
            ClipboardEffect::SendAbort { revision, reason } => {
                if !granted.clipboard_read && !granted.clipboard_write {
                    return Err(ClipboardRuntimeError::GrantDenied);
                }
                let capability = if granted.clipboard_read {
                    Capability::clipboard_read_only()
                } else {
                    Capability::clipboard_write_only()
                };
                let meta = runtime.next_meta(capability);
                self.outbound.push(ClipboardMessage::Abort { meta, revision, reason });
                Ok(ClipboardStep::Continue)
            },
            ClipboardEffect::RemoteOfferAvailable { offer } => {
                match select_representation(&offer, supported) {
                    Some((revision, kind)) => Ok(ClipboardStep::RequestRemote { revision, kind }),
                    None => Ok(ClipboardStep::Continue),
                }
            },
            platform => {
                let revision: u64 = match &platform {
                    ClipboardEffect::ReadLocalChunk { key, .. } => key.revision,
                    ClipboardEffect::BeginReceive { key, .. } => key.revision,
                    ClipboardEffect::WriteReceiveChunk { key, .. } => key.revision,
                    ClipboardEffect::CommitReceive { key } => key.revision,
                    ClipboardEffect::AbortReceive { key } => key.revision,
                    ClipboardEffect::ClearLocal { revision, .. } => *revision,
                    _ => 0,
                };
                Ok(ClipboardStep::Execute { effect: platform, revision })
            },
        }
    }

    /// Adds what the reducer asks for next.
    pub fn extend(&mut self, effects: Vec<ClipboardEffect>)
        ensures
            final(self)@ == (ClipboardRunModel {
                pending: old(self)@.pending + effects@,
                ..old(self)@
            }),
    {
        let mut more = effects;
        self.pending.append(&mut more);
        assert(self@.pending =~= old(self)@.pending + effects@);
    }

    /// Hands out the messages.
    pub fn into_messages(self) -> (messages: Vec<ClipboardMessage>)
        ensures
            messages@ == self@.outbound,
    {
        self.outbound
    }
}

/// What the platform clipboard answered.
#[derive(Debug, PartialEq, Eq)]
pub enum ClipboardPortOutcome {
    Completed,
    LocalChunk { key: RepresentationKey, offset: u64, bytes: Option<Vec<u8>> },
    RemoteApplied { key: RepresentationKey },
    RemoteCleared { origin: DeviceId, revision: u64 },
    Failed,
}

/// What the reducer is told of the platform's answer.
#[derive(Debug, PartialEq, Eq)]
pub enum PortAnswer {
    Nothing,
    /// The platform failed: give the revision up.
    CancelRevision { revision: u64 },
    LocalChunkRead { key: RepresentationKey, offset: u64, bytes: Option<Vec<u8>> },
    FinishRemoteApply { key: RepresentationKey },
    FinishRemoteClear { origin: DeviceId, revision: u64 },
}

pub fn port_answered(outcome: ClipboardPortOutcome, revision: u64) -> (answer: PortAnswer)
    ensures
        answer == match outcome {
            ClipboardPortOutcome::Completed => PortAnswer::Nothing,
            ClipboardPortOutcome::LocalChunk { key, offset, bytes } => PortAnswer::LocalChunkRead {
                key,
                offset,
                bytes,
            },
            ClipboardPortOutcome::RemoteApplied { key } => PortAnswer::FinishRemoteApply { key },
            ClipboardPortOutcome::RemoteCleared { origin, revision: cleared } => {
                PortAnswer::FinishRemoteClear { origin, revision: cleared }
            },
            ClipboardPortOutcome::Failed => PortAnswer::CancelRevision { revision },
        },
{
    match outcome {
        ClipboardPortOutcome::Completed => PortAnswer::Nothing,
        ClipboardPortOutcome::LocalChunk { key, offset, bytes } => PortAnswer::LocalChunkRead {
            key,
            offset,
            bytes,
        },
        ClipboardPortOutcome::RemoteApplied { key } => PortAnswer::FinishRemoteApply { key },
        ClipboardPortOutcome::RemoteCleared { origin, revision: cleared } => {
            PortAnswer::FinishRemoteClear { origin, revision: cleared }
        },
        ClipboardPortOutcome::Failed => PortAnswer::CancelRevision { revision },
    }
}

/// Once a run has made a chunk it reads no other one, and nothing that was
/// pending is lost: it waits for the next turn.
pub proof fn law_one_chunk_per_turn(
    run: ClipboardRunModel,
    runtime: ClipboardModel,
    supported: PlatformKinds,
    step: Result<ClipboardStep, ClipboardRuntimeError>,
    after: ClipboardRunModel,
    runtime_after: ClipboardModel,
)
    requires
        run.has_chunk(),
        clipboard_stepped(run, runtime, supported, step, after, runtime_after),
    ensures
        !(step matches Ok(ClipboardStep::Execute { effect, .. }) && effect is ReadLocalChunk),
        run.pending.len() > 0 && run.pending[0] is ReadLocalChunk ==> runtime_after.deferred
            == runtime.deferred + run.pending,
{
}

/// What one side sends under a grant, the other side accepts as far as its own
/// grants go, when they agree on the session, the devices and the epoch.
pub proof fn law_clipboard_messages_are_accepted(
    sender: ClipboardModel,
    receiver: ClipboardModel,
    effect: ClipboardEffect,
)
    requires
        receiver.config.session_id == sender.config.session_id,
        receiver.config.peer_device == sender.config.local_device,
        receiver.config.grant_epoch == sender.config.grant_epoch,
        receiver.inbound_sequence matches Some(last) ==> last < sequence_after(
            sender.outbound_sequence,
        ),
        sender.config.peer_capabilities.clipboard_read
            == receiver.config.local_grants.allow_peer_read,
        sender.config.peer_capabilities.clipboard_write
            == receiver.config.local_grants.allow_peer_write,
    ensures
        outgoing(effect, sender) matches Some((capability, message)) ==> (
        sender.config.peer_capabilities.holds(capability) <==> receiver.message_error(message)
            is None),
{
}

/// One step of a run, and what the reducer asked for after it.
pub struct ClipboardTurn {
    pub run: ClipboardRunModel,
    pub runtime: ClipboardModel,
    pub step: Result<ClipboardStep, ClipboardRuntimeError>,
    pub after: ClipboardRunModel,
    pub runtime_after: ClipboardModel,
    pub added: Seq<ClipboardEffect>,
}

/// The turns of a run from its start: each goes on where the one before it
/// stopped, with what the reducer added, and only the last one may end the run.
pub open spec fn clipboard_ran(turns: Seq<ClipboardTurn>, supported: PlatformKinds) -> bool {
    &&& turns.len() > 0
    &&& turns[0].run.outbound.len() == 0
    &&& forall|i: int|
        0 <= i < turns.len() ==> clipboard_stepped(
            (#[trigger] turns[i]).run,
            turns[i].runtime,
            supported,
            turns[i].step,
            turns[i].after,
            turns[i].runtime_after,
        )
    &&& forall|i: int|
        0 < i < turns.len() ==> {
            &&& (#[trigger] turns[i]).run == (ClipboardRunModel {
                pending: turns[i - 1].after.pending + turns[i - 1].added,
                ..turns[i - 1].after
            })
            &&& turns[i].runtime == turns[i - 1].runtime_after
            &&& turns[i - 1].step is Ok
            &&& turns[i - 1].step != Ok::<_, ClipboardRuntimeError>(ClipboardStep::Finished)
        }
}

/// The messages are those of this side under its grants, numbered without a gap
/// after `last`.
pub open spec fn numbered_after(
    messages: Seq<ClipboardMessage>,
    config: ClipboardConfig,
    last: u64,
) -> bool {
    forall|k: int|
        0 <= k < messages.len() ==> (meta_of(#[trigger] messages[k]) matches Some(meta) && {
            &&& meta.session_id == config.session_id
            &&& meta.origin == config.local_device
            &&& meta.grant_epoch == config.grant_epoch
            &&& config.peer_capabilities.holds(meta.capability)
            &&& meta.sequence == last + k + 1
        })
}

proof fn lemma_run_so_far(turns: Seq<ClipboardTurn>, supported: PlatformKinds, at: int)
    requires
        clipboard_ran(turns, supported),
        0 <= at < turns.len(),
        turns[0].runtime.outbound_sequence + turns.last().after.outbound.len() <= u64::MAX,
        turns[at].after.outbound.len() <= turns.last().after.outbound.len(),
    ensures
        turns[at].runtime_after.config == turns[0].runtime.config,
        turns[at].runtime_after.inbound_sequence == turns[0].runtime.inbound_sequence,
        turns[at].runtime_after.outbound_sequence == turns[0].runtime.outbound_sequence
            + turns[at].after.outbound.len(),
        numbered_after(
            turns[at].after.outbound,
            turns[0].runtime.config,
            turns[0].runtime.outbound_sequence,
        ),
    decreases at,
{
    let turn = turns[at];
    lemma_outbound_grows(turns, supported, at);
    if at > 0 {
        assert(turn.run.outbound == turns[at - 1].after.outbound);
        lemma_run_so_far(turns, supported, at - 1);
    }
    assert forall|k: int| 0 <= k < turn.after.outbound.len() implies (meta_of(
        #[trigger] turn.after.outbound[k],
    ) matches Some(meta) && {
        &&& meta.session_id == turns[0].runtime.config.session_id
        &&& meta.origin == turns[0].runtime.config.local_device
        &&& meta.grant_epoch == turns[0].runtime.config.grant_epoch
        &&& turns[0].runtime.config.peer_capabilities.holds(meta.capability)
        &&& meta.sequence == turns[0].runtime.outbound_sequence + k + 1
    }) by {
        if k < turn.run.outbound.len() {
            assert(turn.after.outbound[k] == turn.run.outbound[k]);
        }
    }
}

/// A step keeps the messages that were made, and adds one at most.
proof fn lemma_outbound_grows(turns: Seq<ClipboardTurn>, supported: PlatformKinds, at: int)
    requires
        clipboard_ran(turns, supported),
        0 <= at < turns.len(),
    ensures
        turns[at].run.outbound.len() <= turns[at].after.outbound.len()
            <= turns[at].run.outbound.len() + 1,
        forall|k: int|
            0 <= k < turns[at].run.outbound.len() ==> #[trigger] turns[at].after.outbound[k]
                == turns[at].run.outbound[k],
{
}

proof fn lemma_nothing_deferred_before_the_end(
    turns: Seq<ClipboardTurn>,
    supported: PlatformKinds,
    at: int,
)
    requires
        clipboard_ran(turns, supported),
        0 <= at < turns.len(),
    ensures
        turns[at].runtime.deferred == turns[0].runtime.deferred,
    decreases at,
{
    if at > 0 {
        lemma_nothing_deferred_before_the_end(turns, supported, at - 1);
        assert(turns[at].runtime == turns[at - 1].runtime_after);
    }
}

/// A whole run numbers its messages without a gap, each under a capability that
/// the peer granted, as long as the numbers last.
pub proof fn law_runs_number_without_gaps(turns: Seq<ClipboardTurn>, supported: PlatformKinds)
    requires
        clipboard_ran(turns, supported),
        turns[0].runtime.outbound_sequence + turns.last().after.outbound.len() <= u64::MAX,
    ensures
        numbered_after(
            turns.last().after.outbound,
            turns[0].runtime.config,
            turns[0].runtime.outbound_sequence,
        ),
        turns.last().runtime_after.outbound_sequence == turns[0].runtime.outbound_sequence
            + turns.last().after.outbound.len(),
        turns.last().runtime_after.config == turns[0].runtime.config,
        turns.last().runtime_after.inbound_sequence == turns[0].runtime.inbound_sequence,
{
    lemma_run_so_far(turns, supported, turns.len() - 1);
}

/// Once a run has made a chunk, the platform is asked for no other one. When the
/// next one comes up, the run ends: that effect and all that were pending after
/// it are kept, in their order, behind what was deferred before. Nothing else
/// is ever deferred.
pub proof fn law_runs_read_no_chunk_after_a_chunk(
    turns: Seq<ClipboardTurn>,
    supported: PlatformKinds,
)
    requires
        clipboard_ran(turns, supported),
    ensures
        forall|i: int, j: int|
            #![trigger turns[i], turns[j]]
            0 <= i < j < turns.len() && turns[i].after.has_chunk() ==> !(
            turns[j].step matches Ok(ClipboardStep::Execute { effect, .. })
                && effect is ReadLocalChunk),
        turns.last().runtime_after.deferred == if turns.last().run.pending.len() > 0
            && turns.last().run.pending[0] is ReadLocalChunk && turns.last().run.has_chunk() {
            turns[0].runtime.deferred + turns.last().run.pending
        } else {
            turns[0].runtime.deferred
        },
{
    assert forall|i: int, j: int|
        #![trigger turns[i], turns[j]]
        0 <= i < j < turns.len() && turns[i].after.has_chunk() implies !(
    turns[j].step matches Ok(ClipboardStep::Execute { effect, .. }) && effect is ReadLocalChunk) by {
        lemma_chunk_stays(turns, supported, i, j);
    }
    lemma_nothing_deferred_before_the_end(turns, supported, turns.len() - 1);
}

proof fn lemma_chunk_stays(turns: Seq<ClipboardTurn>, supported: PlatformKinds, i: int, j: int)
    requires
        clipboard_ran(turns, supported),
        0 <= i < j < turns.len(),
        turns[i].after.has_chunk(),
    ensures
        turns[j].run.has_chunk(),
    decreases j - i,
{
    if i + 1 < j {
        lemma_chunk_stays(turns, supported, i, j - 1);
        lemma_outbound_grows(turns, supported, j - 1);
        let made = turns[j - 1].run.outbound;
        let k = choose|k: int| 0 <= k < made.len() && #[trigger] made[k] is Chunk;
        assert(turns[j - 1].after.outbound[k] is Chunk);
    }
    assert(turns[j].run.outbound == turns[j - 1].after.outbound);
    let kept = turns[j - 1].after.outbound;
    let k = choose|k: int| 0 <= k < kept.len() && #[trigger] kept[k] is Chunk;
    assert(turns[j].run.outbound[k] is Chunk);
}

/// Nothing is fetched of an offer only if no representation of it is text,
/// markup, a PNG or a BMP that the platform supports. Otherwise what is fetched
/// is offered and supported, and nothing that is offered and supported comes
/// before it in the order text, markup, PNG, BMP.
pub proof fn law_the_best_supported_representation_is_fetched(
    representations: Seq<RepresentationMeta>,
    supported: PlatformKinds,
    at: int,
)
    requires
        0 <= at < representations.len(),
    ensures
        ({
            let kind = representations[at].kind;
            let chosen = preferred(representations, supported);
            &&& kind is Utf8Text && supported.text ==> chosen == Some(RepresentationKind::Utf8Text)
            &&& kind is Html && supported.html ==> chosen == Some(RepresentationKind::Utf8Text)
                || chosen == Some(RepresentationKind::Html)
            &&& kind is Png && supported.png ==> chosen is Some && chosen != Some(
                RepresentationKind::Bmp,
            ) && chosen != Some(RepresentationKind::FileList)
            &&& kind is Bmp && supported.bmp ==> chosen is Some && chosen != Some(
                RepresentationKind::FileList,
            )
        }),
        preferred(representations, supported) matches Some(chosen) ==> {
            &&& exists|i: int|
                0 <= i < representations.len() && (#[trigger] representations[i]).kind == chosen
            &&& chosen is Utf8Text ==> supported.text
            &&& chosen is Html ==> supported.html
            &&& chosen is Png ==> supported.png
            &&& chosen is Bmp ==> supported.bmp
            &&& !(chosen is FileList)
        },
        preferred(representations, supported) is None <==> forall|i: int|
            0 <= i < representations.len() ==> !{
                ||| (#[trigger] representations[i]).kind is Utf8Text && supported.text
                ||| representations[i].kind is Html && supported.html
                ||| representations[i].kind is Png && supported.png
                ||| representations[i].kind is Bmp && supported.bmp
            },
{
    assert(representations[at].kind == representations[at].kind);
    let chosen = preferred(representations, supported);
    if chosen is None {
        assert forall|i: int| 0 <= i < representations.len() implies !{
            ||| (#[trigger] representations[i]).kind is Utf8Text && supported.text
            ||| representations[i].kind is Html && supported.html
            ||| representations[i].kind is Png && supported.png
            ||| representations[i].kind is Bmp && supported.bmp
        } by {
            assert(!wanted(representations, supported, RepresentationKind::Utf8Text));
            assert(!wanted(representations, supported, RepresentationKind::Html));
            assert(!wanted(representations, supported, RepresentationKind::Png));
            assert(!wanted(representations, supported, RepresentationKind::Bmp));
        }
    }
}

/// Of an empty offer nothing is fetched.
pub proof fn law_nothing_is_fetched_of_nothing(supported: PlatformKinds)
    ensures
        preferred(seq![], supported) is None,
{
}

/// A message of the peer is accepted exactly if it belongs to this session, comes
/// from the peer under the current grant, in sequence, names the capability of
/// its kind, and that is granted.
pub proof fn law_clipboard_messages_are_checked(runtime: ClipboardModel, message: ClipboardMessage)
    ensures
        meta_of(message) is None <==> message is Unknown,
        message matches ClipboardMessage::Offer { meta, .. } ==> meta_of(message) == Some(meta),
        message matches ClipboardMessage::Clear { meta, .. } ==> meta_of(message) == Some(meta),
        message matches ClipboardMessage::Request { meta, .. } ==> meta_of(message) == Some(meta),
        message matches ClipboardMessage::Chunk { meta, .. } ==> meta_of(message) == Some(meta),
        message matches ClipboardMessage::Abort { meta, .. } ==> meta_of(message) == Some(meta),
        message is Unknown ==> runtime.message_error(message) == Some(
            ClipboardRuntimeError::Protocol,
        ),
        meta_of(message) matches Some(meta) ==> {
            let reads = meta.capability.clipboard_read && !meta.capability.clipboard_write
                && !meta.capability.remote_input && !meta.capability.file_transfer;
            let writes = meta.capability.clipboard_write && !meta.capability.clipboard_read
                && !meta.capability.remote_input && !meta.capability.file_transfer;
            let fits = match message {
                ClipboardMessage::Request { .. } => reads,
                ClipboardMessage::Abort { .. } => reads || writes,
                ClipboardMessage::Offer { .. } => writes,
                ClipboardMessage::Clear { .. } => writes,
                ClipboardMessage::Chunk { .. } => writes,
                ClipboardMessage::Unknown => false,
            };
            let current = {
                &&& meta.session_id == runtime.config.session_id
                &&& meta.origin == runtime.config.peer_device
                &&& meta.grant_epoch == runtime.config.grant_epoch
                &&& meta.sequence > 0
                &&& runtime.inbound_sequence matches Some(last) ==> meta.sequence > last
            };
            let granted = reads && runtime.config.local_grants.allow_peer_read || writes
                && runtime.config.local_grants.allow_peer_write;
            &&& runtime.message_error(message) is None <==> fits && current && granted
            &&& runtime.message_error(message) == Some(ClipboardRuntimeError::Protocol) <==> !fits
                || !current
            &&& runtime.message_error(message) == Some(ClipboardRuntimeError::GrantDenied) <==> fits
                && current && !granted
        },
{
}

/// The reducer is told what the message said, of the peer that said it.
pub proof fn law_messages_reach_the_clipboard_as_they_came(
    message: ClipboardMessage,
    peer: DeviceId,
)
    ensures
        message matches ClipboardMessage::Offer { revision, representations, .. } ==> call_of(
            message,
            peer,
        ) == Some(
            ClipboardCall::ReceiveOffer {
                offer: ClipboardOffer::Content { origin: peer, revision, representations },
            },
        ),
        message matches ClipboardMessage::Clear { revision, .. } ==> call_of(message, peer) == Some(
            ClipboardCall::ReceiveOffer {
                offer: ClipboardOffer::Cleared { origin: peer, revision },
            },
        ),
        message matches ClipboardMessage::Request { revision, kind, hash, .. } ==> call_of(
            message,
            peer,
        ) == Some(ClipboardCall::ReceiveRequest { revision, kind, hash }),
        message matches ClipboardMessage::Chunk {
            revision: of,
            kind: what,
            hash: digest,
            offset: from,
            bytes: data,
            ..
        } ==> (call_of(message, peer) matches Some(
            ClipboardCall::ReceiveChunk { key, offset, bytes },
        ) && key.origin == peer && key.revision == of && key.kind == what && key.hash == digest
            && offset == from && bytes == data),
        message matches ClipboardMessage::Abort { revision, .. } ==> call_of(message, peer) == Some(
            ClipboardCall::ReceiveAbort { revision },
        ),
        message is Unknown <==> call_of(message, peer) is None,
{
}

/// Everything that an effect sends is sent as it is, under the next sequence
/// number of this session and the capability of its kind: content is written,
/// requests read, and an abort reads where the peer lets it.
pub proof fn law_clipboard_effects_are_sent_as_they_are(
    effect: ClipboardEffect,
    runtime: ClipboardModel,
)
    ensures
        outgoing(effect, runtime) is Some <==> effect is SendOffer || effect is SendRequest
            || effect is SendChunk || effect is SendAbort,
        outgoing(effect, runtime) matches Some((capability, message)) ==> {
            &&& meta_of(message) matches Some(meta) && meta.capability == capability
                && meta.session_id == runtime.config.session_id && meta.origin
                == runtime.config.local_device && meta.grant_epoch == runtime.config.grant_epoch
                && (if runtime.outbound_sequence == u64::MAX {
                meta.sequence == 1
            } else {
                meta.sequence == runtime.outbound_sequence + 1
            })
            &&& !capability.remote_input && !capability.file_transfer && capability.clipboard_read
                != capability.clipboard_write
            &&& capability.clipboard_read <==> effect is SendRequest || effect is SendAbort
                && runtime.config.peer_capabilities.clipboard_read
            &&& effect matches ClipboardEffect::SendOffer {
                offer: ClipboardOffer::Cleared { revision: of, .. },
            } ==> (message matches ClipboardMessage::Clear { revision, .. } && revision == of)
            &&& effect matches ClipboardEffect::SendOffer {
                offer: ClipboardOffer::Content { revision: of, representations: what, .. },
            } ==> (message matches ClipboardMessage::Offer { revision, representations, .. }
                && revision == of && representations == what)
            &&& effect matches ClipboardEffect::SendRequest { key } ==> (message matches
                ClipboardMessage::Request { revision, kind, hash, .. } && revision == key.revision
                && kind == key.kind && hash == key.hash)
            &&& effect matches ClipboardEffect::SendChunk { key, offset: from, bytes: data } ==> (
            message matches ClipboardMessage::Chunk { revision, kind, hash, offset, bytes, .. }
                && revision == key.revision && kind == key.kind && hash == key.hash && offset
                == from && bytes == data)
            &&& effect matches ClipboardEffect::SendAbort { revision: of, reason: why } ==> (message
                matches ClipboardMessage::Abort { revision, reason, .. } && revision == of && reason
                == why)
        },
{
}

/// What is sent to the peer needs its grant: a step sends the message of the
/// first pending effect or is refused and sends nothing, and either way that
/// effect is taken.
pub proof fn law_clipboard_steps_need_the_grant(
    run: ClipboardRunModel,
    runtime: ClipboardModel,
    supported: PlatformKinds,
    step: Result<ClipboardStep, ClipboardRuntimeError>,
    after: ClipboardRunModel,
    runtime_after: ClipboardModel,
)
    requires
        run.pending.len() > 0,
        clipboard_stepped(run, runtime, supported, step, after, runtime_after),
    ensures
        ({
            let effect = run.pending[0];
            let peer = runtime.config.peer_capabilities;
            let sends = effect is SendOffer || effect is SendRequest || effect is SendChunk
                || effect is SendAbort;
            let granted = match effect {
                ClipboardEffect::SendOffer { .. } => peer.clipboard_write,
                ClipboardEffect::SendChunk { .. } => peer.clipboard_write,
                ClipboardEffect::SendRequest { .. } => peer.clipboard_read,
                ClipboardEffect::SendAbort { .. } => peer.clipboard_read || peer.clipboard_write,
                _ => true,
            };
            &&& step is Err <==> sends && !granted
            &&& step matches Err(error) ==> error is GrantDenied
            &&& sends && granted ==> {
                &&& step == Ok::<_, ClipboardRuntimeError>(ClipboardStep::Continue)
                &&& after.outbound.len() == run.outbound.len() + 1
                &&& after.outbound.drop_last() =~= run.outbound
                &&& outgoing(effect, runtime) matches Some((_, message)) && after.outbound.last()
                    == message
                &&& runtime_after.outbound_sequence == if runtime.outbound_sequence == u64::MAX {
                    1
                } else {
                    (runtime.outbound_sequence + 1) as u64
                }
            }
            &&& !(sends && granted) ==> after.outbound == run.outbound
                && runtime_after.outbound_sequence == runtime.outbound_sequence
            &&& runtime_after.config == runtime.config && runtime_after.inbound_sequence
                == runtime.inbound_sequence
            &&& !(effect is ReadLocalChunk) ==> after.pending == run.pending.skip(1)
                && runtime_after.deferred == runtime.deferred
        }),
{
}

/// Everything else is left to the platform, under the revision that it is about;
/// an offer of the peer asks for its best representation or for nothing.
pub proof fn law_platform_effects_name_their_revision(
    run: ClipboardRunModel,
    runtime: ClipboardModel,
    supported: PlatformKinds,
    step: Result<ClipboardStep, ClipboardRuntimeError>,
    after: ClipboardRunModel,
    runtime_after: ClipboardModel,
)
    requires
        run.pending.len() > 0,
        !run.has_chunk(),
        clipboard_stepped(run, runtime, supported, step, after, runtime_after),
    ensures
        ({
            let first = run.pending[0];
            let platform = first is ReadLocalChunk || first is BeginReceive || first
                is WriteReceiveChunk || first is CommitReceive || first is AbortReceive || first
                is ClearLocal;
            &&& platform <==> (step matches Ok(ClipboardStep::Execute { .. }))
            &&& step matches Ok(ClipboardStep::Execute { effect, revision }) ==> {
                &&& effect == first
                &&& first matches ClipboardEffect::ReadLocalChunk { key, .. } ==> revision
                    == key.revision
                &&& first matches ClipboardEffect::BeginReceive { key, .. } ==> revision
                    == key.revision
                &&& first matches ClipboardEffect::WriteReceiveChunk { key, .. } ==> revision
                    == key.revision
                &&& first matches ClipboardEffect::CommitReceive { key } ==> revision
                    == key.revision
                &&& first matches ClipboardEffect::AbortReceive { key } ==> revision == key.revision
                &&& first matches ClipboardEffect::ClearLocal { revision: of, .. } ==> revision
                    == of
            }
            &&& step matches Ok(ClipboardStep::RequestRemote { revision, kind }) ==> (first matches
                ClipboardEffect::RemoteOfferAvailable {
                    offer: ClipboardOffer::Content { revision: of, representations, .. },
                } && revision == of && preferred(representations@, supported) == Some(kind))
            &&& first matches ClipboardEffect::RemoteOfferAvailable {
                offer: ClipboardOffer::Content { representations, .. },
            } ==> (preferred(representations@, supported) is Some ==> (step matches Ok(
                ClipboardStep::RequestRemote { .. },
            )))
            &&& !(step matches Ok(ClipboardStep::Finished))
        }),
{
}

/// `select_representation` finds something of an offer exactly if some part of
/// it is text, markup, a PNG or a BMP that the platform supports, and then the
/// first of these in that order, of the offered revision.
pub proof fn law_selections_are_offered_and_supported(
    offer: ClipboardOffer,
    supported: PlatformKinds,
    selected: Option<(u64, RepresentationKind)>,
    at: int,
)
    requires
        call_ensures(select_representation, (&offer, &supported), selected),
    ensures
        offer is Cleared ==> selected is None,
        offer matches ClipboardOffer::Content { revision, representations, .. } ==> {
            &&& selected matches Some((named, kind)) ==> {
                &&& named == revision
                &&& exists|i: int|
                    0 <= i < representations@.len() && (#[trigger] representations@[i]).kind
                        == kind
                &&& kind is Utf8Text && supported.text || kind is Html && supported.html
                    || kind is Png && supported.png || kind is Bmp && supported.bmp
            }
            &&& 0 <= at < representations@.len() ==> {
                let kind = representations@[at].kind;
                &&& kind is Utf8Text && supported.text ==> selected is Some
                    && selected->Some_0.1 is Utf8Text
                &&& kind is Html && supported.html ==> selected is Some && (
                selected->Some_0.1 is Utf8Text || selected->Some_0.1 is Html)
                &&& kind is Png && supported.png ==> selected is Some && !(
                selected->Some_0.1 is Bmp)
                &&& kind is Bmp && supported.bmp ==> selected is Some
            }
        },
{
    if let ClipboardOffer::Content { revision, representations, .. } = offer {
        if 0 <= at < representations@.len() {
            law_the_best_supported_representation_is_fetched(representations@, supported, at);
        } else if representations@.len() > 0 {
            law_the_best_supported_representation_is_fetched(representations@, supported, 0);
        } else {
            law_nothing_is_fetched_of_nothing(supported);
            assert(representations@ =~= Seq::empty());
        }
    }
}

/// Clipboard content goes a way only where both sides allow it: the peer reads
/// what this side lets it read and it takes part in writing, and the other way
/// round. Polling is of use exactly where one way is open.
pub proof fn law_both_sides_allow_the_clipboard(
    grants: Capability,
    local: PeerClipboardGrants,
    peer: Capability,
    effective: PeerClipboardGrants,
    runtime: PeerClipboardRuntime,
    polls: bool,
)
    requires
        call_ensures(clipboard_grants, (grants,), local),
        call_ensures(effective_grants, (local, peer), effective),
        call_ensures(PeerClipboardRuntime::polls, (&runtime,), polls),
    ensures
        effective.allow_peer_read ==> grants.clipboard_read && peer.clipboard_write,
        effective.allow_peer_write ==> grants.clipboard_write && peer.clipboard_read,
        grants.clipboard_read && peer.clipboard_write ==> effective.allow_peer_read,
        grants.clipboard_write && peer.clipboard_read ==> effective.allow_peer_write,
        runtime@.config.local_grants == local && runtime@.config.peer_capabilities == peer ==> (
        polls <==> effective.allow_peer_read || effective.allow_peer_write),
{
}

/// The reducer hears of every answer of the platform but a plain completion,
/// in the words of the platform, and of a failure as the end of the revision.
pub proof fn law_answers_of_the_platform_are_told(
    outcome: ClipboardPortOutcome,
    revision: u64,
    answer: PortAnswer,
)
    requires
        call_ensures(port_answered, (outcome, revision), answer),
    ensures
        answer is Nothing <==> outcome is Completed,
        answer is CancelRevision <==> outcome is Failed,
        answer matches PortAnswer::CancelRevision { revision: ended } ==> ended == revision,
        outcome matches ClipboardPortOutcome::RemoteApplied { key } ==> answer == (
        PortAnswer::FinishRemoteApply { key }),
        outcome matches ClipboardPortOutcome::RemoteCleared { origin, revision: cleared }
            ==> answer == (PortAnswer::FinishRemoteClear { origin, revision: cleared }),
        outcome matches ClipboardPortOutcome::LocalChunk { key, offset, bytes } ==> answer == (
        PortAnswer::LocalChunkRead { key, offset, bytes }),
{
}

/// What is polled goes before what was put off, which it makes void; what was
/// put off is done one at a time, in order.
pub proof fn law_new_contents_void_what_was_put_off(
    runtime: &mut PeerClipboardRuntime,
    observed: Option<Vec<ClipboardEffect>>,
    run: Option<ClipboardRun>,
)
    requires
        call_ensures(PeerClipboardRuntime::polled, (runtime, observed), run),
    ensures
        observed matches Some(effects) ==> final(runtime)@.deferred.len() == 0 && (run matches Some(
            started,
        ) && started@.pending == effects@),
        observed is None ==> (run is None <==> old(runtime)@.deferred.len() == 0),
        observed is None ==> (run matches Some(started) ==> started@.pending.len() == 1
            && started@.pending[0] == old(runtime)@.deferred[0] && final(runtime)@.deferred.len()
            == old(runtime)@.deferred.len() - 1),
        run matches Some(started) ==> started@.outbound.len() == 0,
{
}

/// A message that is refused changes nothing, and one that is taken is
/// remembered by its number.
pub proof fn law_taken_messages_are_remembered(
    runtime: &mut PeerClipboardRuntime,
    message: ClipboardMessage,
    call: Result<ClipboardCall, ClipboardRuntimeError>,
)
    requires
        call_ensures(PeerClipboardRuntime::receive, (runtime, message), call),
    ensures
        call is Err ==> final(runtime)@ == old(runtime)@,
        call is Ok ==> (meta_of(message) matches Some(meta) && final(runtime)@.inbound_sequence
            == Some(meta.sequence)),
        call is Ok <==> old(runtime)@.message_error(message) is None,
        final(runtime)@.config == old(runtime)@.config,
        final(runtime)@.deferred == old(runtime)@.deferred,
{
}

} // verus!
