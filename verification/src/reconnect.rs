//! Meeting a known peer again: who is meant, where it is looked for, and what
//! every way to fail leaves behind.

use vstd::prelude::*;
use vstd::string::*;
use crate::agent_core::{idle_status, safety_error, AgentCore};
use crate::agent_status::{
    epoch_after,
    AgentFocusState,
    AgentPhase,
    AgentStatus,
    InputOwner,
    StatusBoard,
};
use crate::identifiers::DeviceId;
use crate::peer_book::{place_from, PeerBook};
use crate::peer_records::{copied_text, optional_text, PeerRecord};
use crate::platform_readiness::SessionTopologyReadiness;
use crate::routes::PeerPlacement;
use crate::runtime::{
    has_prefix,
    parse_reconnect_request,
    reconnect_meaning,
    AgentError,
    ReconnectMode,
};
use crate::session_model::SessionConfig;
use crate::session_safety::SessionRuntimeError;
use crate::session_wire::SessionRole;
use crate::storage::{display_name_form, validate_display_name};
use crate::text::text_chars;

verus! {

/// Whether a request means a known peer, and not a new pairing.
pub fn is_reconnect_request(endpoint: &str) -> (known: bool)
    ensures
        known == ("reconnect:"@.is_prefix_of(endpoint@) || "reconnect-listen:"@.is_prefix_of(
            endpoint@,
        )),
{
    let chars = text_chars(endpoint);
    has_prefix(&chars, "reconnect:") || has_prefix(&chars, "reconnect-listen:")
}

/// Where a known peer is looked for.
pub enum ReconnectTarget {
    /// It is waited for.
    Listen,
    /// It is looked for at an endpoint that the user gave.
    Resolve(String),
    /// It is looked for where it was met last.
    Dial(String),
}

/// A known peer that is about to be met.
pub struct ReconnectPlan {
    pub role: SessionRole,
    pub peer: PeerRecord,
    pub target: ReconnectTarget,
}

/// Where the peer is looked for, given what the request says and where it was
/// met last.
pub open spec fn target_of(meaning: (Seq<char>, Option<Seq<char>>, bool), last: Option<Seq<char>>) -> Result<
    (bool, Option<Seq<char>>),
    AgentError,
> {
    if meaning.2 {
        Ok((true, None))
    } else if meaning.1 is Some {
        Ok((false, meaning.1))
    } else if last is Some {
        Ok((false, last))
    } else {
        Err(AgentError::InvalidEndpoint)
    }
}

/// `target` is one that `target_of` names; `given` says whether the user gave
/// the endpoint.
pub open spec fn target_matches(
    target: ReconnectTarget,
    named: (bool, Option<Seq<char>>),
    given: bool,
) -> bool {
    match target {
        ReconnectTarget::Listen => named.0,
        ReconnectTarget::Resolve(text) => named == (false, Some(text@)) && given,
        ReconnectTarget::Dial(text) => named == (false, Some(text@)) && !given,
    }
}

/// Begins to meet a known peer: the request is read, the one place for an
/// operation is taken, and the peer has to be trusted. On any failure after the
/// place was taken it is given back.
pub fn begin_reconnect(core: &mut AgentCore, book: &PeerBook, request: &str) -> (plan: Result<
    ReconnectPlan,
    AgentError,
>)
    ensures
        ({
            let meaning = reconnect_meaning(request@);
            let at = place_from(book@, meaning->Ok_0.0, 0);
            if old(core).safety.failed() {
                plan == Err::<ReconnectPlan, AgentError>(AgentError::SafetyRecoveryFailed)
                    && *final(core) == *old(core)
            } else if meaning is Err {
                plan == Err::<ReconnectPlan, AgentError>(meaning->Err_0) && *final(core) == *old(
                    core,
                )
            } else if old(core).safety.operating() || old(core).busy {
                plan == Err::<ReconnectPlan, AgentError>(AgentError::Busy) && *final(core) == *old(
                    core,
                )
            } else if at >= book@.len() {
                plan == Err::<ReconnectPlan, AgentError>(AgentError::PeerNotFound) && *final(core)
                    == (AgentCore { busy: false, ..*old(core) })
            } else {
                match target_of(meaning->Ok_0, book@[at].last_endpoint) {
                    Err(error) => plan == Err::<ReconnectPlan, AgentError>(error) && *final(core)
                        == (AgentCore { busy: false, waiting: false, ..*old(core) }),
                    Ok(named) => plan matches Ok(made) && {
                        &&& made.peer@ == book@[at]
                        &&& made.role == if meaning->Ok_0.2 {
                            SessionRole::Acceptor
                        } else {
                            SessionRole::Opener
                        }
                        &&& target_matches(made.target, named, meaning->Ok_0.1 is Some)
                        &&& *final(core) == (AgentCore { busy: true, ..*old(core) })
                    },
                }
            }
        }),
{
    if core.safety.failure_latched() {
        return Err(AgentError::SafetyRecoveryFailed);
    }
    let mode = match parse_reconnect_request(request) {
        Ok(mode) => mode,
        Err(error) => return Err(error),
    };
    if let Err(error) = core.begin_operation() {
        return Err(error);
    }
    let peer = match book.active_peer(mode.peer_id()) {
        Ok(peer) => peer,
        Err(error) => {
            core.end_operation();
            return Err(error);
        },
    };
    match mode {
        ReconnectMode::Listen { .. } => Ok(
            ReconnectPlan { role: SessionRole::Acceptor, peer, target: ReconnectTarget::Listen },
        ),
        ReconnectMode::Connect { endpoint, .. } => {
            let target = match endpoint {
                Some(given) => ReconnectTarget::Resolve(given),
                None => match copied_text(&peer.last_endpoint) {
                    Some(last) => ReconnectTarget::Dial(last),
                    None => {
                        let told = reconnect_failed(core, AgentError::InvalidEndpoint);
                        return Err(told);
                    },
                },
            };
            Ok(ReconnectPlan { role: SessionRole::Opener, peer, target })
        },
    }
}

/// The peer was not met: nobody waits for a stream any more, and the place is
/// given back.
pub fn reconnect_failed(core: &mut AgentCore, error: AgentError) -> (told: AgentError)
    ensures
        told == error,
        *final(core) == (AgentCore { busy: false, waiting: false, ..*old(core) }),
{
    core.deliver_inbound();
    core.end_operation();
    error
}

/// The peer was met: it is shown as connected, unless safety forbids it; then
/// the place is given back, and the connection has to be closed.
pub fn reconnect_connected(core: &mut AgentCore, peer: DeviceId) -> (shown: Result<
    AgentStatus,
    AgentError,
>)
    ensures
        if old(core).safety.failed() || old(core).safety.operating() {
            &&& shown == Err::<AgentStatus, AgentError>(
                safety_error(old(core).safety, AgentError::Busy),
            )
            &&& *final(core) == (AgentCore { busy: false, ..*old(core) })
        } else {
            &&& shown == Ok::<AgentStatus, AgentError>(final(core).board.status)
            &&& *final(core) == (AgentCore {
                board: StatusBoard {
                    status: AgentStatus {
                        phase: AgentPhase::Connected,
                        connected_peer: Some(peer),
                        input_owner: InputOwner::Local,
                        focus_state: AgentFocusState::Local,
                        ..old(core).board.status.with_session_topology(
                            SessionTopologyReadiness::Synchronizing,
                        )
                    },
                    transition_epoch: epoch_after(old(core).board.transition_epoch),
                    probed_at: old(core).board.probed_at,
                },
                session: true,
                ..*old(core)
            })
        },
{
    match core.publish_connected(peer) {
        Ok(()) => {
            core.session_started();
            Ok(core.board.status)
        },
        Err(error) => {
            core.end_operation();
            Err(error)
        },
    }
}

/// The session with a known peer learns what the peer grants from the peer.
pub fn reconnected_session(
    role: SessionRole,
    local_device: DeviceId,
    record: &PeerRecord,
    peer_placement: PeerPlacement,
) -> (config: SessionConfig)
    ensures
        config == (SessionConfig {
            role,
            local_device,
            peer_device: record@.device_id,
            local_grants_to_peer: record@.grants,
            local_grant_epoch: record@.grant_epoch,
            peer_grants_to_local: None,
            peer_grant_epoch: None,
            peer_placement,
            existing_control: None,
        }),
{
    SessionConfig {
        role,
        local_device,
        peer_device: record.device_id,
        local_grants_to_peer: record.grants,
        local_grant_epoch: record.grant_epoch,
        peer_grants_to_local: None,
        peer_grant_epoch: None,
        peer_placement,
        existing_control: None,
    }
}

/// The session is over: it takes no more commands, the status says so, and the
/// place is given back.
pub fn session_over(core: &mut AgentCore, result: Result<(), SessionRuntimeError>)
    ensures
        *final(core) == (AgentCore {
            session: false,
            busy: false,
            ..old(core).with_status(
                idle_status(
                    old(core).board.status,
                    if result == Err::<(), SessionRuntimeError>(
                        SessionRuntimeError::SafetyRecoveryFailed,
                    ) || old(core).safety.failed() || old(core).safety.operating() {
                        AgentPhase::Stopping
                    } else {
                        AgentPhase::Ready
                    },
                ),
            )
        }),
{
    core.session_gone();
    let safety_failed = match result {
        Err(SessionRuntimeError::SafetyRecoveryFailed) => true,
        _ => false,
    };
    core.publish_session_finished(safety_failed);
    core.end_operation();
}

/// What the connection is for.
#[derive(Clone, Copy, Debug, PartialEq, Eq, Structural)]
pub enum ConnectionPurpose {
    Pairing,
    Reconnect,
}

/// A step on the way to an authenticated connection.
#[derive(Clone, Copy, Debug, PartialEq, Eq, Structural)]
pub enum ConnectionStage {
    /// Somebody waits for a stream already.
    Waiter,
    /// The stream did not come, or was not taken, in time.
    StreamDeadline,
    Stream,
    /// The messages on the stream.
    Preflight,
    /// The certificate of this device.
    OwnCertificate,
    /// The stored trust in the peer.
    StoredTrust,
    /// The peer was revoked.
    TransportBinding,
    Credentials,
    Configuration,
    Bind,
    Endpoint,
    Connect,
    /// The first event of the connection, or the first messages on it.
    Opening,
}

/// How a failed step is reported.
pub fn connection_error(purpose: ConnectionPurpose, stage: ConnectionStage) -> (error: AgentError)
    ensures
        error == match (purpose, stage) {
            (_, ConnectionStage::Waiter) => AgentError::Busy,
            (_, ConnectionStage::StreamDeadline) => AgentError::PairingTimedOut,
            (_, ConnectionStage::OwnCertificate) => AgentError::Storage,
            (ConnectionPurpose::Reconnect, ConnectionStage::StoredTrust) => AgentError::Storage,
            (ConnectionPurpose::Reconnect, ConnectionStage::Credentials) => AgentError::Storage,
            (ConnectionPurpose::Reconnect, ConnectionStage::TransportBinding) => {
                AgentError::PeerNotFound
            },
            (ConnectionPurpose::Reconnect, ConnectionStage::Endpoint) => AgentError::InvalidEndpoint,
            (ConnectionPurpose::Reconnect, _) => AgentError::ReconnectFailed,
            (ConnectionPurpose::Pairing, _) => AgentError::PairingFailed,
        },
{
    match (purpose, stage) {
        (_, ConnectionStage::Waiter) => AgentError::Busy,
        (_, ConnectionStage::StreamDeadline) => AgentError::PairingTimedOut,
        (_, ConnectionStage::OwnCertificate) => AgentError::Storage,
        (ConnectionPurpose::Reconnect, ConnectionStage::StoredTrust) => AgentError::Storage,
        (ConnectionPurpose::Reconnect, ConnectionStage::Credentials) => AgentError::Storage,
        (ConnectionPurpose::Reconnect, ConnectionStage::TransportBinding) => {
            AgentError::PeerNotFound
        },
        (ConnectionPurpose::Reconnect, ConnectionStage::Endpoint) => AgentError::InvalidEndpoint,
        (ConnectionPurpose::Reconnect, _) => AgentError::ReconnectFailed,
        (ConnectionPurpose::Pairing, _) => AgentError::PairingFailed,
    }
}

/// What an endpoint text asks for.
pub enum EndpointRequest {
    /// An address, to be read elsewhere.
    Address(String),
    /// A device that advertises itself under this name.
    Mdns(String),
}

pub open spec fn mdns_prefix() -> Seq<char> {
    "mdns:"@
}

/// Tells an advertised name from an address. The name has the form of a display
/// name.
pub fn resolve_endpoint(requested: &str) -> (request: Result<EndpointRequest, AgentError>)
    ensures
        if mdns_prefix().is_prefix_of(requested@) {
            let instance = requested@.skip(mdns_prefix().len() as int);
            if display_name_form(instance) {
                request matches Ok(EndpointRequest::Mdns(name)) && name@ == instance
            } else {
                request == Err::<EndpointRequest, AgentError>(AgentError::InvalidEndpoint)
            }
        } else {
            request matches Ok(EndpointRequest::Address(text)) && text@ == requested@
        },
{
    let chars = text_chars(requested);
    proof {
        reveal_strlit("mdns:");
    }
    if !has_prefix(&chars, "mdns:") {
        return Ok(EndpointRequest::Address(requested.to_owned()));
    }
    let instance = requested.substring_char(5, chars.len()).to_owned();
    assert(instance@ =~= requested@.skip(5));
    if validate_display_name(instance.as_str()).is_err() {
        return Err(AgentError::InvalidEndpoint);
    }
    Ok(EndpointRequest::Mdns(instance))
}

/// The greatest single wait for an advertisement, in nanoseconds.
pub const MDNS_POLL_NS: u64 = 500_000_000;

/// How many nanoseconds to wait for the next advertisement; none, when the time
/// is over.
pub fn mdns_wait(remaining_ns: u64) -> (wait: Result<u64, AgentError>)
    ensures
        wait == if remaining_ns == 0 {
            Err::<u64, AgentError>(AgentError::DiscoveryUnavailable)
        } else if remaining_ns < MDNS_POLL_NS {
            Ok(remaining_ns)
        } else {
            Ok(MDNS_POLL_NS)
        },
{
    if remaining_ns == 0 {
        Err(AgentError::DiscoveryUnavailable)
    } else if remaining_ns < MDNS_POLL_NS {
        Ok(remaining_ns)
    } else {
        Ok(MDNS_POLL_NS)
    }
}

/// What a wait for an advertisement brought.
pub enum MdnsEvent {
    /// Locations were found; each with its advertised name, if it has one.
    Resolved(Vec<Option<String>>),
    /// Something that does not matter, or nothing.
    Nothing,
    /// No more advertisements will come.
    Disconnected,
}

/// A location advertises the name that is looked for.
pub open spec fn advertises(location: Option<String>, instance: Seq<char>) -> bool {
    optional_text(location) == Some(instance)
}

/// The first location that advertises the name, if there is one.
pub fn mdns_found(event: &MdnsEvent, instance: &str) -> (found: Result<Option<usize>, AgentError>)
    ensures
        match event {
            MdnsEvent::Nothing => found == Ok::<Option<usize>, AgentError>(None),
            MdnsEvent::Disconnected => found == Err::<Option<usize>, AgentError>(
                AgentError::DiscoveryUnavailable,
            ),
            MdnsEvent::Resolved(locations) => match found {
                Ok(Some(at)) => {
                    &&& at < locations@.len()
                    &&& advertises(locations@[at as int], instance@)
                    &&& forall|i: int|
                        0 <= i < at ==> !advertises(#[trigger] locations@[i], instance@)
                },
                Ok(None) => forall|i: int|
                    0 <= i < locations@.len() ==> !advertises(#[trigger] locations@[i], instance@),
                Err(_) => false,
            },
        },
{
    match event {
        MdnsEvent::Nothing => Ok(None),
        MdnsEvent::Disconnected => Err(AgentError::DiscoveryUnavailable),
        MdnsEvent::Resolved(locations) => {
            let wanted = instance.to_owned();
            let mut at: usize = 0;
            while at < locations.len()
                invariant
                    at <= locations@.len(),
                    wanted@ == instance@,
                    *event == MdnsEvent::Resolved(*locations),
                    forall|i: int|
                        0 <= i < at ==> !advertises(#[trigger] locations@[i], instance@),
                decreases locations@.len() - at,
            {
                if let Some(name) = &locations[at] {
                    if *name == wanted {
                        return Ok(Some(at));
                    }
                }
                at = at + 1;
            }
            Ok(None)
        },
    }
}

/// A peer that is waited for is looked for nowhere; else at the endpoint that the
/// user gave, else where it was met last, and without either not at all.
pub proof fn law_peers_are_looked_for_where_they_may_be(
    peer: Seq<char>,
    given: Option<Seq<char>>,
    last: Option<Seq<char>>,
)
    ensures
        target_of((peer, given, true), last) == Ok::<_, AgentError>((true, None::<Seq<char>>)),
        given is Some ==> target_of((peer, given, false), last) == Ok::<_, AgentError>(
            (false, given),
        ),
        given is None && last is Some ==> target_of((peer, given, false), last) == Ok::<
            _,
            AgentError,
        >((false, last)),
        given is None && last is None ==> target_of((peer, given, false), last) == Err::<
            (bool, Option<Seq<char>>),
            _,
        >(AgentError::InvalidEndpoint),
{
}

/// The target is the one that was named: waited for, resolved where the user gave
/// the endpoint, and dialled where it was known.
pub proof fn law_targets_are_the_named_ones(
    target: ReconnectTarget,
    listens: bool,
    endpoint: Option<Seq<char>>,
    given: bool,
)
    requires
        target_matches(target, (listens, endpoint), given),
    ensures
        target is Listen <==> listens,
        target matches ReconnectTarget::Resolve(text) ==> given && endpoint == Some(text@),
        target matches ReconnectTarget::Dial(text) ==> !given && endpoint == Some(text@),
{
}

/// A location is the one that is looked for exactly if it advertises that name.
pub proof fn law_locations_are_found_by_name(location: Option<String>, instance: Seq<char>)
    ensures
        location is None ==> !advertises(location, instance),
        location matches Some(name) ==> (advertises(location, instance) <==> name@ == instance),
        mdns_prefix() == "mdns:"@,
        MDNS_POLL_NS == 500_000_000,
{
}

/// What goes wrong with the peer is told as the failure of what was tried;
/// what is wrong with this device or the request keeps its own name.
pub proof fn law_connection_faults_are_told_apart(
    purpose: ConnectionPurpose,
    stage: ConnectionStage,
    error: AgentError,
)
    requires
        call_ensures(connection_error, (purpose, stage), error),
    ensures
        error == AgentError::Busy <==> stage is Waiter,
        error == AgentError::PairingTimedOut <==> stage is StreamDeadline,
        error == AgentError::Storage <==> stage is OwnCertificate || purpose is Reconnect && (
        stage is StoredTrust || stage is Credentials),
        error == AgentError::PeerNotFound <==> purpose is Reconnect && stage is TransportBinding,
        error == AgentError::InvalidEndpoint <==> purpose is Reconnect && stage is Endpoint,
        error == AgentError::PairingFailed ==> purpose is Pairing,
        error == AgentError::ReconnectFailed ==> purpose is Reconnect,
        error == AgentError::Busy || error == AgentError::PairingTimedOut || error
            == AgentError::Storage || error == AgentError::PeerNotFound || error
            == AgentError::InvalidEndpoint || error == AgentError::PairingFailed || error
            == AgentError::ReconnectFailed,
{
}

/// A wait for an announcement is never longer than a poll or than the time
/// that is left, and is as long as both allow; with no time left there is none.
pub proof fn law_announcements_are_polled_for(remaining_ns: u64, wait: Result<u64, AgentError>)
    requires
        call_ensures(mdns_wait, (remaining_ns,), wait),
    ensures
        wait is Err <==> remaining_ns == 0,
        wait matches Err(error) ==> error == AgentError::DiscoveryUnavailable,
        wait matches Ok(time) ==> {
            &&& 0 < time <= remaining_ns
            &&& time <= MDNS_POLL_NS
            &&& time == remaining_ns || time == MDNS_POLL_NS
        },
{
}

/// An announced name is looked for only where it has the form of one; every
/// other endpoint is kept letter for letter as an address.
pub proof fn law_endpoints_are_addresses_or_names(
    requested: &str,
    request: Result<EndpointRequest, AgentError>,
)
    requires
        call_ensures(resolve_endpoint, (requested,), request),
    ensures
        request matches Ok(EndpointRequest::Address(text)) ==> text@ == requested@
            && !mdns_prefix().is_prefix_of(requested@),
        request matches Ok(EndpointRequest::Mdns(name)) ==> requested@ =~= mdns_prefix() + name@
            && display_name_form(name@),
        request matches Err(error) ==> error == AgentError::InvalidEndpoint
            && mdns_prefix().is_prefix_of(requested@),
{
    if mdns_prefix().is_prefix_of(requested@) {
        let rest = requested@.skip(mdns_prefix().len() as int);
        assert(requested@ =~= mdns_prefix() + rest);
    }
}

/// A session that is made again starts without grants of the peer: they come
/// with its handshake.
pub proof fn law_reconnected_sessions_wait_for_grants(
    role: SessionRole,
    local_device: DeviceId,
    record: PeerRecord,
    peer_placement: PeerPlacement,
    config: SessionConfig,
)
    requires
        call_ensures(reconnected_session, (role, local_device, &record, peer_placement), config),
    ensures
        config.role == role,
        config.local_device == local_device,
        config.peer_device == record@.device_id,
        config.local_grants_to_peer == record@.grants,
        config.local_grant_epoch == record@.grant_epoch,
        config.peer_grants_to_local is None,
        config.peer_grant_epoch is None,
        config.existing_control is None,
        config.peer_placement == peer_placement,
{
}

/// A connection is made again to a trusted peer only, and only where nothing
/// else goes on; what fails leaves room for another operation.
pub proof fn law_reconnections_need_a_trusted_peer(
    core: &mut AgentCore,
    book: PeerBook,
    request: &str,
    plan: Result<ReconnectPlan, AgentError>,
)
    requires
        call_ensures(begin_reconnect, (core, &book, request), plan),
    ensures
        plan matches Ok(made) ==> {
            &&& !old(core).safety.failed() && !old(core).safety.operating() && !old(core).busy
            &&& final(core).busy
            &&& reconnect_meaning(request@) is Ok
            &&& made.role is Acceptor <==> reconnect_meaning(request@)->Ok_0.2
            &&& place_from(book@, reconnect_meaning(request@)->Ok_0.0, 0) < book@.len()
        },
        old(core).safety.failed() ==> plan == Err::<ReconnectPlan, AgentError>(
            AgentError::SafetyRecoveryFailed,
        ),
        plan is Err && !old(core).busy ==> !final(core).busy,
        final(core).board == old(core).board,
        final(core).session == old(core).session,
{
}

/// A session that is made again is shown as connected unless the device is
/// being stopped; then it gives way.
pub proof fn law_made_connections_are_shown(
    core: &mut AgentCore,
    peer: DeviceId,
    shown: Result<AgentStatus, AgentError>,
)
    requires
        call_ensures(reconnect_connected, (core, peer), shown),
    ensures
        shown is Ok <==> !old(core).safety.failed() && !old(core).safety.operating(),
        shown is Err ==> !final(core).busy && final(core).session == old(core).session
            && final(core).board == old(core).board,
        shown matches Ok(status) ==> {
            &&& final(core).session
            &&& status == final(core).board.status
            &&& status.phase is Connected
            &&& status.connected_peer == Some(peer)
            &&& status.input_owner is Local
        },
{
}

/// A session that is over leaves no session and no operation, and the device
/// ready unless safety is in question.
pub proof fn law_sessions_over_leave_the_device_free(
    core: &mut AgentCore,
    result: Result<(), SessionRuntimeError>,
)
    requires
        call_ensures(session_over, (core, result), ()),
    ensures
        !final(core).session,
        !final(core).busy,
        final(core).board.status.connected_peer is None,
        final(core).board.status.phase is Ready || final(core).board.status.phase is Stopping,
        final(core).board.status.phase is Stopping <==> (result matches Err(
            SessionRuntimeError::SafetyRecoveryFailed,
        )) || old(core).safety.failed() || old(core).safety.operating(),
{
}

} // verus!
