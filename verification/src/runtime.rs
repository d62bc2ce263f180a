//! Rules of the agent as a whole.

use vstd::prelude::*;
use vstd::string::*;
use crate::session_safety::SessionRuntimeError;
use crate::text::text_chars;

verus! {

#[derive(Clone, Copy, Debug, PartialEq, Eq, Structural)]
pub enum AgentError {
    Busy,
    InvalidEndpoint,
    DiscoveryUnavailable,
    PairingTimedOut,
    PairingFailed,
    ReconnectFailed,
    PairingNotFound,
    AlreadyConfirmed,
    PeerNotFound,
    Storage,
    GrantEpochExhausted,
    NotConnected,
    FocusRejected,
    SafetyRecoveryFailed,
    TransferFailed,
    TransferNotFound,
    TransferNotCancellable,
    ReceiveDestinationUnavailable,
    PlacementApplyFailed,
}

/// How the user asked for a known peer to be met again.
#[derive(Debug, PartialEq, Eq)]
pub enum ReconnectMode {
    Listen { peer_id: String },
    Connect { peer_id: String, endpoint: Option<String> },
}

impl ReconnectMode {
    /// The peer that is meant.
    pub open spec fn peer(self) -> Seq<char> {
        match self {
            ReconnectMode::Listen { peer_id } => peer_id@,
            ReconnectMode::Connect { peer_id, .. } => peer_id@,
        }
    }

    pub fn peer_id(&self) -> (peer_id: &str)
        ensures
            peer_id@ == self.peer(),
    {
        match self {
            ReconnectMode::Listen { peer_id } => peer_id.as_str(),
            ReconnectMode::Connect { peer_id, .. } => peer_id.as_str(),
        }
    }
}

pub open spec fn lower_hex(c: char) -> bool {
    '0' <= c <= '9' || 'a' <= c <= 'f'
}

/// Sixty-four lower-case hexadecimal digits.
pub open spec fn peer_id_form(text: Seq<char>) -> bool {
    text.len() == 64 && forall|i: int| 0 <= i < text.len() ==> lower_hex(#[trigger] text[i])
}

fn peer_id_range(chars: &Vec<char>, from: usize, to: usize) -> (valid: bool)
    requires
        from <= to <= chars@.len(),
    ensures
        valid == peer_id_form(chars@.subrange(from as int, to as int)),
{
    if to - from != 64 {
        return false;
    }
    let ghost part = chars@.subrange(from as int, to as int);
    let mut at: usize = from;
    while at < to
        invariant
            from <= at <= to <= chars@.len(),
            part == chars@.subrange(from as int, to as int),
            forall|i: int| 0 <= i < at - from ==> lower_hex(#[trigger] part[i]),
        decreases to - at,
    {
        let c: char = chars[at];
        if !(('0' <= c && c <= '9') || ('a' <= c && c <= 'f')) {
            assert(!lower_hex(part[at - from]));
            return false;
        }
        at = at + 1;
    }
    true
}

/// Checks the text of a peer identifier.
pub fn validate_peer_id_text(peer_id: &str) -> (checked: Result<(), AgentError>)
    ensures
        checked == if peer_id_form(peer_id@) {
            Ok::<(), AgentError>(())
        } else {
            Err(AgentError::InvalidEndpoint)
        },
{
    let chars = text_chars(peer_id);
    assert(chars@.subrange(0, chars@.len() as int) =~= peer_id@);
    if peer_id_range(&chars, 0, chars.len()) {
        Ok(())
    } else {
        Err(AgentError::InvalidEndpoint)
    }
}

/// Where the first `@` stands at or after `from`; the end, when there is none.
pub open spec fn at_sign(text: Seq<char>, from: int) -> int
    decreases text.len() - from,
{
    if from >= text.len() || text[from] == '@' {
        from
    } else {
        at_sign(text, from + 1)
    }
}

/// What a request to meet a peer again means.
pub open spec fn reconnect_meaning(request: Seq<char>) -> Result<
    (Seq<char>, Option<Seq<char>>, bool),
    AgentError,
> {
    let listen = "reconnect-listen:"@;
    let connect = "reconnect:"@;
    if listen.is_prefix_of(request) {
        let peer = request.skip(listen.len() as int);
        if peer_id_form(peer) {
            Ok((peer, None, true))
        } else {
            Err(AgentError::InvalidEndpoint)
        }
    } else if connect.is_prefix_of(request) {
        let rest = request.skip(connect.len() as int);
        let split = at_sign(rest, 0);
        let peer = rest.take(split);
        if !peer_id_form(peer) {
            Err(AgentError::InvalidEndpoint)
        } else if split == rest.len() {
            Ok((peer, None, false))
        } else if split + 1 == rest.len() {
            Err(AgentError::InvalidEndpoint)
        } else {
            Ok((peer, Some(rest.skip(split + 1)), false))
        }
    } else {
        Err(AgentError::InvalidEndpoint)
    }
}

/// `mode` says what `meaning` says.
pub open spec fn mode_means(mode: ReconnectMode, meaning: (Seq<char>, Option<Seq<char>>, bool)) -> bool {
    match mode {
        ReconnectMode::Listen { peer_id } => meaning == (peer_id@, None::<Seq<char>>, true),
        ReconnectMode::Connect { peer_id, endpoint } => {
            &&& meaning.0 == peer_id@
            &&& !meaning.2
            &&& match endpoint {
                Some(text) => meaning.1 == Some(text@),
                None => meaning.1 is None,
            }
        },
    }
}

proof fn lemma_at_sign(text: Seq<char>, from: int)
    requires
        0 <= from <= text.len(),
    ensures
        from <= at_sign(text, from) <= text.len(),
    decreases text.len() - from,
{
    if from < text.len() && text[from] != '@' {
        lemma_at_sign(text, from + 1);
    }
}

pub(crate) fn has_prefix(chars: &Vec<char>, prefix: &str) -> (found: bool)
    ensures
        found == prefix@.is_prefix_of(chars@),
{
    let wanted = text_chars(prefix);
    if chars.len() < wanted.len() {
        return false;
    }
    let mut at: usize = 0;
    while at < wanted.len()
        invariant
            at <= wanted@.len() <= chars@.len(),
            wanted@ == prefix@,
            forall|i: int| 0 <= i < at ==> chars@[i] == wanted@[i],
        decreases wanted@.len() - at,
    {
        if chars[at] != wanted[at] {
            assert(chars@.take(wanted@.len() as int)[at as int] == chars@[at as int]);
            return false;
        }
        at = at + 1;
    }
    assert(wanted@ =~= chars@.take(wanted@.len() as int));
    true
}

/// Reads a request to meet a known peer again: `reconnect-listen:` and a peer
/// identifier, or `reconnect:` and a peer identifier, with or without `@` and an
/// endpoint behind it.
pub fn parse_reconnect_request(request: &str) -> (mode: Result<ReconnectMode, AgentError>)
    ensures
        match (mode, reconnect_meaning(request@)) {
            (Ok(mode), Ok(meaning)) => mode_means(mode, meaning),
            (Err(error), Err(expected)) => error == expected,
            _ => false,
        },
{
    let chars = text_chars(request);
    let total: usize = chars.len();
    proof {
        reveal_strlit("reconnect-listen:");
        reveal_strlit("reconnect:");
    }
    if has_prefix(&chars, "reconnect-listen:") {
        assert(request@.skip(17) =~= chars@.subrange(17, total as int));
        if !peer_id_range(&chars, 17, total) {
            return Err(AgentError::InvalidEndpoint);
        }
        let peer_id = request.substring_char(17, total).to_owned();
        return Ok(ReconnectMode::Listen { peer_id });
    }
    if !has_prefix(&chars, "reconnect:") {
        return Err(AgentError::InvalidEndpoint);
    }
    let ghost rest = request@.skip(10);
    let mut split: usize = 10;
    while split < total && chars[split] != '@'
        invariant
            10 <= split <= total,
            total == chars@.len(),
            chars@ == request@,
            rest == request@.skip(10),
            at_sign(rest, 0) == at_sign(rest, split - 10),
        decreases total - split,
    {
        assert(rest[split - 10] == chars@[split as int]);
        split = split + 1;
    }
    assert(split < total ==> rest[split - 10] == chars@[split as int]);
    assert(at_sign(rest, 0) == split - 10);
    assert(rest.take(split - 10) =~= chars@.subrange(10, split as int));
    if !peer_id_range(&chars, 10, split) {
        return Err(AgentError::InvalidEndpoint);
    }
    let peer_id = request.substring_char(10, split).to_owned();
    if split == total {
        return Ok(ReconnectMode::Connect { peer_id, endpoint: None });
    }
    if split + 1 == total {
        return Err(AgentError::InvalidEndpoint);
    }
    assert(rest.skip(split - 10 + 1) =~= request@.subrange(split + 1, total as int));
    let endpoint = request.substring_char(split + 1, total).to_owned();
    Ok(ReconnectMode::Connect { peer_id, endpoint: Some(endpoint) })
}

/// How a failed session is reported.
pub open spec fn reported(error: SessionRuntimeError) -> AgentError {
    match error {
        SessionRuntimeError::Transport => AgentError::NotConnected,
        SessionRuntimeError::FocusRejected => AgentError::FocusRejected,
        SessionRuntimeError::SafetyRecoveryFailed => AgentError::SafetyRecoveryFailed,
        SessionRuntimeError::ProtocolViolation => AgentError::PairingFailed,
        SessionRuntimeError::Platform => AgentError::PairingFailed,
        SessionRuntimeError::TopologyRefreshRequired => AgentError::PairingFailed,
    }
}

/// Reports a failed session.
pub fn map_session_error(error: SessionRuntimeError) -> (told: AgentError)
    ensures
        told == reported(error),
{
    match error {
        SessionRuntimeError::Transport => AgentError::NotConnected,
        SessionRuntimeError::FocusRejected => AgentError::FocusRejected,
        SessionRuntimeError::SafetyRecoveryFailed => AgentError::SafetyRecoveryFailed,
        SessionRuntimeError::ProtocolViolation
        | SessionRuntimeError::Platform
        | SessionRuntimeError::TopologyRefreshRequired => AgentError::PairingFailed,
    }
}

/// Milliseconds since the Unix epoch, given what the system clock measured: a
/// clock set before the epoch counts as the epoch, and a value that does not
/// fit counts as the greatest one.
pub fn unix_time_ms(since_epoch: Option<u128>) -> (milliseconds: u64)
    ensures
        milliseconds == match since_epoch {
            None => 0,
            Some(value) => if value > u64::MAX {
                u64::MAX
            } else {
                value as u64
            },
        },
{
    match since_epoch {
        None => 0,
        Some(value) => if value > u64::MAX as u128 {
            u64::MAX
        } else {
            value as u64
        },
    }
}

proof fn lemma_at_sign_stands(text: Seq<char>, from: int, place: int)
    requires
        0 <= from <= place <= text.len(),
        forall|i: int| from <= i < place ==> #[trigger] text[i] != '@',
        place < text.len() ==> text[place] == '@',
    ensures
        at_sign(text, from) == place,
    decreases place - from,
{
    if from < place {
        assert(text[from] != '@');
        lemma_at_sign_stands(text, from + 1, place);
    }
}

/// A peer identifier is sixty-four digits, each from zero to nine or from a to f.
pub proof fn law_peer_identifiers_are_hexadecimal(text: Seq<char>)
    ensures
        peer_id_form(text) <==> text.len() == 64 && forall|i: int|
            0 <= i < text.len() ==> 0x30 <= #[trigger] text[i] as int <= 0x39 || 0x61
                <= text[i] as int <= 0x66,
{
}

/// A request to listen for a peer, to meet it, and to meet it at an endpoint is
/// read as that, with the peer and the endpoint that it names.
pub proof fn law_reconnect_requests_are_read(peer: Seq<char>, endpoint: Seq<char>)
    requires
        peer_id_form(peer),
        endpoint.len() > 0,
    ensures
        reconnect_meaning("reconnect-listen:"@ + peer) == Ok::<_, AgentError>(
            (peer, None::<Seq<char>>, true),
        ),
        reconnect_meaning("reconnect:"@ + peer) == Ok::<_, AgentError>(
            (peer, None::<Seq<char>>, false),
        ),
        reconnect_meaning("reconnect:"@ + peer + seq!['@'] + endpoint) == Ok::<_, AgentError>(
            (peer, Some(endpoint), false),
        ),
        reconnect_meaning("reconnect:"@ + peer + seq!['@']) is Err,
{
    reveal_strlit("reconnect-listen:");
    reveal_strlit("reconnect:");
    let listen = "reconnect-listen:"@;
    let connect = "reconnect:"@;
    assert((listen + peer).take(listen.len() as int) =~= listen);
    assert(listen.is_prefix_of(listen + peer));
    assert((listen + peer).skip(listen.len() as int) =~= peer);
    assert forall|rest: Seq<char>| !(#[trigger] (connect + rest) =~= listen)
        && !listen.is_prefix_of(connect + rest) by {
        if listen.is_prefix_of(connect + rest) {
            assert((connect + rest)[9] == listen[9]);
        }
    }
    assert forall|i: int| 0 <= i < peer.len() implies #[trigger] peer[i] != '@' by {
        assert(lower_hex(peer[i]));
    }
    let plain = connect + peer;
    assert(plain.take(connect.len() as int) =~= connect);
    assert(plain.skip(connect.len() as int) =~= peer);
    lemma_at_sign_stands(peer, 0, peer.len() as int);
    assert(peer.take(peer.len() as int) =~= peer);
    let tail = peer + seq!['@'] + endpoint;
    let full = connect + peer + seq!['@'] + endpoint;
    assert(full =~= connect + tail);
    assert(full.take(connect.len() as int) =~= connect);
    assert(full.skip(connect.len() as int) =~= tail);
    assert forall|i: int| 0 <= i < peer.len() implies #[trigger] tail[i] != '@' by {
        assert(tail[i] == peer[i]);
    }
    lemma_at_sign_stands(tail, 0, peer.len() as int);
    assert(tail.take(peer.len() as int) =~= peer);
    assert(tail.skip(peer.len() as int + 1) =~= endpoint);
    let bare = peer + seq!['@'];
    let cut = connect + peer + seq!['@'];
    assert(cut =~= connect + bare);
    assert(cut.take(connect.len() as int) =~= connect);
    assert(cut.skip(connect.len() as int) =~= bare);
    assert forall|i: int| 0 <= i < peer.len() implies #[trigger] bare[i] != '@' by {
        assert(bare[i] == peer[i]);
    }
    lemma_at_sign_stands(bare, 0, peer.len() as int);
}

proof fn lemma_before_at_sign(text: Seq<char>, from: int)
    requires
        0 <= from <= text.len(),
    ensures
        from <= at_sign(text, from) <= text.len(),
        at_sign(text, from) < text.len() ==> text[at_sign(text, from)] == '@',
    decreases text.len() - from,
{
    if from < text.len() && text[from] != '@' {
        lemma_before_at_sign(text, from + 1);
    }
}

/// No other request is one: what is read of a request makes up the request again,
/// and names a peer by its identifier.
pub proof fn law_only_reconnect_requests_are_read(request: Seq<char>)
    ensures
        reconnect_meaning(request) matches Ok((peer, endpoint, listens)) ==> {
            &&& peer_id_form(peer)
            &&& listens ==> endpoint is None && request == "reconnect-listen:"@ + peer
            &&& !listens && endpoint is None ==> request == "reconnect:"@ + peer
            &&& endpoint matches Some(place) ==> !listens && place.len() > 0 && request
                == "reconnect:"@ + peer + seq!['@'] + place
        },
        reconnect_meaning(request) matches Err(error) ==> error is InvalidEndpoint,
{
    let listen = "reconnect-listen:"@;
    let connect = "reconnect:"@;
    if listen.is_prefix_of(request) {
        assert(request =~= listen + request.skip(listen.len() as int));
    } else if connect.is_prefix_of(request) {
        let rest = request.skip(connect.len() as int);
        lemma_before_at_sign(rest, 0);
        let split = at_sign(rest, 0);
        assert(request =~= connect + rest);
        if split == rest.len() {
            assert(rest.take(split) =~= rest);
        } else {
            assert(rest =~= rest.take(split) + seq!['@'] + rest.skip(split + 1));
            assert(request =~= connect + rest.take(split) + seq!['@'] + rest.skip(split + 1));
        }
    }
}

/// A session that failed is reported as what the user can act on: a lost
/// connection, a refused focus, an unsafe state, and else a peer that does not
/// work.
pub proof fn law_session_failures_are_reported(error: SessionRuntimeError)
    ensures
        reported(error) is NotConnected <==> error is Transport,
        reported(error) is FocusRejected <==> error is FocusRejected,
        reported(error) is SafetyRecoveryFailed <==> error is SafetyRecoveryFailed,
        reported(error) is PairingFailed <==> error is ProtocolViolation || error is Platform
            || error is TopologyRefreshRequired,
{
}

/// A time before the epoch is zero, and one that is too late to be told is the
/// latest that can be.
pub proof fn law_times_are_held_within_limits(since_epoch: Option<u128>, milliseconds: u64)
    requires
        call_ensures(unix_time_ms, (since_epoch,), milliseconds),
    ensures
        since_epoch is None ==> milliseconds == 0,
        since_epoch matches Some(value) ==> {
            &&& milliseconds <= value
            &&& milliseconds < value ==> milliseconds == u64::MAX
        },
{
}

/// An identity of a peer that lacks its form is refused as an endpoint.
pub proof fn law_peer_identities_have_a_form(peer_id: &str, checked: Result<(), AgentError>)
    requires
        call_ensures(validate_peer_id_text, (peer_id,), checked),
    ensures
        checked is Ok <==> peer_id_form(peer_id@),
        checked matches Err(error) ==> error == AgentError::InvalidEndpoint,
{
}

} // verus!
