//! The peers that this agent knows, and every change to them. A change is first
//! worked out on a copy; it counts only when the copy was stored.

use vstd::prelude::*;
use crate::grants::Capability;
use crate::identifiers::{device_id_text, device_text, DeviceId};
use crate::peer_records::{PeerRecord, PeerRecordModel};
use crate::runtime::AgentError;
use crate::trust_store::{devices_distinct, record_models};

verus! {

/// One capability, as trust is given.
#[derive(Clone, Copy, Debug, PartialEq, Eq, Structural)]
pub enum TrustedCapability {
    RemoteInput,
    ClipboardRead,
    ClipboardWrite,
    FileTransfer,
}

/// One capability, as the user interface names it.
#[derive(Clone, Copy, Debug, PartialEq, Eq, Structural)]
pub enum CapabilityName {
    Input,
    ClipboardRead,
    ClipboardWrite,
    Files,
}

/// What is granted when one capability is.
#[verifier::allow_in_spec]
pub fn protocol_capability(capability: TrustedCapability) -> Capability
    returns
        (match capability {
            TrustedCapability::RemoteInput => Capability::remote_input_only(),
            TrustedCapability::ClipboardRead => Capability::clipboard_read_only(),
            TrustedCapability::ClipboardWrite => Capability::clipboard_write_only(),
            TrustedCapability::FileTransfer => Capability::file_transfer_only(),
        }),
{
    match capability {
        TrustedCapability::RemoteInput => Capability::remote_input_only(),
        TrustedCapability::ClipboardRead => Capability::clipboard_read_only(),
        TrustedCapability::ClipboardWrite => Capability::clipboard_write_only(),
        TrustedCapability::FileTransfer => Capability::file_transfer_only(),
    }
}

#[verifier::allow_in_spec]
pub fn trusted_capability(capability: CapabilityName) -> TrustedCapability
    returns
        (match capability {
            CapabilityName::Input => TrustedCapability::RemoteInput,
            CapabilityName::ClipboardRead => TrustedCapability::ClipboardRead,
            CapabilityName::ClipboardWrite => TrustedCapability::ClipboardWrite,
            CapabilityName::Files => TrustedCapability::FileTransfer,
        }),
{
    match capability {
        CapabilityName::Input => TrustedCapability::RemoteInput,
        CapabilityName::ClipboardRead => TrustedCapability::ClipboardRead,
        CapabilityName::ClipboardWrite => TrustedCapability::ClipboardWrite,
        CapabilityName::Files => TrustedCapability::FileTransfer,
    }
}

/// The capabilities that a list of names asks for: each that is named, and no
/// other.
pub fn requested_grants(capabilities: &[CapabilityName]) -> (grants: Capability)
    ensures
        grants.remote_input == capabilities@.contains(CapabilityName::Input),
        grants.clipboard_read == capabilities@.contains(CapabilityName::ClipboardRead),
        grants.clipboard_write == capabilities@.contains(CapabilityName::ClipboardWrite),
        grants.file_transfer == capabilities@.contains(CapabilityName::Files),
{
    let mut grants = Capability::empty();
    let mut at: usize = 0;
    while at < capabilities.len()
        invariant
            at <= capabilities@.len(),
            grants.remote_input == capabilities@.take(at as int).contains(CapabilityName::Input),
            grants.clipboard_read == capabilities@.take(at as int).contains(
                CapabilityName::ClipboardRead,
            ),
            grants.clipboard_write == capabilities@.take(at as int).contains(
                CapabilityName::ClipboardWrite,
            ),
            grants.file_transfer == capabilities@.take(at as int).contains(CapabilityName::Files),
        decreases capabilities@.len() - at,
    {
        proof {
            let before = capabilities@.take(at as int);
            let named = capabilities@[at as int];
            assert(capabilities@.take(at + 1) =~= before.push(named));
            assert forall|name: CapabilityName|
                before.push(named).contains(name) == (before.contains(name) || name == named) by {
                if name == named {
                    assert(before.push(named)[at as int] == name);
                }
                if before.contains(name) {
                    let i = choose|i: int| 0 <= i < before.len() && before[i] == name;
                    assert(before.push(named)[i] == name);
                }
            }
        }
        grants.set(protocol_capability(trusted_capability(capabilities[at])), true);
        at = at + 1;
    }
    assert(capabilities@.take(capabilities@.len() as int) =~= capabilities@);
    grants
}

/// The names of capabilities, in a fixed order.
pub open spec fn names_of(grants: Capability) -> Seq<CapabilityName> {
    let input = if grants.remote_input {
        seq![CapabilityName::Input]
    } else {
        seq![]
    };
    let read = if grants.clipboard_read {
        seq![CapabilityName::ClipboardRead]
    } else {
        seq![]
    };
    let write = if grants.clipboard_write {
        seq![CapabilityName::ClipboardWrite]
    } else {
        seq![]
    };
    let files = if grants.file_transfer {
        seq![CapabilityName::Files]
    } else {
        seq![]
    };
    input + read + write + files
}

pub fn capability_names(grants: Capability) -> (names: Vec<CapabilityName>)
    ensures
        names@ == names_of(grants),
{
    let mut names: Vec<CapabilityName> = Vec::new();
    if grants.remote_input {
        names.push(CapabilityName::Input);
    }
    if grants.clipboard_read {
        names.push(CapabilityName::ClipboardRead);
    }
    if grants.clipboard_write {
        names.push(CapabilityName::ClipboardWrite);
    }
    if grants.file_transfer {
        names.push(CapabilityName::Files);
    }
    assert(names@ =~= names_of(grants));
    names
}

/// Asking for the capabilities that were named gives these capabilities.
pub proof fn law_names_stand_for_their_grants(grants: Capability)
    ensures
        names_of(grants).contains(CapabilityName::Input) == grants.remote_input,
        names_of(grants).contains(CapabilityName::ClipboardRead) == grants.clipboard_read,
        names_of(grants).contains(CapabilityName::ClipboardWrite) == grants.clipboard_write,
        names_of(grants).contains(CapabilityName::Files) == grants.file_transfer,
{
    let names = names_of(grants);
    let a: int = if grants.remote_input { 1 } else { 0 };
    let b: int = if grants.clipboard_read { 1 } else { 0 };
    let c: int = if grants.clipboard_write { 1 } else { 0 };
    if grants.remote_input {
        assert(names[0] == CapabilityName::Input);
    }
    if grants.clipboard_read {
        assert(names[a] == CapabilityName::ClipboardRead);
    }
    if grants.clipboard_write {
        assert(names[a + b] == CapabilityName::ClipboardWrite);
    }
    if grants.file_transfer {
        assert(names[a + b + c] == CapabilityName::Files);
    }
}

/// What the user is told of a known peer.
pub struct TrustedPeerSummary {
    pub peer_id: String,
    pub display_name: String,
    pub active: bool,
    pub local_grants: Vec<CapabilityName>,
}

pub open spec fn summarizes(summary: TrustedPeerSummary, record: PeerRecordModel) -> bool {
    &&& summary.peer_id@ == device_text(record.device_id)
    &&& summary.display_name@ == record.display_name
    &&& summary.active == (record.revoked_at_unix_ms is None)
    &&& summary.local_grants@ == names_of(record.grants)
}

/// The record is that of the peer that is meant, and still trusted.
pub open spec fn meant(record: PeerRecordModel, peer_id: Seq<char>) -> bool {
    device_text(record.device_id) == peer_id && record.revoked_at_unix_ms is None
}

/// Where the first trusted peer that is meant stands, at or after `from`; the
/// end, when there is none.
pub open spec fn place_from(peers: Seq<PeerRecordModel>, peer_id: Seq<char>, from: int) -> int
    decreases peers.len() - from,
{
    if from >= peers.len() || meant(peers[from], peer_id) {
        from
    } else {
        place_from(peers, peer_id, from + 1)
    }
}

/// Where a device stands, at or after `from`; the end, when it is not there.
pub open spec fn device_from(peers: Seq<PeerRecordModel>, device: DeviceId, from: int) -> int
    decreases peers.len() - from,
{
    if from >= peers.len() || peers[from].device_id == device {
        from
    } else {
        device_from(peers, device, from + 1)
    }
}

/// The peers after one capability was switched. Each change has its own epoch.
pub open spec fn with_capability(
    peers: Seq<PeerRecordModel>,
    at: int,
    part: Capability,
    enabled: bool,
) -> Seq<PeerRecordModel> {
    peers.update(
        at,
        PeerRecordModel {
            grants: peers[at].grants.with(part, enabled),
            grant_epoch: (peers[at].grant_epoch + 1) as u64,
            ..peers[at]
        },
    )
}

/// The peers after one of them was revoked, at no time before it was trusted.
pub open spec fn with_revocation(peers: Seq<PeerRecordModel>, at: int, now: u64) -> Seq<
    PeerRecordModel,
> {
    let established = peers[at].established_at_unix_ms;
    peers.update(
        at,
        PeerRecordModel {
            revoked_at_unix_ms: Some(
                if now < established {
                    established
                } else {
                    now
                },
            ),
            ..peers[at]
        },
    )
}

pub open spec fn with_endpoint(peers: Seq<PeerRecordModel>, at: int, endpoint: Seq<char>) -> Seq<
    PeerRecordModel,
> {
    peers.update(at, PeerRecordModel { last_endpoint: Some(endpoint), ..peers[at] })
}

/// The peers after one was paired: it takes the place of what was known of the
/// same device, or comes last.
pub open spec fn with_peer(peers: Seq<PeerRecordModel>, record: PeerRecordModel) -> Seq<
    PeerRecordModel,
> {
    let at = device_from(peers, record.device_id, 0);
    if at < peers.len() {
        peers.update(at, record)
    } else {
        peers.push(record)
    }
}

/// A capability change that was worked out, and is to be stored.
pub struct GrantChange {
    pub candidate: Vec<PeerRecord>,
    pub grants: Capability,
    pub epoch: u64,
    pub peer_device: DeviceId,
}

/// The peers that this agent knows.
pub struct PeerBook {
    peers: Vec<PeerRecord>,
}

impl View for PeerBook {
    type V = Seq<PeerRecordModel>;

    closed spec fn view(&self) -> Seq<PeerRecordModel> {
        record_models(self.peers@)
    }
}

proof fn lemma_place(peers: Seq<PeerRecordModel>, peer_id: Seq<char>, from: int)
    requires
        0 <= from <= peers.len(),
    ensures
        from <= place_from(peers, peer_id, from) <= peers.len(),
        place_from(peers, peer_id, from) < peers.len() ==> meant(
            peers[place_from(peers, peer_id, from)],
            peer_id,
        ),
    decreases peers.len() - from,
{
    if from < peers.len() && !meant(peers[from], peer_id) {
        lemma_place(peers, peer_id, from + 1);
    }
}

proof fn lemma_device_place(peers: Seq<PeerRecordModel>, device: DeviceId, from: int)
    requires
        0 <= from <= peers.len(),
    ensures
        from <= device_from(peers, device, from) <= peers.len(),
        device_from(peers, device, from) < peers.len() ==> peers[device_from(
            peers,
            device,
            from,
        )].device_id == device,
        forall|i: int|
            from <= i < device_from(peers, device, from) ==> (#[trigger] peers[i]).device_id
                != device,
    decreases peers.len() - from,
{
    if from < peers.len() && peers[from].device_id != device {
        lemma_device_place(peers, device, from + 1);
    }
}

impl PeerBook {
    pub fn new(peers: Vec<PeerRecord>) -> (book: PeerBook)
        ensures
            book@ == record_models(peers@),
    {
        PeerBook { peers }
    }

    fn find(&self, peer_id: &str) -> (at: usize)
        ensures
            at == place_from(self@, peer_id@, 0),
            at <= self@.len(),
            at < self@.len() ==> meant(self@[at as int], peer_id@),
            self@.len() == self.peers@.len(),
    {
        let wanted = peer_id.to_owned();
        let mut at: usize = 0;
        while at < self.peers.len()
            invariant
                at <= self.peers@.len(),
                self.peers@.len() == self@.len(),
                wanted@ == peer_id@,
                place_from(self@, peer_id@, 0) == place_from(self@, peer_id@, at as int),
            decreases self.peers@.len() - at,
        {
            let record = &self.peers[at];
            assert(self@[at as int] == record@);
            if record.is_active() && device_id_text(record.device_id) == wanted {
                return at;
            }
            at = at + 1;
        }
        at
    }

    fn copied(&self) -> (copy: Vec<PeerRecord>)
        ensures
            record_models(copy@) == self@,
            copy@.len() == self@.len(),
    {
        let mut copy: Vec<PeerRecord> = Vec::new();
        let mut at: usize = 0;
        while at < self.peers.len()
            invariant
                at <= self.peers@.len(),
                copy@.len() == at,
                forall|i: int| 0 <= i < at ==> (#[trigger] copy@[i])@ == self.peers@[i]@,
            decreases self.peers@.len() - at,
        {
            copy.push(self.peers[at].copied());
            at = at + 1;
        }
        assert(record_models(copy@) =~= self@);
        copy
    }

    /// The copy with one record replaced.
    fn replaced(&self, at: usize, record: PeerRecord) -> (copy: Vec<PeerRecord>)
        requires
            at < self@.len(),
        ensures
            record_models(copy@) == self@.update(at as int, record@),
    {
        let mut copy = self.copied();
        let ghost before = copy@;
        copy.set(at, record);
        assert forall|i: int| 0 <= i < copy@.len() implies record_models(copy@)[i] == self@.update(
            at as int,
            record@,
        )[i] by {
            assert(record_models(before)[i] == self@[i]);
        }
        assert(record_models(copy@) =~= self@.update(at as int, record@));
        copy
    }

    /// The trusted peer that is meant.
    pub fn active_peer(&self, peer_id: &str) -> (found: Result<PeerRecord, AgentError>)
        ensures
            ({
                let at = place_from(self@, peer_id@, 0);
                match found {
                    Ok(record) => at < self@.len() && record@ == self@[at],
                    Err(error) => at >= self@.len() && error == AgentError::PeerNotFound,
                }
            }),
    {
        let at: usize = self.find(peer_id);
        if at < self.peers.len() {
            assert(self@[at as int] == self.peers@[at as int]@);
            Ok(self.peers[at].copied())
        } else {
            Err(AgentError::PeerNotFound)
        }
    }

    /// Works out that a capability of a trusted peer is switched. Nothing is
    /// changed when it stands as it is asked for.
    pub fn set_capability(
        &self,
        peer_id: &str,
        capability: TrustedCapability,
        enabled: bool,
    ) -> (change: Result<Option<GrantChange>, AgentError>)
        ensures
            ({
                let at = place_from(self@, peer_id@, 0);
                let part = protocol_capability(capability);
                match change {
                    Err(AgentError::PeerNotFound) => at >= self@.len(),
                    Err(error) => {
                        &&& error == AgentError::GrantEpochExhausted
                        &&& at < self@.len()
                        &&& self@[at].grants.holds(part) != enabled
                        &&& self@[at].grant_epoch == u64::MAX
                    },
                    Ok(None) => at < self@.len() && self@[at].grants.holds(part) == enabled,
                    Ok(Some(change)) => {
                        &&& at < self@.len()
                        &&& self@[at].grants.holds(part) != enabled
                        &&& self@[at].grant_epoch < u64::MAX
                        &&& record_models(change.candidate@) == with_capability(
                            self@,
                            at,
                            part,
                            enabled,
                        )
                        &&& change.grants == self@[at].grants.with(part, enabled)
                        &&& change.epoch == self@[at].grant_epoch + 1
                        &&& change.peer_device == self@[at].device_id
                    },
                }
            }),
    {
        let at: usize = self.find(peer_id);
        if at >= self.peers.len() {
            return Err(AgentError::PeerNotFound);
        }
        assert(self@[at as int] == self.peers@[at as int]@);
        let part = protocol_capability(capability);
        if self.peers[at].grants.contains(part) == enabled {
            return Ok(None);
        }
        let epoch: u64 = match self.peers[at].grant_epoch.checked_add(1) {
            Some(epoch) => epoch,
            None => return Err(AgentError::GrantEpochExhausted),
        };
        let mut record = self.peers[at].copied();
        record.grants.set(part, enabled);
        record.grant_epoch = epoch;
        let grants = record.grants;
        let peer_device = record.device_id;
        let candidate = self.replaced(at, record);
        Ok(Some(GrantChange { candidate, grants, epoch, peer_device }))
    }

    /// Works out that a trusted peer is revoked.
    pub fn revoke(&self, peer_id: &str, now: u64) -> (change: Result<
        (Vec<PeerRecord>, DeviceId),
        AgentError,
    >)
        ensures
            ({
                let at = place_from(self@, peer_id@, 0);
                match change {
                    Ok((candidate, device)) => {
                        &&& at < self@.len()
                        &&& record_models(candidate@) == with_revocation(self@, at, now)
                        &&& device == self@[at].device_id
                    },
                    Err(error) => at >= self@.len() && error == AgentError::PeerNotFound,
                }
            }),
    {
        let at: usize = self.find(peer_id);
        if at >= self.peers.len() {
            return Err(AgentError::PeerNotFound);
        }
        assert(self@[at as int] == self.peers@[at as int]@);
        let mut record = self.peers[at].copied();
        let device = record.device_id;
        record.revoked_at_unix_ms = Some(
            if now < record.established_at_unix_ms {
                record.established_at_unix_ms
            } else {
                now
            },
        );
        Ok((self.replaced(at, record), device))
    }

    /// Works out that a trusted peer was met at an endpoint.
    pub fn update_peer_endpoint(&self, peer_id: &str, endpoint: String) -> (change: Result<
        Vec<PeerRecord>,
        AgentError,
    >)
        ensures
            ({
                let at = place_from(self@, peer_id@, 0);
                match change {
                    Ok(candidate) => {
                        &&& at < self@.len()
                        &&& record_models(candidate@) == with_endpoint(self@, at, endpoint@)
                    },
                    Err(error) => at >= self@.len() && error == AgentError::PeerNotFound,
                }
            }),
    {
        let at: usize = self.find(peer_id);
        if at >= self.peers.len() {
            return Err(AgentError::PeerNotFound);
        }
        assert(self@[at as int] == self.peers@[at as int]@);
        let mut record = self.peers[at].copied();
        record.last_endpoint = Some(endpoint);
        Ok(self.replaced(at, record))
    }

    /// Works out that a peer was paired.
    pub fn persist_peer(&self, record: PeerRecord) -> (candidate: Vec<PeerRecord>)
        ensures
            record_models(candidate@) == with_peer(self@, record@),
    {
        let mut at: usize = 0;
        while at < self.peers.len() && self.peers[at].device_id != record.device_id
            invariant
                at <= self.peers@.len(),
                self.peers@.len() == self@.len(),
                device_from(self@, record@.device_id, 0) == device_from(
                    self@,
                    record@.device_id,
                    at as int,
                ),
            decreases self.peers@.len() - at,
        {
            assert(self@[at as int] == self.peers@[at as int]@);
            at = at + 1;
        }
        if at < self.peers.len() {
            assert(self@[at as int] == self.peers@[at as int]@);
            self.replaced(at, record)
        } else {
            let mut candidate = self.copied();
            let ghost before = candidate@;
            candidate.push(record);
            assert forall|i: int| 0 <= i < candidate@.len() implies record_models(candidate@)[i]
                == self@.push(record@)[i] by {
                if i < before.len() {
                    assert(record_models(before)[i] == self@[i]);
                }
            }
            assert(record_models(candidate@) =~= self@.push(record@));
            candidate
        }
    }

    /// Takes a change over if it was stored, and drops it if it was not.
    pub fn commit(&mut self, candidate: Vec<PeerRecord>, stored: bool) -> (done: Result<
        (),
        AgentError,
    >)
        ensures
            if stored {
                done is Ok && final(self)@ == record_models(candidate@)
            } else {
                done == Err::<(), AgentError>(AgentError::Storage) && final(self)@ == old(self)@
            },
    {
        if !stored {
            return Err(AgentError::Storage);
        }
        self.peers = candidate;
        Ok(())
    }

    /// What the user is told of the known peers, in their order.
    pub fn trusted_peers(&self) -> (summaries: Vec<TrustedPeerSummary>)
        ensures
            summaries@.len() == self@.len(),
            forall|i: int|
                0 <= i < self@.len() ==> summarizes(#[trigger] summaries@[i], self@[i]),
    {
        let mut summaries: Vec<TrustedPeerSummary> = Vec::new();
        let mut at: usize = 0;
        while at < self.peers.len()
            invariant
                at <= self.peers@.len(),
                self.peers@.len() == self@.len(),
                summaries@.len() == at,
                forall|i: int| 0 <= i < at ==> summarizes(#[trigger] summaries@[i], self@[i]),
            decreases self.peers@.len() - at,
        {
            let record = &self.peers[at];
            assert(self@[at as int] == record@);
            summaries.push(
                TrustedPeerSummary {
                    peer_id: device_id_text(record.device_id),
                    display_name: record.display_name.clone(),
                    active: record.is_active(),
                    local_grants: capability_names(record.grants),
                },
            );
            at = at + 1;
        }
        summaries
    }
}

/// No change makes a device stand in the list twice.
pub proof fn law_devices_stay_distinct(
    peers: Seq<PeerRecordModel>,
    at: int,
    part: Capability,
    enabled: bool,
    now: u64,
    endpoint: Seq<char>,
    record: PeerRecordModel,
)
    requires
        devices_distinct(peers),
        0 <= at < peers.len(),
    ensures
        devices_distinct(with_capability(peers, at, part, enabled)),
        devices_distinct(with_revocation(peers, at, now)),
        devices_distinct(with_endpoint(peers, at, endpoint)),
        devices_distinct(with_peer(peers, record)),
{
    lemma_device_place(peers, record.device_id, 0);
    lemma_same_devices(peers, with_capability(peers, at, part, enabled));
    lemma_same_devices(peers, with_revocation(peers, at, now));
    lemma_same_devices(peers, with_endpoint(peers, at, endpoint));
    let place = device_from(peers, record.device_id, 0);
    if place < peers.len() {
        lemma_same_devices(peers, with_peer(peers, record));
    } else {
        let after = peers.push(record);
        assert forall|i: int, j: int| 0 <= i < j < after.len() implies #[trigger] after[i].device_id
            != #[trigger] after[j].device_id by {
            assert(after[i] == peers[i]);
            if j < peers.len() {
                assert(peers[i].device_id != peers[j].device_id);
            }
        }
    }
}

proof fn lemma_same_devices(before: Seq<PeerRecordModel>, after: Seq<PeerRecordModel>)
    requires
        devices_distinct(before),
        before.len() == after.len(),
        forall|i: int|
            0 <= i < before.len() ==> (#[trigger] after[i]).device_id == before[i].device_id,
    ensures
        devices_distinct(after),
{
    assert forall|i: int, j: int| 0 <= i < j < after.len() implies #[trigger] after[i].device_id
        != #[trigger] after[j].device_id by {
        assert(before[i].device_id != before[j].device_id);
    }
}

/// A revoked peer is not meant by its identifier any more: nothing but a new
/// pairing changes it again.
pub proof fn law_revoked_peers_are_not_found(
    peers: Seq<PeerRecordModel>,
    peer_id: Seq<char>,
    now: u64,
)
    requires
        devices_distinct(peers),
        place_from(peers, peer_id, 0) < peers.len(),
    ensures
        ({
            let after = with_revocation(peers, place_from(peers, peer_id, 0), now);
            place_from(after, peer_id, 0) >= after.len()
        }),
{
    lemma_place(peers, peer_id, 0);
    let at = place_from(peers, peer_id, 0);
    let after = with_revocation(peers, at, now);
    lemma_place(after, peer_id, 0);
    let again = place_from(after, peer_id, 0);
    if again < after.len() {
        assert(after[again].revoked_at_unix_ms is None);
        assert(again != at);
        assert(after[again] == peers[again]);
        crate::identifiers::law_device_text_is_injective(
            peers[again].device_id,
            peers[at].device_id,
        );
        if again < at {
            assert(peers[again].device_id != peers[at].device_id);
        } else {
            assert(peers[at].device_id != peers[again].device_id);
        }
    }
}

/// Switching a capability touches one peer, and only what it grants: every other
/// peer stays as it was, and so does whatever else is known of this one.
pub proof fn law_capability_changes_are_local(
    peers: Seq<PeerRecordModel>,
    at: int,
    part: Capability,
    enabled: bool,
)
    requires
        0 <= at < peers.len(),
        peers[at].grant_epoch < u64::MAX,
        part.single(),
    ensures
        ({
            let after = with_capability(peers, at, part, enabled);
            &&& after.len() == peers.len()
            &&& forall|i: int| 0 <= i < peers.len() && i != at ==> #[trigger] after[i] == peers[i]
            &&& after[at].grants.holds(part) == enabled
            &&& after[at].grant_epoch == peers[at].grant_epoch + 1
            &&& after[at] == (PeerRecordModel {
                grants: after[at].grants,
                grant_epoch: after[at].grant_epoch,
                ..peers[at]
            })
        }),
{
}

/// The names of capabilities stand in one order, each once: input, reading and
/// writing the clipboard, files.
pub proof fn law_names_stand_in_order(grants: Capability, i: int, j: int)
    requires
        0 <= i < j < names_of(grants).len(),
    ensures
        names_of(grants)[i] != names_of(grants)[j],
        names_of(grants)[j] is Input ==> false,
        names_of(grants)[j] is ClipboardRead ==> names_of(grants)[i] is Input,
        names_of(grants)[i] is Files ==> false,
        names_of(grants)[i] is ClipboardWrite ==> names_of(grants)[j] is Files,
{
}

/// What the user calls a capability, what is trusted and what is granted are the
/// same one.
pub proof fn law_capabilities_keep_their_meaning(name: CapabilityName)
    ensures
        ({
            let granted = protocol_capability(trusted_capability(name));
            &&& granted.remote_input <==> name is Input
            &&& granted.clipboard_read <==> name is ClipboardRead
            &&& granted.clipboard_write <==> name is ClipboardWrite
            &&& granted.file_transfer <==> name is Files
        }),
        trusted_capability(name) is RemoteInput <==> name is Input,
        trusted_capability(name) is ClipboardRead <==> name is ClipboardRead,
        trusted_capability(name) is ClipboardWrite <==> name is ClipboardWrite,
        trusted_capability(name) is FileTransfer <==> name is Files,
{
}

proof fn lemma_place_is_first(peers: Seq<PeerRecordModel>, peer_id: Seq<char>, from: int)
    requires
        0 <= from <= peers.len(),
    ensures
        forall|i: int|
            from <= i < place_from(peers, peer_id, from) ==> !meant(#[trigger] peers[i], peer_id),
    decreases peers.len() - from,
{
    if from < peers.len() && !meant(peers[from], peer_id) {
        lemma_place_is_first(peers, peer_id, from + 1);
    }
}

/// An identifier means the first peer that bears it and is still trusted; where
/// there is none, it means nobody.
pub proof fn law_identifiers_mean_trusted_peers(
    peers: Seq<PeerRecordModel>,
    peer_id: Seq<char>,
    i: int,
)
    requires
        0 <= i < peers.len(),
    ensures
        ({
            let at = place_from(peers, peer_id, 0);
            &&& 0 <= at <= peers.len()
            &&& at < peers.len() ==> device_text(peers[at].device_id) == peer_id
                && peers[at].revoked_at_unix_ms is None
            &&& device_text(peers[i].device_id) == peer_id && peers[i].revoked_at_unix_ms is None
                ==> at <= i
        }),
{
    lemma_place(peers, peer_id, 0);
    lemma_place_is_first(peers, peer_id, 0);
}

/// Switching a capability sets it as asked, and no other one.
pub proof fn law_switched_capabilities_stand(
    peers: Seq<PeerRecordModel>,
    at: int,
    part: Capability,
    enabled: bool,
)
    requires
        0 <= at < peers.len(),
        peers[at].grant_epoch < u64::MAX,
    ensures
        ({
            let before = peers[at];
            let after = with_capability(peers, at, part, enabled)[at];
            &&& after.grant_epoch == before.grant_epoch + 1
            &&& after.grants.remote_input == if part.remote_input {
                enabled
            } else {
                before.grants.remote_input
            }
            &&& after.grants.clipboard_read == if part.clipboard_read {
                enabled
            } else {
                before.grants.clipboard_read
            }
            &&& after.grants.clipboard_write == if part.clipboard_write {
                enabled
            } else {
                before.grants.clipboard_write
            }
            &&& after.grants.file_transfer == if part.file_transfer {
                enabled
            } else {
                before.grants.file_transfer
            }
        }),
{
}

/// A revocation is dated now, but not before the trust that it ends; it and a new
/// endpoint touch one peer, and nothing else of it.
pub proof fn law_revocations_and_endpoints_are_local(
    peers: Seq<PeerRecordModel>,
    at: int,
    now: u64,
    endpoint: Seq<char>,
    i: int,
)
    requires
        0 <= at < peers.len(),
        0 <= i < peers.len(),
    ensures
        ({
            let revoked = with_revocation(peers, at, now);
            let met = with_endpoint(peers, at, endpoint);
            &&& revoked.len() == peers.len() && met.len() == peers.len()
            &&& i != at ==> revoked[i] == peers[i] && met[i] == peers[i]
            &&& revoked[at].revoked_at_unix_ms matches Some(when) && when >= now && when
                >= peers[at].established_at_unix_ms && (when == now || when
                == peers[at].established_at_unix_ms)
            &&& revoked[at] == (PeerRecordModel {
                revoked_at_unix_ms: revoked[at].revoked_at_unix_ms,
                ..peers[at]
            })
            &&& met[at].last_endpoint == Some(endpoint)
            &&& met[at] == (PeerRecordModel { last_endpoint: Some(endpoint), ..peers[at] })
        }),
{
}

/// A peer that was paired stands where its device stood, or last where it was not
/// known; the others stay where they are.
pub proof fn law_paired_peers_replace_themselves(
    peers: Seq<PeerRecordModel>,
    record: PeerRecordModel,
    place: int,
)
    requires
        devices_distinct(peers),
    ensures
        (forall|i: int|
            0 <= i < peers.len() ==> (#[trigger] peers[i]).device_id != record.device_id)
            ==> with_peer(peers, record) == peers.push(record),
        0 <= place < peers.len() && peers[place].device_id == record.device_id ==> with_peer(
            peers,
            record,
        ) == peers.update(place, record),
{
    lemma_device_place(peers, record.device_id, 0);
    let at = device_from(peers, record.device_id, 0);
    if 0 <= place < peers.len() && peers[place].device_id == record.device_id {
        assert(at <= place);
        if at < place {
            assert(peers[at].device_id != peers[place].device_id);
        }
    }
}

/// The user is told of each peer its identifier, its name, whether it is still
/// trusted, and what it may do here.
pub proof fn law_summaries_tell_of_the_peer(summary: TrustedPeerSummary, record: PeerRecordModel)
    ensures
        summarizes(summary, record) <==> {
            &&& summary.peer_id@ == device_text(record.device_id)
            &&& summary.display_name@ == record.display_name
            &&& summary.active <==> record.revoked_at_unix_ms is None
            &&& summary.local_grants@ == names_of(record.grants)
        },
{
}

/// Switching a capability is a change only where it was otherwise, and takes
/// the next epoch; without a next epoch it is refused.
pub proof fn law_switches_take_the_next_epoch(
    book: PeerBook,
    peer_id: &str,
    capability: TrustedCapability,
    enabled: bool,
    change: Result<Option<GrantChange>, AgentError>,
)
    requires
        call_ensures(PeerBook::set_capability, (&book, peer_id, capability, enabled), change),
    ensures
        ({
            let at = place_from(book@, peer_id@, 0);
            let part = protocol_capability(capability);
            &&& change matches Ok(Some(made)) ==> {
                &&& at < book@.len()
                &&& made.grants == book@[at].grants.with(part, enabled)
                &&& made.epoch == book@[at].grant_epoch + 1
                &&& made.peer_device == book@[at].device_id
                &&& book@[at].grants.holds(part) != enabled
            }
            &&& change matches Ok(None) ==> at < book@.len() && book@[at].grants.holds(part)
                == enabled
            &&& at >= book@.len() ==> change == Err::<Option<GrantChange>, AgentError>(
                AgentError::PeerNotFound,
            )
            &&& at < book@.len() && book@[at].grants.holds(part) != enabled
                && book@[at].grant_epoch == u64::MAX ==> change == Err::<
                Option<GrantChange>,
                AgentError,
            >(AgentError::GrantEpochExhausted)
        }),
{
}

/// Only a trusted peer is found, revoked or given an endpoint; one that is not
/// is told as not found.
pub proof fn law_only_trusted_peers_are_changed(
    book: PeerBook,
    peer_id: &str,
    now: u64,
    endpoint: String,
    found: Result<PeerRecord, AgentError>,
    revoked: Result<(Vec<PeerRecord>, DeviceId), AgentError>,
    moved: Result<Vec<PeerRecord>, AgentError>,
)
    requires
        call_ensures(PeerBook::active_peer, (&book, peer_id), found),
        call_ensures(PeerBook::revoke, (&book, peer_id, now), revoked),
        call_ensures(PeerBook::update_peer_endpoint, (&book, peer_id, endpoint), moved),
    ensures
        found is Ok <==> place_from(book@, peer_id@, 0) < book@.len(),
        revoked is Ok <==> found is Ok,
        moved is Ok <==> found is Ok,
        found matches Ok(record) ==> record@ == book@[place_from(book@, peer_id@, 0)],
        revoked matches Ok((_, device)) ==> device == book@[place_from(
            book@,
            peer_id@,
            0,
        )].device_id,
        found matches Err(error) ==> error == AgentError::PeerNotFound,
        revoked matches Err(error) ==> error == AgentError::PeerNotFound,
        moved matches Err(error) ==> error == AgentError::PeerNotFound,
{
}

} // verus!
