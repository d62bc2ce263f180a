//! The list of trusted peers, as it is stored.

use vstd::prelude::*;
use crate::grants::Capability;
use crate::identifiers::DeviceId;
use crate::peer_records::{
    checks_agree,
    law_read_records_are_valid,
    law_stored_records_are_read_back,
    record_form,
    record_of,
    stored_form,
    PeerChecks,
    PeerChecksModel,
    PeerDisk,
    PeerDiskModel,
    PeerRecord,
    PeerRecordModel,
    LEGACY_TRUST_FORMAT_VERSION,
    MAX_CERTIFICATE_BYTES,
    PUBLIC_KEY_BYTES,
    TRUST_FORMAT_VERSION,
};
use crate::storage::{StorageError, MAX_STORAGE_FILE_BYTES};
use crate::storage_codec::{array_of, bounded_of, law_stored_bytes_are_read_back};

verus! {

/// The stored form of the list.
pub struct TrustDisk {
    pub format_version: u16,
    pub peers: Vec<PeerDisk>,
}

/// The stored content of a list, peer by peer.
pub open spec fn disk_models(peers: Seq<PeerDisk>) -> Seq<PeerDiskModel> {
    Seq::new(peers.len(), |i: int| peers[i]@)
}

pub open spec fn record_models(records: Seq<PeerRecord>) -> Seq<PeerRecordModel> {
    Seq::new(records.len(), |i: int| records[i]@)
}

pub open spec fn checks_models(checks: Seq<PeerChecks>) -> Seq<PeerChecksModel> {
    Seq::new(checks.len(), |i: int| checks[i]@)
}

/// No device stands in the list twice.
pub open spec fn devices_distinct(records: Seq<PeerRecordModel>) -> bool {
    forall|i: int, j: int|
        0 <= i < j < records.len() ==> #[trigger] records[i].device_id
            != #[trigger] records[j].device_id
}

/// `records` are the peers that a stored list stands for.
pub open spec fn list_read(
    format_version: u16,
    peers: Seq<PeerDiskModel>,
    checks: Seq<PeerChecksModel>,
    max_peers: nat,
    records: Seq<PeerRecordModel>,
) -> bool {
    &&& format_version == LEGACY_TRUST_FORMAT_VERSION || format_version == TRUST_FORMAT_VERSION
    &&& peers.len() <= max_peers
    &&& records.len() == peers.len()
    &&& forall|i: int|
        0 <= i < peers.len() ==> record_of(peers[i], format_version, checks[i]) == Some(
            #[trigger] records[i],
        )
    &&& devices_distinct(records)
}

/// A stored list is not too long, in bytes.
pub fn validate_trust_size(bytes: &[u8]) -> (checked: Result<(), StorageError>)
    ensures
        checked == crate::storage::storage_result(bytes@.len() <= MAX_STORAGE_FILE_BYTES),
{
    if bytes.len() as u64 > MAX_STORAGE_FILE_BYTES {
        Err(StorageError::InvalidData)
    } else {
        Ok(())
    }
}

/// A list can be stored: it is short enough, and no key or certificate alone is
/// longer than the whole file may be.
pub open spec fn list_storable(records: Seq<PeerRecordModel>, max_peers: nat) -> bool {
    &&& records.len() <= max_peers
    &&& forall|i: int|
        0 <= i < records.len() ==> (#[trigger] records[i]).public_key.len()
            <= MAX_STORAGE_FILE_BYTES && records[i].certificate_der.len() <= MAX_STORAGE_FILE_BYTES
}

/// Writes the list. `grant_bits` says, peer by peer, what the capabilities are
/// written as.
pub fn encode_peers(records: &Vec<PeerRecord>, grant_bits: &Vec<u8>, max_peers: usize) -> (written:
    Result<TrustDisk, StorageError>)
    requires
        grant_bits@.len() == records@.len(),
    ensures
        match written {
            Ok(disk) => {
                &&& list_storable(record_models(records@), max_peers as nat)
                &&& disk.format_version == TRUST_FORMAT_VERSION
                &&& disk.peers@.len() == records@.len()
                &&& forall|i: int|
                    0 <= i < records@.len() ==> stored_form(
                        (#[trigger] disk.peers@[i])@,
                        records@[i]@,
                        grant_bits@[i],
                    )
            },
            Err(error) => {
                &&& error == StorageError::InvalidData
                &&& !list_storable(record_models(records@), max_peers as nat)
            },
        },
{
    if records.len() > max_peers {
        return Err(StorageError::InvalidData);
    }
    let mut peers: Vec<PeerDisk> = Vec::new();
    let mut at: usize = 0;
    while at < records.len()
        invariant
            at <= records@.len() <= max_peers,
            peers@.len() == at,
            grant_bits@.len() == records@.len(),
            forall|i: int|
                0 <= i < at ==> (#[trigger] record_models(records@)[i]).public_key.len()
                    <= MAX_STORAGE_FILE_BYTES && record_models(records@)[i].certificate_der.len()
                    <= MAX_STORAGE_FILE_BYTES,
            forall|i: int|
                0 <= i < at ==> stored_form(
                    (#[trigger] peers@[i])@,
                    records@[i]@,
                    grant_bits@[i],
                ),
        decreases records@.len() - at,
    {
        let record = &records[at];
        assert(record_models(records@)[at as int] == record@);
        if record.public_key.len() as u64 > MAX_STORAGE_FILE_BYTES
            || record.certificate_der.len() as u64 > MAX_STORAGE_FILE_BYTES {
            return Err(StorageError::InvalidData);
        }
        let disk = PeerDisk::from_record(record, grant_bits[at]);
        peers.push(disk);
        at = at + 1;
    }
    Ok(TrustDisk { format_version: TRUST_FORMAT_VERSION, peers })
}

/// Whether a device stands in the list already.
fn holds_device(records: &Vec<PeerRecord>, record: &PeerRecord) -> (found: bool)
    ensures
        found == exists|i: int|
            0 <= i < records@.len() && (#[trigger] records@[i])@.device_id == record@.device_id,
{
    let mut at: usize = 0;
    while at < records.len()
        invariant
            at <= records@.len(),
            forall|i: int|
                0 <= i < at ==> (#[trigger] records@[i])@.device_id != record@.device_id,
        decreases records@.len() - at,
    {
        if records[at].device_id == record.device_id {
            assert(records@[at as int]@.device_id == record@.device_id);
            return true;
        }
        at = at + 1;
    }
    false
}

/// Reads a list. `checks` says, peer by peer, what was found out elsewhere.
pub fn decode_peers(disk: TrustDisk, checks: Vec<PeerChecks>, max_peers: usize) -> (read: Result<
    Vec<PeerRecord>,
    StorageError,
>)
    requires
        checks@.len() == disk.peers@.len(),
    ensures
        match read {
            Ok(records) => list_read(
                disk.format_version,
                disk_models(disk.peers@),
                checks_models(checks@),
                max_peers as nat,
                record_models(records@),
            ),
            Err(error) => {
                &&& error == StorageError::InvalidData
                &&& forall|records: Seq<PeerRecordModel>|
                    !#[trigger] list_read(
                        disk.format_version,
                        disk_models(disk.peers@),
                        checks_models(checks@),
                        max_peers as nat,
                        records,
                    )
            },
        },
{
    let ghost stored = disk_models(disk.peers@);
    let ghost found = checks_models(checks@);
    let format_version: u16 = disk.format_version;
    let mut left = disk.peers;
    let mut left_checks = checks;
    if (format_version != LEGACY_TRUST_FORMAT_VERSION && format_version != TRUST_FORMAT_VERSION)
        || left.len() > max_peers {
        return Err(StorageError::InvalidData);
    }
    let mut records: Vec<PeerRecord> = Vec::new();
    assert(disk_models(left@) =~= stored.skip(0));
    assert(checks_models(left_checks@) =~= found.skip(0));
    while left.len() > 0
        invariant
            format_version == LEGACY_TRUST_FORMAT_VERSION || format_version
                == TRUST_FORMAT_VERSION,
            stored.len() <= max_peers,
            found.len() == stored.len(),
            records@.len() + left@.len() == stored.len(),
            left_checks@.len() == left@.len(),
            disk_models(left@) == stored.skip(records@.len() as int),
            checks_models(left_checks@) == found.skip(records@.len() as int),
            forall|i: int|
                0 <= i < records@.len() ==> record_of(stored[i], format_version, found[i]) == Some(
                    (#[trigger] records@[i])@,
                ),
            devices_distinct(record_models(records@)),
            stored == disk_models(disk.peers@),
            found == checks_models(checks@),
            format_version == disk.format_version,
        decreases left@.len(),
    {
        let ghost at = records@.len() as int;
        assert(disk_models(left@)[0] == stored[at]);
        assert(checks_models(left_checks@)[0] == found[at]);
        let ghost before = left@;
        let ghost checks_before = left_checks@;
        let peer = left.remove(0);
        let check = left_checks.remove(0);
        assert(disk_models(left@) =~= stored.skip(at + 1)) by {
            assert forall|i: int| 0 <= i < left@.len() implies disk_models(left@)[i]
                == stored.skip(at + 1)[i] by {
                assert(disk_models(before)[i + 1] == stored.skip(at)[i + 1]);
            }
        }
        assert(checks_models(left_checks@) =~= found.skip(at + 1)) by {
            assert forall|i: int| 0 <= i < left_checks@.len() implies checks_models(left_checks@)[i]
                == found.skip(at + 1)[i] by {
                assert(checks_models(checks_before)[i + 1] == found.skip(at)[i + 1]);
            }
        }
        let record = match peer.into_record(format_version, check) {
            Ok(record) => record,
            Err(_) => {
                assert forall|other: Seq<PeerRecordModel>|
                    !#[trigger] list_read(
                        format_version,
                        stored,
                        found,
                        max_peers as nat,
                        other,
                    ) by {
                    if list_read(format_version, stored, found, max_peers as nat, other) {
                        assert(record_of(stored[at], format_version, found[at]) == Some(other[at]));
                    }
                }
                return Err(StorageError::InvalidData);
            },
        };
        if holds_device(&records, &record) {
            proof {
                let twin = choose|i: int|
                    0 <= i < records@.len() && (#[trigger] records@[i])@.device_id
                        == record@.device_id;
                assert forall|other: Seq<PeerRecordModel>|
                    !#[trigger] list_read(
                        format_version,
                        stored,
                        found,
                        max_peers as nat,
                        other,
                    ) by {
                    if list_read(format_version, stored, found, max_peers as nat, other) {
                        assert(record_of(stored[at], format_version, found[at]) == Some(other[at]));
                        assert(record_of(stored[twin], format_version, found[twin]) == Some(
                            other[twin],
                        ));
                        assert(records@[twin]@ == other[twin]);
                        assert(other[twin].device_id != other[at].device_id);
                    }
                }
            }
            return Err(StorageError::InvalidData);
        }
        let ghost earlier = records@;
        records.push(record);
        proof {
            assert forall|i: int, j: int| 0 <= i < j < records@.len() implies #[trigger] record_models(
                records@,
            )[i].device_id != #[trigger] record_models(records@)[j].device_id by {
                if j < at {
                    assert(record_models(earlier)[i].device_id != record_models(
                        earlier,
                    )[j].device_id);
                } else {
                    assert(earlier[i]@.device_id != record@.device_id);
                }
            }
        }
    }
    proof {
        assert forall|i: int| 0 <= i < stored.len() implies record_of(
            stored[i],
            format_version,
            found[i],
        ) == Some(#[trigger] record_models(records@)[i]) by {
            assert(records@[i]@ == record_models(records@)[i]);
        }
    }
    Ok(records)
}

/// A list of valid, distinct peers that is stored is read back as it was.
pub proof fn law_stored_lists_are_read_back(
    records: Seq<PeerRecordModel>,
    peers: Seq<PeerDiskModel>,
    grant_bits: Seq<u8>,
    checks: Seq<PeerChecksModel>,
    max_peers: nat,
)
    requires
        records.len() == peers.len() <= max_peers,
        devices_distinct(records),
        forall|i: int|
            0 <= i < records.len() ==> {
                &&& record_form(#[trigger] records[i])
                &&& stored_form(peers[i], records[i], grant_bits[i])
                &&& checks_agree(checks[i], records[i])
            },
    ensures
        list_read(TRUST_FORMAT_VERSION, peers, checks, max_peers, records),
{
    assert forall|i: int| 0 <= i < peers.len() implies record_of(
        peers[i],
        TRUST_FORMAT_VERSION,
        checks[i],
    ) == Some(#[trigger] records[i]) by {
        law_stored_records_are_read_back(peers[i], records[i], grant_bits[i], checks[i]);
    }
}

/// A list has one reading at most, and every peer that is read is valid.
pub proof fn law_lists_have_one_reading(
    format_version: u16,
    peers: Seq<PeerDiskModel>,
    checks: Seq<PeerChecksModel>,
    max_peers: nat,
    one: Seq<PeerRecordModel>,
    other: Seq<PeerRecordModel>,
)
    requires
        list_read(format_version, peers, checks, max_peers, one),
        list_read(format_version, peers, checks, max_peers, other),
    ensures
        one == other,
        forall|i: int| 0 <= i < one.len() ==> record_form(#[trigger] one[i]),
{
    assert forall|i: int| 0 <= i < one.len() implies #[trigger] one[i] == other[i] && record_form(
        one[i],
    ) by {
        assert(record_of(peers[i], format_version, checks[i]) == Some(one[i]));
        assert(record_of(peers[i], format_version, checks[i]) == Some(other[i]));
        law_read_records_are_valid(peers[i], format_version, checks[i]);
    }
    assert(one =~= other);
}

/// What is found out elsewhere, as functions of the bytes and texts that it is
/// found out of.
pub struct Findings {
    pub certificate_valid: spec_fn(Seq<u8>) -> bool,
    pub grants: spec_fn(u8) -> Option<Capability>,
    pub grant_bits: spec_fn(Capability) -> u8,
    pub endpoint: spec_fn(Seq<char>) -> Option<Seq<char>>,
    pub device_id: spec_fn(Seq<u8>) -> DeviceId,
}

impl Findings {
    /// `checks` is what is found out about `disk`.
    pub open spec fn tell(self, disk: PeerDiskModel, checks: PeerChecksModel) -> bool {
        &&& bounded_of(disk.certificate_der, MAX_CERTIFICATE_BYTES as nat) matches Some(
            certificate_der,
        ) ==> checks.certificate_valid == (self.certificate_valid)(certificate_der)
        &&& checks.grants == (self.grants)(disk.grants)
        &&& disk.last_endpoint matches Some(endpoint) ==> checks.endpoint == (self.endpoint)(
            endpoint,
        )
        &&& array_of(disk.public_key, PUBLIC_KEY_BYTES as nat) matches Some(public_key)
            ==> checks.device_id == (self.device_id)(public_key)
    }

    /// Capabilities are read back from their bits, and the text of an endpoint
    /// that was read stands for that endpoint.
    pub open spec fn faithful(self) -> bool {
        &&& forall|bits: u8|
            #![trigger (self.grants)(bits)]
            (self.grants)(bits) matches Some(granted) ==> (self.grants)((self.grant_bits)(granted))
                == Some(granted)
        &&& forall|text: Seq<char>|
            #![trigger (self.endpoint)(text)]
            (self.endpoint)(text) matches Some(endpoint) ==> (self.endpoint)(endpoint) == Some(
                endpoint,
            )
    }
}

/// A list that was read, in the earlier format or the present one, is not too
/// long and names no device twice. Once it is written again, it is read as the
/// same peers in the same order.
pub proof fn law_read_lists_survive_rewriting(
    findings: Findings,
    format_version: u16,
    peers: Seq<PeerDiskModel>,
    checks: Seq<PeerChecksModel>,
    max_peers: nat,
    records: Seq<PeerRecordModel>,
    rewritten: Seq<PeerDiskModel>,
    checks_again: Seq<PeerChecksModel>,
)
    requires
        findings.faithful(),
        list_read(format_version, peers, checks, max_peers, records),
        forall|i: int|
            0 <= i < peers.len() ==> findings.tell(#[trigger] peers[i], checks[i]),
        rewritten.len() == records.len(),
        forall|i: int|
            0 <= i < records.len() ==> {
                &&& stored_form(
                    #[trigger] rewritten[i],
                    records[i],
                    (findings.grant_bits)(records[i].grants),
                )
                &&& findings.tell(rewritten[i], checks_again[i])
            },
    ensures
        records.len() <= max_peers,
        devices_distinct(records),
        list_read(TRUST_FORMAT_VERSION, rewritten, checks_again, max_peers, records),
{
    let grant_bits = Seq::new(
        records.len(),
        |i: int| (findings.grant_bits)(records[i].grants),
    );
    assert forall|i: int| 0 <= i < records.len() implies {
        &&& record_form(#[trigger] records[i])
        &&& stored_form(rewritten[i], records[i], grant_bits[i])
        &&& checks_agree(checks_again[i], records[i])
    } by {
        let record = records[i];
        assert(record_of(peers[i], format_version, checks[i]) == Some(record));
        law_read_records_are_valid(peers[i], format_version, checks[i]);
        assert(findings.tell(peers[i], checks[i]));
        assert(findings.tell(rewritten[i], checks_again[i]));
        law_stored_bytes_are_read_back(
            record.public_key,
            rewritten[i].public_key,
            PUBLIC_KEY_BYTES as nat,
        );
        law_stored_bytes_are_read_back(
            record.certificate_der,
            rewritten[i].certificate_der,
            MAX_CERTIFICATE_BYTES as nat,
        );
    }
    law_stored_lists_are_read_back(records, rewritten, grant_bits, checks_again, max_peers);
}

/// A stored list is read as its peers, one for one and in order, where its format
/// is the first or the second, it is not too long, each peer can be read and no
/// device stands in it twice.
pub proof fn law_lists_are_read_peer_by_peer(
    format_version: u16,
    peers: Seq<PeerDiskModel>,
    checks: Seq<PeerChecksModel>,
    max_peers: nat,
    records: Seq<PeerRecordModel>,
)
    ensures
        list_read(format_version, peers, checks, max_peers, records) ==> {
            &&& format_version == 1 || format_version == 2
            &&& peers.len() <= max_peers
            &&& records.len() == peers.len()
            &&& forall|i: int|
                0 <= i < records.len() ==> record_of(peers[i], format_version, checks[i]) == Some(
                    #[trigger] records[i],
                )
            &&& forall|i: int, j: int|
                0 <= i < j < records.len() ==> (#[trigger] records[i]).device_id != (
                #[trigger] records[j]).device_id
        },
        (format_version == 1 || format_version == 2) && peers.len() <= max_peers && records.len()
            == peers.len() && (forall|i: int|
            0 <= i < records.len() ==> record_of(peers[i], format_version, checks[i]) == Some(
                #[trigger] records[i],
            )) && (forall|i: int, j: int|
            0 <= i < j < records.len() ==> (#[trigger] records[i]).device_id != (
            #[trigger] records[j]).device_id) ==> list_read(
            format_version,
            peers,
            checks,
            max_peers,
            records,
        ),
{
}

/// A list can be stored exactly if it is not too long and no part of a peer alone
/// is longer than half a mebibyte.
pub proof fn law_short_lists_can_be_stored(records: Seq<PeerRecordModel>, max_peers: nat)
    ensures
        list_storable(records, max_peers) <==> records.len() <= max_peers && forall|i: int|
            0 <= i < records.len() ==> (#[trigger] records[i]).public_key.len() <= 524288
                && records[i].certificate_der.len() <= 524288,
{
}

} // verus!
