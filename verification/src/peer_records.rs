//! What is kept of every peer that was ever trusted, and its stored form.

use vstd::prelude::*;
use vstd::string::*;
use crate::grants::Capability;
use crate::identifiers::DeviceId;
use crate::storage::{
    display_name_form,
    server_name_form,
    validate_display_name,
    validate_server_name,
    StorageError,
    MAX_STORAGE_FILE_BYTES,
};
use crate::storage_codec::{
    array_of,
    bounded_of,
    decode_array,
    decode_bounded,
    encode_bytes,
    law_stored_bytes_are_read_back,
    stored_as,
};

verus! {

pub const LEGACY_TRUST_FORMAT_VERSION: u16 = 1;

pub const TRUST_FORMAT_VERSION: u16 = 2;

pub const PUBLIC_KEY_BYTES: usize = 32;

pub const MAX_CERTIFICATE_BYTES: usize = 65536;

/// The name of a peer that was stored before names were.
pub open spec fn migrated_display_name() -> Seq<char> {
    "Previously trusted device"@
}

/// A peer that was trusted once, with what it may do and where it was met.
///
/// The identity of the device belongs to its public key.
pub struct PeerRecord {
    pub device_id: DeviceId,
    pub public_key: Vec<u8>,
    pub certificate_der: Vec<u8>,
    pub grants: Capability,
    pub grant_epoch: u64,
    pub display_name: String,
    pub established_at_unix_ms: u64,
    pub revoked_at_unix_ms: Option<u64>,
    pub server_name: String,
    pub last_endpoint: Option<String>,
}

pub struct PeerRecordModel {
    pub device_id: DeviceId,
    pub public_key: Seq<u8>,
    pub certificate_der: Seq<u8>,
    pub grants: Capability,
    pub grant_epoch: u64,
    pub display_name: Seq<char>,
    pub established_at_unix_ms: u64,
    pub revoked_at_unix_ms: Option<u64>,
    pub server_name: Seq<char>,
    pub last_endpoint: Option<Seq<char>>,
}

/// The stored form of a peer.
pub struct PeerDisk {
    pub public_key: String,
    pub certificate_der: String,
    pub grants: u8,
    pub grant_epoch: Option<u64>,
    pub display_name: Option<String>,
    pub established_at_unix_ms: u64,
    pub revoked_at_unix_ms: Option<u64>,
    pub server_name: String,
    pub last_endpoint: Option<String>,
}

pub struct PeerDiskModel {
    pub public_key: Seq<char>,
    pub certificate_der: Seq<char>,
    pub grants: u8,
    pub grant_epoch: Option<u64>,
    pub display_name: Option<Seq<char>>,
    pub established_at_unix_ms: u64,
    pub revoked_at_unix_ms: Option<u64>,
    pub server_name: Seq<char>,
    pub last_endpoint: Option<Seq<char>>,
}

/// What is found out about a stored peer elsewhere: whether its certificate is
/// one, which capabilities the stored bits stand for, the canonical text of the
/// endpoint, and the identity that belongs to the public key.
pub struct PeerChecks {
    pub certificate_valid: bool,
    pub grants: Option<Capability>,
    pub endpoint: Option<String>,
    pub device_id: DeviceId,
}

pub struct PeerChecksModel {
    pub certificate_valid: bool,
    pub grants: Option<Capability>,
    pub endpoint: Option<Seq<char>>,
    pub device_id: DeviceId,
}

pub open spec fn optional_text(text: Option<String>) -> Option<Seq<char>> {
    match text {
        Some(text) => Some(text@),
        None => None,
    }
}

impl View for PeerRecord {
    type V = PeerRecordModel;

    open spec fn view(&self) -> PeerRecordModel {
        PeerRecordModel {
            device_id: self.device_id,
            public_key: self.public_key@,
            certificate_der: self.certificate_der@,
            grants: self.grants,
            grant_epoch: self.grant_epoch,
            display_name: self.display_name@,
            established_at_unix_ms: self.established_at_unix_ms,
            revoked_at_unix_ms: self.revoked_at_unix_ms,
            server_name: self.server_name@,
            last_endpoint: optional_text(self.last_endpoint),
        }
    }
}

impl View for PeerDisk {
    type V = PeerDiskModel;

    open spec fn view(&self) -> PeerDiskModel {
        PeerDiskModel {
            public_key: self.public_key@,
            certificate_der: self.certificate_der@,
            grants: self.grants,
            grant_epoch: self.grant_epoch,
            display_name: optional_text(self.display_name),
            established_at_unix_ms: self.established_at_unix_ms,
            revoked_at_unix_ms: self.revoked_at_unix_ms,
            server_name: self.server_name@,
            last_endpoint: optional_text(self.last_endpoint),
        }
    }
}

impl View for PeerChecks {
    type V = PeerChecksModel;

    open spec fn view(&self) -> PeerChecksModel {
        PeerChecksModel {
            certificate_valid: self.certificate_valid,
            grants: self.grants,
            endpoint: optional_text(self.endpoint),
            device_id: self.device_id,
        }
    }
}

/// A revocation does not come before the trust that it ends.
pub open spec fn times_in_order(established: u64, revoked: Option<u64>) -> bool {
    match revoked {
        Some(at) => established <= at,
        None => true,
    }
}

/// What every record that was read from storage satisfies.
pub open spec fn record_form(record: PeerRecordModel) -> bool {
    &&& record.public_key.len() == PUBLIC_KEY_BYTES
    &&& 1 <= record.certificate_der.len() <= MAX_CERTIFICATE_BYTES
    &&& record.grant_epoch != 0
    &&& display_name_form(record.display_name)
    &&& server_name_form(record.server_name)
    &&& times_in_order(record.established_at_unix_ms, record.revoked_at_unix_ms)
}

/// The grant epoch and the name of a stored peer. Before names and epochs were
/// stored, neither may be there; since then both must be.
pub open spec fn epoch_and_name(disk: PeerDiskModel, format_version: u16) -> Option<
    (u64, Seq<char>),
> {
    if format_version == LEGACY_TRUST_FORMAT_VERSION {
        if disk.grant_epoch is None && disk.display_name is None {
            Some((1u64, migrated_display_name()))
        } else {
            None
        }
    } else if format_version == TRUST_FORMAT_VERSION {
        match (disk.grant_epoch, disk.display_name) {
            (Some(epoch), Some(name)) => Some((epoch, name)),
            _ => None,
        }
    } else {
        None
    }
}

/// The endpoint of a stored peer: none, or one that could be read.
pub open spec fn endpoint_of(disk: PeerDiskModel, checks: PeerChecksModel) -> Option<
    Option<Seq<char>>,
> {
    if disk.last_endpoint is None {
        Some(None)
    } else {
        match checks.endpoint {
            Some(endpoint) => Some(Some(endpoint)),
            None => None,
        }
    }
}

/// The peer that a stored form stands for, if it is valid.
pub open spec fn record_of(
    disk: PeerDiskModel,
    format_version: u16,
    checks: PeerChecksModel,
) -> Option<PeerRecordModel> {
    match (
        array_of(disk.public_key, PUBLIC_KEY_BYTES as nat),
        bounded_of(disk.certificate_der, MAX_CERTIFICATE_BYTES as nat),
        checks.grants,
        epoch_and_name(disk, format_version),
        endpoint_of(disk, checks),
    ) {
        (
            Some(public_key),
            Some(certificate_der),
            Some(grants),
            Some((grant_epoch, display_name)),
            Some(last_endpoint),
        ) => {
            let record = PeerRecordModel {
                device_id: checks.device_id,
                public_key,
                certificate_der,
                grants,
                grant_epoch,
                display_name,
                established_at_unix_ms: disk.established_at_unix_ms,
                revoked_at_unix_ms: disk.revoked_at_unix_ms,
                server_name: disk.server_name,
                last_endpoint,
            };
            if checks.certificate_valid && record_form(record) {
                Some(record)
            } else {
                None
            }
        },
        _ => None,
    }
}

/// What is found out about the stored form of `record` when nothing was
/// changed.
pub open spec fn checks_agree(checks: PeerChecksModel, record: PeerRecordModel) -> bool {
    &&& checks.certificate_valid
    &&& checks.grants == Some(record.grants)
    &&& checks.device_id == record.device_id
    &&& record.last_endpoint is Some ==> checks.endpoint == record.last_endpoint
}

/// `disk` is the stored form of `record`, whose capabilities are `grant_bits`.
pub open spec fn stored_form(disk: PeerDiskModel, record: PeerRecordModel, grant_bits: u8) -> bool {
    &&& stored_as(record.public_key, disk.public_key)
    &&& stored_as(record.certificate_der, disk.certificate_der)
    &&& disk.grants == grant_bits
    &&& disk.grant_epoch == Some(record.grant_epoch)
    &&& disk.display_name == Some(record.display_name)
    &&& disk.established_at_unix_ms == record.established_at_unix_ms
    &&& disk.revoked_at_unix_ms == record.revoked_at_unix_ms
    &&& disk.server_name == record.server_name
    &&& disk.last_endpoint == record.last_endpoint
}

/// A valid record that is stored is read back as it was.
pub proof fn law_stored_records_are_read_back(
    disk: PeerDiskModel,
    record: PeerRecordModel,
    grant_bits: u8,
    checks: PeerChecksModel,
)
    requires
        record_form(record),
        stored_form(disk, record, grant_bits),
        checks_agree(checks, record),
    ensures
        record_of(disk, TRUST_FORMAT_VERSION, checks) == Some(record),
{
    law_stored_bytes_are_read_back(
        record.public_key,
        disk.public_key,
        PUBLIC_KEY_BYTES as nat,
    );
    law_stored_bytes_are_read_back(
        record.certificate_der,
        disk.certificate_der,
        MAX_CERTIFICATE_BYTES as nat,
    );
}

/// Every record that was read is valid, and so can be stored and read again.
pub proof fn law_read_records_are_valid(
    disk: PeerDiskModel,
    format_version: u16,
    checks: PeerChecksModel,
)
    ensures
        record_of(disk, format_version, checks) matches Some(record) ==> record_form(record),
{
}

/// A peer of the earlier format keeps its keys, its capabilities and its times.
/// It starts at the first epoch, under one fixed name.
pub proof fn law_legacy_records_keep_their_grants(disk: PeerDiskModel, checks: PeerChecksModel)
    ensures
        record_of(disk, LEGACY_TRUST_FORMAT_VERSION, checks) matches Some(record) ==> {
            &&& checks.grants == Some(record.grants)
            &&& record.grant_epoch == 1
            &&& record.display_name == migrated_display_name()
            &&& array_of(disk.public_key, PUBLIC_KEY_BYTES as nat) == Some(record.public_key)
            &&& record.established_at_unix_ms == disk.established_at_unix_ms
            &&& record.revoked_at_unix_ms == disk.revoked_at_unix_ms
            &&& record.server_name == disk.server_name
        },
{
}

/// The name that is given to peers of the earlier format is one that may be
/// stored.
proof fn lemma_migrated_name_is_valid()
    ensures
        display_name_form(migrated_display_name()),
{
    reveal_strlit("Previously trusted device");
    let name = migrated_display_name();
    assert(name.len() == 25);
    assert forall|i: int| 0 <= i < name.len() implies 0x20 <= #[trigger] name[i] as u32
        && (name[i] as u32) < 0x7f by {}
    assert(vstd::utf8::is_ascii_chars(name));
    vstd::utf8::is_ascii_chars_encode_utf8(name);
    assert(name[0] == 'P');
    assert(name[24] == 'e');
}

/// A peer of the earlier format, which knew neither epochs nor names, is read
/// whenever the rest of it is valid: with the keys, the capabilities and the
/// times that were stored, at the first epoch, under one fixed name.
pub proof fn law_legacy_records_are_read(disk: PeerDiskModel, checks: PeerChecksModel)
    requires
        disk.grant_epoch is None,
        disk.display_name is None,
        array_of(disk.public_key, PUBLIC_KEY_BYTES as nat) is Some,
        bounded_of(disk.certificate_der, MAX_CERTIFICATE_BYTES as nat) is Some,
        server_name_form(disk.server_name),
        times_in_order(disk.established_at_unix_ms, disk.revoked_at_unix_ms),
        checks.certificate_valid,
        checks.grants is Some,
        endpoint_of(disk, checks) is Some,
    ensures
        record_of(disk, LEGACY_TRUST_FORMAT_VERSION, checks) == Some(
            PeerRecordModel {
                device_id: checks.device_id,
                public_key: array_of(disk.public_key, PUBLIC_KEY_BYTES as nat)->Some_0,
                certificate_der: bounded_of(
                    disk.certificate_der,
                    MAX_CERTIFICATE_BYTES as nat,
                )->Some_0,
                grants: checks.grants->Some_0,
                grant_epoch: 1,
                display_name: migrated_display_name(),
                established_at_unix_ms: disk.established_at_unix_ms,
                revoked_at_unix_ms: disk.revoked_at_unix_ms,
                server_name: disk.server_name,
                last_endpoint: endpoint_of(disk, checks)->Some_0,
            },
        ),
{
    lemma_migrated_name_is_valid();
}

impl PeerRecord {
    /// The peer is still trusted.
    pub fn is_active(&self) -> (active: bool)
        ensures
            active == (self@.revoked_at_unix_ms is None),
    {
        self.revoked_at_unix_ms.is_none()
    }

    /// A record with the same content.
    pub fn copied(&self) -> (record: PeerRecord)
        ensures
            record@ == self@,
    {
        PeerRecord {
            device_id: self.device_id,
            public_key: copied_bytes(&self.public_key),
            certificate_der: copied_bytes(&self.certificate_der),
            grants: self.grants,
            grant_epoch: self.grant_epoch,
            display_name: self.display_name.clone(),
            established_at_unix_ms: self.established_at_unix_ms,
            revoked_at_unix_ms: self.revoked_at_unix_ms,
            server_name: self.server_name.clone(),
            last_endpoint: copied_text(&self.last_endpoint),
        }
    }
}

pub(crate) fn copied_text(text: &Option<String>) -> (copy: Option<String>)
    ensures
        optional_text(copy) == optional_text(*text),
{
    match text {
        Some(text) => Some(text.clone()),
        None => None,
    }
}

pub(crate) fn copied_bytes(bytes: &Vec<u8>) -> (copy: Vec<u8>)
    ensures
        copy@ == bytes@,
{
    let mut copy: Vec<u8> = Vec::new();
    let mut at: usize = 0;
    while at < bytes.len()
        invariant
            at <= bytes@.len(),
            copy@ == bytes@.take(at as int),
        decreases bytes@.len() - at,
    {
        copy.push(bytes[at]);
        assert(bytes@.take(at + 1) =~= bytes@.take(at as int).push(bytes@[at as int]));
        at = at + 1;
    }
    assert(bytes@.take(bytes@.len() as int) =~= bytes@);
    copy
}

impl PeerDisk {
    /// The stored form of a peer, whose capabilities are `grant_bits`.
    pub fn from_record(record: &PeerRecord, grant_bits: u8) -> (disk: PeerDisk)
        requires
            record@.public_key.len() <= MAX_STORAGE_FILE_BYTES,
            record@.certificate_der.len() <= MAX_STORAGE_FILE_BYTES,
        ensures
            stored_form(disk@, record@, grant_bits),
    {
        PeerDisk {
            public_key: encode_bytes(&record.public_key),
            certificate_der: encode_bytes(&record.certificate_der),
            grants: grant_bits,
            grant_epoch: Some(record.grant_epoch),
            display_name: Some(record.display_name.clone()),
            established_at_unix_ms: record.established_at_unix_ms,
            revoked_at_unix_ms: record.revoked_at_unix_ms,
            server_name: record.server_name.clone(),
            last_endpoint: copied_text(&record.last_endpoint),
        }
    }

    /// The certificate of a stored peer, for whoever checks it.
    pub fn certificate(&self) -> (certificate_der: Result<Vec<u8>, StorageError>)
        ensures
            crate::storage_codec::read_as(
                certificate_der,
                bounded_of(self@.certificate_der, MAX_CERTIFICATE_BYTES as nat),
            ),
    {
        decode_bounded(self.certificate_der.as_str(), MAX_CERTIFICATE_BYTES)
    }

    /// The public key of a stored peer, for whoever derives its identity.
    pub fn key(&self) -> (public_key: Result<Vec<u8>, StorageError>)
        ensures
            crate::storage_codec::read_as(
                public_key,
                array_of(self@.public_key, PUBLIC_KEY_BYTES as nat),
            ),
    {
        decode_array(self.public_key.as_str(), PUBLIC_KEY_BYTES)
    }

    /// The peer that the stored form stands for.
    pub fn into_record(self, format_version: u16, checks: PeerChecks) -> (read: Result<
        PeerRecord,
        StorageError,
    >)
        ensures
            match read {
                Ok(record) => record_of(self@, format_version, checks@) == Some(record@),
                Err(error) => {
                    &&& error == StorageError::InvalidData
                    &&& record_of(self@, format_version, checks@) is None
                },
            },
    {
        let public_key = match self.key() {
            Ok(public_key) => public_key,
            Err(_) => return Err(StorageError::InvalidData),
        };
        let certificate_der = match self.certificate() {
            Ok(certificate_der) => certificate_der,
            Err(_) => return Err(StorageError::InvalidData),
        };
        if !checks.certificate_valid {
            return Err(StorageError::InvalidData);
        }
        let grants = match checks.grants {
            Some(grants) => grants,
            None => return Err(StorageError::InvalidData),
        };
        let (grant_epoch, display_name): (u64, String) = if format_version
            == LEGACY_TRUST_FORMAT_VERSION {
            if self.grant_epoch.is_some() || self.display_name.is_some() {
                return Err(StorageError::InvalidData);
            }
            (1, "Previously trusted device".to_owned())
        } else if format_version == TRUST_FORMAT_VERSION {
            match (self.grant_epoch, self.display_name) {
                (Some(epoch), Some(name)) => (epoch, name),
                _ => return Err(StorageError::InvalidData),
            }
        } else {
            return Err(StorageError::InvalidData);
        };
        if grant_epoch == 0 {
            return Err(StorageError::InvalidData);
        }
        if validate_display_name(display_name.as_str()).is_err() || validate_server_name(
            self.server_name.as_str(),
        ).is_err() {
            return Err(StorageError::InvalidData);
        }
        if let Some(revoked) = self.revoked_at_unix_ms {
            if revoked < self.established_at_unix_ms {
                return Err(StorageError::InvalidData);
            }
        }
        let last_endpoint = if self.last_endpoint.is_none() {
            None
        } else {
            match checks.endpoint {
                Some(endpoint) => Some(endpoint),
                None => return Err(StorageError::InvalidData),
            }
        };
        Ok(
            PeerRecord {
                device_id: checks.device_id,
                public_key,
                certificate_der,
                grants,
                grant_epoch,
                display_name,
                established_at_unix_ms: self.established_at_unix_ms,
                revoked_at_unix_ms: self.revoked_at_unix_ms,
                server_name: self.server_name,
                last_endpoint,
            },
        )
    }
}

/// A revocation is in order where there is none, or where it comes no earlier than
/// the trust.
pub proof fn law_revocations_follow_trust(established: u64, revoked: Option<u64>)
    ensures
        revoked is None ==> times_in_order(established, revoked),
        revoked matches Some(at) ==> (times_in_order(established, revoked) <==> established <= at),
{
}

/// What a stored peer has to be: a key of thirty-two bytes, a certificate of at
/// most sixty-four kibibytes, an epoch, names, and times in order.
pub proof fn law_records_have_their_form(record: PeerRecordModel)
    ensures
        record_form(record) <==> {
            &&& record.public_key.len() == 32
            &&& 1 <= record.certificate_der.len() <= 65536
            &&& record.grant_epoch > 0
            &&& display_name_form(record.display_name)
            &&& server_name_form(record.server_name)
            &&& record.revoked_at_unix_ms is None || record.revoked_at_unix_ms->Some_0
                >= record.established_at_unix_ms
        },
{
}

/// The first format knows neither epoch nor name, and has to hold none; the second
/// has to hold both. There is no other format.
pub proof fn law_formats_know_epoch_and_name(disk: PeerDiskModel, format_version: u16)
    ensures
        format_version == 1 ==> (epoch_and_name(disk, format_version) is Some <==> disk.grant_epoch
            is None && disk.display_name is None),
        format_version == 1 ==> (epoch_and_name(disk, format_version) matches Some((epoch, name))
            ==> epoch == 1 && name == "Previously trusted device"@),
        format_version == 2 ==> (epoch_and_name(disk, format_version) is Some <==> disk.grant_epoch
            is Some && disk.display_name is Some),
        format_version == 2 ==> (epoch_and_name(disk, format_version) matches Some((epoch, name))
            ==> disk.grant_epoch == Some(epoch) && disk.display_name == Some(name)),
        format_version != 1 && format_version != 2 ==> epoch_and_name(disk, format_version) is None,
{
}

/// A peer without an endpoint is read without one; an endpoint is read as its
/// canonical text, and where it has none the peer is not read.
pub proof fn law_endpoints_are_read_in_canonical_form(disk: PeerDiskModel, checks: PeerChecksModel)
    ensures
        disk.last_endpoint is None ==> endpoint_of(disk, checks) == Some(None::<Seq<char>>),
        disk.last_endpoint is Some ==> (endpoint_of(disk, checks) is Some <==> checks.endpoint
            is Some),
        disk.last_endpoint is Some ==> (endpoint_of(disk, checks) matches Some(endpoint) ==> endpoint
            == checks.endpoint),
{
}

/// A stored peer is read exactly if each part of it can be, its certificate is one,
/// and what comes of it has the form of a record; then it says what was stored.
pub proof fn law_records_say_what_was_stored(
    disk: PeerDiskModel,
    format_version: u16,
    checks: PeerChecksModel,
)
    ensures
        record_of(disk, format_version, checks) matches Some(record) ==> {
            &&& checks.certificate_valid
            &&& record.device_id == checks.device_id
            &&& array_of(disk.public_key, 32) == Some(record.public_key)
            &&& bounded_of(disk.certificate_der, 65536) == Some(record.certificate_der)
            &&& checks.grants == Some(record.grants)
            &&& epoch_and_name(disk, format_version) == Some(
                (record.grant_epoch, record.display_name),
            )
            &&& record.established_at_unix_ms == disk.established_at_unix_ms
            &&& record.revoked_at_unix_ms == disk.revoked_at_unix_ms
            &&& record.server_name == disk.server_name
            &&& endpoint_of(disk, checks) == Some(record.last_endpoint)
            &&& record_form(record)
        },
        record_of(disk, format_version, checks) is None ==> {
            ||| !checks.certificate_valid
            ||| array_of(disk.public_key, 32) is None
            ||| bounded_of(disk.certificate_der, 65536) is None
            ||| checks.grants is None
            ||| endpoint_of(disk, checks) is None
            ||| !server_name_form(disk.server_name)
            ||| !times_in_order(disk.established_at_unix_ms, disk.revoked_at_unix_ms)
            ||| !(epoch_and_name(disk, format_version) matches Some((epoch, name)) && epoch != 0
                && display_name_form(name))
        },
{
    if let Some(key) = array_of(disk.public_key, 32) {
        assert(key.len() == 32);
    }
    if let Some(certificate) = bounded_of(disk.certificate_der, 65536) {
        assert(1 <= certificate.len() <= 65536);
    }
}

} // verus!
