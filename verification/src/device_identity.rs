//! The identity of this device: how it is made, written and read.

use vstd::prelude::*;
use vstd::string::*;
use crate::peer_records::MAX_CERTIFICATE_BYTES;
use crate::random::random_bytes;
use crate::secret::discard;
use crate::storage::{
    server_name_form,
    validate_server_name,
    StorageError,
    MAX_STORAGE_FILE_BYTES,
};
use crate::storage_codec::{
    array_of,
    bounded_of,
    decode_array,
    decode_bounded,
    encode_bytes,
    law_stored_bytes_are_read_back,
    stored_as,
};

verus! {

pub const IDENTITY_FORMAT_VERSION: u16 = 1;

pub const SECRET_SEED_BYTES: usize = 32;

pub const MAX_PRIVATE_KEY_BYTES: usize = 16384;

#[verifier::external_type_specification]
#[verifier::external_body]
pub struct ExRcgenError(rcgen::Error);

/// What makes up the identity of this device.
pub struct DeviceMaterial {
    pub secret_seed: Vec<u8>,
    pub certificate_der: Vec<u8>,
    pub private_key_pkcs8_der: Vec<u8>,
    pub server_name: String,
}

pub struct DeviceMaterialModel {
    pub secret_seed: Seq<u8>,
    pub certificate_der: Seq<u8>,
    pub private_key_pkcs8_der: Seq<u8>,
    pub server_name: Seq<char>,
}

impl View for DeviceMaterial {
    type V = DeviceMaterialModel;

    open spec fn view(&self) -> DeviceMaterialModel {
        DeviceMaterialModel {
            secret_seed: self.secret_seed@,
            certificate_der: self.certificate_der@,
            private_key_pkcs8_der: self.private_key_pkcs8_der@,
            server_name: self.server_name@,
        }
    }
}

/// The identity as one stored record.
pub struct IdentityDisk {
    pub format_version: u16,
    pub ed25519_seed: String,
    pub certificate_der: String,
    pub private_key_pkcs8_der: String,
    pub server_name: String,
}

/// The part of a divided identity that signs.
pub struct SigningSeedDisk {
    pub format_version: u16,
    pub ed25519_seed: String,
}

/// The part of a divided identity that serves the transport.
pub struct TlsIdentityDisk {
    pub format_version: u16,
    pub certificate_der: String,
    pub private_key_pkcs8_der: String,
    pub server_name: String,
}

/// What a valid identity satisfies.
pub open spec fn material_form(material: DeviceMaterialModel) -> bool {
    &&& material.secret_seed.len() == SECRET_SEED_BYTES
    &&& 1 <= material.certificate_der.len() <= MAX_CERTIFICATE_BYTES
    &&& 1 <= material.private_key_pkcs8_der.len() <= MAX_PRIVATE_KEY_BYTES
    &&& server_name_form(material.server_name)
}

/// The identity that stored texts stand for, if they are valid.
pub open spec fn material_of(
    seed: Seq<char>,
    certificate_der: Seq<char>,
    private_key: Seq<char>,
    server_name: Seq<char>,
) -> Option<DeviceMaterialModel> {
    match (
        array_of(seed, SECRET_SEED_BYTES as nat),
        bounded_of(certificate_der, MAX_CERTIFICATE_BYTES as nat),
        bounded_of(private_key, MAX_PRIVATE_KEY_BYTES as nat),
    ) {
        (Some(secret_seed), Some(certificate_der), Some(private_key_pkcs8_der)) => if server_name_form(
            server_name,
        ) {
            Some(
                DeviceMaterialModel {
                    secret_seed,
                    certificate_der,
                    private_key_pkcs8_der,
                    server_name,
                },
            )
        } else {
            None
        },
        _ => None,
    }
}

pub open spec fn material_read(
    read: Result<DeviceMaterial, StorageError>,
    meant: Option<DeviceMaterialModel>,
) -> bool {
    match read {
        Ok(material) => meant == Some(material@),
        Err(error) => meant is None && error == StorageError::InvalidData,
    }
}

/// The identity that one stored record stands for.
pub open spec fn identity_of(disk: IdentityDisk) -> Option<DeviceMaterialModel> {
    if disk.format_version == IDENTITY_FORMAT_VERSION {
        material_of(
            disk.ed25519_seed@,
            disk.certificate_der@,
            disk.private_key_pkcs8_der@,
            disk.server_name@,
        )
    } else {
        None
    }
}

/// The identity that two stored parts stand for.
pub open spec fn split_identity_of(signing: SigningSeedDisk, tls: TlsIdentityDisk) -> Option<
    DeviceMaterialModel,
> {
    if signing.format_version == IDENTITY_FORMAT_VERSION && tls.format_version
        == IDENTITY_FORMAT_VERSION {
        material_of(
            signing.ed25519_seed@,
            tls.certificate_der@,
            tls.private_key_pkcs8_der@,
            tls.server_name@,
        )
    } else {
        None
    }
}

fn read_material(seed: &str, certificate: &str, private_key: &str, server_name: &str) -> (read:
    Result<DeviceMaterial, StorageError>)
    ensures
        material_read(read, material_of(seed@, certificate@, private_key@, server_name@)),
{
    let secret_seed = match decode_array(seed, SECRET_SEED_BYTES) {
        Ok(secret_seed) => secret_seed,
        Err(_) => return Err(StorageError::InvalidData),
    };
    let certificate_der = match decode_bounded(certificate, MAX_CERTIFICATE_BYTES) {
        Ok(certificate_der) => certificate_der,
        Err(_) => {
            discard(secret_seed);
            return Err(StorageError::InvalidData);
        },
    };
    let private_key_pkcs8_der = match decode_bounded(private_key, MAX_PRIVATE_KEY_BYTES) {
        Ok(private_key_pkcs8_der) => private_key_pkcs8_der,
        Err(_) => {
            discard(secret_seed);
            return Err(StorageError::InvalidData);
        },
    };
    if validate_server_name(server_name).is_err() {
        discard(secret_seed);
        discard(private_key_pkcs8_der);
        return Err(StorageError::InvalidData);
    }
    Ok(
        DeviceMaterial {
            secret_seed,
            certificate_der,
            private_key_pkcs8_der,
            server_name: server_name.to_owned(),
        },
    )
}

/// Reads an identity out of one stored record.
pub fn decode_identity(disk: &IdentityDisk) -> (read: Result<DeviceMaterial, StorageError>)
    ensures
        material_read(read, identity_of(*disk)),
{
    if disk.format_version != IDENTITY_FORMAT_VERSION {
        return Err(StorageError::InvalidData);
    }
    read_material(
        disk.ed25519_seed.as_str(),
        disk.certificate_der.as_str(),
        disk.private_key_pkcs8_der.as_str(),
        disk.server_name.as_str(),
    )
}

/// Reads an identity out of its two stored parts.
pub fn decode_split_identity(signing: &SigningSeedDisk, tls: &TlsIdentityDisk) -> (read: Result<
    DeviceMaterial,
    StorageError,
>)
    ensures
        material_read(read, split_identity_of(*signing, *tls)),
{
    if signing.format_version != IDENTITY_FORMAT_VERSION || tls.format_version
        != IDENTITY_FORMAT_VERSION {
        return Err(StorageError::InvalidData);
    }
    read_material(
        signing.ed25519_seed.as_str(),
        tls.certificate_der.as_str(),
        tls.private_key_pkcs8_der.as_str(),
        tls.server_name.as_str(),
    )
}

/// Keeps a read identity when its certificate is one and fits its private key;
/// whether it does is found out elsewhere.
pub fn restore_identity_material(
    material: DeviceMaterial,
    certificate_valid: bool,
    credentials_valid: bool,
) -> (restored: Result<DeviceMaterial, StorageError>)
    ensures
        restored == if certificate_valid && credentials_valid {
            Ok::<DeviceMaterial, StorageError>(material)
        } else {
            Err(StorageError::InvalidData)
        },
{
    if certificate_valid && credentials_valid {
        Ok(material)
    } else {
        discard(material.secret_seed);
        discard(material.private_key_pkcs8_der);
        Err(StorageError::InvalidData)
    }
}

/// An identity can be written: none of its parts alone is longer than the whole
/// file may be.
pub open spec fn material_storable(material: DeviceMaterialModel) -> bool {
    &&& material.secret_seed.len() <= MAX_STORAGE_FILE_BYTES
    &&& material.certificate_der.len() <= MAX_STORAGE_FILE_BYTES
    &&& material.private_key_pkcs8_der.len() <= MAX_STORAGE_FILE_BYTES
}

/// Writes an identity as two parts.
pub fn encode_split_identity(material: &DeviceMaterial) -> (written: Result<
    (SigningSeedDisk, TlsIdentityDisk),
    StorageError,
>)
    ensures
        match written {
            Ok((signing, tls)) => {
                &&& material_storable(material@)
                &&& signing.format_version == IDENTITY_FORMAT_VERSION
                &&& tls.format_version == IDENTITY_FORMAT_VERSION
                &&& stored_as(material@.secret_seed, signing.ed25519_seed@)
                &&& stored_as(material@.certificate_der, tls.certificate_der@)
                &&& stored_as(material@.private_key_pkcs8_der, tls.private_key_pkcs8_der@)
                &&& tls.server_name@ == material@.server_name
                &&& material_form(material@) ==> split_identity_of(signing, tls) == Some(material@)
            },
            Err(error) => error == StorageError::InvalidData && !material_storable(material@),
        },
{
    if material.secret_seed.len() as u64 > MAX_STORAGE_FILE_BYTES
        || material.certificate_der.len() as u64 > MAX_STORAGE_FILE_BYTES
        || material.private_key_pkcs8_der.len() as u64 > MAX_STORAGE_FILE_BYTES {
        return Err(StorageError::InvalidData);
    }
    let signing = SigningSeedDisk {
        format_version: IDENTITY_FORMAT_VERSION,
        ed25519_seed: encode_bytes(&material.secret_seed),
    };
    let tls = TlsIdentityDisk {
        format_version: IDENTITY_FORMAT_VERSION,
        certificate_der: encode_bytes(&material.certificate_der),
        private_key_pkcs8_der: encode_bytes(&material.private_key_pkcs8_der),
        server_name: material.server_name.clone(),
    };
    proof {
        if material_form(material@) {
            law_stored_identities_are_read_back(
                material@,
                signing.ed25519_seed@,
                tls.certificate_der@,
                tls.private_key_pkcs8_der@,
            );
        }
    }
    Ok((signing, tls))
}

/// Writes an identity as one record.
pub fn encode_identity(material: &DeviceMaterial) -> (written: Result<IdentityDisk, StorageError>)
    ensures
        match written {
            Ok(disk) => {
                &&& material_storable(material@)
                &&& disk.format_version == IDENTITY_FORMAT_VERSION
                &&& stored_as(material@.secret_seed, disk.ed25519_seed@)
                &&& stored_as(material@.certificate_der, disk.certificate_der@)
                &&& stored_as(material@.private_key_pkcs8_der, disk.private_key_pkcs8_der@)
                &&& disk.server_name@ == material@.server_name
                &&& material_form(material@) ==> identity_of(disk) == Some(material@)
            },
            Err(error) => error == StorageError::InvalidData && !material_storable(material@),
        },
{
    match encode_split_identity(material) {
        Ok((signing, tls)) => Ok(
            IdentityDisk {
                format_version: IDENTITY_FORMAT_VERSION,
                ed25519_seed: signing.ed25519_seed,
                certificate_der: tls.certificate_der,
                private_key_pkcs8_der: tls.private_key_pkcs8_der,
                server_name: tls.server_name,
            },
        ),
        Err(error) => Err(error),
    }
}

/// A valid identity that is stored is read back as it was.
pub proof fn law_stored_identities_are_read_back(
    material: DeviceMaterialModel,
    seed: Seq<char>,
    certificate_der: Seq<char>,
    private_key: Seq<char>,
)
    requires
        material_form(material),
        stored_as(material.secret_seed, seed),
        stored_as(material.certificate_der, certificate_der),
        stored_as(material.private_key_pkcs8_der, private_key),
    ensures
        material_of(seed, certificate_der, private_key, material.server_name) == Some(material),
{
    law_stored_bytes_are_read_back(material.secret_seed, seed, SECRET_SEED_BYTES as nat);
    law_stored_bytes_are_read_back(
        material.certificate_der,
        certificate_der,
        MAX_CERTIFICATE_BYTES as nat,
    );
    law_stored_bytes_are_read_back(
        material.private_key_pkcs8_der,
        private_key,
        MAX_PRIVATE_KEY_BYTES as nat,
    );
}

/// Calls `rcgen::generate_simple_self_signed` for one name, the fixed one of
/// the agent, and hands back the certificate and the private key in their
/// binary forms. Both are random, and the call may fail; nothing is promised of
/// them.
#[verifier::external_body]
fn self_signed(server_name: String) -> Result<(Vec<u8>, Vec<u8>), rcgen::Error>
    requires
        server_name@ == agent_server_name(),
{
    let generated = rcgen::generate_simple_self_signed(vec![server_name])?;
    Ok((generated.cert.der().to_vec(), generated.signing_key.serialize_der()))
}

/// The name that every certificate of an agent is issued for.
pub open spec fn agent_server_name() -> Seq<char> {
    "agent.nodavo.invalid"@
}

/// The name that a new certificate is asked for, and that is stored beside it.
pub fn identity_subject() -> (name: String)
    ensures
        name@ == agent_server_name(),
{
    "agent.nodavo.invalid".to_owned()
}

fn array_bytes(bytes: [u8; 32]) -> (copy: Vec<u8>)
    ensures
        copy@ == bytes@,
{
    let mut copy: Vec<u8> = Vec::new();
    let mut at: usize = 0;
    while at < 32
        invariant
            at <= 32,
            copy@ == bytes@.take(at as int),
        decreases 32 - at,
    {
        copy.push(bytes[at]);
        assert(bytes@.take(at + 1) =~= bytes@.take(at as int).push(bytes@[at as int]));
        at = at + 1;
    }
    assert(bytes@.take(32) =~= bytes@);
    copy
}

/// The identity made of a random seed and a generated certificate with its
/// private key; none, when no certificate could be generated.
pub fn identity_material(seed: [u8; 32], generated: Option<(Vec<u8>, Vec<u8>)>) -> (material: Result<
    DeviceMaterial,
    StorageError,
>)
    ensures
        match generated {
            Some((certificate_der, private_key)) => material matches Ok(made) && made@ == (
            DeviceMaterialModel {
                secret_seed: seed@,
                certificate_der: certificate_der@,
                private_key_pkcs8_der: private_key@,
                server_name: agent_server_name(),
            }),
            None => material == Err::<DeviceMaterial, StorageError>(StorageError::InvalidData),
        },
{
    match generated {
        Some((certificate_der, private_key_pkcs8_der)) => Ok(
            DeviceMaterial {
                secret_seed: array_bytes(seed),
                certificate_der,
                private_key_pkcs8_der,
                server_name: identity_subject(),
            },
        ),
        None => Err(StorageError::InvalidData),
    }
}

/// A new, random identity for the fixed name of the agent.
pub fn generate_identity_material() -> (material: Result<DeviceMaterial, StorageError>)
    ensures
        match material {
            Ok(made) => {
                &&& made@.secret_seed.len() == SECRET_SEED_BYTES
                &&& made@.server_name == agent_server_name()
            },
            Err(error) => error == StorageError::InvalidData,
        },
{
    let generated = match self_signed(identity_subject()) {
        Ok(pair) => Some(pair),
        Err(_) => None,
    };
    identity_material(random_bytes(), generated)
}

/// A new identity together with its stored form.
pub fn create_identity() -> (created: Result<(DeviceMaterial, IdentityDisk), StorageError>)
    ensures
        match created {
            Ok((material, disk)) => {
                &&& material@.secret_seed.len() == SECRET_SEED_BYTES
                &&& material@.server_name == agent_server_name()
                &&& material_form(material@) ==> identity_of(disk) == Some(material@)
            },
            Err(error) => error == StorageError::InvalidData,
        },
{
    match generate_identity_material() {
        Ok(material) => match encode_identity(&material) {
            Ok(disk) => Ok((material, disk)),
            Err(error) => Err(error),
        },
        Err(error) => Err(error),
    }
}

/// A new identity together with its two stored parts.
pub fn create_split_identity() -> (created: Result<
    (DeviceMaterial, SigningSeedDisk, TlsIdentityDisk),
    StorageError,
>)
    ensures
        match created {
            Ok((material, signing, tls)) => {
                &&& material@.secret_seed.len() == SECRET_SEED_BYTES
                &&& material@.server_name == agent_server_name()
                &&& material_form(material@) ==> split_identity_of(signing, tls) == Some(material@)
            },
            Err(error) => error == StorageError::InvalidData,
        },
{
    match generate_identity_material() {
        Ok(material) => match encode_split_identity(&material) {
            Ok((signing, tls)) => Ok((material, signing, tls)),
            Err(error) => Err(error),
        },
        Err(error) => Err(error),
    }
}

/// An identity has a seed of thirty-two bytes, a certificate of at most sixty-four
/// kibibytes, a private key of at most sixteen, and the name of a server.
pub proof fn law_identities_have_their_form(material: DeviceMaterialModel)
    ensures
        material_form(material) <==> {
            &&& material.secret_seed.len() == 32
            &&& 1 <= material.certificate_der.len() <= 65536
            &&& 1 <= material.private_key_pkcs8_der.len() <= 16384
            &&& server_name_form(material.server_name)
        },
        material_storable(material) <==> {
            &&& material.secret_seed.len() <= 524288
            &&& material.certificate_der.len() <= 524288
            &&& material.private_key_pkcs8_der.len() <= 524288
        },
        agent_server_name() == "agent.nodavo.invalid"@,
{
}

/// Texts are read as an identity exactly if each of them can be, within its
/// bounds; each part of it is then what its own text stands for.
pub proof fn law_identities_are_read_part_by_part(
    seed: Seq<char>,
    certificate_der: Seq<char>,
    private_key: Seq<char>,
    server_name: Seq<char>,
)
    ensures
        ({
            let read = material_of(seed, certificate_der, private_key, server_name);
            &&& read is Some <==> array_of(seed, 32) is Some && bounded_of(certificate_der, 65536)
                is Some && bounded_of(private_key, 16384) is Some && server_name_form(server_name)
            &&& read matches Some(material) ==> array_of(seed, 32) == Some(material.secret_seed)
                && bounded_of(certificate_der, 65536) == Some(material.certificate_der)
                && bounded_of(private_key, 16384) == Some(material.private_key_pkcs8_der)
                && material.server_name == server_name && material_form(material)
        }),
{
}

/// One stored record is read as the identity of its texts, and two parts as that
/// of theirs together; any format but the first is not read.
pub proof fn law_stored_identities_are_of_one_format(
    disk: IdentityDisk,
    signing: SigningSeedDisk,
    tls: TlsIdentityDisk,
)
    ensures
        disk.format_version != 1 ==> identity_of(disk) is None,
        disk.format_version == 1 ==> identity_of(disk) == material_of(
            disk.ed25519_seed@,
            disk.certificate_der@,
            disk.private_key_pkcs8_der@,
            disk.server_name@,
        ),
        signing.format_version != 1 || tls.format_version != 1 ==> split_identity_of(signing, tls)
            is None,
        signing.format_version == 1 && tls.format_version == 1 ==> split_identity_of(signing, tls)
            == material_of(
            signing.ed25519_seed@,
            tls.certificate_der@,
            tls.private_key_pkcs8_der@,
            tls.server_name@,
        ),
{
}

/// Stored material is taken only where its certificate and its keys are valid,
/// and then as it is.
pub proof fn law_restored_material_is_valid(
    material: DeviceMaterial,
    certificate_valid: bool,
    credentials_valid: bool,
    restored: Result<DeviceMaterial, StorageError>,
)
    requires
        call_ensures(
            restore_identity_material,
            (material, certificate_valid, credentials_valid),
            restored,
        ),
    ensures
        restored is Ok <==> certificate_valid && credentials_valid,
        restored matches Ok(kept) ==> kept == material,
        restored matches Err(error) ==> error is InvalidData,
{
}

} // verus!
