use nodavo_agent::device_identity::{
    create_identity, create_split_identity, decode_identity, decode_split_identity,
    generate_identity_material, identity_material, identity_subject, restore_identity_material, IdentityDisk,
    SigningSeedDisk, IDENTITY_FORMAT_VERSION,
};
use nodavo_agent::grants::Capability;
use nodavo_agent::identifiers::{device_id_text, DeviceId};
use nodavo_agent::keychain::{
    keychain_deleted, keychain_loaded, map_keychain_error, store_opened, IdentityOutcome,
    IdentityRun, IdentityStep, KeychainError, SecretAccount, SecretStoreDisposition,
};
use nodavo_agent::peer_records::{
    PeerChecks, PeerDisk, PeerRecord, LEGACY_TRUST_FORMAT_VERSION, TRUST_FORMAT_VERSION,
};
use nodavo_agent::random::{
    id_text, nonzero_16, nonzero_random_16, nonzero_random_u64, nonzero_u64, random_id,
};
use nodavo_agent::storage::{
    prepare_directory, read_allowed, validate_display_name, validate_payload_size,
    validate_server_name, write_allowed, DirectoryStep, FileDevelopmentStorage, PathSight,
    StorageError, MAX_STORAGE_FILE_BYTES,
};
use nodavo_agent::storage_codec::{decode_array, decode_bounded, encode_bytes};
use nodavo_agent::trust_store::{decode_peers, encode_peers, validate_trust_size, TrustDisk};

const MAX_PEERS: usize = 64;
const MIGRATED_DISPLAY_NAME: &str = "Previously trusted device";

fn certificate() -> Vec<u8> {
    generate_identity_material().unwrap().certificate_der
}

fn record(seed: u8, grants: Capability) -> PeerRecord {
    PeerRecord {
        device_id: DeviceId::new([seed; 32]),
        public_key: vec![seed; 32],
        certificate_der: certificate(),
        grants,
        grant_epoch: 7,
        display_name: "Current peer name".to_owned(),
        established_at_unix_ms: 10,
        revoked_at_unix_ms: None,
        server_name: "peer.nodavo.invalid".to_owned(),
        last_endpoint: Some("127.0.0.1:4431".to_owned()),
    }
}

fn checks(record: &PeerRecord) -> PeerChecks {
    PeerChecks {
        certificate_valid: true,
        grants: Some(record.grants),
        endpoint: record.last_endpoint.clone(),
        device_id: record.device_id,
    }
}

fn assert_same(left: &PeerRecord, right: &PeerRecord) {
    assert_eq!(left.device_id, right.device_id);
    assert_eq!(left.public_key, right.public_key);
    assert_eq!(left.certificate_der, right.certificate_der);
    assert_eq!(left.grants, right.grants);
    assert_eq!(left.grant_epoch, right.grant_epoch);
    assert_eq!(left.display_name, right.display_name);
    assert_eq!(left.established_at_unix_ms, right.established_at_unix_ms);
    assert_eq!(left.revoked_at_unix_ms, right.revoked_at_unix_ms);
    assert_eq!(left.server_name, right.server_name);
    assert_eq!(left.last_endpoint, right.last_endpoint);
}

#[test]
fn identity_is_persistent_and_private() {
    let (first, disk) = create_identity().unwrap();
    let second = restore_identity_material(decode_identity(&disk).unwrap(), true, true).unwrap();
    assert_eq!(first.secret_seed, second.secret_seed);
    assert_eq!(first.certificate_der, second.certificate_der);
    assert_eq!(first.private_key_pkcs8_der, second.private_key_pkcs8_der);
    assert_eq!(second.server_name, "agent.nodavo.invalid");
    assert!(restore_identity_material(second, true, false).is_err());
}

#[test]
fn identities_differ_and_name_the_agent() {
    let first = generate_identity_material().unwrap();
    let second = generate_identity_material().unwrap();
    assert_ne!(first.secret_seed, second.secret_seed);
    assert_ne!(first.private_key_pkcs8_der, second.private_key_pkcs8_der);
    let name = b"agent.nodavo.invalid";
    assert!(first
        .certificate_der
        .windows(name.len())
        .any(|window| window == name));
    assert_eq!(
        identity_material([3; 32], None).err(),
        Some(StorageError::InvalidData)
    );
    let made = identity_material([3; 32], Some((vec![1], vec![2]))).unwrap();
    assert_eq!(made.secret_seed, vec![3; 32]);
    assert_eq!(made.certificate_der, vec![1]);
    assert_eq!(made.private_key_pkcs8_der, vec![2]);
    assert_eq!(identity_subject(), "agent.nodavo.invalid");
    assert_eq!(made.server_name, identity_subject());
    assert_eq!(first.server_name, identity_subject());
}

#[test]
fn rejects_unknown_identity_format() {
    let disk = IdentityDisk {
        format_version: 99,
        ed25519_seed: "x".to_owned(),
        certificate_der: "x".to_owned(),
        private_key_pkcs8_der: "x".to_owned(),
        server_name: "x".to_owned(),
    };
    assert_eq!(
        decode_identity(&disk).err(),
        Some(StorageError::InvalidData)
    );
}

#[test]
fn split_identity_codec_is_versioned_and_bounded() {
    let (material, signing, tls) = create_split_identity().unwrap();
    assert_eq!(signing.format_version, IDENTITY_FORMAT_VERSION);
    let read = decode_split_identity(&signing, &tls).unwrap();
    assert_eq!(read.secret_seed, material.secret_seed);
    let other = SigningSeedDisk {
        format_version: 9,
        ed25519_seed: signing.ed25519_seed.clone(),
    };
    assert_eq!(
        decode_split_identity(&other, &tls).err(),
        Some(StorageError::InvalidData)
    );

    let oversized = vec![0_u8; usize::try_from(MAX_STORAGE_FILE_BYTES).unwrap() + 1];
    assert_eq!(
        validate_payload_size(&oversized),
        Err(StorageError::InvalidData)
    );
    assert_eq!(validate_payload_size(&[]), Err(StorageError::InvalidData));
    assert_eq!(validate_trust_size(&[]), Ok(()));
    assert_eq!(
        validate_trust_size(&oversized),
        Err(StorageError::InvalidData)
    );
}

#[test]
fn legacy_trust_migrates_to_named_epoch_records_without_losing_grants() {
    let record = record(8, Capability::remote_input_only());
    let records = vec![record];
    let mut legacy = encode_peers(&records, &vec![1], MAX_PEERS).unwrap();
    legacy.format_version = LEGACY_TRUST_FORMAT_VERSION;
    legacy.peers[0].grant_epoch = None;
    legacy.peers[0].display_name = None;

    let migrated = decode_peers(legacy, vec![checks(&records[0])], MAX_PEERS).unwrap();
    assert_eq!(migrated[0].grants, records[0].grants);
    assert_eq!(migrated[0].grant_epoch, 1);
    assert_eq!(migrated[0].display_name, MIGRATED_DISPLAY_NAME);

    let persisted = encode_peers(&migrated, &vec![1], MAX_PEERS).unwrap();
    assert_eq!(persisted.format_version, TRUST_FORMAT_VERSION);
    assert_eq!(persisted.peers[0].grant_epoch, Some(1));
    assert_eq!(
        persisted.peers[0].display_name.as_deref(),
        Some(MIGRATED_DISPLAY_NAME)
    );
    let round_trip = decode_peers(persisted, vec![checks(&migrated[0])], MAX_PEERS).unwrap();
    assert_same(&round_trip[0], &migrated[0]);
}

#[test]
fn stored_peers_are_read_back_in_their_order() {
    let records = vec![
        record(1, Capability::empty()),
        record(2, Capability::file_transfer_only()),
    ];
    let disk = encode_peers(&records, &vec![0, 8], MAX_PEERS).unwrap();
    assert_eq!(disk.peers[1].grants, 8);
    let all_checks = vec![checks(&records[0]), checks(&records[1])];
    let read = decode_peers(disk, all_checks, MAX_PEERS).unwrap();
    assert_same(&read[0], &records[0]);
    assert_same(&read[1], &records[1]);
    assert!(encode_peers(&records, &vec![0, 8], 1).is_err());
}

#[test]
fn invalid_peers_are_not_read() {
    let valid = record(1, Capability::empty());
    let read = |change: fn(&mut PeerDisk, &mut PeerChecks), version: u16| {
        let mut disk = PeerDisk::from_record(&valid, 0);
        let mut found = checks(&valid);
        change(&mut disk, &mut found);
        disk.into_record(version, found).err()
    };
    assert_eq!(read(|_, _| {}, TRUST_FORMAT_VERSION), None);
    let refused = Some(StorageError::InvalidData);
    assert_eq!(read(|_, _| {}, LEGACY_TRUST_FORMAT_VERSION), refused);
    assert_eq!(read(|_, _| {}, 3), refused);
    assert_eq!(
        read(|disk, _| disk.grant_epoch = Some(0), TRUST_FORMAT_VERSION),
        refused
    );
    assert_eq!(
        read(|disk, _| disk.grant_epoch = None, TRUST_FORMAT_VERSION),
        refused
    );
    assert_eq!(
        read(
            |disk, _| disk.display_name = Some(" name".to_owned()),
            TRUST_FORMAT_VERSION
        ),
        refused
    );
    assert_eq!(
        read(
            |disk, _| disk.server_name = String::new(),
            TRUST_FORMAT_VERSION
        ),
        refused
    );
    assert_eq!(
        read(
            |disk, _| disk.revoked_at_unix_ms = Some(9),
            TRUST_FORMAT_VERSION
        ),
        refused
    );
    assert_eq!(
        read(
            |disk, _| disk.public_key = "AAAA".to_owned(),
            TRUST_FORMAT_VERSION
        ),
        refused
    );
    assert_eq!(
        read(
            |disk, _| disk.certificate_der = String::new(),
            TRUST_FORMAT_VERSION
        ),
        refused
    );
    assert_eq!(
        read(
            |_, found| found.certificate_valid = false,
            TRUST_FORMAT_VERSION
        ),
        refused
    );
    assert_eq!(
        read(|_, found| found.grants = None, TRUST_FORMAT_VERSION),
        refused
    );
    assert_eq!(
        read(|_, found| found.endpoint = None, TRUST_FORMAT_VERSION),
        refused
    );
    assert_eq!(
        read(
            |disk, found| {
                disk.last_endpoint = None;
                found.endpoint = None;
            },
            TRUST_FORMAT_VERSION
        ),
        None
    );
}

#[test]
fn a_device_is_not_read_twice() {
    let records = vec![
        record(1, Capability::empty()),
        record(1, Capability::empty()),
    ];
    let disk = encode_peers(&records, &vec![0, 0], MAX_PEERS).unwrap();
    assert_eq!(
        decode_peers(
            disk,
            vec![checks(&records[0]), checks(&records[1])],
            MAX_PEERS
        )
        .err(),
        Some(StorageError::InvalidData)
    );
    let unknown = TrustDisk {
        format_version: 3,
        peers: Vec::new(),
    };
    assert!(decode_peers(unknown, Vec::new(), MAX_PEERS).is_err());
}

#[test]
fn bytes_are_written_in_the_standard_alphabet() {
    assert_eq!(encode_bytes(&b"hello world~".to_vec()), "aGVsbG8gd29ybGR+");
    assert_eq!(encode_bytes(&vec![0xff]), "/w==");
    assert_eq!(decode_array("/w==", 1), Ok(vec![0xff]));
    assert_eq!(decode_array("/w==", 2), Err(StorageError::InvalidData));
    assert_eq!(decode_array("/w", 1), Err(StorageError::InvalidData));
    assert_eq!(decode_bounded("AAAA", 3), Ok(vec![0, 0, 0]));
    assert_eq!(decode_bounded("AAAA", 2), Err(StorageError::InvalidData));
    assert_eq!(decode_bounded("AAAA", 1), Err(StorageError::InvalidData));
    assert_eq!(decode_bounded("", 3), Err(StorageError::InvalidData));
}

#[test]
fn names_have_their_forms() {
    assert_eq!(validate_server_name("peer.nodavo.invalid"), Ok(()));
    assert_eq!(validate_server_name(""), Err(StorageError::InvalidData));
    assert_eq!(
        validate_server_name(&"a".repeat(254)),
        Err(StorageError::InvalidData)
    );
    assert_eq!(
        validate_server_name("pe\u{e9}r"),
        Err(StorageError::InvalidData)
    );
    assert_eq!(validate_display_name("Office PC"), Ok(()));
    assert_eq!(
        validate_display_name("Office PC "),
        Err(StorageError::InvalidData)
    );
    assert_eq!(
        validate_display_name("Office\u{7}PC"),
        Err(StorageError::InvalidData)
    );
    assert_eq!(
        validate_display_name(&"a".repeat(64)),
        Err(StorageError::InvalidData)
    );
    assert_eq!(
        validate_display_name("\u{a0}name"),
        Err(StorageError::InvalidData)
    );
}

#[test]
fn only_ordinary_files_are_touched() {
    let file = PathSight {
        is_directory: false,
        is_file: true,
        is_symlink: false,
        length: 10,
    };
    let directory = PathSight {
        is_directory: true,
        is_file: false,
        is_symlink: false,
        length: 0,
    };
    let link = PathSight {
        is_directory: false,
        is_file: false,
        is_symlink: true,
        length: 0,
    };
    assert_eq!(prepare_directory(None), Ok(DirectoryStep::Create));
    assert_eq!(prepare_directory(Some(directory)), Ok(DirectoryStep::Use));
    assert_eq!(prepare_directory(Some(link)), Err(StorageError::UnsafePath));
    assert_eq!(read_allowed(Ok(None)), Ok(false));
    assert_eq!(read_allowed(Ok(Some(file))), Ok(true));
    assert_eq!(read_allowed(Err(())), Err(StorageError::Io));
    assert_eq!(
        read_allowed(Ok(Some(PathSight {
            length: MAX_STORAGE_FILE_BYTES + 1,
            ..file
        }))),
        Err(StorageError::UnsafePath)
    );
    assert_eq!(write_allowed(3, Some(file)), Ok(()));
    assert_eq!(
        write_allowed(3, Some(link)),
        Err(StorageError::UnsafePath)
    );
    assert_eq!(
        write_allowed(MAX_STORAGE_FILE_BYTES + 1, None),
        Err(StorageError::InvalidData)
    );
    let storage = FileDevelopmentStorage::new("state".to_owned());
    assert_eq!(
        storage.identity_path().file_name,
        "development-identity-v1.json"
    );
    assert_eq!(storage.trust_path().file_name, "development-trust-v1.json");
    assert_eq!(storage.trust_path().directory, "state");
}

/// A store of secrets that may refuse to store one account.
struct FakeSecretStore {
    signing: bool,
    tls: bool,
    refuse_tls: bool,
}

impl FakeSecretStore {
    fn new() -> Self {
        Self {
            signing: false,
            tls: false,
            refuse_tls: false,
        }
    }

    fn slot(&mut self, account: SecretAccount) -> &mut bool {
        match account {
            SecretAccount::SigningSeed => &mut self.signing,
            SecretAccount::TlsPrivateKey => &mut self.tls,
            SecretAccount::TrustDatabase => panic!("the trust database is not touched"),
        }
    }

    /// Whether the identity was found (false) or made (true).
    fn load_or_create(&mut self) -> Result<bool, StorageError> {
        let (mut run, mut step) = IdentityRun::begin();
        loop {
            let outcome = match step {
                IdentityStep::Load(account) => IdentityOutcome::Loaded(Ok(*self.slot(account))),
                IdentityStep::Create => IdentityOutcome::Created(Ok(())),
                IdentityStep::Store(account) => {
                    if account == SecretAccount::TlsPrivateKey && self.refuse_tls {
                        IdentityOutcome::Stored(Err(StorageError::Keychain))
                    } else {
                        let slot = self.slot(account);
                        let disposition = if *slot {
                            SecretStoreDisposition::Updated
                        } else {
                            SecretStoreDisposition::Created
                        };
                        *slot = true;
                        IdentityOutcome::Stored(Ok(disposition))
                    }
                }
                IdentityStep::Delete(account) => {
                    *self.slot(account) = false;
                    IdentityOutcome::Deleted(Ok(()))
                }
                IdentityStep::Decode => return Ok(false),
                IdentityStep::UseCreated => return Ok(true),
                IdentityStep::Fail(error) => return Err(error),
            };
            step = run.advance(outcome);
        }
    }
}

#[test]
fn identity_and_trust_round_trip_through_separate_accounts() {
    let mut backend = FakeSecretStore::new();
    assert_eq!(backend.load_or_create(), Ok(true));
    assert!(backend.signing);
    assert!(backend.tls);
    assert_eq!(backend.load_or_create(), Ok(false));

    let (first, signing, tls) = create_split_identity().unwrap();
    let second = decode_split_identity(&signing, &tls).unwrap();
    assert_eq!(first.secret_seed, second.secret_seed);
    assert_eq!(first.certificate_der, second.certificate_der);
}

#[test]
fn partial_identity_fails_closed_without_regeneration() {
    let mut backend = FakeSecretStore::new();
    backend.signing = true;
    assert_eq!(backend.load_or_create(), Err(StorageError::InvalidData));
    assert!(backend.signing);
    assert!(!backend.tls);
}

#[test]
fn failed_tls_store_rolls_back_new_signing_seed() {
    let mut backend = FakeSecretStore::new();
    backend.refuse_tls = true;
    assert_eq!(backend.load_or_create(), Err(StorageError::Keychain));
    assert!(!backend.signing);
    assert!(!backend.tls);
}

#[test]
fn missing_entitlement_is_not_replaced_with_another_backend() {
    assert_eq!(
        store_opened(keychain_loaded(Err(KeychainError::MissingEntitlement))),
        Err(StorageError::MissingEntitlement)
    );
    assert_eq!(
        store_opened(keychain_loaded(Err(KeychainError::Other))),
        Err(StorageError::Keychain)
    );
    assert_eq!(
        store_opened(keychain_loaded(Err(KeychainError::NotFound))),
        Ok(())
    );
    assert_eq!(keychain_deleted(Err(KeychainError::NotFound)), Ok(()));
    assert_eq!(
        map_keychain_error(KeychainError::NotFound),
        StorageError::Keychain
    );
}

#[test]
fn identifiers_are_written_as_lower_case_digits() {
    let mut bytes = [0_u8; 32];
    for (index, byte) in bytes.iter_mut().enumerate() {
        *byte = u8::try_from(index * 8 + 7).unwrap();
    }
    let expected: String = bytes.iter().map(|byte| format!("{byte:02x}")).collect();
    assert_eq!(device_id_text(DeviceId::new(bytes)), expected);
    assert_eq!(
        id_text([0xab; 16]),
        "abababababababababababababababab"
    );
    let id = random_id();
    assert_eq!(id.len(), 32);
    assert!(id
        .bytes()
        .all(|byte| byte.is_ascii_digit() || (b'a'..=b'f').contains(&byte)));
    assert_ne!(id, random_id());
}

#[test]
fn zero_is_not_drawn() {
    assert_eq!(nonzero_u64(0), 1);
    assert_eq!(nonzero_u64(9), 9);
    let mut expected = [0_u8; 16];
    expected[0] = 1;
    assert_eq!(nonzero_16([0; 16]), expected);
    assert_eq!(nonzero_16([2; 16]), [2; 16]);
    assert_ne!(nonzero_random_u64(), 0);
    assert_ne!(nonzero_random_16(), [0; 16]);
    assert_ne!(nonzero_random_16(), nonzero_random_16());
}

#[test]
fn restored_revoked_peer_is_not_active() {
    let mut revoked = record(7, Capability::empty());
    assert!(revoked.is_active());
    revoked.revoked_at_unix_ms = Some(11);
    assert!(!revoked.is_active());
    let disk = PeerDisk::from_record(&revoked, 0);
    let read = disk
        .into_record(TRUST_FORMAT_VERSION, checks(&revoked))
        .unwrap();
    assert!(!read.is_active());
    assert_same(&read, &revoked);
}

#[test]
fn names_do_not_begin_or_end_with_white_space_of_any_kind() {
    let white = |code: u32| {
        matches!(
            code,
            0x09..=0x0d
                | 0x20
                | 0x85
                | 0xa0
                | 0x1680
                | 0x2000..=0x200a
                | 0x2028
                | 0x2029
                | 0x202f
                | 0x205f
                | 0x3000
        )
    };
    for code in 0..=0x0010_ffff_u32 {
        let Some(c) = char::from_u32(code) else {
            continue;
        };
        let allowed = !white(code) && !c.is_control();
        assert_eq!(validate_display_name(&format!("{c}name")).is_ok(), allowed);
        assert_eq!(validate_display_name(&format!("name{c}")).is_ok(), allowed);
    }
}
