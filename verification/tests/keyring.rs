use lumina_latency_monitor::keyring::address::derive_address;
use lumina_latency_monitor::keyring::decrypt::check_five_parts;
use lumina_latency_monitor::keyring::decrypt::decrypt_jwe;
use lumina_latency_monitor::keyring::decrypt::decryption_result;
use lumina_latency_monitor::keyring::decrypt::find_format_fault;
use lumina_latency_monitor::keyring::decrypt::is_gcm_claim;
use lumina_latency_monitor::keyring::decrypt::part_of;
use lumina_latency_monitor::keyring::invalid_json_wrapper;
use lumina_latency_monitor::keyring::invalid_protobuf;
use lumina_latency_monitor::keyring::paths::expand_tilde;
use lumina_latency_monitor::keyring::paths::expand_tilde_in;
use lumina_latency_monitor::keyring::paths::join_path;
use lumina_latency_monitor::keyring::paths::key_file_name;
use lumina_latency_monitor::keyring::paths::key_name_of;
use lumina_latency_monitor::keyring::paths::key_names;
use lumina_latency_monitor::keyring::private_key_bytes;
use lumina_latency_monitor::keyring::proto::Any;
use lumina_latency_monitor::keyring::proto::LocalInfo;
use lumina_latency_monitor::keyring::proto::Record;
use lumina_latency_monitor::keyring::proto::Secp256k1PrivKey;
use lumina_latency_monitor::keyring::proto::Secp256k1PubKey;
use lumina_latency_monitor::keyring::proto::SECP256K1_PRIVKEY_TYPE_URL;
use lumina_latency_monitor::keyring::proto::SECP256K1_PUBKEY_TYPE_URL;
use lumina_latency_monitor::keyring::public_key_bytes;
use lumina_latency_monitor::keyring::record_bytes;
use lumina_latency_monitor::keyring::Backend;
use lumina_latency_monitor::keyring::FileKeyring;
use lumina_latency_monitor::keyring::KeyRecord;
use lumina_latency_monitor::keyring::KeyringError;
use lumina_latency_monitor::keyring::LocalKey;
use std::path::Path;
use std::path::PathBuf;

fn strings(items: &[&str]) -> Vec<String> {
    items.iter().map(|item| item.to_string()).collect()
}

fn full_record() -> Record {
    Record {
        name: String::from("alice"),
        pub_key: Some(Any {
            type_url: String::from(SECP256K1_PUBKEY_TYPE_URL),
            value: vec![1, 2, 3],
        }),
        local: Some(LocalInfo {
            priv_key: Some(Any {
                type_url: String::from(SECP256K1_PRIVKEY_TYPE_URL),
                value: vec![4, 5, 6],
            }),
        }),
    }
}

#[test]
fn test_decrypt_invalid_format() {
    let result = decrypt_jwe("not.enough.parts", "test");
    assert!(result.is_err());
}

#[test]
fn test_expand_tilde() {
    let home = dirs::home_dir().unwrap();
    assert_eq!(
        PathBuf::from(expand_tilde("~/foo").unwrap()),
        home.join("foo")
    );
    assert_eq!(
        PathBuf::from(expand_tilde("/absolute/path").unwrap()),
        PathBuf::from("/absolute/path")
    );
}

#[test]
fn a_key_file_must_have_five_parts() {
    assert!(check_five_parts("a.b.c.d.e"));
    assert!(check_five_parts("...."));
    assert!(!check_five_parts("a.b.c.d"));
    assert!(!check_five_parts("a.b.c.d.e.f"));
    assert!(!check_five_parts(""));
    match decrypt_jwe("not.enough.parts", "test") {
        Err(KeyringError::DecryptionFailed(cause)) => {
            assert_eq!(cause, "invalid JWE format: expected 5 parts");
        }
        other => panic!("unexpected outcome: {:?}", other),
    }
}

const GCM_HEADER: &str = "eyJhbGciOiJQQkVTMi1IUzI1NitBMTI4S1ciLCJlbmMiOiJBMjU2R0NNIiwicDJjIjo4MTkyLCJwMnMiOiJBQUVDQXdRRkJnY0lDUW9MREEwT0R3In0";
const CBC_HEADER: &str = "eyJhbGciOiJQQkVTMi1IUzI1NitBMTI4S1ciLCJlbmMiOiJBMTI4Q0JDLUhTMjU2IiwicDJjIjo4MTkyLCJwMnMiOiJBQUVDQXdRRkJnY0lDUW9MREEwT0R3In0";
const WRAPPED_KEY: &str = "z1ZE-9vR2f-A6HcO3nCtLamS6vp0OMkKoraSWl1wB2kLFTwgP9xDDg";
const IV: &str = "ZGVmZ2hpamtsbW5v";
const CIPHERTEXT: &str = "IAH3vfUPtx7Heuk7WWXkRItKxCxlmHKvb9xMojnIC1DM2tJxACI";
const TAG: &str = "708yYcP_ZB8EZEye2u21WA";
const PAYLOAD: &str = "{\"Key\":\"alice.info\",\"Data\":\"aGVsbG8=\"}";

fn key_file(header: &str, wrapped_key: &str, iv: &str) -> String {
    [header, wrapped_key, iv, CIPHERTEXT, TAG].join(".")
}

fn decryption_failure(jwe: &str) -> String {
    match decrypt_jwe(jwe, "test") {
        Err(KeyringError::DecryptionFailed(cause)) => cause,
        other => panic!("unexpected outcome: {:?}", other),
    }
}

#[test]
fn a_key_file_is_decrypted_with_its_password() {
    let jwe = key_file(GCM_HEADER, WRAPPED_KEY, IV);
    assert_eq!(decrypt_jwe(&jwe, "test").unwrap(), PAYLOAD.as_bytes());
}

#[test]
fn a_wrong_password_fails_to_decrypt() {
    let jwe = key_file(GCM_HEADER, WRAPPED_KEY, IV);
    let cause = decryption_failure_with(&jwe, "tset");
    assert!(!cause.starts_with("invalid JWE format"));
    assert!(matches!(
        decrypt_jwe(&jwe, ""),
        Err(KeyringError::DecryptionFailed(_))
    ));
}

fn decryption_failure_with(jwe: &str, password: &str) -> String {
    match decrypt_jwe(jwe, password) {
        Err(KeyringError::DecryptionFailed(cause)) => cause,
        other => panic!("unexpected outcome: {:?}", other),
    }
}

#[test]
fn a_tampered_key_file_fails_to_decrypt() {
    let jwe = [GCM_HEADER, WRAPPED_KEY, IV, CIPHERTEXT, "AAAAAAAAAAAAAAAAAAAAAA"].join(".");
    let cause = decryption_failure(&jwe);
    assert!(!cause.starts_with("invalid JWE format: "));
}

#[test]
fn a_wrapped_key_that_is_too_short_is_refused() {
    for wrapped_key in ["A", "AAAA", "AAAAAAAAAA"] {
        assert_eq!(
            decryption_failure(&key_file(GCM_HEADER, wrapped_key, IV)),
            "invalid JWE format: wrapped key too short"
        );
    }
    assert_eq!(
        decryption_failure("a.b.c.d.e"),
        "invalid JWE format: wrapped key too short"
    );
    // eleven characters are eight bytes: enough to be handed on
    let cause = decryption_failure(&key_file(GCM_HEADER, "AAAAAAAAAAA", IV));
    assert!(!cause.starts_with("invalid JWE format: wrapped key"));
    // so does no wrapped key at all, which the decryption turns down itself
    let cause = decryption_failure(&key_file(GCM_HEADER, "", IV));
    assert!(!cause.starts_with("invalid JWE format: wrapped key"));
}

#[test]
fn a_missing_initialization_vector_is_refused() {
    assert_eq!(
        decryption_failure(&key_file(GCM_HEADER, WRAPPED_KEY, "")),
        "invalid JWE format: initialization vector missing"
    );
    assert_eq!(
        decryption_failure(&key_file(CBC_HEADER, WRAPPED_KEY, "")),
        "invalid JWE format: initialization vector missing"
    );
}

#[test]
fn a_short_initialization_vector_is_for_gcm_only() {
    assert_eq!(
        decryption_failure(&key_file(CBC_HEADER, WRAPPED_KEY, IV)),
        "invalid JWE format: initialization vector too short"
    );
    assert_eq!(
        decryption_failure(&key_file(CBC_HEADER, WRAPPED_KEY, "AAAAAAAAAAAAAAAAAAAAA")),
        "invalid JWE format: initialization vector too short"
    );
    assert_eq!(
        decryption_failure(&key_file("bm90IGpzb24", WRAPPED_KEY, IV)),
        "invalid JWE format: initialization vector too short"
    );
    // a full vector is handed on whatever the header names
    let cause = decryption_failure(&key_file(CBC_HEADER, WRAPPED_KEY, "AAAAAAAAAAAAAAAAAAAAAA"));
    assert!(!cause.starts_with("invalid JWE format: initialization vector"));
    // and a short one for AES-GCM
    let cause = decryption_failure(&key_file(GCM_HEADER, WRAPPED_KEY, "AA"));
    assert!(!cause.starts_with("invalid JWE format: initialization vector"));
}

#[test]
fn a_format_fault_is_found_from_the_claim() {
    let gcm = Some(String::from("A256GCM"));
    let cbc = Some(String::from("A128CBC-HS256"));
    let jwe = key_file(GCM_HEADER, WRAPPED_KEY, IV);
    assert_eq!(find_format_fault(&jwe, &gcm), None);
    assert_eq!(find_format_fault(&jwe, &Some(String::from("A128GCM"))), None);
    assert_eq!(find_format_fault(&jwe, &Some(String::from("A192GCM"))), None);
    assert_eq!(
        find_format_fault(&jwe, &cbc),
        Some(String::from("invalid JWE format: initialization vector too short"))
    );
    assert_eq!(
        find_format_fault(&jwe, &None),
        Some(String::from("invalid JWE format: initialization vector too short"))
    );
    assert_eq!(
        find_format_fault("a.b.c.d", &gcm),
        Some(String::from("invalid JWE format: expected 5 parts"))
    );
    assert!(is_gcm_claim(&gcm));
    assert!(!is_gcm_claim(&cbc));
    assert!(!is_gcm_claim(&Some(String::from("a256gcm"))));
    assert!(!is_gcm_claim(&None));
}

#[test]
fn the_parts_of_a_key_file_stand_between_dots() {
    assert_eq!(part_of("a.bc..d", 0), "a");
    assert_eq!(part_of("a.bc..d", 1), "bc");
    assert_eq!(part_of("a.bc..d", 2), "");
    assert_eq!(part_of("a.bc..d", 3), "d");
    assert_eq!(part_of("a.bc..d", 4), "");
    assert_eq!(part_of("abc", 0), "abc");
    assert_eq!(part_of("abc", 1), "");
    assert_eq!(part_of("", 0), "");
    assert_eq!(part_of(".", 0), "");
    assert_eq!(part_of(".x", 1), "x");
}

#[test]
fn a_key_file_that_was_not_read_gives_key_not_found() {
    let keyring = FileKeyring::open("/k", Backend::Test).unwrap();
    match keyring.key_file_payload("bob", None) {
        Err(KeyringError::KeyNotFound(name)) => assert_eq!(name, "bob"),
        other => panic!("unexpected outcome: {:?}", other),
    }
    let jwe = key_file(GCM_HEADER, WRAPPED_KEY, IV);
    assert_eq!(
        keyring.key_file_payload("alice", Some(jwe)).unwrap(),
        PAYLOAD.as_bytes()
    );
    match keyring.key_file_payload("alice", Some(String::from("not.enough.parts"))) {
        Err(KeyringError::DecryptionFailed(cause)) => {
            assert_eq!(cause, "invalid JWE format: expected 5 parts");
        }
        other => panic!("unexpected outcome: {:?}", other),
    }
}

#[test]
fn a_decryption_outcome_is_mapped() {
    assert_eq!(decryption_result(Ok(vec![1, 2])).unwrap(), vec![1, 2]);
    match decryption_result(Err(String::from("bad tag"))) {
        Err(KeyringError::DecryptionFailed(cause)) => assert_eq!(cause, "bad tag"),
        other => panic!("unexpected outcome: {:?}", other),
    }
}

#[test]
fn an_address_is_derived_from_a_public_key() {
    let mut public_key = vec![0x02u8];
    public_key.extend_from_slice(&[0x11u8; 32]);
    assert_eq!(
        derive_address(&public_key, "celestia").unwrap(),
        "celestia14h7w2n6jnvs4fc7rvxa78a75rkcxx4ch62l64p"
    );
    assert!(derive_address(&public_key, "cosmos")
        .unwrap()
        .starts_with("cosmos1"));
}

#[test]
fn an_invalid_prefix_gives_an_address_error() {
    assert!(matches!(
        derive_address(&[1, 2, 3], ""),
        Err(KeyringError::AddressError(_))
    ));
    assert!(matches!(
        derive_address(&[1, 2, 3], "has space"),
        Err(KeyringError::AddressError(_))
    ));
}

#[test]
fn the_private_key_is_written_in_hexadecimal() {
    let key = LocalKey {
        record: KeyRecord {
            name: String::from("alice"),
            address: String::from("celestia1"),
            public_key: vec![],
        },
        private_key: vec![0x00, 0x0f, 0xa0, 0xff, 0x5b],
    };
    assert_eq!(key.private_key_hex(), "000fa0ff5b");
}

#[test]
fn record_data_is_base64() {
    assert_eq!(record_bytes("aGVsbG8=").unwrap(), b"hello");
    assert_eq!(record_bytes("").unwrap(), b"");
    match record_bytes("not base64!") {
        Err(KeyringError::ProtobufError(cause)) => {
            assert!(cause.starts_with("invalid base64: "));
            assert!(cause.len() > "invalid base64: ".len());
        }
        other => panic!("unexpected outcome: {:?}", other),
    }
}

#[test]
fn decoding_errors_have_their_texts() {
    assert_eq!(
        invalid_json_wrapper("expected value").message(),
        "invalid protobuf: invalid JSON wrapper: expected value"
    );
    assert_eq!(
        invalid_protobuf("buffer underflow").message(),
        "invalid protobuf: buffer underflow"
    );
    assert_eq!(
        FileKeyring::key_not_found("bob").message(),
        "key not found: bob"
    );
}

#[test]
fn the_key_bytes_are_taken_from_a_record() {
    let record = full_record();
    assert_eq!(public_key_bytes(&record).unwrap(), &vec![1, 2, 3]);
    assert_eq!(private_key_bytes("alice", &record).unwrap(), &vec![4, 5, 6]);
}

#[test]
fn a_record_without_its_parts_is_refused() {
    let mut record = full_record();
    record.pub_key = None;
    assert!(matches!(
        public_key_bytes(&record),
        Err(KeyringError::MissingPublicKey)
    ));
    record.local = Some(LocalInfo { priv_key: None });
    assert!(matches!(
        private_key_bytes("alice", &record),
        Err(KeyringError::MissingPrivateKey)
    ));
    record.local = None;
    match private_key_bytes("alice", &record) {
        Err(KeyringError::NotLocalKey(name)) => assert_eq!(name, "alice"),
        other => panic!("unexpected outcome: {:?}", other),
    }
}

#[test]
fn a_key_of_another_type_is_refused() {
    let mut record = full_record();
    record.local = Some(LocalInfo {
        priv_key: Some(Any {
            type_url: String::from("/cosmos.crypto.ed25519.PrivKey"),
            value: vec![9],
        }),
    });
    match private_key_bytes("alice", &record) {
        Err(KeyringError::UnsupportedKeyType(kind)) => {
            assert_eq!(kind, "/cosmos.crypto.ed25519.PrivKey");
        }
        other => panic!("unexpected outcome: {:?}", other),
    }
}

#[test]
fn a_key_is_put_together() {
    let mut public_key = vec![0x02u8];
    public_key.extend_from_slice(&[0x11u8; 32]);
    let key = LocalKey::assemble(
        String::from("alice"),
        Secp256k1PubKey { key: public_key.clone() },
        Secp256k1PrivKey { key: vec![7, 8] },
    )
    .unwrap();
    assert_eq!(key.record.name, "alice");
    assert_eq!(
        key.record.address,
        "celestia14h7w2n6jnvs4fc7rvxa78a75rkcxx4ch62l64p"
    );
    assert_eq!(key.record.public_key, public_key);
    assert_eq!(key.private_key, vec![7, 8]);
    let record = FileKeyring::key(key);
    assert_eq!(record.name, "alice");
}

#[test]
fn a_key_is_read_from_its_decoded_record() {
    let keyring = FileKeyring::open("/k", Backend::Test).unwrap();
    let mut public_key = vec![0x02u8];
    public_key.extend_from_slice(&[0x11u8; 32]);
    let key = keyring
        .local_key(
            "alice",
            full_record(),
            Ok(Secp256k1PubKey { key: public_key.clone() }),
            Ok(Secp256k1PrivKey { key: vec![7, 8] }),
        )
        .unwrap();
    assert_eq!(key.record.name, "alice");
    assert_eq!(
        key.record.address,
        "celestia14h7w2n6jnvs4fc7rvxa78a75rkcxx4ch62l64p"
    );
    assert_eq!(key.record.public_key, public_key);
    assert_eq!(key.private_key_hex(), "0708");
}

#[test]
fn the_first_fault_of_a_record_gives_the_error() {
    let keyring = FileKeyring::open("/k", Backend::Test).unwrap();
    let good_pub = || Ok(Secp256k1PubKey { key: vec![2; 33] });
    let good_priv = || Ok(Secp256k1PrivKey { key: vec![7; 32] });
    let bad_pub = |cause: &str| Err::<Secp256k1PubKey, String>(String::from(cause));
    let bad = |cause: &str| Err::<Secp256k1PrivKey, String>(String::from(cause));

    let mut record = full_record();
    record.pub_key = None;
    record.local = None;
    assert!(matches!(
        keyring.local_key("alice", record, bad_pub("p"), bad("s")),
        Err(KeyringError::MissingPublicKey)
    ));

    let mut record = full_record();
    record.local = None;
    match keyring.local_key("alice", record, bad_pub("bad public part"), bad("s")) {
        Err(KeyringError::ProtobufError(cause)) => assert_eq!(cause, "bad public part"),
        other => panic!("unexpected outcome: {:?}", other),
    }

    let mut record = full_record();
    record.local = None;
    match keyring.local_key("alice", record, good_pub(), bad("s")) {
        Err(KeyringError::NotLocalKey(name)) => assert_eq!(name, "alice"),
        other => panic!("unexpected outcome: {:?}", other),
    }

    let mut record = full_record();
    record.local = Some(LocalInfo { priv_key: None });
    assert!(matches!(
        keyring.local_key("alice", record, good_pub(), bad("s")),
        Err(KeyringError::MissingPrivateKey)
    ));

    let mut record = full_record();
    record.local = Some(LocalInfo {
        priv_key: Some(Any { type_url: String::from("/ed25519"), value: vec![] }),
    });
    match keyring.local_key("alice", record, good_pub(), bad("s")) {
        Err(KeyringError::UnsupportedKeyType(kind)) => assert_eq!(kind, "/ed25519"),
        other => panic!("unexpected outcome: {:?}", other),
    }

    match keyring.local_key("alice", full_record(), good_pub(), bad("bad private part")) {
        Err(KeyringError::ProtobufError(cause)) => assert_eq!(cause, "bad private part"),
        other => panic!("unexpected outcome: {:?}", other),
    }

    assert!(keyring
        .local_key("alice", full_record(), good_pub(), good_priv())
        .is_ok());
}

#[test]
fn paths_are_joined_with_a_slash() {
    assert_eq!(join_path("/home/u", "foo"), "/home/u/foo");
    assert_eq!(join_path("/home/u/", "foo"), "/home/u/foo");
    assert_eq!(join_path("/home/u", "/etc"), "/etc");
    assert_eq!(join_path("", "foo"), "foo");
    assert_eq!(join_path("/home/u", ""), "/home/u/");
    for (base, rest) in [("/home/u", "foo"), ("/home/u/", "a/b"), ("/x", "/etc"), ("", "foo")] {
        assert_eq!(
            PathBuf::from(join_path(base, rest)),
            Path::new(base).join(rest)
        );
    }
}

#[test]
fn a_tilde_stands_for_the_home_directory() {
    let home = Some(String::from("/home/u"));
    assert_eq!(expand_tilde_in("~/foo", home.clone()).unwrap(), "/home/u/foo");
    assert_eq!(expand_tilde_in("~", home.clone()).unwrap(), "/home/u");
    assert_eq!(expand_tilde_in("~foo", home.clone()).unwrap(), "~foo");
    assert_eq!(expand_tilde_in("/abs/~/x", home.clone()).unwrap(), "/abs/~/x");
    assert_eq!(expand_tilde_in("", home).unwrap(), "");
    assert!(matches!(
        expand_tilde_in("~/foo", None),
        Err(KeyringError::HomeDirNotFound)
    ));
    assert!(matches!(
        expand_tilde_in("~", None),
        Err(KeyringError::HomeDirNotFound)
    ));
    assert_eq!(expand_tilde_in("/abs", None).unwrap(), "/abs");
}

#[test]
fn a_keyring_lies_below_its_base_directory() {
    let keyring = FileKeyring::open("/data/app", Backend::Test).unwrap();
    assert_eq!(keyring.dir(), "/data/app/keyring-test");
    assert_eq!(keyring.password(), "test");
    assert!(matches!(keyring.backend(), Backend::Test));
    assert_eq!(keyring.info_path("alice"), "/data/app/keyring-test/alice.info");
    let keyring = FileKeyring::open_in("~/.celestia-app", Some(String::from("/home/u")), Backend::Test)
        .unwrap();
    assert_eq!(keyring.dir(), "/home/u/.celestia-app/keyring-test");
    assert!(matches!(
        FileKeyring::open_in("~/.celestia-app", None, Backend::Test),
        Err(KeyringError::HomeDirNotFound)
    ));
    let at = FileKeyring::at("/base", Backend::Test);
    assert_eq!(at.dir(), "/base/keyring-test");
}

#[test]
fn the_default_keyring_lies_in_the_home_directory() {
    let home = dirs::home_dir().unwrap();
    let keyring = FileKeyring::open_default(Backend::Test).unwrap();
    assert_eq!(
        PathBuf::from(keyring.dir()),
        home.join(".celestia-app").join("keyring-test")
    );
}

#[test]
fn a_keyring_that_is_not_on_disk_is_refused() {
    let keyring = FileKeyring::open("/data/app", Backend::Test).unwrap();
    match keyring.found(false) {
        Err(KeyringError::DirectoryNotFound(dir)) => assert_eq!(dir, "/data/app/keyring-test"),
        other => panic!("unexpected outcome: {:?}", other),
    }
    let keyring = FileKeyring::open("/data/app", Backend::Test).unwrap();
    assert_eq!(keyring.found(true).unwrap().dir(), "/data/app/keyring-test");
}

#[test]
fn key_files_end_in_info() {
    assert_eq!(key_name_of("alice.info"), Some("alice"));
    assert_eq!(key_name_of("a.b.info"), Some("a.b"));
    assert_eq!(key_name_of("..info"), Some("."));
    assert_eq!(key_name_of(".info"), None);
    assert_eq!(key_name_of("info"), None);
    assert_eq!(key_name_of("alice.address"), None);
    assert_eq!(key_name_of("alice.info.bak"), None);
    assert_eq!(key_name_of(""), None);
    assert_eq!(key_file_name("alice"), "alice.info");
    for name in ["alice.info", "a.b.info", "..info", ".info", "info", "x.address"] {
        let path = Path::new(name);
        let expected = if path.extension().is_some_and(|e| e == "info") {
            path.file_stem().map(|stem| stem.to_string_lossy().to_string())
        } else {
            None
        };
        assert_eq!(key_name_of(name).map(|stem| stem.to_string()), expected);
    }
}

#[test]
fn keys_are_listed_in_order() {
    let files = strings(&[
        "zoe.info",
        "6a1f.address",
        "bob.info",
        "alice.info",
        "notes.txt",
        "Bob.info",
        ".info",
    ]);
    assert_eq!(key_names(&files), strings(&["Bob", "alice", "bob", "zoe"]));
    let keyring = FileKeyring::open("/k", Backend::Test).unwrap();
    assert_eq!(keyring.list(&files), strings(&["Bob", "alice", "bob", "zoe"]));
    assert_eq!(keyring.first_key(&files).unwrap(), "Bob");
    assert!(matches!(
        keyring.first_key(&strings(&["a.address"])),
        Err(KeyringError::NoKeysFound)
    ));
    assert!(matches!(
        keyring.first_key(&Vec::new()),
        Err(KeyringError::NoKeysFound)
    ));
}

#[test]
fn keyring_errors_have_their_texts() {
    assert_eq!(
        KeyringError::DirectoryNotFound(String::from("/k")).message(),
        "keyring directory not found: /k"
    );
    assert_eq!(KeyringError::KeyNotFound(String::from("a")).message(), "key not found: a");
    assert_eq!(
        KeyringError::AddressNotFound(String::from("a")).message(),
        "address not found: a"
    );
    assert_eq!(KeyringError::NoKeysFound.message(), "no keys in keyring");
    assert_eq!(
        KeyringError::NotLocalKey(String::from("a")).message(),
        "key 'a' is not a local key (ledger/multi/offline)"
    );
    assert_eq!(
        KeyringError::MissingPrivateKey.message(),
        "private key missing in record"
    );
    assert_eq!(
        KeyringError::MissingPublicKey.message(),
        "public key missing in record"
    );
    assert_eq!(
        KeyringError::UnsupportedKeyType(String::from("t")).message(),
        "unsupported key type: t"
    );
    assert_eq!(
        KeyringError::DecryptionFailed(String::from("c")).message(),
        "decryption failed: c"
    );
    assert_eq!(
        KeyringError::ProtobufError(String::from("c")).message(),
        "invalid protobuf: c"
    );
    assert_eq!(
        KeyringError::AddressError(String::from("c")).message(),
        "address derivation failed: c"
    );
    assert_eq!(KeyringError::HomeDirNotFound.message(), "home directory not found");
    assert_eq!(KeyringError::IoError(String::from("c")).message(), "IO error: c");
}
