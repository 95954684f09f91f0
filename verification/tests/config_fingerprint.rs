use opencodeserver::config::{ConfigFile, ValidatedConfig};
use opencodeserver::config_fingerprint::{
    canonical_config, decode_hex, decode_nibble, encode_hex, ConfigFingerprintKey, KeyLink,
    KeyPlan,
};
use opencodeserver::failure::{Failure, FailureKind};
use opencodeserver::private_file::FileFacts;

fn key() -> ConfigFingerprintKey {
    ConfigFingerprintKey::from_bytes([0x5a; 32])
}

fn validated(config: ConfigFile) -> ValidatedConfig {
    let configured_executable = if config.executable_path.is_empty() {
        "/opt/homebrew/bin/opencode".to_owned()
    } else {
        config.executable_path.clone()
    };
    let effective_username = if config.username.is_empty() {
        "opencode".to_owned()
    } else {
        config.username.clone()
    };
    ValidatedConfig {
        source: config,
        configured_executable: configured_executable.clone(),
        canonical_executable: configured_executable,
        effective_username,
    }
}

fn key_file() -> FileFacts {
    FileFacts {
        is_symlink: false,
        is_file: true,
        len: 32,
        uid: 501,
        mode: 0o100600,
        device: 1,
        inode: 7,
    }
}

#[test]
fn normalizes_effective_username_and_executable() {
    let implicit = validated(ConfigFile::default());
    let explicit = validated(ConfigFile {
        username: "opencode".to_owned(),
        executable_path: "/opt/homebrew/bin/opencode".to_owned(),
        ..ConfigFile::default()
    });
    assert!(key().fingerprint(&implicit) == key().fingerprint(&explicit));
}

#[test]
fn detects_semantic_changes_even_when_length_is_unchanged() {
    let first = validated(ConfigFile {
        hostname: "127.0.0.1".to_owned(),
        ..ConfigFile::default()
    });
    let second = validated(ConfigFile {
        hostname: "127.0.0.2".to_owned(),
        ..ConfigFile::default()
    });
    assert!(key().fingerprint(&first) != key().fingerprint(&second));
}

#[test]
fn fingerprint_verification_is_versioned_and_password_is_not_serialized() {
    let secret = "unit-test-password-that-must-not-appear";
    let config = validated(ConfigFile {
        password: secret.to_owned(),
        ..ConfigFile::default()
    });
    let fingerprint = key().fingerprint(&config);
    assert!(key().verifies(&fingerprint, &config));
    assert!(!fingerprint.debug_text().contains(secret));
    assert!(!fingerprint.hmac_sha256.contains(secret));

    let mut unsupported = fingerprint;
    unsupported.version += 1;
    assert!(!key().verifies(&unsupported, &config));
}

#[test]
fn fingerprints_have_their_known_value() {
    let config = validated(ConfigFile::default());
    assert_eq!(canonical_config(&config).len(), 122);
    let fingerprint = key().fingerprint(&config);
    assert_eq!(fingerprint.version, 1);
    assert_eq!(
        fingerprint.hmac_sha256,
        "5ef2c684406a559ef7193a48cd0f8f773d85bf63ce168ae544cb1e560f438c31"
    );
}

#[test]
fn damaged_fingerprints_do_not_verify() {
    let config = validated(ConfigFile::default());
    let mut flipped = key().fingerprint(&config);
    flipped.hmac_sha256.replace_range(0..1, "6");
    assert!(!key().verifies(&flipped, &config));
    let mut short = key().fingerprint(&config);
    short.hmac_sha256.truncate(62);
    assert!(!key().verifies(&short, &config));
}

#[test]
fn generated_key_is_private_and_persistent() {
    let first = ConfigFingerprintKey::generate().ok().expect("create key");
    let second = ConfigFingerprintKey::load(
        &key_file(),
        &key_file(),
        &first.to_bytes().to_vec(),
        501,
    )
    .ok()
    .expect("reload key");
    let config = validated(ConfigFile::default());
    assert!(first.fingerprint(&config) == second.fingerprint(&config));

    let mut shared = key_file();
    shared.mode = 0o100640;
    assert!(ConfigFingerprintKey::load(&shared, &shared, &first.to_bytes().to_vec(), 501).is_err());
    assert!(ConfigFingerprintKey::load(&key_file(), &key_file(), &vec![1, 2, 3], 501).is_err());
}

#[test]
fn generated_keys_differ() {
    let first = ConfigFingerprintKey::generate().ok().expect("first key");
    let second = ConfigFingerprintKey::generate().ok().expect("second key");
    assert!(first.to_bytes() != second.to_bytes());
}

#[test]
fn a_key_is_created_only_where_none_exists() {
    let absent = Err(Failure::new(FailureKind::NotFound, "no such file"));
    assert!(matches!(ConfigFingerprintKey::load_or_create(absent), KeyPlan::Create));
    let unreadable = Err(Failure::new(FailureKind::PermissionDenied, "denied"));
    assert!(matches!(ConfigFingerprintKey::load_or_create(unreadable), KeyPlan::Fail(_)));
    assert!(matches!(ConfigFingerprintKey::load_or_create(Ok(key())), KeyPlan::Ready(_)));
}

#[test]
fn failed_random_bytes_make_no_key() {
    assert!(ConfigFingerprintKey::from_random(Err("no entropy".to_owned())).is_err());
    assert!(ConfigFingerprintKey::from_random(Ok(vec![0; 32])).is_ok());
}

#[test]
fn hex_digits_round_trip() {
    assert_eq!(encode_hex(&[0, 15, 16, 255]), "000f10ff");
    assert_eq!(decode_hex("000f10ff", 4), Some(vec![0, 15, 16, 255]));
    assert_eq!(decode_hex("000f10ff", 3), None);
    assert_eq!(decode_hex("zz", 1), None);
    assert_eq!(decode_nibble(b'f'), Some(15));
    assert_eq!(decode_nibble(b'g'), None);
}

#[test]
fn a_fresh_key_never_replaces_one_that_is_there() {
    let taken = || Failure::new(FailureKind::AlreadyExists, "taken");
    assert!(matches!(
        ConfigFingerprintKey::create(key(), Ok(()), Ok(())),
        KeyLink::Ready(_)
    ));
    assert!(matches!(
        ConfigFingerprintKey::create(key(), Ok(()), Err(taken())),
        KeyLink::LoadExisting
    ));
    assert!(matches!(
        ConfigFingerprintKey::create(key(), Err(taken()), Ok(())),
        KeyLink::Fail(_)
    ));
    assert!(matches!(
        ConfigFingerprintKey::create(key(), Ok(()), Err(Failure::other("read only"))),
        KeyLink::Fail(_)
    ));
}

#[test]
fn a_created_key_is_read_back_and_nothing_is_written() {
    let absent = Err(Failure::new(FailureKind::NotFound, "no such file"));
    assert!(matches!(ConfigFingerprintKey::load_or_create(absent), KeyPlan::Create));
    let fresh = ConfigFingerprintKey::generate().ok().expect("fresh key");
    let stored = fresh.to_bytes().to_vec();
    let first = match ConfigFingerprintKey::create(fresh, Ok(()), Ok(())) {
        KeyLink::Ready(key) => key,
        _ => panic!("the key is in place"),
    };
    let loaded = ConfigFingerprintKey::load(&key_file(), &key_file(), &stored, 501);
    let second = match ConfigFingerprintKey::load_or_create(loaded) {
        KeyPlan::Ready(key) => key,
        _ => panic!("the key is there"),
    };
    let config = validated(ConfigFile::default());
    assert!(first.fingerprint(&config) == second.fingerprint(&config));
}

#[test]
fn a_key_file_that_was_cut_off_is_no_key() {
    let short = ConfigFingerprintKey::load(&key_file(), &key_file(), &vec![1, 2, 3], 501);
    assert_eq!(
        short.err(),
        Some(Failure::other("failed to fill whole buffer"))
    );
    let long = ConfigFingerprintKey::load(&key_file(), &key_file(), &vec![7; 33], 501);
    assert_eq!(
        long.err(),
        Some(Failure::new(
            FailureKind::InvalidData,
            "configuration fingerprint key has an invalid length"
        ))
    );
}
