use opencodeserver::config::{
    candidate_executables, check_config_entry, discover_executables, format_endpoint,
    health_hostname, is_arm64_macho_bytes, load_created, load_or_create, read_config, select_executable,
    validate, validate_hostname, validation_report, write_config_atomically, CandidateFacts,
    ConfigError, ConfigFile, ConfigWriteProgress, ConfigWriteStage, ExecutableFacts,
    ExecutableMetadata, ValidatedConfig, CPU_TYPE_ARM64,
};
use opencodeserver::failure::{Failure, FailureKind};
use opencodeserver::private_file::FileFacts;

fn arm64_header() -> Vec<u8> {
    let mut bytes = vec![0_u8; 32];
    bytes[0..4].copy_from_slice(&0xfeed_facf_u32.to_le_bytes());
    bytes[4..8].copy_from_slice(&CPU_TYPE_ARM64.to_le_bytes());
    bytes
}

fn usable(path: &str) -> ExecutableFacts {
    ExecutableFacts {
        canonical: Ok(path.to_owned()),
        metadata: Ok(ExecutableMetadata { is_file: true, mode: 0o755 }),
        header: Ok(arm64_header()),
    }
}

fn private(len: u64) -> FileFacts {
    FileFacts {
        is_symlink: false,
        is_file: true,
        len,
        uid: 501,
        mode: 0o100600,
        device: 1,
        inode: 7,
    }
}

#[test]
fn defaults_are_safe_and_stable() {
    let config = ConfigFile::default();
    assert_eq!(config.hostname, "127.0.0.1");
    assert_eq!(config.port, 4096);
    assert_eq!(config.username, "opencode");
    assert!(config.password.is_empty());
    assert!(!config.mdns);
}

#[test]
fn formats_ipv6_endpoint() {
    assert_eq!(format_endpoint("::1", 4096), "[::1]:4096");
    assert_eq!(format_endpoint("127.0.0.1", 4096), "127.0.0.1:4096");
}

#[test]
fn detects_thin_arm64_macho() {
    let mut bytes = vec![0_u8; 32];
    bytes[0..4].copy_from_slice(&0xfeed_facf_u32.to_le_bytes());
    bytes[4..8].copy_from_slice(&CPU_TYPE_ARM64.to_le_bytes());
    assert!(is_arm64_macho_bytes(&bytes).expect("parse"));
}

#[test]
fn rejects_script_header() {
    assert!(!is_arm64_macho_bytes(b"#!/bin/sh\n").expect("parse"));
}

#[test]
fn validates_hostnames() {
    assert!(validate_hostname("127.0.0.1").is_ok());
    assert!(validate_hostname("::1").is_ok());
    assert!(validate_hostname("mac-studio.local").is_ok());
    assert!(validate_hostname("bad host").is_err());
}

#[test]
fn bracketed_ipv6_hostname_is_stored_in_canonical_unbracketed_form() {
    let executable = "/opt/fixture/bin/opencode";
    let config = validate(
        ConfigFile {
            hostname: "[::1]".to_owned(),
            executable_path: executable.to_owned(),
            ..ConfigFile::default()
        },
        Some(executable.to_owned()),
        usable(executable),
    )
    .ok()
    .expect("bracketed IPv6 must validate");
    assert_eq!(config.source.hostname, "::1");
    assert_eq!(config.endpoint(), "[::1]:4096");

    let wildcard = validate(
        ConfigFile {
            hostname: "[::]".to_owned(),
            executable_path: executable.to_owned(),
            ..ConfigFile::default()
        },
        Some(executable.to_owned()),
        usable(executable),
    )
    .ok()
    .expect("bracketed IPv6 wildcard must validate");
    assert_eq!(wildcard.source.hostname, "::");
    assert_eq!(health_hostname(&wildcard.source.hostname), "::1");
}

#[test]
fn config_debug_formatting_never_renders_the_password() {
    let secret = "unit-test-password-that-must-not-appear";
    let config = ConfigFile {
        password: secret.to_owned(),
        ..ConfigFile::default()
    };
    let rendered = config.debug_text();
    assert!(!rendered.contains(secret));
    assert!(rendered.contains("<redacted>"));

    let validated = ValidatedConfig {
        source: config,
        configured_executable: "/opt/homebrew/bin/opencode".to_owned(),
        canonical_executable: "/opt/homebrew/bin/opencode".to_owned(),
        effective_username: "opencode".to_owned(),
    };
    let rendered = validated.debug_text();
    assert!(!rendered.contains(secret));
    assert!(rendered.contains("<redacted>"));
}

#[test]
fn debug_text_quotes_and_escapes() {
    let config = ConfigFile {
        username: "a\"b\n".to_owned(),
        ..ConfigFile::default()
    };
    assert!(config.debug_text().contains("username: \"a\\\"b\\n\""));
}

#[test]
fn legacy_password_key_is_rejected() {
    let result = read_config(
        &private(600),
        &private(600),
        600,
        Err("unknown field `Password`".to_owned()),
    );
    assert!(matches!(result, Err(ConfigError::Invalid(_))));
}

#[test]
fn unsafe_configuration_files_are_refused() {
    assert!(check_config_entry(&private(10), 501).is_ok());
    let mut linked = private(10);
    linked.is_symlink = true;
    assert!(check_config_entry(&linked, 501).is_err());
    let mut shared = private(10);
    shared.mode = 0o100644;
    assert!(check_config_entry(&shared, 501).is_err());
    assert!(check_config_entry(&private(10), 502).is_err());
    let mut swapped = private(10);
    swapped.inode = 8;
    assert!(read_config(&private(10), &swapped, 10, Ok(ConfigFile::default())).is_err());
    assert!(read_config(&private(10), &private(10), 10, Ok(ConfigFile::default())).is_ok());
    assert!(read_config(&private(10), &private(10), 64 * 1024 + 1, Ok(ConfigFile::default())).is_err());
}

#[test]
fn each_unusable_executable_is_reported() {
    let path = "/opt/fixture/bin/opencode";
    let missing = validate(ConfigFile::default(), None, usable(path));
    assert!(matches!(missing, Err(ConfigError::Invalid(_))));

    let mut script = usable(path);
    script.header = Ok(b"#!/bin/sh\n".to_vec());
    let refused = validate(ConfigFile::default(), Some(path.to_owned()), script);
    match refused {
        Err(ConfigError::Invalid(issues)) => {
            assert_eq!(
                issues,
                vec!["OpenCode executable must be a native Mach-O containing arm64 code".to_owned()]
            );
        }
        _ => panic!("a script must be refused"),
    }

    let mut plain = usable(path);
    plain.metadata = Ok(ExecutableMetadata { is_file: true, mode: 0o644 });
    assert!(validate(ConfigFile::default(), Some(path.to_owned()), plain).is_err());
}

#[test]
fn a_first_run_writes_the_defaults_once() {
    assert!(load_or_create(true).is_none());
    let written = load_or_create(false).expect("defaults");
    assert_eq!(written.debug_text(), ConfigFile::default().debug_text());
}

#[test]
fn an_explicit_executable_wins_over_discovery() {
    let discovered = vec!["/opt/homebrew/bin/opencode".to_owned()];
    assert_eq!(
        select_executable(&ConfigFile::default(), &discovered),
        Some("/opt/homebrew/bin/opencode".to_owned())
    );
    let explicit = ConfigFile {
        executable_path: "/usr/local/bin/opencode".to_owned(),
        ..ConfigFile::default()
    };
    assert_eq!(
        select_executable(&explicit, &discovered),
        Some("/usr/local/bin/opencode".to_owned())
    );
    assert_eq!(select_executable(&ConfigFile::default(), &Vec::new()), None);
}

#[test]
fn discovery_keeps_usable_candidates_only() {
    let candidates = candidate_executables(
        &Some("/Users/someone".to_owned()),
        &vec!["/usr/local/bin".to_owned()],
    );
    assert!(!candidates.is_empty());
    let facts: Vec<CandidateFacts> = candidates
        .iter()
        .enumerate()
        .map(|(index, _)| CandidateFacts {
            metadata: Some(ExecutableMetadata { is_file: true, mode: 0o755 }),
            arm64: Some(index == 0),
        })
        .collect();
    assert_eq!(discover_executables(&candidates, &facts), vec![candidates[0].clone()]);
}

#[test]
fn a_report_says_what_is_wrong() {
    let report = validation_report(
        Err(ConfigError::Invalid(vec!["first".to_owned(), "second".to_owned()])),
        vec!["/a".to_owned()],
    );
    assert!(!report.valid);
    assert_eq!(report.issues, vec!["first".to_owned(), "second".to_owned()]);
    assert_eq!(report.candidates, vec!["/a".to_owned()]);
    assert_eq!(
        ConfigError::Invalid(vec!["first".to_owned(), "second".to_owned()]).text(),
        "first; second"
    );
    let io = ConfigError::Io(opencodeserver::failure::Failure::new(
        FailureKind::NotFound,
        "no such file",
    ));
    assert_eq!(io.text(), "no such file");
}

#[test]
fn a_matching_configuration_is_accepted_as_it_is() {
    let path = "/opt/fixture/bin/opencode";
    let config = validate(
        ConfigFile { username: String::new(), ..ConfigFile::default() },
        Some(path.to_owned()),
        usable(path),
    )
    .ok()
    .expect("valid");
    assert_eq!(config.effective_username, "opencode");
    assert_eq!(config.configured_executable, path);
    assert!(!config.authentication_enabled());
}

#[test]
fn a_configuration_is_written_beside_and_renamed() {
    let mut stage = ConfigWriteStage::CreateParent;
    let mut stages = vec![stage];
    let finished = loop {
        match write_config_atomically(stage, Ok(())) {
            ConfigWriteProgress::Perform(next) => {
                stage = next;
                stages.push(stage);
            }
            finished => break finished,
        }
    };
    assert_eq!(
        stages,
        vec![
            ConfigWriteStage::CreateParent,
            ConfigWriteStage::RestrictParent,
            ConfigWriteStage::Encode,
            ConfigWriteStage::CreateTemporary,
            ConfigWriteStage::WriteTemporary,
            ConfigWriteStage::SyncTemporary,
            ConfigWriteStage::Rename,
            ConfigWriteStage::RestrictFile,
        ]
    );
    assert_eq!(
        finished,
        ConfigWriteProgress::Finished { outcome: Ok(()), remove_temporary: false }
    );
}

#[test]
fn a_failed_configuration_write_leaves_no_temporary() {
    let failed = |stage| write_config_atomically(stage, Err(Failure::other("full")));
    assert_eq!(
        failed(ConfigWriteStage::SyncTemporary),
        ConfigWriteProgress::Finished {
            outcome: Err(Failure::other("full")),
            remove_temporary: true
        }
    );
    assert_eq!(
        failed(ConfigWriteStage::CreateTemporary),
        ConfigWriteProgress::Finished {
            outcome: Err(Failure::other("full")),
            remove_temporary: false
        }
    );
}

#[test]
fn candidates_that_differ_in_spelling_are_listed_once() {
    let candidates = candidate_executables(
        &None,
        &vec![
            "/opt//homebrew/bin".to_owned(),
            "/usr/./local/bin/".to_owned(),
            "/usr/local/bin".to_owned(),
            "/srv/bin".to_owned(),
        ],
    );
    assert_eq!(candidates[0], "/opt/homebrew/bin/opencode");
    assert_eq!(
        candidates,
        vec![
            "/opt/homebrew/bin/opencode".to_owned(),
            "/usr/./local/bin/opencode".to_owned(),
            "/srv/bin/opencode".to_owned(),
        ]
    );
}

#[test]
fn configurations_are_equal_by_the_components_of_their_executables() {
    let plain = validated("/opt/fixture/bin/opencode");
    let doubled = validated("/opt//fixture/bin/./opencode");
    let other = validated("/opt/fixture/bin/other");
    assert!(plain == doubled);
    assert!(plain != other);
    let mut moved = validated("/opt/fixture/bin/opencode");
    moved.source.port = moved.source.port + 1;
    assert!(plain != moved);
}

fn validated(executable: &str) -> ValidatedConfig {
    ValidatedConfig {
        source: ConfigFile::default(),
        configured_executable: executable.to_owned(),
        canonical_executable: executable.to_owned(),
        effective_username: "opencode".to_owned(),
    }
}

#[test]
fn a_first_load_reports_the_failed_write_or_the_new_file() {
    let path = "/opt/fixture/bin/opencode";
    let full = Failure::new(FailureKind::Other, "disk full");
    let failed = load_created(
        Err(full.clone()),
        Ok(ConfigFile::default()),
        Some(path.to_owned()),
        usable(path),
    );
    assert_eq!(failed.err(), Some(ConfigError::Io(full)));

    let created = load_created(
        Ok(()),
        Ok(ConfigFile::default()),
        Some(path.to_owned()),
        usable(path),
    )
    .expect("the defaults are valid");
    assert!(created.source == ConfigFile::default());
    assert_eq!(created.canonical_executable, path);
    assert_eq!(created.effective_username, "opencode");

    let unreadable = ConfigError::Io(Failure::new(FailureKind::NotFound, "gone"));
    assert_eq!(
        load_created(Ok(()), Err(unreadable), None, usable("")).err(),
        Some(ConfigError::Io(Failure::new(FailureKind::NotFound, "gone")))
    );
}
