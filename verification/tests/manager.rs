use ed25519_dalek::{Signer, SigningKey};
use kinnector_config::header::encode_database;
use kinnector_config::manager::kinnector_config_t;
use kinnector_config::{
    Category, ConfigError, ConfigManager, ExternalLists, FlaggedPath, RulesPayload, SignerEntry,
    SignerInfo,
};

fn s(x: &str) -> String {
    x.to_string()
}

fn rules_with_exclusion(prefix: &str) -> RulesPayload {
    RulesPayload {
        exclusions: vec![Some(s(prefix))],
        trusted_signers: vec![],
        trusted_clis: vec![],
        network_cdns: vec![],
        sensitive_files: vec![],
    }
}

fn signed_file(key: &SigningKey, version: u32, epoch: u64, payload: &[u8]) -> Vec<u8> {
    let signature = key.sign(payload);
    let mut buffer = Vec::new();
    buffer.extend_from_slice(&signature.to_bytes());
    buffer.extend_from_slice(&version.to_le_bytes());
    buffer.extend_from_slice(&epoch.to_le_bytes());
    buffer.extend_from_slice(&(payload.len() as u32).to_le_bytes());
    buffer.extend_from_slice(payload);
    buffer
}

/// A FlatBuffers `RulesDatabase` holding version 42, epoch 1625097600,
/// metadata ("linux", "1.0.0") and the exclusion "/tmp/exclude".
fn flatbuffers_rules_payload() -> Vec<u8> {
    let mut builder = flatbuffers::FlatBufferBuilder::new();
    let platform = builder.create_string("linux");
    let baseline_version = builder.create_string("1.0.0");
    let start = builder.start_table();
    builder.push_slot_always(6, baseline_version);
    builder.push_slot_always(4, platform);
    let metadata = builder.end_table(start);
    let prefix = builder.create_string("/tmp/exclude");
    let start = builder.start_table();
    builder.push_slot_always(4, prefix);
    let exclusion = builder.end_table(start);
    let exclusions = builder.create_vector(&[exclusion]);
    let start = builder.start_table();
    builder.push_slot::<u64>(6, 1625097600, 0);
    builder.push_slot_always(10, exclusions);
    builder.push_slot_always(8, metadata);
    builder.push_slot::<u32>(4, 42, 0);
    let db = builder.end_table(start);
    builder.finish(db, None);
    builder.finished_data().to_vec()
}

#[test]
fn test_rules_loading_and_matching() {
    let built = flatbuffers_rules_payload();
    let payload: &[u8] = &built;
    let signing_key = SigningKey::from_bytes(&[0u8; 32]);
    let buffer = signed_file(&signing_key, 42, 1625097600, payload);
    let pub_key = signing_key.verifying_key().to_bytes();
    let decode = |bytes: &[u8]| {
        assert_eq!(bytes, payload);
        Some(rules_with_exclusion("/tmp/exclude"))
    };
    let manager =
        ConfigManager::load("configs_test.db", &pub_key, &buffer, decode, &ExternalLists::empty())
            .unwrap();
    assert_eq!(manager.version(), 42);
    assert_eq!(manager.epoch_timestamp(), 1625097600);
    assert!(manager.is_path_excluded("/tmp/exclude/some_subpath"));
    assert!(!manager.is_path_excluded("/tmp/other"));
}

#[test]
fn library_framing_matches_manual_framing() {
    let key = SigningKey::from_bytes(&[7u8; 32]);
    let payload = b"abc";
    let manual = signed_file(&key, 3, 0x0102030405060708, payload);
    let signature = key.sign(payload).to_bytes();
    assert_eq!(encode_database(&signature, 3, 0x0102030405060708, payload), manual);
}

#[test]
fn reload_rejects_small_truncated_and_forged_files() {
    let key = SigningKey::from_bytes(&[1u8; 32]);
    let pk = key.verifying_key().to_bytes();
    let mut manager = ConfigManager::new("db", &pk);
    let decode = |_: &[u8]| Some(rules_with_exclusion("/x"));
    let ext = ExternalLists::empty();

    assert_eq!(manager.reload_from_bytes(&[0u8; 79], decode, &ext), Err(ConfigError::FileTooSmall));

    let mut truncated = signed_file(&key, 1, 1, b"0123456789");
    truncated.pop();
    assert_eq!(
        manager.reload_from_bytes(&truncated, decode, &ext),
        Err(ConfigError::PayloadTruncated)
    );

    let mut forged = signed_file(&key, 1, 1, b"0123456789");
    let last = forged.len() - 1;
    forged[last] ^= 1;
    assert_eq!(
        manager.reload_from_bytes(&forged, decode, &ext),
        Err(ConfigError::InvalidSignature)
    );

    let other = SigningKey::from_bytes(&[2u8; 32]);
    let wrong_signer = signed_file(&other, 1, 1, b"0123456789");
    assert_eq!(
        manager.reload_from_bytes(&wrong_signer, decode, &ext),
        Err(ConfigError::InvalidSignature)
    );
    assert_eq!(manager.version(), 0);
    assert!(!manager.is_path_excluded("/x/y"));
}

#[test]
fn reload_with_invalid_public_key_is_refused() {
    let key = SigningKey::from_bytes(&[1u8; 32]);
    let file = signed_file(&key, 1, 1, b"payload");
    // The y coordinate 2 is not on the curve.
    let mut bad_key = [0u8; 32];
    bad_key[0] = 2;
    let mut manager = ConfigManager::new("db", &bad_key);
    let r = manager.reload_from_bytes(&file, |_: &[u8]| Some(rules_with_exclusion("/x")), &ExternalLists::empty());
    assert_eq!(r, Err(ConfigError::InvalidSignature));
}

#[test]
fn failed_reload_keeps_previous_tables() {
    let key = SigningKey::from_bytes(&[3u8; 32]);
    let pk = key.verifying_key().to_bytes();
    let ext = ExternalLists::empty();
    let good = signed_file(&key, 5, 50, b"first");
    let mut manager =
        ConfigManager::load("db", &pk, &good, |_: &[u8]| Some(rules_with_exclusion("/first")), &ext)
            .unwrap();
    assert_eq!(manager.version(), 5);

    let second = signed_file(&key, 6, 60, b"second");
    assert_eq!(
        manager.reload_from_bytes(&second, |_: &[u8]| None, &ext),
        Err(ConfigError::InvalidPayload)
    );
    assert_eq!(manager.version(), 5);
    assert_eq!(manager.epoch_timestamp(), 50);
    assert!(manager.is_path_excluded("/first/file"));

    assert_eq!(
        manager.reload_from_bytes(&second, |_: &[u8]| Some(rules_with_exclusion("/second")), &ext),
        Ok(())
    );
    assert_eq!(manager.version(), 6);
    assert!(!manager.is_path_excluded("/first/file"));
    assert!(manager.is_path_excluded("/SECOND\\file"));
}

fn full_rules() -> RulesPayload {
    RulesPayload {
        exclusions: vec![Some(s("C:\\Build\\")), None, Some(s("/tmp/exclude"))],
        trusted_signers: vec![
            SignerEntry { signer_name: Some(s("Google LLC")), team_id: Some(s("EQHXZ8M8AV")) },
            SignerEntry { signer_name: Some(s("Contoso")), team_id: None },
            SignerEntry { signer_name: None, team_id: Some(s("IGNORED")) },
        ],
        trusted_clis: vec![
            FlaggedPath { path: Some(s("/usr/bin/ssh")), category_flags: 0x01 },
            FlaggedPath { path: Some(s("/usr/bin/ssh")), category_flags: 0x10 },
            FlaggedPath { path: Some(s("/usr/sbin/nginx")), category_flags: 0x80 | 0x400 },
            FlaggedPath { path: Some(s("/usr/bin/node")), category_flags: 0x80 },
            FlaggedPath { path: None, category_flags: 0xffff },
        ],
        network_cdns: vec![Some(s("*.google.com")), Some(s("cdn.example.org")), None],
        sensitive_files: vec![
            FlaggedPath { path: Some(s("/etc/passwd")), category_flags: 0x10 },
            FlaggedPath { path: Some(s("/etc/cron.d")), category_flags: 0x200 },
        ],
    }
}

fn lists() -> ExternalLists {
    let mut e = ExternalLists::empty();
    e.network_cdns = vec![s("cdn.example.org"), s("*.akamai.net")];
    e.web_processes = vec![s("/usr/bin/node"), s("apache")];
    e.persistence_paths = vec![s("/etc/systemd/")];
    e.protected_binaries = vec![s("sshd")];
    e.interactive_shells = vec![s("bash"), s("zsh")];
    e.protected_application_directories =
        vec![(s("/opt/app"), s("app")), (s("/opt/app"), s("app2")), (s("/srv"), s("srv"))];
    e
}

fn loaded() -> ConfigManager {
    let key = SigningKey::from_bytes(&[9u8; 32]);
    let pk = key.verifying_key().to_bytes();
    let file = signed_file(&key, 7, 1234, b"rules");
    ConfigManager::load("/etc/kinnector/rules.db", &pk, &file, |_: &[u8]| Some(full_rules()), &lists())
        .unwrap()
}

#[test]
fn exclusions_ignore_case_and_slash_kind() {
    let m = loaded();
    assert!(m.is_path_excluded("c:/build/out.o"));
    assert!(m.is_path_excluded("C:\\BUILD\\x"));
    assert!(m.is_path_excluded("/TMP/Exclude"));
    assert!(!m.is_path_excluded("/tmp/exclud"));
    assert!(!m.is_path_excluded("d:/build/out.o"));
}

#[test]
fn excluded_paths_stay_excluded_when_extended() {
    let m = loaded();
    for base in ["/tmp/exclude", "C:\\Build\\"] {
        assert!(m.is_path_excluded(base));
        for tail in ["", "/a", "x.txt", "\\deep\\er"] {
            assert!(m.is_path_excluded(&format!("{}{}", base, tail)));
        }
        assert_eq!(m.is_path_excluded(&base.to_ascii_uppercase()), m.is_path_excluded(base));
        assert_eq!(m.is_path_excluded(&base.replace('/', "\\")), m.is_path_excluded(base));
    }
}

#[test]
fn vendors_must_be_signed_and_match_name_and_team() {
    let m = loaded();
    let mut signer = SignerInfo { signer_name: s("Google LLC"), team_id: Some(s("EQHXZ8M8AV")), is_signed: true };
    assert!(m.is_trusted_vendor(&signer));
    signer.is_signed = false;
    assert!(!m.is_trusted_vendor(&signer));
    signer.is_signed = true;
    signer.team_id = None;
    assert!(!m.is_trusted_vendor(&signer));
    let contoso = SignerInfo { signer_name: s("Contoso"), team_id: None, is_signed: true };
    assert!(m.is_trusted_vendor(&contoso));
    let contoso_team = SignerInfo { signer_name: s("Contoso"), team_id: Some(s("T")), is_signed: true };
    assert!(!m.is_trusted_vendor(&contoso_team));
    let unnamed = SignerInfo { signer_name: s(""), team_id: Some(s("IGNORED")), is_signed: true };
    assert!(!m.is_trusted_vendor(&unnamed));
}

#[test]
fn trusted_cli_uses_last_entry_and_category_bits() {
    let m = loaded();
    assert!(m.is_trusted_cli("/usr/bin/ssh", Category::SshKeys));
    assert!(!m.is_trusted_cli("/usr/bin/ssh", Category::BrowserDb));
    assert!(m.is_trusted_cli("/USR/BIN/SSH", Category::SshKeys));
    assert!(m.is_trusted_cli("\\usr\\bin\\ssh", Category::SshKeys));
    assert!(!m.is_trusted_cli("/usr/bin/scp", Category::SshKeys));
    assert!(m.is_trusted_cli("/usr/sbin/nginx", Category::ProtectedBinary));
}

#[test]
fn domains_follow_wildcard_and_exact_patterns() {
    let m = loaded();
    assert!(m.is_domain_allowed("google.com"));
    assert!(m.is_domain_allowed("mail.google.com"));
    assert!(!m.is_domain_allowed("evilgoogle.com"));
    assert!(m.is_domain_allowed("cdn.example.org"));
    assert!(!m.is_domain_allowed("x.cdn.example.org"));
    assert!(m.is_domain_allowed("a.b.akamai.net"));
    assert!(!m.is_domain_allowed("GOOGLE.COM"));
}

#[test]
fn lists_are_merged_without_duplicates() {
    let m = loaded();
    assert_eq!(m.web_processes(), vec![s("/usr/bin/node"), s("apache"), s("/usr/sbin/nginx")]);
    assert_eq!(m.persistence_paths(), vec![s("/etc/systemd/"), s("/etc/cron.d")]);
    assert_eq!(m.interactive_shells(), vec![s("bash"), s("zsh")]);
    assert!(m.terminal_rce_patterns().is_empty());
    let mut files = m.sensitive_files();
    files.sort();
    assert_eq!(files, vec![(s("/etc/cron.d"), 0x200), (s("/etc/passwd"), 0x10)]);
    let dirs: std::collections::HashMap<String, String> =
        m.protected_application_directories().into_iter().collect();
    assert_eq!(dirs.get("/opt/app"), Some(&s("app2")));
    assert_eq!(dirs.get("/srv"), Some(&s("srv")));
}

#[test]
fn web_persistence_and_protected_queries() {
    let m = loaded();
    assert!(m.is_web_process("/USR/BIN/NODE"));
    assert!(m.is_web_process("/usr/local/apache2/bin/httpd-apache"));
    assert!(!m.is_web_process("/usr/bin/python3"));
    assert!(m.is_persistence_path("/ETC/SYSTEMD/system/x.service"));
    assert!(m.is_persistence_path("/etc/cron.d/job"));
    assert!(!m.is_persistence_path("/etc/passwd"));
    assert!(m.is_protected_binary("/usr/sbin/sshd"));
    assert!(m.is_protected_binary("SSHD"));
    assert!(!m.is_protected_binary("/usr/sbin/xsshd"));
    assert!(m.is_protected_binary("/usr/sbin/nginx"));
    assert!(!m.is_protected_binary("C:\\usr\\sbin\\nginx"));
    assert!(m.is_protected_binary("C:\\Program Files\\SSHD"));
}

#[test]
fn defaults_hold_only_the_json_lists() {
    let m = ConfigManager::load_defaults(&lists());
    assert_eq!(m.version(), 0);
    assert_eq!(m.epoch_timestamp(), 0);
    assert_eq!(m.path().as_str(), "");
    assert_eq!(m.public_key(), [0u8; 32]);
    assert!(m.is_domain_allowed("cdn.example.org"));
    assert!(!m.is_domain_allowed("google.com"));
    assert!(!m.is_path_excluded("/tmp/exclude"));
    assert_eq!(m.web_processes(), vec![s("/usr/bin/node"), s("apache")]);
    assert!(m.sensitive_files().is_empty());
}

#[test]
fn c_handle_holds_the_manager() {
    let handle = kinnector_config_t::new(loaded());
    assert_eq!(handle.manager().version(), 7);
    assert!(handle.manager().is_domain_allowed("google.com"));
}

#[test]
fn tables_hold_one_pair_per_path() {
    let key = SigningKey::from_bytes(&[5u8; 32]);
    let pk = key.verifying_key().to_bytes();
    let file = signed_file(&key, 1, 1, b"rules");
    let mut rules = full_rules();
    rules.sensitive_files.push(FlaggedPath { path: Some(s("/etc/passwd")), category_flags: 0x04 });
    let manager =
        ConfigManager::load("rules.db", &pk, &file, |_: &[u8]| Some(rules.clone()), &lists()).unwrap();
    let mut files = manager.sensitive_files();
    files.sort();
    assert_eq!(files, vec![(s("/etc/cron.d"), 0x200), (s("/etc/passwd"), 0x04)]);
    let mut dirs = manager.protected_application_directories();
    dirs.sort();
    assert_eq!(dirs, vec![(s("/opt/app"), s("app2")), (s("/srv"), s("srv"))]);
}

#[test]
fn reload_ignores_trailing_bytes_and_header_times() {
    let key = SigningKey::from_bytes(&[3u8; 32]);
    let pk = key.verifying_key().to_bytes();
    let ext = lists();
    let decode = |bytes: &[u8]| {
        if bytes == b"rules" {
            Some(full_rules())
        } else {
            None
        }
    };
    let file = signed_file(&key, 7, 1234, b"rules");
    let mut longer = file.clone();
    longer.extend_from_slice(b"trailing bytes");
    let retimed = signed_file(&key, 9, 98765, b"rules");

    let mut a = ConfigManager::new("db", &pk);
    let mut b = ConfigManager::new("db", &pk);
    let mut c = ConfigManager::new("db", &pk);
    assert_eq!(a.reload_from_bytes(&file, decode, &ext), Ok(()));
    assert_eq!(b.reload_from_bytes(&longer, decode, &ext), Ok(()));
    assert_eq!(c.reload_from_bytes(&retimed, decode, &ext), Ok(()));
    for m in [&b, &c] {
        assert_eq!(m.is_path_excluded("/tmp/exclude/x"), a.is_path_excluded("/tmp/exclude/x"));
        assert_eq!(
            m.is_trusted_cli("/usr/bin/ssh", Category::SshKeys),
            a.is_trusted_cli("/usr/bin/ssh", Category::SshKeys)
        );
        assert_eq!(m.sensitive_files(), a.sensitive_files());
        assert_eq!(m.web_processes(), a.web_processes());
    }
    assert_eq!((b.version(), b.epoch_timestamp()), (7, 1234));
    assert_eq!((c.version(), c.epoch_timestamp()), (9, 98765));
}

#[test]
fn non_ascii_excluded_paths_stay_excluded_when_extended() {
    let key = SigningKey::from_bytes(&[4u8; 32]);
    let pk = key.verifying_key().to_bytes();
    let file = signed_file(&key, 1, 1, b"rules");
    let m = ConfigManager::load(
        "rules.db",
        &pk,
        &file,
        |_: &[u8]| Some(rules_with_exclusion("/Données/Élan")),
        &ExternalLists::empty(),
    )
    .unwrap();
    assert!(m.is_path_excluded("/données/élan"));
    assert!(m.is_path_excluded("/DONNÉES/ÉLAN/Ärger.txt"));
    assert!(m.is_path_excluded("\\Données\\Élan\\Ωmega"));
    assert!(!m.is_path_excluded("/Données/Ela"));
}
