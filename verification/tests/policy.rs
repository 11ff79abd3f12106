use kinnector_config::category::parse_single_flag;
use kinnector_config::json::{
    list_from_document, load_list_from_json, load_map_from_json, map_from_document, JsonMember,
    JsonValue,
};
use kinnector_config::payload::present_strings;
use kinnector_config::policy::{
    combine_policies, resolve_flags, CategoryFlags, PolicyJson, SensitiveFileJson, TrustedCliJson,
};
use kinnector_config::sources::{
    external_sources, find_config_dir_candidates, select_config_dir, Platform,
};
use kinnector_config::text::normalize_path;
use kinnector_config::Category;

fn s(x: &str) -> String {
    x.to_string()
}

#[test]
fn flag_names_are_case_insensitive() {
    assert_eq!(parse_single_flag("SSH"), 0x10);
    assert_eq!(parse_single_flag("Browser_DB"), 0x01);
    assert_eq!(parse_single_flag("crypto"), 0x04);
    assert_eq!(parse_single_flag("app"), 0x08);
    assert_eq!(parse_single_flag("keystore"), 0x20);
    assert_eq!(parse_single_flag("agents"), 0x40);
    assert_eq!(parse_single_flag("web"), 0x80);
    assert_eq!(parse_single_flag("update"), 0x100);
    assert_eq!(parse_single_flag("Persistence"), 0x200);
    assert_eq!(parse_single_flag("protected_binary"), 0x400);
    assert_eq!(parse_single_flag("nonsense"), 0);
    assert_eq!(parse_single_flag(""), 0);
}

#[test]
fn flags_resolve_by_form() {
    assert_eq!(resolve_flags(None), 0);
    assert_eq!(resolve_flags(Some(&CategoryFlags::Number(0x1234))), 0x1234);
    assert_eq!(resolve_flags(Some(&CategoryFlags::Single(s("ssh")))), 0x10);
    assert_eq!(
        resolve_flags(Some(&CategoryFlags::List(vec![s("ssh"), s("WALLET"), s("bogus"), s("ssh")]))),
        0x14
    );
    assert_eq!(resolve_flags(Some(&CategoryFlags::List(vec![]))), 0);
}

#[test]
fn category_bits_and_client_flags() {
    assert_eq!(Category::SshKeys.flag(), 0x10);
    assert_eq!(Category::ProtectedBinary.flag(), 0x400);
    assert_eq!(Category::from_client_flag(0x10), Some(Category::SshKeys));
    assert_eq!(Category::from_client_flag(0x40), Some(Category::AiAgents));
    assert_eq!(Category::from_client_flag(0x80), None);
    assert_eq!(Category::from_client_flag(0x02), None);
}

#[test]
fn policies_combine_in_order() {
    let a = PolicyJson {
        version: 3,
        exclusions: Some(vec![s("/a")]),
        trusted_clis: Some(vec![TrustedCliJson {
            path: s("/usr/bin/ssh"),
            category: Some(CategoryFlags::Single(s("ssh"))),
            flags: Some(CategoryFlags::Number(1)),
        }]),
        sensitive_files: None,
        allowed_cdns: Some(vec![s("*.google.com")]),
    };
    let b = PolicyJson {
        version: 2,
        exclusions: Some(vec![s("/b"), s("/c")]),
        trusted_clis: Some(vec![TrustedCliJson {
            path: s("/usr/bin/gpg"),
            category: None,
            flags: Some(CategoryFlags::List(vec![s("wallet"), s("keystore")])),
        }]),
        sensitive_files: Some(vec![SensitiveFileJson {
            path: s("/etc/shadow"),
            category: None,
            flags: None,
        }]),
        allowed_cdns: None,
    };
    let c = combine_policies(&vec![a, b]);
    assert_eq!(c.version, 3);
    assert_eq!(c.rules.exclusions, vec![Some(s("/a")), Some(s("/b")), Some(s("/c"))]);
    assert_eq!(c.rules.trusted_clis.len(), 2);
    assert_eq!(c.rules.trusted_clis[0].path, Some(s("/usr/bin/ssh")));
    assert_eq!(c.rules.trusted_clis[0].category_flags, 0x10);
    assert_eq!(c.rules.trusted_clis[1].category_flags, 0x24);
    assert_eq!(c.rules.sensitive_files[0].category_flags, 0);
    assert_eq!(c.rules.network_cdns, vec![Some(s("*.google.com"))]);
    assert_eq!(c.rules.trusted_signers.len(), 1);
    assert_eq!(c.rules.trusted_signers[0].signer_name, Some(s("Google LLC")));
    assert_eq!(c.rules.trusted_signers[0].team_id, Some(s("EQHXZ8M8AV")));
    assert_eq!(combine_policies(&vec![]).version, 1);
}

#[test]
fn list_sources_per_platform() {
    let l = external_sources(Platform::Linux);
    assert_eq!(l.network_cdns.file_name, "network_cdns.json");
    assert_eq!(l.network_cdns.key, "cdns");
    assert_eq!(l.web_processes.file_name, "linux_web_processes.json");
    assert_eq!(l.web_processes.key, "processes");
    assert_eq!(l.terminal_rce_patterns.unwrap().file_name, "linux_terminal_rce_patterns.json");
    assert_eq!(l.hvnc_monitored_gui_apps.key, "apps");
    let w = external_sources(Platform::Windows);
    assert_eq!(w.protected_application_directories.file_name, "windows_protected_application_directories.json");
    assert_eq!(w.protected_application_directories.key, "directories");
    assert!(w.terminal_rce_patterns.is_none());
}

#[test]
fn config_dir_candidates_and_choice() {
    let c = find_config_dir_candidates(Some("/etc/kinnector"));
    assert_eq!(
        c,
        vec![
            s("/etc/kinnector/configs"),
            s("/etc/kinnector/../kinnector-protect-community/configs"),
            s("../kinnector-protect-community/configs"),
        ]
    );
    assert_eq!(find_config_dir_candidates(Some(""))[0], "configs");
    assert_eq!(find_config_dir_candidates(Some("/"))[0], "/configs");
    assert_eq!(find_config_dir_candidates(None).len(), 1);
    assert_eq!(select_config_dir(&c, &vec![false, true, true]), c[1]);
    assert_eq!(select_config_dir(&c, &vec![false, false, false]), ".");
    assert_eq!(select_config_dir(&c, &vec![]), ".");
}

#[test]
fn paths_normalize_case_and_separators() {
    assert_eq!(normalize_path("C:\\Users\\Bob"), "c:/users/bob".chars().collect::<Vec<char>>());
    assert_eq!(normalize_path(""), Vec::<char>::new());
}

#[test]
fn one_name_list_equals_the_name() {
    for name in ["ssh", "Wallet", "PROTECTED", "nope"] {
        assert_eq!(
            resolve_flags(Some(&CategoryFlags::List(vec![s(name)]))),
            resolve_flags(Some(&CategoryFlags::Single(s(name))))
        );
    }
    let ab = resolve_flags(Some(&CategoryFlags::List(vec![s("web"), s("update")])));
    let ba = resolve_flags(Some(&CategoryFlags::List(vec![s("update"), s("web")])));
    assert_eq!(ab, 0x180);
    assert_eq!(ab, ba);
}

#[test]
fn lists_of_the_same_names_give_the_same_flags() {
    let a = resolve_flags(Some(&CategoryFlags::List(vec![s("ssh"), s("browser"), s("ssh")])));
    let b = resolve_flags(Some(&CategoryFlags::List(vec![s("browser"), s("ssh")])));
    let c = resolve_flags(Some(&CategoryFlags::List(vec![s("browser"), s("browser"), s("ssh")])));
    assert_eq!(a, 0x11);
    assert_eq!(a, b);
    assert_eq!(b, c);
}

#[test]
fn json_values_keep_only_strings() {
    let items = vec![Some(s("a")), None, Some(s("b"))];
    assert_eq!(present_strings(&items), vec![s("a"), s("b")]);
    assert!(present_strings(&vec![None, None]).is_empty());
}

fn member(name: &str, value: JsonValue) -> JsonMember {
    JsonMember { name: s(name), value }
}

fn sample_doc() -> JsonValue {
    JsonValue::Object(vec![
        member(
            "processes",
            JsonValue::Array(vec![
                JsonValue::String(s("nginx")),
                JsonValue::Number(s("3")),
                JsonValue::Null,
                JsonValue::String(s("httpd")),
            ]),
        ),
        member(
            "directories",
            JsonValue::Object(vec![
                member("/opt/a", JsonValue::String(s("a"))),
                member("/opt/b", JsonValue::Bool(true)),
                member("/opt/c", JsonValue::String(s("c"))),
            ]),
        ),
        member("paths", JsonValue::String(s("not a list"))),
    ])
}

#[test]
fn json_lists_and_maps_are_read_by_member() {
    let doc = sample_doc();
    assert_eq!(list_from_document(Some(&doc), "processes"), vec![s("nginx"), s("httpd")]);
    assert!(list_from_document(Some(&doc), "paths").is_empty());
    assert!(list_from_document(Some(&doc), "missing").is_empty());
    assert!(list_from_document(None, "processes").is_empty());
    assert!(list_from_document(Some(&JsonValue::Array(vec![])), "processes").is_empty());
    assert_eq!(
        map_from_document(Some(&doc), "directories"),
        vec![(s("/opt/a"), s("a")), (s("/opt/c"), s("c"))]
    );
    assert!(map_from_document(Some(&doc), "processes").is_empty());
    assert!(map_from_document(None, "directories").is_empty());
}

const SAMPLE_TEXT: &str = r#"{
    "processes": ["nginx", 3, null, "httpd"],
    "directories": {"/opt/a": "a", "/opt/b": true, "/opt/c": "c"},
    "paths": "not a list"
}"#;

#[test]
fn json_files_are_parsed_then_read_by_member() {
    assert_eq!(load_list_from_json(Some(SAMPLE_TEXT), "processes"), vec![s("nginx"), s("httpd")]);
    assert!(load_list_from_json(Some(SAMPLE_TEXT), "paths").is_empty());
    assert!(load_list_from_json(Some(SAMPLE_TEXT), "missing").is_empty());
    assert!(load_list_from_json(None, "processes").is_empty());
    assert!(load_list_from_json(Some("[]"), "processes").is_empty());
    assert_eq!(
        load_map_from_json(Some(SAMPLE_TEXT), "directories"),
        vec![(s("/opt/a"), s("a")), (s("/opt/c"), s("c"))]
    );
    assert!(load_map_from_json(Some(SAMPLE_TEXT), "processes").is_empty());
    assert!(load_map_from_json(None, "directories").is_empty());
}

#[test]
fn text_that_is_not_json_gives_nothing() {
    assert!(load_list_from_json(Some("{\"processes\": [\"nginx\""), "processes").is_empty());
    assert!(load_list_from_json(Some("not json"), "processes").is_empty());
    assert!(load_map_from_json(Some(""), "directories").is_empty());
}

#[test]
fn json_object_members_come_out_by_name() {
    let text = r#"{"dirs": {"/zeta": "z", "/alpha": "a"}}"#;
    assert_eq!(
        load_map_from_json(Some(text), "dirs"),
        vec![(s("/alpha"), s("a")), (s("/zeta"), s("z"))]
    );
}
