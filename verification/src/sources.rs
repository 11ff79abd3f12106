//! Where the JSON lists that complement a database are looked for: the
//! configuration directory next to the database, and the file and member
//! name of each list for the running platform.
use vstd::prelude::*;

verus! {

/// The platform whose lists are read.
#[derive(Debug, Clone, Copy, PartialEq, Eq, Structural)]
pub enum Platform {
    Linux,
    Windows,
}

/// The prefix of the platform's list files.
pub open spec fn platform_prefix(p: Platform) -> Seq<char> {
    match p {
        Platform::Linux => "linux"@,
        Platform::Windows => "windows"@,
    }
}

/// A JSON list: the file that holds it and the member of the top-level
/// object that is the list.
#[derive(Debug, Clone)]
pub struct JsonSource {
    pub file_name: String,
    pub key: String,
}

/// The file and member of each JSON list. The terminal patterns exist on
/// Linux only.
#[derive(Debug, Clone)]
pub struct ExternalSources {
    pub network_cdns: JsonSource,
    pub web_processes: JsonSource,
    pub persistence_paths: JsonSource,
    pub protected_binaries: JsonSource,
    pub terminal_rce_patterns: Option<JsonSource>,
    pub installer_binaries: JsonSource,
    pub shell_profile_paths: JsonSource,
    pub sensitive_credential_paths: JsonSource,
    pub script_interpreters: JsonSource,
    pub interactive_shells: JsonSource,
    pub browser_executables: JsonSource,
    pub hvnc_monitored_gui_apps: JsonSource,
    pub protected_application_directories: JsonSource,
}

/// `source` is the member `key` of the file named `file`.
pub open spec fn is_source(source: JsonSource, file: Seq<char>, key: Seq<char>) -> bool {
    source.file_name@ == file && source.key@ == key
}

/// `source` is the member `key` of the platform's file ending in `suffix`.
pub open spec fn is_platform_source(
    source: JsonSource,
    p: Platform,
    suffix: Seq<char>,
    key: Seq<char>,
) -> bool {
    is_source(source, platform_prefix(p) + suffix, key)
}

fn prefix_of(p: Platform) -> (r: &'static str)
    ensures
        r@ == platform_prefix(p),
{
    match p {
        Platform::Linux => "linux",
        Platform::Windows => "windows",
    }
}

fn platform_source(p: Platform, suffix: &str, key: &str) -> (r: JsonSource)
    ensures
        is_platform_source(r, p, suffix@, key@),
{
    let file_name = String::from_str(prefix_of(p)).concat(suffix);
    JsonSource { file_name, key: String::from_str(key) }
}

/// The file and member of each JSON list on the platform `p`.
pub fn external_sources(p: Platform) -> (r: ExternalSources)
    ensures
        is_source(r.network_cdns, "network_cdns.json"@, "cdns"@),
        is_platform_source(r.web_processes, p, "_web_processes.json"@, "processes"@),
        is_platform_source(r.persistence_paths, p, "_persistence_paths.json"@, "paths"@),
        is_platform_source(r.protected_binaries, p, "_protected_binaries.json"@, "binaries"@),
        match p {
            Platform::Linux => r.terminal_rce_patterns matches Some(s) && is_source(
                s,
                "linux_terminal_rce_patterns.json"@,
                "patterns"@,
            ),
            Platform::Windows => r.terminal_rce_patterns is None,
        },
        is_platform_source(r.installer_binaries, p, "_installer_binaries.json"@, "binaries"@),
        is_platform_source(r.shell_profile_paths, p, "_shell_profile_paths.json"@, "paths"@),
        is_platform_source(
            r.sensitive_credential_paths,
            p,
            "_sensitive_credential_paths.json"@,
            "paths"@,
        ),
        is_platform_source(
            r.script_interpreters,
            p,
            "_script_interpreters.json"@,
            "interpreters"@,
        ),
        is_platform_source(r.interactive_shells, p, "_interactive_shells.json"@, "shells"@),
        is_platform_source(r.browser_executables, p, "_browser_executables.json"@, "browsers"@),
        is_platform_source(r.hvnc_monitored_gui_apps, p, "_hvnc_monitored_gui_apps.json"@, "apps"@),
        is_platform_source(
            r.protected_application_directories,
            p,
            "_protected_application_directories.json"@,
            "directories"@,
        ),
{
    let terminal_rce_patterns = match p {
        Platform::Linux => Some(
            JsonSource {
                file_name: String::from_str("linux_terminal_rce_patterns.json"),
                key: String::from_str("patterns"),
            },
        ),
        Platform::Windows => None,
    };
    ExternalSources {
        network_cdns: JsonSource {
            file_name: String::from_str("network_cdns.json"),
            key: String::from_str("cdns"),
        },
        web_processes: platform_source(p, "_web_processes.json", "processes"),
        persistence_paths: platform_source(p, "_persistence_paths.json", "paths"),
        protected_binaries: platform_source(p, "_protected_binaries.json", "binaries"),
        terminal_rce_patterns,
        installer_binaries: platform_source(p, "_installer_binaries.json", "binaries"),
        shell_profile_paths: platform_source(p, "_shell_profile_paths.json", "paths"),
        sensitive_credential_paths: platform_source(
            p,
            "_sensitive_credential_paths.json",
            "paths",
        ),
        script_interpreters: platform_source(p, "_script_interpreters.json", "interpreters"),
        interactive_shells: platform_source(p, "_interactive_shells.json", "shells"),
        browser_executables: platform_source(p, "_browser_executables.json", "browsers"),
        hvnc_monitored_gui_apps: platform_source(p, "_hvnc_monitored_gui_apps.json", "apps"),
        protected_application_directories: platform_source(
            p,
            "_protected_application_directories.json",
            "directories",
        ),
    }
}

/// `rel` appended to the directory `base`, with a slash between them
/// unless `base` is empty or already ends in one.
pub open spec fn join_path(base: Seq<char>, rel: Seq<char>) -> Seq<char> {
    if base.len() == 0 || base.last() == '/' {
        base + rel
    } else {
        base + seq!['/'] + rel
    }
}

/// The directories in which the JSON lists are looked for, in order of
/// preference, for a database in the directory `parent` (when the
/// database path has one): `configs` beside the database, the community
/// configuration checkout next to it, and the community checkout next to
/// the working directory.
pub open spec fn config_dir_candidates(parent: Option<Seq<char>>) -> Seq<Seq<char>> {
    match parent {
        Some(d) => seq![
            join_path(d, "configs"@),
            join_path(d, "../kinnector-protect-community/configs"@),
            "../kinnector-protect-community/configs"@,
        ],
        None => seq!["../kinnector-protect-community/configs"@],
    }
}

fn joined(base: &str, rel: &str) -> (r: String)
    ensures
        r@ == join_path(base@, rel@),
{
    let chars = crate::text::chars_of(base);
    let n = chars.len();
    if n == 0 || chars[n - 1] == '/' {
        String::from_str(base).concat(rel)
    } else {
        proof {
            reveal_strlit("/");
        }
        assert("/"@ =~= seq!['/']);
        String::from_str(base).concat("/").concat(rel)
    }
}

/// The directories in which the JSON lists are looked for, for a database
/// in the directory `db_parent`.
pub fn find_config_dir_candidates(db_parent: Option<&str>) -> (r: Vec<String>)
    ensures
        r.deep_view() == config_dir_candidates(
            match db_parent {
                Some(d) => Some(d@),
                None => None,
            },
        ),
{
    let mut r: Vec<String> = Vec::new();
    match db_parent {
        Some(d) => {
            r.push(joined(d, "configs"));
            r.push(joined(d, "../kinnector-protect-community/configs"));
        },
        None => {},
    }
    r.push(String::from_str("../kinnector-protect-community/configs"));
    assert(r.deep_view() =~= config_dir_candidates(
        match db_parent {
            Some(d) => Some(d@),
            None => None,
        },
    ));
    r
}

/// The first candidate directory that exists, `exists[i]` telling whether
/// `candidates[i]` does (a candidate without an answer counts as missing);
/// the working directory `.` when none does.
pub fn select_config_dir(candidates: &Vec<String>, exists: &Vec<bool>) -> (r: String)
    ensures
        (exists|i: int|
            0 <= i < candidates.len() && i < exists.len() && exists@[i] && r@
                == candidates.deep_view()[i] && forall|k: int|
                0 <= k < i ==> !exists@[k]) || (r@ == "."@ && forall|k: int|
            0 <= k < candidates.len() && k < exists.len() ==> !exists@[k]),
{
    let n = candidates.len();
    let mut i: usize = 0;
    while i < n
        invariant
            n == candidates.len(),
            i <= n,
            forall|k: int| 0 <= k < i && k < exists.len() ==> !exists@[k],
        decreases n - i,
    {
        if i < exists.len() && exists[i] {
            let r = candidates[i].clone();
            assert(r@ == candidates.deep_view()[i as int]);
            return r;
        }
        i = i + 1;
    }
    String::from_str(".")
}

} // verus!
