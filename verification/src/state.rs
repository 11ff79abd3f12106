//! The in-memory rule tables of a loaded database, how they are built from a
//! payload and the JSON lists, and the questions they answer.
use vstd::prelude::*;
use crate::category::{category_flag, Category};
use crate::model::{
    append_missing, fold_map, keys_distinct, lemma_fold_map_last, lemma_fold_map_tail_absent,
    present,
};
use crate::payload::{
    clone_string_pairs, last_flag_pairs, last_string_pairs, clone_strings, flagged_entries, flagged_pairs, merge_missing, named_signer_pairs, named_signers,
    paths_flagged, paths_with_bit, present_strings, ExternalLists, ExternalView, RulesPayload,
    RulesView,
};
use crate::text::{
    chars_of, contains_text, ends_with, has_infix, normalize_path, normalized_path, same_text,
    starts_with, to_lowercase, lowercased,
};

verus! {

/// The identity of the publisher of a program, as its code signature shows it.
#[derive(Debug, Clone)]
pub struct SignerInfo {
    pub signer_name: String,
    pub team_id: Option<String>,
    pub is_signed: bool,
}

/// The rule tables as mathematical values.
#[verifier::ext_equal]
pub ghost struct ConfigView {
    pub version: u32,
    pub epoch_timestamp: u64,
    pub exclusions: Seq<Seq<char>>,
    pub trusted_signers: Set<(Seq<char>, Option<Seq<char>>)>,
    pub trusted_clis: Map<Seq<char>, u32>,
    pub network_cdns: Seq<Seq<char>>,
    pub sensitive_files: Map<Seq<char>, u32>,
    pub web_processes: Seq<Seq<char>>,
    pub persistence_paths: Seq<Seq<char>>,
    pub protected_binaries: Seq<Seq<char>>,
    pub terminal_rce_patterns: Seq<Seq<char>>,
    pub installer_binaries: Seq<Seq<char>>,
    pub shell_profile_paths: Seq<Seq<char>>,
    pub sensitive_credential_paths: Seq<Seq<char>>,
    pub script_interpreters: Seq<Seq<char>>,
    pub interactive_shells: Seq<Seq<char>>,
    pub browser_executables: Seq<Seq<char>>,
    pub hvnc_monitored_gui_apps: Seq<Seq<char>>,
    pub protected_application_directories: Map<Seq<char>, Seq<char>>,
}

/// The rule tables of a loaded database.
pub struct ConfigState {
    version: u32,
    epoch_timestamp: u64,
    exclusions: Vec<String>,
    trusted_signers: Vec<(String, Option<String>)>,
    trusted_clis: Vec<(String, u32)>,
    network_cdns: Vec<String>,
    sensitive_files: Vec<(String, u32)>,
    web_processes: Vec<String>,
    persistence_paths: Vec<String>,
    protected_binaries: Vec<String>,
    terminal_rce_patterns: Vec<String>,
    installer_binaries: Vec<String>,
    shell_profile_paths: Vec<String>,
    sensitive_credential_paths: Vec<String>,
    script_interpreters: Vec<String>,
    interactive_shells: Vec<String>,
    browser_executables: Vec<String>,
    hvnc_monitored_gui_apps: Vec<String>,
    protected_application_directories: Vec<(String, String)>,
}

impl View for ConfigState {
    type V = ConfigView;

    closed spec fn view(&self) -> ConfigView {
        ConfigView {
            version: self.version,
            epoch_timestamp: self.epoch_timestamp,
            exclusions: self.exclusions.deep_view(),
            trusted_signers: self.trusted_signers.deep_view().to_set(),
            trusted_clis: fold_map(self.trusted_clis.deep_view()),
            network_cdns: self.network_cdns.deep_view(),
            sensitive_files: fold_map(self.sensitive_files.deep_view()),
            web_processes: self.web_processes.deep_view(),
            persistence_paths: self.persistence_paths.deep_view(),
            protected_binaries: self.protected_binaries.deep_view(),
            terminal_rce_patterns: self.terminal_rce_patterns.deep_view(),
            installer_binaries: self.installer_binaries.deep_view(),
            shell_profile_paths: self.shell_profile_paths.deep_view(),
            sensitive_credential_paths: self.sensitive_credential_paths.deep_view(),
            script_interpreters: self.script_interpreters.deep_view(),
            interactive_shells: self.interactive_shells.deep_view(),
            browser_executables: self.browser_executables.deep_view(),
            hvnc_monitored_gui_apps: self.hvnc_monitored_gui_apps.deep_view(),
            protected_application_directories: fold_map(
                self.protected_application_directories.deep_view(),
            ),
        }
    }
}

/// The tables of a database of version `version`, released at
/// `epoch_timestamp`, with the payload `p` and the JSON lists `e`.
///
/// The exclusions, signers, CLIs and sensitive files come from the payload
/// (later CLI and file entries replace earlier ones with the same path).
/// The CDN list is the JSON list followed by the payload's CDNs it lacks;
/// the web processes and protected binaries are the JSON lists followed by
/// the CLIs flagged web process, respectively protected binary, that they
/// lack; the persistence paths are the JSON list followed by the sensitive
/// files flagged persistence path that it lacks. The rest are the JSON lists.
pub open spec fn state_from(
    version: u32,
    epoch_timestamp: u64,
    p: RulesView,
    e: ExternalView,
) -> ConfigView {
    ConfigView {
        version,
        epoch_timestamp,
        exclusions: present(p.exclusions),
        trusted_signers: named_signers(p.trusted_signers).to_set(),
        trusted_clis: fold_map(flagged_entries(p.trusted_clis)),
        network_cdns: append_missing(e.network_cdns, present(p.network_cdns)),
        sensitive_files: fold_map(flagged_entries(p.sensitive_files)),
        web_processes: append_missing(
            e.web_processes,
            paths_with_bit(p.trusted_clis, category_flag(Category::WebProcess)),
        ),
        persistence_paths: append_missing(
            e.persistence_paths,
            paths_with_bit(p.sensitive_files, category_flag(Category::PersistencePath)),
        ),
        protected_binaries: append_missing(
            e.protected_binaries,
            paths_with_bit(p.trusted_clis, category_flag(Category::ProtectedBinary)),
        ),
        terminal_rce_patterns: e.terminal_rce_patterns,
        installer_binaries: e.installer_binaries,
        shell_profile_paths: e.shell_profile_paths,
        sensitive_credential_paths: e.sensitive_credential_paths,
        script_interpreters: e.script_interpreters,
        interactive_shells: e.interactive_shells,
        browser_executables: e.browser_executables,
        hvnc_monitored_gui_apps: e.hvnc_monitored_gui_apps,
        protected_application_directories: fold_map(e.protected_application_directories),
    }
}

/// The tables of the built-in defaults: version 0, no payload tables, and
/// the JSON lists `e`.
pub open spec fn default_state(e: ExternalView) -> ConfigView {
    ConfigView {
        version: 0,
        epoch_timestamp: 0,
        exclusions: Seq::empty(),
        trusted_signers: Set::empty(),
        trusted_clis: Map::empty(),
        network_cdns: e.network_cdns,
        sensitive_files: Map::empty(),
        web_processes: e.web_processes,
        persistence_paths: e.persistence_paths,
        protected_binaries: e.protected_binaries,
        terminal_rce_patterns: e.terminal_rce_patterns,
        installer_binaries: e.installer_binaries,
        shell_profile_paths: e.shell_profile_paths,
        sensitive_credential_paths: e.sensitive_credential_paths,
        script_interpreters: e.script_interpreters,
        interactive_shells: e.interactive_shells,
        browser_executables: e.browser_executables,
        hvnc_monitored_gui_apps: e.hvnc_monitored_gui_apps,
        protected_application_directories: fold_map(e.protected_application_directories),
    }
}

/// The tables before any database was read: everything empty, version 0.
pub open spec fn empty_state() -> ConfigView {
    ConfigView {
        version: 0,
        epoch_timestamp: 0,
        exclusions: Seq::empty(),
        trusted_signers: Set::empty(),
        trusted_clis: Map::empty(),
        network_cdns: Seq::empty(),
        sensitive_files: Map::empty(),
        web_processes: Seq::empty(),
        persistence_paths: Seq::empty(),
        protected_binaries: Seq::empty(),
        terminal_rce_patterns: Seq::empty(),
        installer_binaries: Seq::empty(),
        shell_profile_paths: Seq::empty(),
        sensitive_credential_paths: Seq::empty(),
        script_interpreters: Seq::empty(),
        interactive_shells: Seq::empty(),
        browser_executables: Seq::empty(),
        hvnc_monitored_gui_apps: Seq::empty(),
        protected_application_directories: Map::empty(),
    }
}

/// Some prefix of `prefixes`, normalized, begins the normalized `path`.
pub open spec fn path_under_any(prefixes: Seq<Seq<char>>, path: Seq<char>) -> bool {
    exists|i: int|
        0 <= i < prefixes.len() && #[trigger] normalized_path(prefixes[i]).is_prefix_of(
            normalized_path(path),
        )
}

/// `domain` is allowed by the CDN pattern `pattern`: a pattern `*.base`
/// allows `base` itself and every domain ending in `.base`; any other
/// pattern allows only the domain equal to it.
pub open spec fn domain_matches(pattern: Seq<char>, domain: Seq<char>) -> bool {
    if pattern.len() >= 2 && pattern[0] == '*' && pattern[1] == '.' {
        domain == pattern.skip(2) || (seq!['.'] + pattern.skip(2)).is_suffix_of(domain)
    } else {
        domain == pattern
    }
}

/// `path` names the protected binary `binary`: normalized, it is that
/// binary, or ends in a slash followed by it.
pub open spec fn binary_matches(binary: Seq<char>, path: Seq<char>) -> bool {
    normalized_path(path) == normalized_path(binary) || (seq!['/'] + normalized_path(
        binary,
    )).is_suffix_of(normalized_path(path))
}

fn push_char_front(c: char, s: &[char]) -> (r: Vec<char>)
    ensures
        r@ == seq![c] + s@,
{
    let mut r: Vec<char> = Vec::new();
    r.push(c);
    let n = s.len();
    let mut i: usize = 0;
    while i < n
        invariant
            n == s@.len(),
            i <= n,
            r@ == seq![c] + s@.subrange(0, i as int),
        decreases n - i,
    {
        r.push(s[i]);
        assert(s@.subrange(0, i + 1) =~= s@.subrange(0, i as int).push(s@[i as int]));
        assert(r@ =~= seq![c] + s@.subrange(0, i + 1));
        i = i + 1;
    }
    assert(s@.subrange(0, n as int) =~= s@);
    r
}

/// Whether some prefix of `prefixes` begins `path`, both normalized.
fn any_prefix_of(prefixes: &Vec<String>, path: &str) -> (r: bool)
    ensures
        r == path_under_any(prefixes.deep_view(), path@),
{
    let target = normalize_path(path);
    let n = prefixes.len();
    let mut i: usize = 0;
    while i < n
        invariant
            n == prefixes.len(),
            i <= n,
            target@ == normalized_path(path@),
            forall|k: int|
                0 <= k < i ==> !#[trigger] normalized_path(
                    prefixes.deep_view()[k],
                ).is_prefix_of(normalized_path(path@)),
        decreases n - i,
    {
        let p = normalize_path(prefixes[i].as_str());
        if starts_with(target.as_slice(), p.as_slice()) {
            assert(normalized_path(prefixes.deep_view()[i as int]).is_prefix_of(
                normalized_path(path@),
            ));
            return true;
        }
        i = i + 1;
    }
    false
}

/// The flags of the last entry of `entries` whose key is `key`.
fn lookup_last(entries: &Vec<(String, u32)>, key: &[char]) -> (r: Option<u32>)
    ensures
        r == if fold_map(entries.deep_view()).contains_key(key@) {
            Some(fold_map(entries.deep_view())[key@])
        } else {
            None::<u32>
        },
{
    let ghost s = entries.deep_view();
    let mut i: usize = entries.len();
    while i > 0
        invariant
            s == entries.deep_view(),
            i <= s.len(),
            forall|j: int| i <= j < s.len() ==> s[j].0 != key@,
        decreases i,
    {
        let k = chars_of(entries[i - 1].0.as_str());
        if same_text(k.as_slice(), key) {
            proof {
                lemma_fold_map_last(s, i - 1, key@);
            }
            return Some(entries[i - 1].1);
        }
        i = i - 1;
    }
    proof {
        lemma_fold_map_tail_absent(s, 0, key@);
        assert(s.take(0) =~= Seq::<(Seq<char>, u32)>::empty());
    }
    None
}

impl ConfigState {
    /// The tables before any database was read.
    pub fn empty() -> (r: ConfigState)
        ensures
            r@ == empty_state(),
    {
        let r = ConfigState {
            version: 0,
            epoch_timestamp: 0,
            exclusions: Vec::new(),
            trusted_signers: Vec::new(),
            trusted_clis: Vec::new(),
            network_cdns: Vec::new(),
            sensitive_files: Vec::new(),
            web_processes: Vec::new(),
            persistence_paths: Vec::new(),
            protected_binaries: Vec::new(),
            terminal_rce_patterns: Vec::new(),
            installer_binaries: Vec::new(),
            shell_profile_paths: Vec::new(),
            sensitive_credential_paths: Vec::new(),
            script_interpreters: Vec::new(),
            interactive_shells: Vec::new(),
            browser_executables: Vec::new(),
            hvnc_monitored_gui_apps: Vec::new(),
            protected_application_directories: Vec::new(),
        };
        assert(r@.trusted_signers =~= Set::empty());
        assert(r@.trusted_clis =~= Map::empty());
        assert(r@.sensitive_files =~= Map::empty());
        assert(r@.protected_application_directories =~= Map::empty());
        assert(r@ =~= empty_state());
        r
    }
}


impl ConfigState {
    /// The tables of a database of version `version`, released at
    /// `epoch_timestamp`, built from its payload `rules` and the JSON lists
    /// `external`.
    pub fn build(
        version: u32,
        epoch_timestamp: u64,
        rules: &RulesPayload,
        external: &ExternalLists,
    ) -> (r: ConfigState)
        ensures
            r@ == state_from(version, epoch_timestamp, rules@, external@),
    {
        let exclusions = present_strings(&rules.exclusions);
        let trusted_signers = named_signer_pairs(&rules.trusted_signers);
        let trusted_clis = flagged_pairs(&rules.trusted_clis);
        let cdns = present_strings(&rules.network_cdns);
        let network_cdns = merge_missing(clone_strings(&external.network_cdns), &cdns);
        let sensitive_files = flagged_pairs(&rules.sensitive_files);
        let web_bit = Category::WebProcess.flag();
        let protected_bit = Category::ProtectedBinary.flag();
        let persistence_bit = Category::PersistencePath.flag();
        let web = paths_flagged(&rules.trusted_clis, web_bit);
        let protected = paths_flagged(&rules.trusted_clis, protected_bit);
        let persistence = paths_flagged(&rules.sensitive_files, persistence_bit);
        let web_processes = merge_missing(clone_strings(&external.web_processes), &web);
        let protected_binaries = merge_missing(
            clone_strings(&external.protected_binaries),
            &protected,
        );
        let persistence_paths = merge_missing(
            clone_strings(&external.persistence_paths),
            &persistence,
        );
        let r = ConfigState {
            version,
            epoch_timestamp,
            exclusions,
            trusted_signers,
            trusted_clis,
            network_cdns,
            sensitive_files,
            web_processes,
            persistence_paths,
            protected_binaries,
            terminal_rce_patterns: clone_strings(&external.terminal_rce_patterns),
            installer_binaries: clone_strings(&external.installer_binaries),
            shell_profile_paths: clone_strings(&external.shell_profile_paths),
            sensitive_credential_paths: clone_strings(&external.sensitive_credential_paths),
            script_interpreters: clone_strings(&external.script_interpreters),
            interactive_shells: clone_strings(&external.interactive_shells),
            browser_executables: clone_strings(&external.browser_executables),
            hvnc_monitored_gui_apps: clone_strings(&external.hvnc_monitored_gui_apps),
            protected_application_directories: clone_string_pairs(
                &external.protected_application_directories,
            ),
        };
        assert(r@ =~= state_from(version, epoch_timestamp, rules@, external@));
        r
    }

    /// The tables of the built-in defaults, made of the JSON lists `external`.
    pub fn defaults(external: &ExternalLists) -> (r: ConfigState)
        ensures
            r@ == default_state(external@),
    {
        let r = ConfigState {
            version: 0,
            epoch_timestamp: 0,
            exclusions: Vec::new(),
            trusted_signers: Vec::new(),
            trusted_clis: Vec::new(),
            network_cdns: clone_strings(&external.network_cdns),
            sensitive_files: Vec::new(),
            web_processes: clone_strings(&external.web_processes),
            persistence_paths: clone_strings(&external.persistence_paths),
            protected_binaries: clone_strings(&external.protected_binaries),
            terminal_rce_patterns: clone_strings(&external.terminal_rce_patterns),
            installer_binaries: clone_strings(&external.installer_binaries),
            shell_profile_paths: clone_strings(&external.shell_profile_paths),
            sensitive_credential_paths: clone_strings(&external.sensitive_credential_paths),
            script_interpreters: clone_strings(&external.script_interpreters),
            interactive_shells: clone_strings(&external.interactive_shells),
            browser_executables: clone_strings(&external.browser_executables),
            hvnc_monitored_gui_apps: clone_strings(&external.hvnc_monitored_gui_apps),
            protected_application_directories: clone_string_pairs(
                &external.protected_application_directories,
            ),
        };
        assert(r@.trusted_signers =~= Set::empty());
        assert(r@.trusted_clis =~= Map::empty());
        assert(r@.sensitive_files =~= Map::empty());
        assert(r@ =~= default_state(external@));
        r
    }

    /// The version of the database.
    pub fn version(&self) -> (r: u32)
        ensures
            r == self@.version,
    {
        self.version
    }

    /// The release time of the database.
    pub fn epoch_timestamp(&self) -> (r: u64)
        ensures
            r == self@.epoch_timestamp,
    {
        self.epoch_timestamp
    }

    /// Whether `path` lies under an excluded prefix (case-insensitively,
    /// with either kind of slash).
    pub fn is_path_excluded(&self, path: &str) -> (r: bool)
        ensures
            r == path_under_any(self@.exclusions, path@),
    {
        any_prefix_of(&self.exclusions, path)
    }

    /// Whether `path` lies under a persistence path (case-insensitively,
    /// with either kind of slash).
    pub fn is_persistence_path(&self, path: &str) -> (r: bool)
        ensures
            r == path_under_any(self@.persistence_paths, path@),
    {
        any_prefix_of(&self.persistence_paths, path)
    }

    /// Whether `signer` is signed and its name and team identifier are
    /// those of a trusted signer.
    pub fn is_trusted_vendor(&self, signer: &SignerInfo) -> (r: bool)
        ensures
            r == (signer.is_signed && self@.trusted_signers.contains(
                (signer.signer_name@, signer.team_id.deep_view()),
            )),
    {
        if !signer.is_signed {
            return false;
        }
        let ghost s = self.trusted_signers.deep_view();
        let ghost wanted = (signer.signer_name@, signer.team_id.deep_view());
        let n = self.trusted_signers.len();
        let mut i: usize = 0;
        while i < n
            invariant
                n == self.trusted_signers.len(),
                s == self.trusted_signers.deep_view(),
                wanted == (signer.signer_name@, signer.team_id.deep_view()),
                signer.is_signed,
                i <= n,
                forall|k: int| 0 <= k < i ==> s[k] != wanted,
            decreases n - i,
        {
            let (name, team) = &self.trusted_signers[i];
            let same_team = match (team, &signer.team_id) {
                (Some(a), Some(b)) => *a == *b,
                (None, None) => true,
                _ => false,
            };
            if *name == signer.signer_name && same_team {
                assert(s[i as int] == wanted);
                assert(s.contains(wanted));
                assert(self@.trusted_signers.contains(wanted));
                return true;
            }
            i = i + 1;
        }
        false
    }

    /// Whether the trusted CLI at `path` (compared lowercased, with forward
    /// slashes) may access `category`.
    pub fn is_trusted_cli(&self, path: &str, category: Category) -> (r: bool)
        ensures
            r == (self@.trusted_clis.contains_key(normalized_path(path@)) && self@.trusted_clis[
                normalized_path(path@)] & category_flag(category) != 0),
    {
        let key = normalize_path(path);
        match lookup_last(&self.trusted_clis, key.as_slice()) {
            Some(flags) => flags & category.flag() != 0,
            None => false,
        }
    }

    /// Whether `domain` is allowed by some CDN pattern.
    pub fn is_domain_allowed(&self, domain: &str) -> (r: bool)
        ensures
            r == exists|i: int|
                0 <= i < self@.network_cdns.len() && #[trigger] domain_matches(
                    self@.network_cdns[i],
                    domain@,
                ),
    {
        let d = chars_of(domain);
        let n = self.network_cdns.len();
        let mut i: usize = 0;
        while i < n
            invariant
                n == self.network_cdns.len(),
                d@ == domain@,
                i <= n,
                forall|k: int|
                    0 <= k < i ==> !#[trigger] domain_matches(
                        self.network_cdns.deep_view()[k],
                        domain@,
                    ),
            decreases n - i,
        {
            let pattern = chars_of(self.network_cdns[i].as_str());
            let ghost pv = pattern@;
            let matched = if pattern.len() >= 2 && pattern[0] == '*' && pattern[1] == '.' {
                let base = vstd::slice::slice_subrange(pattern.as_slice(), 2, pattern.len());
                assert(base@ =~= pv.skip(2));
                let dotted = push_char_front('.', base);
                same_text(d.as_slice(), base) || ends_with(d.as_slice(), dotted.as_slice())
            } else {
                same_text(d.as_slice(), pattern.as_slice())
            };
            if matched {
                assert(domain_matches(self@.network_cdns[i as int], domain@));
                return true;
            }
            i = i + 1;
        }
        false
    }

    /// Whether `exe`, lowercased, contains the text of a web process entry.
    pub fn is_web_process(&self, exe: &str) -> (r: bool)
        ensures
            r == exists|i: int|
                0 <= i < self@.web_processes.len() && #[trigger] has_infix(
                    lowercased(exe@),
                    self@.web_processes[i],
                ),
    {
        let lower_text = to_lowercase(exe);
        let lower = chars_of(lower_text.as_str());
        let n = self.web_processes.len();
        let mut i: usize = 0;
        while i < n
            invariant
                n == self.web_processes.len(),
                lower@ == lowercased(exe@),
                i <= n,
                forall|k: int|
                    0 <= k < i ==> !#[trigger] has_infix(
                        lowercased(exe@),
                        self.web_processes.deep_view()[k],
                    ),
            decreases n - i,
        {
            let w = chars_of(self.web_processes[i].as_str());
            if contains_text(lower.as_slice(), w.as_slice()) {
                assert(has_infix(lowercased(exe@), self@.web_processes[i as int]));
                return true;
            }
            i = i + 1;
        }
        false
    }

    /// Whether `path` names a protected binary: normalized, it is one, or
    /// ends in a slash followed by one.
    pub fn is_protected_binary(&self, path: &str) -> (r: bool)
        ensures
            r == exists|i: int|
                0 <= i < self@.protected_binaries.len() && #[trigger] binary_matches(
                    self@.protected_binaries[i],
                    path@,
                ),
    {
        let target = normalize_path(path);
        let n = self.protected_binaries.len();
        let mut i: usize = 0;
        while i < n
            invariant
                n == self.protected_binaries.len(),
                target@ == normalized_path(path@),
                i <= n,
                forall|k: int|
                    0 <= k < i ==> !#[trigger] binary_matches(
                        self.protected_binaries.deep_view()[k],
                        path@,
                    ),
            decreases n - i,
        {
            let b = normalize_path(self.protected_binaries[i].as_str());
            let slashed = push_char_front('/', b.as_slice());
            if same_text(target.as_slice(), b.as_slice()) || ends_with(
                target.as_slice(),
                slashed.as_slice(),
            ) {
                assert(binary_matches(self@.protected_binaries[i as int], path@));
                return true;
            }
            i = i + 1;
        }
        false
    }

    /// The sensitive files with their category flags: one pair per path,
    /// together the table.
    pub fn sensitive_files(&self) -> (r: Vec<(String, u32)>)
        ensures
            keys_distinct(r.deep_view()),
            fold_map(r.deep_view()) == self@.sensitive_files,
    {
        last_flag_pairs(&self.sensitive_files)
    }

    /// The protected application directories: one pair per directory,
    /// together the table.
    pub fn protected_application_directories(&self) -> (r: Vec<(String, String)>)
        ensures
            keys_distinct(r.deep_view()),
            fold_map(r.deep_view()) == self@.protected_application_directories,
    {
        last_string_pairs(&self.protected_application_directories)
    }

    /// The executables treated as web-facing processes.
    pub fn web_processes(&self) -> (r: Vec<String>)
        ensures
            r.deep_view() == self@.web_processes,
    {
        clone_strings(&self.web_processes)
    }

    /// The paths whose modification gives persistence.
    pub fn persistence_paths(&self) -> (r: Vec<String>)
        ensures
            r.deep_view() == self@.persistence_paths,
    {
        clone_strings(&self.persistence_paths)
    }

    /// The command-line patterns of remote code execution through a terminal.
    pub fn terminal_rce_patterns(&self) -> (r: Vec<String>)
        ensures
            r.deep_view() == self@.terminal_rce_patterns,
    {
        clone_strings(&self.terminal_rce_patterns)
    }

    /// The installer executables.
    pub fn installer_binaries(&self) -> (r: Vec<String>)
        ensures
            r.deep_view() == self@.installer_binaries,
    {
        clone_strings(&self.installer_binaries)
    }

    /// The shell profile files.
    pub fn shell_profile_paths(&self) -> (r: Vec<String>)
        ensures
            r.deep_view() == self@.shell_profile_paths,
    {
        clone_strings(&self.shell_profile_paths)
    }

    /// The paths that hold credentials.
    pub fn sensitive_credential_paths(&self) -> (r: Vec<String>)
        ensures
            r.deep_view() == self@.sensitive_credential_paths,
    {
        clone_strings(&self.sensitive_credential_paths)
    }

    /// The script interpreters.
    pub fn script_interpreters(&self) -> (r: Vec<String>)
        ensures
            r.deep_view() == self@.script_interpreters,
    {
        clone_strings(&self.script_interpreters)
    }

    /// The interactive shells.
    pub fn interactive_shells(&self) -> (r: Vec<String>)
        ensures
            r.deep_view() == self@.interactive_shells,
    {
        clone_strings(&self.interactive_shells)
    }

    /// The browser executables.
    pub fn browser_executables(&self) -> (r: Vec<String>)
        ensures
            r.deep_view() == self@.browser_executables,
    {
        clone_strings(&self.browser_executables)
    }

    /// The GUI applications watched for hidden remote desktop use.
    pub fn hvnc_monitored_gui_apps(&self) -> (r: Vec<String>)
        ensures
            r.deep_view() == self@.hvnc_monitored_gui_apps,
    {
        clone_strings(&self.hvnc_monitored_gui_apps)
    }
}

} // verus!
