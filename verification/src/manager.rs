//! The configuration manager: a loaded rules database with the public key
//! that vouches for it, reloading, and the rule queries.
use vstd::prelude::*;
use crate::category::{category_flag, Category};
use crate::database::{verified_header, verify_database};
use crate::error::ConfigError;
use crate::header::{payload_bytes, payload_of, DatabaseHeader, HeaderView};
use crate::payload::{ExternalLists, ExternalView, RulesPayload, RulesView};
use crate::model::{fold_map, keys_distinct};
use crate::state::{
    binary_matches, default_state, domain_matches, empty_state, path_under_any, state_from,
    ConfigState, ConfigView, SignerInfo,
};
use crate::text::{has_infix, normalized_path, lowercased};

verus! {

/// A manager as mathematical values.
#[verifier::ext_equal]
pub ghost struct ManagerView {
    pub path: Seq<char>,
    pub public_key: Seq<u8>,
    pub state: ConfigView,
}

/// A loaded rules database, with the path it was read from and the public
/// key that its signature must verify under.
pub struct ConfigManager {
    path: String,
    public_key: [u8; 32],
    state: ConfigState,
}

impl View for ConfigManager {
    type V = ManagerView;

    closed spec fn view(&self) -> ManagerView {
        ManagerView { path: self.path@, public_key: self.public_key@, state: self.state@ }
    }
}

/// The outcomes of reloading the manager `old` from the database file
/// `buffer` with the decoder `decode` and the JSON lists `external`: the
/// result `r` and the manager `new` afterwards. A file refused by its
/// framing or its signature gives that error and leaves the manager as it
/// was. Otherwise the decoder is handed exactly the payload bytes that the
/// header announces: where it gives a payload, the tables become those of
/// that payload, the header's version and time and the lists; where it
/// gives none, the result is `InvalidPayload` and the manager stays as it
/// was.
pub open spec fn reload_outcome<F: Fn(&[u8]) -> Option<RulesPayload>>(
    decode: F,
    old: ManagerView,
    buffer: Seq<u8>,
    external: ExternalView,
    r: Result<(), ConfigError>,
    new: ManagerView,
) -> bool {
    match verified_header(old.public_key, buffer) {
        Err(e) => r == Err::<(), ConfigError>(e) && new == old,
        Ok(h) => match r {
            Ok(()) => exists|s: &[u8], p: RulesPayload|
                s@ == payload_bytes(buffer, h.payload_len) && #[trigger] decode.ensures(
                    (s,),
                    Some(p),
                ) && new == (ManagerView {
                    state: state_from(h.version, h.epoch_timestamp, p@, external),
                    ..old
                }),
            Err(e) => e == ConfigError::InvalidPayload && new == old && exists|s: &[u8]|
                s@ == payload_bytes(buffer, h.payload_len) && #[trigger] decode.ensures(
                    (s,),
                    None::<RulesPayload>,
                ),
        },
    }
}

/// The view of what a decoder gave.
pub open spec fn decoded_view(o: Option<RulesPayload>) -> Option<RulesView> {
    match o {
        Some(p) => Some(p@),
        None => None,
    }
}

/// `decode` answers alike for equal bytes: what it gives is a function of
/// the bytes it is handed.
pub open spec fn decodes_by_bytes<F: Fn(&[u8]) -> Option<RulesPayload>>(decode: F) -> bool {
    forall|s1: &[u8], s2: &[u8], o1: Option<RulesPayload>, o2: Option<RulesPayload>|
        #![trigger decode.ensures((s1,), o1), decode.ensures((s2,), o2)]
        s1@ == s2@ && decode.ensures((s1,), o1) && decode.ensures((s2,), o2) ==> decoded_view(o1)
            == decoded_view(o2)
}

impl ConfigManager {
    /// A manager for the database file at `path`, checked under
    /// `public_key`, whose tables are still empty.
    pub fn new(path: &str, public_key: &[u8; 32]) -> (r: ConfigManager)
        ensures
            r@.path == path@,
            r@.public_key == public_key@,
            r@.state == empty_state(),
    {
        ConfigManager {
            path: String::from_str(path),
            public_key: *public_key,
            state: ConfigState::empty(),
        }
    }

    /// The path of the database file.
    pub fn path(&self) -> (r: &String)
        ensures
            r@ == self@.path,
    {
        &self.path
    }

    /// The public key under which the database must verify.
    pub fn public_key(&self) -> (r: [u8; 32])
        ensures
            r@ == self@.public_key,
    {
        self.public_key
    }

    /// Checks the framing and signature of the database file `buffer`
    /// under this manager's public key and returns its header.
    pub fn verify_database(&self, buffer: &[u8]) -> (r: Result<DatabaseHeader, ConfigError>)
        ensures
            match r {
                Ok(h) => verified_header(self@.public_key, buffer@) == Ok::<HeaderView, ConfigError>(
                    h@,
                ),
                Err(e) => verified_header(self@.public_key, buffer@) == Err::<
                    HeaderView,
                    ConfigError,
                >(e),
            },
    {
        verify_database(&self.public_key, buffer)
    }

    /// Replaces the tables with those of the database whose header is
    /// `header`, whose payload decodes to `rules`, and beside which lie the
    /// JSON lists `external`.
    pub fn install(&mut self, header: &DatabaseHeader, rules: &RulesPayload, external: &ExternalLists)
        ensures
            final(self)@ == (ManagerView {
                state: state_from(header.version, header.epoch_timestamp, rules@, external@),
                ..old(self)@
            }),
    {
        self.state = ConfigState::build(header.version, header.epoch_timestamp, rules, external);
    }

    /// Reloads the tables from the database file `buffer`: checks its
    /// framing and its signature under this manager's public key, decodes
    /// its payload with `decode`, and rebuilds the tables from the payload
    /// and the JSON lists `external`. On any failure the tables stay as
    /// they were.
    pub fn reload_from_bytes<F: Fn(&[u8]) -> Option<RulesPayload>>(
        &mut self,
        buffer: &[u8],
        decode: F,
        external: &ExternalLists,
    ) -> (r: Result<(), ConfigError>)
        requires
            forall|s: &[u8]| decode.requires((s,)),
        ensures
            reload_outcome(decode, old(self)@, buffer@, external@, r, final(self)@),
    {
        let header = match verify_database(&self.public_key, buffer) {
            Ok(h) => h,
            Err(e) => return Err(e),
        };
        let payload = payload_of(buffer, &header);
        match decode(payload) {
            Some(rules) => {
                self.install(&header, &rules, external);
                Ok(())
            },
            None => Err(ConfigError::InvalidPayload),
        }
    }

    /// Creates a manager for the database file at `path`, checked under
    /// `public_key`, and loads the file's contents `buffer` into it as
    /// `reload_from_bytes` does.
    pub fn load<F: Fn(&[u8]) -> Option<RulesPayload>>(
        path: &str,
        public_key: &[u8; 32],
        buffer: &[u8],
        decode: F,
        external: &ExternalLists,
    ) -> (r: Result<ConfigManager, ConfigError>)
        requires
            forall|s: &[u8]| decode.requires((s,)),
        ensures
            match verified_header(public_key@, buffer@) {
                Err(e) => r == Err::<ConfigManager, ConfigError>(e),
                Ok(h) => match r {
                    Ok(m) => exists|s: &[u8], p: RulesPayload|
                        s@ == payload_bytes(buffer@, h.payload_len) && #[trigger] decode.ensures(
                            (s,),
                            Some(p),
                        ) && m@ == (ManagerView {
                            path: path@,
                            public_key: public_key@,
                            state: state_from(h.version, h.epoch_timestamp, p@, external@),
                        }),
                    Err(e) => e == ConfigError::InvalidPayload && exists|s: &[u8]|
                        s@ == payload_bytes(buffer@, h.payload_len) && #[trigger] decode.ensures(
                            (s,),
                            None::<RulesPayload>,
                        ),
                },
            },
    {
        let mut manager = ConfigManager::new(path, public_key);
        match manager.reload_from_bytes(buffer, decode, external) {
            Ok(()) => Ok(manager),
            Err(e) => Err(e),
        }
    }

    /// A manager with no database, holding the built-in defaults made of
    /// the JSON lists `external`.
    pub fn load_defaults(external: &ExternalLists) -> (r: ConfigManager)
        ensures
            r@.path == Seq::<char>::empty(),
            r@.public_key == Seq::new(32, |i: int| 0u8),
            r@.state == default_state(external@),
    {
        let r = ConfigManager {
            path: String::new(),
            public_key: [0u8; 32],
            state: ConfigState::defaults(external),
        };
        assert(r@.public_key =~= Seq::new(32, |i: int| 0u8));
        r
    }

    /// The version of the loaded database.
    pub fn version(&self) -> (r: u32)
        ensures
            r == self@.state.version,
    {
        self.state.version()
    }

    /// The release time of the loaded database, in seconds since the Unix epoch.
    pub fn epoch_timestamp(&self) -> (r: u64)
        ensures
            r == self@.state.epoch_timestamp,
    {
        self.state.epoch_timestamp()
    }

    /// Whether `path` lies under an excluded prefix: lowercased and with
    /// backslashes turned into slashes, both begin alike.
    pub fn is_path_excluded(&self, path: &str) -> (r: bool)
        ensures
            r == path_under_any(self@.state.exclusions, path@),
    {
        self.state.is_path_excluded(path)
    }

    /// Whether `signer` is signed by a trusted publisher: it is signed, and
    /// its name and team identifier (or the absence of one) form a trusted pair.
    pub fn is_trusted_vendor(&self, signer: &SignerInfo) -> (r: bool)
        ensures
            r == (signer.is_signed && self@.state.trusted_signers.contains(
                (signer.signer_name@, signer.team_id.deep_view()),
            )),
    {
        self.state.is_trusted_vendor(signer)
    }

    /// Whether the CLI at `path`, lowercased and with forward slashes, is
    /// trusted with flags that include `category`.
    pub fn is_trusted_cli(&self, path: &str, category: Category) -> (r: bool)
        ensures
            r == (self@.state.trusted_clis.contains_key(normalized_path(path@))
                && self@.state.trusted_clis[normalized_path(path@)] & category_flag(category) != 0),
    {
        self.state.is_trusted_cli(path, category)
    }

    /// Whether `domain` is allowed by some CDN pattern.
    pub fn is_domain_allowed(&self, domain: &str) -> (r: bool)
        ensures
            r == exists|i: int|
                0 <= i < self@.state.network_cdns.len() && #[trigger] domain_matches(
                    self@.state.network_cdns[i],
                    domain@,
                ),
    {
        self.state.is_domain_allowed(domain)
    }

    /// The sensitive files with their category flags: one pair per path,
    /// together the table.
    pub fn sensitive_files(&self) -> (r: Vec<(String, u32)>)
        ensures
            keys_distinct(r.deep_view()),
            fold_map(r.deep_view()) == self@.state.sensitive_files,
    {
        self.state.sensitive_files()
    }

    /// Whether `exe`, lowercased, contains the text of a web process entry.
    pub fn is_web_process(&self, exe: &str) -> (r: bool)
        ensures
            r == exists|i: int|
                0 <= i < self@.state.web_processes.len() && #[trigger] has_infix(
                    lowercased(exe@),
                    self@.state.web_processes[i],
                ),
    {
        self.state.is_web_process(exe)
    }

    /// Whether `path` lies under a persistence path, compared as for exclusions.
    pub fn is_persistence_path(&self, path: &str) -> (r: bool)
        ensures
            r == path_under_any(self@.state.persistence_paths, path@),
    {
        self.state.is_persistence_path(path)
    }

    /// Whether `path` names a protected binary: lowercased and with forward
    /// slashes, it equals one, or ends in a slash followed by one.
    pub fn is_protected_binary(&self, path: &str) -> (r: bool)
        ensures
            r == exists|i: int|
                0 <= i < self@.state.protected_binaries.len() && #[trigger] binary_matches(
                    self@.state.protected_binaries[i],
                    path@,
                ),
    {
        self.state.is_protected_binary(path)
    }

    /// The protected application directories: one pair per directory,
    /// together the table.
    pub fn protected_application_directories(&self) -> (r: Vec<(String, String)>)
        ensures
            keys_distinct(r.deep_view()),
            fold_map(r.deep_view()) == self@.state.protected_application_directories,
    {
        self.state.protected_application_directories()
    }

    /// The executables treated as web-facing processes.
    pub fn web_processes(&self) -> (r: Vec<String>)
        ensures
            r.deep_view() == self@.state.web_processes,
    {
        self.state.web_processes()
    }

    /// The paths whose modification gives persistence.
    pub fn persistence_paths(&self) -> (r: Vec<String>)
        ensures
            r.deep_view() == self@.state.persistence_paths,
    {
        self.state.persistence_paths()
    }

    /// The command-line patterns of remote code execution through a terminal.
    pub fn terminal_rce_patterns(&self) -> (r: Vec<String>)
        ensures
            r.deep_view() == self@.state.terminal_rce_patterns,
    {
        self.state.terminal_rce_patterns()
    }

    /// The installer executables.
    pub fn installer_binaries(&self) -> (r: Vec<String>)
        ensures
            r.deep_view() == self@.state.installer_binaries,
    {
        self.state.installer_binaries()
    }

    /// The shell profile files.
    pub fn shell_profile_paths(&self) -> (r: Vec<String>)
        ensures
            r.deep_view() == self@.state.shell_profile_paths,
    {
        self.state.shell_profile_paths()
    }

    /// The paths that hold credentials.
    pub fn sensitive_credential_paths(&self) -> (r: Vec<String>)
        ensures
            r.deep_view() == self@.state.sensitive_credential_paths,
    {
        self.state.sensitive_credential_paths()
    }

    /// The script interpreters.
    pub fn script_interpreters(&self) -> (r: Vec<String>)
        ensures
            r.deep_view() == self@.state.script_interpreters,
    {
        self.state.script_interpreters()
    }

    /// The interactive shells.
    pub fn interactive_shells(&self) -> (r: Vec<String>)
        ensures
            r.deep_view() == self@.state.interactive_shells,
    {
        self.state.interactive_shells()
    }

    /// The browser executables.
    pub fn browser_executables(&self) -> (r: Vec<String>)
        ensures
            r.deep_view() == self@.state.browser_executables,
    {
        self.state.browser_executables()
    }

    /// The GUI applications watched for hidden remote desktop use.
    pub fn hvnc_monitored_gui_apps(&self) -> (r: Vec<String>)
        ensures
            r.deep_view() == self@.state.hvnc_monitored_gui_apps,
    {
        self.state.hvnc_monitored_gui_apps()
    }
}

/// The handle through which the C interface holds a manager.
#[allow(non_camel_case_types)]
pub struct kinnector_config_t {
    manager: ConfigManager,
}

impl View for kinnector_config_t {
    type V = ManagerView;

    closed spec fn view(&self) -> ManagerView {
        self.manager@
    }
}

impl kinnector_config_t {
    /// A handle holding `manager`.
    pub fn new(manager: ConfigManager) -> (r: kinnector_config_t)
        ensures
            r@ == manager@,
    {
        kinnector_config_t { manager }
    }

    /// The manager held by this handle.
    pub fn manager(&self) -> (r: &ConfigManager)
        ensures
            r@ == self@,
    {
        &self.manager
    }
}

} // verus!
