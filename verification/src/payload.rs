//! The decoded contents of a rules payload and of the JSON lists that sit
//! beside a database, as plain values, and the tables derived from them.
use vstd::prelude::*;
use crate::model::{
    append_missing, fold_map, keys_distinct, lemma_append_missing_step, lemma_fold_map_replace,
    lemma_fold_map_step, lemma_keys_distinct_push, lemma_present_step, present,
};

verus! {

/// A trusted signer entry of a payload; entries without a name are ignored.
#[derive(Debug, Clone)]
pub struct SignerEntry {
    pub signer_name: Option<String>,
    pub team_id: Option<String>,
}

/// A path with category flags (a trusted CLI or a sensitive file); entries
/// without a path are ignored.
#[derive(Debug, Clone)]
pub struct FlaggedPath {
    pub path: Option<String>,
    pub category_flags: u32,
}

impl DeepView for SignerEntry {
    type V = (Option<Seq<char>>, Option<Seq<char>>);

    open spec fn deep_view(&self) -> (Option<Seq<char>>, Option<Seq<char>>) {
        (self.signer_name.deep_view(), self.team_id.deep_view())
    }
}

impl DeepView for FlaggedPath {
    type V = (Option<Seq<char>>, u32);

    open spec fn deep_view(&self) -> (Option<Seq<char>>, u32) {
        (self.path.deep_view(), self.category_flags)
    }
}

/// The tables of a rules payload, in the order in which they are stored.
/// An absent table is an empty one.
#[derive(Debug, Clone)]
pub struct RulesPayload {
    pub exclusions: Vec<Option<String>>,
    pub trusted_signers: Vec<SignerEntry>,
    pub trusted_clis: Vec<FlaggedPath>,
    pub network_cdns: Vec<Option<String>>,
    pub sensitive_files: Vec<FlaggedPath>,
}

/// A rules payload as mathematical values.
pub ghost struct RulesView {
    pub exclusions: Seq<Option<Seq<char>>>,
    pub trusted_signers: Seq<(Option<Seq<char>>, Option<Seq<char>>)>,
    pub trusted_clis: Seq<(Option<Seq<char>>, u32)>,
    pub network_cdns: Seq<Option<Seq<char>>>,
    pub sensitive_files: Seq<(Option<Seq<char>>, u32)>,
}

impl View for RulesPayload {
    type V = RulesView;

    open spec fn view(&self) -> RulesView {
        RulesView {
            exclusions: self.exclusions.deep_view(),
            trusted_signers: self.trusted_signers.deep_view(),
            trusted_clis: self.trusted_clis.deep_view(),
            network_cdns: self.network_cdns.deep_view(),
            sensitive_files: self.sensitive_files.deep_view(),
        }
    }
}

/// The lists read from the JSON files of the configuration directory.
#[derive(Debug, Clone)]
pub struct ExternalLists {
    pub network_cdns: Vec<String>,
    pub web_processes: Vec<String>,
    pub persistence_paths: Vec<String>,
    pub protected_binaries: Vec<String>,
    pub terminal_rce_patterns: Vec<String>,
    pub installer_binaries: Vec<String>,
    pub shell_profile_paths: Vec<String>,
    pub sensitive_credential_paths: Vec<String>,
    pub script_interpreters: Vec<String>,
    pub interactive_shells: Vec<String>,
    pub browser_executables: Vec<String>,
    pub hvnc_monitored_gui_apps: Vec<String>,
    pub protected_application_directories: Vec<(String, String)>,
}

/// The JSON lists as mathematical values.
pub ghost struct ExternalView {
    pub network_cdns: Seq<Seq<char>>,
    pub web_processes: Seq<Seq<char>>,
    pub persistence_paths: Seq<Seq<char>>,
    pub protected_binaries: Seq<Seq<char>>,
    pub terminal_rce_patterns: Seq<Seq<char>>,
    pub installer_binaries: Seq<Seq<char>>,
    pub shell_profile_paths: Seq<Seq<char>>,
    pub sensitive_credential_paths: Seq<Seq<char>>,
    pub script_interpreters: Seq<Seq<char>>,
    pub interactive_shells: Seq<Seq<char>>,
    pub browser_executables: Seq<Seq<char>>,
    pub hvnc_monitored_gui_apps: Seq<Seq<char>>,
    pub protected_application_directories: Seq<(Seq<char>, Seq<char>)>,
}

impl View for ExternalLists {
    type V = ExternalView;

    open spec fn view(&self) -> ExternalView {
        ExternalView {
            network_cdns: self.network_cdns.deep_view(),
            web_processes: self.web_processes.deep_view(),
            persistence_paths: self.persistence_paths.deep_view(),
            protected_binaries: self.protected_binaries.deep_view(),
            terminal_rce_patterns: self.terminal_rce_patterns.deep_view(),
            installer_binaries: self.installer_binaries.deep_view(),
            shell_profile_paths: self.shell_profile_paths.deep_view(),
            sensitive_credential_paths: self.sensitive_credential_paths.deep_view(),
            script_interpreters: self.script_interpreters.deep_view(),
            interactive_shells: self.interactive_shells.deep_view(),
            browser_executables: self.browser_executables.deep_view(),
            hvnc_monitored_gui_apps: self.hvnc_monitored_gui_apps.deep_view(),
            protected_application_directories: self.protected_application_directories.deep_view(),
        }
    }
}

impl ExternalLists {
    /// No JSON lists at all.
    pub fn empty() -> (r: ExternalLists)
        ensures
            r@.network_cdns.len() == 0,
            r@.web_processes.len() == 0,
            r@.persistence_paths.len() == 0,
            r@.protected_binaries.len() == 0,
            r@.terminal_rce_patterns.len() == 0,
            r@.installer_binaries.len() == 0,
            r@.shell_profile_paths.len() == 0,
            r@.sensitive_credential_paths.len() == 0,
            r@.script_interpreters.len() == 0,
            r@.interactive_shells.len() == 0,
            r@.browser_executables.len() == 0,
            r@.hvnc_monitored_gui_apps.len() == 0,
            r@.protected_application_directories.len() == 0,
    {
        ExternalLists {
            network_cdns: Vec::new(),
            web_processes: Vec::new(),
            persistence_paths: Vec::new(),
            protected_binaries: Vec::new(),
            terminal_rce_patterns: Vec::new(),
            installer_binaries: Vec::new(),
            shell_profile_paths: Vec::new(),
            sensitive_credential_paths: Vec::new(),
            script_interpreters: Vec::new(),
            interactive_shells: Vec::new(),
            browser_executables: Vec::new(),
            hvnc_monitored_gui_apps: Vec::new(),
            protected_application_directories: Vec::new(),
        }
    }
}

/// The named signers of `s` with their team identifiers.
pub open spec fn named_signers(s: Seq<(Option<Seq<char>>, Option<Seq<char>>)>) -> Seq<
    (Seq<char>, Option<Seq<char>>),
> {
    present(
        s.map_values(
            |e: (Option<Seq<char>>, Option<Seq<char>>)|
                match e.0 {
                    Some(n) => Some((n, e.1)),
                    None => None,
                },
        ),
    )
}

/// The entries of `s` that have a path, as (path, flags) pairs.
pub open spec fn flagged_entries(s: Seq<(Option<Seq<char>>, u32)>) -> Seq<(Seq<char>, u32)> {
    present(
        s.map_values(
            |e: (Option<Seq<char>>, u32)|
                match e.0 {
                    Some(p) => Some((p, e.1)),
                    None => None,
                },
        ),
    )
}

/// The paths of the entries of `s` that have a path and the bit `bit` set.
pub open spec fn paths_with_bit(s: Seq<(Option<Seq<char>>, u32)>, bit: u32) -> Seq<Seq<char>> {
    present(
        s.map_values(|e: (Option<Seq<char>>, u32)| if e.1 & bit != 0 { e.0 } else { None }),
    )
}

fn clone_opt_string(o: &Option<String>) -> (r: Option<String>)
    ensures
        r.deep_view() == o.deep_view(),
{
    match o {
        Some(s) => Some(s.clone()),
        None => None,
    }
}

/// A copy of the list `v`.
pub fn clone_strings(v: &Vec<String>) -> (r: Vec<String>)
    ensures
        r.deep_view() == v.deep_view(),
{
    let r = v.clone();
    assert(r.deep_view() =~= v.deep_view());
    r
}

/// A copy of the pairs `v`.
pub fn clone_string_pairs(v: &Vec<(String, String)>) -> (r: Vec<(String, String)>)
    ensures
        r.deep_view() == v.deep_view(),
{
    let mut r: Vec<(String, String)> = Vec::new();
    let n = v.len();
    let mut i: usize = 0;
    while i < n
        invariant
            n == v.len(),
            i <= n,
            r.deep_view() =~= v.deep_view().take(i as int),
        decreases n - i,
    {
        let (a, b) = &v[i];
        let ghost before = r.deep_view();
        r.push((a.clone(), b.clone()));
        proof {
            assert(before.len() == i);
            assert(r@.len() == i + 1);
            assert(r.deep_view().len() == i + 1);
            assert(forall|k: int| 0 <= k < i ==> r.deep_view()[k] == before[k]);
            assert(r.deep_view()[i as int] == v.deep_view()[i as int]);
        }
        assert(r.deep_view() =~= v.deep_view().take(i + 1));
        i = i + 1;
    }
    assert(v.deep_view().take(n as int) =~= v.deep_view());
    r
}

/// The position of the pair of `r` whose key is `k`, if there is one.
fn position_of_key<V: DeepView>(r: &Vec<(String, V)>, k: &String) -> (o: Option<usize>)
    ensures
        match o {
            Some(j) => j < r.len() && r.deep_view()[j as int].0 == k@,
            None => forall|j: int| 0 <= j < r.len() ==> #[trigger] r.deep_view()[j].0 != k@,
        },
{
    let n = r.len();
    let mut j: usize = 0;
    while j < n
        invariant
            n == r.len(),
            j <= n,
            forall|m: int| 0 <= m < j ==> #[trigger] r.deep_view()[m].0 != k@,
        decreases n - j,
    {
        assert(r.deep_view()[j as int].0 == r@[j as int].0@);
        if r[j].0 == *k {
            return Some(j);
        }
        j = j + 1;
    }
    None
}

/// One pair per key of `v`, holding the value of the last pair of `v` with
/// that key, so that the pairs give the same map as `v`.
pub fn last_flag_pairs(v: &Vec<(String, u32)>) -> (r: Vec<(String, u32)>)
    ensures
        keys_distinct(r.deep_view()),
        fold_map(r.deep_view()) == fold_map(v.deep_view()),
{
    let mut r: Vec<(String, u32)> = Vec::new();
    let n = v.len();
    let mut i: usize = 0;
    while i < n
        invariant
            n == v.len(),
            i <= n,
            keys_distinct(r.deep_view()),
            fold_map(r.deep_view()) == fold_map(v.deep_view().take(i as int)),
        decreases n - i,
    {
        let (k, f) = &v[i];
        let f: u32 = *f;
        let ghost before = r.deep_view();
        proof {
            lemma_fold_map_step(v.deep_view(), i as int);
            assert(v.deep_view()[i as int] == (k@, f));
        }
        match position_of_key(&r, k) {
            Some(j) => {
                r.set(j, (k.clone(), f));
                proof {
                    assert(r.deep_view() =~= before.update(j as int, (before[j as int].0, f)));
                    lemma_fold_map_replace(before, j as int, f);
                }
            },
            None => {
                r.push((k.clone(), f));
                proof {
                    assert(r.deep_view() =~= before.push((k@, f)));
                    lemma_keys_distinct_push(before, (k@, f));
                }
            },
        }
        i = i + 1;
    }
    assert(v.deep_view().take(n as int) =~= v.deep_view());
    r
}

/// One pair per key of `v`, holding the value of the last pair of `v` with
/// that key, so that the pairs give the same map as `v`.
pub fn last_string_pairs(v: &Vec<(String, String)>) -> (r: Vec<(String, String)>)
    ensures
        keys_distinct(r.deep_view()),
        fold_map(r.deep_view()) == fold_map(v.deep_view()),
{
    let mut r: Vec<(String, String)> = Vec::new();
    let n = v.len();
    let mut i: usize = 0;
    while i < n
        invariant
            n == v.len(),
            i <= n,
            keys_distinct(r.deep_view()),
            fold_map(r.deep_view()) == fold_map(v.deep_view().take(i as int)),
        decreases n - i,
    {
        let (k, x) = &v[i];
        let ghost before = r.deep_view();
        proof {
            lemma_fold_map_step(v.deep_view(), i as int);
            assert(v.deep_view()[i as int] == (k@, x@));
        }
        match position_of_key(&r, k) {
            Some(j) => {
                r.set(j, (k.clone(), x.clone()));
                proof {
                    assert(r.deep_view() =~= before.update(j as int, (before[j as int].0, x@)));
                    lemma_fold_map_replace(before, j as int, x@);
                }
            },
            None => {
                r.push((k.clone(), x.clone()));
                proof {
                    assert(r.deep_view() =~= before.push((k@, x@)));
                    lemma_keys_distinct_push(before, (k@, x@));
                }
            },
        }
        i = i + 1;
    }
    assert(v.deep_view().take(n as int) =~= v.deep_view());
    r
}

/// The strings present among `items`, in order.
pub fn present_strings(items: &Vec<Option<String>>) -> (r: Vec<String>)
    ensures
        r.deep_view() == present(items.deep_view()),
{
    let ghost s = items.deep_view();
    let mut r: Vec<String> = Vec::new();
    let n = items.len();
    let mut i: usize = 0;
    while i < n
        invariant
            n == items.len(),
            s == items.deep_view(),
            i <= n,
            r.deep_view() =~= present(s.take(i as int)),
        decreases n - i,
    {
        proof {
            lemma_present_step(s, i as int);
        }
        match &items[i] {
            Some(x) => {
                r.push(x.clone());
            },
            None => {},
        }
        i = i + 1;
    }
    assert(s.take(n as int) =~= s);
    r
}

/// The named signers of `entries`, with their team identifiers, in order.
pub fn named_signer_pairs(entries: &Vec<SignerEntry>) -> (r: Vec<(String, Option<String>)>)
    ensures
        r.deep_view() == named_signers(entries.deep_view()),
{
    let ghost s = entries.deep_view();
    let ghost m = s.map_values(
        |e: (Option<Seq<char>>, Option<Seq<char>>)|
            match e.0 {
                Some(n) => Some((n, e.1)),
                None => None,
            },
    );
    let mut r: Vec<(String, Option<String>)> = Vec::new();
    let n = entries.len();
    let mut i: usize = 0;
    while i < n
        invariant
            n == entries.len(),
            s == entries.deep_view(),
            m.len() == s.len(),
            forall|k: int| 0 <= k < s.len() ==> #[trigger] m[k] == match s[k].0 {
                Some(x) => Some((x, s[k].1)),
                None => None,
            },
            i <= n,
            r.deep_view() =~= present(m.take(i as int)),
        decreases n - i,
    {
        proof {
            lemma_present_step(m, i as int);
        }
        let e = &entries[i];
        match &e.signer_name {
            Some(x) => {
                r.push((x.clone(), clone_opt_string(&e.team_id)));
            },
            None => {},
        }
        i = i + 1;
    }
    assert(m.take(n as int) =~= m);
    r
}

/// The entries of `entries` that have a path, as (path, flags) pairs, in order.
pub fn flagged_pairs(entries: &Vec<FlaggedPath>) -> (r: Vec<(String, u32)>)
    ensures
        r.deep_view() == flagged_entries(entries.deep_view()),
{
    let ghost s = entries.deep_view();
    let ghost m = s.map_values(
        |e: (Option<Seq<char>>, u32)|
            match e.0 {
                Some(p) => Some((p, e.1)),
                None => None,
            },
    );
    let mut r: Vec<(String, u32)> = Vec::new();
    let n = entries.len();
    let mut i: usize = 0;
    while i < n
        invariant
            n == entries.len(),
            s == entries.deep_view(),
            m.len() == s.len(),
            forall|k: int| 0 <= k < s.len() ==> #[trigger] m[k] == match s[k].0 {
                Some(p) => Some((p, s[k].1)),
                None => None,
            },
            i <= n,
            r.deep_view() =~= present(m.take(i as int)),
        decreases n - i,
    {
        proof {
            lemma_present_step(m, i as int);
        }
        let e = &entries[i];
        match &e.path {
            Some(p) => {
                r.push((p.clone(), e.category_flags));
            },
            None => {},
        }
        i = i + 1;
    }
    assert(m.take(n as int) =~= m);
    r
}

/// The paths of the entries of `entries` that have the bit `bit` set, in order.
pub fn paths_flagged(entries: &Vec<FlaggedPath>, bit: u32) -> (r: Vec<String>)
    ensures
        r.deep_view() == paths_with_bit(entries.deep_view(), bit),
{
    let ghost s = entries.deep_view();
    let ghost m = s.map_values(
        |e: (Option<Seq<char>>, u32)| if e.1 & bit != 0 { e.0 } else { None },
    );
    let mut r: Vec<String> = Vec::new();
    let n = entries.len();
    let mut i: usize = 0;
    while i < n
        invariant
            n == entries.len(),
            s == entries.deep_view(),
            m.len() == s.len(),
            forall|k: int| 0 <= k < s.len() ==> #[trigger] m[k] == if s[k].1 & bit != 0 {
                s[k].0
            } else {
                None
            },
            i <= n,
            r.deep_view() =~= present(m.take(i as int)),
        decreases n - i,
    {
        proof {
            lemma_present_step(m, i as int);
        }
        let e = &entries[i];
        if e.category_flags & bit != 0 {
            match &e.path {
                Some(p) => {
                    r.push(p.clone());
                },
                None => {},
            }
        }
        i = i + 1;
    }
    assert(m.take(n as int) =~= m);
    r
}

/// Whether `v` holds the text `s`.
pub fn contains_string(v: &Vec<String>, s: &String) -> (r: bool)
    ensures
        r == v.deep_view().contains(s@),
{
    let n = v.len();
    let mut i: usize = 0;
    while i < n
        invariant
            n == v.len(),
            i <= n,
            forall|k: int| 0 <= k < i ==> v.deep_view()[k] != s@,
        decreases n - i,
    {
        if v[i] == *s {
            assert(v.deep_view()[i as int] == s@);
            return true;
        }
        i = i + 1;
    }
    false
}

/// `base` followed by the items of `extra` it does not already hold, each
/// added once, in the order of `extra`.
pub fn merge_missing(base: Vec<String>, extra: &Vec<String>) -> (r: Vec<String>)
    ensures
        r.deep_view() == append_missing(base.deep_view(), extra.deep_view()),
{
    let ghost b = base.deep_view();
    let ghost e = extra.deep_view();
    let mut r = base;
    let n = extra.len();
    let mut i: usize = 0;
    assert(e.take(0) =~= Seq::<Seq<char>>::empty());
    while i < n
        invariant
            n == extra.len(),
            e == extra.deep_view(),
            i <= n,
            r.deep_view() =~= append_missing(b, e.take(i as int)),
        decreases n - i,
    {
        proof {
            lemma_append_missing_step(b, e, i as int);
        }
        if !contains_string(&r, &extra[i]) {
            r.push(extra[i].clone());
        }
        i = i + 1;
    }
    assert(e.take(n as int) =~= e);
    r
}

} // verus!
