//! Properties that hold across the operations of the library.
use vstd::prelude::*;
use crate::category::{category_flag, flag_of_name, Category};
use crate::crypto::{ed25519_key_decodes, ed25519_signature_verifies};
use crate::database::verified_header;
use crate::error::ConfigError;
use crate::header::{database_header, HeaderView, le_u32_at, payload_bytes, HEADER_LEN};
use crate::manager::{decoded_view, decodes_by_bytes, reload_outcome, ManagerView};
use crate::model::{
    lemma_append_missing, lemma_fold_map_keys, lemma_fold_map_last, lemma_present_contains, present,
};
use crate::payload::{
    flagged_entries, named_signers, paths_with_bit, ExternalView, RulesPayload, RulesView,
};
use crate::state::{binary_matches, domain_matches, path_under_any, state_from, ConfigView};
use crate::text::{
    ascii_lower, capital_sigma, has_infix, occurs_at, forward_slashes, is_ascii_text, lemma_lowercased_concat, lowercased,
    normalized_path,
};

verus! {

/// Every database that is accepted under a key carries, in its first 64
/// bytes, a signature of its payload that verifies under that key, and
/// holds the whole payload that its header announces.
pub proof fn lemma_accepted_database_is_signed(key: Seq<u8>, buf: Seq<u8>)
    ensures
        verified_header(key, buf) matches Ok(h) ==> {
            &&& ed25519_key_decodes(key)
            &&& ed25519_signature_verifies(key, payload_bytes(buf, h.payload_len), h.signature)
            &&& h.signature == buf.subrange(0, 64)
            &&& buf.len() >= HEADER_LEN + h.payload_len
        },
{
}

/// The path queries look only at the normalized form of the path: two
/// paths that are the same once lowercased and with forward slashes get
/// the same answers.
pub proof fn lemma_path_queries_normalized(
    prefixes: Seq<Seq<char>>,
    binary: Seq<char>,
    a: Seq<char>,
    b: Seq<char>,
)
    requires
        normalized_path(a) == normalized_path(b),
    ensures
        path_under_any(prefixes, a) == path_under_any(prefixes, b),
        binary_matches(binary, a) == binary_matches(binary, b),
{
}

/// A CDN pattern `*.base` allows `base` itself and every domain that ends
/// in `.base`; any other pattern allows the domain equal to it.
pub proof fn lemma_domain_patterns(pattern: Seq<char>, label: Seq<char>)
    ensures
        pattern.len() >= 2 && pattern[0] == '*' && pattern[1] == '.' ==> {
            &&& domain_matches(pattern, pattern.skip(2))
            &&& domain_matches(pattern, label + seq!['.'] + pattern.skip(2))
        },
        !(pattern.len() >= 2 && pattern[0] == '*' && pattern[1] == '.') ==> domain_matches(
            pattern,
            pattern,
        ),
{
    if pattern.len() >= 2 && pattern[0] == '*' && pattern[1] == '.' {
        let base = pattern.skip(2);
        let d = label + seq!['.'] + base;
        assert(d.subrange(d.len() - (base.len() + 1), d.len() as int) =~= seq!['.'] + base);
    }
}

/// Building the tables keeps each JSON list that the database extends as
/// it was, at the front; the extended list holds exactly the entries of
/// the JSON list and the database entries that extend it (the CDNs, the
/// CLIs flagged web process or protected binary, the files flagged
/// persistence path); and no entry is added twice to a list that had none
/// twice.
pub proof fn lemma_built_lists_merge(version: u32, epoch_timestamp: u64, p: RulesView, e: ExternalView)
    ensures
        ({
            let s = state_from(version, epoch_timestamp, p, e);
            let web = paths_with_bit(p.trusted_clis, category_flag(Category::WebProcess));
            let protected = paths_with_bit(p.trusted_clis, category_flag(Category::ProtectedBinary));
            let persistence = paths_with_bit(
                p.sensitive_files,
                category_flag(Category::PersistencePath),
            );
            &&& e.network_cdns.is_prefix_of(s.network_cdns)
            &&& e.web_processes.is_prefix_of(s.web_processes)
            &&& e.protected_binaries.is_prefix_of(s.protected_binaries)
            &&& e.persistence_paths.is_prefix_of(s.persistence_paths)
            &&& forall|x: Seq<char>|
                s.network_cdns.contains(x) <==> e.network_cdns.contains(x)
                    || present(p.network_cdns).contains(x)
            &&& forall|x: Seq<char>|
                s.web_processes.contains(x) <==> e.web_processes.contains(x) || web.contains(x)
            &&& forall|x: Seq<char>|
                s.protected_binaries.contains(x) <==> e.protected_binaries.contains(x)
                    || protected.contains(x)
            &&& forall|x: Seq<char>|
                s.persistence_paths.contains(x) <==> e.persistence_paths.contains(x)
                    || persistence.contains(x)
            &&& e.network_cdns.no_duplicates() ==> s.network_cdns.no_duplicates()
            &&& e.web_processes.no_duplicates() ==> s.web_processes.no_duplicates()
            &&& e.protected_binaries.no_duplicates() ==> s.protected_binaries.no_duplicates()
            &&& e.persistence_paths.no_duplicates() ==> s.persistence_paths.no_duplicates()
        }),
{
    lemma_append_missing(e.network_cdns, present(p.network_cdns));
    lemma_append_missing(
        e.web_processes,
        paths_with_bit(p.trusted_clis, category_flag(Category::WebProcess)),
    );
    lemma_append_missing(
        e.protected_binaries,
        paths_with_bit(p.trusted_clis, category_flag(Category::ProtectedBinary)),
    );
    lemma_append_missing(
        e.persistence_paths,
        paths_with_bit(p.sensitive_files, category_flag(Category::PersistencePath)),
    );
}

/// Among the CLI entries of a payload that carry a path, the last one
/// with a given path decides that path's flags in the table; likewise for
/// sensitive files.
pub proof fn lemma_last_entry_wins(
    version: u32,
    epoch_timestamp: u64,
    p: RulesView,
    e: ExternalView,
    j: int,
)
    ensures
        ({
            let clis = flagged_entries(p.trusted_clis);
            (0 <= j < clis.len() && forall|m: int| j < m < clis.len() ==> clis[m].0 != clis[j].0)
                ==> state_from(version, epoch_timestamp, p, e).trusted_clis.contains_key(clis[j].0)
                && state_from(version, epoch_timestamp, p, e).trusted_clis[clis[j].0] == clis[j].1
        }),
        ({
            let files = flagged_entries(p.sensitive_files);
            (0 <= j < files.len() && forall|m: int|
                j < m < files.len() ==> files[m].0 != files[j].0) ==> state_from(
                version,
                epoch_timestamp,
                p,
                e,
            ).sensitive_files.contains_key(files[j].0) && state_from(
                version,
                epoch_timestamp,
                p,
                e,
            ).sensitive_files[files[j].0] == files[j].1
        }),
{
    let clis = flagged_entries(p.trusted_clis);
    if 0 <= j < clis.len() && forall|m: int| j < m < clis.len() ==> clis[m].0 != clis[j].0 {
        lemma_fold_map_last(clis, j, clis[j].0);
    }
    let files = flagged_entries(p.sensitive_files);
    if 0 <= j < files.len() && forall|m: int| j < m < files.len() ==> files[m].0 != files[j].0 {
        lemma_fold_map_last(files, j, files[j].0);
    }
}

/// The exclusions, trusted CLIs and trusted signers of the tables are
/// exactly those that the payload lists with a path (or a name): nothing is
/// lost and nothing is made up.
pub proof fn lemma_tables_hold_listed_entries(
    version: u32,
    epoch_timestamp: u64,
    p: RulesView,
    e: ExternalView,
    k: Seq<char>,
    team: Option<Seq<char>>,
)
    ensures
        state_from(version, epoch_timestamp, p, e).exclusions.contains(k) <==> exists|i: int|
            0 <= i < p.exclusions.len() && p.exclusions[i] == Some(k),
        state_from(version, epoch_timestamp, p, e).trusted_clis.contains_key(k) <==> exists|i: int|
            0 <= i < p.trusted_clis.len() && p.trusted_clis[i].0 == Some(k),
        state_from(version, epoch_timestamp, p, e).sensitive_files.contains_key(k)
            <==> exists|i: int| 0 <= i < p.sensitive_files.len() && p.sensitive_files[i].0 == Some(k),
        state_from(version, epoch_timestamp, p, e).trusted_signers.contains((k, team))
            <==> exists|i: int|
            0 <= i < p.trusted_signers.len() && p.trusted_signers[i] == (Some(k), team),
{
    lemma_present_contains(p.exclusions, k);
    lemma_flagged_keys(p.trusted_clis, k);
    lemma_flagged_keys(p.sensitive_files, k);
    let m = p.trusted_signers.map_values(
        |x: (Option<Seq<char>>, Option<Seq<char>>)|
            match x.0 {
                Some(n) => Some((n, x.1)),
                None => None,
            },
    );
    lemma_present_contains(m, (k, team));
    assert(named_signers(p.trusted_signers) == crate::model::present(m));
    if exists|i: int| 0 <= i < p.trusted_signers.len() && p.trusted_signers[i] == (Some(k), team) {
        let i = choose|i: int|
            0 <= i < p.trusted_signers.len() && p.trusted_signers[i] == (Some(k), team);
        assert(m[i] == Some((k, team)));
    }
}

proof fn lemma_flagged_keys(s: Seq<(Option<Seq<char>>, u32)>, k: Seq<char>)
    ensures
        crate::model::fold_map(flagged_entries(s)).contains_key(k) <==> exists|i: int|
            0 <= i < s.len() && s[i].0 == Some(k),
{
    let m = s.map_values(
        |x: (Option<Seq<char>>, u32)|
            match x.0 {
                Some(q) => Some((q, x.1)),
                None => None,
            },
    );
    let fe = flagged_entries(s);
    assert(fe == present(m));
    lemma_fold_map_keys(fe, k);
    if crate::model::fold_map(fe).contains_key(k) {
        let j = choose|j: int| 0 <= j < fe.len() && fe[j].0 == k;
        lemma_present_contains(m, fe[j]);
        assert(fe.contains(fe[j]));
        let i = choose|i: int| 0 <= i < m.len() && m[i] == Some(fe[j]);
        assert(s[i].0 == Some(k));
    }
    if exists|i: int| 0 <= i < s.len() && s[i].0 == Some(k) {
        let i = choose|i: int| 0 <= i < s.len() && s[i].0 == Some(k);
        let pair = (k, s[i].1);
        assert(m[i] == Some(pair));
        lemma_present_contains(m, pair);
        let j = choose|j: int| 0 <= j < fe.len() && fe[j] == pair;
        assert(fe[j].0 == k);
    }
}

/// The capital letter of an ASCII small letter; any other character as it is.
pub open spec fn ascii_upper(c: char) -> char {
    if 'a' <= c && c <= 'z' {
        ((c as u32) - 32) as char
    } else {
        c
    }
}

/// `s` with every ASCII small letter turned into its capital letter.
pub open spec fn ascii_uppercase(s: Seq<char>) -> Seq<char> {
    s.map_values(|c: char| ascii_upper(c))
}

/// `s` with every forward slash turned into a backslash.
pub open spec fn back_slashes(s: Seq<char>) -> Seq<char> {
    s.map_values(|c: char| if c == '/' { '\\' } else { c })
}

proof fn lemma_normalized_concat(s: Seq<char>, t: Seq<char>)
    requires
        !s.contains(capital_sigma()),
        !t.contains(capital_sigma()),
    ensures
        normalized_path(s + t) == normalized_path(s) + normalized_path(t),
{
    lemma_lowercased_concat(s, t);
    assert(normalized_path(s + t) =~= normalized_path(s) + normalized_path(t));
}

/// An excluded path stays excluded when text is added to its end, for
/// paths without a capital sigma (whose lowercase form depends on what
/// follows it).
pub proof fn lemma_excluded_path_extended(prefixes: Seq<Seq<char>>, s: Seq<char>, t: Seq<char>)
    requires
        !s.contains(capital_sigma()),
        !t.contains(capital_sigma()),
        path_under_any(prefixes, s),
    ensures
        path_under_any(prefixes, s + t),
{
    lemma_normalized_concat(s, t);
    let i = choose|i: int|
        0 <= i < prefixes.len() && #[trigger] normalized_path(prefixes[i]).is_prefix_of(
            normalized_path(s),
        );
    let p = normalized_path(prefixes[i]);
    let a = normalized_path(s);
    let b = normalized_path(t);
    assert((a + b).subrange(0, p.len() as int) =~= a.subrange(0, p.len() as int));
    assert(p.is_prefix_of(normalized_path(s + t)));
}

/// For ASCII paths the path queries ignore letter case and the kind of
/// slash: the path in capitals, or with backslashes for its forward
/// slashes, gets the same answers as the path itself.
pub proof fn lemma_path_queries_ignore_ascii_case_and_slashes(
    prefixes: Seq<Seq<char>>,
    binary: Seq<char>,
    s: Seq<char>,
)
    requires
        is_ascii_text(s),
    ensures
        path_under_any(prefixes, ascii_uppercase(s)) == path_under_any(prefixes, s),
        binary_matches(binary, ascii_uppercase(s)) == binary_matches(binary, s),
        path_under_any(prefixes, back_slashes(s)) == path_under_any(prefixes, s),
        binary_matches(binary, back_slashes(s)) == binary_matches(binary, s),
{
    let u = ascii_uppercase(s);
    let w = back_slashes(s);
    assert forall|i: int| 0 <= i < u.len() implies (#[trigger] u[i] as u32) < 128 by {
        assert(u[i] == ascii_upper(s[i]));
        assert((s[i] as u32) < 128);
    }
    assert forall|i: int| 0 <= i < w.len() implies (#[trigger] w[i] as u32) < 128 by {
        assert((s[i] as u32) < 128);
    }
    assert forall|i: int| 0 <= i < s.len() implies #[trigger] ascii_lower(ascii_upper(s[i]))
        == ascii_lower(s[i]) by {
        let c = s[i];
        if 'a' <= c && c <= 'z' {
            assert(ascii_upper(c) as u32 == (c as u32) - 32);
        }
    }
    assert(normalized_path(u) =~= normalized_path(s)) by {
        assert(lowercased(u) =~= lowercased(s)) by {
            assert forall|i: int| 0 <= i < s.len() implies lowercased(u)[i] == lowercased(s)[i] by {
                assert(u[i] == ascii_upper(s[i]));
                assert(ascii_lower(ascii_upper(s[i])) == ascii_lower(s[i]));
            }
        }
    }
    assert(normalized_path(w) =~= normalized_path(s)) by {
        assert forall|i: int| 0 <= i < s.len() implies forward_slashes(lowercased(w))[i]
            == forward_slashes(lowercased(s))[i] by {
            assert(w[i] == if s[i] == '/' { '\\' } else { s[i] });
        }
    }
    lemma_path_queries_normalized(prefixes, binary, u, s);
    lemma_path_queries_normalized(prefixes, binary, w, s);
}

/// An ASCII policy name stands for the same bit once it has been
/// lowercased: lowercasing it again changes nothing.
pub proof fn lemma_flag_of_lowercased_name(s: Seq<char>)
    requires
        is_ascii_text(s),
    ensures
        lowercased(lowercased(s)) == lowercased(s),
        flag_of_name(lowercased(lowercased(s))) == flag_of_name(lowercased(s)),
{
    let t = lowercased(s);
    assert forall|i: int| 0 <= i < t.len() implies (#[trigger] t[i] as u32) < 128 && ascii_lower(
        t[i],
    ) == t[i] by {
        let c = s[i];
        assert((c as u32) < 128);
        if 'A' <= c && c <= 'Z' {
            assert(ascii_lower(c) as u32 == (c as u32) + 32);
        }
    }
    assert(lowercased(t) =~= t);
}

/// Two reloads of one manager agree when their files get the same verdict
/// from framing and signature and, where both are accepted, announce the
/// same payload bytes: with a decoder whose answer is a function of the
/// bytes, the results are equal, and the tables afterwards are built from
/// the same payload view.
proof fn lemma_reload_outcomes_agree<F: Fn(&[u8]) -> Option<RulesPayload>>(
    decode: F,
    m: ManagerView,
    b1: Seq<u8>,
    b2: Seq<u8>,
    external: ExternalView,
    r1: Result<(), ConfigError>,
    n1: ManagerView,
    r2: Result<(), ConfigError>,
    n2: ManagerView,
)
    requires
        decodes_by_bytes(decode),
        reload_outcome(decode, m, b1, external, r1, n1),
        reload_outcome(decode, m, b2, external, r2, n2),
        match (verified_header(m.public_key, b1), verified_header(m.public_key, b2)) {
            (Err(e1), Err(e2)) => e1 == e2,
            (Ok(h1), Ok(h2)) => payload_bytes(b1, h1.payload_len) == payload_bytes(
                b2,
                h2.payload_len,
            ),
            _ => false,
        },
    ensures
        r1 == r2,
        r1 is Err ==> n1 == m && n2 == m,
        r1 is Ok ==> exists|p: RulesView|
            n1 == (ManagerView {
                state: state_from(
                    verified_header(m.public_key, b1)->Ok_0.version,
                    verified_header(m.public_key, b1)->Ok_0.epoch_timestamp,
                    p,
                    external,
                ),
                ..m
            }) && n2 == (ManagerView {
                state: state_from(
                    verified_header(m.public_key, b2)->Ok_0.version,
                    verified_header(m.public_key, b2)->Ok_0.epoch_timestamp,
                    p,
                    external,
                ),
                ..m
            }),
{
    match verified_header(m.public_key, b1) {
        Err(e1) => {
            assert(verified_header(m.public_key, b2) == Err::<HeaderView, ConfigError>(e1));
        },
        Ok(h1) => {
            let h2 = verified_header(m.public_key, b2)->Ok_0;
            let bytes = payload_bytes(b1, h1.payload_len);
            match r1 {
                Ok(()) => {
                    let (s1, p1) = choose|s: &[u8], p: RulesPayload|
                        s@ == bytes && #[trigger] decode.ensures((s,), Some(p)) && n1 == (
                        ManagerView {
                            state: state_from(h1.version, h1.epoch_timestamp, p@, external),
                            ..m
                        });
                    match r2 {
                        Ok(()) => {
                            let (s2, p2) = choose|s: &[u8], p: RulesPayload|
                                s@ == bytes && #[trigger] decode.ensures((s,), Some(p)) && n2 == (
                                ManagerView {
                                    state: state_from(h2.version, h2.epoch_timestamp, p@, external),
                                    ..m
                                });
                            assert(decoded_view(Some(p1)) == decoded_view(Some(p2)));
                            assert(p1@ == p2@);
                            assert(r1->Ok_0 == r2->Ok_0);
                        },
                        Err(_) => {
                            let s2 = choose|s: &[u8]|
                                s@ == bytes && #[trigger] decode.ensures((s,), None::<RulesPayload>);
                            assert(decoded_view(Some(p1)) == decoded_view(None::<RulesPayload>));
                        },
                    }
                },
                Err(e1) => {
                    assert(e1 == ConfigError::InvalidPayload);
                    let s1 = choose|s: &[u8]|
                        s@ == bytes && #[trigger] decode.ensures((s,), None::<RulesPayload>);
                    if r2 is Ok {
                        let (s2, p2) = choose|s: &[u8], p: RulesPayload|
                            s@ == bytes && #[trigger] decode.ensures((s,), Some(p)) && n2 == (
                            ManagerView {
                                state: state_from(h2.version, h2.epoch_timestamp, p@, external),
                                ..m
                            });
                        assert(decoded_view(Some(p2)) == decoded_view(None::<RulesPayload>));
                    }
                },
            }
        },
    }
}

/// Reloading ignores the bytes that follow the payload that the header
/// announces: with a decoder whose answer is a function of the bytes it is
/// handed, a file whose header can be read (it is neither too small nor
/// truncated) and the same file followed by any further bytes give the same
/// result and leave the manager the same.
pub proof fn lemma_reload_ignores_trailing_bytes<F: Fn(&[u8]) -> Option<RulesPayload>>(
    decode: F,
    m: ManagerView,
    buf: Seq<u8>,
    extra: Seq<u8>,
    external: ExternalView,
    r1: Result<(), ConfigError>,
    n1: ManagerView,
    r2: Result<(), ConfigError>,
    n2: ManagerView,
)
    requires
        database_header(buf) is Ok,
        decodes_by_bytes(decode),
        reload_outcome(decode, m, buf, external, r1, n1),
        reload_outcome(decode, m, buf + extra, external, r2, n2),
    ensures
        r1 == r2,
        n1 == n2,
{
    let b2 = buf + extra;
    let h = database_header(buf)->Ok_0;
    assert forall|i: int| 0 <= i < buf.len() implies #[trigger] b2[i] == buf[i] by {}
    assert(b2[64] == buf[64] && b2[65] == buf[65] && b2[66] == buf[66] && b2[67] == buf[67]);
    assert(b2[68] == buf[68] && b2[69] == buf[69] && b2[70] == buf[70] && b2[71] == buf[71]);
    assert(b2[72] == buf[72] && b2[73] == buf[73] && b2[74] == buf[74] && b2[75] == buf[75]);
    assert(b2[76] == buf[76] && b2[77] == buf[77] && b2[78] == buf[78] && b2[79] == buf[79]);
    assert(b2.subrange(0, 64) =~= buf.subrange(0, 64));
    assert(database_header(b2) == database_header(buf));
    assert(payload_bytes(b2, h.payload_len) =~= payload_bytes(buf, h.payload_len));
    lemma_reload_outcomes_agree(decode, m, buf, b2, external, r1, n1, r2, n2);
}

/// The signature covers the payload alone, so the version and time fields
/// of the header (bytes 64 to 75) decide nothing but the version and time:
/// with a decoder whose answer is a function of the bytes it is handed, two
/// files that differ only there give the same result, and afterwards the
/// managers differ at most in their version and release time.
pub proof fn lemma_reload_ignores_version_and_time_bytes<F: Fn(&[u8]) -> Option<RulesPayload>>(
    decode: F,
    m: ManagerView,
    buf: Seq<u8>,
    buf2: Seq<u8>,
    external: ExternalView,
    r1: Result<(), ConfigError>,
    n1: ManagerView,
    r2: Result<(), ConfigError>,
    n2: ManagerView,
)
    requires
        buf2.len() == buf.len(),
        forall|i: int| 0 <= i < buf.len() && !(64 <= i < 76) ==> #[trigger] buf2[i] == buf[i],
        decodes_by_bytes(decode),
        reload_outcome(decode, m, buf, external, r1, n1),
        reload_outcome(decode, m, buf2, external, r2, n2),
    ensures
        r1 == r2,
        n1.path == n2.path,
        n1.public_key == n2.public_key,
        n1.state == (ConfigView {
            version: n1.state.version,
            epoch_timestamp: n1.state.epoch_timestamp,
            ..n2.state
        }),
{
    if buf.len() >= HEADER_LEN {
        assert(buf2[76] == buf[76] && buf2[77] == buf[77] && buf2[78] == buf[78] && buf2[79]
            == buf[79]);
        assert(le_u32_at(buf2, 76) == le_u32_at(buf, 76));
        if database_header(buf) is Ok {
            let h = database_header(buf)->Ok_0;
            assert(buf2.subrange(0, 64) =~= buf.subrange(0, 64));
            assert(payload_bytes(buf2, h.payload_len) =~= payload_bytes(buf, h.payload_len));
        }
    }
    lemma_reload_outcomes_agree(decode, m, buf, buf2, external, r1, n1, r2, n2);
    if r1 is Ok {
        let p = choose|p: RulesView|
            n1 == (ManagerView {
                state: state_from(
                    verified_header(m.public_key, buf)->Ok_0.version,
                    verified_header(m.public_key, buf)->Ok_0.epoch_timestamp,
                    p,
                    external,
                ),
                ..m
            }) && n2 == (ManagerView {
                state: state_from(
                    verified_header(m.public_key, buf2)->Ok_0.version,
                    verified_header(m.public_key, buf2)->Ok_0.epoch_timestamp,
                    p,
                    external,
                ),
                ..m
            });
        assert(n1.state =~= (ConfigView {
            version: n1.state.version,
            epoch_timestamp: n1.state.epoch_timestamp,
            ..n2.state
        }));
    }
}

/// The bit of each category in a rule's category flags: browser data 0x01,
/// wallets 0x04, application data 0x08, SSH keys 0x10, user keystores
/// 0x20, AI agents 0x40, web processes 0x80, system updates 0x100,
/// persistence paths 0x200, protected binaries 0x400.
pub proof fn lemma_category_bits()
    ensures
        category_flag(Category::BrowserDb) == 0x1,
        category_flag(Category::Wallet) == 0x4,
        category_flag(Category::AppData) == 0x8,
        category_flag(Category::SshKeys) == 0x10,
        category_flag(Category::UserKeystores) == 0x20,
        category_flag(Category::AiAgents) == 0x40,
        category_flag(Category::WebProcess) == 0x80,
        category_flag(Category::SystemUpdate) == 0x100,
        category_flag(Category::PersistencePath) == 0x200,
        category_flag(Category::ProtectedBinary) == 0x400,
{
}

/// Every spelling of a category name that policies accept, in lowercase,
/// stands for that category's bit.
pub proof fn lemma_policy_name_spellings()
    ensures
        flag_of_name("browserdb"@) == 0x1,
        flag_of_name("browser"@) == 0x1,
        flag_of_name("browser_db"@) == 0x1,
        flag_of_name("wallet"@) == 0x4,
        flag_of_name("crypto_wallet"@) == 0x4,
        flag_of_name("crypto"@) == 0x4,
        flag_of_name("appdata"@) == 0x8,
        flag_of_name("app_data"@) == 0x8,
        flag_of_name("app"@) == 0x8,
        flag_of_name("sshkeys"@) == 0x10,
        flag_of_name("ssh_keys"@) == 0x10,
        flag_of_name("ssh"@) == 0x10,
        flag_of_name("userkeystores"@) == 0x20,
        flag_of_name("user_keystores"@) == 0x20,
        flag_of_name("keystores"@) == 0x20,
        flag_of_name("keystore"@) == 0x20,
        flag_of_name("aiagents"@) == 0x40,
        flag_of_name("ai_agents"@) == 0x40,
        flag_of_name("agents"@) == 0x40,
        flag_of_name("agent"@) == 0x40,
        flag_of_name("webprocess"@) == 0x80,
        flag_of_name("web_process"@) == 0x80,
        flag_of_name("web"@) == 0x80,
        flag_of_name("systemupdate"@) == 0x100,
        flag_of_name("system_update"@) == 0x100,
        flag_of_name("update"@) == 0x100,
        flag_of_name("persistencepath"@) == 0x200,
        flag_of_name("persistence_path"@) == 0x200,
        flag_of_name("persistence"@) == 0x200,
        flag_of_name("protectedbinary"@) == 0x400,
        flag_of_name("protected_binary"@) == 0x400,
        flag_of_name("protected"@) == 0x400,
{
    assert(flag_of_name("browserdb"@) == 0x1) by {
        reveal_strlit("browserdb");
        assert("browserdb"@.len() == 9);
    }
    assert(flag_of_name("browser"@) == 0x1) by {
        reveal_strlit("browser");
        assert("browser"@.len() == 7);
    }
    assert(flag_of_name("browser_db"@) == 0x1) by {
        reveal_strlit("browser_db");
        assert("browser_db"@.len() == 10);
    }
    assert(flag_of_name("wallet"@) == 0x4) by {
        reveal_strlit("wallet");
        assert("wallet"@.len() == 6);
        reveal_strlit("browserdb");
        reveal_strlit("browser");
        reveal_strlit("browser_db");
    }
    assert(flag_of_name("crypto_wallet"@) == 0x4) by {
        reveal_strlit("crypto_wallet");
        assert("crypto_wallet"@.len() == 13);
        reveal_strlit("browserdb");
        reveal_strlit("browser");
        reveal_strlit("browser_db");
    }
    assert(flag_of_name("crypto"@) == 0x4) by {
        reveal_strlit("crypto");
        assert("crypto"@.len() == 6);
        reveal_strlit("browserdb");
        reveal_strlit("browser");
        reveal_strlit("browser_db");
    }
    assert(flag_of_name("appdata"@) == 0x8) by {
        reveal_strlit("appdata");
        assert("appdata"@.len() == 7);
        reveal_strlit("browserdb");
        reveal_strlit("browser");
        assert("appdata"@[0] != "browser"@[0]);
        reveal_strlit("browser_db");
        reveal_strlit("wallet");
        reveal_strlit("crypto_wallet");
        reveal_strlit("crypto");
    }
    assert(flag_of_name("app_data"@) == 0x8) by {
        reveal_strlit("app_data");
        assert("app_data"@.len() == 8);
        reveal_strlit("browserdb");
        reveal_strlit("browser");
        reveal_strlit("browser_db");
        reveal_strlit("wallet");
        reveal_strlit("crypto_wallet");
        reveal_strlit("crypto");
    }
    assert(flag_of_name("app"@) == 0x8) by {
        reveal_strlit("app");
        assert("app"@.len() == 3);
        reveal_strlit("browserdb");
        reveal_strlit("browser");
        reveal_strlit("browser_db");
        reveal_strlit("wallet");
        reveal_strlit("crypto_wallet");
        reveal_strlit("crypto");
    }
    assert(flag_of_name("sshkeys"@) == 0x10) by {
        reveal_strlit("sshkeys");
        assert("sshkeys"@.len() == 7);
        reveal_strlit("browserdb");
        reveal_strlit("browser");
        assert("sshkeys"@[0] != "browser"@[0]);
        reveal_strlit("browser_db");
        reveal_strlit("wallet");
        reveal_strlit("crypto_wallet");
        reveal_strlit("crypto");
        reveal_strlit("appdata");
        assert("sshkeys"@[0] != "appdata"@[0]);
        reveal_strlit("app_data");
        reveal_strlit("app");
    }
    assert(flag_of_name("ssh_keys"@) == 0x10) by {
        reveal_strlit("ssh_keys");
        assert("ssh_keys"@.len() == 8);
        reveal_strlit("browserdb");
        reveal_strlit("browser");
        reveal_strlit("browser_db");
        reveal_strlit("wallet");
        reveal_strlit("crypto_wallet");
        reveal_strlit("crypto");
        reveal_strlit("appdata");
        reveal_strlit("app_data");
        assert("ssh_keys"@[0] != "app_data"@[0]);
        reveal_strlit("app");
    }
    assert(flag_of_name("ssh"@) == 0x10) by {
        reveal_strlit("ssh");
        assert("ssh"@.len() == 3);
        reveal_strlit("browserdb");
        reveal_strlit("browser");
        reveal_strlit("browser_db");
        reveal_strlit("wallet");
        reveal_strlit("crypto_wallet");
        reveal_strlit("crypto");
        reveal_strlit("appdata");
        reveal_strlit("app_data");
        reveal_strlit("app");
        assert("ssh"@[0] != "app"@[0]);
    }
    assert(flag_of_name("userkeystores"@) == 0x20) by {
        reveal_strlit("userkeystores");
        assert("userkeystores"@.len() == 13);
        reveal_strlit("browserdb");
        reveal_strlit("browser");
        reveal_strlit("browser_db");
        reveal_strlit("wallet");
        reveal_strlit("crypto_wallet");
        assert("userkeystores"@[0] != "crypto_wallet"@[0]);
        reveal_strlit("crypto");
        reveal_strlit("appdata");
        reveal_strlit("app_data");
        reveal_strlit("app");
        reveal_strlit("sshkeys");
        reveal_strlit("ssh_keys");
        reveal_strlit("ssh");
    }
    assert(flag_of_name("user_keystores"@) == 0x20) by {
        reveal_strlit("user_keystores");
        assert("user_keystores"@.len() == 14);
        reveal_strlit("browserdb");
        reveal_strlit("browser");
        reveal_strlit("browser_db");
        reveal_strlit("wallet");
        reveal_strlit("crypto_wallet");
        reveal_strlit("crypto");
        reveal_strlit("appdata");
        reveal_strlit("app_data");
        reveal_strlit("app");
        reveal_strlit("sshkeys");
        reveal_strlit("ssh_keys");
        reveal_strlit("ssh");
    }
    assert(flag_of_name("keystores"@) == 0x20) by {
        reveal_strlit("keystores");
        assert("keystores"@.len() == 9);
        reveal_strlit("browserdb");
        assert("keystores"@[0] != "browserdb"@[0]);
        reveal_strlit("browser");
        reveal_strlit("browser_db");
        reveal_strlit("wallet");
        reveal_strlit("crypto_wallet");
        reveal_strlit("crypto");
        reveal_strlit("appdata");
        reveal_strlit("app_data");
        reveal_strlit("app");
        reveal_strlit("sshkeys");
        reveal_strlit("ssh_keys");
        reveal_strlit("ssh");
    }
    assert(flag_of_name("keystore"@) == 0x20) by {
        reveal_strlit("keystore");
        assert("keystore"@.len() == 8);
        reveal_strlit("browserdb");
        reveal_strlit("browser");
        reveal_strlit("browser_db");
        reveal_strlit("wallet");
        reveal_strlit("crypto_wallet");
        reveal_strlit("crypto");
        reveal_strlit("appdata");
        reveal_strlit("app_data");
        assert("keystore"@[0] != "app_data"@[0]);
        reveal_strlit("app");
        reveal_strlit("sshkeys");
        reveal_strlit("ssh_keys");
        assert("keystore"@[0] != "ssh_keys"@[0]);
        reveal_strlit("ssh");
    }
    assert(flag_of_name("aiagents"@) == 0x40) by {
        reveal_strlit("aiagents");
        assert("aiagents"@.len() == 8);
        reveal_strlit("browserdb");
        reveal_strlit("browser");
        reveal_strlit("browser_db");
        reveal_strlit("wallet");
        reveal_strlit("crypto_wallet");
        reveal_strlit("crypto");
        reveal_strlit("appdata");
        reveal_strlit("app_data");
        assert("aiagents"@[1] != "app_data"@[1]);
        reveal_strlit("app");
        reveal_strlit("sshkeys");
        reveal_strlit("ssh_keys");
        assert("aiagents"@[0] != "ssh_keys"@[0]);
        reveal_strlit("ssh");
        reveal_strlit("userkeystores");
        reveal_strlit("user_keystores");
        reveal_strlit("keystores");
        reveal_strlit("keystore");
        assert("aiagents"@[0] != "keystore"@[0]);
    }
    assert(flag_of_name("ai_agents"@) == 0x40) by {
        reveal_strlit("ai_agents");
        assert("ai_agents"@.len() == 9);
        reveal_strlit("browserdb");
        assert("ai_agents"@[0] != "browserdb"@[0]);
        reveal_strlit("browser");
        reveal_strlit("browser_db");
        reveal_strlit("wallet");
        reveal_strlit("crypto_wallet");
        reveal_strlit("crypto");
        reveal_strlit("appdata");
        reveal_strlit("app_data");
        reveal_strlit("app");
        reveal_strlit("sshkeys");
        reveal_strlit("ssh_keys");
        reveal_strlit("ssh");
        reveal_strlit("userkeystores");
        reveal_strlit("user_keystores");
        reveal_strlit("keystores");
        assert("ai_agents"@[0] != "keystores"@[0]);
        reveal_strlit("keystore");
    }
    assert(flag_of_name("agents"@) == 0x40) by {
        reveal_strlit("agents");
        assert("agents"@.len() == 6);
        reveal_strlit("browserdb");
        reveal_strlit("browser");
        reveal_strlit("browser_db");
        reveal_strlit("wallet");
        assert("agents"@[0] != "wallet"@[0]);
        reveal_strlit("crypto_wallet");
        reveal_strlit("crypto");
        assert("agents"@[0] != "crypto"@[0]);
        reveal_strlit("appdata");
        reveal_strlit("app_data");
        reveal_strlit("app");
        reveal_strlit("sshkeys");
        reveal_strlit("ssh_keys");
        reveal_strlit("ssh");
        reveal_strlit("userkeystores");
        reveal_strlit("user_keystores");
        reveal_strlit("keystores");
        reveal_strlit("keystore");
    }
    assert(flag_of_name("agent"@) == 0x40) by {
        reveal_strlit("agent");
        assert("agent"@.len() == 5);
        reveal_strlit("browserdb");
        reveal_strlit("browser");
        reveal_strlit("browser_db");
        reveal_strlit("wallet");
        reveal_strlit("crypto_wallet");
        reveal_strlit("crypto");
        reveal_strlit("appdata");
        reveal_strlit("app_data");
        reveal_strlit("app");
        reveal_strlit("sshkeys");
        reveal_strlit("ssh_keys");
        reveal_strlit("ssh");
        reveal_strlit("userkeystores");
        reveal_strlit("user_keystores");
        reveal_strlit("keystores");
        reveal_strlit("keystore");
    }
    assert(flag_of_name("webprocess"@) == 0x80) by {
        reveal_strlit("webprocess");
        assert("webprocess"@.len() == 10);
        reveal_strlit("browserdb");
        reveal_strlit("browser");
        reveal_strlit("browser_db");
        assert("webprocess"@[0] != "browser_db"@[0]);
        reveal_strlit("wallet");
        reveal_strlit("crypto_wallet");
        reveal_strlit("crypto");
        reveal_strlit("appdata");
        reveal_strlit("app_data");
        reveal_strlit("app");
        reveal_strlit("sshkeys");
        reveal_strlit("ssh_keys");
        reveal_strlit("ssh");
        reveal_strlit("userkeystores");
        reveal_strlit("user_keystores");
        reveal_strlit("keystores");
        reveal_strlit("keystore");
        reveal_strlit("aiagents");
        reveal_strlit("ai_agents");
        reveal_strlit("agents");
        reveal_strlit("agent");
    }
    assert(flag_of_name("web_process"@) == 0x80) by {
        reveal_strlit("web_process");
        assert("web_process"@.len() == 11);
        reveal_strlit("browserdb");
        reveal_strlit("browser");
        reveal_strlit("browser_db");
        reveal_strlit("wallet");
        reveal_strlit("crypto_wallet");
        reveal_strlit("crypto");
        reveal_strlit("appdata");
        reveal_strlit("app_data");
        reveal_strlit("app");
        reveal_strlit("sshkeys");
        reveal_strlit("ssh_keys");
        reveal_strlit("ssh");
        reveal_strlit("userkeystores");
        reveal_strlit("user_keystores");
        reveal_strlit("keystores");
        reveal_strlit("keystore");
        reveal_strlit("aiagents");
        reveal_strlit("ai_agents");
        reveal_strlit("agents");
        reveal_strlit("agent");
    }
    assert(flag_of_name("web"@) == 0x80) by {
        reveal_strlit("web");
        assert("web"@.len() == 3);
        reveal_strlit("browserdb");
        reveal_strlit("browser");
        reveal_strlit("browser_db");
        reveal_strlit("wallet");
        reveal_strlit("crypto_wallet");
        reveal_strlit("crypto");
        reveal_strlit("appdata");
        reveal_strlit("app_data");
        reveal_strlit("app");
        assert("web"@[0] != "app"@[0]);
        reveal_strlit("sshkeys");
        reveal_strlit("ssh_keys");
        reveal_strlit("ssh");
        assert("web"@[0] != "ssh"@[0]);
        reveal_strlit("userkeystores");
        reveal_strlit("user_keystores");
        reveal_strlit("keystores");
        reveal_strlit("keystore");
        reveal_strlit("aiagents");
        reveal_strlit("ai_agents");
        reveal_strlit("agents");
        reveal_strlit("agent");
    }
    assert(flag_of_name("systemupdate"@) == 0x100) by {
        reveal_strlit("systemupdate");
        assert("systemupdate"@.len() == 12);
        reveal_strlit("browserdb");
        reveal_strlit("browser");
        reveal_strlit("browser_db");
        reveal_strlit("wallet");
        reveal_strlit("crypto_wallet");
        reveal_strlit("crypto");
        reveal_strlit("appdata");
        reveal_strlit("app_data");
        reveal_strlit("app");
        reveal_strlit("sshkeys");
        reveal_strlit("ssh_keys");
        reveal_strlit("ssh");
        reveal_strlit("userkeystores");
        reveal_strlit("user_keystores");
        reveal_strlit("keystores");
        reveal_strlit("keystore");
        reveal_strlit("aiagents");
        reveal_strlit("ai_agents");
        reveal_strlit("agents");
        reveal_strlit("agent");
        reveal_strlit("webprocess");
        reveal_strlit("web_process");
        reveal_strlit("web");
    }
    assert(flag_of_name("system_update"@) == 0x100) by {
        reveal_strlit("system_update");
        assert("system_update"@.len() == 13);
        reveal_strlit("browserdb");
        reveal_strlit("browser");
        reveal_strlit("browser_db");
        reveal_strlit("wallet");
        reveal_strlit("crypto_wallet");
        assert("system_update"@[0] != "crypto_wallet"@[0]);
        reveal_strlit("crypto");
        reveal_strlit("appdata");
        reveal_strlit("app_data");
        reveal_strlit("app");
        reveal_strlit("sshkeys");
        reveal_strlit("ssh_keys");
        reveal_strlit("ssh");
        reveal_strlit("userkeystores");
        assert("system_update"@[0] != "userkeystores"@[0]);
        reveal_strlit("user_keystores");
        reveal_strlit("keystores");
        reveal_strlit("keystore");
        reveal_strlit("aiagents");
        reveal_strlit("ai_agents");
        reveal_strlit("agents");
        reveal_strlit("agent");
        reveal_strlit("webprocess");
        reveal_strlit("web_process");
        reveal_strlit("web");
    }
    assert(flag_of_name("update"@) == 0x100) by {
        reveal_strlit("update");
        assert("update"@.len() == 6);
        reveal_strlit("browserdb");
        reveal_strlit("browser");
        reveal_strlit("browser_db");
        reveal_strlit("wallet");
        assert("update"@[0] != "wallet"@[0]);
        reveal_strlit("crypto_wallet");
        reveal_strlit("crypto");
        assert("update"@[0] != "crypto"@[0]);
        reveal_strlit("appdata");
        reveal_strlit("app_data");
        reveal_strlit("app");
        reveal_strlit("sshkeys");
        reveal_strlit("ssh_keys");
        reveal_strlit("ssh");
        reveal_strlit("userkeystores");
        reveal_strlit("user_keystores");
        reveal_strlit("keystores");
        reveal_strlit("keystore");
        reveal_strlit("aiagents");
        reveal_strlit("ai_agents");
        reveal_strlit("agents");
        assert("update"@[0] != "agents"@[0]);
        reveal_strlit("agent");
        reveal_strlit("webprocess");
        reveal_strlit("web_process");
        reveal_strlit("web");
    }
    assert(flag_of_name("persistencepath"@) == 0x200) by {
        reveal_strlit("persistencepath");
        assert("persistencepath"@.len() == 15);
        reveal_strlit("browserdb");
        reveal_strlit("browser");
        reveal_strlit("browser_db");
        reveal_strlit("wallet");
        reveal_strlit("crypto_wallet");
        reveal_strlit("crypto");
        reveal_strlit("appdata");
        reveal_strlit("app_data");
        reveal_strlit("app");
        reveal_strlit("sshkeys");
        reveal_strlit("ssh_keys");
        reveal_strlit("ssh");
        reveal_strlit("userkeystores");
        reveal_strlit("user_keystores");
        reveal_strlit("keystores");
        reveal_strlit("keystore");
        reveal_strlit("aiagents");
        reveal_strlit("ai_agents");
        reveal_strlit("agents");
        reveal_strlit("agent");
        reveal_strlit("webprocess");
        reveal_strlit("web_process");
        reveal_strlit("web");
        reveal_strlit("systemupdate");
        reveal_strlit("system_update");
        reveal_strlit("update");
    }
    assert(flag_of_name("persistence_path"@) == 0x200) by {
        reveal_strlit("persistence_path");
        assert("persistence_path"@.len() == 16);
        reveal_strlit("browserdb");
        reveal_strlit("browser");
        reveal_strlit("browser_db");
        reveal_strlit("wallet");
        reveal_strlit("crypto_wallet");
        reveal_strlit("crypto");
        reveal_strlit("appdata");
        reveal_strlit("app_data");
        reveal_strlit("app");
        reveal_strlit("sshkeys");
        reveal_strlit("ssh_keys");
        reveal_strlit("ssh");
        reveal_strlit("userkeystores");
        reveal_strlit("user_keystores");
        reveal_strlit("keystores");
        reveal_strlit("keystore");
        reveal_strlit("aiagents");
        reveal_strlit("ai_agents");
        reveal_strlit("agents");
        reveal_strlit("agent");
        reveal_strlit("webprocess");
        reveal_strlit("web_process");
        reveal_strlit("web");
        reveal_strlit("systemupdate");
        reveal_strlit("system_update");
        reveal_strlit("update");
    }
    assert(flag_of_name("persistence"@) == 0x200) by {
        reveal_strlit("persistence");
        assert("persistence"@.len() == 11);
        reveal_strlit("browserdb");
        reveal_strlit("browser");
        reveal_strlit("browser_db");
        reveal_strlit("wallet");
        reveal_strlit("crypto_wallet");
        reveal_strlit("crypto");
        reveal_strlit("appdata");
        reveal_strlit("app_data");
        reveal_strlit("app");
        reveal_strlit("sshkeys");
        reveal_strlit("ssh_keys");
        reveal_strlit("ssh");
        reveal_strlit("userkeystores");
        reveal_strlit("user_keystores");
        reveal_strlit("keystores");
        reveal_strlit("keystore");
        reveal_strlit("aiagents");
        reveal_strlit("ai_agents");
        reveal_strlit("agents");
        reveal_strlit("agent");
        reveal_strlit("webprocess");
        reveal_strlit("web_process");
        assert("persistence"@[0] != "web_process"@[0]);
        reveal_strlit("web");
        reveal_strlit("systemupdate");
        reveal_strlit("system_update");
        reveal_strlit("update");
    }
    assert(flag_of_name("protectedbinary"@) == 0x400) by {
        reveal_strlit("protectedbinary");
        assert("protectedbinary"@.len() == 15);
        reveal_strlit("browserdb");
        reveal_strlit("browser");
        reveal_strlit("browser_db");
        reveal_strlit("wallet");
        reveal_strlit("crypto_wallet");
        reveal_strlit("crypto");
        reveal_strlit("appdata");
        reveal_strlit("app_data");
        reveal_strlit("app");
        reveal_strlit("sshkeys");
        reveal_strlit("ssh_keys");
        reveal_strlit("ssh");
        reveal_strlit("userkeystores");
        reveal_strlit("user_keystores");
        reveal_strlit("keystores");
        reveal_strlit("keystore");
        reveal_strlit("aiagents");
        reveal_strlit("ai_agents");
        reveal_strlit("agents");
        reveal_strlit("agent");
        reveal_strlit("webprocess");
        reveal_strlit("web_process");
        reveal_strlit("web");
        reveal_strlit("systemupdate");
        reveal_strlit("system_update");
        reveal_strlit("update");
        reveal_strlit("persistencepath");
        assert("protectedbinary"@[1] != "persistencepath"@[1]);
        reveal_strlit("persistence_path");
        reveal_strlit("persistence");
    }
    assert(flag_of_name("protected_binary"@) == 0x400) by {
        reveal_strlit("protected_binary");
        assert("protected_binary"@.len() == 16);
        reveal_strlit("browserdb");
        reveal_strlit("browser");
        reveal_strlit("browser_db");
        reveal_strlit("wallet");
        reveal_strlit("crypto_wallet");
        reveal_strlit("crypto");
        reveal_strlit("appdata");
        reveal_strlit("app_data");
        reveal_strlit("app");
        reveal_strlit("sshkeys");
        reveal_strlit("ssh_keys");
        reveal_strlit("ssh");
        reveal_strlit("userkeystores");
        reveal_strlit("user_keystores");
        reveal_strlit("keystores");
        reveal_strlit("keystore");
        reveal_strlit("aiagents");
        reveal_strlit("ai_agents");
        reveal_strlit("agents");
        reveal_strlit("agent");
        reveal_strlit("webprocess");
        reveal_strlit("web_process");
        reveal_strlit("web");
        reveal_strlit("systemupdate");
        reveal_strlit("system_update");
        reveal_strlit("update");
        reveal_strlit("persistencepath");
        reveal_strlit("persistence_path");
        assert("protected_binary"@[1] != "persistence_path"@[1]);
        reveal_strlit("persistence");
    }
    assert(flag_of_name("protected"@) == 0x400) by {
        reveal_strlit("protected");
        assert("protected"@.len() == 9);
        reveal_strlit("browserdb");
        assert("protected"@[0] != "browserdb"@[0]);
        reveal_strlit("browser");
        reveal_strlit("browser_db");
        reveal_strlit("wallet");
        reveal_strlit("crypto_wallet");
        reveal_strlit("crypto");
        reveal_strlit("appdata");
        reveal_strlit("app_data");
        reveal_strlit("app");
        reveal_strlit("sshkeys");
        reveal_strlit("ssh_keys");
        reveal_strlit("ssh");
        reveal_strlit("userkeystores");
        reveal_strlit("user_keystores");
        reveal_strlit("keystores");
        assert("protected"@[0] != "keystores"@[0]);
        reveal_strlit("keystore");
        reveal_strlit("aiagents");
        reveal_strlit("ai_agents");
        assert("protected"@[0] != "ai_agents"@[0]);
        reveal_strlit("agents");
        reveal_strlit("agent");
        reveal_strlit("webprocess");
        reveal_strlit("web_process");
        reveal_strlit("web");
        reveal_strlit("systemupdate");
        reveal_strlit("system_update");
        reveal_strlit("update");
        reveal_strlit("persistencepath");
        reveal_strlit("persistence_path");
        reveal_strlit("persistence");
    }
}

/// A protected-binary entry matches a path only where the normalized path
/// ends with the normalized entry, and then either the two are equal or a
/// slash comes just before the entry; every such path matches.
pub proof fn lemma_binary_matches_only_at_end(binary: Seq<char>, path: Seq<char>)
    ensures
        binary_matches(binary, path) ==> normalized_path(binary).is_suffix_of(normalized_path(path)),
        binary_matches(binary, path) <==> (normalized_path(path) == normalized_path(binary) || (
        normalized_path(path).len() > normalized_path(binary).len() && normalized_path(binary).is_suffix_of(normalized_path(path))
            && normalized_path(path)[normalized_path(path).len() - normalized_path(binary).len() - 1]
            == '/')),
{
    let p = normalized_path(path);
    let b = normalized_path(binary);
    let sb = seq!['/'] + b;
    if p == b {
        assert(p.subrange(0, p.len() as int) =~= p);
    }
    if sb.is_suffix_of(p) {
        assert(p.subrange(p.len() - b.len(), p.len() as int) =~= sb.subrange(1, sb.len() as int));
        assert(p[p.len() - b.len() - 1] == p.subrange(p.len() - sb.len(), p.len() as int)[0]);
    }
    if p.len() > b.len() && b.is_suffix_of(p) && p[p.len() - b.len() - 1] == '/' {
        assert(p.subrange(p.len() - sb.len(), p.len() as int) =~= sb);
    }
}

/// A CDN pattern `*.base` allows nothing but `base` itself and the domains
/// that end in `.base`; any other pattern allows nothing but the domain
/// equal to it.
pub proof fn lemma_domain_patterns_allow_only(pattern: Seq<char>, domain: Seq<char>)
    ensures
        pattern.len() >= 2 && pattern[0] == '*' && pattern[1] == '.' ==> (domain_matches(
            pattern,
            domain,
        ) <==> (domain == pattern.skip(2) || (domain.len() > pattern.len() - 2 && domain.subrange(
            domain.len() - (pattern.len() - 1),
            domain.len() as int,
        ) == pattern.skip(1)))),
        !(pattern.len() >= 2 && pattern[0] == '*' && pattern[1] == '.') ==> (domain_matches(
            pattern,
            domain,
        ) <==> domain == pattern),
{
    if pattern.len() >= 2 && pattern[0] == '*' && pattern[1] == '.' {
        let dotted = seq!['.'] + pattern.skip(2);
        assert(dotted =~= pattern.skip(1));
    }
}

/// Text holds `p` somewhere exactly when, at some position, the
/// characters of the text from there on begin with `p`.
pub proof fn lemma_has_infix_anywhere(s: Seq<char>, p: Seq<char>, k: int)
    ensures
        0 <= k && k + p.len() <= s.len() && s.subrange(k, k + p.len()) == p ==> has_infix(s, p),
        has_infix(s, p) ==> exists|j: int|
            0 <= j && j + p.len() <= s.len() && #[trigger] s.subrange(j, j + p.len()) == p,
{
    if 0 <= k && k + p.len() <= s.len() && s.subrange(k, k + p.len()) == p {
        assert(occurs_at(s, p, k));
    }
    if has_infix(s, p) {
        let j = choose|j: int| occurs_at(s, p, j);
        assert(s.subrange(j, j + p.len()) == p);
    }
}

/// An executable is a web process as soon as a web-process entry occurs at
/// any position of its lowercased path.
pub proof fn lemma_web_process_entry_anywhere(
    entries: Seq<Seq<char>>,
    exe: Seq<char>,
    i: int,
    k: int,
)
    requires
        0 <= i < entries.len(),
        0 <= k,
        k + entries[i].len() <= lowercased(exe).len(),
        lowercased(exe).subrange(k, k + entries[i].len()) == entries[i],
    ensures
        exists|j: int| 0 <= j < entries.len() && #[trigger] has_infix(lowercased(exe), entries[j]),
{
    lemma_has_infix_anywhere(lowercased(exe), entries[i], k);
    assert(has_infix(lowercased(exe), entries[i]));
}

} // verus!
