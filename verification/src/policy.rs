//! Policy files in their JSON form, the category flags they name, and their
//! combination into the rules payload of a database.
use vstd::prelude::*;
use crate::category::{flag_of_name, parse_single_flag};
use crate::payload::{FlaggedPath, RulesPayload, SignerEntry};
use crate::text::lowercased;

verus! {

/// Category flags as a policy spells them: a number, one category name, or
/// a list of category names.
#[derive(Debug, Clone)]
pub enum CategoryFlags {
    Number(u32),
    Single(String),
    List(Vec<String>),
}

/// A trusted CLI of a policy file.
#[derive(Debug, Clone)]
pub struct TrustedCliJson {
    pub path: String,
    pub category: Option<CategoryFlags>,
    pub flags: Option<CategoryFlags>,
}

/// A sensitive file of a policy file.
#[derive(Debug, Clone)]
pub struct SensitiveFileJson {
    pub path: String,
    pub category: Option<CategoryFlags>,
    pub flags: Option<CategoryFlags>,
}

/// A policy file.
#[derive(Debug, Clone)]
pub struct PolicyJson {
    pub version: u32,
    pub exclusions: Option<Vec<String>>,
    pub trusted_clis: Option<Vec<TrustedCliJson>>,
    pub sensitive_files: Option<Vec<SensitiveFileJson>>,
    pub allowed_cdns: Option<Vec<String>>,
}

/// The union of the bits that the names `names` stand for.
pub open spec fn names_flags(names: Seq<Seq<char>>) -> u32
    decreases names.len(),
{
    if names.len() == 0 {
        0
    } else {
        names_flags(names.drop_last()) | flag_of_name(lowercased(names.last()))
    }
}

/// The bits that the spelled flags `f` stand for; no flags stand for none.
pub open spec fn resolved_flags(f: Option<CategoryFlags>) -> u32 {
    match f {
        None => 0,
        Some(CategoryFlags::Number(n)) => n,
        Some(CategoryFlags::Single(s)) => flag_of_name(lowercased(s@)),
        Some(CategoryFlags::List(l)) => names_flags(l.deep_view()),
    }
}

/// The bits of the category flags `flags_opt`: a number as it is, a name
/// as the bit it stands for, a list as the union of the bits of its names.
pub fn resolve_flags(flags_opt: Option<&CategoryFlags>) -> (r: u32)
    ensures
        r == resolved_flags(
            match flags_opt {
                Some(f) => Some(*f),
                None => None,
            },
        ),
{
    let flags = match flags_opt {
        Some(f) => f,
        None => return 0,
    };
    match flags {
        CategoryFlags::Number(num) => *num,
        CategoryFlags::Single(s) => parse_single_flag(s.as_str()),
        CategoryFlags::List(list) => {
            let ghost names = list.deep_view();
            let mut val: u32 = 0;
            let n = list.len();
            let mut i: usize = 0;
            while i < n
                invariant
                    n == list.len(),
                    names == list.deep_view(),
                    i <= n,
                    val == names_flags(names.take(i as int)),
                decreases n - i,
            {
                assert(names.take(i + 1).drop_last() =~= names.take(i as int));
                val = val | parse_single_flag(list[i].as_str());
                i = i + 1;
            }
            assert(names.take(n as int) =~= names);
            val
        },
    }
}

/// The union of the bits of two lists of names is the union of the bits of
/// their concatenation: a list stands for the categories of all its names,
/// whatever their order of listing.
pub proof fn lemma_names_flags_concat(a: Seq<Seq<char>>, b: Seq<Seq<char>>)
    ensures
        names_flags(a + b) == names_flags(a) | names_flags(b),
    decreases b.len(),
{
    if b.len() == 0 {
        assert(a + b =~= a);
        let x = names_flags(a);
        assert(x | 0u32 == x) by (bit_vector);
    } else {
        lemma_names_flags_concat(a, b.drop_last());
        assert((a + b).drop_last() =~= a + b.drop_last());
        let x = names_flags(a);
        let y = names_flags(b.drop_last());
        let z = flag_of_name(lowercased(b.last()));
        assert((x | y) | z == x | (y | z)) by (bit_vector);
    }
}

/// A name that a list already holds adds no bit to the list's bits.
proof fn lemma_names_flags_absorbs(t: Seq<Seq<char>>, x: Seq<char>)
    requires
        t.contains(x),
    ensures
        names_flags(t) | flag_of_name(lowercased(x)) == names_flags(t),
    decreases t.len(),
{
    let bx = flag_of_name(lowercased(x));
    let rest = t.drop_last();
    let earlier = names_flags(rest);
    let bl = flag_of_name(lowercased(t.last()));
    if t.last() == x {
        assert((earlier | bx) | bx == earlier | bx) by (bit_vector);
    } else {
        let j = choose|j: int| 0 <= j < t.len() && t[j] == x;
        assert(j < t.len() - 1);
        assert(rest[j] == x);
        lemma_names_flags_absorbs(rest, x);
        assert(earlier | bx == earlier ==> (earlier | bl) | bx == earlier | bl) by (bit_vector);
    }
}

/// When every name of `a` is also in `b`, the bits of `a` are among the
/// bits of `b`.
proof fn lemma_names_flags_subset(a: Seq<Seq<char>>, b: Seq<Seq<char>>)
    requires
        forall|x: Seq<char>| #[trigger] a.contains(x) ==> b.contains(x),
    ensures
        names_flags(b) | names_flags(a) == names_flags(b),
    decreases a.len(),
{
    let nb = names_flags(b);
    if a.len() == 0 {
        assert(nb | 0u32 == nb) by (bit_vector);
    } else {
        let rest = a.drop_last();
        assert forall|x: Seq<char>| #[trigger] rest.contains(x) implies b.contains(x) by {
            let j = choose|j: int| 0 <= j < rest.len() && rest[j] == x;
            assert(a[j] == x);
            assert(a.contains(x));
        }
        lemma_names_flags_subset(rest, b);
        assert(a.contains(a.last())) by {
            assert(a[a.len() - 1] == a.last());
        }
        lemma_names_flags_absorbs(b, a.last());
        let nr = names_flags(rest);
        let bl = flag_of_name(lowercased(a.last()));
        assert(nb | nr == nb && nb | bl == nb ==> nb | (nr | bl) == nb) by (bit_vector);
    }
}

/// Two lists that hold the same names stand for the same bits, whatever
/// the order of the names and however often each is listed.
pub proof fn lemma_names_flags_same_names(a: Seq<Seq<char>>, b: Seq<Seq<char>>)
    requires
        a.to_set() == b.to_set(),
    ensures
        names_flags(a) == names_flags(b),
{
    assert forall|x: Seq<char>| #[trigger] a.contains(x) implies b.contains(x) by {
        assert(a.to_set().contains(x));
        assert(b.to_set().contains(x));
    }
    assert forall|x: Seq<char>| #[trigger] b.contains(x) implies a.contains(x) by {
        assert(b.to_set().contains(x));
        assert(a.to_set().contains(x));
    }
    lemma_names_flags_subset(a, b);
    lemma_names_flags_subset(b, a);
    let na = names_flags(a);
    let nb = names_flags(b);
    assert(nb | na == nb && na | nb == na ==> na == nb) by (bit_vector);
}

/// A list of one name stands for the same bits as that name alone.
pub proof fn lemma_single_name_list(s: Seq<char>)
    ensures
        names_flags(seq![s]) == flag_of_name(lowercased(s)),
{
    assert(seq![s].drop_last() =~= Seq::<Seq<char>>::empty());
    let x = flag_of_name(lowercased(s));
    assert(names_flags(Seq::<Seq<char>>::empty()) == 0);
    assert(seq![s].last() == s);
    assert(names_flags(seq![s]) == names_flags(seq![s].drop_last()) | x);
    assert(0u32 | x == x) by (bit_vector);
}

/// The spelled flags of an entry: its `category` when given, else its `flags`.
pub open spec fn chosen_flags(category: Option<CategoryFlags>, flags: Option<CategoryFlags>) -> Option<
    CategoryFlags,
> {
    if category is Some {
        category
    } else {
        flags
    }
}

/// The payload entry of a trusted CLI of a policy.
pub open spec fn cli_entry(c: TrustedCliJson) -> (Option<Seq<char>>, u32) {
    (Some(c.path@), resolved_flags(chosen_flags(c.category, c.flags)))
}

/// The payload entry of a sensitive file of a policy.
pub open spec fn file_entry(f: SensitiveFileJson) -> (Option<Seq<char>>, u32) {
    (Some(f.path@), resolved_flags(chosen_flags(f.category, f.flags)))
}

/// Each text of `v`, as a present entry.
pub open spec fn all_present(v: Seq<Seq<char>>) -> Seq<Option<Seq<char>>> {
    v.map_values(|s: Seq<char>| Some(s))
}

/// The exclusions of a policy, as payload entries.
pub open spec fn exclusion_part(p: PolicyJson) -> Seq<Option<Seq<char>>> {
    match p.exclusions {
        Some(v) => all_present(v.deep_view()),
        None => Seq::empty(),
    }
}

/// The allowed CDNs of a policy, as payload entries.
pub open spec fn cdn_part(p: PolicyJson) -> Seq<Option<Seq<char>>> {
    match p.allowed_cdns {
        Some(v) => all_present(v.deep_view()),
        None => Seq::empty(),
    }
}

/// The trusted CLIs of a policy, as payload entries.
pub open spec fn cli_part(p: PolicyJson) -> Seq<(Option<Seq<char>>, u32)> {
    match p.trusted_clis {
        Some(v) => v@.map_values(|c: TrustedCliJson| cli_entry(c)),
        None => Seq::empty(),
    }
}

/// The sensitive files of a policy, as payload entries.
pub open spec fn file_part(p: PolicyJson) -> Seq<(Option<Seq<char>>, u32)> {
    match p.sensitive_files {
        Some(v) => v@.map_values(|f: SensitiveFileJson| file_entry(f)),
        None => Seq::empty(),
    }
}

/// The parts `part` of the policies `ps`, one after the other.
pub open spec fn gather<T>(ps: Seq<PolicyJson>, part: spec_fn(PolicyJson) -> Seq<T>) -> Seq<T>
    decreases ps.len(),
{
    if ps.len() == 0 {
        Seq::empty()
    } else {
        gather(ps.drop_last(), part) + part(ps.last())
    }
}

/// The version of the combined policies: the greatest of their versions,
/// and at least 1.
pub open spec fn combined_version(ps: Seq<PolicyJson>) -> u32
    decreases ps.len(),
{
    if ps.len() == 0 {
        1
    } else {
        let v = combined_version(ps.drop_last());
        if ps.last().version > v {
            ps.last().version
        } else {
            v
        }
    }
}

/// The trusted signer that compiled databases carry.
pub open spec fn compiled_signers() -> Seq<(Option<Seq<char>>, Option<Seq<char>>)> {
    seq![(Some("Google LLC"@), Some("EQHXZ8M8AV"@))]
}

/// A set of policy files combined into one payload.
pub struct CompiledPolicy {
    /// The version of the combined policy.
    pub version: u32,
    /// The tables of the payload.
    pub rules: RulesPayload,
}

fn push_all_present(out: &mut Vec<Option<String>>, items: &Vec<String>)
    ensures
        final(out).deep_view() == old(out).deep_view() + all_present(items.deep_view()),
{
    let ghost start = out.deep_view();
    let n = items.len();
    let mut i: usize = 0;
    while i < n
        invariant
            n == items.len(),
            i <= n,
            out.deep_view() =~= start + all_present(items.deep_view()).take(i as int),
        decreases n - i,
    {
        let ghost before = out.deep_view();
        out.push(Some(items[i].clone()));
        proof {
            assert(out.deep_view().len() == before.len() + 1);
            assert(forall|k: int| 0 <= k < before.len() ==> out.deep_view()[k] == before[k]);
            assert(out.deep_view()[before.len() as int] == all_present(items.deep_view())[i as int]);
            assert(all_present(items.deep_view()).take(i + 1) =~= all_present(
                items.deep_view(),
            ).take(i as int).push(all_present(items.deep_view())[i as int]));
            assert(out.deep_view() =~= before.push(all_present(items.deep_view())[i as int]));
        }
        assert(out.deep_view() =~= start + all_present(items.deep_view()).take(i + 1));
        i = i + 1;
    }
    assert(all_present(items.deep_view()).take(n as int) =~= all_present(items.deep_view()));
}

fn spelled_flags(category: &Option<CategoryFlags>, flags: &Option<CategoryFlags>) -> (r: u32)
    ensures
        r == resolved_flags(chosen_flags(*category, *flags)),
{
    match category {
        Some(c) => resolve_flags(Some(c)),
        None => match flags {
            Some(f) => resolve_flags(Some(f)),
            None => resolve_flags(None),
        },
    }
}

fn push_cli_entries(out: &mut Vec<FlaggedPath>, items: &Vec<TrustedCliJson>)
    ensures
        final(out).deep_view() == old(out).deep_view() + items@.map_values(
            |c: TrustedCliJson| cli_entry(c),
        ),
{
    let ghost start = out.deep_view();
    let ghost part = items@.map_values(|c: TrustedCliJson| cli_entry(c));
    let n = items.len();
    let mut i: usize = 0;
    while i < n
        invariant
            n == items.len(),
            part == items@.map_values(|c: TrustedCliJson| cli_entry(c)),
            i <= n,
            out.deep_view() =~= start + part.take(i as int),
        decreases n - i,
    {
        let c = &items[i];
        let flags = spelled_flags(&c.category, &c.flags);
        let ghost before = out.deep_view();
        out.push(FlaggedPath { path: Some(c.path.clone()), category_flags: flags });
        proof {
            assert(out.deep_view().len() == before.len() + 1);
            assert(forall|k: int| 0 <= k < before.len() ==> out.deep_view()[k] == before[k]);
            assert(out.deep_view()[before.len() as int] == part[i as int]);
            assert(part.take(i + 1) =~= part.take(i as int).push(part[i as int]));
            assert(out.deep_view() =~= before.push(part[i as int]));
        }
        assert(out.deep_view() =~= start + part.take(i + 1));
        i = i + 1;
    }
    assert(part.take(n as int) =~= part);
}

fn push_file_entries(out: &mut Vec<FlaggedPath>, items: &Vec<SensitiveFileJson>)
    ensures
        final(out).deep_view() == old(out).deep_view() + items@.map_values(
            |f: SensitiveFileJson| file_entry(f),
        ),
{
    let ghost start = out.deep_view();
    let ghost part = items@.map_values(|f: SensitiveFileJson| file_entry(f));
    let n = items.len();
    let mut i: usize = 0;
    while i < n
        invariant
            n == items.len(),
            part == items@.map_values(|f: SensitiveFileJson| file_entry(f)),
            i <= n,
            out.deep_view() =~= start + part.take(i as int),
        decreases n - i,
    {
        let f = &items[i];
        let flags = spelled_flags(&f.category, &f.flags);
        let ghost before = out.deep_view();
        out.push(FlaggedPath { path: Some(f.path.clone()), category_flags: flags });
        proof {
            assert(out.deep_view().len() == before.len() + 1);
            assert(forall|k: int| 0 <= k < before.len() ==> out.deep_view()[k] == before[k]);
            assert(out.deep_view()[before.len() as int] == part[i as int]);
            assert(part.take(i + 1) =~= part.take(i as int).push(part[i as int]));
            assert(out.deep_view() =~= before.push(part[i as int]));
        }
        assert(out.deep_view() =~= start + part.take(i + 1));
        i = i + 1;
    }
    assert(part.take(n as int) =~= part);
}

proof fn lemma_gather_step<T>(ps: Seq<PolicyJson>, part: spec_fn(PolicyJson) -> Seq<T>, i: int)
    requires
        0 <= i < ps.len(),
    ensures
        gather(ps.take(i + 1), part) == gather(ps.take(i), part) + part(ps[i]),
{
    assert(ps.take(i + 1).drop_last() =~= ps.take(i));
}

/// Combines the policy files `policies` into one payload: the exclusions,
/// trusted CLIs, sensitive files and allowed CDNs of all the files, in
/// order, each CLI and file with the bits of its category (or, without
/// one, of its flags); one fixed trusted signer; and as version the
/// greatest of the files' versions, at least 1.
pub fn combine_policies(policies: &Vec<PolicyJson>) -> (r: CompiledPolicy)
    ensures
        r.version == combined_version(policies@),
        r.rules@.exclusions == gather(policies@, |p: PolicyJson| exclusion_part(p)),
        r.rules@.trusted_signers == compiled_signers(),
        r.rules@.trusted_clis == gather(policies@, |p: PolicyJson| cli_part(p)),
        r.rules@.network_cdns == gather(policies@, |p: PolicyJson| cdn_part(p)),
        r.rules@.sensitive_files == gather(policies@, |p: PolicyJson| file_part(p)),
{
    let ghost ps = policies@;
    let ghost ex_part = |p: PolicyJson| exclusion_part(p);
    let ghost cli = |p: PolicyJson| cli_part(p);
    let ghost cdn = |p: PolicyJson| cdn_part(p);
    let ghost file = |p: PolicyJson| file_part(p);
    let mut version: u32 = 1;
    let mut exclusions: Vec<Option<String>> = Vec::new();
    let mut clis: Vec<FlaggedPath> = Vec::new();
    let mut cdns: Vec<Option<String>> = Vec::new();
    let mut files: Vec<FlaggedPath> = Vec::new();
    let n = policies.len();
    let mut i: usize = 0;
    while i < n
        invariant
            n == policies.len(),
            ps == policies@,
            forall|x: PolicyJson| #[trigger] ex_part(x) == exclusion_part(x),
            forall|x: PolicyJson| #[trigger] cli(x) == cli_part(x),
            forall|x: PolicyJson| #[trigger] cdn(x) == cdn_part(x),
            forall|x: PolicyJson| #[trigger] file(x) == file_part(x),
            i <= n,
            version == combined_version(ps.take(i as int)),
            exclusions.deep_view() == gather(ps.take(i as int), ex_part),
            clis.deep_view() == gather(ps.take(i as int), cli),
            cdns.deep_view() == gather(ps.take(i as int), cdn),
            files.deep_view() == gather(ps.take(i as int), file),
        decreases n - i,
    {
        proof {
            lemma_gather_step(ps, ex_part, i as int);
            lemma_gather_step(ps, cli, i as int);
            lemma_gather_step(ps, cdn, i as int);
            lemma_gather_step(ps, file, i as int);
            assert(ps.take(i + 1).drop_last() =~= ps.take(i as int));
        }
        let p = &policies[i];
        if p.version > version {
            version = p.version;
        }
        match &p.exclusions {
            Some(v) => {
                assert(ex_part(ps[i as int]) == all_present(v.deep_view()));
                push_all_present(&mut exclusions, v);
            },
            None => {
                assert(exclusion_part(ps[i as int]) =~= Seq::<Option<Seq<char>>>::empty());
                assert(exclusions.deep_view() =~= exclusions.deep_view() + exclusion_part(ps[i as int]));
            },
        }
        match &p.trusted_clis {
            Some(v) => {
                assert(cli(ps[i as int]) == v@.map_values(|c: TrustedCliJson| cli_entry(c)));
                push_cli_entries(&mut clis, v);
            },
            None => {
                assert(cli_part(ps[i as int]) =~= Seq::<(Option<Seq<char>>, u32)>::empty());
                assert(clis.deep_view() =~= clis.deep_view() + cli_part(ps[i as int]));
            },
        }
        match &p.sensitive_files {
            Some(v) => {
                assert(file(ps[i as int]) == v@.map_values(|f: SensitiveFileJson| file_entry(f)));
                push_file_entries(&mut files, v);
            },
            None => {
                assert(file_part(ps[i as int]) =~= Seq::<(Option<Seq<char>>, u32)>::empty());
                assert(files.deep_view() =~= files.deep_view() + file_part(ps[i as int]));
            },
        }
        match &p.allowed_cdns {
            Some(v) => {
                assert(cdn(ps[i as int]) == all_present(v.deep_view()));
                push_all_present(&mut cdns, v);
            },
            None => {
                assert(cdn_part(ps[i as int]) =~= Seq::<Option<Seq<char>>>::empty());
                assert(cdns.deep_view() =~= cdns.deep_view() + cdn_part(ps[i as int]));
            },
        }
        i = i + 1;
    }
    assert(ps.take(n as int) =~= ps);
    let mut signers: Vec<SignerEntry> = Vec::new();
    signers.push(
        SignerEntry {
            signer_name: Some(String::from_str("Google LLC")),
            team_id: Some(String::from_str("EQHXZ8M8AV")),
        },
    );
    assert(signers.deep_view() =~= compiled_signers());
    CompiledPolicy {
        version,
        rules: RulesPayload {
            exclusions,
            trusted_signers: signers,
            trusted_clis: clis,
            network_cdns: cdns,
            sensitive_files: files,
        },
    }
}

} // verus!
