//! Character-level views of text and the matching primitives of the rules.
use vstd::prelude::*;
use vstd::seq_lib::lemma_flatten_concat;

verus! {

broadcast use vstd::string::group_string_axioms;

/// What `str::to_lowercase` gives for the characters `s`: the Unicode
/// lowercase mapping of the whole text.
pub uninterp spec fn unicode_lowercase(s: Seq<char>) -> Seq<char>;

/// Every character of `s` is ASCII.
pub open spec fn is_ascii_text(s: Seq<char>) -> bool {
    forall|i: int| 0 <= i < s.len() ==> (#[trigger] s[i] as u32) < 128
}

/// The small letter of an ASCII capital letter; any other character as it is.
pub open spec fn ascii_lower(c: char) -> char {
    if 'A' <= c && c <= 'Z' {
        ((c as u32) + 32) as char
    } else {
        c
    }
}

/// What `char::to_lowercase` yields for `c`: the Unicode lowercase mapping
/// of the one character, one or more characters.
pub uninterp spec fn char_lowercase(c: char) -> Seq<char>;

/// The capital sigma, the one character whose lowercase form depends on
/// the characters around it.
pub open spec fn capital_sigma() -> char {
    '\u{3A3}'
}

/// The lowercase form of one character: an ASCII capital letter becomes its
/// small letter, any other ASCII character stays as it is, and any other
/// character takes its Unicode lowercase mapping.
pub open spec fn lowercase_char(c: char) -> Seq<char> {
    if (c as u32) < 128 {
        seq![ascii_lower(c)]
    } else {
        char_lowercase(c)
    }
}

/// The lowercase form of text: on ASCII text each capital letter becomes
/// its small letter and nothing else changes; on text without a capital
/// sigma each character is lowercased on its own; on other text it is the
/// Unicode lowercase mapping of the whole text.
pub open spec fn lowercased(s: Seq<char>) -> Seq<char> {
    if is_ascii_text(s) {
        s.map_values(|c: char| ascii_lower(c))
    } else if !s.contains(capital_sigma()) {
        s.map_values(|c: char| lowercase_char(c)).flatten()
    } else {
        unicode_lowercase(s)
    }
}

/// ASCII text lowercased character by character is its ASCII lowercase
/// form.
pub proof fn lemma_ascii_lowercase_by_char(s: Seq<char>)
    requires
        is_ascii_text(s),
    ensures
        s.map_values(|c: char| lowercase_char(c)).flatten() == s.map_values(|c: char| ascii_lower(c)),
    decreases s.len(),
{
    if s.len() > 0 {
        let rest = s.drop_first();
        assert forall|i: int| 0 <= i < rest.len() implies (#[trigger] rest[i] as u32) < 128 by {
            assert(rest[i] == s[i + 1]);
        }
        lemma_ascii_lowercase_by_char(rest);
        let m = s.map_values(|c: char| lowercase_char(c));
        assert(m.drop_first() =~= rest.map_values(|c: char| lowercase_char(c)));
        assert((s[0] as u32) < 128);
        assert(m.first() == seq![ascii_lower(s[0])]);
        assert(s.map_values(|c: char| ascii_lower(c)) =~= seq![ascii_lower(s[0])]
            + rest.map_values(|c: char| ascii_lower(c)));
    }
}

/// Text without a capital sigma is lowercased character by character.
pub proof fn lemma_lowercased_by_char(s: Seq<char>)
    requires
        !s.contains(capital_sigma()),
    ensures
        lowercased(s) == s.map_values(|c: char| lowercase_char(c)).flatten(),
{
    if is_ascii_text(s) {
        lemma_ascii_lowercase_by_char(s);
    }
}

/// Lowercasing text without a capital sigma lowercases each of its parts.
pub proof fn lemma_lowercased_concat(s: Seq<char>, t: Seq<char>)
    requires
        !s.contains(capital_sigma()),
        !t.contains(capital_sigma()),
    ensures
        !(s + t).contains(capital_sigma()),
        lowercased(s + t) == lowercased(s) + lowercased(t),
{
    if (s + t).contains(capital_sigma()) {
        let i = choose|i: int| 0 <= i < (s + t).len() && (s + t)[i] == capital_sigma();
        if i < s.len() {
            assert(s[i] == capital_sigma());
        } else {
            assert(t[i - s.len()] == capital_sigma());
        }
    }
    lemma_lowercased_by_char(s);
    lemma_lowercased_by_char(t);
    lemma_lowercased_by_char(s + t);
    let ms = s.map_values(|c: char| lowercase_char(c));
    let mt = t.map_values(|c: char| lowercase_char(c));
    assert((s + t).map_values(|c: char| lowercase_char(c)) =~= ms + mt);
    lemma_flatten_concat(ms, mt);
}

/// `s` with every backslash turned into a forward slash.
pub open spec fn forward_slashes(s: Seq<char>) -> Seq<char> {
    s.map_values(|c: char| if c == '\\' { '/' } else { c })
}

/// The form in which paths are compared: lowercased, with forward slashes.
pub open spec fn normalized_path(s: Seq<char>) -> Seq<char> {
    forward_slashes(lowercased(s))
}

/// `p` occurs in `s` starting at position `i`.
pub open spec fn occurs_at(s: Seq<char>, p: Seq<char>, i: int) -> bool {
    0 <= i && i + p.len() <= s.len() && s.subrange(i, i + p.len()) == p
}

/// `p` occurs somewhere in `s` (the empty text occurs everywhere).
pub open spec fn has_infix(s: Seq<char>, p: Seq<char>) -> bool {
    exists|i: int| occurs_at(s, p, i)
}

/// Lowercases `s` with `str::to_lowercase`.
/// Trusted: the result is the Unicode lowercase mapping of `s`, which is
/// named. Two facts of it are stated. On ASCII text it turns each capital
/// letter A to Z into its small letter and leaves every other character as
/// it is. On text without a capital sigma (the one character whose mapping
/// depends on its neighbours) it maps each character on its own, to what
/// `char::to_lowercase` yields for it (named, and for ASCII characters the
/// small letter again).
#[verifier::external_body]
pub(crate) fn to_lowercase(s: &str) -> (r: String)
    ensures
        r@ == unicode_lowercase(s@),
        !s@.contains(capital_sigma()) ==> r@ == s@.map_values(
            |c: char|
                if (c as u32) < 128 {
                    seq![ascii_lower(c)]
                } else {
                    char_lowercase(c)
                },
        ).flatten(),
        r@ == lowercased(s@),
{
    s.to_lowercase()
}

/// The characters of `s`, in order.
pub fn chars_of(s: &str) -> (r: Vec<char>)
    ensures
        r@ == s@,
{
    let mut r: Vec<char> = Vec::new();
    for c in it: s.chars()
        invariant
            r@ == it.history(),
    {
        r.push(c);
    }
    r
}

/// `s` with every backslash turned into a forward slash.
pub fn replace_backslashes(s: &[char]) -> (r: Vec<char>)
    ensures
        r@ == forward_slashes(s@),
{
    let n = s.len();
    let mut r: Vec<char> = Vec::new();
    let mut i: usize = 0;
    while i < n
        invariant
            n == s@.len(),
            i <= n,
            r@ == forward_slashes(s@.subrange(0, i as int)),
        decreases n - i,
    {
        let c = s[i];
        if c == '\\' {
            r.push('/');
        } else {
            r.push(c);
        }
        assert(forward_slashes(s@.subrange(0, i + 1)) =~= forward_slashes(
            s@.subrange(0, i as int),
        ).push(if c == '\\' { '/' } else { c }));
        i = i + 1;
    }
    assert(s@.subrange(0, n as int) =~= s@);
    r
}

/// The path `s` lowercased and with forward slashes, ready for comparison.
pub fn normalize_path(s: &str) -> (r: Vec<char>)
    ensures
        r@ == normalized_path(s@),
{
    let lower = to_lowercase(s);
    let chars = chars_of(lower.as_str());
    replace_backslashes(chars.as_slice())
}

/// Whether `p` occurs in `s` at position `at`.
pub fn matches_at(s: &[char], p: &[char], at: usize) -> (r: bool)
    ensures
        r == occurs_at(s@, p@, at as int),
{
    let n = s.len();
    let m = p.len();
    if at > n || m > n - at {
        return false;
    }
    let mut j: usize = 0;
    while j < m
        invariant
            n == s@.len(),
            m == p@.len(),
            at + m <= n,
            j <= m,
            forall|k: int| 0 <= k < j ==> s@[at + k] == p@[k],
        decreases m - j,
    {
        if s[at + j] != p[j] {
            assert(s@.subrange(at as int, at + m)[j as int] != p@[j as int]);
            return false;
        }
        j = j + 1;
    }
    assert(s@.subrange(at as int, at + m) =~= p@);
    true
}

/// Whether `s` begins with `p`.
pub fn starts_with(s: &[char], p: &[char]) -> (r: bool)
    ensures
        r == p@.is_prefix_of(s@),
{
    let r = matches_at(s, p, 0);
    assert(r == p@.is_prefix_of(s@));
    r
}

/// Whether `s` ends with `p`.
pub fn ends_with(s: &[char], p: &[char]) -> (r: bool)
    ensures
        r == p@.is_suffix_of(s@),
{
    let n = s.len();
    let m = p.len();
    if m > n {
        return false;
    }
    matches_at(s, p, n - m)
}

/// Whether `s` and `p` are the same text.
pub fn same_text(s: &[char], p: &[char]) -> (r: bool)
    ensures
        r == (s@ == p@),
{
    if s.len() != p.len() {
        return false;
    }
    let r = matches_at(s, p, 0);
    assert(s@.subrange(0, s@.len() as int) =~= s@);
    r
}

/// Whether `p` occurs anywhere in `s`.
pub fn contains_text(s: &[char], p: &[char]) -> (r: bool)
    ensures
        r == has_infix(s@, p@),
{
    let n = s.len();
    let m = p.len();
    if m > n {
        return false;
    }
    let mut i: usize = 0;
    loop
        invariant
            n == s@.len(),
            m == p@.len(),
            m <= n,
            i <= n - m,
            forall|k: int| 0 <= k < i ==> !occurs_at(s@, p@, k),
        decreases n - m - i,
    {
        if matches_at(s, p, i) {
            return true;
        }
        if i == n - m {
            return false;
        }
        i = i + 1;
    }
}

} // verus!
