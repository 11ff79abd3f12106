//! Sequence, set and map models of the rule tables, with the facts about
//! them that the table-building code relies on.
use vstd::prelude::*;

verus! {

/// The values present in `s`, in order, skipping the absent ones.
pub open spec fn present<T>(s: Seq<Option<T>>) -> Seq<T>
    decreases s.len(),
{
    if s.len() == 0 {
        Seq::empty()
    } else {
        let earlier = present(s.drop_last());
        match s.last() {
            Some(x) => earlier.push(x),
            None => earlier,
        }
    }
}

/// The map built by inserting the pairs of `s` in order: a later pair
/// replaces an earlier one with the same key.
pub open spec fn fold_map<K, V>(s: Seq<(K, V)>) -> Map<K, V>
    decreases s.len(),
{
    if s.len() == 0 {
        Map::empty()
    } else {
        fold_map(s.drop_last()).insert(s.last().0, s.last().1)
    }
}

/// `base` followed by the items of `extra` that are not already there,
/// each added once, in the order of `extra`.
pub open spec fn append_missing<T>(base: Seq<T>, extra: Seq<T>) -> Seq<T>
    decreases extra.len(),
{
    if extra.len() == 0 {
        base
    } else {
        let earlier = append_missing(base, extra.drop_last());
        if earlier.contains(extra.last()) {
            earlier
        } else {
            earlier.push(extra.last())
        }
    }
}

/// `present` of a prefix extended by one element.
pub proof fn lemma_present_step<T>(s: Seq<Option<T>>, i: int)
    requires
        0 <= i < s.len(),
    ensures
        present(s.take(i + 1)) == match s[i] {
            Some(x) => present(s.take(i)).push(x),
            None => present(s.take(i)),
        },
{
    assert(s.take(i + 1).drop_last() =~= s.take(i));
}

/// A value is present in `s` exactly when some element of `s` holds it.
pub proof fn lemma_present_contains<T>(s: Seq<Option<T>>, x: T)
    ensures
        present(s).contains(x) <==> exists|i: int| 0 <= i < s.len() && s[i] == Some(x),
    decreases s.len(),
{
    if s.len() > 0 {
        let d = s.drop_last();
        lemma_present_contains(d, x);
        let p = present(d);
        let q = present(s);
        assert(forall|i: int| 0 <= i < d.len() ==> d[i] == s[i]);
        match s.last() {
            Some(y) => {
                assert(q == p.push(y));
                if q.contains(x) {
                    let j = choose|j: int| 0 <= j < q.len() && q[j] == x;
                    if j < p.len() {
                        assert(p[j] == x);
                    } else {
                        assert(s[s.len() - 1] == Some(x));
                    }
                }
                if exists|i: int| 0 <= i < s.len() && s[i] == Some(x) {
                    let i = choose|i: int| 0 <= i < s.len() && s[i] == Some(x);
                    if i < s.len() - 1 {
                        assert(d[i] == Some(x));
                        let j = choose|j: int| 0 <= j < p.len() && p[j] == x;
                        assert(q[j] == x);
                    } else {
                        assert(q[p.len() as int] == x);
                    }
                }
            },
            None => {
                assert(q == p);
                if exists|i: int| 0 <= i < s.len() && s[i] == Some(x) {
                    let i = choose|i: int| 0 <= i < s.len() && s[i] == Some(x);
                    assert(i < s.len() - 1);
                    assert(d[i] == Some(x));
                }
            },
        }
    }
}

/// `fold_map` of a prefix extended by one pair.
pub proof fn lemma_fold_map_step<K, V>(s: Seq<(K, V)>, i: int)
    requires
        0 <= i < s.len(),
    ensures
        fold_map(s.take(i + 1)) == fold_map(s.take(i)).insert(s[i].0, s[i].1),
{
    assert(s.take(i + 1).drop_last() =~= s.take(i));
}

/// When no pair of `s` at position `i` or later has key `k`, the map of
/// `s` agrees on `k` with the map of its first `i` pairs.
pub proof fn lemma_fold_map_tail_absent<K, V>(s: Seq<(K, V)>, i: int, k: K)
    requires
        0 <= i <= s.len(),
        forall|j: int| i <= j < s.len() ==> s[j].0 != k,
    ensures
        fold_map(s).contains_key(k) == fold_map(s.take(i)).contains_key(k),
        fold_map(s).contains_key(k) ==> fold_map(s)[k] == fold_map(s.take(i))[k],
    decreases s.len() - i,
{
    if i < s.len() {
        lemma_fold_map_tail_absent(s, i + 1, k);
        lemma_fold_map_step(s, i);
    } else {
        assert(s.take(i) =~= s);
    }
}

/// Where `j` is the last position of `s` with key `k`, the map of `s`
/// holds `k` with the value of that pair.
pub proof fn lemma_fold_map_last<K, V>(s: Seq<(K, V)>, j: int, k: K)
    requires
        0 <= j < s.len(),
        s[j].0 == k,
        forall|m: int| j < m < s.len() ==> s[m].0 != k,
    ensures
        fold_map(s).contains_key(k),
        fold_map(s)[k] == s[j].1,
{
    lemma_fold_map_tail_absent(s, j + 1, k);
    lemma_fold_map_step(s, j);
}

/// The keys of `fold_map(s)` are exactly the keys of the pairs of `s`.
pub proof fn lemma_fold_map_keys<K, V>(s: Seq<(K, V)>, k: K)
    ensures
        fold_map(s).contains_key(k) <==> exists|j: int| 0 <= j < s.len() && s[j].0 == k,
    decreases s.len(),
{
    if s.len() > 0 {
        lemma_fold_map_keys(s.drop_last(), k);
        if exists|j: int| 0 <= j < s.drop_last().len() && s.drop_last()[j].0 == k {
            let j = choose|j: int| 0 <= j < s.drop_last().len() && s.drop_last()[j].0 == k;
            assert(s[j].0 == k);
        }
        if exists|j: int| 0 <= j < s.len() && s[j].0 == k {
            let j = choose|j: int| 0 <= j < s.len() && s[j].0 == k;
            if j < s.len() - 1 {
                assert(s.drop_last()[j].0 == k);
            }
        }
    }
}

/// `append_missing` of a prefix of `extra` extended by one item.
pub proof fn lemma_append_missing_step<T>(base: Seq<T>, extra: Seq<T>, i: int)
    requires
        0 <= i < extra.len(),
    ensures
        append_missing(base, extra.take(i + 1)) == if append_missing(
            base,
            extra.take(i),
        ).contains(extra[i]) {
            append_missing(base, extra.take(i))
        } else {
            append_missing(base, extra.take(i)).push(extra[i])
        },
{
    assert(extra.take(i + 1).drop_last() =~= extra.take(i));
}

/// Merging `extra` into `base` keeps `base` as it was, at the front; the
/// result holds exactly the items of `base` and of `extra`; and an item
/// that `base` already held, or that was already added, is not added again.
pub proof fn lemma_append_missing<T>(base: Seq<T>, extra: Seq<T>)
    ensures
        base.is_prefix_of(append_missing(base, extra)),
        forall|x: T| #[trigger]
            append_missing(base, extra).contains(x) <==> base.contains(x) || extra.contains(x),
        base.no_duplicates() ==> append_missing(base, extra).no_duplicates(),
    decreases extra.len(),
{
    let r = append_missing(base, extra);
    if extra.len() == 0 {
        assert(base.is_prefix_of(r)) by {
            assert(r.subrange(0, base.len() as int) =~= base);
        }
    } else {
        let e = extra.drop_last();
        let earlier = append_missing(base, e);
        lemma_append_missing(base, e);
        let y = extra.last();
        if !earlier.contains(y) {
            assert(r == earlier.push(y));
            assert(r.subrange(0, base.len() as int) =~= earlier.subrange(0, base.len() as int));
        }
        assert forall|x: T| #[trigger] r.contains(x) <==> base.contains(x) || extra.contains(x) by {
            if earlier.contains(x) {
                if e.contains(x) {
                    let j = choose|j: int| 0 <= j < e.len() && e[j] == x;
                    assert(extra[j] == x);
                }
                let j = choose|j: int| 0 <= j < earlier.len() && earlier[j] == x;
                if !earlier.contains(y) {
                    assert(r[j] == x);
                }
            }
            if extra.contains(x) {
                let j = choose|j: int| 0 <= j < extra.len() && extra[j] == x;
                if j < extra.len() - 1 {
                    assert(e[j] == x);
                } else if !earlier.contains(y) {
                    assert(r[earlier.len() as int] == x);
                }
            }
            if r.contains(x) && !earlier.contains(x) {
                let j = choose|j: int| 0 <= j < r.len() && r[j] == x;
                assert(x == y);
                assert(extra[extra.len() - 1] == x);
            }
        }
    }
}

/// No two pairs of `s` have the same key.
pub open spec fn keys_distinct<K, V>(s: Seq<(K, V)>) -> bool {
    forall|i: int, j: int| 0 <= i < j < s.len() ==> s[i].0 != s[j].0
}

/// In pairs with distinct keys, giving the pair at `j` a new value gives
/// the map of the pairs with that key's value replaced.
pub proof fn lemma_fold_map_replace<K, V>(s: Seq<(K, V)>, j: int, v: V)
    requires
        keys_distinct(s),
        0 <= j < s.len(),
    ensures
        keys_distinct(s.update(j, (s[j].0, v))),
        fold_map(s.update(j, (s[j].0, v))) == fold_map(s).insert(s[j].0, v),
{
    let k = s[j].0;
    let t = s.update(j, (k, v));
    let a = fold_map(t);
    let b = fold_map(s).insert(k, v);
    assert forall|x: K| #[trigger] a.contains_key(x) <==> b.contains_key(x) by {
        lemma_fold_map_keys(t, x);
        lemma_fold_map_keys(s, x);
        if exists|m: int| 0 <= m < s.len() && s[m].0 == x {
            let m = choose|m: int| 0 <= m < s.len() && s[m].0 == x;
            assert(t[m].0 == x);
        }
        if exists|m: int| 0 <= m < t.len() && t[m].0 == x {
            let m = choose|m: int| 0 <= m < t.len() && t[m].0 == x;
            assert(s[m].0 == x);
        }
    }
    assert forall|x: K| #[trigger] a.contains_key(x) implies a[x] == b[x] by {
        if x == k {
            lemma_fold_map_last(t, j, k);
        } else {
            lemma_fold_map_keys(t, x);
            let m = choose|m: int| 0 <= m < t.len() && t[m].0 == x;
            assert(s[m] == t[m]);
            lemma_fold_map_last(t, m, x);
            lemma_fold_map_last(s, m, x);
        }
    }
    assert(a =~= b);
}

/// Adding a pair whose key is new keeps the keys distinct.
pub proof fn lemma_keys_distinct_push<K, V>(s: Seq<(K, V)>, p: (K, V))
    requires
        keys_distinct(s),
        forall|i: int| 0 <= i < s.len() ==> s[i].0 != p.0,
    ensures
        keys_distinct(s.push(p)),
        fold_map(s.push(p)) == fold_map(s).insert(p.0, p.1),
{
    assert(s.push(p).drop_last() =~= s);
}

} // verus!
