//! Association lists: vectors of `(String, value)` pairs with distinct keys,
//! read as finite maps from the keys' character sequences to the values.
use vstd::prelude::*;

verus! {

/// No two pairs share a key.
pub open spec fn keys_distinct<K, V>(s: Seq<(K, V)>) -> bool {
    forall|i: int, j: int| 0 <= i < s.len() && 0 <= j < s.len() && i != j ==> s[i].0 != s[j].0
}

/// The map that an association list denotes (a later pair wins over an
/// earlier one with the same key).
pub open spec fn to_map<K, V>(s: Seq<(K, V)>) -> Map<K, V>
    decreases s.len(),
{
    if s.len() == 0 {
        Map::empty()
    } else {
        to_map(s.drop_last()).insert(s.last().0, s.last().1)
    }
}

/// Whether some pair has key `k`.
pub open spec fn has_key<K, V>(s: Seq<(K, V)>, k: K) -> bool {
    exists|i: int| 0 <= i < s.len() && s[i].0 == k
}

pub proof fn lemma_to_map_dom<K, V>(s: Seq<(K, V)>, k: K)
    ensures
        to_map(s).dom().contains(k) <==> has_key(s, k),
    decreases s.len(),
{
    if s.len() > 0 {
        lemma_to_map_dom(s.drop_last(), k);
        if has_key(s.drop_last(), k) {
            let i = choose|i: int| 0 <= i < s.drop_last().len() && s.drop_last()[i].0 == k;
            assert(s[i].0 == k);
        }
        if has_key(s, k) && s.last().0 != k {
            let i = choose|i: int| 0 <= i < s.len() && s[i].0 == k;
            assert(i != s.len() - 1);
            assert(s.drop_last()[i].0 == k);
        }
    }
}

pub proof fn lemma_to_map_index<K, V>(s: Seq<(K, V)>, i: int)
    requires
        keys_distinct(s),
        0 <= i < s.len(),
    ensures
        to_map(s).dom().contains(s[i].0),
        to_map(s)[s[i].0] == s[i].1,
    decreases s.len(),
{
    if i != s.len() - 1 {
        assert(s.drop_last()[i] == s[i]);
        lemma_to_map_index(s.drop_last(), i);
        assert(s.last().0 != s[i].0);
    }
}

pub proof fn lemma_to_map_update<K, V>(s: Seq<(K, V)>, i: int, v: V)
    requires
        keys_distinct(s),
        0 <= i < s.len(),
    ensures
        to_map(s.update(i, (s[i].0, v))) == to_map(s).insert(s[i].0, v),
        keys_distinct(s.update(i, (s[i].0, v))),
    decreases s.len(),
{
    let t = s.update(i, (s[i].0, v));
    if i == s.len() - 1 {
        assert(t.drop_last() == s.drop_last());
        assert(to_map(s).insert(s[i].0, v) == to_map(s.drop_last()).insert(s[i].0, v));
    } else {
        assert(t.drop_last() == s.drop_last().update(i, (s[i].0, v)));
        assert(s.drop_last()[i] == s[i]);
        lemma_to_map_update(s.drop_last(), i, v);
        assert(s.last().0 != s[i].0);
        assert(to_map(t) == to_map(s).insert(s[i].0, v));
    }
}

pub proof fn lemma_to_map_remove<K, V>(s: Seq<(K, V)>, i: int)
    requires
        keys_distinct(s),
        0 <= i < s.len(),
    ensures
        to_map(s.remove(i)) == to_map(s).remove(s[i].0),
        keys_distinct(s.remove(i)),
    decreases s.len(),
{
    let t = s.remove(i);
    assert(keys_distinct(t)) by {
        assert forall|a: int, b: int| 0 <= a < t.len() && 0 <= b < t.len() && a != b implies t[a].0
            != t[b].0 by {
            let a2 = if a < i { a } else { a + 1 };
            let b2 = if b < i { b } else { b + 1 };
            assert(t[a] == s[a2]);
            assert(t[b] == s[b2]);
        }
    }
    if i == s.len() - 1 {
        assert(t == s.drop_last());
        lemma_to_map_dom(s.drop_last(), s[i].0);
        if has_key(s.drop_last(), s[i].0) {
            let j = choose|j: int| 0 <= j < s.drop_last().len() && s.drop_last()[j].0 == s[i].0;
            assert(s[j].0 == s[i].0);
        }
        assert(to_map(t) == to_map(s).remove(s[i].0));
    } else {
        assert(t.drop_last() == s.drop_last().remove(i));
        assert(s.drop_last()[i] == s[i]);
        lemma_to_map_remove(s.drop_last(), i);
        assert(t.last() == s.last());
        assert(s.last().0 != s[i].0);
        assert(to_map(t) == to_map(s).remove(s[i].0));
    }
}

pub proof fn lemma_to_map_push<K, V>(s: Seq<(K, V)>, k: K, v: V)
    requires
        keys_distinct(s),
        !has_key(s, k),
    ensures
        to_map(s.push((k, v))) == to_map(s).insert(k, v),
        keys_distinct(s.push((k, v))),
{
    assert(s.push((k, v)).drop_last() == s);
    assert forall|a: int, b: int|
        0 <= a < s.push((k, v)).len() && 0 <= b < s.push((k, v)).len() && a != b implies s.push(
        (k, v),
    )[a].0 != s.push((k, v))[b].0 by {
        if a < s.len() && b == s.len() {
            assert(s[a].0 != k);
        }
        if b < s.len() && a == s.len() {
            assert(s[b].0 != k);
        }
    }
}

/// The predicate on pairs "the key satisfies `p`".
pub open spec fn key_pred<K, V>(p: spec_fn(K) -> bool) -> spec_fn((K, V)) -> bool {
    |x: (K, V)| p(x.0)
}

/// Keeping the pairs whose key satisfies `p` restricts the map to those keys.
pub proof fn lemma_to_map_filter<K, V>(s: Seq<(K, V)>, p: spec_fn(K) -> bool)
    requires
        keys_distinct(s),
    ensures
        to_map(s.filter(key_pred::<K, V>(p))) == to_map(s).restrict(Set::new(p)),
        keys_distinct(s.filter(key_pred::<K, V>(p))),
    decreases s.len(),
{
    reveal(Seq::filter);
    let f = s.filter(key_pred::<K, V>(p));
    lemma_filter_props(s, key_pred::<K, V>(p));
    assert(s.no_duplicates()) by {
        assert forall|a: int, b: int| 0 <= a < s.len() && 0 <= b < s.len() && a != b implies s[a] != s[b] by {
            assert(s[a].0 != s[b].0);
        }
    }
    assert(keys_distinct(f)) by {
        assert forall|a: int, b: int| 0 <= a < f.len() && 0 <= b < f.len() && a != b implies f[a].0 != f[b].0 by {
            assert(f.contains(f[a]) && f.contains(f[b]));
            let ia = choose|i: int| 0 <= i < s.len() && s[i] == f[a];
            let ib = choose|i: int| 0 <= i < s.len() && s[i] == f[b];
            if f[a].0 == f[b].0 {
                assert(ia == ib);
                assert(f[a] == f[b]);
            }
        }
    }
    if s.len() > 0 {
        let r = s.drop_last();
        let x = s.last();
        assert(keys_distinct(r)) by {
            assert forall|a: int, b: int| 0 <= a < r.len() && 0 <= b < r.len() && a != b implies r[a].0 != r[b].0 by {
                assert(r[a] == s[a] && r[b] == s[b]);
            }
        }
        lemma_to_map_filter(r, p);
        lemma_to_map_dom(r, x.0);
        if has_key(r, x.0) {
            let i = choose|i: int| 0 <= i < r.len() && r[i].0 == x.0;
            assert(s[i].0 == s[s.len() - 1].0);
        }
        let fr = r.filter(key_pred::<K, V>(p));
        assert(to_map(s) == to_map(r).insert(x.0, x.1));
        if p(x.0) {
            assert(key_pred::<K, V>(p)(x));
            assert(f == fr.push(x));
            assert(fr.push(x).drop_last() == fr);
            assert(to_map(f) == to_map(fr).insert(x.0, x.1));
            assert(to_map(f) =~= to_map(s).restrict(Set::new(p)));
        } else {
            assert(!key_pred::<K, V>(p)(x));
            assert(f == fr);
            assert(to_map(f) =~= to_map(s).restrict(Set::new(p)));
        }
    }
}

/// Finds the position of the pair whose key equals `k`.
pub fn find_key<X>(v: &Vec<(String, X)>, k: &String) -> (r: Option<usize>)
    ensures
        match r {
            Some(i) => i < v.len() && v@[i as int].0@ == k@,
            None => forall|i: int| 0 <= i < v.len() ==> v@[i].0@ != k@,
        },
{
    let mut i: usize = 0;
    while i < v.len()
        invariant
            i <= v.len(),
            forall|j: int| 0 <= j < i ==> v@[j].0@ != k@,
        decreases v.len() - i,
    {
        if v[i].0 == *k {
            return Some(i);
        }
        i = i + 1;
    }
    None
}

/// Whether `k` occurs in a vector of strings (by character content).
pub fn contains_string(v: &Vec<String>, k: &String) -> (b: bool)
    ensures
        b == crate::assoc::string_views(v@).contains(k@),
{
    let mut i: usize = 0;
    while i < v.len()
        invariant
            i <= v.len(),
            forall|j: int| 0 <= j < i ==> v@[j]@ != k@,
        decreases v.len() - i,
    {
        if v[i] == *k {
            assert(string_views(v@)[i as int] == k@);
            return true;
        }
        i = i + 1;
    }
    assert forall|j: int| 0 <= j < string_views(v@).len() implies string_views(v@)[j] != k@ by {
        assert(string_views(v@)[j] == v@[j]@);
    }
    false
}

/// The character sequences of a sequence of strings.
pub open spec fn string_views(v: Seq<String>) -> Seq<Seq<char>> {
    v.map_values(|s: String| s@)
}

/// The predicate "differs from `u`".
pub open spec fn not_eq(u: Seq<char>) -> spec_fn(Seq<char>) -> bool {
    |x: Seq<char>| x != u
}

/// Removes every string equal to `k`, keeping the others in order.
pub fn remove_all_strings(v: &mut Vec<String>, k: &String)
    ensures
        string_views(final(v)@) == string_views(old(v)@).filter(not_eq(k@)),
{
    let ghost orig = string_views(old(v)@);
    let mut out: Vec<String> = Vec::new();
    let mut i: usize = 0;
    while i < v.len()
        invariant
            i <= v.len(),
            orig == string_views(v@),
            string_views(out@) == orig.take(i as int).filter(not_eq(k@)),
        decreases v.len() - i,
    {
        assert(orig.take(i + 1).drop_last() == orig.take(i as int));
        reveal_with_fuel(Seq::filter, 1);
        if v[i] != *k {
            let ghost before = out@;
            out.push(v[i].clone());
            assert(string_views(out@) == string_views(before).push(v@[i as int]@));
        }
        i = i + 1;
    }
    assert(orig.take(v.len() as int) == orig);
    *v = out;
}

/// What filtering keeps: membership, freedom from duplicates, and identity
/// when every element passes.
pub proof fn lemma_filter_props<A>(s: Seq<A>, p: spec_fn(A) -> bool)
    ensures
        forall|y: A| #[trigger] s.filter(p).contains(y) <==> (s.contains(y) && p(y)),
        s.no_duplicates() ==> s.filter(p).no_duplicates(),
        (forall|i: int| 0 <= i < s.len() ==> p(#[trigger] s[i])) ==> s.filter(p) == s,
        s.filter(p).len() <= s.len(),
    decreases s.len(),
{
    reveal(Seq::filter);
    if s.len() > 0 {
        let r = s.drop_last();
        lemma_filter_props(r, p);
        let fr = r.filter(p);
        assert forall|y: A| #[trigger] s.filter(p).contains(y) <==> (s.contains(y) && p(y)) by {
            if s.contains(y) && p(y) {
                let i = choose|i: int| 0 <= i < s.len() && s[i] == y;
                if i < s.len() - 1 {
                    assert(r[i] == y);
                    assert(r.contains(y));
                    assert(fr.contains(y));
                    let j = choose|j: int| 0 <= j < fr.len() && fr[j] == y;
                    if p(s.last()) {
                        assert(s.filter(p)[j] == y);
                    }
                } else {
                    assert(s.filter(p)[s.filter(p).len() - 1] == y);
                }
            }
            if s.filter(p).contains(y) {
                let j = choose|j: int| 0 <= j < s.filter(p).len() && s.filter(p)[j] == y;
                if p(s.last()) && j == s.filter(p).len() - 1 {
                    assert(s[s.len() - 1] == y);
                } else {
                    assert(fr[j] == y);
                    assert(fr.contains(y));
                    let i = choose|i: int| 0 <= i < r.len() && r[i] == y;
                    assert(s[i] == y);
                }
            }
        }
        if s.no_duplicates() {
            assert(r.no_duplicates()) by {
                assert forall|a: int, b: int| 0 <= a < r.len() && 0 <= b < r.len() && a != b implies r[a]
                    != r[b] by {
                    assert(r[a] == s[a] && r[b] == s[b]);
                }
            }
            if p(s.last()) {
                if fr.contains(s.last()) {
                    assert(r.contains(s.last()));
                    let i = choose|i: int| 0 <= i < r.len() && r[i] == s.last();
                    assert(s[i] == s[s.len() - 1]);
                }
                assert forall|a: int, b: int|
                    0 <= a < s.filter(p).len() && 0 <= b < s.filter(p).len() && a != b implies s.filter(
                    p,
                )[a] != s.filter(p)[b] by {
                    if a == fr.len() {
                        assert(fr[b] != s.last() || !fr.contains(s.last()));
                    } else if b == fr.len() {
                        assert(fr[a] != s.last() || !fr.contains(s.last()));
                    }
                }
            }
        }
        if forall|i: int| 0 <= i < s.len() ==> p(#[trigger] s[i]) {
            assert(forall|i: int| 0 <= i < r.len() ==> p(#[trigger] r[i]) ==> true);
            assert forall|i: int| 0 <= i < r.len() implies p(#[trigger] r[i]) by {
                assert(r[i] == s[i]);
            }
            assert(s.filter(p) == r.push(s.last()));
            assert(s == r.push(s.last()));
        }
    }
}

} // verus!
