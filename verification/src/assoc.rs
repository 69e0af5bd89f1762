//! Association lists: vectors of `(name, value)` pairs looked up by name,
//! where the first pair with a name is the one that counts. They stand for
//! the maps from names to values that the application state keeps.

use vstd::prelude::*;
use crate::text::str_eq;

verus! {

/// The pairs with their names as character sequences.
pub open spec fn assoc_view<T>(v: Seq<(String, T)>) -> Seq<(Seq<char>, T)> {
    v.map_values(|e: (String, T)| (e.0@, e.1))
}

/// `i` is the first position with name `k`.
pub open spec fn is_first_key<T>(s: Seq<(Seq<char>, T)>, k: Seq<char>, i: int) -> bool {
    0 <= i < s.len() && s[i].0 == k && forall|j: int| 0 <= j < i ==> (#[trigger] s[j]).0 != k
}

/// Some pair has name `k`.
pub open spec fn has_key<T>(s: Seq<(Seq<char>, T)>, k: Seq<char>) -> bool {
    exists|i: int| 0 <= i < s.len() && (#[trigger] s[i]).0 == k
}

/// The value under `k`: that of the first pair with the name.
pub open spec fn assoc_lookup<T>(s: Seq<(Seq<char>, T)>, k: Seq<char>) -> Option<T> {
    if has_key(s, k) {
        Some(s[choose|i: int| is_first_key(s, k, i)].1)
    } else {
        None
    }
}

/// The list after setting `k` to `v`: the first pair with the name is
/// replaced, or the pair is added at the end.
pub open spec fn assoc_insert_spec<T>(s: Seq<(Seq<char>, T)>, k: Seq<char>, v: T) -> Seq<(Seq<char>, T)> {
    if has_key(s, k) {
        s.update(choose|i: int| is_first_key(s, k, i), (k, v))
    } else {
        s.push((k, v))
    }
}

/// A name that occurs has a first position, and only one.
pub proof fn lemma_first_key<T>(s: Seq<(Seq<char>, T)>, k: Seq<char>)
    ensures
        has_key(s, k) ==> exists|i: int| is_first_key(s, k, i),
        forall|i: int, j: int| is_first_key(s, k, i) && is_first_key(s, k, j) ==> i == j,
    decreases s.len(),
{
    if has_key(s, k) {
        if s[0].0 == k {
            assert(is_first_key(s, k, 0));
        } else {
            let t = s.drop_first();
            let w = choose|i: int| 0 <= i < s.len() && (#[trigger] s[i]).0 == k;
            assert(t[w - 1].0 == k);
            lemma_first_key(t, k);
            let i = choose|i: int| is_first_key(t, k, i);
            assert forall|j: int| 0 <= j < i + 1 implies (#[trigger] s[j]).0 != k by {
                if j > 0 {
                    assert(s[j] == t[j - 1]);
                }
            }
            assert(is_first_key(s, k, i + 1));
        }
    }
    assert forall|i: int, j: int| is_first_key(s, k, i) && is_first_key(s, k, j) implies i == j by {
        if i < j {
            assert(s[i].0 != k);
        } else if j < i {
            assert(s[j].0 != k);
        }
    }
}

/// After setting a name, looking it up gives the new value, and every
/// other name keeps its value.
pub proof fn law_assoc_insert_lookup<T>(s: Seq<(Seq<char>, T)>, k: Seq<char>, v: T, other: Seq<char>)
    ensures
        assoc_lookup(assoc_insert_spec(s, k, v), k) == Some(v),
        other != k ==> assoc_lookup(assoc_insert_spec(s, k, v), other) == assoc_lookup(s, other),
{
    lemma_first_key(s, k);
    let t = assoc_insert_spec(s, k, v);
    lemma_first_key(t, k);
    lemma_first_key(s, other);
    lemma_first_key(t, other);
    if has_key(s, k) {
        let i = choose|i: int| is_first_key(s, k, i);
        assert forall|j: int| 0 <= j < i implies (#[trigger] t[j]).0 != k by {
            assert(t[j] == s[j]);
        }
        assert(is_first_key(t, k, i));
        if other != k {
            assert forall|j: int| 0 <= j < t.len() implies ((#[trigger] t[j]).0 == other <==> s[j].0 == other) by {
                if j == i {
                } else {
                    assert(t[j] == s[j]);
                }
            }
            if has_key(s, other) {
                let a = choose|a: int| is_first_key(s, other, a);
                assert(t[a].0 == other);
                assert forall|j: int| 0 <= j < a implies (#[trigger] t[j]).0 != other by {
                    assert(s[j].0 != other);
                }
                assert(is_first_key(t, other, a));
                assert(a != i);
                assert(t[a] == s[a]);
            } else {
                assert forall|j: int| 0 <= j < t.len() implies (#[trigger] t[j]).0 != other by {
                    assert(s[j].0 != other);
                }
            }
        }
    } else {
        let n = s.len() as int;
        assert forall|j: int| 0 <= j < n implies (#[trigger] t[j]).0 != k by {
            assert(t[j] == s[j]);
        }
        assert(is_first_key(t, k, n));
        if other != k {
            if has_key(s, other) {
                let a = choose|a: int| is_first_key(s, other, a);
                assert(t[a] == s[a]);
                assert forall|j: int| 0 <= j < a implies (#[trigger] t[j]).0 != other by {
                    assert(t[j] == s[j]);
                }
                assert(is_first_key(t, other, a));
            } else {
                assert forall|j: int| 0 <= j < t.len() implies (#[trigger] t[j]).0 != other by {
                    if j < n {
                        assert(t[j] == s[j]);
                    }
                }
            }
        }
    }
}

/// The first position of a name.
pub fn assoc_find<T>(v: &Vec<(String, T)>, key: &str) -> (r: Option<usize>)
    ensures
        r matches Some(i) ==> is_first_key(assoc_view(v@), key@, i as int),
        r is None <==> !has_key(assoc_view(v@), key@),
{
    let n = v.len();
    let mut i: usize = 0;
    while i < n
        invariant
            n == v@.len(),
            i <= n,
            forall|j: int| 0 <= j < i ==> (#[trigger] assoc_view(v@)[j]).0 != key@,
        decreases n - i,
    {
        assert(assoc_view(v@)[i as int].0 == v@[i as int].0@);
        if str_eq(v[i].0.as_str(), key) {
            return Some(i);
        }
        i = i + 1;
    }
    None
}

/// The value under a name.
pub fn assoc_get<'a, T>(v: &'a Vec<(String, T)>, key: &str) -> (r: Option<&'a T>)
    ensures
        r matches Some(x) ==> assoc_lookup(assoc_view(v@), key@) == Some(*x),
        r is None <==> assoc_lookup(assoc_view(v@), key@) is None,
{
    proof { lemma_first_key(assoc_view(v@), key@); }
    match assoc_find(v, key) {
        Some(i) => Some(&v[i].1),
        None => None,
    }
}

/// Sets the value under a name.
pub fn assoc_insert<T>(v: &mut Vec<(String, T)>, key: String, val: T)
    ensures
        assoc_view(final(v)@) == assoc_insert_spec(assoc_view(old(v)@), key@, val),
{
    proof { lemma_first_key(assoc_view(v@), key@); }
    let ghost kv = key@;
    match assoc_find(v, key.as_str()) {
        Some(i) => {
            let ghost before = v@;
            v.remove(i);
            v.insert(i, (key, val));
            proof {
                assert(v@ =~= before.update(i as int, v@[i as int]));
                assert(assoc_view(v@) =~= assoc_view(before).update(i as int, (kv, val)));
            }
        },
        None => {
            let ghost before = v@;
            v.push((key, val));
            assert(assoc_view(v@) =~= assoc_view(before).push((kv, val)));
        },
    }
}

} // verus!
