//! Ordering of strings by their characters, and an insertion sort of items
//! by a string key.

use vstd::prelude::*;
use crate::text::chars_of;

verus! {

broadcast use vstd::seq_lib::group_to_multiset_ensures;

/// Lexicographic "strictly less" on character sequences, comparing
/// characters by code point (the order of `str`'s `Ord`, since UTF-8
/// preserves code-point order).
pub open spec fn seq_lt(a: Seq<char>, b: Seq<char>) -> bool
    decreases a.len(),
{
    if a.len() == 0 {
        b.len() > 0
    } else if b.len() == 0 {
        false
    } else if a[0] != b[0] {
        (a[0] as u32) < (b[0] as u32)
    } else {
        seq_lt(a.drop_first(), b.drop_first())
    }
}

/// No sequence is less than itself.
pub proof fn lemma_seq_lt_irreflexive(a: Seq<char>)
    ensures
        !seq_lt(a, a),
    decreases a.len(),
{
    if a.len() > 0 {
        lemma_seq_lt_irreflexive(a.drop_first());
    }
}

/// `seq_lt` is transitive.
pub proof fn lemma_seq_lt_transitive(a: Seq<char>, b: Seq<char>, c: Seq<char>)
    requires
        seq_lt(a, b),
        seq_lt(b, c),
    ensures
        seq_lt(a, c),
    decreases a.len(),
{
    if a.len() > 0 && b.len() > 0 && c.len() > 0 && a[0] == b[0] && b[0] == c[0] {
        lemma_seq_lt_transitive(a.drop_first(), b.drop_first(), c.drop_first());
    }
}

/// `seq_lt` is asymmetric.
pub proof fn lemma_seq_lt_asymmetric(a: Seq<char>, b: Seq<char>)
    requires
        seq_lt(a, b),
    ensures
        !seq_lt(b, a),
    decreases a.len(),
{
    if a.len() > 0 && b.len() > 0 && a[0] == b[0] {
        lemma_seq_lt_asymmetric(a.drop_first(), b.drop_first());
    }
}

/// Of two different sequences, one is less than the other.
pub proof fn lemma_seq_lt_total(a: Seq<char>, b: Seq<char>)
    requires
        a != b,
    ensures
        seq_lt(a, b) || seq_lt(b, a),
    decreases a.len(),
{
    if a.len() > 0 && b.len() > 0 && a[0] == b[0] {
        if a.drop_first() == b.drop_first() {
            assert(a =~= seq![a[0]] + a.drop_first());
            assert(b =~= seq![b[0]] + b.drop_first());
        }
        lemma_seq_lt_total(a.drop_first(), b.drop_first());
    } else if a.len() == 0 && b.len() == 0 {
        assert(a =~= b);
    } else if a.len() > 0 && b.len() > 0 {
        let ca = a[0];
        let cb = b[0];
        if (ca as u32) == (cb as u32) {
            vstd::utf8::char_u32_cast(ca, ca as u32);
            vstd::utf8::char_u32_cast(cb, cb as u32);
        }
    }
}

/// Being not less than is transitive.
pub proof fn lemma_not_lt_transitive(a: Seq<char>, b: Seq<char>, c: Seq<char>)
    requires
        !seq_lt(a, b),
        !seq_lt(b, c),
    ensures
        !seq_lt(a, c),
{
    if seq_lt(a, c) {
        if a == b {
        } else {
            lemma_seq_lt_total(a, b);
            lemma_seq_lt_transitive(b, a, c);
        }
    }
}

/// Whether `a` sorts strictly before `b`.
pub fn str_lt(a: &str, b: &str) -> (r: bool)
    ensures
        r == seq_lt(a@, b@),
{
    let x = chars_of(a);
    let y = chars_of(b);
    let mut i: usize = 0;
    assert(a@.skip(0) =~= a@);
    assert(b@.skip(0) =~= b@);
    while i < x.len() && i < y.len() && x[i] == y[i]
        invariant
            i <= x@.len(),
            i <= y@.len(),
            x@ == a@,
            y@ == b@,
            seq_lt(a@, b@) == seq_lt(a@.skip(i as int), b@.skip(i as int)),
        decreases x@.len() - i,
    {
        assert(a@.skip(i as int).drop_first() =~= a@.skip(i + 1));
        assert(b@.skip(i as int).drop_first() =~= b@.skip(i + 1));
        i = i + 1;
    }
    if i == x.len() {
        i < y.len()
    } else if i == y.len() {
        false
    } else {
        (x[i] as u32) < (y[i] as u32)
    }
}

/// Items ordered by a string key.
pub trait Keyed {
    /// The key, as characters.
    spec fn key(&self) -> Seq<char>;

    /// The key.
    fn key_str(&self) -> (r: &str)
        ensures
            r@ == self.key();
}

impl Keyed for String {
    open spec fn key(&self) -> Seq<char> {
        self@
    }

    fn key_str(&self) -> (r: &str) {
        self.as_str()
    }
}

impl<T> Keyed for (String, T) {
    open spec fn key(&self) -> Seq<char> {
        self.0@
    }

    fn key_str(&self) -> (r: &str) {
        self.0.as_str()
    }
}

/// The keys of a sequence of items.
pub open spec fn keys<T: Keyed>(s: Seq<T>) -> Seq<Seq<char>> {
    s.map_values(|x: T| x.key())
}

/// No item has a key strictly less than the key of an item before it.
pub open spec fn sorted_by_key<T: Keyed>(s: Seq<T>) -> bool {
    forall|i: int, j: int| 0 <= i < j < s.len() ==> !seq_lt(#[trigger] s[j].key(), #[trigger] s[i].key())
}

/// Sorts items by key: the items are taken from the last to the first,
/// and each is placed before the first placed item whose key is not less
/// than its own.
pub fn sort_by_key<T: Keyed>(items: Vec<T>) -> (r: Vec<T>)
    ensures
        sorted_by_key(r@),
        r@.to_multiset() == items@.to_multiset(),
{
    let mut items = items;
    let mut r: Vec<T> = Vec::new();
    let ghost orig = items@;
    while items.len() > 0
        invariant
            sorted_by_key(r@),
            r@.to_multiset().add(items@.to_multiset()) == orig.to_multiset(),
        decreases items@.len(),
    {
        let ghost before_items = items@;
        let x = items.pop().unwrap();
        proof {
            assert(before_items =~= items@.push(x));
            assert(before_items.to_multiset() =~= items@.to_multiset().insert(x));
        }
        let mut k: usize = 0;
        while k < r.len() && str_lt(r[k].key_str(), x.key_str())
            invariant
                k <= r@.len(),
                forall|j: int| 0 <= j < k ==> seq_lt(#[trigger] r@[j].key(), x.key()),
            decreases r@.len() - k,
        {
            k = k + 1;
        }
        let ghost old_r = r@;
        r.insert(k, x);
        proof {
            assert(r@ == old_r.insert(k as int, x));
            assert forall|i: int, j: int| 0 <= i < j < r@.len() implies !seq_lt(#[trigger] r@[j].key(), #[trigger] r@[i].key()) by {
                if j < k {
                } else if i < k && j == k {
                    lemma_seq_lt_asymmetric(old_r[i].key(), x.key());
                } else if i < k {
                    assert(r@[j] == old_r[j - 1]);
                } else if i == k {
                    let y = old_r[j - 1];
                    assert(!seq_lt(old_r[k as int].key(), x.key()));
                    if j - 1 > k {
                        lemma_not_lt_transitive(y.key(), old_r[k as int].key(), x.key());
                    }
                } else {
                    assert(r@[i] == old_r[i - 1]);
                    assert(r@[j] == old_r[j - 1]);
                }
            }
        }
    }
    r
}

/// The positions `0..n`, in order.
pub open spec fn positions(n: nat) -> Seq<usize> {
    Seq::new(n, |k: int| k as usize)
}

/// `order` lists positions of `names` so that the names never decrease
/// and positions with equal names come in increasing order (the order a
/// stable sort by name gives).
pub open spec fn stably_ordered(order: Seq<usize>, names: Seq<Seq<char>>) -> bool {
    forall|i: int, j: int|
        0 <= i < j < order.len() ==> seq_lt(#[trigger] names[order[i] as int], #[trigger] names[order[j] as int]) || (
        names[order[i] as int] == names[order[j] as int] && order[i] < order[j])
}

/// `order` lists the positions `0..names.len()` once each, along
/// non-decreasing names, equal names in their order.
pub open spec fn orders_by_name(order: Seq<usize>, names: Seq<Seq<char>>) -> bool {
    &&& order.len() == names.len()
    &&& order.to_multiset() == positions(names.len()).to_multiset()
    &&& forall|i: int| 0 <= i < order.len() ==> (#[trigger] order[i]) < names.len()
    &&& stably_ordered(order, names)
}

/// The positions of names in a stable order by name: a reordering of
/// `0..n` along which the names do not decrease and equal names keep
/// their order.
pub fn name_order(names: &Vec<String>) -> (order: Vec<usize>)
    ensures
        orders_by_name(order@, crate::text::views(names@)),
        forall|i: int, j: int|
            0 <= i < j < order@.len() ==> !seq_lt(names@[order@[j] as int]@, names@[order@[i] as int]@),
{
    let n = names.len();
    let ghost nv = crate::text::views(names@);
    let mut r: Vec<usize> = Vec::new();
    let mut k: usize = 0;
    assert(positions(0) =~= Seq::<usize>::empty());
    while k < n
        invariant
            n == names@.len(),
            nv == crate::text::views(names@),
            k <= n,
            r@.len() == k,
            forall|i: int| 0 <= i < r@.len() ==> (#[trigger] r@[i]) < k,
            r@.to_multiset() == positions(k as nat).to_multiset(),
            stably_ordered(r@, nv),
        decreases n - k,
    {
        let mut pos: usize = 0;
        while pos < r.len() && !str_lt(names[k].as_str(), names[r[pos]].as_str())
            invariant
                n == names@.len(),
                k < n,
                pos <= r@.len(),
                forall|i: int| 0 <= i < r@.len() ==> (#[trigger] r@[i]) < k,
                forall|q: int| 0 <= q < pos ==> !seq_lt(names@[k as int]@, #[trigger] names@[r@[q] as int]@),
            decreases r@.len() - pos,
        {
            pos = pos + 1;
        }
        let ghost old_r = r@;
        r.insert(pos, k);
        proof {
            broadcast use vstd::seq_lib::group_to_multiset_ensures;
            assert(r@ == old_r.insert(pos as int, k));
            assert(positions((k + 1) as nat) =~= positions(k as nat).push(k));
            assert forall|i: int, j: int| 0 <= i < j < r@.len() implies seq_lt(
                #[trigger] nv[r@[i] as int],
                #[trigger] nv[r@[j] as int],
            ) || (nv[r@[i] as int] == nv[r@[j] as int] && r@[i] < r@[j]) by {
                if j < pos {
                } else if i < pos && j == pos {
                    let a = nv[old_r[i] as int];
                    let b = nv[k as int];
                    if a != b {
                        lemma_seq_lt_total(a, b);
                    }
                } else if i < pos {
                    assert(r@[j] == old_r[j - 1]);
                } else if i == pos {
                    let b = nv[old_r[j - 1] as int];
                    let c = nv[old_r[pos as int] as int];
                    assert(seq_lt(nv[k as int], c));
                    if j - 1 > pos {
                        assert(seq_lt(c, b) || c == b);
                        if seq_lt(c, b) {
                            lemma_seq_lt_transitive(nv[k as int], c, b);
                        }
                    }
                } else {
                    assert(r@[i] == old_r[i - 1]);
                    assert(r@[j] == old_r[j - 1]);
                }
            }
        }
        k = k + 1;
    }
    proof {
        assert forall|i: int, j: int| 0 <= i < j < r@.len() implies !seq_lt(
            names@[r@[j] as int]@,
            names@[r@[i] as int]@,
        ) by {
            let a = nv[r@[i] as int];
            let b = nv[r@[j] as int];
            if seq_lt(a, b) {
                lemma_seq_lt_asymmetric(a, b);
            } else {
                lemma_seq_lt_irreflexive(a);
            }
        }
    }
    r
}

/// Reverses a vector.
pub fn reversed<T>(v: Vec<T>) -> (r: Vec<T>)
    ensures
        r@ == v@.reverse(),
{
    let mut v = v;
    let mut r: Vec<T> = Vec::new();
    let ghost orig = v@;
    while v.len() > 0
        invariant
            r@ + v@.reverse() == orig.reverse(),
        decreases v@.len(),
    {
        let ghost before = v@;
        let x = v.pop().unwrap();
        proof {
            assert(before =~= v@.push(x));
            assert(before.reverse() =~= seq![x] + v@.reverse());
            assert(r@.push(x) + v@.reverse() =~= r@ + before.reverse());
        }
        r.push(x);
    }
    assert(v@.reverse() =~= Seq::<T>::empty());
    assert(r@ + v@.reverse() =~= r@);
    r
}

/// Reordering a sequence reorders its image under any function.
pub proof fn lemma_map_values_multiset<A, B>(a: Seq<A>, b: Seq<A>, f: spec_fn(A) -> B)
    requires
        a.to_multiset() == b.to_multiset(),
    ensures
        a.map_values(f).to_multiset() == b.map_values(f).to_multiset(),
    decreases a.len(),
{
    broadcast use vstd::multiset::group_multiset_axioms;
    broadcast use vstd::seq_lib::to_multiset_remove;
    broadcast use vstd::seq_lib::to_multiset_insert;
    if a.len() == 0 {
        assert(b.to_multiset().len() == 0);
        assert(b.len() == 0);
        assert(a.map_values(f) =~= b.map_values(f));
    } else {
        let x = a.last();
        assert(a.to_multiset().count(x) > 0) by {
            assert(a =~= a.drop_last().push(x));
        }
        assert(b.to_multiset().contains(x));
        assert(b.contains(x));
        let j = choose|j: int| 0 <= j < b.len() && b[j] == x;
        let a1 = a.drop_last();
        let b1 = b.remove(j);
        assert(a =~= a1.push(x));
        assert(a1.to_multiset() =~= a.to_multiset().remove(x));
        assert(b1.to_multiset() =~= b.to_multiset().remove(x));
        lemma_map_values_multiset(a1, b1, f);
        assert(a.map_values(f) =~= a1.map_values(f).push(f(x)));
        assert(b.map_values(f) =~= b1.map_values(f).insert(j, f(x)));
        assert(a1.map_values(f).push(f(x)) =~= a1.map_values(f).insert(a1.len() as int, f(x)));
    }
}

} // verus!
