//! Association lists: vectors of key-value pairs with distinct keys, read as finite maps.
use vstd::prelude::*;
use crate::identifiers::{BaseDeviceIdentifier, UserDeviceIdentifier};

verus! {

/// Keys that can be compared by their abstract values.
pub trait KeyEq: View + Sized {
    fn key_eq(&self, other: &Self) -> (r: bool)
        ensures
            r == (self@ == other@),
    ;
}

impl KeyEq for String {
    fn key_eq(&self, other: &Self) -> (r: bool) {
        *self == *other
    }
}

impl KeyEq for u16 {
    fn key_eq(&self, other: &Self) -> (r: bool) {
        *self == *other
    }
}

impl KeyEq for UserDeviceIdentifier {
    fn key_eq(&self, other: &Self) -> (r: bool) {
        *self == *other
    }
}

impl KeyEq for BaseDeviceIdentifier {
    fn key_eq(&self, other: &Self) -> (r: bool) {
        *self == *other
    }
}

/// Abstract values of a list of pairs.
pub open spec fn pairs_view<K: View, V: View>(s: Seq<(K, V)>) -> Seq<(K::V, V::V)> {
    s.map_values(|p: (K, V)| (p.0@, p.1@))
}

/// No key occurs twice.
pub open spec fn keys_unique<A, B>(s: Seq<(A, B)>) -> bool {
    forall|i: int, j: int| 0 <= i < s.len() && 0 <= j < s.len() && i != j ==> s[i].0 != s[j].0
}

/// Whether `k` is a key of the list.
pub open spec fn has_key<A, B>(s: Seq<(A, B)>, k: A) -> bool {
    exists|i: int| 0 <= i < s.len() && s[i].0 == k
}

/// The map a list of pairs describes: each key to the value paired with it.
pub open spec fn assoc_map<A, B>(s: Seq<(A, B)>) -> Map<A, B> {
    Map::new(|k: A| has_key(s, k), |k: A| s[choose|i: int| 0 <= i < s.len() && s[i].0 == k].1)
}

/// In a list with distinct keys, the map sends each listed key to its listed value.
pub proof fn lemma_assoc_at<A, B>(s: Seq<(A, B)>, i: int)
    requires
        keys_unique(s),
        0 <= i < s.len(),
    ensures
        assoc_map(s).dom().contains(s[i].0),
        assoc_map(s)[s[i].0] == s[i].1,
{
    assert(has_key(s, s[i].0));
}

/// The domain of the map is the (finite) set of listed keys.
pub proof fn lemma_assoc_dom<A, B>(s: Seq<(A, B)>)
    ensures
        assoc_map(s).dom() == s.map_values(|p: (A, B)| p.0).to_set(),
        assoc_map(s).dom().finite(),
{
    let keys = s.map_values(|p: (A, B)| p.0);
    assert forall|k: A| assoc_map(s).dom().contains(k) <==> keys.to_set().contains(k) by {
        if has_key(s, k) {
            let i = choose|i: int| 0 <= i < s.len() && s[i].0 == k;
            assert(keys[i] == k);
        }
        if keys.contains(k) {
            let i = choose|i: int| 0 <= i < keys.len() && keys[i] == k;
            assert(s[i].0 == k);
        }
    }
    assert(assoc_map(s).dom() =~= keys.to_set());
    vstd::seq_lib::seq_to_set_is_finite(keys);
}

/// Appending a pair with a new key adds that key to the map.
pub proof fn lemma_assoc_push<A, B>(s: Seq<(A, B)>, p: (A, B))
    requires
        keys_unique(s.push(p)),
    ensures
        keys_unique(s),
        assoc_map(s.push(p)) == assoc_map(s).insert(p.0, p.1),
{
    let t = s.push(p);
    assert(keys_unique(s)) by {
        assert forall|i: int, j: int| 0 <= i < s.len() && 0 <= j < s.len() && i != j implies s[i].0 != s[j].0 by {
            assert(t[i] == s[i] && t[j] == s[j]);
        }
    }
    assert forall|k: A| #[trigger] assoc_map(t).dom().contains(k) <==> assoc_map(s).insert(p.0, p.1).dom().contains(k) by {
        if has_key(t, k) && k != p.0 {
            let i = choose|i: int| 0 <= i < t.len() && t[i].0 == k;
            assert(s[i].0 == k);
        }
        if has_key(s, k) {
            let i = choose|i: int| 0 <= i < s.len() && s[i].0 == k;
            assert(t[i].0 == k);
        }
        if k == p.0 {
            assert(t[s.len() as int].0 == k);
        }
    }
    assert forall|k: A| #[trigger] assoc_map(t).dom().contains(k) implies assoc_map(t)[k] == assoc_map(s).insert(p.0, p.1)[k] by {
        if k == p.0 {
            lemma_assoc_at(t, s.len() as int);
        } else {
            let i = choose|i: int| 0 <= i < s.len() && s[i].0 == k;
            assert(t[i] == s[i]);
            lemma_assoc_at(t, i);
            lemma_assoc_at(s, i);
        }
    }
    assert(assoc_map(t) =~= assoc_map(s).insert(p.0, p.1));
}

/// Replacing the value at a listed position updates that key in the map.
pub proof fn lemma_assoc_update<A, B>(s: Seq<(A, B)>, i: int, b: B)
    requires
        keys_unique(s),
        0 <= i < s.len(),
    ensures
        keys_unique(s.update(i, (s[i].0, b))),
        assoc_map(s.update(i, (s[i].0, b))) == assoc_map(s).insert(s[i].0, b),
{
    let t = s.update(i, (s[i].0, b));
    assert(keys_unique(t)) by {
        assert forall|x: int, y: int| 0 <= x < t.len() && 0 <= y < t.len() && x != y implies t[x].0 != t[y].0 by {
            assert(t[x].0 == s[x].0 && t[y].0 == s[y].0);
        }
    }
    assert forall|k: A| #[trigger] assoc_map(t).dom().contains(k) <==> assoc_map(s).insert(s[i].0, b).dom().contains(k) by {
        if has_key(t, k) {
            let j = choose|j: int| 0 <= j < t.len() && t[j].0 == k;
            assert(s[j].0 == k);
        }
        if has_key(s, k) {
            let j = choose|j: int| 0 <= j < s.len() && s[j].0 == k;
            assert(t[j].0 == k);
        }
    }
    assert forall|k: A| #[trigger] assoc_map(t).dom().contains(k) implies assoc_map(t)[k] == assoc_map(s).insert(s[i].0, b)[k] by {
        let j = choose|j: int| 0 <= j < t.len() && t[j].0 == k;
        lemma_assoc_at(t, j);
        if j != i {
            lemma_assoc_at(s, j);
        }
    }
    assert(assoc_map(t) =~= assoc_map(s).insert(s[i].0, b));
}

/// A prefix of a list with distinct keys has distinct keys, and one more pair extends its map.
pub proof fn lemma_assoc_prefix<A, B>(s: Seq<(A, B)>, n: int)
    requires
        keys_unique(s),
        0 <= n < s.len(),
    ensures
        keys_unique(s.subrange(0, n)),
        keys_unique(s.subrange(0, n + 1)),
        assoc_map(s.subrange(0, n + 1)) == assoc_map(s.subrange(0, n)).insert(s[n].0, s[n].1),
{
    let t = s.subrange(0, n + 1);
    assert(t =~= s.subrange(0, n).push(s[n]));
    assert(keys_unique(t)) by {
        assert forall|x: int, y: int| 0 <= x < t.len() && 0 <= y < t.len() && x != y implies t[x].0 != t[y].0 by {
            assert(t[x] == s[x] && t[y] == s[y]);
        }
    }
    lemma_assoc_push(s.subrange(0, n), s[n]);
}

/// The position of key `k` in the list, if it is listed.
pub fn assoc_find<K: KeyEq, V: View>(v: &[(K, V)], k: &K) -> (r: Option<usize>)
    ensures
        match r {
            Some(i) => i < v@.len() && v@[i as int].0@ == k@,
            None => !has_key(pairs_view(v@), k@),
        },
{
    let mut i: usize = 0;
    while i < v.len()
        invariant
            i <= v@.len(),
            forall|j: int| 0 <= j < i ==> v@[j].0@ != k@,
        decreases v@.len() - i,
    {
        if v[i].0.key_eq(k) {
            return Some(i);
        }
        i = i + 1;
    }
    proof {
        if has_key(pairs_view(v@), k@) {
            let j = choose|j: int| 0 <= j < pairs_view(v@).len() && pairs_view(v@)[j].0 == k@;
            assert(v@[j].0@ == k@);
        }
    }
    None
}

/// Sets key `k` to `val`, replacing the value it had if it was listed.
pub fn assoc_insert<K: KeyEq, V: View>(v: &mut Vec<(K, V)>, k: K, val: V)
    requires
        keys_unique(pairs_view(old(v)@)),
    ensures
        keys_unique(pairs_view(final(v)@)),
        assoc_map(pairs_view(final(v)@)) == assoc_map(pairs_view(old(v)@)).insert(k@, val@),
{
    let ghost before = pairs_view(v@);
    let ghost kv = k@;
    let ghost vv = val@;
    match assoc_find(v.as_slice(), &k) {
        Some(i) => {
            v.set(i, (k, val));
            proof {
                assert(before[i as int].0 == kv);
                assert(pairs_view(v@) =~= before.update(i as int, (before[i as int].0, vv)));
                lemma_assoc_update(before, i as int, vv);
            }
        },
        None => {
            v.push((k, val));
            proof {
                let after = pairs_view(v@);
                assert(after =~= before.push((kv, vv)));
                assert(keys_unique(after)) by {
                    assert forall|x: int, y: int| 0 <= x < after.len() && 0 <= y < after.len() && x != y
                        implies after[x].0 != after[y].0 by {
                        if x < before.len() && y < before.len() {
                            assert(after[x] == before[x] && after[y] == before[y]);
                        } else if x < before.len() {
                            assert(after[x] == before[x]);
                        } else if y < before.len() {
                            assert(after[y] == before[y]);
                        }
                    }
                }
                lemma_assoc_push(before, (kv, vv));
            }
        },
    }
}

} // verus!

verus! {

/// A list with distinct keys has as many pairs as its map has keys.
pub proof fn lemma_assoc_len<A, B>(s: Seq<(A, B)>)
    requires
        keys_unique(s),
    ensures
        assoc_map(s).dom().len() == s.len(),
{
    let keys = s.map_values(|p: (A, B)| p.0);
    lemma_assoc_dom(s);
    assert(keys.no_duplicates()) by {
        assert forall|i: int, j: int| 0 <= i < keys.len() && 0 <= j < keys.len() && i != j implies keys[i] != keys[j] by {
            assert(keys[i] == s[i].0 && keys[j] == s[j].0);
        }
    }
    keys.unique_seq_to_set();
}

/// Some key of the map satisfies `p` together with its value exactly when some listed pair does.
pub proof fn lemma_assoc_exists<A, B>(s: Seq<(A, B)>, p: spec_fn(A, B) -> bool)
    requires
        keys_unique(s),
    ensures
        (exists|k: A| #[trigger] assoc_map(s).dom().contains(k) && p(k, assoc_map(s)[k])) <==> (exists|i: int|
            0 <= i < s.len() && #[trigger] p(s[i].0, s[i].1)),
{
    if exists|k: A| #[trigger] assoc_map(s).dom().contains(k) && p(k, assoc_map(s)[k]) {
        let k = choose|k: A| #[trigger] assoc_map(s).dom().contains(k) && p(k, assoc_map(s)[k]);
        let i = choose|i: int| 0 <= i < s.len() && s[i].0 == k;
        lemma_assoc_at(s, i);
        assert(p(s[i].0, s[i].1));
    }
    if exists|i: int| 0 <= i < s.len() && #[trigger] p(s[i].0, s[i].1) {
        let i = choose|i: int| 0 <= i < s.len() && #[trigger] p(s[i].0, s[i].1);
        lemma_assoc_at(s, i);
        assert(assoc_map(s).dom().contains(s[i].0) && p(s[i].0, assoc_map(s)[s[i].0]));
    }
}

} // verus!
