//! Small maps from strings to strings, kept as lists of pairs whose keys do
//! not repeat.
use vstd::prelude::*;

verus! {

/// The value of key `k`: that of its last pair.
pub open spec fn pairs_lookup(v: Seq<(String, String)>, k: Seq<char>) -> Option<Seq<char>>
    decreases v.len(),
{
    if v.len() == 0 {
        None
    } else if v.last().0@ == k {
        Some(v.last().1@)
    } else {
        pairs_lookup(v.drop_last(), k)
    }
}

/// No key occurs twice.
pub open spec fn keys_unique(v: Seq<(String, String)>) -> bool {
    forall|i: int, j: int| 0 <= i < j < v.len() ==> #[trigger] v[i].0@ != #[trigger] v[j].0@
}

pub proof fn lemma_lookup_absent(v: Seq<(String, String)>, k: Seq<char>)
    requires
        forall|i: int| 0 <= i < v.len() ==> #[trigger] v[i].0@ != k,
    ensures
        pairs_lookup(v, k) is None,
    decreases v.len(),
{
    if v.len() > 0 {
        lemma_lookup_absent(v.drop_last(), k);
    }
}

pub proof fn lemma_lookup_found(v: Seq<(String, String)>, k: Seq<char>)
    ensures
        pairs_lookup(v, k) matches Some(a) ==> exists|i: int| 0 <= i < v.len() && #[trigger] v[i].0@ == k && v[i].1@ == a,
        pairs_lookup(v, k) is None ==> forall|i: int| 0 <= i < v.len() ==> #[trigger] v[i].0@ != k,
    decreases v.len(),
{
    if v.len() > 0 {
        lemma_lookup_found(v.drop_last(), k);
        if v.last().0@ != k {
            if pairs_lookup(v, k) is Some {
                let i = choose|i: int| 0 <= i < v.drop_last().len() && #[trigger] v.drop_last()[i].0@ == k
                    && v.drop_last()[i].1@ == pairs_lookup(v, k)->0;
                assert(v[i] == v.drop_last()[i]);
            } else {
                assert forall|i: int| 0 <= i < v.len() implies #[trigger] v[i].0@ != k by {
                    if i < v.len() - 1 {
                        assert(v[i] == v.drop_last()[i]);
                    }
                }
            }
        } else {
            assert(v[v.len() - 1] == v.last());
        }
    }
}

/// The value of key `k`, if it has one.
pub fn pairs_get(v: &Vec<(String, String)>, k: &String) -> (r: Option<String>)
    ensures
        r matches Some(s) ==> pairs_lookup(v@, k@) == Some(s@),
        r is None ==> pairs_lookup(v@, k@) is None,
{
    let mut i: usize = v.len();
    assert(v@.take(i as int) =~= v@);
    while i > 0
        invariant
            i <= v@.len(),
            pairs_lookup(v@, k@) == pairs_lookup(v@.take(i as int), k@),
        decreases i,
    {
        assert(v@.take(i as int).drop_last() =~= v@.take(i - 1));
        if v[i - 1].0 == *k {
            return Some(v[i - 1].1.clone());
        }
        i = i - 1;
    }
    None
}

/// Removes key `k`.
pub fn pairs_remove(v: &mut Vec<(String, String)>, k: &String)
    requires
        keys_unique(old(v)@),
    ensures
        keys_unique(final(v)@),
        pairs_lookup(final(v)@, k@) is None,
        forall|o: Seq<char>| o != k@ ==> #[trigger] pairs_lookup(final(v)@, o) == pairs_lookup(old(v)@, o),
{
    let mut kept: Vec<(String, String)> = Vec::new();
    let mut i: usize = 0;
    while i < v.len()
        invariant
            i <= v@.len(),
            keys_unique(v@),
            keys_unique(kept@),
            forall|a: int| 0 <= a < kept@.len() ==> exists|b: int| 0 <= b < i && #[trigger] kept@[a] == v@[b],
            pairs_lookup(kept@, k@) is None,
            forall|o: Seq<char>| o != k@ ==> #[trigger] pairs_lookup(kept@, o) == pairs_lookup(
                v@.take(i as int),
                o,
            ),
        decreases v.len() - i,
    {
        let ghost before = kept@;
        assert(v@.take(i + 1).drop_last() =~= v@.take(i as int));
        assert(v@.take(i + 1).last() == v@[i as int]);
        if v[i].0 != *k {
            let e = (v[i].0.clone(), v[i].1.clone());
            kept.push(e);
            assert(kept@.drop_last() =~= before);
            assert forall|a: int, b: int| 0 <= a < b < kept@.len() implies #[trigger] kept@[a].0@
                != #[trigger] kept@[b].0@ by {
                if b == kept@.len() - 1 {
                    let w = choose|w: int| 0 <= w < i && #[trigger] before[a] == v@[w];
                    assert(kept@[a] == before[a]);
                    assert(v@[w].0@ != v@[i as int].0@);
                } else {
                    assert(kept@[a] == before[a] && kept@[b] == before[b]);
                }
            }
            assert forall|a: int| 0 <= a < kept@.len() implies exists|b: int| 0 <= b < i + 1 && #[trigger] kept@[a]
                == v@[b] by {
                if a == kept@.len() - 1 {
                    assert(kept@[a] == v@[i as int]);
                } else {
                    assert(kept@[a] == before[a]);
                    let w = choose|w: int| 0 <= w < i && #[trigger] before[a] == v@[w];
                    assert(kept@[a] == v@[w]);
                }
            }
            assert forall|o: Seq<char>| o != k@ implies #[trigger] pairs_lookup(kept@, o) == pairs_lookup(
                v@.take(i + 1),
                o,
            ) by {
                assert(kept@.last() == v@[i as int]);
                assert(kept@.drop_last() == before);
                assert(pairs_lookup(before, o) == pairs_lookup(v@.take(i as int), o));
            }
        } else {
            assert forall|o: Seq<char>| o != k@ implies #[trigger] pairs_lookup(kept@, o) == pairs_lookup(
                v@.take(i + 1),
                o,
            ) by {}
        }
        i = i + 1;
    }
    assert(v@.take(v@.len() as int) =~= v@);
    *v = kept;
}

/// Sets key `k` to `val`.
pub fn pairs_insert(v: &mut Vec<(String, String)>, k: String, val: String)
    requires
        keys_unique(old(v)@),
    ensures
        keys_unique(final(v)@),
        pairs_lookup(final(v)@, k@) == Some(val@),
        forall|o: Seq<char>| o != k@ ==> #[trigger] pairs_lookup(final(v)@, o) == pairs_lookup(old(v)@, o),
{
    pairs_remove(v, &k);
    proof {
        lemma_lookup_found(v@, k@);
    }
    let ghost before = v@;
    let ghost key = k@;
    v.push((k, val));
    assert(v@.drop_last() =~= before);
    assert forall|o: Seq<char>| o != key implies #[trigger] pairs_lookup(v@, o) == pairs_lookup(before, o) by {
        assert(v@.last().0@ == key);
    }
    assert forall|a: int, b: int| 0 <= a < b < v@.len() implies #[trigger] v@[a].0@ != #[trigger] v@[b].0@ by {
        if b == v@.len() - 1 {
            assert(v@[a] == before[a]);
        } else {
            assert(v@[a] == before[a] && v@[b] == before[b]);
        }
    }
}

} // verus!
