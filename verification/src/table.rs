//! Key-indexed tables kept as append-only association lists. A later binding
//! for a key shadows an earlier one, so pushing a pair behaves as an insert.

use vstd::prelude::*;

verus! {

/// The value bound to `k`: that of the most recently pushed pair whose key
/// matches, if any.
pub open spec fn tbl_lookup<V>(s: Seq<(u64, V)>, k: u64) -> Option<V>
    decreases s.len(),
{
    if s.len() == 0 {
        None
    } else if s.last().0 == k {
        Some(s.last().1)
    } else {
        tbl_lookup(s.drop_last(), k)
    }
}

/// Fetch the value bound to `k`, scanning from the most recent binding.
pub fn tbl_get<V: Copy>(t: &Vec<(u64, V)>, k: u64) -> (r: Option<V>)
    ensures
        r == tbl_lookup(t@, k),
{
    let mut i: usize = t.len();
    proof {
        assert(t@.take(t@.len() as int) =~= t@);
    }
    while i > 0
        invariant
            i <= t@.len(),
            tbl_lookup(t@, k) == tbl_lookup(t@.take(i as int), k),
        decreases i,
    {
        i = i - 1;
        if t[i].0 == k {
            proof {
                assert(t@.take(i as int + 1).last() == t@[i as int]);
            }
            return Some(t[i].1);
        }
        proof {
            assert(t@.take(i as int + 1).drop_last() =~= t@.take(i as int));
        }
    }
    proof {
        assert(t@.take(0) =~= Seq::<(u64, V)>::empty());
    }
    None
}

/// Whether some binding for `k` exists.
pub fn tbl_contains<V: Copy>(t: &Vec<(u64, V)>, k: u64) -> (r: bool)
    ensures
        r == tbl_lookup(t@, k) is Some,
{
    tbl_get(t, k).is_some()
}

/// A key has no binding exactly when no pair in the list carries it.
pub proof fn lemma_tbl_lookup_none<V>(s: Seq<(u64, V)>, k: u64)
    ensures
        (tbl_lookup(s, k) is None) <==> (forall|i: int| 0 <= i < s.len() ==> (#[trigger] s[i]).0
            != k),
    decreases s.len(),
{
    if s.len() == 0 {
    } else if s.last().0 == k {
        assert(s[s.len() - 1].0 == k);
    } else {
        lemma_tbl_lookup_none(s.drop_last(), k);
        if tbl_lookup(s, k) is None {
            assert forall|i: int| 0 <= i < s.len() implies (#[trigger] s[i]).0 != k by {
                if i < s.len() - 1 {
                    assert(s.drop_last()[i] == s[i]);
                }
            }
        } else {
            assert(tbl_lookup(s.drop_last(), k) is Some);
            assert(!(forall|i: int|
                0 <= i < s.drop_last().len() ==> (#[trigger] s.drop_last()[i]).0 != k));
            let i = choose|i: int|
                !(0 <= i < s.drop_last().len() ==> (#[trigger] s.drop_last()[i]).0 != k);
            assert(s[i].0 == k);
        }
    }
}

/// A successful lookup returns a value that stands in the list, paired with
/// the key that was looked up.
pub proof fn lemma_tbl_lookup_some<V>(s: Seq<(u64, V)>, k: u64)
    requires
        tbl_lookup(s, k) is Some,
    ensures
        exists|i: int| 0 <= i < s.len() && s[i] == (k, tbl_lookup(s, k)->0),
    decreases s.len(),
{
    if s.last().0 == k {
        assert(s[s.len() - 1] == (k, tbl_lookup(s, k)->0));
    } else {
        lemma_tbl_lookup_some(s.drop_last(), k);
        let i = choose|i: int|
            0 <= i < s.drop_last().len() && s.drop_last()[i] == (
            k,
            tbl_lookup(s.drop_last(), k)->0,
            );
        assert(s[i] == (k, tbl_lookup(s, k)->0));
    }
}


/// Lookup in a concatenation tries the newer half first.
pub proof fn lemma_tbl_lookup_concat<V>(a: Seq<(u64, V)>, b: Seq<(u64, V)>, k: u64)
    ensures
        tbl_lookup(a + b, k) == (match tbl_lookup(b, k) {
            Some(v) => Some(v),
            None => tbl_lookup(a, k),
        }),
    decreases b.len(),
{
    if b.len() == 0 {
        assert(a + b =~= a);
    } else {
        assert((a + b).last() == b.last());
        assert((a + b).drop_last() =~= a + b.drop_last());
        lemma_tbl_lookup_concat(a, b.drop_last(), k);
    }
}
} // verus!
