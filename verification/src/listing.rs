//! Ascending enumeration of a set of bytes, and the lemmas that tie a sorted
//! list of keys to it.
use vstd::prelude::*;

verus! {

/// The members of `keys` that are below `bound`, smallest first.
pub open spec fn sorted_below(keys: Set<u8>, bound: int) -> Seq<u8>
    decreases bound,
{
    if bound <= 0 {
        Seq::empty()
    } else if keys.contains((bound - 1) as u8) {
        sorted_below(keys, bound - 1).push((bound - 1) as u8)
    } else {
        sorted_below(keys, bound - 1)
    }
}

/// All members of `keys`, smallest first, each once.
pub open spec fn sorted_keys(keys: Set<u8>) -> Seq<u8> {
    sorted_below(keys, 256)
}

/// No item is larger than a later one.
pub open spec fn ascending(s: Seq<u8>) -> bool {
    forall|i: int, j: int| 0 <= i <= j < s.len() ==> s[i] <= s[j]
}

/// Every item is smaller than all later ones.
pub open spec fn strictly_ascending(s: Seq<u8>) -> bool {
    forall|i: int, j: int| 0 <= i < j < s.len() ==> s[i] < s[j]
}

/// `s` holds exactly the members of `keys`.
pub open spec fn lists(s: Seq<u8>, keys: Set<u8>) -> bool {
    forall|x: u8| s.contains(x) <==> keys.contains(x)
}

/// `sorted_below` is strictly ascending and holds exactly the members below the bound.
pub proof fn lemma_sorted_below(keys: Set<u8>, bound: int)
    requires
        0 <= bound <= 256,
    ensures
        strictly_ascending(sorted_below(keys, bound)),
        sorted_below(keys, bound).len() <= bound,
        forall|i: int|
            0 <= i < sorted_below(keys, bound).len() ==> keys.contains(
                #[trigger] sorted_below(keys, bound)[i],
            ) && sorted_below(keys, bound)[i] < bound,
        forall|x: u8|
            #[trigger] keys.contains(x) && x < bound ==> sorted_below(keys, bound).contains(x),
    decreases bound,
{
    let s = sorted_below(keys, bound);
    if bound > 0 {
        let rest = sorted_below(keys, bound - 1);
        let top = (bound - 1) as u8;
        lemma_sorted_below(keys, bound - 1);
        if keys.contains(top) {
            assert(s == rest.push(top));
            assert forall|x: u8| #[trigger] keys.contains(x) && x < bound implies s.contains(
                x,
            ) by {
                if x == top {
                    assert(s[s.len() - 1] == x);
                } else {
                    let i = choose|i: int| 0 <= i < rest.len() && rest[i] == x;
                    assert(s[i] == x);
                }
            }
        }
    }
}

/// Two strictly ascending lists with the same items are the same list.
pub proof fn lemma_ascending_unique(a: Seq<u8>, b: Seq<u8>)
    requires
        strictly_ascending(a),
        strictly_ascending(b),
        forall|x: u8| a.contains(x) <==> b.contains(x),
    ensures
        a == b,
    decreases a.len(),
{
    if a.len() == 0 {
        if b.len() > 0 {
            assert(b.contains(b[0]));
        }
        assert(a =~= b);
    } else {
        assert(a.contains(a[0]));
        let x = a.last();
        let y = b.last();
        assert(a.contains(x));
        assert(b.contains(y));
        let jx = choose|j: int| 0 <= j < b.len() && b[j] == x;
        let iy = choose|i: int| 0 <= i < a.len() && a[i] == y;
        assert(x == y);
        let a0 = a.drop_last();
        let b0 = b.drop_last();
        assert forall|z: u8| a0.contains(z) <==> b0.contains(z) by {
            if a0.contains(z) {
                let i = choose|i: int| 0 <= i < a0.len() && a0[i] == z;
                assert(a[i] == z);
                assert(a.contains(z));
                let j = choose|j: int| 0 <= j < b.len() && b[j] == z;
                assert(b0[j] == z);
            }
            if b0.contains(z) {
                let j = choose|j: int| 0 <= j < b0.len() && b0[j] == z;
                assert(b[j] == z);
                assert(b.contains(z));
                let i = choose|i: int| 0 <= i < a.len() && a[i] == z;
                assert(a0[i] == z);
            }
        }
        lemma_ascending_unique(a0, b0);
        assert(a =~= a0.push(x));
        assert(b =~= b0.push(y));
    }
}

/// A strictly ascending list of exactly the members of `keys` is `sorted_keys(keys)`.
pub proof fn lemma_sorted_keys_unique(s: Seq<u8>, keys: Set<u8>)
    requires
        strictly_ascending(s),
        lists(s, keys),
    ensures
        s == sorted_keys(keys),
{
    lemma_sorted_keys(keys);
    lemma_ascending_unique(s, sorted_keys(keys));
}

/// `sorted_keys` is strictly ascending, so free of duplicates, and omits no member.
pub proof fn lemma_sorted_keys(keys: Set<u8>)
    ensures
        strictly_ascending(sorted_keys(keys)),
        sorted_keys(keys).no_duplicates(),
        lists(sorted_keys(keys), keys),
        sorted_keys(keys).len() <= 256,
{
    let s = sorted_keys(keys);
    lemma_sorted_below(keys, 256);
    assert forall|x: u8| s.contains(x) <==> keys.contains(x) by {
        if s.contains(x) {
            let i = choose|i: int| 0 <= i < s.len() && s[i] == x;
            assert(keys.contains(s[i]));
        }
    }
}

/// Any set of bytes is finite, and its enumeration is as long as the set is large.
pub proof fn lemma_sorted_keys_len(keys: Set<u8>)
    ensures
        keys.finite(),
        sorted_keys(keys).len() == keys.len(),
{
    let s = sorted_keys(keys);
    lemma_sorted_keys(keys);
    assert(s.to_set() =~= keys);
    s.unique_seq_to_set();
    vstd::seq_lib::seq_to_set_is_finite(s);
}

/// Sorting a list without duplicates gives the ascending enumeration of its items.
pub proof fn lemma_sorted_distinct(before: Seq<u8>, after: Seq<u8>)
    requires
        before.no_duplicates(),
        after.to_multiset() == before.to_multiset(),
        ascending(after),
    ensures
        after == sorted_keys(before.to_set()),
        after.len() == before.len(),
{
    before.to_multiset_ensures();
    after.to_multiset_ensures();
    before.lemma_multiset_has_no_duplicates();
    after.lemma_multiset_has_no_duplicates_conv();
    assert forall|i: int, j: int| 0 <= i < j < after.len() implies after[i] < after[j] by {
        assert(after[i] != after[j]);
    }
    assert forall|x: u8| after.contains(x) <==> before.to_set().contains(x) by {
        assert(after.contains(x) <==> after.to_multiset().count(x) > 0);
        assert(before.contains(x) <==> before.to_multiset().count(x) > 0);
    }
    lemma_sorted_keys_unique(after, before.to_set());
}

} // verus!
