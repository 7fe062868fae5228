//! Finding the first occurrence of a key in a sequence.

use vstd::prelude::*;

verus! {

/// The position of the first `k` in `keys`, or the length of `keys` if there
/// is none.
pub open spec fn position<K>(keys: Seq<K>, k: K) -> int
    decreases keys.len(),
{
    if keys.len() == 0 || keys[0] == k {
        0
    } else {
        1 + position(keys.drop_first(), k)
    }
}

/// `position` finds the first occurrence, and finds one whenever there is one.
pub proof fn lemma_position<K>(keys: Seq<K>, k: K)
    ensures
        0 <= position(keys, k) <= keys.len(),
        forall|j: int| 0 <= j < position(keys, k) ==> keys[j] != k,
        position(keys, k) < keys.len() ==> keys[position(keys, k)] == k,
        keys.contains(k) <==> position(keys, k) < keys.len(),
    decreases keys.len(),
{
    if keys.len() == 0 || keys[0] == k {
    } else {
        let rest = keys.drop_first();
        lemma_position(rest, k);
        assert forall|j: int| 0 <= j < position(keys, k) implies keys[j] != k by {
            if j > 0 {
                assert(keys[j] == rest[j - 1]);
            }
        }
        if keys.contains(k) {
            let i = choose|i: int| 0 <= i < keys.len() && keys[i] == k;
            assert(rest[i - 1] == k);
        }
    }
}

} // verus!
