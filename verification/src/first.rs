//! The first place in a list at which something holds.

use vstd::prelude::*;

verus! {

/// Whether `k` is the first index below `len` at which `hit` holds.
pub open spec fn is_first(len: int, hit: spec_fn(int) -> bool, k: int) -> bool {
    &&& 0 <= k < len
    &&& hit(k)
    &&& forall|j: int| 0 <= j < k ==> !#[trigger] hit(j)
}

/// Whether `hit` holds at no index below `len`.
pub open spec fn never(len: int, hit: spec_fn(int) -> bool) -> bool {
    forall|j: int| 0 <= j < len ==> !#[trigger] hit(j)
}

/// The first index below `len` at which `hit` holds, if there is one.
pub open spec fn first(len: int, hit: spec_fn(int) -> bool) -> Option<int> {
    if exists|k: int| is_first(len, hit, k) {
        Some(choose|k: int| is_first(len, hit, k))
    } else {
        None
    }
}

/// There is at most one first index, and `first` finds it.
pub proof fn lemma_first_found(len: int, hit: spec_fn(int) -> bool, k: int)
    requires
        is_first(len, hit, k),
    ensures
        first(len, hit) == Some(k),
{
    let c = choose|c: int| is_first(len, hit, c);
    assert(is_first(len, hit, c));
    if c < k {
        assert(!hit(c));
    } else if k < c {
        assert(!hit(k));
    }
}

/// Where `hit` never holds, `first` finds nothing.
pub proof fn lemma_first_absent(len: int, hit: spec_fn(int) -> bool)
    requires
        never(len, hit),
    ensures
        first(len, hit) is None,
{
    if exists|k: int| is_first(len, hit, k) {
        let c = choose|c: int| is_first(len, hit, c);
        assert(!hit(c));
    }
}

/// Whatever `first` finds is a first index, and where it finds nothing
/// `hit` never holds.
pub proof fn lemma_first_sound(len: int, hit: spec_fn(int) -> bool)
    ensures
        first(len, hit) matches Some(k) ==> is_first(len, hit, k),
        first(len, hit) is None ==> never(len, hit),
{
    if first(len, hit) is None && !never(len, hit) {
        lemma_some_hit_has_first(len, hit);
    }
}

/// Below any bound under which `hit` holds somewhere there is a first hit.
proof fn lemma_some_hit_has_first(len: int, hit: spec_fn(int) -> bool)
    requires
        !never(len, hit),
    ensures
        exists|k: int| is_first(len, hit, k),
    decreases len,
{
    if len <= 0 {
        assert(never(len, hit));
    } else {
        let shorter = len - 1;
        if never(shorter, hit) {
            assert(hit(shorter));
            assert(is_first(len, hit, shorter));
        } else {
            lemma_some_hit_has_first(shorter, hit);
            let k = choose|k: int| is_first(shorter, hit, k);
            assert(is_first(len, hit, k));
        }
    }
}

} // verus!
