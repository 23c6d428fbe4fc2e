use vstd::prelude::*;
use crate::move_hook::MoveHook;

verus! {

/// Hook for a value that is a pair of a bucket index and a payload: it stores
/// the index in the pair's first part and leaves the payload alone.
///
/// It is the smallest hook that records, and shows that the laws of
/// `MoveHook` can be met by one.
pub struct PairIndexHook;

impl<V> MoveHook<(usize, V)> for PairIndexHook {
    open spec fn records() -> bool {
        true
    }

    open spec fn recorded_index(val: (usize, V)) -> usize {
        val.0
    }

    open spec fn placed(val: (usize, V), i: usize) -> (usize, V) {
        (i, val.1)
    }

    proof fn placed_stores_index(val: (usize, V), i: usize) {
    }

    proof fn placed_overwrites(val: (usize, V), i: usize, j: usize) {
    }

    proof fn placed_same_index(val: (usize, V)) {
    }

    #[inline]
    fn set_index(val: &mut (usize, V), i: usize)
        ensures
            final(val).0 == i,
            final(val).1 == old(val).1,
    {
        val.0 = i;
    }
}

} // verus!
