use vstd::prelude::*;
use crate::move_hook::MoveHook;
use crate::move_hook::NopMoveHook;

verus! {

/// `val` after the table has placed it into each bucket of `indices` in turn,
/// the first element first.
pub open spec fn placed_all<T, H: MoveHook<T>>(val: T, indices: Seq<usize>) -> T
    decreases indices.len(),
{
    if indices.len() == 0 {
        val
    } else {
        H::placed(placed_all::<T, H>(val, indices.drop_last()), indices.last())
    }
}

/// Under the hook that does nothing, no run of placements changes the value.
pub proof fn lemma_nop_leaves_value<T>(val: T, indices: Seq<usize>)
    ensures
        placed_all::<T, NopMoveHook>(val, indices) == val,
    decreases indices.len(),
{
    if indices.len() > 0 {
        lemma_nop_leaves_value::<T>(val, indices.drop_last());
    }
}

/// The last placement wins: after any run of placements the value is what one
/// placement into the last bucket of the run would have made of it, and under
/// a hook that records it carries that bucket's index.
pub proof fn lemma_last_placement_wins<T, H: MoveHook<T>>(val: T, indices: Seq<usize>)
    requires
        indices.len() > 0,
    ensures
        placed_all::<T, H>(val, indices) == H::placed(val, indices.last()),
        H::records() ==> H::recorded_index(placed_all::<T, H>(val, indices)) == indices.last(),
    decreases indices.len(),
{
    let earlier = indices.drop_last();
    if earlier.len() > 0 {
        lemma_last_placement_wins::<T, H>(val, earlier);
        H::placed_overwrites(val, earlier.last(), indices.last());
    } else {
        assert(placed_all::<T, H>(val, earlier) == val);
    }
    H::placed_stores_index(val, indices.last());
}

/// Placing a value into the same bucket twice in a row leaves it as one
/// placement does.
pub proof fn lemma_placement_idempotent<T, H: MoveHook<T>>(val: T, i: usize)
    ensures
        H::placed(H::placed(val, i), i) == H::placed(val, i),
        placed_all::<T, H>(val, seq![i, i]) == placed_all::<T, H>(val, seq![i]),
{
    H::placed_overwrites(val, i, i);
    lemma_last_placement_wins::<T, H>(val, seq![i, i]);
    lemma_last_placement_wins::<T, H>(val, seq![i]);
}

/// Whether `a` and `b` are one value apart from the index they carry: placed
/// into the same bucket, whichever it is, they cannot be told apart.
pub open spec fn same_apart_from_index<T, H: MoveHook<T>>(a: T, b: T) -> bool {
    forall|i: usize| #[trigger] H::placed(a, i) == H::placed(b, i)
}

/// A placement changes nothing of a value but the index it carries.
pub proof fn lemma_placement_changes_only_index<T, H: MoveHook<T>>(val: T, i: usize)
    ensures
        same_apart_from_index::<T, H>(val, H::placed(val, i)),
{
    assert forall|j: usize| #[trigger] H::placed(val, j) == H::placed(H::placed(val, i), j) by {
        H::placed_overwrites(val, i, j);
    }
}

/// A value is fixed by the index it carries and by what it is apart from that
/// index: a hook has no other part of the value to write to.
pub proof fn lemma_index_and_rest_fix_value<T, H: MoveHook<T>>(a: T, b: T)
    requires
        same_apart_from_index::<T, H>(a, b),
        H::recorded_index(a) == H::recorded_index(b),
    ensures
        a == b,
{
    let i = H::recorded_index(a);
    assert(H::placed(a, i) == H::placed(b, i));
    H::placed_same_index(a);
    H::placed_same_index(b);
}

} // verus!
