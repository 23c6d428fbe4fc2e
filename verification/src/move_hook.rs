use vstd::prelude::*;

verus! {

/// Hook run by a table each time it places a value into a bucket: on the first
/// insertion and on every later relocation, never on removal.
///
/// A hook either stores the bucket index inside the value or leaves the value
/// alone. `placed` is the mathematical model of that step, and the three laws
/// say that it is an assignment to one field and nothing more.
pub trait MoveHook<T> {
    /// Whether this hook stores the index inside the value.
    spec fn records() -> bool;

    /// The index that `val` currently carries. It is meaningful only for a hook
    /// that records.
    spec fn recorded_index(val: T) -> usize;

    /// `val` as it is once it has been placed into bucket `i`.
    spec fn placed(val: T, i: usize) -> T;

    /// A hook that records stores exactly the index it was given; one that does
    /// not leaves the value as it was.
    proof fn placed_stores_index(val: T, i: usize)
        ensures
            Self::records() ==> Self::recorded_index(Self::placed(val, i)) == i,
            !Self::records() ==> Self::placed(val, i) == val,
    ;

    /// A later placement overwrites an earlier one without a trace.
    proof fn placed_overwrites(val: T, i: usize, j: usize)
        ensures
            Self::placed(Self::placed(val, i), j) == Self::placed(val, j),
    ;

    /// Storing the index that the value already carries changes nothing.
    proof fn placed_same_index(val: T)
        ensures
            Self::placed(val, Self::recorded_index(val)) == val,
    ;

    /// Tells `val` that it now lives in bucket `i`.
    ///
    /// The table does not call this when it removes a value: the index that a
    /// removed value carries is stale and says nothing until the value is
    /// inserted again.
    fn set_index(val: &mut T, i: usize)
        ensures
            *final(val) == Self::placed(*old(val), i),
    ;
}

/// Hook that does nothing. Its call has an empty body, so a table that is
/// bound to it pays nothing for the mechanism.
pub struct NopMoveHook;

impl<T> MoveHook<T> for NopMoveHook {
    open spec fn records() -> bool {
        false
    }

    open spec fn recorded_index(val: T) -> usize {
        0
    }

    open spec fn placed(val: T, i: usize) -> T {
        val
    }

    proof fn placed_stores_index(val: T, i: usize) {
    }

    proof fn placed_overwrites(val: T, i: usize, j: usize) {
    }

    proof fn placed_same_index(val: T) {
    }

    #[inline]
    fn set_index(val: &mut T, i: usize)
        ensures
            *final(val) == *old(val),
    {
    }
}

} // verus!
