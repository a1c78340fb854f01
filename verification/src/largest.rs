//! The largest item of a list, and the larger of a pair, for any type whose
//! values can be compared.

use vstd::prelude::*;
use vstd::std_specs::cmp::{PartialOrdIs, PartialOrdSpec};

verus! {

/// The item that a walk through `list` from its first item to its last ends
/// up with, when it starts with the first item and moves on to an item
/// whenever that one is greater than the one it holds. For a type that is
/// totally ordered this is the maximum, and among equal maxima the first.
pub open spec fn largest_of<T: PartialOrd>(list: Seq<T>) -> T
    decreases list.len(),
{
    if list.len() <= 1 {
        list[0]
    } else {
        let so_far = largest_of(list.drop_last());
        if list.last().is_gt(&so_far) {
            list.last()
        } else {
            so_far
        }
    }
}

/// The largest item of `list`, which must not be empty. It is an item of the
/// list whatever the comparison of `T` does; where the comparison is the one
/// that `T` specifies, it is the item that `largest_of` describes.
pub fn largest<T: PartialOrd>(list: &[T]) -> (found: &T)
    requires
        list.len() > 0,
    ensures
        list@.contains(*found),
        T::obeys_partial_cmp_spec() ==> *found == largest_of(list@),
{
    let mut found = &list[0];
    let mut at: usize = 1;
    let ghost mut seen: int = 1;
    while at < list.len()
        invariant
            1 <= at <= list.len(),
            seen == at,
            list@.contains(*found),
            T::obeys_partial_cmp_spec() ==> *found == largest_of(list@.take(seen)),
        decreases list.len() - at,
    {
        let item = &list[at];
        proof {
            assert(list@.take(seen + 1).drop_last() =~= list@.take(seen));
        }
        if *item > *found {
            found = item;
        }
        at = at + 1;
        proof {
            seen = seen + 1;
        }
    }
    proof {
        assert(list@.take(seen) =~= list@);
    }
    found
}

/// In a list of integers, the largest item is an item of the list and no
/// item is greater.
pub proof fn lemma_largest_is_maximum(list: Seq<i32>)
    requires
        list.len() > 0,
    ensures
        list.contains(largest_of(list)),
        forall|i: int| 0 <= i < list.len() ==> list[i] <= largest_of(list),
    decreases list.len(),
{
    if list.len() > 1 {
        let front = list.drop_last();
        lemma_largest_is_maximum(front);
        assert forall|i: int| 0 <= i < list.len() implies list[i] <= largest_of(list) by {
            if i < front.len() {
                assert(front[i] == list[i]);
            }
        }
    }
}

/// Two values of one type.
pub struct Pair<T> {
    pub x: T,
    pub y: T,
}

impl<T> Pair<T> {
    /// The pair of `x` and `y`.
    pub fn new(x: T, y: T) -> (pair: Self)
        ensures
            pair.x == x,
            pair.y == y,
    {
        Self { x, y }
    }
}

impl<T: PartialOrd> Pair<T> {
    /// Whether the first value is the one to show as the largest: whether it
    /// is greater than the second. Where it is not, the second is shown.
    pub fn x_is_largest(&self) -> (first: bool)
        ensures
            T::obeys_partial_cmp_spec() ==> first == self.x.is_gt(&self.y),
    {
        self.x > self.y
    }
}

} // verus!
