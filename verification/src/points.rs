//! Points in the plane, with coordinates of any type.

use vstd::prelude::*;

verus! {

/// A point whose two coordinates have the same type.
pub struct Point<T> {
    pub x: T,
    pub y: T,
}

impl<T> Point<T> {
    /// The first coordinate.
    pub fn x(&self) -> (x: &T)
        ensures
            *x == self.x,
    {
        &self.x
    }
}

/// A point whose two coordinates may have different types.
pub struct MultiPoint<T, U> {
    pub x: T,
    pub y: U,
}

impl<T, U> MultiPoint<T, U> {
    /// The point with the first coordinate of this point and the second of
    /// `other`.
    pub fn mix<V, W>(self, other: MultiPoint<V, W>) -> (mixed: MultiPoint<T, W>)
        ensures
            mixed.x == self.x,
            mixed.y == other.y,
    {
        MultiPoint { x: self.x, y: other.y }
    }
}

} // verus!
