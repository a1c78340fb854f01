//! Rectangles, and whether one fits inside another.

use vstd::prelude::*;

verus! {

/// A rectangle with sides parallel to the axes.
pub struct Rectangle {
    pub width: i32,
    pub height: i32,
}

impl Rectangle {
    /// `other` fits inside this rectangle with room to spare on every side:
    /// this one is both wider and higher.
    pub open spec fn holds(&self, other: &Rectangle) -> bool {
        self.width > other.width && self.height > other.height
    }

    /// Whether `other` fits inside this rectangle with room to spare: whether
    /// this one is both wider and higher. The rectangles are not turned.
    #[verifier::when_used_as_spec(holds)]
    pub fn can_hold(&self, other: &Rectangle) -> (fits: bool)
        ensures
            fits == self.holds(other),
    {
        self.width > other.width && self.height > other.height
    }
}

} // verus!
