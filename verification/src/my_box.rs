//! A box that holds one value and hands out a reference to it.

use vstd::prelude::*;

verus! {

/// A value in a box.
pub struct MyBox<T>(T);

impl<T> View for MyBox<T> {
    type V = T;

    /// What is in the box.
    closed spec fn view(&self) -> T {
        self.0
    }
}

impl<T> MyBox<T> {
    /// The box with `x` in it.
    pub fn new(x: T) -> (boxed: MyBox<T>)
        ensures
            boxed@ == x,
    {
        MyBox(x)
    }
}

impl<T> std::ops::Deref for MyBox<T> {
    type Target = T;

    /// A reference to what is in the box.
    fn deref(&self) -> (inner: &T)
        ensures
            *inner == self@,
    {
        &self.0
    }
}

} // verus!
