//! A minimal owning box: it wraps a single value and hands out a reference
//! to it on demand.

use vstd::prelude::*;

verus! {

/// A box that owns one value of any type.
pub struct MyBox<T>(T);

impl<T> View for MyBox<T> {
    type V = T;

    closed spec fn view(&self) -> T {
        self.0
    }
}

impl<T> MyBox<T> {
    /// Wraps `x`.
    pub fn new(x: T) -> (b: MyBox<T>)
        ensures
            b@ == x,
    {
        MyBox(x)
    }

    /// A reference to the wrapped value.
    pub fn inner(&self) -> (r: &T)
        ensures
            *r == self@,
    {
        &self.0
    }
}

} // verus!
