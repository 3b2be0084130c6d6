//! A rectangle value type with an area and a containment check.

use vstd::prelude::*;

verus! {

/// An axis-aligned rectangle, measured in whole units.
#[derive(Debug, PartialEq, Eq, Structural)]
pub struct Rectangle {
    pub width: u32,
    pub height: u32,
}

impl Rectangle {
    /// Builds a rectangle of the given width, at twice the given height.
    pub fn new(width: u32, height: u32) -> (r: Self)
        requires
            2 * height <= u32::MAX,
        ensures
            r.width == width,
            r.height == 2 * height,
    {
        Rectangle { width, height: height * 2 }
    }

    /// The area of the rectangle.
    pub fn area(&self) -> (a: u32)
        requires
            self.width * self.height <= u32::MAX,
        ensures
            a == self.width * self.height,
    {
        self.width * self.height
    }

    /// Says whether `another` fits completely within `self`: true exactly
    /// when both its width and its height are no larger than this one's.
    pub fn can_hold(&self, another: &Rectangle) -> (fits: bool)
        ensures
            fits == (self.width >= another.width && self.height >= another.height),
    {
        self.width >= another.width && self.height >= another.height
    }

    /// Builds a square of the given side length.
    pub fn square(size: u32) -> (r: Self)
        ensures
            r.width == size,
            r.height == size,
    {
        Self { width: size, height: size }
    }
}

} // verus!
