//! Colour kinds for the mixing utilities.

use vstd::prelude::*;

verus! {

/// The primary colors according to the RYB color model.
#[derive(Debug, PartialEq, Eq, Structural, Copy, Clone)]
pub enum PrimaryColor {
    Red,
    Yellow,
    Blue,
}

/// The secondary colors according to the RYB color model.
#[derive(Debug, PartialEq, Eq, Structural, Copy, Clone)]
pub enum SecondaryColor {
    Orange,
    Green,
    Purple,
}

} // verus!
