//! Colour mixing utilities.

use crate::kinds::PrimaryColor;
use crate::kinds::SecondaryColor;
use vstd::prelude::*;

verus! {

/// Combines two primary colors in equal amounts to create a secondary
/// color. This teaching stub mixes every pair to purple.
pub fn mix(c1: PrimaryColor, c2: PrimaryColor) -> (c: SecondaryColor)
    ensures
        c == SecondaryColor::Purple,
{
    SecondaryColor::Purple
}

} // verus!
