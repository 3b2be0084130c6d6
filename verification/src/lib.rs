//! A small teaching library: a validated guess value for a number-guessing
//! game, a content-approval workflow, a renderable component collection,
//! and a few small value types around them.

pub mod back_of_house;
pub mod guessing_game;
pub mod kinds;
pub mod macros;
pub mod oop;
pub mod rectangle;
pub mod shirts;
pub mod smart_pointers;
pub mod utils;

pub use crate::kinds::PrimaryColor;
pub use crate::kinds::SecondaryColor;
pub use crate::utils::mix;

use vstd::prelude::*;

verus! {

/// Adds one to the number given.
pub fn add_one(x: i32) -> (r: i32)
    requires
        x < i32::MAX,
    ensures
        r == x + 1,
{
    x + 1
}

/// Adds two to the number given.
pub fn add_two(a: i32) -> (r: i32)
    requires
        a + 2 <= i32::MAX,
    ensures
        r == a + 2,
{
    a + 2
}

/// Greets `name`: the result is the name framed by a fixed salutation.
pub fn greeting(name: &str) -> (r: String)
    ensures
        r@ == "Hello "@ + name@ + "!"@,
{
    let mut r = "Hello ".to_owned();
    r.append(name);
    r.append("!");
    r
}

} // verus!
