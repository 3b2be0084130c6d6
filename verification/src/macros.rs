//! A greeting capability meant to be implemented by users of the library
//! for their own types.

use vstd::prelude::*;

verus! {

/// Implemented by a type that can announce itself by name.
pub trait HelloMacro {
    /// Announces the implementing type.
    fn hello_macro();
}

} // verus!
