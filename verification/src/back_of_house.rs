//! The back of the restaurant: breakfasts and appetizers.

use vstd::prelude::*;

verus! {

/// The mathematical value of a [`Breakfast`]: the texts naming its toast
/// and its fruit.
pub struct BreakfastView {
    pub toast: Seq<char>,
    pub seasonal_fruit: Seq<char>,
}

/// A breakfast order. The customer picks the toast; the seasonal fruit is
/// chosen by the kitchen and cannot be changed from outside.
pub struct Breakfast {
    pub toast: String,
    seasonal_fruit: String,
}

impl View for Breakfast {
    type V = BreakfastView;

    closed spec fn view(&self) -> BreakfastView {
        BreakfastView { toast: self.toast@, seasonal_fruit: self.seasonal_fruit@ }
    }
}

impl Breakfast {
    /// A summer breakfast: the given toast, served with peaches.
    pub fn summer(toast: &str) -> (b: Breakfast)
        ensures
            b@.toast == toast@,
            b@.seasonal_fruit == "peaches"@,
    {
        Breakfast { toast: toast.to_owned(), seasonal_fruit: "peaches".to_owned() }
    }
}

/// An appetizer on the menu.
#[derive(Debug, PartialEq, Eq, Structural, Copy, Clone)]
pub enum Appetizer {
    Soup,
    Salad,
}

} // verus!
