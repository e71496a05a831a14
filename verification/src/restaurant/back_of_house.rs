//! The back of house: breakfast comes with the fruit of the season, which
//! the customer neither sees nor changes.

use vstd::prelude::*;
use vstd::string::StringExecFns;

verus! {

pub struct Breakfast {
    pub toast: String,
    seasonal_fruit: String,
}

impl Breakfast {
    /// The toast the customer asked for.
    pub closed spec fn spec_toast(&self) -> Seq<char> {
        self.toast@
    }

    /// The fruit that comes with the meal, the kitchen's own business.
    pub closed spec fn spec_fruit(&self) -> Seq<char> {
        self.seasonal_fruit@
    }

    /// A summer breakfast: the customer's choice of toast, with peaches.
    pub fn summer(toast: &str) -> (b: Breakfast)
        ensures
            b.spec_toast() == toast@,
            b.spec_fruit() == "peaches"@,
    {
        Breakfast { toast: String::from_str(toast), seasonal_fruit: String::from_str("peaches") }
    }
}

pub enum Appetizer {
    Soup,
    Salad,
}

} // verus!
