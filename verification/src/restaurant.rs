//! A restaurant, as an exercise in module paths: the front of house takes
//! names for the waitlist, the back of house fixes breakfast, and the
//! same call is reached along several different paths.

use vstd::prelude::*;
pub use crate::restaurant::front_of_house1::hosting;

pub mod back_of_house;
pub mod customer1;
pub mod customer2;
pub mod front_of_house;
pub mod front_of_house1;

verus! {

pub fn eat_at_restaurant2() {
    let order1 = back_of_house::Appetizer::Soup;
    let order2 = back_of_house::Appetizer::Salad;
}

pub fn eat_at_restaurant3() {
    hosting::add_to_waitlist();
}

pub fn eat_at_restaurant4() {
    hosting::add_to_waitlist();
}

} // verus!
