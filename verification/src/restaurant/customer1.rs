//! A customer module that names the hosting module with its own `use`.

use crate::restaurant::front_of_house::hosting;
use vstd::prelude::*;

verus! {

pub fn eat_at_restaurant3() {
    hosting::add_to_waitlist();
}

} // verus!
