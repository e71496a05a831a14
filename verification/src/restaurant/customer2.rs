//! A customer module that reaches the hosting module through its parent.

use super::front_of_house::hosting;
use vstd::prelude::*;

verus! {

pub fn eat_at_restaurant3() {
    hosting::add_to_waitlist();
}

} // verus!
