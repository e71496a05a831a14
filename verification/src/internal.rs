//! The add-one helper, published from a module of its own.

use vstd::prelude::*;

verus! {

pub fn add_one(x: i32) -> (r: i32)
    requires
        x < i32::MAX,
    ensures
        r == x + 1,
{
    x + 1
}

} // verus!
