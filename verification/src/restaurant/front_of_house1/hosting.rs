//! Hosting: the waitlist.

use vstd::prelude::*;

verus! {

pub fn add_to_waitlist() {
}

} // verus!
