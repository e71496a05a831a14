//! A cons list and its tail. The verifier admits no interior mutability,
//! so the links are plain boxes: the shared, cycle-capable variant of
//! this list lives outside the library, with the other demos.

use vstd::prelude::*;

verus! {

#[derive(Debug)]
pub enum List {
    Cons(i32, Box<List>),
    Nil,
}

impl List {
    /// The rest of the list, if there is one.
    pub fn tail(&self) -> (t: Option<&Box<List>>)
        ensures
            (self is Nil ==> t is None),
            (self matches List::Cons(x, rest) ==> t matches Some(l) && l == rest),
    {
        match self {
            List::Cons(_, item) => Some(item),
            List::Nil => None,
        }
    }
}

} // verus!
