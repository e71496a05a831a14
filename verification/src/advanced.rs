//! Advanced odds and ends: an option of one's own, trait methods that
//! share a name, writer traits over IO results, a box of one's own, and
//! equality behind a generic bound.

use vstd::prelude::*;
use vstd::std_specs::cmp::PartialEqSpec;

verus! {

#[verifier::external_type_specification]
#[verifier::external_body]
pub struct ExIoError(std::io::Error);

/// A sink of bytes, as its implementors see fit; every operation may
/// fail with an IO error.
pub trait Write {
    fn write(&mut self, buf: &[u8]) -> Result<usize, std::io::Error>;

    fn flush(&mut self) -> Result<(), std::io::Error>;

    fn write_all(&mut self, buf: &[u8]) -> Result<(), std::io::Error>;
}

type Result2<T> = Result<T, std::io::Error>;

/// The same sink, with the result type named once.
pub trait Write2 {
    fn write(&mut self, buf: &[u8]) -> Result2<usize>;

    fn flush(&mut self) -> Result2<()>;

    fn write_all(&mut self, buf: &[u8]) -> Result2<()>;
}

/// An option of one's own, to unwrap by hand.
pub struct MyOpt<T>(pub Option<T>);

impl<T> MyOpt<T> {
    /// The value inside; asking for the value of an empty `MyOpt` is the
    /// caller's mistake, ruled out here rather than punished at run time.
    pub fn unwrap(self) -> (t: T)
        requires
            self.0 is Some,
        ensures
            t == self.0->0,
    {
        match self.0 {
            Some(val) => val,
            None => vstd::pervasive::unreached(),
        }
    }
}

/// Every type parameter is implicitly sized.
pub fn generic1<T>(t: T) {
}

/// The same bound, written out.
pub fn generic2<T: Sized>(t: T) {
}

/// A parameter that may be unsized, taken behind a reference.
pub fn generic<T: ?Sized>(t: &T) {
}

/// Whether the two are equal, by the type's own equality.
pub fn is_equal<T: Eq + ?Sized>(t1: &T, t2: &T) -> (r: bool)
    ensures
        T::obeys_eq_spec() ==> r == t1.eq_spec(t2),
{
    t1 == t2
}

/// What a trainer calls a baby animal of the species.
pub trait Animal {
    fn baby_name() -> String;
}

pub struct Dog;

impl Dog {
    /// What this dog's owner actually named it.
    pub fn baby_name() -> (r: String)
        ensures
            r@ == "Spot"@,
    {
        "Spot".to_owned()
    }
}

impl Animal for Dog {
    fn baby_name() -> String {
        "puppy".to_owned()
    }
}

/// A box of one's own.
pub struct MyBox<T>(pub T);

impl<T> MyBox<T> {
    pub fn new(x: T) -> (b: MyBox<T>)
        ensures
            b.0 == x,
    {
        MyBox(x)
    }
}

} // verus!
