//! Functions as values: applying a caller's function twice, registering
//! callbacks, and returning closures. The verifier admits no function
//! pointer type, so everything here is generic over `Fn` values, which
//! plain functions coerce into at the call site.

use vstd::prelude::*;

verus! {

/// One more than the argument.
pub fn add_one(x: i32) -> (r: i32)
    requires
        x < i32::MAX,
    ensures
        r == x + 1,
{
    x + 1
}

/// Apply `f` to `arg` twice and add the two answers.
pub fn do_twice<F: Fn(i32) -> i32>(f: F, arg: i32) -> (r: i32)
    requires
        call_requires(f, (arg,)),
        forall|r1: i32, r2: i32|
            call_ensures(f, (arg,), r1) && call_ensures(f, (arg,), r2) ==> i32::MIN <= r1 + r2
                <= i32::MAX,
    ensures
        exists|r1: i32, r2: i32|
            call_ensures(f, (arg,), r1) && call_ensures(f, (arg,), r2) && r == r1 + r2,
{
    f(arg) + f(arg)
}

/// Something that happens; the callbacks below are told about it.
pub struct Event {}

/// Register a callback that takes an event and no environment.
pub fn register1<F: Fn(Event)>(cb: F) {
}

/// Register any callback, environment and all.
pub fn register2<F>(cb: F) where F: Fn(Event) -> () {
}

/// A function that adds one, made on the spot.
pub fn returns_closure2() -> (f: impl Fn(i32) -> i32)
    ensures
        forall|x: i32| x < i32::MAX ==> call_requires(f, (x,)),
        forall|x: i32, r: i32| #[trigger] call_ensures(f, (x,), r) ==> r == x + 1,
{
    |x: i32| -> (r: i32)
        requires
            x < i32::MAX,
        ensures
            r == x + 1,
        {
            x + 1
        }
}

/// The same function, boxed; the verifier refuses a `dyn Fn` object, so
/// the box holds an opaque `impl Fn` instead.
pub fn returns_closure3() -> (f: Box<impl Fn(i32) -> i32>) {
    Box::new(|x: i32| -> (r: i32)
            requires
                x < i32::MAX,
            ensures
                r == x + 1,
            {
                x + 1
            })
}

/// A closure that clones the given string whenever called; the string is
/// moved into it.
pub fn make_a_cloner<'a>(s_ref: &'a str) -> (f: impl Fn() -> String + 'a)
    ensures
        forall|r: String| #[trigger] call_ensures(f, (), r) ==> r@ == s_ref@,
{
    move || -> (r: String)
        ensures
            r@ == s_ref@,
        {
            s_ref.to_owned()
        }
}

/// The same cloner, leaning on lifetime elision.
pub fn make_a_cloner2(s_ref: &str) -> (f: impl Fn() -> String + '_)
    ensures
        forall|r: String| #[trigger] call_ensures(f, (), r) ==> r@ == s_ref@,
{
    || -> (r: String)
        ensures
            r@ == s_ref@,
        {
            s_ref.to_owned()
        }
}

} // verus!
