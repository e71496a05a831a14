//! Exercises in generic code: largest elements, longest strings, points
//! that mix coordinates, and picking the element of a given rank.

use vstd::prelude::*;
use vstd::multiset::Multiset;
use vstd::slice::{slice_index_get, slice_to_vec};
use vstd::string::StringSliceAdditionalSpecFns;

verus! {

/// The largest of a slice of integers.
pub fn largest(list: &[i32]) -> (r: &i32)
    requires
        list@.len() > 0,
    ensures
        forall|i: int| 0 <= i < list@.len() ==> list@[i] <= *r,
        exists|i: int| 0 <= i < list@.len() && list@[i] == *r,
{
    let mut largest = slice_index_get(list, 0);
    let mut i: usize = 1;
    while i < list.len()
        invariant
            1 <= i <= list@.len(),
            forall|j: int| 0 <= j < i ==> list@[j] <= *largest,
            exists|j: int| 0 <= j < i && list@[j] == *largest,
        decreases list@.len() - i,
    {
        let item = slice_index_get(list, i);
        if *item > *largest {
            largest = item;
        }
        i += 1;
    }
    largest
}

/// The largest of a slice of integers, spelled for one concrete type.
pub fn largest_i32(list: &[i32]) -> (r: &i32)
    requires
        list@.len() > 0,
    ensures
        forall|i: int| 0 <= i < list@.len() ==> list@[i] <= *r,
        exists|i: int| 0 <= i < list@.len() && list@[i] == *r,
{
    let mut largest = slice_index_get(list, 0);
    let mut i: usize = 1;
    while i < list.len()
        invariant
            1 <= i <= list@.len(),
            forall|j: int| 0 <= j < i ==> list@[j] <= *largest,
            exists|j: int| 0 <= j < i && list@[j] == *largest,
        decreases list@.len() - i,
    {
        let item = slice_index_get(list, i);
        if *item > *largest {
            largest = item;
        }
        i += 1;
    }
    largest
}

/// The largest of a slice of characters.
pub fn largest_char(list: &[char]) -> (r: &char)
    requires
        list@.len() > 0,
    ensures
        forall|i: int| 0 <= i < list@.len() ==> list@[i] <= *r,
        exists|i: int| 0 <= i < list@.len() && list@[i] == *r,
{
    let mut largest = slice_index_get(list, 0);
    let mut i: usize = 1;
    while i < list.len()
        invariant
            1 <= i <= list@.len(),
            forall|j: int| 0 <= j < i ==> list@[j] <= *largest,
            exists|j: int| 0 <= j < i && list@[j] == *largest,
        decreases list@.len() - i,
    {
        let item = slice_index_get(list, i);
        if *item > *largest {
            largest = item;
        }
        i += 1;
    }
    largest
}

/// The same walk over any partially ordered type. A partial order has no
/// largest element in general, so the contract promises an element of
/// the slice and no more.
pub fn largest2<T: PartialOrd>(list: &[T]) -> (r: &T)
    requires
        list@.len() > 0,
    ensures
        exists|i: int| 0 <= i < list@.len() && *r == list@[i],
{
    let mut largest = slice_index_get(list, 0);
    let mut i: usize = 1;
    while i < list.len()
        invariant
            1 <= i <= list@.len(),
            exists|j: int| 0 <= j < list@.len() && *largest == list@[j],
        decreases list@.len() - i,
    {
        let item = slice_index_get(list, i);
        if *item > *largest {
            largest = item;
        }
        i += 1;
    }
    largest
}

/// Whichever of the two has more bytes; ties go to the second.
pub fn longest<'a>(x: &'a str, y: &'a str) -> (r: &'a str)
    requires
        x.spec_bytes().len() <= usize::MAX,
        y.spec_bytes().len() <= usize::MAX,
    ensures
        x.spec_bytes().len() > y.spec_bytes().len() ==> r@ == x@,
        x.spec_bytes().len() <= y.spec_bytes().len() ==> r@ == y@,
{
    if x.len() > y.len() {
        x
    } else {
        y
    }
}

/// The first argument, whose lifetime alone reaches the result.
pub fn longest2<'a>(x: &'a str, y: &str) -> (r: &'a str)
    ensures
        r@ == x@,
{
    x
}

pub struct Point<T> {
    pub x: T,
    pub y: T,
}

impl<T> Point<T> {
    /// A view of the x coordinate.
    pub fn x(&self) -> (r: &T)
        ensures
            *r == self.x,
    {
        &self.x
    }
}

pub struct Point2<T, U> {
    pub x: T,
    pub y: U,
}

impl<X1, Y1> Point2<X1, Y1> {
    /// A point with this one's x and the other's y.
    pub fn mixup<X2, Y2>(self, other: Point2<X2, Y2>) -> (r: Point2<X1, Y2>)
        ensures
            r.x == self.x,
            r.y == other.y,
    {
        Point2 { x: self.x, y: other.y }
    }
}

pub struct ImportantExcerpt<'a> {
    pub part: &'a str,
}

impl<'a> ImportantExcerpt<'a> {
    pub fn level(&self) -> (r: i32)
        ensures
            r == 3,
    {
        3
    }
}

/// Nondecreasing, left to right.
pub open spec fn sorted(s: Seq<i32>) -> bool {
    forall|i: int, j: int| 0 <= i <= j < s.len() ==> s[i] <= s[j]
}

/// Sort by repeatedly moving a least remaining element across.
fn sort_values(elems: &[i32]) -> (out: Vec<i32>)
    ensures
        sorted(out@),
        out@.to_multiset() == elems@.to_multiset(),
        out@.len() == elems@.len(),
{
    broadcast use vstd::seq_lib::group_to_multiset_ensures;

    let mut rest: Vec<i32> = slice_to_vec(elems);
    let mut out: Vec<i32> = Vec::new();
    while rest.len() > 0
        invariant
            out@.to_multiset().add(rest@.to_multiset()) =~= elems@.to_multiset(),
            out@.len() + rest@.len() == elems@.len(),
            sorted(out@),
            forall|i: int, k: int|
                0 <= i < out@.len() && 0 <= k < rest@.len() ==> out@[i] <= rest@[k],
        decreases rest@.len(),
    {
        let mut min_ix: usize = 0;
        let mut i: usize = 1;
        while i < rest.len()
            invariant
                min_ix < i <= rest@.len(),
                forall|j: int| 0 <= j < i ==> rest@[min_ix as int] <= rest@[j],
            decreases rest@.len() - i,
        {
            if rest[i] < rest[min_ix] {
                min_ix = i;
            }
            i += 1;
        }
        let ghost old_out = out@;
        let ghost old_rest = rest@;
        let x = rest.remove(min_ix);
        out.push(x);
        proof {
            broadcast use vstd::seq_lib::group_to_multiset_ensures;
            broadcast use vstd::multiset::group_multiset_axioms;

            assert(out@ =~= old_out.push(x));
            assert(old_out.push(x).to_multiset() =~= old_out.to_multiset().insert(x));
            assert(rest@ =~= old_rest.remove(min_ix as int));
            assert(old_rest.remove(min_ix as int).to_multiset() =~= old_rest.to_multiset().remove(
                old_rest[min_ix as int],
            ));
            assert(old_rest.to_multiset().count(x) > 0);
            assert(out@.to_multiset().add(rest@.to_multiset()) =~= old_out.to_multiset().add(
                old_rest.to_multiset(),
            ));
            assert forall|k: int| 0 <= k < rest@.len() implies x <= rest@[k] by {
                if k < min_ix {
                    assert(rest@[k] == old_rest[k]);
                } else {
                    assert(rest@[k] == old_rest[k + 1]);
                }
            }
            assert forall|i2: int, k: int|
                0 <= i2 < out@.len() && 0 <= k < rest@.len() implies out@[i2] <= rest@[k] by {
                if i2 < old_out.len() {
                    assert(out@[i2] == old_out[i2]);
                    assert(old_rest[min_ix as int] <= rest@[k]);
                } else {
                    assert(out@[i2] == x);
                }
            }
        }
    }
    proof {
        broadcast use vstd::seq_lib::group_to_multiset_ensures;
        broadcast use vstd::multiset::group_multiset_axioms;

        assert(rest@.to_multiset() =~= Multiset::<i32>::empty());
        assert(out@.to_multiset() =~= out@.to_multiset().add(rest@.to_multiset()));
    }
    out
}

/// The element of rank `n`: the value at position `n` of the one sorted
/// arrangement of the slice's values.
pub fn find_nth(elems: &[i32], n: usize) -> (r: i32)
    requires
        n < elems@.len(),
    ensures
        exists|s: Seq<i32>|
            sorted(s) && s.to_multiset() == elems@.to_multiset() && s.len() == elems@.len() && r
                == s[n as int],
{
    let sorted_values = sort_values(elems);
    let r = sorted_values[n];
    proof {
        assert(sorted(sorted_values@) && sorted_values@.to_multiset() == elems@.to_multiset()
            && sorted_values@.len() == elems@.len() && r == sorted_values@[n as int]);
    }
    r
}

/// The element of rank `n` once more, sorting borrowed values instead of
/// moving them; the answer is the same.
pub fn find_nth2(elems: &[i32], n: usize) -> (r: i32)
    requires
        n < elems@.len(),
    ensures
        exists|s: Seq<i32>|
            sorted(s) && s.to_multiset() == elems@.to_multiset() && s.len() == elems@.len() && r
                == s[n as int],
{
    let sorted_values = sort_values(elems);
    let r = sorted_values[n];
    proof {
        assert(sorted(sorted_values@) && sorted_values@.to_multiset() == elems@.to_multiset()
            && sorted_values@.len() == elems@.len() && r == sorted_values@[n as int]);
    }
    r
}

} // verus!
