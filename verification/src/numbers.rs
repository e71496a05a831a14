//! Fibonacci numbers by iteration.

use vstd::prelude::*;

verus! {

/// The Fibonacci number of rank `n`, with two ones at the start:
/// 0, 1, 1, 2, 3, 5, ...
pub open spec fn spec_fib(n: nat) -> nat
    decreases n,
{
    if n == 0 {
        0
    } else if n <= 2 {
        1
    } else {
        spec_fib((n - 1) as nat) + spec_fib((n - 2) as nat)
    }
}

/// The sequence never goes down.
pub proof fn lemma_fib_monotonic(i: nat, j: nat)
    requires
        i <= j,
    ensures
        spec_fib(i) <= spec_fib(j),
    decreases j - i,
{
    if i < j {
        lemma_fib_monotonic(i, (j - 1) as nat);
        if j > 2 {
            assert(spec_fib(j) == spec_fib((j - 1) as nat) + spec_fib((j - 2) as nat));
        }
    }
}

/// Walk up to the Fibonacci number of rank `n` with two running values.
pub fn fib(n: u32) -> (r: u32)
    requires
        spec_fib(n as nat) <= u32::MAX,
    ensures
        r == spec_fib(n as nat),
{
    let mut a: u32 = 1;
    let mut b: u32 = 1;

    if n == 0 {
        return 0;
    } else if n == 1 {
        return a;
    } else if n == 2 {
        return b;
    }
    let mut n_ = n;

    while n_ > 2
        invariant
            2 <= n_ <= n,
            a == spec_fib((n - n_ + 1) as nat),
            b == spec_fib((n - n_ + 2) as nat),
            spec_fib(n as nat) <= u32::MAX,
        decreases n_,
    {
        proof {
            lemma_fib_monotonic((n - n_ + 3) as nat, n as nat);
        }
        let a_ = a;
        a = b;
        b = a_ + b;
        n_ -= 1;
    }

    b
}

} // verus!
