//! Coins and their worth in cents.

use vstd::prelude::*;

verus! {

#[derive(Debug, Clone, Copy)]
pub enum UsState {
    Alabama,
    Alaska,
}

pub enum Coin {
    Penny,
    Nickel,
    Dime,
    Quarter(UsState),
}

/// What one coin is worth. The state on a quarter is for reading, not
/// for counting: every quarter is worth the same.
pub fn value_in_cents(coin: Coin) -> (cents: u8)
    ensures
        coin is Penny ==> cents == 1,
        coin is Nickel ==> cents == 5,
        coin is Dime ==> cents == 10,
        coin is Quarter ==> cents == 25,
{
    match coin {
        Coin::Penny => 1,
        Coin::Nickel => 5,
        Coin::Dime => 10,
        Coin::Quarter(state) => 25,
    }
}

} // verus!
