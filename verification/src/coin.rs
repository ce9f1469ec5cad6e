//! Coins of the United States and what each is worth.

use vstd::prelude::*;

verus! {

/// The four coins in everyday circulation.
#[derive(Clone, Copy, Debug, PartialEq, Eq, Structural)]
pub enum Coin {
    Penny,
    Nickel,
    Dime,
    Quarter,
}

/// Worth of `coin` in cents.
pub open spec fn cents(coin: Coin) -> nat {
    match coin {
        Coin::Penny => 1,
        Coin::Nickel => 5,
        Coin::Dime => 10,
        Coin::Quarter => 25,
    }
}

/// Returns what `coin` is worth, in cents.
pub fn value_in_cents(coin: Coin) -> (value: u8)
    ensures
        value == cents(coin),
{
    match coin {
        Coin::Penny => 1,
        Coin::Nickel => 5,
        Coin::Dime => 10,
        Coin::Quarter => 25,
    }
}

} // verus!
