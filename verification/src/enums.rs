//! Enums with data, methods on enums, and pattern matching.

use vstd::prelude::*;

verus! {

/// An IP address, either four octets or a textual form.
#[derive(Debug)]
pub enum IpAddr {
    V4(u8, u8, u8, u8),
    V6(String),
}

impl IpAddr {
    /// The loopback address 127.0.0.1.
    pub fn home() -> (r: IpAddr)
        ensures
            r == (IpAddr::V4(127u8, 0u8, 0u8, 1u8)),
    {
        return IpAddr::V4(127, 0, 0, 1);
    }
}

/// A United States coin.
#[derive(Debug)]
pub enum Coin {
    Penny,
    Nickel,
    Dime,
    Quarter,
}

/// The value of a coin in cents.
pub open spec fn coin_value(coin: Coin) -> u8 {
    match coin {
        Coin::Penny => 1u8,
        Coin::Nickel => 5u8,
        Coin::Dime => 10u8,
        Coin::Quarter => 25u8,
    }
}

/// Returns the value of the coin in cents.
pub fn value_in_cents(coin: &Coin) -> (v: u8)
    ensures
        v == coin_value(*coin),
{
    match coin {
        Coin::Penny => 1,
        Coin::Nickel => 5,
        Coin::Dime => 10,
        Coin::Quarter => 25,
    }
}

/// Adds one inside an `Option`, leaving `None` as it is.
pub fn plus_one(x: Option<i32>) -> (r: Option<i32>)
    requires
        x matches Some(i) ==> i < i32::MAX,
    ensures
        x is None ==> r is None,
        x matches Some(i) ==> r == Some((i + 1) as i32),
{
    match x {
        None => None,
        Some(i) => Some(i + 1),
    }
}

} // verus!
