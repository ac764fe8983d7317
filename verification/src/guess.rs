//! A guess in the number game, restricted to the range 1 through 100.

use vstd::prelude::*;

verus! {

/// A guess in the number game; the held value is always between 1 and 100.
pub struct Guess {
    value: i32,
}

impl Guess {
    /// The held value.
    pub closed spec fn spec_value(&self) -> i32 {
        self.value
    }

    /// The value is within the range the game accepts.
    pub open spec fn wf(&self) -> bool {
        1 <= self.spec_value() <= 100
    }

    /// Wraps a value as a `Guess`. Values below 1 or above 100 are not
    /// accepted.
    pub fn new(value: i32) -> (g: Guess)
        requires
            1 <= value <= 100,
        ensures
            g.spec_value() == value,
            g.wf(),
    {
        Guess { value }
    }

    /// Reads the held value back.
    pub fn value(&self) -> (v: i32)
        ensures
            v == self.spec_value(),
    {
        self.value
    }
}

} // verus!
