//! Functions and types that the test suite exercises.

use vstd::prelude::*;

verus! {

/// An axis-aligned rectangle, given by its width and its height.
#[derive(Debug, Clone, Copy, PartialEq, Eq)]
pub struct Rectangle {
    pub width: u32,
    pub height: u32,
}

impl Rectangle {
    /// Whether `other` fits strictly inside `self` in both dimensions.
    pub fn can_hold(&self, other: &Rectangle) -> (r: bool)
        ensures
            r == (self.width > other.width && self.height > other.height),
    {
        self.width > other.width && self.height > other.height
    }
}

/// Adds two to `a`.
pub fn add_two(a: i32) -> (r: i32)
    requires
        a <= i32::MAX - 2,
    ensures
        r == a + 2,
{
    a + 2
}

/// A fixed greeting; the name is not part of it.
pub fn greeting(name: &str) -> (r: String)
    ensures
        r@ == "Hello!"@,
{
    "Hello!".to_owned()
}

/// The least value that a guess may hold.
pub const GUESS_MIN: i32 = 1;

/// The greatest value that a guess may hold.
pub const GUESS_MAX: i32 = 100;

/// A guess, always between `GUESS_MIN` and `GUESS_MAX` inclusive.
pub struct Guess {
    value: i32,
}

impl Guess {
    #[verifier::type_invariant]
    spec fn in_range(self) -> bool {
        GUESS_MIN <= self.value <= GUESS_MAX
    }

    /// The value held by the guess.
    pub closed spec fn spec_value(self) -> i32 {
        self.value
    }

    /// Makes a guess; out-of-range values are not admitted.
    pub fn new(value: i32) -> (r: Guess)
        requires
            GUESS_MIN <= value <= GUESS_MAX,
        ensures
            r.spec_value() == value,
    {
        Guess { value }
    }

    /// Returns the value held by the guess.
    pub fn value(&self) -> (r: i32)
        ensures
            r == self.spec_value(),
            GUESS_MIN <= r <= GUESS_MAX,
    {
        proof {
            use_type_invariant(self);
        }
        self.value
    }
}

/// A second guess type whose constructor checks each bound on its own.
pub struct Guess2 {
    value: i32,
}

impl Guess2 {
    /// Makes a `Guess`, checking the lower bound and then the upper one.
    pub fn new(value: i32) -> (r: Guess)
        requires
            GUESS_MIN <= value,
            value <= GUESS_MAX,
        ensures
            r.spec_value() == value,
    {
        Guess { value }
    }
}

} // verus!
