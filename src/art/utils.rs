//! Helpers over the crate's kinds.

use super::kinds::Color;
use vstd::prelude::*;

verus! {

/// The crate's one color.
pub fn get() -> (r: Color)
    ensures
        r == Color::Red,
{
    Color::Red
}

} // verus!
