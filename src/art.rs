//! A small crate surface: a documented function, and items re-exported from inner modules.

pub mod kinds;
pub mod utils;

pub use self::kinds::Color;
pub use self::utils::get;

use vstd::prelude::*;

verus! {

/// Adds one to the number given.
///
/// The sum must fit in an `i32`.
pub fn add_one(x: i32) -> (r: i32)
    requires
        x < i32::MAX,
    ensures
        r == x + 1,
{
    x + 1
}

} // verus!
