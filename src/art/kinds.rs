//! The kinds of things the crate deals in.

use vstd::prelude::*;

verus! {

/// A color.
#[derive(Debug, Clone, Copy, PartialEq, Eq)]
pub enum Color {
    Red,
}

} // verus!
