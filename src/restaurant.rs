//! Module paths and visibility: what a crate exposes, and how callers reach it.

mod back_of_house;
mod front_of_house;

pub use self::back_of_house::{Appetizer, Breakfast};
pub use self::front_of_house::hosting as hosting2;

use self::front_of_house::hosting;
use self::front_of_house::hosting::add_to_waitlist;
use vstd::prelude::*;

verus! {

/// Puts a party on the waiting list, by an absolute path and then by a relative one.
pub fn eat_at_restaurant() {
    crate::restaurant::front_of_house::hosting::add_to_waitlist();
    front_of_house::hosting::add_to_waitlist();
}

/// Brings an order to the table; reached from child modules through `super`.
fn serve_order() {
}

/// Orders each appetizer once.
pub fn eat_at_restaurant3() {
    let _order1 = Appetizer::Soup;
    let _order2 = Appetizer::Salad;
}

/// Adds three parties through a module brought into scope.
pub fn eat_at_restaurant4() {
    hosting::add_to_waitlist();
    hosting::add_to_waitlist();
    hosting::add_to_waitlist();
}

/// Adds three parties through a function brought into scope.
pub fn eat_at_restaurant5() {
    add_to_waitlist();
    add_to_waitlist();
    add_to_waitlist();
}

/// Adds three parties through a module re-exported under another name.
pub fn eat_at_restaurant6() {
    hosting2::add_to_waitlist();
    hosting2::add_to_waitlist();
    hosting2::add_to_waitlist();
}

} // verus!
