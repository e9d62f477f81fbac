//! The kitchen: meals with fields the guest may and may not choose.

use vstd::prelude::*;

verus! {

/// Remakes an order that went wrong, then serves it.
#[allow(dead_code)]
fn fix_incorrect_order() {
    cook_order();
    super::serve_order();
}

/// Cooks an order.
fn cook_order() {
}

/// A breakfast: the toast is the guest's choice, the fruit is the season's.
pub struct Breakfast {
    pub toast: String,
    seasonal_fruit: String,
}

impl Breakfast {
    /// The toast chosen.
    pub closed spec fn chosen_toast(&self) -> Seq<char> {
        self.toast@
    }

    /// The fruit that comes with the meal.
    pub closed spec fn seasonal_fruit(&self) -> Seq<char> {
        self.seasonal_fruit@
    }

    /// A summer breakfast with the given toast; the fruit is peaches.
    pub fn summer(toast: &str) -> (r: Breakfast)
        ensures
            r.chosen_toast() == toast@,
            r.seasonal_fruit() == "peaches"@,
    {
        Breakfast { toast: toast.to_owned(), seasonal_fruit: "peaches".to_owned() }
    }
}

/// An appetizer; all its variants are public with the type.
#[derive(Debug, Clone, Copy, PartialEq, Eq)]
pub enum Appetizer {
    Soup,
    Salad,
}

} // verus!
