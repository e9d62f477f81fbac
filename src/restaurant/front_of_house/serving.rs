//! Serving guests; private to the front of house.

use vstd::prelude::*;

verus! {

/// Takes a table's order.
#[allow(dead_code)]
fn take_order() {
}

/// Brings a table its order.
#[allow(dead_code)]
fn serve_order() {
}

/// Takes a table's payment.
#[allow(dead_code)]
fn take_payment() {
}

} // verus!
