//! Filtering a collection by a captured value, and a counter that hands out a bounded run of numbers.

use vstd::prelude::*;

verus! {

/// A shoe, with its size and its style.
#[derive(Debug, PartialEq, Eq)]
pub struct Shoe {
    pub size: u32,
    pub style: String,
}

/// Holds of the shoes of size `shoe_size`.
pub open spec fn of_size(shoe_size: u32) -> spec_fn(Shoe) -> bool {
    |s: Shoe| s.size == shoe_size
}

/// Keeps the shoes of size `shoe_size`, in their order.
pub fn shoes_in_my_size(shoes: Vec<Shoe>, shoe_size: u32) -> (r: Vec<Shoe>)
    ensures
        r@ == shoes@.filter(of_size(shoe_size)),
{
    let ghost all = shoes@;
    let ghost mut done: int = 0;
    let mut rest = shoes;
    let mut kept: Vec<Shoe> = Vec::new();
    while rest.len() > 0
        invariant
            0 <= done <= all.len(),
            rest@ == all.skip(done),
            kept@ == all.take(done).filter(of_size(shoe_size)),
        decreases rest.len(),
    {
        let s = rest.remove(0);
        proof {
            assert(all.take(done + 1).drop_last() =~= all.take(done));
            assert(all.take(done + 1).last() == s);
            assert(rest@ =~= all.skip(done + 1));
            reveal(Seq::filter);
        }
        if s.size == shoe_size {
            kept.push(s);
        }
        proof {
            done = done + 1;
        }
    }
    assert(all.take(all.len() as int) =~= all);
    kept
}

/// The number of values a counter hands out.
pub const COUNTER_LIMIT: u32 = 5;

/// Hands out 1, 2, ..., `COUNTER_LIMIT`, then nothing more.
pub struct Counter {
    count: u32,
}

impl Counter {
    /// How many values the counter has handed out.
    pub closed spec fn count(&self) -> u32 {
        self.count
    }

    /// A counter that has handed out nothing yet.
    pub fn new() -> (r: Counter)
        ensures
            r.count() == 0,
    {
        Counter { count: 0 }
    }

    /// The next value, or `None` once `COUNTER_LIMIT` values have been handed out.
    pub fn next(&mut self) -> (r: Option<u32>)
        ensures
            old(self).count() < COUNTER_LIMIT ==> final(self).count() == old(self).count() + 1
                && r == Some(final(self).count()),
            old(self).count() >= COUNTER_LIMIT ==> final(self).count() == old(self).count()
                && r is None,
    {
        if self.count < COUNTER_LIMIT {
            self.count += 1;
            Some(self.count)
        } else {
            None
        }
    }
}

} // verus!
