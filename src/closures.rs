//! Closures as values: a single-slot memoizing wrapper and a workout planner built on it.

use vstd::prelude::*;

verus! {

/// Below this intensity the day is one of pushups and situps.
pub const LOW_INTENSITY_LIMIT: u32 = 25;

/// The draw that turns a high-intensity day into a rest day.
pub const REST_DAY_DRAW: u32 = 3;

/// Holds a calculation and the first result it produced.
///
/// After the first call of `value`, the stored result is returned for every
/// argument: the argument of later calls is not looked at.
pub struct Cacher<T> where T: Fn(u32) -> u32 {
    calculation: T,
    value: Option<u32>,
}

impl<T> Cacher<T> where T: Fn(u32) -> u32 {
    /// The wrapped calculation.
    pub closed spec fn calculation(&self) -> T {
        self.calculation
    }

    /// The stored result, if the calculation has run.
    pub closed spec fn cached(&self) -> Option<u32> {
        self.value
    }

    /// Wraps `calculation`, with nothing stored yet.
    pub fn new(calculation: T) -> (r: Cacher<T>)
        ensures
            r.calculation() == calculation,
            r.cached() is None,
    {
        Cacher { calculation, value: None }
    }

    /// Returns the stored result, or runs the calculation on `arg` and stores what it gives.
    pub fn value(&mut self, arg: u32) -> (r: u32)
        requires
            old(self).cached() is None ==> call_requires(old(self).calculation(), (arg,)),
        ensures
            final(self).calculation() == old(self).calculation(),
            final(self).cached() == Some(r),
            old(self).cached() is Some ==> r == old(self).cached()->Some_0,
            old(self).cached() is None ==> call_ensures(old(self).calculation(), (arg,), r),
    {
        match self.value {
            Some(v) => v,
            None => {
                let v = (self.calculation)(arg);
                self.value = Some(v);
                v
            },
        }
    }
}

/// What a day of training consists of.
#[derive(Debug, Clone, Copy, PartialEq, Eq)]
pub enum Workout {
    /// A number of pushups, then a number of situps.
    Exercises { pushups: u32, situps: u32 },
    /// A day off.
    Rest,
    /// A run of the given length in minutes.
    Run { minutes: u32 },
}

/// Whether the day's plan runs the calculation at all.
pub open spec fn needs_calculation(intensity: u32, random_number: u32) -> bool {
    intensity < LOW_INTENSITY_LIMIT || random_number != REST_DAY_DRAW
}

/// Plans a day, running `expensive` each time a number is needed.
pub fn generate_workout<F>(intensity: u32, random_number: u32, expensive: F) -> (r: Workout) where
    F: Fn(u32) -> u32,
    requires
        needs_calculation(intensity, random_number) ==> call_requires(expensive, (intensity,)),
    ensures
        intensity < LOW_INTENSITY_LIMIT ==> (r matches Workout::Exercises { pushups, situps }
            && call_ensures(expensive, (intensity,), pushups)
            && call_ensures(expensive, (intensity,), situps)),
        intensity >= LOW_INTENSITY_LIMIT && random_number == REST_DAY_DRAW ==> r == Workout::Rest,
        intensity >= LOW_INTENSITY_LIMIT && random_number != REST_DAY_DRAW ==> (r matches Workout::Run { minutes }
            && call_ensures(expensive, (intensity,), minutes)),
{
    if intensity < LOW_INTENSITY_LIMIT {
        let pushups = expensive(intensity);
        let situps = expensive(intensity);
        Workout::Exercises { pushups, situps }
    } else if random_number == REST_DAY_DRAW {
        Workout::Rest
    } else {
        Workout::Run { minutes: expensive(intensity) }
    }
}

/// Plans a day like `generate_workout`, but runs `expensive` at most once, through a `Cacher`.
pub fn generate_workout2<F>(intensity: u32, random_number: u32, expensive: F) -> (r: Workout) where
    F: Fn(u32) -> u32,
    requires
        needs_calculation(intensity, random_number) ==> call_requires(expensive, (intensity,)),
    ensures
        intensity < LOW_INTENSITY_LIMIT ==> (r matches Workout::Exercises { pushups, situps }
            && pushups == situps
            && call_ensures(expensive, (intensity,), pushups)),
        intensity >= LOW_INTENSITY_LIMIT && random_number == REST_DAY_DRAW ==> r == Workout::Rest,
        intensity >= LOW_INTENSITY_LIMIT && random_number != REST_DAY_DRAW ==> (r matches Workout::Run { minutes }
            && call_ensures(expensive, (intensity,), minutes)),
{
    let mut expensive_result = Cacher::new(expensive);
    if intensity < LOW_INTENSITY_LIMIT {
        let pushups = expensive_result.value(intensity);
        let situps = expensive_result.value(intensity);
        Workout::Exercises { pushups, situps }
    } else if random_number == REST_DAY_DRAW {
        Workout::Rest
    } else {
        Workout::Run { minutes: expensive_result.value(intensity) }
    }
}

} // verus!
