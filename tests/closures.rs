use std::cell::Cell;

use rust_lessons::{generate_workout, generate_workout2, Cacher, Workout};

#[test]
fn cacher_keeps_the_first_result() {
    let calls = Cell::new(0u32);
    let mut c = Cacher::new(|x| {
        calls.set(calls.get() + 1);
        x * 2
    });
    assert_eq!(c.value(3), 6);
    assert_eq!(c.value(10), 6);
    assert_eq!(calls.get(), 1);
}

#[test]
fn low_intensity_is_exercises() {
    assert_eq!(
        generate_workout(10, 7, |n| n),
        Workout::Exercises { pushups: 10, situps: 10 }
    );
    assert_eq!(
        generate_workout2(24, 3, |n| n),
        Workout::Exercises { pushups: 24, situps: 24 }
    );
}

#[test]
fn high_intensity_rest_or_run() {
    assert_eq!(generate_workout(25, 3, |n| n), Workout::Rest);
    assert_eq!(generate_workout(25, 4, |n| n), Workout::Run { minutes: 25 });
    assert_eq!(generate_workout2(30, 3, |n| n), Workout::Rest);
    assert_eq!(generate_workout2(30, 7, |n| n + 1), Workout::Run { minutes: 31 });
}

#[test]
fn cached_workout_calls_once() {
    let calls = Cell::new(0u32);
    let counted = |n: u32| {
        calls.set(calls.get() + 1);
        n + calls.get()
    };
    assert_eq!(generate_workout2(5, 0, counted), Workout::Exercises { pushups: 6, situps: 6 });
    assert_eq!(calls.get(), 1);
    calls.set(0);
    assert_eq!(
        generate_workout(5, 0, |n: u32| {
            calls.set(calls.get() + 1);
            n + calls.get()
        }),
        Workout::Exercises { pushups: 6, situps: 7 }
    );
}
