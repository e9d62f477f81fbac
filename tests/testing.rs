use rust_lessons::{add_two, greeting, Guess, Guess2, Rectangle};

#[test]
fn it_works() {
    assert_eq!(2 + 2, 4);
}

#[test]
fn larger_can_hold_smaller() {
    let larger = Rectangle { width: 8, height: 7 };
    let smaller = Rectangle { width: 5, height: 1 };

    assert!(larger.can_hold(&smaller));
}

#[test]
fn smaller_cannot_hold_larger() {
    let larger = Rectangle { width: 8, height: 7 };
    let smaller = Rectangle { width: 5, height: 1 };

    assert!(!smaller.can_hold(&larger));
}

#[test]
fn it_adds_two() {
    assert_eq!(4, add_two(2));
}

#[test]
fn it_works2() -> Result<(), String> {
    if 2 + 2 == 4 {
        Ok(())
    } else {
        Err(String::from("two plus two does not equal four"))
    }
}

#[test]
fn equal_sides_cannot_hold() {
    let a = Rectangle { width: 5, height: 5 };
    assert!(!a.can_hold(&a));
    let taller = Rectangle { width: 5, height: 9 };
    let wider = Rectangle { width: 9, height: 5 };
    assert!(!taller.can_hold(&wider));
    assert!(!wider.can_hold(&taller));
}

#[test]
fn add_two_negative_and_near_max() {
    assert_eq!(add_two(-5), -3);
    assert_eq!(add_two(i32::MAX - 2), i32::MAX);
}

#[test]
fn greeting_ignores_the_name() {
    assert_eq!(greeting("Carol"), "Hello!");
    assert_eq!(greeting(""), "Hello!");
}

#[test]
fn guess_keeps_its_value() {
    assert_eq!(Guess::new(1).value(), 1);
    assert_eq!(Guess::new(100).value(), 100);
    assert_eq!(Guess::new(42).value(), 42);
}

#[test]
fn guess2_builds_a_guess() {
    let g: Guess = Guess2::new(7);
    assert_eq!(g.value(), 7);
}
