use rust_lessons::{shoes_in_my_size, Counter, Shoe};

#[test]
fn filters_by_size() {
    let shoes = vec![
        Shoe { size: 10, style: String::from("sneaker") },
        Shoe { size: 13, style: String::from("sandal") },
        Shoe { size: 10, style: String::from("boot") },
    ];

    let in_my_size = shoes_in_my_size(shoes, 10);

    assert_eq!(
        in_my_size,
        vec![
            Shoe { size: 10, style: String::from("sneaker") },
            Shoe { size: 10, style: String::from("boot") },
        ]
    );
}

fn counter_values() -> impl Iterator<Item = u32> {
    let mut c = Counter::new();
    std::iter::from_fn(move || c.next())
}

#[test]
fn using_other_iterator_trait_methods() {
    let sum: u32 = counter_values()
        .zip(counter_values().skip(1))
        .map(|(a, b)| a * b)
        .filter(|x| x % 3 == 0)
        .sum();
    assert_eq!(18, sum);
}

#[test]
fn no_shoes_in_an_empty_list() {
    assert_eq!(shoes_in_my_size(Vec::new(), 10), Vec::new());
}

#[test]
fn no_shoe_of_that_size() {
    let shoes = vec![Shoe { size: 9, style: String::from("boot") }];
    assert_eq!(shoes_in_my_size(shoes, 10), Vec::new());
}

#[test]
fn counter_counts_to_five_then_stops() {
    let mut c = Counter::new();
    assert_eq!(c.next(), Some(1));
    assert_eq!(c.next(), Some(2));
    assert_eq!(c.next(), Some(3));
    assert_eq!(c.next(), Some(4));
    assert_eq!(c.next(), Some(5));
    assert_eq!(c.next(), None);
    assert_eq!(c.next(), None);
}
