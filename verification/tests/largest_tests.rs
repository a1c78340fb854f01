use primer::largest::{largest, Pair};
use std::cmp::Ordering;

#[test]
fn largest_of_numbers() {
    let nums: Vec<i32> = vec![1, 2, 3, 4, 5];
    assert_eq!(*largest(&nums), 5);
    assert_eq!(*largest(&[34, 50, 25, 100, 65]), 100);
    assert_eq!(*largest(&[-3, -1, -2]), -1);
}

#[test]
fn largest_of_chars() {
    let chars: Vec<char> = vec!['a', 'b', 'c'];
    assert_eq!(*largest(&chars), 'c');
    assert_eq!(*largest(&['y', 'm', 'a', 'q']), 'y');
}

#[test]
fn largest_of_one() {
    assert_eq!(*largest(&[7]), 7);
}

#[derive(Debug, PartialEq)]
struct Keyed {
    key: i32,
    tag: char,
}

impl PartialOrd for Keyed {
    fn partial_cmp(&self, other: &Keyed) -> Option<Ordering> {
        self.key.partial_cmp(&other.key)
    }
}

#[test]
fn the_first_of_equal_largest_items_is_found() {
    let items = [
        Keyed { key: 1, tag: 'a' },
        Keyed { key: 3, tag: 'b' },
        Keyed { key: 2, tag: 'c' },
        Keyed { key: 3, tag: 'd' },
    ];
    assert_eq!(largest(&items).tag, 'b');
}

#[test]
fn an_item_that_compares_with_nothing_is_passed_over() {
    let items = [1.0, f64::NAN, 0.5];
    assert_eq!(*largest(&items), 1.0);
    let items = [f64::NAN, 2.0];
    assert!(largest(&items).is_nan());
}

#[test]
fn the_larger_of_a_pair() {
    assert!(Pair::new(3, 2).x_is_largest());
    assert!(!Pair::new(2, 3).x_is_largest());
    assert!(!Pair::new(2, 2).x_is_largest());
    assert!(!Pair::new(f64::NAN, 1.0).x_is_largest());
    let pair = Pair::new('a', 'b');
    assert_eq!((pair.x, pair.y), ('a', 'b'));
}
