use rust_tutorial_webserver::decimal::push_decimal;
use rust_tutorial_webserver::{PoolCreationError, ThreadPool};

fn refused() -> PoolCreationError {
    match ThreadPool::<u8>::build(0) {
        Err(error) => error,
        Ok(_) => panic!("a pool without workers was built"),
    }
}

#[test]
fn message_names_the_refused_size() {
    let error = refused();
    assert_eq!(0, error.given_size());
    assert_eq!(
        "Error creating ThreadPool: Invalid size. Given size: 0",
        error.message()
    );
}

#[test]
fn error_can_be_shown_for_debugging() {
    assert_eq!("PoolCreationError { given_size: 0 }", format!("{:?}", refused()));
}

fn decimal_of(n: usize) -> String {
    let mut text = String::new();
    push_decimal(&mut text, n);
    text
}

#[test]
fn decimal_of_small_numbers() {
    assert_eq!("0", decimal_of(0));
    assert_eq!("7", decimal_of(7));
    assert_eq!("9", decimal_of(9));
    assert_eq!("10", decimal_of(10));
    assert_eq!("11", decimal_of(11));
    assert_eq!("99", decimal_of(99));
    assert_eq!("100", decimal_of(100));
    assert_eq!("101", decimal_of(101));
}

#[test]
fn decimal_of_large_numbers() {
    assert_eq!("1234567890", decimal_of(1234567890));
    assert_eq!("4294967295", decimal_of(4294967295));
    assert_eq!(usize::MAX.to_string(), decimal_of(usize::MAX));
}

#[test]
fn decimal_agrees_with_the_standard_rendering() {
    let mut n: usize = 1;
    for _ in 0..60 {
        assert_eq!(n.to_string(), decimal_of(n));
        assert_eq!((n - 1).to_string(), decimal_of(n - 1));
        n = n.wrapping_mul(3).wrapping_add(1);
    }
}

#[test]
fn decimal_is_appended_to_what_is_there() {
    let mut text = String::from("size ");
    push_decimal(&mut text, 42);
    assert_eq!("size 42", text);
    push_decimal(&mut text, 0);
    assert_eq!("size 420", text);
}
