use greeter::{simple_function, User};

#[test]
fn greeting_constant() {
    assert_eq!(simple_function(), "Hello from Rust");
}

#[test]
fn greet_alice() {
    let u = User::new(String::from("Alice"));
    assert_eq!(u.greet(), "Hello, Alice!");
}

#[test]
fn greet_empty_name() {
    let u = User::new(String::new());
    assert_eq!(u.greet(), "Hello, !");
}

#[test]
fn greet_special_characters() {
    let u = User::new(String::from("O'Brien"));
    assert_eq!(u.greet(), "Hello, O'Brien!");
}

#[test]
fn greet_twice_identical() {
    let u = User::new(String::from("Alice"));
    assert_eq!(u.greet(), u.greet());
}
