use tray_shell::greet;

#[test]
fn greets_by_name() {
    assert_eq!(greet("World"), "Hello, World! You've been greeted from Rust!");
}

#[test]
fn greets_an_empty_name() {
    assert_eq!(greet(""), "Hello, ! You've been greeted from Rust!");
}

#[test]
fn greeting_keeps_the_name_as_it_is() {
    assert_eq!(greet("Zoë {} \"q\""), "Hello, Zoë {} \"q\"! You've been greeted from Rust!");
}
