use native_bridge::boundary::{add_numbers, fetch_reply, greet, greet_waving};

#[test]
fn add_two_and_three() {
    assert_eq!(add_numbers(2, 3), 5);
}

#[test]
fn add_at_the_edges() {
    assert_eq!(add_numbers(i32::MAX, 0), i32::MAX);
    assert_eq!(add_numbers(i32::MIN, 0), i32::MIN);
    assert_eq!(add_numbers(-7, 3), -4);
}

#[test]
fn echo_contains_input() {
    let r = greet("World");
    assert!(r.contains("World"));
    assert_eq!(r, "Hello World!");
}

#[test]
fn greet_empty_name() {
    assert_eq!(greet(""), "Hello !");
}

#[test]
fn greet_waving_exact() {
    assert_eq!(greet_waving("World"), "Hello 👋 World!");
}

#[test]
fn fetch_reply_both_outcomes() {
    assert_eq!(fetch_reply(&Ok("page".to_string())), "Google.ch says: page");
    assert_eq!(
        fetch_reply(&Err("timeout".to_string())),
        "Error while calling google: timeout"
    );
}
