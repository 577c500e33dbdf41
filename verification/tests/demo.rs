use demo_runner::arguments::echo_args;
use demo_runner::counter::{increment, run_workers};
use demo_runner::heap::{boxed_text, boxed_value, shared_text};
use demo_runner::messages::{describe, Message};
use demo_runner::registry::Registry;
use demo_runner::sequences::{double_all, filter_even};
use demo_runner::shapes::{format_hundredths, format_number, round_to_hundredths, Circle, Point};
use demo_runner::text::{calculate_length, custom_message};

#[test]
fn test_calculate_length() {
    let test_string = String::from("Rust");
    assert_eq!(calculate_length(&test_string), 4);
}

#[test]
fn test_calculate_length_keeps_owner_usable() {
    let owned_string = String::from("I am owned!");
    let length = calculate_length(&owned_string);
    assert_eq!(length, 11);
    assert_eq!(owned_string, "I am owned!");
}

#[test]
fn test_calculate_length_counts_characters() {
    assert_eq!(calculate_length(&String::new()), 0);
    assert_eq!(calculate_length(&String::from("caf\u{e9}")), 4);
}

#[test]
fn test_circle_area() {
    let circle = Circle { radius_hundredths: 200 };
    assert_eq!(circle.area_billionths(), 12_566_360_000);
}

#[test]
fn test_circle_area_text_two_decimals() {
    let circle = Circle { radius_hundredths: 500 };
    assert_eq!(circle.area_text(), "78.54");
    let circle = Circle { radius_hundredths: 200 };
    assert_eq!(circle.area_text(), "12.57");
}

#[test]
fn test_number_formatting() {
    assert_eq!(format_number(0), "0");
    assert_eq!(format_number(7), "7");
    assert_eq!(format_number(12345), "12345");
    assert_eq!(format_number(u64::MAX), "18446744073709551615");
    assert_eq!(format_hundredths(7854), "78.54");
    assert_eq!(format_hundredths(5), "0.05");
    assert_eq!(round_to_hundredths(78_539_750_000), 7854);
    assert_eq!(round_to_hundredths(12_566_360_000), 1257);
}

#[test]
fn test_point_fields() {
    let point = Point::new(10, 20);
    assert_eq!(point.x, 10);
    assert_eq!(point.y, 20);
}

#[test]
fn test_greeting_reply_contains_text() {
    let message = Message::Hello(String::from("Rust"));
    let reply = describe(&message);
    assert_eq!(reply, "Received message: Rust");
    assert!(reply.contains("Rust"));
}

#[test]
fn test_quit_takes_quit_branch() {
    let reply = describe(&Message::Quit);
    assert_eq!(reply, "Quitting");
    assert!(!reply.contains("Received message: "));
}

#[test]
fn test_doubling_preserves_order() {
    let numbers: Vec<i64> = vec![1, 2, 3, 4];
    assert_eq!(double_all(&numbers), vec![2, 4, 6, 8]);
    assert_eq!(double_all(&vec![]), Vec::<i64>::new());
    assert_eq!(double_all(&vec![-3, 0, 5]), vec![-6, 0, 10]);
}

#[test]
fn test_filtering_keeps_even_values_in_order() {
    let numbers: Vec<i64> = vec![1, 2, 3, 4];
    assert_eq!(filter_even(&numbers), vec![2, 4]);
    assert_eq!(filter_even(&vec![1, 3, 5]), Vec::<i64>::new());
    assert_eq!(filter_even(&vec![-4, -1, 0, 7, 8]), vec![-4, 0, 8]);
}

#[test]
fn test_counter_reaches_worker_count() {
    assert_eq!(run_workers(5), 5);
    assert_eq!(run_workers(0), 0);
    assert_eq!(run_workers(100), 100);
}

#[test]
fn test_increment_adds_one() {
    let mut counter: u64 = 0;
    increment(&mut counter);
    assert_eq!(counter, 1);
    increment(&mut counter);
    assert_eq!(counter, 2);
}

#[test]
fn test_boxed_and_shared_values() {
    let boxed = boxed_value(42);
    assert_eq!(*boxed, 42);
    let boxed_string = boxed_text(String::from("I live on the heap!"));
    assert_eq!(boxed_string.as_str(), "I live on the heap!");
    let shared = shared_text(String::from("Shared"));
    assert_eq!(shared.as_str(), "Shared");
}

#[test]
fn test_registry_two_entries() {
    let mut registry = Registry::new();
    registry.insert(String::from("Key1"), 100);
    registry.insert(String::from("Key2"), 200);
    assert_eq!(registry.len(), 2);
    assert_eq!(registry.get(&String::from("Key1")), Some(100));
    assert_eq!(registry.get(&String::from("Key2")), Some(200));
    assert_eq!(registry.get(&String::from("Key3")), None);
    let mut seen: Vec<(String, i64)> = registry.pairs().clone();
    seen.sort();
    assert_eq!(
        seen,
        vec![(String::from("Key1"), 100), (String::from("Key2"), 200)]
    );
}

#[test]
fn test_registry_overwrites_existing_key() {
    let mut registry = Registry::new();
    registry.insert(String::from("Key1"), 100);
    registry.insert(String::from("Key1"), 300);
    assert_eq!(registry.len(), 1);
    assert_eq!(registry.get(&String::from("Key1")), Some(300));
}

#[test]
fn test_macro_style_message() {
    assert_eq!(
        custom_message("Hello from a macro!"),
        "Custom macro says: Hello from a macro!"
    );
    assert_eq!(custom_message(""), "Custom macro says: ");
}

#[test]
fn test_echo_args_with_extras() {
    let args = vec![
        String::from("program"),
        String::from("alpha"),
        String::from("beta"),
    ];
    let tail = echo_args(&args);
    assert_eq!(tail, Some(vec![String::from("alpha"), String::from("beta")]));
}

#[test]
fn test_echo_args_without_extras() {
    assert_eq!(echo_args(&vec![String::from("program")]), None);
    assert_eq!(echo_args(&Vec::new()), None);
}
