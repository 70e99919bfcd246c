use tauri_demo::calculator::{calculate, evaluate, CalcError, Operation};
use tauri_demo::counter::{get_counter, increment_counter, Counter};
use tauri_demo::greeting::greet;
use tauri_demo::report::{completion_message, decimal_text};
use tauri_demo::text::same_text;

#[test]
fn calculate_add() {
    assert_eq!(calculate(2, 3, "add"), Ok(5));
    assert_eq!(calculate(-4, 9, "add"), Ok(5));
}

#[test]
fn calculate_subtract() {
    assert_eq!(calculate(2, 3, "subtract"), Ok(-1));
    assert_eq!(calculate(10, -5, "subtract"), Ok(15));
}

#[test]
fn calculate_multiply() {
    assert_eq!(calculate(6, 7, "multiply"), Ok(42));
    assert_eq!(calculate(-6, 7, "multiply"), Ok(-42));
}

#[test]
fn calculate_divide_truncates() {
    assert_eq!(calculate(10, 3, "divide"), Ok(3));
    assert_eq!(calculate(-7, 2, "divide"), Ok(-3));
    assert_eq!(calculate(7, -2, "divide"), Ok(-3));
    assert_eq!(calculate(-7, -2, "divide"), Ok(3));
}

#[test]
fn calculate_divide_by_zero() {
    assert_eq!(calculate(10, 0, "divide"), Err("Division by zero".to_string()));
    assert_eq!(calculate(0, 0, "divide"), Err("Division by zero".to_string()));
    assert_eq!(calculate(i32::MIN, 0, "divide"), Err("Division by zero".to_string()));
}

#[test]
fn calculate_unknown_operation() {
    assert_eq!(calculate(10, 3, "modulo"), Err("Unknown operation".to_string()));
    assert_eq!(calculate(0, 0, ""), Err("Unknown operation".to_string()));
    assert_eq!(calculate(1, 1, "Add"), Err("Unknown operation".to_string()));
    assert_eq!(calculate(1, 1, "add "), Err("Unknown operation".to_string()));
}

#[test]
fn calculate_wraps_on_overflow() {
    assert_eq!(calculate(i32::MAX, 1, "add"), Ok(i32::MIN));
    assert_eq!(calculate(i32::MIN, 1, "subtract"), Ok(i32::MAX));
    assert_eq!(calculate(i32::MAX, 2, "multiply"), Ok(-2));
    assert_eq!(calculate(i32::MIN, -1, "divide"), Ok(i32::MIN));
}

#[test]
fn evaluate_reports_error_kinds() {
    assert_eq!(evaluate(Operation::Divide, 5, 0), Err(CalcError::DivisionByZero));
    assert_eq!(evaluate(Operation::Add, 5, 0), Ok(5));
    assert_eq!(CalcError::UnknownOperation.message(), "Unknown operation");
    assert_eq!(CalcError::DivisionByZero.message(), "Division by zero");
}

#[test]
fn operation_names() {
    assert_eq!(Operation::from_name("add"), Some(Operation::Add));
    assert_eq!(Operation::from_name("subtract"), Some(Operation::Subtract));
    assert_eq!(Operation::from_name("multiply"), Some(Operation::Multiply));
    assert_eq!(Operation::from_name("divide"), Some(Operation::Divide));
    assert_eq!(Operation::from_name("modulo"), None);
}

#[test]
fn same_text_compares_characters() {
    assert!(same_text("", ""));
    assert!(same_text("héllo", "héllo"));
    assert!(!same_text("hello", "hellp"));
    assert!(!same_text("hell", "hello"));
}

#[test]
fn greet_world() {
    assert_eq!(greet("World"), "Hello, World! Welcome to Tauri 2.2!");
}

#[test]
fn greet_empty_name() {
    assert_eq!(greet(""), "Hello, ! Welcome to Tauri 2.2!");
}

#[test]
fn counter_starts_at_zero() {
    let c = Counter::new();
    assert_eq!(get_counter(&c), 0);
}

#[test]
fn counter_counts_sequential_increments() {
    let mut c = Counter::new();
    for i in 1..=25 {
        assert_eq!(increment_counter(&mut c), i);
    }
    assert_eq!(get_counter(&c), 25);
}

#[test]
fn counter_serialized_callers_lose_nothing() {
    let mut c = Counter::new();
    increment_counter(&mut c);
    let start = get_counter(&c);
    let mut seen = Vec::new();
    for _ in 0..8 {
        seen.push(increment_counter(&mut c));
    }
    seen.sort();
    seen.dedup();
    assert_eq!(seen.len(), 8);
    assert_eq!(get_counter(&c), start + 8);
}

#[test]
fn decimal_text_digits() {
    assert_eq!(decimal_text(0), "0");
    assert_eq!(decimal_text(7), "7");
    assert_eq!(decimal_text(10), "10");
    assert_eq!(decimal_text(305), "305");
    assert_eq!(decimal_text(u64::MAX), "18446744073709551615");
}

#[test]
fn completion_message_embeds_duration() {
    assert_eq!(completion_message(1), "Async operation completed after 1 seconds");
    assert_eq!(completion_message(0), "Async operation completed after 0 seconds");
    assert_eq!(completion_message(42), "Async operation completed after 42 seconds");
}
