use completion_guard::decimal::append_decimal;
use completion_guard::{interruption_message, CompletionGuard, ScopeExit, INTERRUPTION_LEAD};

#[test]
fn guard_keeps_the_expected_count() {
    assert_eq!(CompletionGuard::new(3).expected(), 3);
    assert_eq!(CompletionGuard::new(0).expected(), 0);
}

#[test]
fn matching_count_is_complete() {
    let guard = CompletionGuard::new(3);
    assert_eq!(guard.inspect(3), ScopeExit::Complete);
}

#[test]
fn lower_count_is_interrupted() {
    let guard = CompletionGuard::new(3);
    assert_eq!(guard.inspect(0), ScopeExit::Interrupted { observed: 0 });
    assert_eq!(guard.inspect(1), ScopeExit::Interrupted { observed: 1 });
    assert_eq!(guard.inspect(2), ScopeExit::Interrupted { observed: 2 });
}

#[test]
fn any_other_count_is_interrupted() {
    let guard = CompletionGuard::new(3);
    assert_eq!(guard.inspect(4), ScopeExit::Interrupted { observed: 4 });
    assert_eq!(guard.inspect(u32::MAX), ScopeExit::Interrupted { observed: u32::MAX });
}

#[test]
fn guard_of_no_steps() {
    let guard = CompletionGuard::new(0);
    assert_eq!(guard.inspect(0), ScopeExit::Complete);
    assert_eq!(guard.inspect(1), ScopeExit::Interrupted { observed: 1 });
}

#[test]
fn message_names_the_count() {
    assert_eq!(interruption_message(0), "Transaction dropped before completion: 0");
    assert_eq!(interruption_message(1), "Transaction dropped before completion: 1");
    assert_eq!(interruption_message(2), "Transaction dropped before completion: 2");
}

#[test]
fn message_begins_with_the_lead() {
    assert_eq!(INTERRUPTION_LEAD, "Transaction dropped before completion: ");
    assert!(interruption_message(2).starts_with(INTERRUPTION_LEAD));
    assert_eq!(interruption_message(2).len(), INTERRUPTION_LEAD.len() + 1);
}

#[test]
fn message_of_long_counts() {
    assert_eq!(interruption_message(10), "Transaction dropped before completion: 10");
    assert_eq!(interruption_message(907), "Transaction dropped before completion: 907");
    assert_eq!(
        interruption_message(u32::MAX),
        "Transaction dropped before completion: 4294967295"
    );
}

#[test]
fn messages_of_different_counts_differ() {
    assert_ne!(interruption_message(1), interruption_message(2));
    assert_ne!(interruption_message(1), interruption_message(10));
    assert_ne!(interruption_message(10), interruption_message(100));
}

#[test]
fn decimal_is_appended_to_what_is_there() {
    let mut text = String::from("count=");
    append_decimal(&mut text, 42);
    assert_eq!(text, "count=42");
    append_decimal(&mut text, 0);
    assert_eq!(text, "count=420");
}

#[test]
fn decimal_of_every_digit_and_of_the_bounds() {
    let mut text = String::new();
    append_decimal(&mut text, 1234567890);
    assert_eq!(text, "1234567890");
    let mut text = String::new();
    append_decimal(&mut text, 9);
    assert_eq!(text, "9");
    let mut text = String::new();
    append_decimal(&mut text, 1000000000);
    assert_eq!(text, "1000000000");
    let mut text = String::new();
    append_decimal(&mut text, 99);
    assert_eq!(text, "99");
    let mut text = String::new();
    append_decimal(&mut text, 100);
    assert_eq!(text, "100");
}

#[test]
fn decimal_agrees_with_the_standard_notation() {
    let mut n: u32 = 1;
    for _ in 0..200 {
        let mut text = String::new();
        append_decimal(&mut text, n);
        assert_eq!(text, n.to_string());
        n = n.wrapping_mul(2654435761).wrapping_add(12345);
    }
}
