use rust_saf::{decimal_text, panic_message, Fault, Operation};

#[test]
fn decimal_text_of_single_digits() {
    let expected = ["0", "1", "2", "3", "4", "5", "6", "7", "8", "9"];
    for n in 0..10u32 {
        assert_eq!(decimal_text(n), expected[n as usize]);
    }
}

#[test]
fn decimal_text_of_longer_numbers() {
    assert_eq!(decimal_text(10), "10");
    assert_eq!(decimal_text(42), "42");
    assert_eq!(decimal_text(100), "100");
    assert_eq!(decimal_text(1009), "1009");
    assert_eq!(decimal_text(12_345), "12345");
    assert_eq!(decimal_text(u32::MAX), "4294967295");
}

#[test]
fn decimal_text_agrees_with_std() {
    let mut n: u32 = 1;
    for _ in 0..40 {
        assert_eq!(decimal_text(n), format!("{}", n));
        n = n.wrapping_mul(7).wrapping_add(13);
    }
}

#[test]
fn panic_message_with_location_and_owned_cause() {
    let message = panic_message(Some(("src/lib.rs", 118)), Some("no such document"), None);
    assert_eq!(message, "A panic occurred at src/lib.rs:118: no such document");
}

#[test]
fn panic_message_with_borrowed_cause() {
    let message = panic_message(Some(("a.rs", 12)), None, Some("boom"));
    assert_eq!(message, "A panic occurred at a.rs:12: boom");
}

#[test]
fn panic_message_prefers_the_owned_cause() {
    let message = panic_message(Some(("a.rs", 1)), Some("owned"), Some("borrowed"));
    assert_eq!(message, "A panic occurred at a.rs:1: owned");
}

#[test]
fn panic_message_without_location_or_cause() {
    let message = panic_message(None, None, None);
    assert_eq!(message, "A panic occurred at <unknown>:0: <cause unknown>");
}

#[test]
fn panic_message_without_location() {
    let message = panic_message(None, Some("Couldn't get JVM!"), None);
    assert_eq!(message, "A panic occurred at <unknown>:0: Couldn't get JVM!");
}

#[test]
fn panic_message_without_cause() {
    let message = panic_message(Some(("main.rs", 4_000_000_000)), None, None);
    assert_eq!(message, "A panic occurred at main.rs:4000000000: <cause unknown>");
}

#[test]
fn panic_message_keeps_text_that_is_not_ascii() {
    let message = panic_message(Some(("número.rs", 7)), None, Some("échec: ∅"));
    assert_eq!(message, "A panic occurred at número.rs:7: échec: ∅");
}

#[test]
fn faults_with_a_label() {
    assert_eq!(Fault::NoRuntime.label(), Some("Couldn't get JVM!"));
    assert_eq!(Fault::Failed(Operation::AttachThread).label(), Some("Couldn't attach thread!"));
    assert_eq!(Fault::Failed(Operation::DecodeUri).label(), Some("Couldn't get java string!"));
    assert_eq!(Fault::Failed(Operation::CreateDirectory).label(), Some("Couldn't create dir!"));
    assert_eq!(Fault::Failed(Operation::Write).label(), Some("Couldn't write to file!"));
    assert_eq!(Fault::Failed(Operation::ReadAll).label(), Some("Couldn't read file!"));
    assert_eq!(Fault::Failed(Operation::ListCreated).label(), Some("Couldn't list files!"));
    assert_eq!(Fault::Failed(Operation::Remove).label(), Some("Couldn't remove file!"));
}

#[test]
fn faults_without_a_label() {
    assert_eq!(Fault::Failed(Operation::OpenRuntime { handle: 7 }).label(), None);
    assert_eq!(Fault::Failed(Operation::Resolve).label(), None);
    assert_eq!(Fault::Failed(Operation::Inspect).label(), None);
    assert_eq!(Fault::Failed(Operation::CreateFile).label(), None);
    assert_eq!(Fault::Failed(Operation::OpenForWrite).label(), None);
    assert_eq!(Fault::Failed(Operation::OpenForRead).label(), None);
    assert_eq!(Fault::Panicked(Operation::CreateFile).label(), None);
    assert_eq!(Fault::Panicked(Operation::Remove).label(), None);
}
