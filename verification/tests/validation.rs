use egui_property_editor::{default_validation_cb, ValidatedProperty, ValidationError};
use std::cell::Cell;

#[test]
fn out_of_range_has_a_fixed_text() {
    assert_eq!(ValidationError::OutOfRange.to_string(), "The value is out of range.");
}

#[test]
fn custom_failure_shows_its_message() {
    let error = ValidationError::CustomWithMessage("No zero allowed".to_string());
    assert_eq!(error.to_string(), "No zero allowed");
}

#[test]
fn custom_failure_with_empty_message_shows_nothing() {
    let error = ValidationError::CustomWithMessage(String::new());
    assert_eq!(error.to_string(), "");
}

#[test]
fn failures_compare_by_kind_and_message() {
    assert_eq!(ValidationError::OutOfRange, ValidationError::OutOfRange);
    assert_ne!(
        ValidationError::OutOfRange,
        ValidationError::CustomWithMessage("The value is out of range.".to_string())
    );
    assert_ne!(
        ValidationError::CustomWithMessage("a".to_string()),
        ValidationError::CustomWithMessage("b".to_string())
    );
}

#[test]
fn default_rule_accepts_every_value() {
    assert_eq!(default_validation_cb(&0u8), Ok(()));
    assert_eq!(default_validation_cb(&"anything"), Ok(()));
    assert_eq!(default_validation_cb(&Some(-3i64)), Ok(()));
}

#[test]
fn unvalidated_value_is_valid() {
    let validated = ValidatedProperty::unvalidated(5u32);
    assert_eq!(validated.value, 5);
    assert_eq!(validated.validation_result, Ok(()));
}

#[test]
fn rule_that_accepts_gives_ok() {
    let validated = ValidatedProperty::new(7i32, |value| {
        if *value == 0 {
            Err(ValidationError::OutOfRange)
        } else {
            Ok(())
        }
    });
    assert_eq!(validated.value, 7);
    assert_eq!(validated.validation_result, Ok(()));
}

#[test]
fn rule_that_rejects_gives_its_failure() {
    let validated = ValidatedProperty::new(0i32, |value| {
        if *value == 0 {
            Err(ValidationError::OutOfRange)
        } else {
            Ok(())
        }
    });
    assert_eq!(validated.value, 0);
    assert_eq!(validated.validation_result, Err(ValidationError::OutOfRange));
}

#[test]
fn rule_with_message_gives_that_message() {
    let text = "Mixed Case".to_string();
    let validated = ValidatedProperty::new(text, |value| {
        if value.to_lowercase() == *value {
            Ok(())
        } else {
            Err(ValidationError::CustomWithMessage(
                "Everything should be lowercase".to_string(),
            ))
        }
    });
    assert_eq!(
        validated.validation_result,
        Err(ValidationError::CustomWithMessage("Everything should be lowercase".to_string()))
    );
}

#[test]
fn rule_runs_once_when_the_value_is_wrapped() {
    let calls = Cell::new(0u32);
    let validated = ValidatedProperty::new(1u8, |_| {
        calls.set(calls.get() + 1);
        Ok(())
    });
    assert_eq!(calls.get(), 1);
    assert_eq!(validated.validation_result, Ok(()));
    assert_eq!(calls.get(), 1);
}

#[test]
fn rule_sees_the_value_behind_a_reference() {
    let mut number = 0usize;
    let validated = ValidatedProperty::new(&mut number, |value| {
        if **value == 0 {
            Err(ValidationError::CustomWithMessage("No zero allowed".to_string()))
        } else {
            Ok(())
        }
    });
    assert_eq!(
        validated.validation_result,
        Err(ValidationError::CustomWithMessage("No zero allowed".to_string()))
    );
    *validated.value = 4;
    assert_eq!(number, 4);
}
