//! Validation outcomes and values that carry one.

use vstd::prelude::*;

verus! {

/// The ways in which the validation of a value can fail.
#[derive(Debug, Clone, PartialEq)]
pub enum ValidationError {
    /// The value lies outside the range its field allows.
    OutOfRange,
    /// A failure described by a message of the caller's choosing.
    CustomWithMessage(String),
}

impl ValidationError {
    /// The text shown to the user for this failure.
    pub open spec fn message(self) -> Seq<char> {
        match self {
            ValidationError::OutOfRange => "The value is out of range."@,
            ValidationError::CustomWithMessage(msg) => msg@,
        }
    }

    /// The text shown to the user for this failure: a fixed sentence for
    /// `OutOfRange`, the caller's message otherwise.
    pub fn to_string(&self) -> (text: String)
        ensures
            text@ == self.message(),
    {
        match self {
            ValidationError::OutOfRange => "The value is out of range.".to_owned(),
            ValidationError::CustomWithMessage(msg) => msg.clone(),
        }
    }
}

/// Whether a validation result counts towards a valid editor.
pub open spec fn passes(result: Result<(), ValidationError>) -> bool {
    result is Ok
}

/// The validation rule of a value that has none: every value passes.
pub fn default_validation_cb<T>(_val: &T) -> (result: Result<(), ValidationError>)
    ensures
        result is Ok,
{
    Ok(())
}

/// A value together with the outcome of its validation rule.
///
/// The rule runs once, when the value is wrapped; the outcome travels with the
/// value and is never computed again.
pub struct ValidatedProperty<T> {
    /// The value that was validated.
    pub value: T,
    /// What the rule said of `value`.
    pub validation_result: Result<(), ValidationError>,
}

impl<T> ValidatedProperty<T> {
    /// Wraps a value without a rule: it is valid.
    pub fn unvalidated(value: T) -> (validated: Self)
        ensures
            validated.value == value,
            validated.validation_result is Ok,
    {
        Self::new(value, default_validation_cb::<T>)
    }

    /// Wraps a value and runs `validation_cb` on it, once, keeping the outcome.
    pub fn new<F: FnOnce(&T) -> Result<(), ValidationError>>(value: T, validation_cb: F) -> (validated:
        Self)
        requires
            call_requires(validation_cb, (&value,)),
        ensures
            validated.value == value,
            call_ensures(validation_cb, (&value,), validated.validation_result),
    {
        let validation_result = validation_cb(&value);
        Self { value, validation_result }
    }
}

} // verus!
