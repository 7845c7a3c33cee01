//! The failures that a priority operation reports.

use crate::decimal::{decimal, decimal_text, lemma_decimal_text_writes_its_value};
use vstd::prelude::*;

verus! {

/// Why a priority operation failed.
#[derive(Debug, PartialEq, Eq)]
pub enum PriorityError {
    /// The platform call failed; `code` is the native error code, uninterpreted.
    Os { code: i32 },
    /// The caller's integer is no thread priority code; no platform call was made.
    InvalidArg { reason: String },
    /// The platform refused to set the priority; `reason` is its own text.
    GenericFailure { reason: String },
}

/// The mathematical content of a [`PriorityError`].
pub enum ErrorView {
    Os { code: i32 },
    InvalidArg { reason: Seq<char> },
    GenericFailure { reason: Seq<char> },
}

impl View for PriorityError {
    type V = ErrorView;

    open spec fn view(&self) -> ErrorView {
        match *self {
            PriorityError::Os { code } => ErrorView::Os { code },
            PriorityError::InvalidArg { reason } => ErrorView::InvalidArg { reason: reason@ },
            PriorityError::GenericFailure { reason } => ErrorView::GenericFailure {
                reason: reason@,
            },
        }
    }
}

/// The content of a result: the priority on success, the error's content on failure.
pub open spec fn outcome_view(outcome: Result<i32, PriorityError>) -> Result<i32, ErrorView> {
    match outcome {
        Ok(priority) => Ok(priority),
        Err(error) => Err(error@),
    }
}

/// The message for an integer that is no thread priority code: the rejected
/// value in decimal, followed by the statement that it is not valid.
pub open spec fn invalid_priority_text(value: int) -> Seq<char> {
    decimal_text(value) + " is not a valid priority on Windows"@
}

/// The message begins with the rejected value, and names no other: two
/// integers with the same message are the same.
pub proof fn lemma_message_names_the_value(value: int, other: int)
    ensures
        invalid_priority_text(value).subrange(0, decimal_text(value).len() as int)
            == decimal_text(value),
        invalid_priority_text(value) == invalid_priority_text(other) ==> value == other,
{
    if invalid_priority_text(value) == invalid_priority_text(other) {
        let rest = " is not a valid priority on Windows"@;
        let whole = invalid_priority_text(value);
        assert(decimal_text(value) =~= whole.subrange(0, whole.len() - rest.len()));
        assert(decimal_text(other) =~= whole.subrange(0, whole.len() - rest.len()));
        lemma_decimal_text_writes_its_value(value);
        lemma_decimal_text_writes_its_value(other);
    }
}

/// The error for `value`, an integer that is no thread priority code.
pub fn invalid_priority(value: i32) -> (error: PriorityError)
    ensures
        error@ == (ErrorView::InvalidArg { reason: invalid_priority_text(value as int) }),
{
    let mut reason = decimal(value);
    reason.append(" is not a valid priority on Windows");
    PriorityError::InvalidArg { reason }
}

} // verus!
