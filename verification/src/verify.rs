//! Interpretation of the verification count query's answer.
//!
//! The last workflow step runs an aggregate count query and compares the
//! observed count with the expected one. An aggregate that comes back
//! without a value is an invariant violation and surfaces as a `Query`
//! error, never as a silently wrong count.

use crate::errors::WorkflowError;
use crate::value::QueryValue;
use vstd::prelude::*;

verus! {

/// What the verification step owes for each possible aggregate answer:
/// an integer answer yields the comparison with the expected count; a
/// missing or non-integer answer is a `Query` error.
pub open spec fn count_answer(response: Option<QueryValue>, expected: i64) -> Result<
    bool,
    WorkflowError,
> {
    match response {
        Some(QueryValue::Long(n)) => Ok(n == expected),
        _ => Err(WorkflowError::Query),
    }
}

/// Decides the verification outcome from the aggregate query's answer.
///
/// Returns whether the observed count equals the expected one; a missing
/// answer, or one that is not an integer, is a `Query` error.
pub fn interpret_count(response: Option<QueryValue>, expected: i64) -> (r: Result<
    bool,
    WorkflowError,
>)
    ensures
        r == count_answer(response, expected),
{
    match response {
        Some(QueryValue::Long(n)) => Ok(n == expected),
        _ => Err(WorkflowError::Query),
    }
}

/// Maps a verification outcome to the workflow's result: a matching count
/// passes, a mismatching one is reported with both values.
pub fn check_verification(observed: i64, expected: i64) -> (r: Result<(), WorkflowError>)
    ensures
        observed == expected ==> r == Ok::<(), WorkflowError>(()),
        observed != expected ==> r == Err::<(), WorkflowError>(
            WorkflowError::VerificationFailed { expected, observed },
        ),
{
    if observed == expected {
        Ok(())
    } else {
        Err(WorkflowError::VerificationFailed { expected, observed })
    }
}

} // verus!
