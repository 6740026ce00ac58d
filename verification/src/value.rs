//! Typed query-result values.
//!
//! A query result row maps variable names to typed values produced by the
//! collaborator. Server responses are not statically guaranteed by the
//! client, so every value is a tagged variant, and extracting the wrong
//! kind is a typed, recoverable error rather than a fatal abort.

use crate::errors::WorkflowError;
use vstd::prelude::*;

verus! {

/// One value out of a query result row.
#[derive(Clone, Debug, PartialEq, Eq)]
pub enum QueryValue {
    /// A string attribute value.
    Text(String),
    /// An integer value, as an aggregate count returns.
    Long(i64),
    /// A boolean value.
    Flag(bool),
}

/// Extracts the integer out of a value, or reports the mismatch as a
/// recoverable `Query` error.
pub fn expect_long(v: &QueryValue) -> (r: Result<i64, WorkflowError>)
    ensures
        *v matches QueryValue::Long(n) ==> r == Ok::<i64, WorkflowError>(n),
        !(*v is Long) ==> r == Err::<i64, WorkflowError>(WorkflowError::Query),
{
    match v {
        QueryValue::Long(n) => Ok(*n),
        _ => Err(WorkflowError::Query),
    }
}

/// Extracts the string out of a value, or reports the mismatch as a
/// recoverable `Query` error.
pub fn expect_text(v: QueryValue) -> (r: Result<String, WorkflowError>)
    ensures
        v matches QueryValue::Text(s) ==> (r matches Ok(t) && t == s),
        !(v is Text) ==> r == Err::<String, WorkflowError>(WorkflowError::Query),
{
    match v {
        QueryValue::Text(s) => Ok(s),
        _ => Err(WorkflowError::Query),
    }
}

} // verus!
