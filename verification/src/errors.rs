//! The error taxonomy of the bootstrap workflow.
//!
//! Every call across the collaborator boundary can fail; each step of the
//! workflow surfaces its own kind of failure, so a caller can tell a refused
//! schema from a constraint-violating dataset or a dead connection.
//! `VerificationFailed` is special: the count query itself succeeded, but
//! the observed count was not the expected one, so it carries both values.

use vstd::prelude::*;

verus! {

/// A typed failure of one workflow step.
#[derive(Clone, Copy, Debug, PartialEq, Eq, Structural)]
pub enum WorkflowError {
    /// The connection to the server could not be established or used.
    Connection,
    /// The database existence check, deletion or creation failed.
    Database,
    /// The schema definition was malformed or its commit was refused.
    Schema,
    /// An insertion violated the schema or the data commit was refused.
    Insert,
    /// The verification query was malformed, was rejected, or returned
    /// no value where one was owed.
    Query,
    /// An operation was attempted on a closed session or transaction.
    SessionClosed,
    /// The count query succeeded but the observed count differs from the
    /// expected one.
    VerificationFailed { expected: i64, observed: i64 },
}

impl WorkflowError {
    /// True for the one error that reports a successfully executed but
    /// semantically wrong outcome rather than a failed collaborator call.
    pub fn is_verification_failure(&self) -> (r: bool)
        ensures
            r == (self is VerificationFailed),
    {
        match self {
            WorkflowError::VerificationFailed { .. } => true,
            _ => false,
        }
    }
}

} // verus!
