//! Decisions of the sample requests.
//!
//! Around the bootstrap workflow the application serves a handful of
//! requests — fetch the users, add a user, list a user's viewable files,
//! move a file, delete a file. Each request reads rows back from the
//! collaborator and then decides; the decisions stand here, on plain
//! values, and are verified.

use crate::errors::WorkflowError;
use vstd::prelude::*;

verus! {

/// How to match the user's full name when looking the user up.
#[derive(Clone, Copy, Debug, PartialEq, Eq, Structural)]
pub enum NameFilter {
    /// The stored full name equals the given one.
    Exact,
    /// The stored full name contains the given text.
    Containing,
}

/// A fetch that found no users is an error; otherwise the rows pass
/// through unchanged.
pub fn require_rows(rows: Vec<String>) -> (r: Result<Vec<String>, WorkflowError>)
    ensures
        rows@.len() > 0 ==> (r matches Ok(v) && v == rows),
        rows@.len() == 0 ==> r == Err::<Vec<String>, WorkflowError>(WorkflowError::Query),
{
    if rows.len() > 0 {
        Ok(rows)
    } else {
        Err(WorkflowError::Query)
    }
}

/// How to search for a user's files, given how many users matched the name
/// exactly: one match searches by exact name, none falls back to names
/// containing the text, and more than one is ambiguous and refused.
pub fn choose_name_filter(matched_users: usize) -> (r: Result<NameFilter, WorkflowError>)
    ensures
        matched_users == 1 ==> r == Ok::<NameFilter, WorkflowError>(NameFilter::Exact),
        matched_users == 0 ==> r == Ok::<NameFilter, WorkflowError>(NameFilter::Containing),
        matched_users > 1 ==> r == Err::<NameFilter, WorkflowError>(WorkflowError::Query),
{
    if matched_users == 1 {
        Ok(NameFilter::Exact)
    } else if matched_users == 0 {
        Ok(NameFilter::Containing)
    } else {
        Err(WorkflowError::Query)
    }
}

/// Whether a path update is committed: only when it matched something.
pub fn should_commit_update(updated_rows: usize) -> (commit: bool)
    ensures
        commit == (updated_rows > 0),
{
    updated_rows > 0
}

/// Whether a file deletion may proceed: exactly one file must stand at the
/// path — none or several is refused.
pub fn delete_allowed(files_found: usize) -> (r: Result<(), WorkflowError>)
    ensures
        files_found == 1 ==> r == Ok::<(), WorkflowError>(()),
        files_found != 1 ==> r == Err::<(), WorkflowError>(WorkflowError::Query),
{
    if files_found == 1 {
        Ok(())
    } else {
        Err(WorkflowError::Query)
    }
}

} // verus!
