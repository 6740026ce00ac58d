//! Parameterized query construction.
//!
//! The workflow and the sample requests build query text around caller-given
//! values (names, emails, file paths). Splicing raw text into a query is an
//! injection risk, so every parameter is checked first: it may not contain
//! a single quote or a backslash, the characters that could break out of a
//! quoted literal. A parameter that fails the check is rejected with a
//! typed error; the query text is never built around it.

use crate::errors::WorkflowError;
use vstd::prelude::*;
use vstd::string::StrSliceExecFns;
use vstd::string::StringExecFns;

verus! {

/// A character that may stand inside a single-quoted query literal without
/// changing the query's shape.
pub open spec fn char_allowed(c: char) -> bool {
    c != '\'' && c != '\\'
}

/// The injection-safety condition: every character of the parameter may
/// stand inside a single-quoted query literal.
pub open spec fn literal_safe(s: Seq<char>) -> bool {
    forall|i: int| 0 <= i < s.len() ==> char_allowed(s[i])
}

/// Checks the injection-safety condition on a parameter.
pub fn is_safe_literal(s: &str) -> (b: bool)
    ensures
        b == literal_safe(s@),
{
    let len = s.unicode_len();
    let mut i: usize = 0;
    while i < len
        invariant
            len == s@.len(),
            i <= len,
            forall|k: int| 0 <= k < i ==> char_allowed(s@[k]),
        decreases len - i,
    {
        let c = s.get_char(i);
        if c == '\'' || c == '\\' {
            proof {
                assert(!char_allowed(s@[i as int]));
            }
            return false;
        }
        i += 1;
    }
    true
}

/// The query that fetches every user with full name and email.
pub open spec fn fetch_users_query_text() -> Seq<char> {
    "match $u isa user; fetch $u: full-name, email;"@
}

/// Builds the query that fetches every user with full name and email.
pub fn fetch_users_query() -> (q: String)
    ensures
        q@ == fetch_users_query_text(),
{
    "match $u isa user; fetch $u: full-name, email;".to_owned()
}

/// The aggregate query that counts the users.
pub open spec fn count_users_query_text() -> Seq<char> {
    "match $u isa user; get $u; count;"@
}

/// Builds the aggregate query that counts the users.
pub fn count_users_query() -> (q: String)
    ensures
        q@ == count_users_query_text(),
{
    "match $u isa user; get $u; count;".to_owned()
}

/// The statement that inserts one person with the given full name and email.
pub open spec fn insert_person_query_text(name: Seq<char>, email: Seq<char>) -> Seq<char> {
    "insert $p isa person, has full-name $fn, has email $e; $fn == '"@ + name + "'; $e == '"@
        + email + "';"@
}

/// Builds the statement that inserts one person, rejecting parameters that
/// could break out of their quoted literals.
pub fn insert_person_query(name: &str, email: &str) -> (r: Result<String, WorkflowError>)
    ensures
        literal_safe(name@) && literal_safe(email@) ==> (r matches Ok(q) && q@
            == insert_person_query_text(name@, email@)),
        !(literal_safe(name@) && literal_safe(email@)) ==> r == Err::<String, WorkflowError>(
            WorkflowError::Insert,
        ),
{
    if !is_safe_literal(name) || !is_safe_literal(email) {
        return Err(WorkflowError::Insert);
    }
    let mut q = String::new();
    q.append("insert $p isa person, has full-name $fn, has email $e; $fn == '");
    q.append(name);
    q.append("'; $e == '");
    q.append(email);
    q.append("';");
    proof {
        assert(q@ =~= insert_person_query_text(name@, email@));
    }
    Ok(q)
}

/// The query that looks one user up by exact full name.
pub open spec fn user_by_name_query_text(name: Seq<char>) -> Seq<char> {
    "match $u isa user, has full-name '"@ + name + "'; get;"@
}

/// Builds the query that looks one user up by exact full name.
pub fn user_by_name_query(name: &str) -> (r: Result<String, WorkflowError>)
    ensures
        literal_safe(name@) ==> (r matches Ok(q) && q@ == user_by_name_query_text(name@)),
        !literal_safe(name@) ==> r == Err::<String, WorkflowError>(WorkflowError::Query),
{
    if !is_safe_literal(name) {
        return Err(WorkflowError::Query);
    }
    let mut q = String::new();
    q.append("match $u isa user, has full-name '");
    q.append(name);
    q.append("'; get;");
    proof {
        assert(q@ =~= user_by_name_query_text(name@));
    }
    Ok(q)
}

/// The head of the viewable-files query: how the user's full name is
/// matched, exactly or as a contained substring.
pub open spec fn files_match_head(name: Seq<char>, exact: bool) -> Seq<char> {
    if exact {
        "match $fn == '"@ + name + "'; "@
    } else {
        "match $fn contains '"@ + name + "'; "@
    }
}

/// The common tail of the viewable-files query: the permission pattern and
/// the sorted projection onto the file paths.
pub open spec fn files_pattern_tail() -> Seq<char> {
    "$u isa user, has full-name $fn; $p($u, $pa) isa permission; $o isa object, has path $fp; $pa($o, $va) isa access; $va isa action, has name 'view_file'; get $fp; sort $fp asc;"@
}

/// The query for the files a user may view, by exact or containing name.
pub open spec fn files_by_user_query_text(name: Seq<char>, exact: bool) -> Seq<char> {
    files_match_head(name, exact) + files_pattern_tail()
}

/// Builds the query for the files a user may view: the name is matched
/// exactly, or as a substring of the stored full names.
pub fn files_by_user_query(name: &str, exact: bool) -> (r: Result<String, WorkflowError>)
    ensures
        literal_safe(name@) ==> (r matches Ok(q) && q@ == files_by_user_query_text(name@, exact)),
        !literal_safe(name@) ==> r == Err::<String, WorkflowError>(WorkflowError::Query),
{
    if !is_safe_literal(name) {
        return Err(WorkflowError::Query);
    }
    let mut q = String::new();
    if exact {
        q.append("match $fn == '");
    } else {
        q.append("match $fn contains '");
    }
    q.append(name);
    q.append("'; ");
    q.append(
        "$u isa user, has full-name $fn; $p($u, $pa) isa permission; $o isa object, has path $fp; $pa($o, $va) isa access; $va isa action, has name 'view_file'; get $fp; sort $fp asc;",
    );
    proof {
        assert(q@ =~= files_by_user_query_text(name@, exact));
    }
    Ok(q)
}

/// The statement that moves a file from one path to another.
pub open spec fn update_filepath_query_text(old_path: Seq<char>, new_path: Seq<char>) -> Seq<
    char,
> {
    "match $f isa file, has path $old_path; $old_path = '"@ + old_path
        + "'; delete $f has $old_path; insert $f has path $new_path; $new_path = '"@ + new_path
        + "';"@
}

/// Builds the statement that moves a file from one path to another.
pub fn update_filepath_query(old_path: &str, new_path: &str) -> (r: Result<String, WorkflowError>)
    ensures
        literal_safe(old_path@) && literal_safe(new_path@) ==> (r matches Ok(q) && q@
            == update_filepath_query_text(old_path@, new_path@)),
        !(literal_safe(old_path@) && literal_safe(new_path@)) ==> r == Err::<
            String,
            WorkflowError,
        >(WorkflowError::Query),
{
    if !is_safe_literal(old_path) || !is_safe_literal(new_path) {
        return Err(WorkflowError::Query);
    }
    let mut q = String::new();
    q.append("match $f isa file, has path $old_path; $old_path = '");
    q.append(old_path);
    q.append("'; delete $f has $old_path; insert $f has path $new_path; $new_path = '");
    q.append(new_path);
    q.append("';");
    proof {
        assert(q@ =~= update_filepath_query_text(old_path@, new_path@));
    }
    Ok(q)
}

/// The query that looks a file up by its path.
pub open spec fn file_by_path_query_text(path: Seq<char>) -> Seq<char> {
    "match $f isa file, has path '"@ + path + "'; get;"@
}

/// Builds the query that looks a file up by its path.
pub fn file_by_path_query(path: &str) -> (r: Result<String, WorkflowError>)
    ensures
        literal_safe(path@) ==> (r matches Ok(q) && q@ == file_by_path_query_text(path@)),
        !literal_safe(path@) ==> r == Err::<String, WorkflowError>(WorkflowError::Query),
{
    if !is_safe_literal(path) {
        return Err(WorkflowError::Query);
    }
    let mut q = String::new();
    q.append("match $f isa file, has path '");
    q.append(path);
    q.append("'; get;");
    proof {
        assert(q@ =~= file_by_path_query_text(path@));
    }
    Ok(q)
}

/// The statement that deletes the file at a path.
pub open spec fn delete_file_query_text(path: Seq<char>) -> Seq<char> {
    "match $f isa file, has path '"@ + path + "'; delete $f isa file;"@
}

/// Builds the statement that deletes the file at a path.
pub fn delete_file_query(path: &str) -> (r: Result<String, WorkflowError>)
    ensures
        literal_safe(path@) ==> (r matches Ok(q) && q@ == delete_file_query_text(path@)),
        !literal_safe(path@) ==> r == Err::<String, WorkflowError>(WorkflowError::Query),
{
    if !is_safe_literal(path) {
        return Err(WorkflowError::Query);
    }
    let mut q = String::new();
    q.append("match $f isa file, has path '");
    q.append(path);
    q.append("'; delete $f isa file;");
    proof {
        assert(q@ =~= delete_file_query_text(path@));
    }
    Ok(q)
}

} // verus!
