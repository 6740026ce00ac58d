use db_bootstrap::errors::WorkflowError;
use db_bootstrap::query::count_users_query;
use db_bootstrap::query::delete_file_query;
use db_bootstrap::query::fetch_users_query;
use db_bootstrap::query::file_by_path_query;
use db_bootstrap::query::files_by_user_query;
use db_bootstrap::query::insert_person_query;
use db_bootstrap::query::is_safe_literal;
use db_bootstrap::query::update_filepath_query;
use db_bootstrap::query::user_by_name_query;

#[test]
fn fixed_queries_are_exact() {
    assert_eq!(fetch_users_query(), "match $u isa user; fetch $u: full-name, email;");
    assert_eq!(count_users_query(), "match $u isa user; get $u; count;");
}

#[test]
fn insert_person_query_splices_both_parameters() {
    let q = insert_person_query("Jack Keeper", "jk@vaticle.com").unwrap();
    assert_eq!(
        q,
        "insert $p isa person, has full-name $fn, has email $e; \
         $fn == 'Jack Keeper'; $e == 'jk@vaticle.com';"
    );
}

#[test]
fn insert_person_query_rejects_quote_injection() {
    let r = insert_person_query("Jack' isa admin; $x == '", "jk@vaticle.com");
    assert_eq!(r, Err(WorkflowError::Insert));
    let r = insert_person_query("Jack Keeper", "jk\\vaticle");
    assert_eq!(r, Err(WorkflowError::Insert));
}

#[test]
fn user_by_name_query_is_exact() {
    let q = user_by_name_query("Kevin Morrison").unwrap();
    assert_eq!(q, "match $u isa user, has full-name 'Kevin Morrison'; get;");
    assert_eq!(user_by_name_query("a'b"), Err(WorkflowError::Query));
}

#[test]
fn files_query_matches_exactly_for_one_user() {
    let q = files_by_user_query("Kevin Morrison", true).unwrap();
    assert_eq!(
        q,
        "match $fn == 'Kevin Morrison'; $u isa user, has full-name $fn; \
         $p($u, $pa) isa permission; $o isa object, has path $fp; \
         $pa($o, $va) isa access; $va isa action, has name 'view_file'; \
         get $fp; sort $fp asc;"
    );
}

#[test]
fn files_query_falls_back_to_containment() {
    let q = files_by_user_query("Kevin", false).unwrap();
    assert!(q.starts_with("match $fn contains 'Kevin'; "));
    assert!(q.ends_with("get $fp; sort $fp asc;"));
    assert_eq!(files_by_user_query("Kev'in", false), Err(WorkflowError::Query));
}

#[test]
fn update_filepath_query_is_exact() {
    let q = update_filepath_query("lzfkn.java", "lzfkn2.java").unwrap();
    assert_eq!(
        q,
        "match $f isa file, has path $old_path; $old_path = 'lzfkn.java'; \
         delete $f has $old_path; insert $f has path $new_path; \
         $new_path = 'lzfkn2.java';"
    );
    assert_eq!(update_filepath_query("a", "b'c"), Err(WorkflowError::Query));
}

#[test]
fn file_lookup_and_delete_queries_are_exact() {
    assert_eq!(
        file_by_path_query("lzfkn2.java").unwrap(),
        "match $f isa file, has path 'lzfkn2.java'; get;"
    );
    assert_eq!(
        delete_file_query("lzfkn2.java").unwrap(),
        "match $f isa file, has path 'lzfkn2.java'; delete $f isa file;"
    );
    assert_eq!(delete_file_query("x';delete $all"), Err(WorkflowError::Query));
}

#[test]
fn safety_check_flags_exactly_quotes_and_backslashes() {
    assert!(is_safe_literal("Kevin Morrison"));
    assert!(is_safe_literal(""));
    assert!(is_safe_literal("jk@vaticle.com; drop"));
    assert!(!is_safe_literal("O'Brien"));
    assert!(!is_safe_literal("dir\\file"));
}
