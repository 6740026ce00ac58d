use db_bootstrap::errors::WorkflowError;
use db_bootstrap::model::apply_bootstrap;
use db_bootstrap::model::DbSnapshot;
use db_bootstrap::requests::choose_name_filter;
use db_bootstrap::requests::delete_allowed;
use db_bootstrap::requests::require_rows;
use db_bootstrap::requests::should_commit_update;
use db_bootstrap::requests::NameFilter;

#[test]
fn bootstrap_effect_is_idempotent() {
    let empty = DbSnapshot { exists: false, schema: String::new(), entity_count: 0 };
    let once = apply_bootstrap(&empty, "define user sub entity;", 3);
    let twice = apply_bootstrap(&once, "define user sub entity;", 3);
    assert_eq!(once.exists, twice.exists);
    assert_eq!(once.schema, twice.schema);
    assert_eq!(once.entity_count, twice.entity_count);
}

#[test]
fn bootstrap_replaces_rather_than_merges() {
    let full = DbSnapshot {
        exists: true,
        schema: "define file sub entity;".to_string(),
        entity_count: 41,
    };
    let empty = DbSnapshot { exists: false, schema: String::new(), entity_count: 0 };
    let from_full = apply_bootstrap(&full, "define user sub entity;", 3);
    let from_empty = apply_bootstrap(&empty, "define user sub entity;", 3);
    // The post-state does not depend on what stood under the name before.
    assert_eq!(from_full.exists, from_empty.exists);
    assert_eq!(from_full.schema, from_empty.schema);
    assert_eq!(from_full.entity_count, from_empty.entity_count);
    assert!(from_full.exists);
    assert_eq!(from_full.entity_count, 3);
    assert_eq!(from_full.schema, "define user sub entity;");
}

#[test]
fn requests_decide_on_row_counts() {
    assert_eq!(require_rows(vec!["row".to_string()]), Ok(vec!["row".to_string()]));
    assert_eq!(require_rows(Vec::new()), Err(WorkflowError::Query));

    assert_eq!(choose_name_filter(1), Ok(NameFilter::Exact));
    assert_eq!(choose_name_filter(0), Ok(NameFilter::Containing));
    assert_eq!(choose_name_filter(2), Err(WorkflowError::Query));

    assert!(should_commit_update(1));
    assert!(!should_commit_update(0));

    assert_eq!(delete_allowed(1), Ok(()));
    assert_eq!(delete_allowed(0), Err(WorkflowError::Query));
    assert_eq!(delete_allowed(2), Err(WorkflowError::Query));
}
