use db_bootstrap::errors::WorkflowError;
use db_bootstrap::value::expect_long;
use db_bootstrap::value::expect_text;
use db_bootstrap::value::QueryValue;
use db_bootstrap::verify::check_verification;
use db_bootstrap::verify::interpret_count;

#[test]
fn count_of_three_against_expected_three_is_true() {
    let r = interpret_count(Some(QueryValue::Long(3)), 3);
    assert_eq!(r, Ok(true));
}

#[test]
fn count_of_two_against_expected_three_is_false_not_error() {
    let r = interpret_count(Some(QueryValue::Long(2)), 3);
    assert_eq!(r, Ok(false));
}

#[test]
fn count_of_four_against_expected_three_is_false_not_error() {
    let r = interpret_count(Some(QueryValue::Long(4)), 3);
    assert_eq!(r, Ok(false));
}

#[test]
fn missing_aggregate_value_is_query_error_not_zero() {
    let r = interpret_count(None, 0);
    assert_eq!(r, Err(WorkflowError::Query));
}

#[test]
fn non_integer_aggregate_value_is_query_error() {
    let r = interpret_count(Some(QueryValue::Text("3".to_string())), 3);
    assert_eq!(r, Err(WorkflowError::Query));
    let r = interpret_count(Some(QueryValue::Flag(true)), 1);
    assert_eq!(r, Err(WorkflowError::Query));
}

#[test]
fn verification_mismatch_carries_observed_and_expected() {
    let r = check_verification(2, 3);
    assert_eq!(r, Err(WorkflowError::VerificationFailed { expected: 3, observed: 2 }));
    assert_eq!(check_verification(3, 3), Ok(()));
}

#[test]
fn verification_failure_is_told_apart_from_boundary_failures() {
    let e = WorkflowError::VerificationFailed { expected: 3, observed: 2 };
    assert!(e.is_verification_failure());
    assert!(!WorkflowError::Query.is_verification_failure());
    assert!(!WorkflowError::Schema.is_verification_failure());
}

#[test]
fn expect_long_reads_integers_and_refuses_the_rest() {
    assert_eq!(expect_long(&QueryValue::Long(42)), Ok(42));
    assert_eq!(expect_long(&QueryValue::Text("42".to_string())), Err(WorkflowError::Query));
    assert_eq!(expect_long(&QueryValue::Flag(false)), Err(WorkflowError::Query));
}

#[test]
fn expect_text_reads_strings_and_refuses_the_rest() {
    assert_eq!(expect_text(QueryValue::Text("Kevin Morrison".to_string())), Ok("Kevin Morrison".to_string()));
    assert_eq!(expect_text(QueryValue::Long(1)), Err(WorkflowError::Query));
}
