use db_bootstrap::errors::WorkflowError;
use db_bootstrap::session::SessionGuard;
use db_bootstrap::session::TxState;
use db_bootstrap::session::WriteTx;

#[test]
fn committed_insertions_become_visible() {
    let mut count: u64 = 0;
    let mut tx = WriteTx::begin(count);
    assert_eq!(tx.stage(3), Ok(()));
    assert_eq!(tx.commit(&mut count), Ok(()));
    assert_eq!(count, 3);
    assert_eq!(tx.state, TxState::Committed);
}

#[test]
fn uncommitted_insertions_stay_invisible() {
    let mut count: u64 = 5;
    let mut tx = WriteTx::begin(count);
    assert_eq!(tx.stage(2), Ok(()));
    assert_eq!(tx.stage(4), Ok(()));
    tx.discard(&mut count);
    // A verification read after the failed load observes the pre-load count.
    assert_eq!(count, 5);
    assert_eq!(tx.state, TxState::Discarded);
}

#[test]
fn closed_transaction_refuses_further_work() {
    let mut count: u64 = 0;
    let mut tx = WriteTx::begin(count);
    assert_eq!(tx.commit(&mut count), Ok(()));
    assert_eq!(tx.stage(1), Err(WorkflowError::SessionClosed));
    assert_eq!(tx.commit(&mut count), Err(WorkflowError::SessionClosed));
    assert_eq!(count, 0);
}

#[test]
fn discarded_transaction_refuses_commit() {
    let mut count: u64 = 7;
    let mut tx = WriteTx::begin(count);
    tx.stage(1).unwrap();
    tx.discard(&mut count);
    assert_eq!(tx.commit(&mut count), Err(WorkflowError::SessionClosed));
    assert_eq!(count, 7);
}

#[test]
fn session_closes_only_after_its_transactions() {
    let mut s = SessionGuard::new();
    assert_eq!(s.begin_tx(), Ok(()));
    // Closing while a transaction is still open is refused.
    assert_eq!(s.close(), Err(WorkflowError::SessionClosed));
    assert!(s.open);
    s.end_tx();
    assert_eq!(s.close(), Ok(()));
    assert!(!s.open);
}

#[test]
fn closed_session_refuses_new_transactions() {
    let mut s = SessionGuard::new();
    assert_eq!(s.close(), Ok(()));
    assert_eq!(s.begin_tx(), Err(WorkflowError::SessionClosed));
    assert_eq!(s.close(), Err(WorkflowError::SessionClosed));
}
