use simple_db::error::DbError;
use simple_db::transaction::{after_body, after_commit, after_rollback, close_result, take_transaction, TransactionStep};

#[test]
fn closing_twice_reports_the_closed_error() {
    let mut slot = Some(7u32);
    assert!(matches!(take_transaction(&mut slot, "already closed"), Ok(7)));
    assert!(slot.is_none());
    match take_transaction(&mut slot, "already closed") {
        Err(DbError::Internal(m)) => assert_eq!(m, "already closed"),
        _ => panic!("expected the closed error"),
    }
}

#[test]
fn close_result_wraps_driver_failures() {
    assert!(close_result(Ok(())).is_ok());
    match close_result(Err("lost connection".to_string())) {
        Err(DbError::Driver(m)) => assert_eq!(m, "lost connection"),
        _ => panic!("expected a driver error"),
    }
}

#[test]
fn managed_transaction_commits_on_success() {
    match after_body::<i32>(Ok(42)) {
        TransactionStep::Commit(v) => {
            assert_eq!(v, 42);
            assert!(matches!(after_commit(v, Ok(())), Ok(42)));
        }
        TransactionStep::Rollback(_) => panic!("expected a commit"),
    }
    match after_commit(1, Err(DbError::driver("commit failed".to_string()))) {
        Err(DbError::Driver(m)) => assert_eq!(m, "commit failed"),
        _ => panic!("expected the commit's error"),
    }
}

#[test]
fn managed_transaction_rolls_back_on_error() {
    match after_body::<i32>(Err(DbError::ColumnNotFound("x".to_string()))) {
        TransactionStep::Rollback(e) => {
            let r: Result<i32, DbError> = after_rollback(e, Err(DbError::driver("rollback failed".to_string())));
            match r {
                Err(DbError::ColumnNotFound(c)) => assert_eq!(c, "x"),
                _ => panic!("expected the body's error"),
            }
        }
        TransactionStep::Commit(_) => panic!("expected a rollback"),
    }
}
