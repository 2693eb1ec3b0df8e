use simple_db::error::DbError as CoreError;
use simple_db::types::{DbError, DriverError, QueryError, TypeError};

#[test]
fn test_type_error_conversion() {
    let type_err = TypeError::IndexOutOfBounds(5);
    let _db_err: DbError = type_err.into();
}

#[test]
fn test_query_error_conversion() {
    let query_err = QueryError::InvalidArgument("bad value".to_string());
    let _db_err: DbError = query_err.into();
}

#[test]
fn test_driver_error_conversion() {
    let driver_err = DriverError::Connection("timeout".to_string());
    let _db_err: DbError = driver_err.into();
}

#[test]
fn test_not_found_error() {
    let not_found = DbError::NotFound;
    assert!(matches!(not_found, DbError::NotFound));
}

#[test]
fn test_error_display() {
    let err = DbError::NotFound;
    let msg = err.message();
    assert!(!msg.is_empty());
}

#[test]
fn test_type_mismatch_error() {
    let err = TypeError::Mismatch { expected: "i32".to_string(), found: "String".to_string() };
    let msg = err.message();
    assert!(msg.contains("i32"));
    assert!(msg.contains("String"));
}

#[test]
fn test_column_missing_error() {
    let err = TypeError::ColumnMissing("user_email".to_string());
    let msg = err.message();
    assert!(msg.contains("user_email"));
}

#[test]
fn error_messages_exact() {
    assert_eq!(DbError::NotFound.message(), "record not found");
    assert_eq!(
        DbError::from(TypeError::IndexOutOfBounds(42)).message(),
        "index out of bounds: 42"
    );
    assert_eq!(
        DbError::from(QueryError::Syntax("near FROM".to_string())).message(),
        "syntax error: near FROM"
    );
    assert_eq!(QueryError::Build("x".to_string()).message(), "failed to build query: x");
    let d = DriverError::Execution("disk full".to_string());
    assert_eq!(d.message(), "query execution failed");
    assert_eq!(d.source_message(), "disk full");
    assert_eq!(DriverError::Transaction("t".to_string()).message(), "transaction error");
    assert_eq!(TypeError::ColumnMissing("c".to_string()).message(), "missing column: 'c'");
    match DbError::from(DriverError::Connection("timeout".to_string())) {
        DbError::Driver(DriverError::Connection(m)) => assert_eq!(m, "timeout"),
        _ => panic!("expected a driver error"),
    }
}

#[test]
fn core_error_messages_exact() {
    let e = CoreError::TypeMismatch { expected: "i32".to_string(), found: "String".to_string() };
    assert_eq!(e.message(), "type mismatch: expected i32, found String");
    assert_eq!(CoreError::ColumnIndexOutOfBounds(0).message(), "column index out of bounds: 0");
    assert_eq!(CoreError::ColumnIndexOutOfBounds(1203).message(), "column index out of bounds: 1203");
    assert_eq!(CoreError::ColumnNotFound("email".to_string()).message(), "column not found: 'email'");
    assert_eq!(CoreError::driver("boom".to_string()).message(), "driver error: boom");
    assert_eq!(CoreError::Internal("closed".to_string()).message(), "internal error: closed");
}
