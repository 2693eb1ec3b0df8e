//! The decisions around a transaction: closing it at most once, and
//! committing or rolling back once the body of a managed transaction ran.

use vstd::prelude::*;

use crate::error::DbError;

verus! {

/// Takes the open transaction out of its shared slot, to commit or roll it
/// back. The slot is left empty, so a second close finds it empty and gets
/// the `Internal` error with the given message.
pub fn take_transaction<T>(slot: &mut Option<T>, closed_error: &str) -> (r: Result<T, DbError>)
    ensures
        *final(slot) is None,
        *old(slot) matches Some(t) ==> r == Ok::<T, DbError>(t),
        *old(slot) is None ==> (r matches Err(DbError::Internal(m)) && m@ == closed_error@),
{
    match slot.take() {
        Some(tx) => Ok(tx),
        None => Err(DbError::Internal(closed_error.to_owned())),
    }
}

/// The result of committing or rolling back a taken transaction: a failure
/// of the driver, given by its message, becomes the `Driver` error.
pub fn close_result(outcome: Result<(), String>) -> (r: Result<(), DbError>)
    ensures
        outcome is Ok ==> r is Ok,
        outcome matches Err(m) ==> r == Err::<(), DbError>(DbError::Driver(m)),
{
    match outcome {
        Ok(()) => Ok(()),
        Err(m) => Err(DbError::driver(m)),
    }
}

/// What a managed transaction does once its body has run.
pub enum TransactionStep<T> {
    /// The body succeeded: commit, then hand back its value.
    Commit(T),
    /// The body failed: roll back, then hand back its error.
    Rollback(DbError),
}

/// The step after the body: commit on success, roll back on failure.
pub fn after_body<T>(result: Result<T, DbError>) -> (r: TransactionStep<T>)
    ensures
        result matches Ok(v) ==> r == TransactionStep::Commit(v),
        result matches Err(e) ==> r == TransactionStep::<T>::Rollback(e),
{
    match result {
        Ok(v) => TransactionStep::Commit(v),
        Err(e) => TransactionStep::Rollback(e),
    }
}

/// The result once the commit ran: the body's value, or the commit's error.
pub fn after_commit<T>(value: T, commit: Result<(), DbError>) -> (r: Result<T, DbError>)
    ensures
        commit is Ok ==> r == Ok::<T, DbError>(value),
        commit matches Err(e) ==> r == Err::<T, DbError>(e),
{
    match commit {
        Ok(()) => Ok(value),
        Err(e) => Err(e),
    }
}

/// The result once the rollback ran: the body's error, whatever the
/// rollback gave.
pub fn after_rollback<T>(error: DbError, rollback: Result<(), DbError>) -> (r: Result<T, DbError>)
    ensures
        r == Err::<T, DbError>(error),
{
    Err(error)
}

} // verus!
