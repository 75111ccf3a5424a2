//! Failures of the store.

use vstd::prelude::*;
use rusqlite::Error;

verus! {

/// Why an operation of the store failed. Where the engine refused a call,
/// its own error is carried along.
#[derive(Debug, PartialEq)]
pub enum StoreError {
    /// The database file could not be opened.
    Connection(Error),
    /// A read statement could not be prepared or run.
    Query(Error),
    /// An insert, update or delete could not be run.
    Write(Error),
    /// An update was asked for a bookmark that has no id.
    Precondition,
}

/// The outcome of opening a connection: a refusal is a connection failure.
pub fn connect_outcome<T>(outcome: Result<T, Error>) -> (r: Result<T, StoreError>)
    ensures
        r == match outcome {
            Ok(value) => Ok::<T, StoreError>(value),
            Err(e) => Err(StoreError::Connection(e)),
        },
{
    match outcome {
        Ok(value) => Ok(value),
        Err(e) => Err(StoreError::Connection(e)),
    }
}

/// The outcome of a step of a read: a refusal is a query failure.
pub fn query_outcome<T>(outcome: Result<T, Error>) -> (r: Result<T, StoreError>)
    ensures
        r == match outcome {
            Ok(value) => Ok::<T, StoreError>(value),
            Err(e) => Err(StoreError::Query(e)),
        },
{
    match outcome {
        Ok(value) => Ok(value),
        Err(e) => Err(StoreError::Query(e)),
    }
}

/// The outcome of a write: the number of rows changed, or a write failure.
pub fn write_outcome(outcome: Result<usize, Error>) -> (r: Result<usize, StoreError>)
    ensures
        r == match outcome {
            Ok(rows) => Ok::<usize, StoreError>(rows),
            Err(e) => Err(StoreError::Write(e)),
        },
{
    match outcome {
        Ok(rows) => Ok(rows),
        Err(e) => Err(StoreError::Write(e)),
    }
}

} // verus!
