//! The one failure type that both lifecycle operations return, and how the
//! outcome of each blocking call is sorted into it.

use crate::rt::JoinError;
use vstd::prelude::*;

verus! {

/// A backend's refusal to open a connection, in the backend's own words.
#[derive(Debug, PartialEq, Eq)]
pub struct ConnectError {
    pub message: String,
}

/// A failed liveness query, in the backend's own words.
#[derive(Debug, PartialEq, Eq)]
pub struct QueryError {
    pub message: String,
}

/// Why a lifecycle operation failed. Each failure ends the operation it
/// belongs to: nothing is retried here, and the caller decides what follows.
#[derive(Debug, PartialEq, Eq)]
pub enum Error {
    /// The backend could not open a connection.
    ConnectionError(ConnectError),
    /// The liveness check failed: the connection is to be discarded.
    QueryError(QueryError),
    /// The worker that ran the blocking call was lost before it had a result.
    SpawnError(JoinError),
}

impl Error {
    /// The text of the failure: that of the wrapped error, unchanged.
    pub open spec fn text(self) -> Seq<char> {
        match self {
            Error::ConnectionError(e) => e.message@,
            Error::QueryError(e) => e.message@,
            Error::SpawnError(e) => e.message@,
        }
    }

    /// The human-readable message, taken from the wrapped error as it stands.
    pub fn message(&self) -> (s: String)
        ensures
            s@ == self.text(),
    {
        match self {
            Error::ConnectionError(e) => e.message.clone(),
            Error::QueryError(e) => e.message.clone(),
            Error::SpawnError(e) => e.message.clone(),
        }
    }
}

/// What an attempt to open a connection comes to: the connection itself, or
/// the backend's refusal as a `ConnectionError`.
pub open spec fn establish_result<T>(opened: Result<T, ConnectError>) -> Result<T, Error> {
    match opened {
        Ok(conn) => Ok(conn),
        Err(refusal) => Err(Error::ConnectionError(refusal)),
    }
}

/// What a liveness check comes to: success, or the failed query as a
/// `QueryError`.
pub open spec fn ping_result(answer: Result<(), QueryError>) -> Result<(), Error> {
    match answer {
        Ok(()) => Ok(()),
        Err(failure) => Err(Error::QueryError(failure)),
    }
}

/// What the bridge's report comes to: the worker's own result where the worker
/// finished, a `SpawnError` where it was lost.
pub open spec fn join_result<V>(report: Result<Result<V, Error>, JoinError>) -> Result<V, Error> {
    match report {
        Ok(finished) => finished,
        Err(lost) => Err(Error::SpawnError(lost)),
    }
}

/// Sorts the outcome of `establish`. A connection is passed on as it came; a
/// refusal is wrapped, never dropped and never turned into a connection.
pub fn classify_establish<T>(opened: Result<T, ConnectError>) -> (r: Result<T, Error>)
    ensures
        r == establish_result(opened),
{
    match opened {
        Ok(conn) => Ok(conn),
        Err(refusal) => Err(Error::ConnectionError(refusal)),
    }
}

/// Sorts the outcome of `ping`. A failed check is always an error, so that the
/// pool discards the connection.
pub fn classify_ping(answer: Result<(), QueryError>) -> (r: Result<(), Error>)
    ensures
        r == ping_result(answer),
{
    match answer {
        Ok(()) => Ok(()),
        Err(failure) => Err(Error::QueryError(failure)),
    }
}

/// Settles an operation once the bridge has reported on the worker that ran
/// its blocking half. A lost worker is a `SpawnError`, whatever the call would
/// have returned; a worker that finished hands its result through unchanged.
pub fn classify_join<V>(report: Result<Result<V, Error>, JoinError>) -> (r: Result<V, Error>)
    ensures
        r == join_result(report),
{
    match report {
        Ok(finished) => finished,
        Err(lost) => Err(Error::SpawnError(lost)),
    }
}

} // verus!
