//! The pool manager and the capability it asks of a connection type.

use crate::error::{classify_establish, classify_ping, establish_result, ping_result};
use crate::error::{ConnectError, Error, QueryError};
use std::marker::PhantomData;
use vstd::prelude::*;

verus! {

/// The trivial query that a backend without a cheaper probe sends as its
/// liveness check.
pub const PING_QUERY: &'static str = "SELECT 1";

/// What a connection type offers to be pooled. Both calls block: they are
/// meant to run on a worker, off the threads of an async scheduler.
pub trait DeadpoolConnection: Sized {
    /// Opens a connection to the database that `database_url` names. The
    /// backend alone judges the locator.
    fn establish(database_url: &str) -> Result<Self, ConnectError>;

    /// One trivial round trip to the database, to see whether the session
    /// still answers. It leaves the session as it found it.
    fn ping(&self) -> Result<(), QueryError>;
}

/// The backend may give `opened` when asked to open a connection with the
/// locator `database_url`.
pub open spec fn may_establish<T: DeadpoolConnection>(
    database_url: Seq<char>,
    opened: Result<T, ConnectError>,
) -> bool {
    exists|url: &str| url@ == database_url && #[trigger] call_ensures(T::establish, (url,), opened)
}

/// The connection may give `answer` when its liveness is checked.
pub open spec fn may_answer<T: DeadpoolConnection>(
    conn: T,
    answer: Result<(), QueryError>,
) -> bool {
    call_ensures(T::ping, (&conn,), answer)
}

/// Opens and checks connections of type `T` for a pool. It holds the locator
/// and nothing else, and no call changes it.
pub struct ConnectionManager<T> {
    database_url: String,
    _marker: PhantomData<T>,
}

impl<T> View for ConnectionManager<T> {
    type V = Seq<char>;

    /// The locator that every connection of this manager is opened with.
    closed spec fn view(&self) -> Seq<char> {
        self.database_url@
    }
}

impl<T> Clone for ConnectionManager<T> {
    /// A manager with a copy of the locator, for a worker to own.
    fn clone(&self) -> (copy: Self)
        ensures
            copy@ == self@,
    {
        ConnectionManager { database_url: self.database_url.clone(), _marker: PhantomData }
    }
}

impl<T> ConnectionManager<T> {
    /// A manager for the database that `database_url` names. The locator is
    /// taken as it is: an empty or malformed one is for the backend to refuse.
    pub fn new(database_url: String) -> (manager: Self)
        ensures
            manager@ == database_url@,
    {
        ConnectionManager { database_url, _marker: PhantomData }
    }

    /// The locator.
    pub fn database_url(&self) -> (url: &str)
        ensures
            url@ == self@,
    {
        self.database_url.as_str()
    }
}

impl<T: DeadpoolConnection> ConnectionManager<T> {
    /// `create` may return `created`: it is what some outcome of `establish`
    /// on this manager's locator comes to.
    pub open spec fn may_create(&self, created: Result<T, Error>) -> bool {
        exists|opened: Result<T, ConnectError>| #[trigger]
            may_establish(self@, opened) && created == establish_result(opened)
    }

    /// `recycle` may take a connection from `before` to `after` and return
    /// `recycled`: the connection is as it was, and the result is what some
    /// answer of the connection comes to.
    pub open spec fn may_recycle(&self, before: T, after: T, recycled: Result<(), Error>) -> bool {
        &&& after == before
        &&& exists|answer: Result<(), QueryError>| #[trigger]
            may_answer(before, answer) && recycled == ping_result(answer)
    }

    /// Opens a new connection with the manager's locator. On success the
    /// connection is open and belongs to the caller; a refusal of the backend
    /// comes back as `ConnectionError`, and then there is no connection.
    ///
    /// The call blocks while the backend connects. An async host runs it on a
    /// worker, on a clone of the manager, and settles the operation with
    /// `classify_join`.
    pub fn create(&self) -> (created: Result<T, Error>)
        ensures
            self.may_create(created),
    {
        let opened = T::establish(self.database_url.as_str());
        proof {
            assert(may_establish(self@, opened));
        }
        classify_establish(opened)
    }

    /// Checks a connection that came back to the pool, before it is handed
    /// out again. `Ok` tells the pool to keep the connection; a failed check
    /// comes back as `QueryError` and tells it to discard the connection.
    /// Either way the connection is left as it was: closing it is the pool's
    /// business.
    ///
    /// The check is made in place: it blocks the caller for one round trip to
    /// the database, which the backend's own query timeout bounds. A host that
    /// cannot wait that long runs `recycle` on a worker, as it runs `create`,
    /// and settles the operation with `classify_join`.
    pub fn recycle(&self, conn: &mut T) -> (recycled: Result<(), Error>)
        ensures
            self.may_recycle(*old(conn), *final(conn), recycled),
    {
        let answer = conn.ping();
        proof {
            assert(may_answer(*old(conn), answer));
        }
        classify_ping(answer)
    }
}

} // verus!
