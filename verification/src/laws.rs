//! What holds of the lifecycle operations taken together, stated over the
//! relations that the operations' own contracts use.

use crate::error::{join_result, ConnectError, Error, QueryError};
use crate::manager::{may_answer, may_establish, ConnectionManager, DeadpoolConnection};
use crate::rt::JoinError;
use vstd::prelude::*;

verus! {

/// The backend opens a connection whenever it is asked to with this locator.
pub open spec fn accepts<T: DeadpoolConnection>(database_url: Seq<char>) -> bool {
    forall|opened: Result<T, ConnectError>| #[trigger]
        may_establish(database_url, opened) ==> opened is Ok
}

/// The backend refuses this locator whenever it is asked.
pub open spec fn rejects<T: DeadpoolConnection>(database_url: Seq<char>) -> bool {
    forall|opened: Result<T, ConnectError>| #[trigger]
        may_establish(database_url, opened) ==> opened is Err
}

/// The connection answers every liveness check.
pub open spec fn healthy<T: DeadpoolConnection>(conn: T) -> bool {
    forall|answer: Result<(), QueryError>| #[trigger] may_answer(conn, answer) ==> answer is Ok
}

/// The connection fails every liveness check.
pub open spec fn unhealthy<T: DeadpoolConnection>(conn: T) -> bool {
    forall|answer: Result<(), QueryError>| #[trigger] may_answer(conn, answer) ==> answer is Err
}

/// Where the backend accepts the locator and the connection it opens is
/// healthy, `create` returns a connection, `recycle` called on it at once
/// succeeds, and the connection is the same one after.
pub proof fn lemma_create_then_recycle<T: DeadpoolConnection>(
    manager: ConnectionManager<T>,
    created: Result<T, Error>,
    after: T,
    recycled: Result<(), Error>,
)
    requires
        accepts::<T>(manager@),
        manager.may_create(created),
        created matches Ok(conn) ==> healthy(conn) && manager.may_recycle(conn, after, recycled),
    ensures
        created matches Ok(conn) && after == conn && recycled == Ok::<(), Error>(()),
{
}

/// Where the backend refuses the locator, `create` returns the refusal as a
/// `ConnectionError`: there is no connection.
pub proof fn lemma_rejected_locator<T: DeadpoolConnection>(
    manager: ConnectionManager<T>,
    created: Result<T, Error>,
)
    requires
        rejects::<T>(manager@),
        manager.may_create(created),
    ensures
        created matches Err(Error::ConnectionError(refusal)) && may_establish::<T>(
            manager@,
            Err(refusal),
        ),
{
}

/// Where the liveness check fails, `recycle` returns the failure as a
/// `QueryError`, never `Ok`: the pool is told to discard the connection.
pub proof fn lemma_failed_check_discards<T: DeadpoolConnection>(
    manager: ConnectionManager<T>,
    conn: T,
    after: T,
    recycled: Result<(), Error>,
)
    requires
        unhealthy(conn),
        manager.may_recycle(conn, after, recycled),
    ensures
        recycled matches Err(Error::QueryError(failure)) && may_answer(conn, Err(failure)),
{
}

/// Where the bridge reports a lost worker, the operation ends in that
/// `SpawnError`, whatever it was to return: never in a connection.
pub proof fn lemma_lost_worker<V>(lost: JoinError)
    ensures
        join_result::<V>(Err(lost)) == Err::<V, Error>(Error::SpawnError(lost)),
{
}

/// `recycle` may be called any number of times in a row on a connection that
/// is healthy: every call succeeds, and after every call the connection is as
/// it was before the first. `states[i]` is the connection before call `i`.
pub proof fn lemma_recycle_repeats<T: DeadpoolConnection>(
    manager: ConnectionManager<T>,
    states: Seq<T>,
    results: Seq<Result<(), Error>>,
)
    requires
        states.len() == results.len() + 1,
        healthy(states[0]),
        forall|i: int|
            0 <= i < results.len() ==> manager.may_recycle(
                states[i],
                states[i + 1],
                #[trigger] results[i],
            ),
    ensures
        forall|i: int|
            0 <= i < results.len() ==> #[trigger] results[i] == Ok::<(), Error>(()) && states[i + 1]
                == states[0],
    decreases results.len(),
{
    if results.len() > 0 {
        let n = results.len() - 1;
        lemma_recycle_repeats(manager, states.take(n + 1), results.take(n));
        assert(n > 0 ==> results.take(n)[n - 1] == results[n - 1]);
        assert(states[n] == states[0]);
        assert forall|i: int| 0 <= i < n implies results[i] == Ok::<(), Error>(()) && states[i + 1]
            == states[0] by {
            assert(results.take(n)[i] == results[i]);
        }
    }
}

/// Calls of `create` on one manager do not touch one another: what a call may
/// return on its own, it may return beside any results of the others.
/// `created[j]` is the result of call `j`, and `other` is another result that
/// call `i` may have.
pub proof fn lemma_create_calls_independent<T: DeadpoolConnection>(
    manager: ConnectionManager<T>,
    created: Seq<Result<T, Error>>,
    i: int,
    other: Result<T, Error>,
)
    requires
        0 <= i < created.len(),
        forall|j: int| 0 <= j < created.len() ==> manager.may_create(#[trigger] created[j]),
        manager.may_create(other),
    ensures
        forall|j: int|
            0 <= j < created.len() ==> manager.may_create(#[trigger] created.update(i, other)[j]),
{
}

} // verus!
