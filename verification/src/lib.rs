//! A connection-pool manager for blocking database connections.
//!
//! The manager opens connections on demand and checks returned connections
//! before they are handed out again. Both are blocking calls into a database
//! backend, so a host with an async scheduler runs them on a worker and
//! settles the call on what the worker left behind.
//!
//! - `manager`: the manager, its two lifecycle operations, and what it asks of
//!   a connection type.
//! - `error`: the failure type of both operations, and how the outcome of
//!   each blocking call is sorted into it.
//! - `rt`: the executors that can run the blocking calls, and the choice of
//!   the one that does.
//! - `laws`: what holds of the operations taken together.

pub mod error;
pub mod laws;
pub mod manager;
pub mod rt;

pub use error::{classify_establish, classify_join, classify_ping, ConnectError, Error, QueryError};
pub use manager::{ConnectionManager, DeadpoolConnection, PING_QUERY};
pub use rt::{BindingError, JoinError, Runtime};
