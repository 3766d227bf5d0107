//! The blocking-task bridge, as far as it is decided here: which executor
//! stands behind it, and what it reports when a worker is lost.

use vstd::prelude::*;

verus! {

/// The bridge's own failure: the worker was cancelled, or panicked, before the
/// blocking call had a result. It is not a failure of the call itself.
#[derive(Debug, PartialEq, Eq)]
pub struct JoinError {
    pub message: String,
}

/// An executor that can stand behind the bridge.
#[derive(Debug, Clone, Copy, PartialEq, Eq, Structural)]
pub enum Runtime {
    Tokio,
    AsyncStd,
}

/// Why the bridge has no executor: the system cannot be assembled.
#[derive(Debug, Clone, Copy, PartialEq, Eq, Structural)]
pub enum BindingError {
    /// No executor was chosen.
    Missing,
    /// More than one executor was chosen.
    Conflicting,
}

impl BindingError {
    /// What `message` says of each failure.
    pub open spec fn text(self) -> Seq<char> {
        match self {
            BindingError::Missing => {
                "one of 'rt-tokio', or 'rt-async-std' features must be enabled"@
            },
            BindingError::Conflicting => {
                "only one of 'rt-tokio', or 'rt-async-std' features can be enabled"@
            },
        }
    }

    /// The message for whoever assembles the system.
    pub fn message(&self) -> (s: String)
        ensures
            s@ == self.text(),
    {
        match self {
            BindingError::Missing => {
                "one of 'rt-tokio', or 'rt-async-std' features must be enabled".to_owned()
            },
            BindingError::Conflicting => {
                "only one of 'rt-tokio', or 'rt-async-std' features can be enabled".to_owned()
            },
        }
    }
}

impl Runtime {
    /// Binds the bridge to the one executor that was chosen. The choice is made
    /// once, when the system is assembled, and a binding never changes after:
    /// with no executor chosen, or with both, there is no binding at all.
    pub fn select(rt_tokio: bool, rt_async_std: bool) -> (r: Result<Runtime, BindingError>)
        ensures
            r == Ok::<Runtime, BindingError>(Runtime::Tokio) <==> rt_tokio && !rt_async_std,
            r == Ok::<Runtime, BindingError>(Runtime::AsyncStd) <==> rt_async_std && !rt_tokio,
            r == Err::<Runtime, BindingError>(BindingError::Missing) <==> !rt_tokio
                && !rt_async_std,
            r == Err::<Runtime, BindingError>(BindingError::Conflicting) <==> rt_tokio
                && rt_async_std,
    {
        if rt_tokio && rt_async_std {
            Err(BindingError::Conflicting)
        } else if rt_tokio {
            Ok(Runtime::Tokio)
        } else if rt_async_std {
            Ok(Runtime::AsyncStd)
        } else {
            Err(BindingError::Missing)
        }
    }
}

} // verus!
