//! One connection attempt in flight.
//!
//! A task waits on at most two things in its life: the SRV lookup, then the
//! inner connector. It moves from the first to the second once, in place,
//! and never back.

use crate::destination::Destination;
use crate::error::ServiceError;
use crate::error::ServiceErrorKind;
use crate::lookup::LookupOutcome;
use crate::rewrite::rewrite;
use crate::rewrite::rewrite_accepted;
use crate::rewrite::rewritten;
use vstd::prelude::*;

verus! {

/// How a task came to the destination it hands to the inner connector.
#[derive(Clone, Copy, Debug, PartialEq, Eq)]
pub enum Route {
    /// No lookup was made.
    Direct,
    /// The lookup found no records; the destination is the one requested.
    Fallback,
    /// The destination was rewritten from the first record found.
    Rewritten,
}

/// What a task is waiting on.
#[derive(Debug, PartialEq, Eq)]
pub enum Phase {
    /// The SRV lookup for the host of `original` is pending.
    Preresolving { original: Destination },
    /// The inner connector was asked to connect to `target`.
    Delegating { target: Destination, route: Route },
}

/// A connection attempt in progress.
#[derive(Debug, PartialEq, Eq)]
pub struct ServiceConnecting {
    pub phase: Phase,
}

/// How a task takes the outcome of its lookup: `before` and `after` are the
/// task around the step, `result` is what the step reports.
///
/// A failed query ends the attempt and the inner connector is not reached.
/// Without a record the requested destination is kept as it is. With one,
/// the destination is rewritten whole, or the attempt ends. A task that is
/// already delegating has no lookup to hear of, and stays as it is.
pub open spec fn lookup_step<E>(
    before: ServiceConnecting,
    outcome: LookupOutcome,
    after: ServiceConnecting,
    result: Result<(), ServiceError<E>>,
) -> bool {
    match before.phase {
        Phase::Delegating { .. } => after == before && result is Ok,
        Phase::Preresolving { original } => match outcome {
            LookupOutcome::QueryFailed(error) => {
                &&& after == before
                &&& result == Err::<(), ServiceError<E>>(
                    ServiceError { kind: ServiceErrorKind::Resolve(error) },
                )
            },
            _ => match outcome.chosen() {
                None => {
                    &&& after.phase == (Phase::Delegating { target: original, route: Route::Fallback })
                    &&& result is Ok
                },
                Some(record) => if rewrite_accepted(original@, record@) {
                    &&& after.phase matches Phase::Delegating { target, route }
                    &&& route == Route::Rewritten
                    &&& target@ == rewritten(original@, record@)
                    &&& result is Ok
                } else {
                    &&& after == before
                    &&& result matches Err(error)
                    &&& error.kind is Rewrite
                },
            },
        },
    }
}

/// What the caller gets when the inner connector has answered.
pub open spec fn finished<T, E>(result: Result<T, E>) -> Result<T, ServiceError<E>> {
    match result {
        Ok(connection) => Ok(connection),
        Err(cause) => Err(ServiceError { kind: ServiceErrorKind::Inner(cause) }),
    }
}

impl ServiceConnecting {
    /// A task that waits on a lookup has a host to look up, and no port.
    pub open spec fn wf(&self) -> bool {
        self.phase matches Phase::Preresolving { original } ==> original.host is Some
            && original.port is None
    }

    /// The host whose SRV records the task is waiting for, if it is waiting
    /// for any.
    pub open spec fn spec_lookup_host(&self) -> Option<String> {
        match self.phase {
            Phase::Preresolving { original } => original.host,
            Phase::Delegating { .. } => None,
        }
    }

    /// The host whose SRV records the task is waiting for, if it is waiting
    /// for any.
    pub fn lookup_host(&self) -> (r: Option<&String>)
        ensures
            r matches Some(host) ==> self.spec_lookup_host() == Some(*host),
            r is None ==> self.spec_lookup_host() is None,
    {
        match &self.phase {
            Phase::Preresolving { original } => original.host.as_ref(),
            Phase::Delegating { .. } => None,
        }
    }

    /// The destination that the inner connector was asked for, once the task
    /// is delegating.
    pub fn target(&self) -> (r: Option<&Destination>)
        ensures
            match self.phase {
                Phase::Preresolving { .. } => r is None,
                Phase::Delegating { target, .. } => r == Some(&target),
            },
    {
        match &self.phase {
            Phase::Preresolving { .. } => None,
            Phase::Delegating { target, .. } => Some(target),
        }
    }

    /// Takes the outcome of the lookup and moves on to delegating, in place.
    pub fn resolve<E>(&mut self, outcome: LookupOutcome) -> (r: Result<(), ServiceError<E>>)
        ensures
            lookup_step(*old(self), outcome, *final(self), r),
            old(self).wf() ==> final(self).wf(),
    {
        let rewritten_target = match &self.phase {
            Phase::Delegating { .. } => {
                return Ok(());
            },
            Phase::Preresolving { original } => match outcome {
                LookupOutcome::QueryFailed(error) => {
                    return Err(ServiceError::from(error));
                },
                LookupOutcome::NotFound => None,
                LookupOutcome::Found(records) => if records.len() == 0 {
                    None
                } else {
                    match rewrite(original, &records[0]) {
                        Ok(target) => Some(target),
                        Err(cause) => {
                            return Err(ServiceError::rewrite(cause));
                        },
                    }
                },
            },
        };
        match rewritten_target {
            Some(target) => {
                self.phase = Phase::Delegating { target, route: Route::Rewritten };
            },
            None => {
                let mut taken = Phase::Delegating {
                    target: Destination {
                        scheme: None,
                        host: None,
                        port: None,
                        path_and_query: None,
                    },
                    route: Route::Fallback,
                };
                core::mem::swap(&mut self.phase, &mut taken);
                match taken {
                    Phase::Preresolving { original } => {
                        self.phase = Phase::Delegating { target: original, route: Route::Fallback };
                    },
                    Phase::Delegating { target, route } => {
                        self.phase = Phase::Delegating { target, route };
                    },
                }
            },
        }
        Ok(())
    }

    /// What a task ends with once the inner connector has answered: the
    /// connection as it came, or the connector's error wrapped.
    pub fn finish<T, E>(result: Result<T, E>) -> (r: Result<T, ServiceError<E>>)
        ensures
            r == finished(result),
    {
        match result {
            Ok(connection) => Ok(connection),
            Err(cause) => Err(ServiceError::inner(cause)),
        }
    }
}

} // verus!
