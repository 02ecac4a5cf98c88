//! The entry point: one call for each new connection.

use crate::connecting::Phase;
use crate::connecting::Route;
use crate::connecting::ServiceConnecting;
use crate::destination::Destination;
use crate::error::ServiceError;
use crate::error::ServiceErrorKind;
use vstd::prelude::*;

verus! {

/// A connector that resolves SRV records before it hands the destination to
/// the connector it wraps.
///
/// `C` is the inner connector and `R` the resolver; neither is looked into
/// here. The resolver is optional. Without one, every call goes straight to
/// the inner connector, so the lookup can be switched off without changing
/// the type that a client names.
#[derive(Clone, Debug)]
pub struct ServiceConnector<C, R> {
    resolver: Option<R>,
    inner: C,
}

/// Whether a request is looked up before it is connected: only with a
/// resolver, for a destination that names a host and leaves the port open.
pub open spec fn wants_lookup(has_resolver: bool, target: Destination) -> bool {
    has_resolver && target.host is Some && target.port is None
}

/// The task that a request starts as.
pub open spec fn initial_task(has_resolver: bool, target: Destination) -> ServiceConnecting {
    if wants_lookup(has_resolver, target) {
        ServiceConnecting { phase: Phase::Preresolving { original: target } }
    } else {
        ServiceConnecting { phase: Phase::Delegating { target, route: Route::Direct } }
    }
}

/// What the caller gets when the inner connector has said whether it is
/// ready.
pub open spec fn readiness_of<E>(result: Result<(), E>) -> Result<(), ServiceError<E>> {
    match result {
        Ok(ready) => Ok(ready),
        Err(cause) => Err(ServiceError { kind: ServiceErrorKind::Inner(cause) }),
    }
}

impl<C, R> ServiceConnector<C, R> {
    /// The resolver that the connector was made with.
    pub closed spec fn spec_resolver(&self) -> Option<R> {
        self.resolver
    }

    /// The connector that this one wraps.
    pub closed spec fn spec_inner(&self) -> C {
        self.inner
    }

    /// Whether lookups are switched on.
    pub open spec fn spec_has_resolver(&self) -> bool {
        self.spec_resolver() is Some
    }

    /// The task that a call for `target` starts.
    pub open spec fn spec_call(&self, target: Destination) -> ServiceConnecting {
        initial_task(self.spec_has_resolver(), target)
    }

    /// Makes a connector around `inner`. With `None` in place of a resolver
    /// it behaves as `inner` alone.
    pub fn new(inner: C, resolver: Option<R>) -> (r: Self)
        ensures
            r.spec_inner() == inner,
            r.spec_resolver() == resolver,
    {
        ServiceConnector { resolver, inner }
    }

    /// Whether lookups are switched on.
    pub fn has_resolver(&self) -> (r: bool)
        ensures
            r == self.spec_has_resolver(),
    {
        self.resolver.is_some()
    }

    /// The resolver, where there is one.
    pub fn resolver(&self) -> (r: Option<&R>)
        ensures
            r matches Some(resolver) ==> self.spec_resolver() == Some(*resolver),
            r is None ==> self.spec_resolver() is None,
    {
        self.resolver.as_ref()
    }

    /// The inner connector.
    pub fn inner(&self) -> (r: &C)
        ensures
            *r == self.spec_inner(),
    {
        &self.inner
    }

    /// The inner connector, for the calls that need it exclusively. The
    /// resolver stays what it was.
    pub fn inner_mut(&mut self) -> (r: &mut C)
        ensures
            *r == old(self).spec_inner(),
            final(self).spec_inner() == *final(r),
            final(self).spec_resolver() == old(self).spec_resolver(),
    {
        &mut self.inner
    }

    /// Starts a connection attempt for `target`.
    ///
    /// Nothing happens beyond the decision: the task that comes back says
    /// whether the resolver or the inner connector is to be asked.
    pub fn call(&self, target: Destination) -> (r: ServiceConnecting)
        ensures
            r == self.spec_call(target),
            r.wf(),
    {
        if self.resolver.is_some() && target.has_host() && !target.has_port() {
            ServiceConnecting { phase: Phase::Preresolving { original: target } }
        } else {
            ServiceConnecting { phase: Phase::Delegating { target, route: Route::Direct } }
        }
    }

    /// Passes on whether the inner connector is ready, with its error
    /// wrapped.
    pub fn readiness<E>(&self, result: Result<(), E>) -> (r: Result<(), ServiceError<E>>)
        ensures
            r == readiness_of(result),
    {
        match result {
            Ok(ready) => Ok(ready),
            Err(cause) => Err(ServiceError::inner(cause)),
        }
    }
}

} // verus!
