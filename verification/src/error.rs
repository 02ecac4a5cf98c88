//! How a connection attempt fails.
//!
//! Every failure ends the attempt: nothing is retried here. Finding no SRV
//! records is not among the failures.

use hyper::http::Error as HttpError;
use trust_dns_resolver::error::ResolveError;
use vstd::prelude::*;
use vstd::std_specs::convert::FromSpecImpl;
use vstd::string::to_string_from_display_ensures;

verus! {

#[verifier::external_type_specification]
#[verifier::external_body]
pub struct ExResolveError(ResolveError);

#[verifier::external_type_specification]
#[verifier::external_body]
pub struct ExHttpError(HttpError);

/// What went wrong, with the failure that caused it.
#[derive(Debug)]
pub enum ServiceErrorKind<E> {
    /// The SRV query itself failed.
    Resolve(ResolveError),
    /// The destination rewritten from an SRV record could not be put together.
    Rewrite(HttpError),
    /// The inner connector failed. Its own error is kept as it came.
    Inner(E),
}

/// The failure of a connection attempt.
#[derive(Debug)]
pub struct ServiceError<E> {
    pub kind: ServiceErrorKind<E>,
}

/// The failure that lies behind a `ServiceError`, for diagnostics.
#[derive(Debug)]
pub enum Cause<'a, E> {
    Rewrite(&'a HttpError),
    Inner(&'a E),
}

impl<E> From<ResolveError> for ServiceError<E> {
    fn from(error: ResolveError) -> (r: Self) {
        ServiceError { kind: ServiceErrorKind::Resolve(error) }
    }
}

impl<E> FromSpecImpl<ResolveError> for ServiceError<E> {
    open spec fn obeys_from_spec() -> bool {
        true
    }

    open spec fn from_spec(error: ResolveError) -> Self {
        ServiceError { kind: ServiceErrorKind::Resolve(error) }
    }
}

impl<E> ServiceError<E> {
    /// Wraps a failure of the inner connector.
    pub fn inner(cause: E) -> (r: Self)
        ensures
            r == (ServiceError { kind: ServiceErrorKind::Inner(cause) }),
    {
        ServiceError { kind: ServiceErrorKind::Inner(cause) }
    }

    /// Wraps a failure to put a rewritten destination together.
    pub fn rewrite(cause: HttpError) -> (r: Self)
        ensures
            r == (ServiceError { kind: ServiceErrorKind::<E>::Rewrite(cause) }),
    {
        ServiceError { kind: ServiceErrorKind::Rewrite(cause) }
    }

    /// The failure behind this one. A failed query is its own cause and has
    /// none behind it.
    pub fn source(&self) -> (r: Option<Cause<'_, E>>)
        ensures
            match self.kind {
                ServiceErrorKind::Resolve(_) => r is None,
                ServiceErrorKind::Rewrite(cause) => r == Some(Cause::<E>::Rewrite(&cause)),
                ServiceErrorKind::Inner(cause) => r == Some(Cause::Inner(&cause)),
            },
    {
        match &self.kind {
            ServiceErrorKind::Resolve(_) => None,
            ServiceErrorKind::Rewrite(cause) => Some(Cause::Rewrite(cause)),
            ServiceErrorKind::Inner(cause) => Some(Cause::Inner(cause)),
        }
    }

    /// The text shown for this failure: the message of its cause, as the
    /// cause itself displays it.
    pub fn message(&self) -> (r: String) where E: core::fmt::Display
        ensures
            match self.kind {
                ServiceErrorKind::Resolve(cause) => to_string_from_display_ensures::<ResolveError>(
                    &cause,
                    r,
                ),
                ServiceErrorKind::Rewrite(cause) => to_string_from_display_ensures::<HttpError>(
                    &cause,
                    r,
                ),
                ServiceErrorKind::Inner(cause) => to_string_from_display_ensures::<E>(&cause, r),
            },
    {
        match &self.kind {
            ServiceErrorKind::Resolve(cause) => cause.to_string(),
            ServiceErrorKind::Rewrite(cause) => cause.to_string(),
            ServiceErrorKind::Inner(cause) => cause.to_string(),
        }
    }
}

} // verus!
