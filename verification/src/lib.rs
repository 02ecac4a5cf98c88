//! Connect-time SRV resolution for an HTTP client's connector.
//!
//! A request for a connection to a destination without an explicit port is
//! first looked up as an SRV name. When records come back, the destination is
//! rewritten to the host and port of the first record; when none exist, the
//! destination is used as it was given. Everything else (explicit ports, no
//! resolver configured) goes to the inner connector untouched.
//!
//! This crate holds the decisions: which path a request takes, what the
//! rewritten destination is, how a task moves from waiting on the resolver to
//! waiting on the inner connector, and how failures are classified. Driving
//! the resolver and the inner connector is left to the caller, which asks
//! [`ServiceConnector::call`] for a task, feeds it the resolver's answer with
//! [`ServiceConnecting::resolve`], and ends it with
//! [`ServiceConnecting::finish`].

pub mod connecting;
pub mod connector;
pub mod destination;
pub mod error;
pub mod laws;
pub mod lookup;
pub mod rewrite;
pub mod text;

pub use crate::connecting::Phase;
pub use crate::connecting::Route;
pub use crate::connecting::ServiceConnecting;
pub use crate::connector::ServiceConnector;
pub use crate::destination::Destination;
pub use crate::error::Cause;
pub use crate::error::ServiceError;
pub use crate::error::ServiceErrorKind;
pub use crate::lookup::LookupOutcome;
pub use crate::lookup::SrvRecord;
