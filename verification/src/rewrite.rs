//! Rewriting a destination to the service instance that an SRV record names.

use crate::destination::copy_text;
use crate::destination::Destination;
use crate::destination::DestinationView;
use crate::lookup::SrvRecord;
use crate::lookup::SrvRecordView;
use crate::text::authority;
use crate::text::authority_text;
use hyper::http::uri::Authority;
use hyper::http::uri::Parts;
use hyper::http::uri::PathAndQuery;
use hyper::http::uri::Scheme;
use hyper::http::Error as HttpError;
use hyper::Uri;
use vstd::prelude::*;

verus! {

/// Whether a URI can be put together from these parts: an optional scheme,
/// an authority, and an optional path with query.
pub uninterp spec fn uri_accepted(
    scheme: Option<Seq<char>>,
    authority: Seq<char>,
    path_and_query: Option<Seq<char>>,
) -> bool;

/// The characters of an optional string slice.
spec fn str_text(text: Option<&str>) -> Option<Seq<char>> {
    match text {
        Some(s) => Some(s@),
        None => None,
    }
}

/// Parses the parts with `Authority::try_from`, `Scheme::try_from` and
/// `PathAndQuery::try_from`, the authority first, and joins them with
/// `Uri::from_parts`, as `Uri::builder` does with the parts it is given.
/// Joining asks that the parts present make up a form of URI that the crate
/// knows. The call succeeds exactly when every part parses and the parts
/// join; the first error is handed back untouched.
#[verifier::external_body]
fn check_uri(scheme: Option<&str>, authority: &str, path_and_query: Option<&str>) -> (r: Result<
    (),
    HttpError,
>)
    ensures
        r is Ok <==> uri_accepted(str_text(scheme), authority@, str_text(path_and_query)),
{
    let mut parts = Parts::default();
    parts.authority = Some(Authority::try_from(authority)?);
    parts.scheme = scheme.map(Scheme::try_from).transpose()?;
    parts.path_and_query = path_and_query.map(PathAndQuery::try_from).transpose()?;
    Uri::from_parts(parts)?;
    Ok(())
}

/// The destination that `record` stands for: its target and port, with the
/// scheme and the path of `original`.
pub open spec fn rewritten(original: DestinationView, record: SrvRecordView) -> DestinationView {
    DestinationView {
        scheme: original.scheme,
        host: Some(record.target),
        port: Some(record.port),
        path_and_query: original.path_and_query,
    }
}

/// Whether the rewritten destination can be put together as a URI.
pub open spec fn rewrite_accepted(original: DestinationView, record: SrvRecordView) -> bool {
    uri_accepted(
        original.scheme,
        authority_text(record.target, record.port),
        original.path_and_query,
    )
}

fn as_str_opt(text: &Option<String>) -> (r: Option<&str>)
    ensures
        str_text(r) == crate::destination::text_of(*text),
{
    match text {
        Some(s) => Some(s.as_str()),
        None => None,
    }
}

/// Rewrites `original` to the service instance named by `record`.
///
/// The new destination is built whole or not at all: when the parts do not
/// make up a URI, the error that says so comes back and nothing is
/// rewritten.
pub fn rewrite(original: &Destination, record: &SrvRecord) -> (r: Result<Destination, HttpError>)
    ensures
        r is Ok <==> rewrite_accepted(original@, record@),
        r matches Ok(target) ==> target@ == rewritten(original@, record@),
{
    let text = authority(record.target.as_str(), record.port);
    match check_uri(
        as_str_opt(&original.scheme),
        text.as_str(),
        as_str_opt(&original.path_and_query),
    ) {
        Ok(()) => Ok(
            Destination {
                scheme: copy_text(&original.scheme),
                host: Some(record.target.clone()),
                port: Some(record.port),
                path_and_query: copy_text(&original.path_and_query),
            },
        ),
        Err(error) => Err(error),
    }
}

} // verus!
