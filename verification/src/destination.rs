//! The destination of a connection attempt.

use crate::text::authority;
use crate::text::authority_text;
use vstd::prelude::*;

verus! {

/// Where a connection is to be opened.
///
/// A destination is never changed once made: rewriting builds a new one.
#[derive(Clone, Debug, PartialEq, Eq)]
pub struct Destination {
    /// The scheme, such as `http`, when one was given.
    pub scheme: Option<String>,
    /// The host: the authority without its port. A destination that is
    /// only a path has none.
    pub host: Option<String>,
    /// The port, when it was given explicitly.
    pub port: Option<u16>,
    /// The path with its query. `None` stands for the root path.
    pub path_and_query: Option<String>,
}

/// A destination as plain text and numbers.
pub struct DestinationView {
    pub scheme: Option<Seq<char>>,
    pub host: Option<Seq<char>>,
    pub port: Option<u16>,
    pub path_and_query: Option<Seq<char>>,
}

/// The characters of an optional string.
pub open spec fn text_of(text: Option<String>) -> Option<Seq<char>> {
    match text {
        Some(s) => Some(s@),
        None => None,
    }
}

impl View for Destination {
    type V = DestinationView;

    open spec fn view(&self) -> DestinationView {
        DestinationView {
            scheme: text_of(self.scheme),
            host: text_of(self.host),
            port: self.port,
            path_and_query: text_of(self.path_and_query),
        }
    }
}

impl DestinationView {
    /// The authority: the host, followed by a colon and the port where the
    /// port is explicit. Without a host there is no authority.
    pub open spec fn authority(self) -> Option<Seq<char>> {
        match self.host {
            None => None,
            Some(host) => match self.port {
                Some(port) => Some(authority_text(host, port)),
                None => Some(host),
            },
        }
    }
}

/// A copy of an optional string.
pub(crate) fn copy_text(text: &Option<String>) -> (r: Option<String>)
    ensures
        r == *text,
{
    match text {
        Some(s) => Some(s.clone()),
        None => None,
    }
}

impl Destination {
    /// Whether a host is named.
    pub fn has_host(&self) -> (r: bool)
        ensures
            r == (self.host is Some),
    {
        self.host.is_some()
    }

    /// Whether the port is explicit.
    pub fn has_port(&self) -> (r: bool)
        ensures
            r == (self.port is Some),
    {
        self.port.is_some()
    }

    /// Writes the authority of this destination.
    pub fn authority(&self) -> (r: Option<String>)
        ensures
            text_of(r) == self@.authority(),
    {
        match &self.host {
            None => None,
            Some(host) => match self.port {
                Some(port) => Some(authority(host.as_str(), port)),
                None => Some(host.clone()),
            },
        }
    }
}

} // verus!
