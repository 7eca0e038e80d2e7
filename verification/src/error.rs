//! The errors of endpoint configuration and resolution.

use vstd::prelude::*;

verus! {

/// Why a region name was refused.
#[derive(Debug, Clone, Copy, PartialEq, Eq, Structural)]
pub enum RegionError {
    /// The region name is empty.
    Empty,
    /// The region name holds a character that is no letter, digit or hyphen.
    InvalidCharacter,
}

/// Why a URI was refused.
#[derive(Debug, Clone, Copy, PartialEq, Eq, Structural)]
pub enum InvalidUriError {
    /// The URI parser refused the text; the value is the parser's error code.
    CouldNotParse(i32),
    /// The URI has a path or a query string where none is allowed.
    CannotContainPathOrQueryString,
    /// A component of the URI is not valid UTF-8.
    InvalidUtf8,
}

/// Why the endpoint rules gave no endpoint.
#[derive(Debug)]
pub enum ResolverError {
    /// The rules ended in an error of their own, as they do for options that
    /// no endpoint supports together and for a bucket name that they cannot
    /// place; the value is their message.
    EndpointNotResolved(String),
    /// The rule engine failed, as it does when no rule matches the request;
    /// the value is its error code.
    CrtError(i32),
}

/// What a [`ResolverError`] holds, as mathematical values.
pub enum ResolverErrorView {
    EndpointNotResolved(Seq<char>),
    CrtError(i32),
}

impl View for ResolverError {
    type V = ResolverErrorView;

    open spec fn view(&self) -> ResolverErrorView {
        match self {
            ResolverError::EndpointNotResolved(message) => ResolverErrorView::EndpointNotResolved(
                message@,
            ),
            ResolverError::CrtError(code) => ResolverErrorView::CrtError(*code),
        }
    }
}

impl Clone for ResolverError {
    fn clone(&self) -> (copy: ResolverError)
        ensures
            copy == *self,
    {
        match self {
            ResolverError::EndpointNotResolved(message) => ResolverError::EndpointNotResolved(
                message.clone(),
            ),
            ResolverError::CrtError(code) => ResolverError::CrtError(*code),
        }
    }
}

impl PartialEq for ResolverError {
    fn eq(&self, other: &ResolverError) -> (equal: bool) {
        match (self, other) {
            (ResolverError::EndpointNotResolved(a), ResolverError::EndpointNotResolved(b)) => *a
                == *b,
            (ResolverError::CrtError(a), ResolverError::CrtError(b)) => *a == *b,
            _ => false,
        }
    }
}

impl Eq for ResolverError {

}

impl vstd::std_specs::cmp::PartialEqSpecImpl for ResolverError {
    open spec fn obeys_eq_spec() -> bool {
        true
    }

    open spec fn eq_spec(&self, other: &ResolverError) -> bool {
        self@ == other@
    }
}

/// Why no endpoint could be given.
#[derive(Debug)]
pub enum EndpointError {
    /// A URI was refused.
    InvalidUri(InvalidUriError),
    /// An endpoint URI has a path or a query string.
    InvalidEndpoint,
    /// The endpoint rules gave no endpoint for the configuration; the value
    /// is what they gave in its place.
    UnresolvedEndpoint(ResolverError),
}

/// What an [`EndpointError`] holds, as mathematical values.
pub enum EndpointErrorView {
    InvalidUri(InvalidUriError),
    InvalidEndpoint,
    UnresolvedEndpoint(ResolverErrorView),
}

impl View for EndpointError {
    type V = EndpointErrorView;

    open spec fn view(&self) -> EndpointErrorView {
        match self {
            EndpointError::InvalidUri(cause) => EndpointErrorView::InvalidUri(*cause),
            EndpointError::InvalidEndpoint => EndpointErrorView::InvalidEndpoint,
            EndpointError::UnresolvedEndpoint(cause) => EndpointErrorView::UnresolvedEndpoint(
                cause@,
            ),
        }
    }
}

impl Clone for EndpointError {
    fn clone(&self) -> (copy: EndpointError)
        ensures
            copy == *self,
    {
        match self {
            EndpointError::InvalidUri(cause) => EndpointError::InvalidUri(*cause),
            EndpointError::InvalidEndpoint => EndpointError::InvalidEndpoint,
            EndpointError::UnresolvedEndpoint(cause) => EndpointError::UnresolvedEndpoint(
                cause.clone(),
            ),
        }
    }
}

impl PartialEq for EndpointError {
    fn eq(&self, other: &EndpointError) -> (equal: bool) {
        match (self, other) {
            (EndpointError::InvalidUri(a), EndpointError::InvalidUri(b)) => *a == *b,
            (EndpointError::InvalidEndpoint, EndpointError::InvalidEndpoint) => true,
            (EndpointError::UnresolvedEndpoint(a), EndpointError::UnresolvedEndpoint(b)) => *a
                == *b,
            _ => false,
        }
    }
}

impl Eq for EndpointError {

}

impl vstd::std_specs::cmp::PartialEqSpecImpl for EndpointError {
    open spec fn obeys_eq_spec() -> bool {
        true
    }

    open spec fn eq_spec(&self, other: &EndpointError) -> bool {
        self@ == other@
    }
}

impl From<InvalidUriError> for EndpointError {
    fn from(cause: InvalidUriError) -> (error: EndpointError) {
        EndpointError::InvalidUri(cause)
    }
}

impl vstd::std_specs::convert::FromSpecImpl<InvalidUriError> for EndpointError {
    open spec fn obeys_from_spec() -> bool {
        true
    }

    open spec fn from_spec(cause: InvalidUriError) -> EndpointError {
        EndpointError::InvalidUri(cause)
    }
}

impl From<ResolverError> for EndpointError {
    fn from(cause: ResolverError) -> (error: EndpointError) {
        EndpointError::UnresolvedEndpoint(cause)
    }
}

impl vstd::std_specs::convert::FromSpecImpl<ResolverError> for EndpointError {
    open spec fn obeys_from_spec() -> bool {
        true
    }

    open spec fn from_spec(cause: ResolverError) -> EndpointError {
        EndpointError::UnresolvedEndpoint(cause)
    }
}

} // verus!
