//! What can go wrong, and how it is told.

use crate::text::{decimal, decimal_string, join2, join3};
use vstd::prelude::*;

verus! {

/// The ways in which a request of this library fails.
#[derive(Debug, Clone, PartialEq, Eq)]
pub enum Error {
    /// A handle, an identifier or a URI is malformed.
    InvalidInput(String),
    /// A handle or an identifier could not be mapped.
    ResolutionFailed(String),
    /// The lookup of a handle was blocked on the way.
    ResolutionBlocked(String),
    /// The identifier is of a method that is not handled.
    UnsupportedMethod(String),
    /// A service answered outside 2xx.
    ServiceUnavailable(String),
    /// The service asks to slow down, perhaps saying for how many seconds.
    RateLimited(Option<u64>),
    /// The service wants a credential.
    AuthenticationRequired(String),
    /// An answer could not be read.
    ParseFailure(String),
    /// The transport failed.
    Network(String),
}

/// An error with its detail as characters.
pub enum ErrorView {
    InvalidInput(Seq<char>),
    ResolutionFailed(Seq<char>),
    ResolutionBlocked(Seq<char>),
    UnsupportedMethod(Seq<char>),
    ServiceUnavailable(Seq<char>),
    RateLimited(Option<u64>),
    AuthenticationRequired(Seq<char>),
    ParseFailure(Seq<char>),
    Network(Seq<char>),
}

impl View for Error {
    type V = ErrorView;

    open spec fn view(&self) -> ErrorView {
        match self {
            Error::InvalidInput(d) => ErrorView::InvalidInput(d@),
            Error::ResolutionFailed(d) => ErrorView::ResolutionFailed(d@),
            Error::ResolutionBlocked(d) => ErrorView::ResolutionBlocked(d@),
            Error::UnsupportedMethod(d) => ErrorView::UnsupportedMethod(d@),
            Error::ServiceUnavailable(d) => ErrorView::ServiceUnavailable(d@),
            Error::RateLimited(n) => ErrorView::RateLimited(*n),
            Error::AuthenticationRequired(d) => ErrorView::AuthenticationRequired(d@),
            Error::ParseFailure(d) => ErrorView::ParseFailure(d@),
            Error::Network(d) => ErrorView::Network(d@),
        }
    }
}

impl Error {
    /// The message of this error.
    pub open spec fn spec_message(&self) -> Seq<char> {
        match self {
            Error::InvalidInput(d) => "Invalid input: "@ + d@,
            Error::ResolutionFailed(d) => "Failed to resolve handle: "@ + d@,
            Error::ResolutionBlocked(d) => "Failed to resolve handle: "@ + d@,
            Error::UnsupportedMethod(d) => "Failed to resolve handle: "@ + d@,
            Error::ServiceUnavailable(d) => "Labeler service unavailable: "@ + d@,
            Error::RateLimited(Some(n)) => "Rate limited: retry after Some("@ + decimal(*n as nat)
                + ") seconds"@,
            Error::RateLimited(None) => "Rate limited: retry after None seconds"@,
            Error::AuthenticationRequired(d) => "Authentication required: "@ + d@,
            Error::ParseFailure(d) => "Parse error: "@ + d@,
            Error::Network(d) => "Network error: "@ + d@,
        }
    }

    /// The message of this error.
    pub fn message(&self) -> (m: String)
        ensures
            m@ == self.spec_message(),
    {
        match self {
            Error::InvalidInput(d) => join2("Invalid input: ", d.as_str()),
            Error::ResolutionFailed(d) => join2("Failed to resolve handle: ", d.as_str()),
            Error::ResolutionBlocked(d) => join2("Failed to resolve handle: ", d.as_str()),
            Error::UnsupportedMethod(d) => join2("Failed to resolve handle: ", d.as_str()),
            Error::ServiceUnavailable(d) => join2("Labeler service unavailable: ", d.as_str()),
            Error::RateLimited(Some(n)) => {
                let digits = decimal_string(*n);
                join3("Rate limited: retry after Some(", digits.as_str(), ") seconds")
            },
            Error::RateLimited(None) => "Rate limited: retry after None seconds".to_owned(),
            Error::AuthenticationRequired(d) => join2("Authentication required: ", d.as_str()),
            Error::ParseFailure(d) => join2("Parse error: ", d.as_str()),
            Error::Network(d) => join2("Network error: ", d.as_str()),
        }
    }

    /// Whether this error says that a credential is wanted.
    pub fn is_authentication_required(&self) -> (r: bool)
        ensures
            r == (self is AuthenticationRequired),
    {
        match self {
            Error::AuthenticationRequired(_) => true,
            _ => false,
        }
    }
}

} // verus!
