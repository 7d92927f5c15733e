//! Requests to make and answers that came, as plain values.
//!
//! The library never talks to the network. It says which request to make,
//! and is told what came of it.

use crate::error::Error;
use vstd::prelude::*;

verus! {

/// The status of an answer: its code, and the code with its reason phrase
/// as it is written in messages, such as `403 Forbidden`.
#[derive(Debug, Clone, PartialEq, Eq)]
pub struct Status {
    pub code: u16,
    pub text: String,
}

/// Whether a status code says success.
pub open spec fn is_success_code(code: u16) -> bool {
    200 <= code <= 299
}

impl Status {
    pub fn is_success(&self) -> (r: bool)
        ensures
            r == is_success_code(self.code),
    {
        200 <= self.code && self.code <= 299
    }
}

/// A GET request: its address and, where a credential goes with it, the
/// value of the `Authorization` header.
#[derive(Debug, Clone, PartialEq, Eq)]
pub struct Request {
    pub url: String,
    pub authorization: Option<String>,
}

/// What to do next: make a request and come back with what it gave, or
/// stop with a result.
#[derive(Debug)]
pub enum Next<T> {
    Fetch(Request),
    Done(Result<T, Error>),
}

/// What came of a request.
#[derive(Debug)]
pub enum Fetched<T> {
    /// No answer came; `detail` is what the transport said.
    Failed { detail: String },
    /// An answer outside 2xx, with its `retry-after` header where it has
    /// one and its body as text.
    Refused { status: Status, retry_after: Option<String>, body: String },
    /// An answer within 2xx: its body as text, and the value read from it
    /// or why none could be read.
    Answered { body: String, parsed: Result<T, String> },
}

/// A request without a credential.
pub fn plain_request(url: String) -> (r: Request)
    ensures
        r.url == url,
        r.authorization is None,
{
    Request { url, authorization: None }
}

} // verus!
