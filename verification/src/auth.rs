//! Opening a session with an account's credentials.

use crate::error::{Error, ErrorView};
use crate::http::Fetched;
use crate::text::join2;
use vstd::prelude::*;
use vstd::string::StringExecFns;

verus! {

/// Where a session is opened.
pub open spec fn session_url() -> Seq<char> {
    "https://bsky.social/xrpc/com.atproto.server.createSession"@
}

/// What is sent to open a session.
#[derive(Debug, Clone, PartialEq, Eq)]
pub struct CreateSessionRequest {
    pub identifier: String,
    pub password: String,
}

/// What an opened session gives.
#[derive(Debug, Clone, PartialEq, Eq)]
pub struct SessionResponse {
    pub access_jwt: String,
    pub refresh_jwt: String,
    pub did: String,
    pub handle: String,
}

/// What a reply to the opening of a session gives as an error, where it
/// gives one.
pub open spec fn session_error(reply: Fetched<SessionResponse>) -> Option<ErrorView> {
    match reply {
        Fetched::Failed { detail } => Some(ErrorView::Network(detail@)),
        Fetched::Refused { status, retry_after, body } => Some(
            ErrorView::ResolutionFailed(
                "Authentication failed (HTTP "@ + status.text@ + "): "@ + body@,
            ),
        ),
        Fetched::Answered { body, parsed: Err(why) } => Some(
            ErrorView::ParseFailure("Failed to parse session response: "@ + why@),
        ),
        Fetched::Answered { body, parsed: Ok(session) } => None,
    }
}

/// The address to post to and what to post there to open a session.
pub fn create_session(identifier: &str, password: &str) -> (r: (String, CreateSessionRequest))
    ensures
        r.0@ == session_url(),
        r.1.identifier@ == identifier@,
        r.1.password@ == password@,
{
    (
        "https://bsky.social/xrpc/com.atproto.server.createSession".to_owned(),
        CreateSessionRequest { identifier: identifier.to_owned(), password: password.to_owned() },
    )
}

/// The session that a reply holds, or the error that says what went wrong.
pub fn read_session(reply: Fetched<SessionResponse>) -> (r: Result<SessionResponse, Error>)
    ensures
        match r {
            Ok(session) => reply matches Fetched::Answered { body, parsed: Ok(held) } && session
                == held,
            Err(e) => session_error(reply) == Some(e@),
        },
{
    match reply {
        Fetched::Failed { detail } => Err(Error::Network(detail)),
        Fetched::Refused { status, retry_after: _, body } => {
            let mut m = String::from_str("Authentication failed (HTTP ");
            m.append(status.text.as_str());
            m.append("): ");
            m.append(body.as_str());
            Err(Error::ResolutionFailed(m))
        },
        Fetched::Answered { body: _, parsed: Err(why) } => Err(
            Error::ParseFailure(join2("Failed to parse session response: ", why.as_str())),
        ),
        Fetched::Answered { body: _, parsed: Ok(session) } => Ok(session),
    }
}

/// The access token of an opened session, or what to tell the user.
pub fn authenticate(outcome: Result<SessionResponse, Error>) -> (r: Result<String, String>)
    ensures
        match outcome {
            Ok(session) => r == Ok::<String, String>(session.access_jwt),
            Err(e) => r is Err && r->Err_0@ == "Authentication failed: "@ + e.spec_message(),
        },
{
    match outcome {
        Ok(session) => Ok(session.access_jwt),
        Err(e) => Err(join2("Authentication failed: ", e.message().as_str())),
    }
}

} // verus!
