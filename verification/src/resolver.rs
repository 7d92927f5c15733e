//! From a handle to an identifier, and from an identifier to the data host
//! of its account.
//!
//! A handle is first looked up as a DNS TXT record; where that gives no
//! identifier, a directory is asked. Each function here either names the
//! request to make next or reads what a request gave.

use crate::encode::{encode, form_text};
use crate::error::{Error, ErrorView};
use crate::http::{plain_request, Fetched, Next};
use crate::json::Json;
use crate::text::{
    contains_text, has_part, has_prefix, join2, join3, same_text, starts_with, strip_prefix,
    trim_both, trim_matches,
};
use crate::types::{is_did, is_handle, Did, Handle};
use vstd::prelude::*;
use vstd::string::StringExecFns;

verus! {

/// The address that asks for the TXT record of a handle.
pub open spec fn dns_url(handle: Seq<char>) -> Seq<char> {
    "https://dns.google/resolve?name=_atproto."@ + form_text(handle) + "&type=TXT"@
}

/// The address that asks the directory for the identifier of a handle.
pub open spec fn directory_url(handle: Seq<char>) -> Seq<char> {
    "https://public.api.bsky.app/xrpc/com.atproto.identity.resolveHandle?handle="@ + form_text(
        handle,
    )
}

/// The identifier that a TXT record names: the record without the quotes
/// around it is `did=` and a well-formed identifier.
pub open spec fn did_in_record(data: Seq<char>) -> Option<Seq<char>> {
    let clean = trim_both(data, '"');
    let rest = clean.subrange("did="@.len() as int, clean.len() as int);
    if has_prefix(clean, "did="@) && is_did(rest) {
        Some(rest)
    } else {
        None
    }
}

/// The identifier that one answer of a DNS reply names.
pub open spec fn did_in_answer(answer: Json) -> Option<Seq<char>> {
    match answer.text_at("data"@) {
        Some(data) => did_in_record(data),
        None => None,
    }
}

/// The identifier that the first answer names that names one.
pub open spec fn did_in_answers(answers: Seq<Json>) -> Option<Seq<char>>
    decreases answers.len(),
{
    if answers.len() == 0 {
        None
    } else if did_in_answer(answers[0]) is Some {
        did_in_answer(answers[0])
    } else {
        did_in_answers(answers.subrange(1, answers.len() as int))
    }
}

/// The identifier that a DNS reply gives, if it gives one: the reply must
/// be within 2xx and readable, and hold answers of which one names it.
pub open spec fn did_in_dns(reply: Fetched<Json>) -> Option<Seq<char>> {
    match reply {
        Fetched::Answered { body, parsed: Ok(json) } => match json.items_at("Answer"@) {
            Some(answers) => did_in_answers(answers),
            None => None,
        },
        _ => None,
    }
}

/// What is said when the lookup was blocked on the way.
pub open spec fn blocked_message(handle: Seq<char>) -> Seq<char> {
    "Cannot resolve handle '"@ + handle
        + "': Cross-origin request blocked. This domain may not have proper ATproto configuration. For custom domains, ensure DNS TXT record '_atproto."@
        + handle + "' is set correctly."@
}

/// `Details: ` and the body of an answer, or nothing for an empty body.
pub open spec fn details(body: Seq<char>) -> Seq<char> {
    if body.len() > 0 {
        "Details: "@ + body
    } else {
        Seq::empty()
    }
}

/// What is said when the directory answered outside 2xx.
pub open spec fn refused_message(handle: Seq<char>, status: Seq<char>, body: Seq<char>) -> Seq<char> {
    "Could not resolve handle '"@ + handle + "' (HTTP "@ + status
        + "). This handle may not exist or may not be properly configured for ATproto. "@
        + details(body)
}

/// What the directory's reply gives for `handle`: the identifier that it
/// names under `did` where that is well formed, else the error that says
/// what went wrong. A transport failure that speaks of `CORS` or
/// `NetworkError` is a blocked lookup.
pub open spec fn directory_outcome(handle: Seq<char>, reply: Fetched<Json>) -> Result<
    Seq<char>,
    ErrorView,
> {
    match reply {
        Fetched::Failed { detail } => if has_part(detail@, "CORS"@) || has_part(
            detail@,
            "NetworkError"@,
        ) {
            Err(ErrorView::ResolutionBlocked(blocked_message(handle)))
        } else {
            Err(
                ErrorView::ResolutionFailed(
                    "Failed to resolve handle '"@ + handle + "': "@ + detail@,
                ),
            )
        },
        Fetched::Refused { status, retry_after, body } => Err(
            ErrorView::ResolutionFailed(refused_message(handle, status.text@, body@)),
        ),
        Fetched::Answered { body, parsed: Err(why) } => Err(
            ErrorView::ResolutionFailed("Failed to parse response: "@ + why@),
        ),
        Fetched::Answered { body, parsed: Ok(json) } => match json.text_at("did"@) {
            Some(did) => if is_did(did) {
                Ok(did)
            } else {
                Err(ErrorView::ResolutionFailed("Invalid DID returned: "@ + did))
            },
            None => Err(
                ErrorView::ResolutionFailed("No DID found for handle '"@ + handle + "'"@),
            ),
        },
    }
}

/// The view of an identifier or of the error in its place.
pub open spec fn did_result_view(r: Result<Did, Error>) -> Result<Seq<char>, ErrorView> {
    match r {
        Ok(did) => Ok(did.0@),
        Err(e) => Err(e@),
    }
}

/// The view of a string or of the error in its place.
pub open spec fn string_result_view(r: Result<String, Error>) -> Result<Seq<char>, ErrorView> {
    match r {
        Ok(s) => Ok(s@),
        Err(e) => Err(e@),
    }
}

/// `Details: ` and the body of an answer, or nothing for an empty body.
pub fn details_of(body: &str) -> (s: String)
    ensures
        s@ == details(body@),
{
    if body.unicode_len() > 0 {
        join2("Details: ", body)
    } else {
        String::new()
    }
}

/// The first step of resolving `handle`: the DNS request to make, or
/// `InvalidInput` for a handle that is not well formed.
pub fn resolve_handle(handle: &Handle) -> (next: Next<Did>)
    ensures
        is_handle(handle.0@) ==> (next matches Next::Fetch(req) && req.url@ == dns_url(handle.0@) && req.authorization is None),
        !is_handle(handle.0@) ==> (next matches Next::Done(Err(e)) && e@
            == ErrorView::InvalidInput("Invalid handle format: "@ + handle.0@)),
{
    if !handle.validate() {
        return Next::Done(
            Err(Error::InvalidInput(join2("Invalid handle format: ", handle.as_str()))),
        );
    }
    let encoded = encode(handle.as_str());
    Next::Fetch(
        plain_request(
            join3("https://dns.google/resolve?name=_atproto.", encoded.as_str(), "&type=TXT"),
        ),
    )
}

/// The identifier that a TXT record names.
pub fn read_txt_record(data: &str) -> (r: Option<Did>)
    ensures
        match r {
            Some(did) => did_in_record(data@) == Some(did.0@),
            None => did_in_record(data@) is None,
        },
{
    let clean = trim_matches(data, '"');
    match strip_prefix(clean.as_str(), "did=") {
        Some(rest) => {
            let did = Did::new(rest);
            if did.validate() {
                Some(did)
            } else {
                None
            }
        },
        None => None,
    }
}

/// The identifier that a DNS reply gives.
pub fn read_dns_reply(reply: &Fetched<Json>) -> (r: Option<Did>)
    ensures
        match r {
            Some(did) => did_in_dns(*reply) == Some(did.0@),
            None => did_in_dns(*reply) is None,
        },
{
    match reply {
        Fetched::Answered { body: _, parsed: Ok(json) } => {
            match json.get_array("Answer") {
                Some(answers) => {
                    let mut i: usize = 0;
                    assert(answers@.subrange(0, answers@.len() as int) =~= answers@);
                    while i < answers.len()
                        invariant
                            i <= answers.len(),
                            did_in_dns(*reply) == did_in_answers(answers@),
                            did_in_answers(answers@) == did_in_answers(
                                answers@.subrange(i as int, answers@.len() as int),
                            ),
                        decreases answers.len() - i,
                    {
                        let ghost rest = answers@.subrange(i as int, answers@.len() as int);
                        assert(rest[0] == answers@[i as int]);
                        match answers[i].get_str("data") {
                            Some(data) => {
                                match read_txt_record(data) {
                                    Some(did) => {
                                        return Some(did);
                                    },
                                    None => {},
                                }
                            },
                            None => {},
                        }
                        assert(rest.subrange(1, rest.len() as int) =~= answers@.subrange(
                            i as int + 1,
                            answers@.len() as int,
                        ));
                        i = i + 1;
                    }
                    None
                },
                None => None,
            }
        },
        _ => None,
    }
}

/// The step after the DNS request: done where its reply names an
/// identifier, else the request to the directory.
pub fn after_dns(handle: &Handle, reply: &Fetched<Json>) -> (next: Next<Did>)
    ensures
        match did_in_dns(*reply) {
            Some(did) => next matches Next::Done(Ok(found)) && found.0@ == did,
            None => next matches Next::Fetch(req) && req.url@ == directory_url(handle.0@)
                && req.authorization is None,
        },
{
    match read_dns_reply(reply) {
        Some(did) => Next::Done(Ok(did)),
        None => {
            let encoded = encode(handle.as_str());
            Next::Fetch(
                plain_request(
                    join2(
                        "https://public.api.bsky.app/xrpc/com.atproto.identity.resolveHandle?handle=",
                        encoded.as_str(),
                    ),
                ),
            )
        },
    }
}

/// The end of resolving `handle`: what the directory's reply gives.
pub fn after_directory(handle: &Handle, reply: &Fetched<Json>) -> (r: Result<Did, Error>)
    ensures
        did_result_view(r) == directory_outcome(handle.0@, *reply),
{
    let h = handle.as_str();
    match reply {
        Fetched::Failed { detail } => {
            if contains_text(detail.as_str(), "CORS") || contains_text(
                detail.as_str(),
                "NetworkError",
            ) {
                let mut m = String::from_str("Cannot resolve handle '");
                m.append(h);
                m.append(
                    "': Cross-origin request blocked. This domain may not have proper ATproto configuration. For custom domains, ensure DNS TXT record '_atproto.",
                );
                m.append(h);
                m.append("' is set correctly.");
                Err(Error::ResolutionBlocked(m))
            } else {
                let mut m = String::from_str("Failed to resolve handle '");
                m.append(h);
                m.append("': ");
                m.append(detail.as_str());
                Err(Error::ResolutionFailed(m))
            }
        },
        Fetched::Refused { status, retry_after: _, body } => {
            let tail = details_of(body.as_str());
            let mut m = String::from_str("Could not resolve handle '");
            m.append(h);
            m.append("' (HTTP ");
            m.append(status.text.as_str());
            m.append(
                "). This handle may not exist or may not be properly configured for ATproto. ",
            );
            m.append(tail.as_str());
            Err(Error::ResolutionFailed(m))
        },
        Fetched::Answered { body: _, parsed: Err(why) } => Err(
            Error::ResolutionFailed(join2("Failed to parse response: ", why.as_str())),
        ),
        Fetched::Answered { body: _, parsed: Ok(json) } => {
            match json.get_str("did") {
                Some(text) => {
                    let did = Did::new(text.to_owned());
                    if did.validate() {
                        Ok(did)
                    } else {
                        Err(Error::ResolutionFailed(join2("Invalid DID returned: ", text)))
                    }
                },
                None => Err(
                    Error::ResolutionFailed(join3("No DID found for handle '", h, "'")),
                ),
            }
        },
    }
}

/// Whether an entry of a service list names the data host of the account.
pub open spec fn data_host_of(service: Json) -> Option<Seq<char>> {
    if service.text_at("type"@) == Some("AtprotoPersonalDataServer"@) {
        service.text_at("serviceEndpoint"@)
    } else {
        None
    }
}

/// The data host that the first entry names that names one.
pub open spec fn data_host_in(services: Seq<Json>) -> Option<Seq<char>>
    decreases services.len(),
{
    if services.len() == 0 {
        None
    } else if data_host_of(services[0]) is Some {
        data_host_of(services[0])
    } else {
        data_host_in(services.subrange(1, services.len() as int))
    }
}

/// The data host that an identifier's document names.
pub open spec fn data_host(document: Json) -> Option<Seq<char>> {
    match document.items_at("service"@) {
        Some(services) => data_host_in(services),
        None => None,
    }
}

/// Whether the identifier is of the method that the directory serves.
pub open spec fn is_directory_method(did: Seq<char>) -> bool {
    has_prefix(did, "did:plc:"@)
}

/// What the directory's reply to the request for a document gives: the
/// data host that the document names, else the error that says what went
/// wrong.
pub open spec fn document_outcome(reply: Fetched<Json>) -> Result<Seq<char>, ErrorView> {
    match reply {
        Fetched::Failed { detail } => Err(
            ErrorView::ResolutionFailed("Failed to fetch DID document: "@ + detail@),
        ),
        Fetched::Refused { status, retry_after, body } => Err(
            ErrorView::ResolutionFailed("HTTP "@ + status.text@ + " from PLC directory"@),
        ),
        Fetched::Answered { body, parsed: Err(why) } => Err(
            ErrorView::ResolutionFailed("Failed to parse DID document: "@ + why@),
        ),
        Fetched::Answered { body, parsed: Ok(document) } => match data_host(document) {
            Some(endpoint) => Ok(endpoint),
            None => Err(ErrorView::ResolutionFailed("No PDS endpoint found in DID document"@)),
        },
    }
}

/// The first step of finding the data host of `did`: the request for its
/// document, or `UnsupportedMethod` for an identifier of another method.
pub fn resolve_did(did: &Did) -> (next: Next<String>)
    ensures
        is_directory_method(did.0@) ==> (next matches Next::Fetch(req) && req.url@
            == "https://plc.directory/"@ + did.0@ && req.authorization is None),
        !is_directory_method(did.0@) ==> (next matches Next::Done(Err(e)) && e@
            == ErrorView::UnsupportedMethod("Unsupported DID method: "@ + did.0@)),
{
    if starts_with(did.as_str(), "did:plc:") {
        Next::Fetch(plain_request(join2("https://plc.directory/", did.as_str())))
    } else {
        Next::Done(Err(Error::UnsupportedMethod(join2("Unsupported DID method: ", did.as_str()))))
    }
}

/// The data host that an identifier's document names.
pub fn read_data_host(document: &Json) -> (r: Option<String>)
    ensures
        match r {
            Some(endpoint) => data_host(*document) == Some(endpoint@),
            None => data_host(*document) is None,
        },
{
    match document.get_array("service") {
        Some(services) => {
            let mut i: usize = 0;
            assert(services@.subrange(0, services@.len() as int) =~= services@);
            while i < services.len()
                invariant
                    i <= services.len(),
                    data_host(*document) == data_host_in(services@),
                    data_host_in(services@) == data_host_in(
                        services@.subrange(i as int, services@.len() as int),
                    ),
                decreases services.len() - i,
            {
                let ghost rest = services@.subrange(i as int, services@.len() as int);
                assert(rest[0] == services@[i as int]);
                match services[i].get_str("type") {
                    Some(kind) => {
                        if same_text(kind, "AtprotoPersonalDataServer") {
                            match services[i].get_str("serviceEndpoint") {
                                Some(endpoint) => {
                                    return Some(endpoint.to_owned());
                                },
                                None => {},
                            }
                        }
                    },
                    None => {},
                }
                assert(rest.subrange(1, rest.len() as int) =~= services@.subrange(
                    i as int + 1,
                    services@.len() as int,
                ));
                i = i + 1;
            }
            None
        },
        None => None,
    }
}

/// The end of finding a data host: what the directory's reply gives.
pub fn after_document(reply: &Fetched<Json>) -> (r: Result<String, Error>)
    ensures
        string_result_view(r) == document_outcome(*reply),
{
    match reply {
        Fetched::Failed { detail } => Err(
            Error::ResolutionFailed(join2("Failed to fetch DID document: ", detail.as_str())),
        ),
        Fetched::Refused { status, retry_after: _, body: _ } => Err(
            Error::ResolutionFailed(join3("HTTP ", status.text.as_str(), " from PLC directory")),
        ),
        Fetched::Answered { body: _, parsed: Err(why) } => Err(
            Error::ResolutionFailed(join2("Failed to parse DID document: ", why.as_str())),
        ),
        Fetched::Answered { body: _, parsed: Ok(document) } => {
            match read_data_host(document) {
                Some(endpoint) => Ok(endpoint),
                None => Err(
                    Error::ResolutionFailed("No PDS endpoint found in DID document".to_owned()),
                ),
            }
        },
    }
}

} // verus!
