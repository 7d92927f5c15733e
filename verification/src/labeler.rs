//! Queries for the labels on accounts and posts.

use crate::encode::{encode, form_text};
use crate::error::{Error, ErrorView};
use crate::http::{Fetched, Next, Request};
use crate::text::{
    first_chars, head, join2, join3, number_in, parse_u64, same_text, starts_with,
};
use crate::types::{is_post_uri, Did, Label, LabelCollection, LabelsResponse};
use vstd::prelude::*;
use vstd::string::StringExecFns;

verus! {

/// Where labels are asked for when no other service is named.
pub open spec fn default_labeler() -> Seq<char> {
    "https://mod.bsky.app"@
}

/// The query string of a label query: one `uriPatterns` parameter for each
/// subject, in order.
pub open spec fn patterns(subjects: Seq<String>) -> Seq<char>
    decreases subjects.len(),
{
    if subjects.len() == 0 {
        Seq::empty()
    } else if subjects.len() == 1 {
        "uriPatterns="@ + form_text(subjects[0]@)
    } else {
        patterns(subjects.drop_last()) + "&"@ + "uriPatterns="@ + form_text(subjects.last()@)
    }
}

/// The address of a label query.
pub open spec fn query_url(service: Seq<char>, subjects: Seq<String>) -> Seq<char> {
    service + "/xrpc/com.atproto.label.queryLabels?"@ + patterns(subjects)
}

/// The `Authorization` header that carries a token.
pub open spec fn bearer(token: Option<String>) -> Option<Seq<char>> {
    match token {
        Some(t) => Some("Bearer "@ + t@),
        None => None,
    }
}

/// Whether two labels speak of the same value on the same subject by the
/// same source.
pub open spec fn same_claim(a: Label, b: Label) -> bool {
    a.val@ == b.val@ && a.uri@ == b.uri@ && a.src@ == b.src@
}

/// Whether a negation after place `i` takes back the label at `i`.
pub open spec fn retracted(labels: Seq<Label>, i: int) -> bool {
    exists|j: int| i < j < labels.len() && (#[trigger] labels[j]).neg && same_claim(labels[i], labels[j])
}

/// Whether the label at place `i` is in force: it is no negation, and no
/// later negation takes it back.
pub open spec fn in_force(labels: Seq<Label>, i: int) -> bool {
    !labels[i].neg && !retracted(labels, i)
}

/// The labels in force among the first `n`, in order.
pub open spec fn active_upto(labels: Seq<Label>, n: int) -> Seq<Label>
    decreases n,
{
    if n <= 0 {
        Seq::empty()
    } else if in_force(labels, n - 1) {
        active_upto(labels, n - 1).push(labels[n - 1])
    } else {
        active_upto(labels, n - 1)
    }
}

/// The labels in force, in order.
pub open spec fn active(labels: Seq<Label>) -> Seq<Label> {
    active_upto(labels, labels.len() as int)
}

/// No label in force is a negation.
pub proof fn active_holds_no_negation(labels: Seq<Label>, n: int)
    requires
        0 <= n <= labels.len(),
    ensures
        forall|i: int|
            0 <= i < active_upto(labels, n).len() ==> !(#[trigger] active_upto(labels, n)[i]).neg,
    decreases n,
{
    if n > 0 {
        active_holds_no_negation(labels, n - 1);
    }
}

/// What is said of a reply that could not be read as labels.
pub open spec fn unreadable_message(why: Seq<char>, body: Seq<char>) -> Seq<char> {
    "Failed to parse label response: "@ + why + ". Response: "@ + head(body, 200)
}

/// The seconds that a `retry-after` header asks for.
pub open spec fn retry_hint(header: Option<String>) -> Option<u64> {
    match header {
        Some(h) => number_in(h@),
        None => None,
    }
}

/// What a reply to a label query gives: the labels in force among those
/// that it holds, or the error that says what went wrong. A status of 429 is a rate limit
/// with the hint of the `retry-after` header, and one of 401 says that a
/// credential is wanted.
pub open spec fn labels_outcome(reply: Fetched<LabelsResponse>) -> Result<Seq<Label>, ErrorView> {
    match reply {
        Fetched::Failed { detail } => Err(ErrorView::Network(detail@)),
        Fetched::Refused { status, retry_after, body } => if status.code == 429 {
            Err(ErrorView::RateLimited(retry_hint(retry_after)))
        } else if status.code == 401 {
            Err(ErrorView::AuthenticationRequired("HTTP "@ + status.text@ + ": "@ + body@))
        } else {
            Err(ErrorView::ServiceUnavailable("HTTP "@ + status.text@ + ": "@ + body@))
        },
        Fetched::Answered { body, parsed: Err(why) } => Err(
            ErrorView::ParseFailure(unreadable_message(why@, body@)),
        ),
        Fetched::Answered { body, parsed: Ok(answer) } => Ok(active(answer.labels@)),
    }
}

/// Whether `r` is the collection that a service at `service` gave at the
/// time `now`, or the error, as `outcome` has it.
pub open spec fn is_collection(
    r: Result<LabelCollection, Error>,
    outcome: Result<Seq<Label>, ErrorView>,
    service: Seq<char>,
    now: i64,
) -> bool {
    match r {
        Ok(c) => outcome == Ok::<Seq<Label>, ErrorView>(c.labels@) && c.labeler_did@ == service
            && c.query_timestamp == now && c.well_formed(),
        Err(e) => outcome == Err::<Seq<Label>, ErrorView>(e@),
    }
}

/// Whether a negation after place `i` takes back the label at `i`.
pub fn is_retracted(labels: &Vec<Label>, i: usize) -> (r: bool)
    requires
        i < labels.len(),
    ensures
        r == retracted(labels@, i as int),
{
    let mut j: usize = i + 1;
    while j < labels.len()
        invariant
            i < j <= labels.len(),
            forall|k: int| i < k < j ==> !((#[trigger] labels@[k]).neg && same_claim(labels@[i as int], labels@[k])),
        decreases labels.len() - j,
    {
        if labels[j].neg && same_text(labels[j].val.as_str(), labels[i].val.as_str()) && same_text(
            labels[j].uri.as_str(),
            labels[i].uri.as_str(),
        ) && same_text(labels[j].src.as_str(), labels[i].src.as_str()) {
            assert(labels@[j as int].neg && same_claim(labels@[i as int], labels@[j as int]));
            return true;
        }
        j = j + 1;
    }
    false
}

/// The labels in force, in order.
pub fn keep_active(labels: &Vec<Label>) -> (kept: Vec<Label>)
    ensures
        kept@ == active(labels@),
{
    let mut kept: Vec<Label> = Vec::new();
    let mut i: usize = 0;
    while i < labels.len()
        invariant
            i <= labels.len(),
            kept@ == active_upto(labels@, i as int),
        decreases labels.len() - i,
    {
        if !labels[i].neg && !is_retracted(labels, i) {
            kept.push(labels[i].duplicate());
        }
        i = i + 1;
    }
    kept
}

/// A client of one label service, with the token that it shows, if any.
#[derive(Debug, Clone)]
pub struct LabelerClient {
    pub labeler_url: String,
    pub auth_token: Option<String>,
}

impl LabelerClient {
    /// A client of the default service, without a token.
    pub fn new() -> (c: Self)
        ensures
            c.labeler_url@ == default_labeler(),
            c.auth_token is None,
    {
        LabelerClient::with_url("https://mod.bsky.app".to_owned())
    }

    /// A client of the default service that shows `auth_token`.
    pub fn new_authenticated(auth_token: String) -> (c: Self)
        ensures
            c.labeler_url@ == default_labeler(),
            c.auth_token == Some(auth_token),
    {
        LabelerClient {
            labeler_url: "https://mod.bsky.app".to_owned(),
            auth_token: Some(auth_token),
        }
    }

    /// A client of the service at `labeler_url`, without a token.
    pub fn with_url(labeler_url: String) -> (c: Self)
        ensures
            c.labeler_url == labeler_url,
            c.auth_token is None,
    {
        LabelerClient { labeler_url, auth_token: None }
    }

    /// This client, showing `auth_token`.
    pub fn with_auth(self, auth_token: String) -> (c: Self)
        ensures
            c.labeler_url == self.labeler_url,
            c.auth_token == Some(auth_token),
    {
        LabelerClient { labeler_url: self.labeler_url, auth_token: Some(auth_token) }
    }

    /// A client of the default service that shows `auth_token` where there
    /// is one.
    pub fn for_token(auth_token: &Option<String>) -> (c: Self)
        ensures
            c.labeler_url@ == default_labeler(),
            optional_header(c.auth_token) == optional_header(*auth_token),
    {
        match auth_token {
            Some(token) => LabelerClient::new_authenticated(token.clone()),
            None => LabelerClient::new(),
        }
    }

    /// A client of the service at `labeler_url` that shows `auth_token`
    /// where there is one.
    pub fn for_host(labeler_url: String, auth_token: &Option<String>) -> (c: Self)
        ensures
            c.labeler_url == labeler_url,
            optional_header(c.auth_token) == optional_header(*auth_token),
    {
        match auth_token {
            Some(token) => LabelerClient::with_url(labeler_url).with_auth(token.clone()),
            None => LabelerClient::with_url(labeler_url),
        }
    }

    /// The collection of a query that found nothing.
    fn empty_collection(&self, now: i64) -> (c: LabelCollection)
        ensures
            c.labels@.len() == 0,
            c.labeler_did@ == self.labeler_url@,
            c.query_timestamp == now,
    {
        LabelCollection {
            labels: Vec::new(),
            labeler_did: self.labeler_url.clone(),
            query_timestamp: now,
        }
    }

    /// The request that asks this service for the labels on `subjects`.
    pub fn query_request(&self, subjects: &Vec<String>) -> (req: Request)
        requires
            subjects@.len() > 0,
        ensures
            req.url@ == query_url(self.labeler_url@, subjects@),
            optional_header(req.authorization) == bearer(self.auth_token),
    {
        let mut query = join2("uriPatterns=", encode(subjects[0].as_str()).as_str());
        let mut i: usize = 1;
        assert(subjects@.take(1) =~= seq![subjects@[0]]);
        while i < subjects.len()
            invariant
                1 <= i <= subjects.len(),
                query@ == patterns(subjects@.take(i as int)),
            decreases subjects.len() - i,
        {
            assert(subjects@.take(i as int + 1).drop_last() =~= subjects@.take(i as int));
            let encoded = encode(subjects[i].as_str());
            query.append("&");
            query.append("uriPatterns=");
            query.append(encoded.as_str());
            i = i + 1;
        }
        assert(subjects@.take(subjects@.len() as int) =~= subjects@);
        let url = join3(
            self.labeler_url.as_str(),
            "/xrpc/com.atproto.label.queryLabels?",
            query.as_str(),
        );
        let authorization = match &self.auth_token {
            Some(token) => Some(join2("Bearer ", token.as_str())),
            None => None,
        };
        Request { url, authorization }
    }

    /// The first step of a query for the labels on `subjects`: the request
    /// to make, or at once the empty collection where there is no subject.
    pub fn query_labels(&self, subjects: &Vec<String>, now: i64) -> (next: Next<LabelCollection>)
        ensures
            subjects@.len() == 0 ==> (next matches Next::Done(Ok(c)) && c.labels@.len() == 0
                && c.labeler_did@ == self.labeler_url@ && c.query_timestamp == now),
            subjects@.len() > 0 ==> (next matches Next::Fetch(req) && req.url@ == query_url(
                self.labeler_url@,
                subjects@,
            ) && optional_header(req.authorization) == bearer(self.auth_token)),
    {
        if subjects.len() == 0 {
            Next::Done(Ok(self.empty_collection(now)))
        } else {
            Next::Fetch(self.query_request(subjects))
        }
    }

    /// The first step of a query for the labels on the account `did`.
    pub fn query_labels_for_did(&self, did: &Did) -> (req: Request)
        ensures
            req.url@ == query_url(self.labeler_url@, seq![did.0]),
            optional_header(req.authorization) == bearer(self.auth_token),
    {
        let mut subjects: Vec<String> = Vec::new();
        subjects.push(did.0.clone());
        assert(subjects@ =~= seq![did.0]);
        self.query_request(&subjects)
    }

    /// The first step of a query for the labels on the post `uri`, or
    /// `InvalidInput` where `uri` has not the shape of a post URI.
    pub fn query_labels_for_uri(&self, uri: &str) -> (next: Next<LabelCollection>)
        ensures
            is_post_uri(uri@) ==> (next matches Next::Fetch(req) && (exists|subject: String|
                subject@ == uri@ && req.url@ == query_url(self.labeler_url@, seq![subject]))
                && optional_header(req.authorization) == bearer(self.auth_token)),
            !is_post_uri(uri@) ==> (next matches Next::Done(Err(e)) && e@
                == ErrorView::InvalidInput("URI must start with at://"@)),
    {
        if !starts_with(uri, "at://") {
            return Next::Done(Err(Error::InvalidInput("URI must start with at://".to_owned())));
        }
        let mut subjects: Vec<String> = Vec::new();
        let subject = uri.to_owned();
        subjects.push(uri.to_owned());
        assert(subjects@ =~= seq![subjects@[0]]);
        Next::Fetch(self.query_request(&subjects))
    }

    /// The end of a query: the collection that the reply gives, stamped
    /// with the time `now`, or the error.
    pub fn read_labels(&self, reply: &Fetched<LabelsResponse>, now: i64) -> (r: Result<
        LabelCollection,
        Error,
    >)
        ensures
            is_collection(r, labels_outcome(*reply), self.labeler_url@, now),
    {
        match reply {
            Fetched::Failed { detail } => Err(Error::Network(detail.clone())),
            Fetched::Refused { status, retry_after, body } => {
                if status.code == 429 {
                    let hint = match retry_after {
                        Some(h) => parse_u64(h.as_str()),
                        None => None,
                    };
                    Err(Error::RateLimited(hint))
                } else {
                    let mut m = String::from_str("HTTP ");
                    m.append(status.text.as_str());
                    m.append(": ");
                    m.append(body.as_str());
                    if status.code == 401 {
                        Err(Error::AuthenticationRequired(m))
                    } else {
                        Err(Error::ServiceUnavailable(m))
                    }
                }
            },
            Fetched::Answered { body, parsed: Err(why) } => {
                let shown = first_chars(body.as_str(), 200);
                let mut m = String::from_str("Failed to parse label response: ");
                m.append(why.as_str());
                m.append(". Response: ");
                m.append(shown.as_str());
                Err(Error::ParseFailure(m))
            },
            Fetched::Answered { body: _, parsed: Ok(answer) } => {
                let labels = keep_active(&answer.labels);
                proof {
                    active_holds_no_negation(answer.labels@, answer.labels@.len() as int);
                }
                Ok(
                    LabelCollection {
                        labels,
                        labeler_did: self.labeler_url.clone(),
                        query_timestamp: now,
                    },
                )
            },
        }
    }
}

/// The view of an optional header.
pub open spec fn optional_header(h: Option<String>) -> Option<Seq<char>> {
    match h {
        Some(x) => Some(x@),
        None => None,
    }
}

impl Default for LabelerClient {
    fn default() -> (c: Self)
        ensures
            c.labeler_url@ == default_labeler(),
            c.auth_token is None,
    {
        LabelerClient::new()
    }
}

} // verus!
