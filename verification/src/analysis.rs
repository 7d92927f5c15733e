//! The course of an analysis: what is asked of whom, what an error does to
//! it, and what comes out.

use crate::display::{sort_for_display, PostWithLabels};
use crate::error::Error;
use crate::ranking::is_stable_sort;
use crate::stats::{compute_stats, empty_stats, is_stats_of, BulkAnalysisStats};
use crate::text::{contains_char, has_prefix, join2, starts_with, trim_start, trim_start_matches};
use crate::types::{is_post_uri, AtRecord, Did, Handle, Label, LabelCollection};
use vstd::prelude::*;

verus! {

/// What a reader asks about.
#[derive(Debug, Clone, PartialEq, Eq)]
pub enum Subject {
    /// A post, by its URI.
    Post(String),
    /// An account, by its identifier.
    Account(Did),
    /// An account, by its handle.
    Named(Handle),
}

/// What a reader typed, without the `@` that may stand before a handle.
pub open spec fn subject_text(input: Seq<char>) -> Seq<char> {
    trim_start(input, '@')
}

/// What a reader typed, without the `@` that may stand before a handle.
pub fn normalize_subject(input: &str) -> (s: String)
    ensures
        s@ == subject_text(input@),
{
    trim_start_matches(input, '@')
}

/// What is said of an input that is neither a handle, an identifier nor a
/// post URI.
pub open spec fn unknown_subject() -> Seq<char> {
    "Invalid input format. Expected handle, DID, or AT-URI"@
}

/// What a label query is about: a post where the input begins with
/// `at://`, an account by identifier where it begins with `did:`, an
/// account by handle where it holds a dot; anything else is refused.
pub fn classify_subject(input: &str) -> (r: Result<Subject, String>)
    ensures
        match r {
            Ok(Subject::Post(uri)) => uri@ == subject_text(input@) && is_post_uri(uri@),
            Ok(Subject::Account(did)) => did.0@ == subject_text(input@) && !is_post_uri(did.0@)
                && has_prefix(did.0@, "did:"@),
            Ok(Subject::Named(handle)) => handle.0@ == subject_text(input@) && !is_post_uri(
                handle.0@,
            ) && !has_prefix(handle.0@, "did:"@) && handle.0@.contains('.'),
            Err(why) => why@ == unknown_subject() && !is_post_uri(subject_text(input@))
                && !has_prefix(subject_text(input@), "did:"@) && !subject_text(input@).contains(
                '.',
            ),
        },
{
    let text = normalize_subject(input);
    if starts_with(text.as_str(), "at://") {
        Ok(Subject::Post(text))
    } else if starts_with(text.as_str(), "did:") {
        Ok(Subject::Account(Did::new(text)))
    } else if contains_char(text.as_str(), '.') {
        Ok(Subject::Named(Handle::new(text)))
    } else {
        Err("Invalid input format. Expected handle, DID, or AT-URI".to_owned())
    }
}

/// Whose posts an analysis looks at: the account of the identifier where
/// the input begins with `did:`, else the account of the handle.
pub fn analysis_subject(input: &str) -> (r: Subject)
    ensures
        match r {
            Subject::Account(did) => did.0@ == subject_text(input@) && has_prefix(
                did.0@,
                "did:"@,
            ),
            Subject::Named(handle) => handle.0@ == subject_text(input@) && !has_prefix(
                handle.0@,
                "did:"@,
            ),
            Subject::Post(_) => false,
        },
{
    let text = normalize_subject(input);
    if starts_with(text.as_str(), "did:") {
        Subject::Account(Did::new(text))
    } else {
        Subject::Named(Handle::new(text))
    }
}

/// What the failure to resolve a handle tells the reader.
pub fn resolution_failure(e: &Error) -> (m: String)
    ensures
        m@ == "Failed to resolve handle: "@ + e.spec_message(),
{
    join2("Failed to resolve handle: ", e.message().as_str())
}

/// What the failure to fetch the posts tells the reader.
pub fn fetch_failure(e: &Error) -> (m: String)
    ensures
        m@ == "Failed to fetch posts: "@ + e.spec_message(),
{
    join2("Failed to fetch posts: ", e.message().as_str())
}

/// What a label query adds to an analysis. Its labels where it went well;
/// nothing where it failed, so that the analysis goes on with what it has.
/// Only a service that wants a credential stops the analysis, with the
/// words of its error: without the credential the labels would be known
/// to be incomplete.
pub fn absorb(outcome: Result<LabelCollection, Error>) -> (r: Result<Vec<Label>, String>)
    ensures
        match outcome {
            Ok(collection) => r == Ok::<Vec<Label>, String>(collection.labels),
            Err(e) => if e is AuthenticationRequired {
                r is Err && r->Err_0@ == e.spec_message()
            } else {
                r is Ok && r->Ok_0@.len() == 0
            },
        },
{
    match outcome {
        Ok(collection) => Ok(collection.labels),
        Err(e) => {
            if e.is_authentication_required() {
                Err(e.message())
            } else {
                Ok(Vec::new())
            }
        },
    }
}

/// The labels on one subject from what the label service said and, where
/// the data host of the account was asked too, from what it said: those of
/// the service, then those of the host, under the name `multiple` and the
/// time `now`. Either wanting a credential stops the query.
pub fn fetch_labels(
    service: Result<LabelCollection, Error>,
    host: Option<Result<LabelCollection, Error>>,
    now: i64,
) -> (r: Result<LabelCollection, String>)
    ensures
        match r {
            Ok(c) => labels_of(service) is Some && (match host {
                Some(second) => labels_of(second) is Some && c.labels@ == labels_of(service)->0
                    + labels_of(second)->0,
                None => c.labels@ == labels_of(service)->0,
            }) && c.labeler_did@ == "multiple"@ && c.query_timestamp == now && (held_in_force(
                service,
            ) && (host is Some ==> held_in_force(host->0)) ==> c.well_formed()),
            Err(why) => stops(service, why@) || (labels_of(service) is Some && host is Some
                && stops(host->0, why@)),
        },
{
    let mut all = match absorb(service) {
        Ok(labels) => labels,
        Err(why) => {
            return Err(why);
        },
    };
    match host {
        Some(second) => {
            match absorb(second) {
                Ok(labels) => {
                    let mut more = labels;
                    all.append(&mut more);
                },
                Err(why) => {
                    return Err(why);
                },
            }
        },
        None => {},
    }
    Ok(LabelCollection { labels: all, labeler_did: "multiple".to_owned(), query_timestamp: now })
}

/// Whether what a query found holds no negation.
pub open spec fn held_in_force(outcome: Result<LabelCollection, Error>) -> bool {
    match outcome {
        Ok(collection) => collection.well_formed(),
        Err(_) => true,
    }
}

/// The labels that a query adds to an analysis, where it does not stop it.
pub open spec fn labels_of(outcome: Result<LabelCollection, Error>) -> Option<Seq<Label>> {
    match outcome {
        Ok(collection) => Some(collection.labels@),
        Err(e) => if e is AuthenticationRequired {
            None
        } else {
            Some(Seq::empty())
        },
    }
}

/// Whether a query stops an analysis with the words `why`.
pub open spec fn stops(outcome: Result<LabelCollection, Error>, why: Seq<char>) -> bool {
    match outcome {
        Ok(_) => false,
        Err(e) => e is AuthenticationRequired && why == e.spec_message(),
    }
}

/// The URIs of `posts`, in order.
pub fn post_uris(posts: &Vec<AtRecord>) -> (uris: Vec<String>)
    ensures
        uris@.len() == posts@.len(),
        forall|i: int| 0 <= i < posts@.len() ==> #[trigger] uris@[i] == posts@[i].uri,
{
    let mut uris: Vec<String> = Vec::new();
    let mut i: usize = 0;
    while i < posts.len()
        invariant
            i <= posts.len(),
            uris@.len() == i,
            forall|k: int| 0 <= k < i ==> #[trigger] uris@[k] == posts@[k].uri,
        decreases posts.len() - i,
    {
        uris.push(posts[i].uri.clone());
        i = i + 1;
    }
    uris
}

/// What an analysis gives: the statistics of the posts and labels, and the
/// posts that are shown, in the order of display. Of an account without
/// posts there is nothing to count and nothing to show.
pub fn analyze_user_posts(
    posts: &Vec<AtRecord>,
    account: &Vec<Label>,
    combined: &Vec<Label>,
    shown: Vec<PostWithLabels>,
) -> (r: (BulkAnalysisStats, Vec<PostWithLabels>))
    ensures
        posts@.len() == 0 ==> r.0.total_posts == 0 && r.0.posts_with_labels == 0
            && r.0.labels_by_category@.len() == 0 && r.0.top_label_values@.len() == 0
            && r.0.account_labels@.len() == 0 && r.1@.len() == 0,
        posts@.len() > 0 ==> is_stats_of(r.0, posts.len(), combined@, account@),
        posts@.len() > 0 ==> exists|order: Seq<int>| is_stable_sort(shown@, r.1@, order),
{
    if posts.len() == 0 {
        return (empty_stats(), Vec::new());
    }
    let stats = compute_stats(posts.len(), combined, account);
    let ghost input = shown@;
    let sorted = sort_for_display(shown);
    let r = (stats, sorted);
    proof {
        let order = choose|order: Seq<int>| is_stable_sort(input, r.1@, order);
        assert(is_stable_sort(shown@, r.1@, order));
    }
    r
}

} // verus!
