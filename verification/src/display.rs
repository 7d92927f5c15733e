//! Posts as they are shown: with their labels, media and engagement, the
//! most labelled first.

use crate::engagement::UserInfo;
use crate::json::Json;
use crate::ranking::{is_stable_sort, stable_sort, Ranked};
use crate::text::{lemma_lex_asymmetric, lemma_lex_carries, less_than, lex_less};
use crate::types::{AtRecord, Label};
use vstd::prelude::*;

verus! {

/// A post prepared for display.
#[derive(Debug, Clone)]
pub struct PostWithLabels {
    pub uri: String,
    pub text: String,
    /// The labels in force on the post.
    pub labels: Vec<Label>,
    /// When the post was made, as the record says it.
    pub created_at: String,
    pub has_media: bool,
    pub image_urls: Vec<String>,
    pub video_url: Option<String>,
    pub like_count: usize,
    pub repost_count: usize,
    pub likers: Vec<UserInfo>,
    pub reposters: Vec<UserInfo>,
}

impl Ranked for PostWithLabels {
    /// A post stands before one with fewer labels, and before one with as
    /// many labels that was made earlier.
    open spec fn outranks(&self, other: &Self) -> bool {
        self.labels@.len() > other.labels@.len() || (self.labels@.len() == other.labels@.len()
            && lex_less(other.created_at@, self.created_at@))
    }

    proof fn asymmetric(x: &Self, y: &Self) {
        if x.labels@.len() == y.labels@.len() {
            lemma_lex_asymmetric(y.created_at@, x.created_at@);
        }
    }

    proof fn carries(x: &Self, y: &Self, z: &Self) {
        if x.labels@.len() == y.labels@.len() && z.labels@.len() == y.labels@.len() {
            lemma_lex_carries(z.created_at@, y.created_at@, x.created_at@);
        }
    }

    fn ranks_above(&self, other: &Self) -> (r: bool) {
        self.labels.len() > other.labels.len() || (self.labels.len() == other.labels.len()
            && less_than(other.created_at.as_str(), self.created_at.as_str()))
    }
}

/// The string that a record's value holds under `key`, or the empty string.
pub open spec fn text_or_empty(value: Json, key: Seq<char>) -> Seq<char> {
    match value.text_at(key) {
        Some(t) => t,
        None => Seq::empty(),
    }
}

/// The string that a record's value holds under `key`, or the empty string.
pub fn read_text(value: &Json, key: &str) -> (s: String)
    ensures
        s@ == text_or_empty(*value, key@),
{
    match value.get_str(key) {
        Some(t) => t.to_owned(),
        None => String::new(),
    }
}

/// The post `post` with its labels and with what was found of its media
/// and engagement.
pub fn enrich(
    post: &AtRecord,
    labels: Vec<Label>,
    media: (Vec<String>, Option<String>),
    likes: (usize, Vec<UserInfo>),
    reposts: (usize, Vec<UserInfo>),
) -> (shown: PostWithLabels)
    ensures
        shown.uri == post.uri,
        shown.text@ == text_or_empty(post.value, "text"@),
        shown.labels == labels,
        shown.created_at@ == text_or_empty(post.value, "createdAt"@),
        shown.has_media == (media.0@.len() > 0 || media.1 is Some),
        shown.image_urls == media.0,
        shown.video_url == media.1,
        shown.like_count == likes.0,
        shown.likers == likes.1,
        shown.repost_count == reposts.0,
        shown.reposters == reposts.1,
{
    let has_media = media.0.len() > 0 || media.1.is_some();
    PostWithLabels {
        uri: post.uri.clone(),
        text: read_text(&post.value, "text"),
        labels,
        created_at: read_text(&post.value, "createdAt"),
        has_media,
        image_urls: media.0,
        video_url: media.1,
        like_count: likes.0,
        repost_count: reposts.0,
        likers: likes.1,
        reposters: reposts.1,
    }
}

/// The posts in the order of display: by the number of their labels, the
/// most first; among posts with as many labels, the latest first; posts
/// equal in both stay in their input order.
pub fn sort_for_display(posts: Vec<PostWithLabels>) -> (sorted: Vec<PostWithLabels>)
    ensures
        exists|order: Seq<int>| is_stable_sort(posts@, sorted@, order),
{
    stable_sort(posts)
}

} // verus!
