//! Identifiers, handles, labels and the records that carry them.

use crate::json::Json;
use crate::text::{chars_of, contains_char, has_prefix, same_text, starts_with};
use vstd::prelude::*;

verus! {

/// Whether `s` has the shape of an account identifier: it begins with
/// `did:` and something follows.
pub open spec fn is_did(s: Seq<char>) -> bool {
    has_prefix(s, "did:"@) && s.len() > 4
}

/// Whether `s` has the shape of a handle: it holds a dot, and neither begins
/// nor ends with one.
pub open spec fn is_handle(s: Seq<char>) -> bool {
    s.contains('.') && s.first() != '.' && s.last() != '.'
}

/// Whether `s` has the shape of a post URI.
pub open spec fn is_post_uri(s: Seq<char>) -> bool {
    has_prefix(s, "at://"@)
}

/// A durable account identifier.
#[derive(Debug, Clone, PartialEq, Eq, Hash)]
pub struct Did(pub String);

impl Did {
    pub fn new(did: String) -> (r: Self)
        ensures
            r.0 == did,
    {
        Did(did)
    }

    pub fn as_str(&self) -> (s: &str)
        ensures
            s@ == self.0@,
    {
        self.0.as_str()
    }

    pub fn validate(&self) -> (ok: bool)
        ensures
            ok == is_did(self.0@),
    {
        let n = chars_of(self.0.as_str()).len();
        starts_with(self.0.as_str(), "did:") && n > 4
    }

    /// A copy of this identifier.
    pub fn duplicate(&self) -> (r: Self)
        ensures
            r == *self,
    {
        Did(self.0.clone())
    }
}

/// A human-readable account name, such as `alice.bsky.social`.
#[derive(Debug, Clone, PartialEq, Eq)]
pub struct Handle(pub String);

impl Handle {
    pub fn new(handle: String) -> (r: Self)
        ensures
            r.0 == handle,
    {
        Handle(handle)
    }

    pub fn as_str(&self) -> (s: &str)
        ensures
            s@ == self.0@,
    {
        self.0.as_str()
    }

    pub fn validate(&self) -> (ok: bool)
        ensures
            ok == is_handle(self.0@),
    {
        let x = chars_of(self.0.as_str());
        if x.len() == 0 {
            assert(!self.0@.contains('.'));
            return false;
        }
        contains_char(self.0.as_str(), '.') && x[0] != '.' && x[x.len() - 1] != '.'
    }
}

/// The groups that label values fall into.
#[derive(Debug, Clone, Copy, PartialEq, Eq, Hash, Structural)]
pub enum LabelCategory {
    AdultContent,
    Violence,
    Spam,
    Hate,
    ModerationAction,
    Other,
}

/// The group of a label value. Values that begin with `!` are moderation
/// actions, unless they are one of the named content values.
pub open spec fn category_of(val: Seq<char>) -> LabelCategory {
    if val == "porn"@ || val == "sexual"@ || val == "nudity"@ {
        LabelCategory::AdultContent
    } else if val == "graphic-media"@ || val == "gore"@ {
        LabelCategory::Violence
    } else if val == "spam"@ {
        LabelCategory::Spam
    } else if val == "hate"@ {
        LabelCategory::Hate
    } else if has_prefix(val, "!"@) {
        LabelCategory::ModerationAction
    } else {
        LabelCategory::Other
    }
}

impl LabelCategory {
    pub fn from_value(val: &str) -> (c: Self)
        ensures
            c == category_of(val@),
    {
        if same_text(val, "porn") || same_text(val, "sexual") || same_text(val, "nudity") {
            LabelCategory::AdultContent
        } else if same_text(val, "graphic-media") || same_text(val, "gore") {
            LabelCategory::Violence
        } else if same_text(val, "spam") {
            LabelCategory::Spam
        } else if same_text(val, "hate") {
            LabelCategory::Hate
        } else if starts_with(val, "!") {
            LabelCategory::ModerationAction
        } else {
            LabelCategory::Other
        }
    }

    pub open spec fn spec_name(self) -> Seq<char> {
        match self {
            LabelCategory::AdultContent => "Adult Content"@,
            LabelCategory::Violence => "Violence & Gore"@,
            LabelCategory::Spam => "Spam"@,
            LabelCategory::Hate => "Hate & Harassment"@,
            LabelCategory::ModerationAction => "Moderation Actions"@,
            LabelCategory::Other => "Other Labels"@,
        }
    }

    pub fn name(&self) -> (s: &'static str)
        ensures
            s@ == self.spec_name(),
    {
        match self {
            LabelCategory::AdultContent => "Adult Content",
            LabelCategory::Violence => "Violence & Gore",
            LabelCategory::Spam => "Spam",
            LabelCategory::Hate => "Hate & Harassment",
            LabelCategory::ModerationAction => "Moderation Actions",
            LabelCategory::Other => "Other Labels",
        }
    }

    pub open spec fn spec_icon(self) -> Seq<char> {
        match self {
            LabelCategory::AdultContent => "\u{f8ff}\u{fc}\u{ee}\u{fb}"@,
            LabelCategory::Violence => "\u{201a}\u{f6}\u{2020}\u{d4}\u{220f}\u{e8}"@,
            LabelCategory::Spam => "\u{f8ff}\u{fc}\u{f6}\u{b4}"@,
            LabelCategory::Hate => "\u{f8ff}\u{fc}\u{f5}\u{eb}"@,
            LabelCategory::ModerationAction => "\u{f8ff}\u{fc}\u{eb}\u{c5}\u{d4}\u{220f}\u{e8}"@,
            LabelCategory::Other => "\u{f8ff}\u{fc}\u{e8}\u{2211}\u{d4}\u{220f}\u{e8}"@,
        }
    }

    pub fn icon(&self) -> (s: &'static str)
        ensures
            s@ == self.spec_icon(),
    {
        match self {
            LabelCategory::AdultContent => "\u{f8ff}\u{fc}\u{ee}\u{fb}",
            LabelCategory::Violence => "\u{201a}\u{f6}\u{2020}\u{d4}\u{220f}\u{e8}",
            LabelCategory::Spam => "\u{f8ff}\u{fc}\u{f6}\u{b4}",
            LabelCategory::Hate => "\u{f8ff}\u{fc}\u{f5}\u{eb}",
            LabelCategory::ModerationAction => "\u{f8ff}\u{fc}\u{eb}\u{c5}\u{d4}\u{220f}\u{e8}",
            LabelCategory::Other => "\u{f8ff}\u{fc}\u{e8}\u{2211}\u{d4}\u{220f}\u{e8}",
        }
    }

    /// The place of this category in a table of the six categories.
    pub open spec fn spec_index(self) -> int {
        match self {
            LabelCategory::AdultContent => 0,
            LabelCategory::Violence => 1,
            LabelCategory::Spam => 2,
            LabelCategory::Hate => 3,
            LabelCategory::ModerationAction => 4,
            LabelCategory::Other => 5,
        }
    }

    /// The place of this category in a table of the six categories.
    pub fn index(&self) -> (i: usize)
        ensures
            i == self.spec_index(),
    {
        match self {
            LabelCategory::AdultContent => 0,
            LabelCategory::Violence => 1,
            LabelCategory::Spam => 2,
            LabelCategory::Hate => 3,
            LabelCategory::ModerationAction => 4,
            LabelCategory::Other => 5,
        }
    }
}

/// What a label value means, in words.
pub open spec fn description_of(val: Seq<char>) -> Seq<char> {
    if val == "porn"@ {
        "Pornographic content (18+, requires user opt-in)"@
    } else if val == "sexual"@ {
        "Sexually suggestive content (18+, requires user opt-in)"@
    } else if val == "nudity"@ {
        "Nudity (artistic or otherwise, can be disabled)"@
    } else if val == "graphic-media"@ {
        "Graphic violence or disturbing imagery (18+, requires user opt-in)"@
    } else if val == "gore"@ {
        "Extreme violence or gore"@
    } else if val == "spam"@ {
        "Spam or low-quality content"@
    } else if val == "hate"@ {
        "Hateful or discriminatory content"@
    } else if val == "!hide"@ {
        "Hidden from feeds (cannot be clicked through)"@
    } else if val == "!warn"@ {
        "Warning required before viewing (can be clicked through)"@
    } else if val == "!no-unauthenticated"@ {
        "Inaccessible to logged-out users"@
    } else if val == "!takedown"@ {
        "Content taken down by moderators"@
    } else if val == "!blur"@ {
        "Blurred in feeds"@
    } else if val == "!no-promote"@ {
        "Excluded from algorithmic promotion"@
    } else if val == "!filter"@ {
        "Filtered from search results"@
    } else if has_prefix(val, "!"@) {
        "Custom moderation action"@
    } else {
        "Custom content label"@
    }
}

/// One moderation annotation.
#[derive(Debug, Clone, PartialEq, Eq)]
pub struct Label {
    /// The label value, such as `porn` or `!takedown`.
    pub val: String,
    /// The subject: an account identifier or a post URI.
    pub uri: String,
    /// The content identifier, for a label on one version of a record.
    pub cid: Option<String>,
    /// The identifier of the service that made the label.
    pub src: String,
    /// When the label was made.
    pub cts: String,
    /// When the label expires, if it does.
    pub exp: Option<String>,
    /// Whether this label takes back an earlier one.
    pub neg: bool,
}

/// A copy of an optional string.
pub fn duplicate_optional(s: &Option<String>) -> (r: Option<String>)
    ensures
        r == *s,
{
    match s {
        Some(x) => Some(x.clone()),
        None => None,
    }
}

impl Label {
    /// Whether this label is in force and its subject is a post.
    pub open spec fn is_post_level(&self) -> bool {
        !self.neg && is_post_uri(self.uri@)
    }

    pub fn category(&self) -> (c: LabelCategory)
        ensures
            c == category_of(self.val@),
    {
        LabelCategory::from_value(self.val.as_str())
    }

    pub fn description(&self) -> (s: &'static str)
        ensures
            s@ == description_of(self.val@),
    {
        let v = self.val.as_str();
        if same_text(v, "porn") {
            "Pornographic content (18+, requires user opt-in)"
        } else if same_text(v, "sexual") {
            "Sexually suggestive content (18+, requires user opt-in)"
        } else if same_text(v, "nudity") {
            "Nudity (artistic or otherwise, can be disabled)"
        } else if same_text(v, "graphic-media") {
            "Graphic violence or disturbing imagery (18+, requires user opt-in)"
        } else if same_text(v, "gore") {
            "Extreme violence or gore"
        } else if same_text(v, "spam") {
            "Spam or low-quality content"
        } else if same_text(v, "hate") {
            "Hateful or discriminatory content"
        } else if same_text(v, "!hide") {
            "Hidden from feeds (cannot be clicked through)"
        } else if same_text(v, "!warn") {
            "Warning required before viewing (can be clicked through)"
        } else if same_text(v, "!no-unauthenticated") {
            "Inaccessible to logged-out users"
        } else if same_text(v, "!takedown") {
            "Content taken down by moderators"
        } else if same_text(v, "!blur") {
            "Blurred in feeds"
        } else if same_text(v, "!no-promote") {
            "Excluded from algorithmic promotion"
        } else if same_text(v, "!filter") {
            "Filtered from search results"
        } else if starts_with(v, "!") {
            "Custom moderation action"
        } else {
            "Custom content label"
        }
    }

    /// Whether this label is in force and its subject is a post.
    pub fn post_level(&self) -> (r: bool)
        ensures
            r == self.is_post_level(),
    {
        !self.neg && starts_with(self.uri.as_str(), "at://")
    }

    /// A copy of this label.
    pub fn duplicate(&self) -> (r: Self)
        ensures
            r == *self,
    {
        Label {
            val: self.val.clone(),
            uri: self.uri.clone(),
            cid: duplicate_optional(&self.cid),
            src: self.src.clone(),
            cts: self.cts.clone(),
            exp: duplicate_optional(&self.exp),
            neg: self.neg,
        }
    }
}

/// A copy of a sequence of labels.
pub fn duplicate_labels(labels: &Vec<Label>) -> (r: Vec<Label>)
    ensures
        r@ == labels@,
{
    let mut r: Vec<Label> = Vec::new();
    let mut i: usize = 0;
    while i < labels.len()
        invariant
            i <= labels.len(),
            r@ == labels@.subrange(0, i as int),
        decreases labels.len() - i,
    {
        r.push(labels[i].duplicate());
        i = i + 1;
        assert(labels@.subrange(0, i as int) == labels@.subrange(0, i as int - 1).push(
            labels@[i as int - 1],
        ));
    }
    assert(labels@.subrange(0, labels@.len() as int) =~= labels@);
    r
}

/// What a label query answers.
#[derive(Debug, Clone)]
pub struct LabelsResponse {
    pub labels: Vec<Label>,
    pub cursor: Option<String>,
}

/// One record of a repository, such as a post.
#[derive(Debug)]
pub struct AtRecord {
    pub uri: String,
    pub cid: String,
    pub value: Json,
}

/// One page of a repository listing.
#[derive(Debug)]
pub struct ListRecordsResponse {
    pub records: Vec<AtRecord>,
    pub cursor: Option<String>,
}

/// The labels that one query found, negated ones left out, with the
/// service that was asked and the time of the query in seconds since 1970.
#[derive(Debug, Clone)]
pub struct LabelCollection {
    pub labels: Vec<Label>,
    pub labeler_did: String,
    pub query_timestamp: i64,
}

impl LabelCollection {
    /// Whether no label of the collection is a negation.
    pub open spec fn well_formed(&self) -> bool {
        forall|i: int| 0 <= i < self.labels@.len() ==> !(#[trigger] self.labels@[i]).neg
    }
}

} // verus!
