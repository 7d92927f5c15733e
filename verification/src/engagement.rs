//! Who liked and who reposted a post.

use crate::encode::encode_component;
use crate::http::Fetched;
use crate::json::Json;
use crate::media::optional_view;
use crate::text::join3;
use vstd::prelude::*;
use vstd::string::StringExecFns;

verus! {

/// An account as the index service names it.
#[derive(Debug, Clone, PartialEq, Eq)]
pub struct UserInfo {
    pub did: String,
    pub handle: String,
    pub display_name: Option<String>,
}

/// What an answer's entry says of an account.
pub struct UserInfoView {
    pub did: Seq<char>,
    pub handle: Seq<char>,
    pub display_name: Option<Seq<char>>,
}

impl View for UserInfo {
    type V = UserInfoView;

    open spec fn view(&self) -> UserInfoView {
        UserInfoView {
            did: self.did@,
            handle: self.handle@,
            display_name: optional_view(self.display_name),
        }
    }
}

/// The views of a sequence of accounts.
pub open spec fn user_views(users: Seq<UserInfo>) -> Seq<UserInfoView> {
    Seq::new(users.len(), |i: int| users[i]@)
}

/// The account that `actor` describes: its identifier and handle must be
/// strings; its display name is kept where it is one.
pub open spec fn actor_of(actor: Json) -> Option<UserInfoView> {
    match (actor.text_at("did"@), actor.text_at("handle"@)) {
        (Some(did), Some(handle)) => Some(
            UserInfoView { did, handle, display_name: actor.text_at("displayName"@) },
        ),
        _ => None,
    }
}

/// The account of one entry of a list of likes: what its `actor` describes.
pub open spec fn liker_of(entry: Json) -> Option<UserInfoView> {
    match entry.field("actor"@) {
        Some(actor) => actor_of(actor),
        None => None,
    }
}

/// The accounts that the entries describe, in order; `nested` says whether
/// each entry holds its account under `actor`.
pub open spec fn actors_of(entries: Seq<Json>, nested: bool) -> Seq<UserInfoView>
    decreases entries.len(),
{
    if entries.len() == 0 {
        Seq::empty()
    } else {
        let before = actors_of(entries.drop_last(), nested);
        let found = if nested {
            liker_of(entries.last())
        } else {
            actor_of(entries.last())
        };
        match found {
            Some(user) => before.push(user),
            None => before,
        }
    }
}

/// How many entries the array under `key` holds, and the accounts that
/// they describe; nothing where there is no such array.
pub open spec fn engagement_of(answer: Json, key: Seq<char>, nested: bool) -> (nat, Seq<UserInfoView>) {
    match answer.items_at(key) {
        Some(entries) => (entries.len(), actors_of(entries, nested)),
        None => (0, Seq::empty()),
    }
}

/// The address that lists the likes of the post `post_uri`.
pub fn likes_url(post_uri: &str) -> (url: String)
    ensures
        url@ == "https://public.api.bsky.app/xrpc/app.bsky.feed.getLikes?uri="@
            + crate::encode::component_text(post_uri@) + "&limit=100"@,
{
    let encoded = encode_component(post_uri);
    join3(
        "https://public.api.bsky.app/xrpc/app.bsky.feed.getLikes?uri=",
        encoded.as_str(),
        "&limit=100",
    )
}

/// The address that lists the reposts of the post `post_uri`.
pub fn reposts_url(post_uri: &str) -> (url: String)
    ensures
        url@ == "https://public.api.bsky.app/xrpc/app.bsky.feed.getRepostedBy?uri="@
            + crate::encode::component_text(post_uri@) + "&limit=100"@,
{
    let encoded = encode_component(post_uri);
    join3(
        "https://public.api.bsky.app/xrpc/app.bsky.feed.getRepostedBy?uri=",
        encoded.as_str(),
        "&limit=100",
    )
}

fn read_actor(actor: &Json) -> (r: Option<UserInfo>)
    ensures
        match r {
            Some(user) => actor_of(*actor) == Some(user@),
            None => actor_of(*actor) is None,
        },
{
    match (actor.get_str("did"), actor.get_str("handle")) {
        (Some(did), Some(handle)) => {
            let display_name = match actor.get_str("displayName") {
                Some(name) => Some(name.to_owned()),
                None => None,
            };
            Some(UserInfo { did: did.to_owned(), handle: handle.to_owned(), display_name })
        },
        _ => None,
    }
}

fn read_entries(answer: &Json, key: &str, nested: bool) -> (r: (usize, Vec<UserInfo>))
    ensures
        r.0 == engagement_of(*answer, key@, nested).0,
        user_views(r.1@) == engagement_of(*answer, key@, nested).1,
{
    let mut users: Vec<UserInfo> = Vec::new();
    match answer.get_array(key) {
        Some(entries) => {
            let mut i: usize = 0;
            assert(user_views(users@) =~= actors_of(entries@.take(0), nested));
            while i < entries.len()
                invariant
                    i <= entries.len(),
                    user_views(users@) == actors_of(entries@.take(i as int), nested),
                decreases entries.len() - i,
            {
                assert(entries@.take(i as int + 1).drop_last() =~= entries@.take(i as int));
                let ghost before = users@;
                let found = if nested {
                    match entries[i].get("actor") {
                        Some(actor) => read_actor(actor),
                        None => None,
                    }
                } else {
                    read_actor(&entries[i])
                };
                match found {
                    Some(user) => {
                        users.push(user);
                        assert(user_views(users@) =~= user_views(before).push(user@));
                    },
                    None => {},
                }
                i = i + 1;
            }
            assert(entries@.take(entries@.len() as int) =~= entries@);
            (entries.len(), users)
        },
        None => {
            assert(user_views(users@) =~= Seq::<UserInfoView>::empty());
            (0, users)
        },
    }
}

/// How many likes the answer lists, and who gave them.
pub fn read_likes(answer: &Json) -> (r: (usize, Vec<UserInfo>))
    ensures
        r.0 == engagement_of(*answer, "likes"@, true).0,
        user_views(r.1@) == engagement_of(*answer, "likes"@, true).1,
{
    read_entries(answer, "likes", true)
}

/// How many reposts the answer lists, and who made them.
pub fn read_reposts(answer: &Json) -> (r: (usize, Vec<UserInfo>))
    ensures
        r.0 == engagement_of(*answer, "repostedBy"@, false).0,
        user_views(r.1@) == engagement_of(*answer, "repostedBy"@, false).1,
{
    read_entries(answer, "repostedBy", false)
}

/// What a reply gives of the engagement with a post: what the array under
/// `key` holds where the reply can be read, nothing where the service
/// answered outside 2xx, and else the words that say what failed, `what`
/// naming the kind of engagement.
pub open spec fn engagement_outcome(reply: Fetched<Json>, key: Seq<char>, nested: bool, what: Seq<char>) -> Result<
    (nat, Seq<UserInfoView>),
    Seq<char>,
> {
    match reply {
        Fetched::Failed { detail } => Err("Failed to fetch "@ + what + ": "@ + detail@),
        Fetched::Refused { status, retry_after, body } => Ok((0, Seq::empty())),
        Fetched::Answered { body, parsed: Err(why) } => Err(
            "Failed to parse "@ + what + " response: "@ + why@,
        ),
        Fetched::Answered { body, parsed: Ok(answer) } => Ok(engagement_of(answer, key, nested)),
    }
}

/// The view of what was found of an engagement, or of the words in its
/// place.
pub open spec fn found_view(r: Result<(usize, Vec<UserInfo>), String>) -> Result<
    (nat, Seq<UserInfoView>),
    Seq<char>,
> {
    match r {
        Ok(found) => Ok((found.0 as nat, user_views(found.1@))),
        Err(why) => Err(why@),
    }
}

fn read_engagement(reply: &Fetched<Json>, key: &str, nested: bool, what: &str) -> (r: Result<
    (usize, Vec<UserInfo>),
    String,
>)
    ensures
        found_view(r) == engagement_outcome(*reply, key@, nested, what@),
{
    match reply {
        Fetched::Failed { detail } => {
            let mut m = join3("Failed to fetch ", what, ": ");
            m.append(detail.as_str());
            Err(m)
        },
        Fetched::Refused { status: _, retry_after: _, body: _ } => {
            let none: Vec<UserInfo> = Vec::new();
            assert(user_views(none@) =~= Seq::<UserInfoView>::empty());
            Ok((0, none))
        },
        Fetched::Answered { body: _, parsed: Err(why) } => {
            let mut m = join3("Failed to parse ", what, " response: ");
            m.append(why.as_str());
            Err(m)
        },
        Fetched::Answered { body: _, parsed: Ok(answer) } => Ok(read_entries(answer, key, nested)),
    }
}

/// The likes of a post from the reply to the request for them.
pub fn fetch_likes(reply: &Fetched<Json>) -> (r: Result<(usize, Vec<UserInfo>), String>)
    ensures
        found_view(r) == engagement_outcome(*reply, "likes"@, true, "likes"@),
{
    read_engagement(reply, "likes", true, "likes")
}

/// The reposts of a post from the reply to the request for them.
pub fn fetch_reposts(reply: &Fetched<Json>) -> (r: Result<(usize, Vec<UserInfo>), String>)
    ensures
        found_view(r) == engagement_outcome(*reply, "repostedBy"@, false, "reposts"@),
{
    read_engagement(reply, "repostedBy", false, "reposts")
}

/// What is shown of an engagement: what was found, or nothing where the
/// finding failed. Engagement is an extra that never fails an analysis.
pub fn found_or_none(found: Result<(usize, Vec<UserInfo>), String>) -> (r: (usize, Vec<UserInfo>))
    ensures
        match found {
            Ok(f) => r == f,
            Err(_) => r.0 == 0 && r.1@.len() == 0,
        },
{
    match found {
        Ok(f) => f,
        Err(_) => (0, Vec::new()),
    }
}

} // verus!
