//! The images and the video that a post embeds.

use crate::json::Json;
use crate::text::same_text;
use crate::types::{AtRecord, Did};
use vstd::prelude::*;
use vstd::string::StringExecFns;

verus! {

/// The address from which the data host `endpoint` serves the blob `cid`
/// of the account `did`.
pub open spec fn blob_url(endpoint: Seq<char>, did: Seq<char>, cid: Seq<char>) -> Seq<char> {
    endpoint + "/xrpc/com.atproto.sync.getBlob?did="@ + did + "&cid="@ + cid
}

/// The content identifier of the blob that `item` holds under `key`: the
/// string at `key.ref.$link`.
pub open spec fn blob_cid(item: Json, key: Seq<char>) -> Option<Seq<char>> {
    match item.field(key) {
        Some(blob) => match blob.field("ref"@) {
            Some(link) => link.text_at("$link"@),
            None => None,
        },
        None => None,
    }
}

/// The addresses of the images among `images` that name a blob, in order.
pub open spec fn image_urls(images: Seq<Json>, endpoint: Seq<char>, did: Seq<char>) -> Seq<Seq<char>>
    decreases images.len(),
{
    if images.len() == 0 {
        Seq::empty()
    } else {
        let before = image_urls(images.drop_last(), endpoint, did);
        match blob_cid(images.last(), "image"@) {
            Some(cid) => before.push(blob_url(endpoint, did, cid)),
            None => before,
        }
    }
}

/// The addresses of the images of an image set.
pub open spec fn image_set_urls(embed: Json, endpoint: Seq<char>, did: Seq<char>) -> Seq<Seq<char>> {
    match embed.items_at("images"@) {
        Some(images) => image_urls(images, endpoint, did),
        None => Seq::empty(),
    }
}

/// The image addresses that the embed of a post gives: those of an image
/// set, or of the image set that a record with media wraps.
pub open spec fn embedded_images(value: Json, endpoint: Seq<char>, did: Seq<char>) -> Seq<Seq<char>> {
    match value.field("embed"@) {
        Some(embed) => {
            if embed.text_at("$type"@) == Some("app.bsky.embed.images"@) {
                image_set_urls(embed, endpoint, did)
            } else if embed.text_at("$type"@) == Some("app.bsky.embed.recordWithMedia"@) {
                match embed.field("media"@) {
                    Some(media) => if media.text_at("$type"@) == Some("app.bsky.embed.images"@) {
                        image_set_urls(media, endpoint, did)
                    } else {
                        Seq::empty()
                    },
                    None => Seq::empty(),
                }
            } else {
                Seq::empty()
            }
        },
        None => Seq::empty(),
    }
}

/// The video address that the embed of a post gives.
pub open spec fn embedded_video(value: Json, endpoint: Seq<char>, did: Seq<char>) -> Option<Seq<char>> {
    match value.field("embed"@) {
        Some(embed) => {
            if embed.text_at("$type"@) == Some("app.bsky.embed.video"@) {
                match blob_cid(embed, "video"@) {
                    Some(cid) => Some(blob_url(endpoint, did, cid)),
                    None => None,
                }
            } else {
                None
            }
        },
        None => None,
    }
}

/// The views of a sequence of strings.
pub open spec fn views(strings: Seq<String>) -> Seq<Seq<char>> {
    Seq::new(strings.len(), |i: int| strings[i]@)
}

/// The view of an optional string.
pub open spec fn optional_view(s: Option<String>) -> Option<Seq<char>> {
    match s {
        Some(x) => Some(x@),
        None => None,
    }
}

/// The address of a blob.
pub fn make_blob_url(endpoint: &str, did: &str, cid: &str) -> (url: String)
    ensures
        url@ == blob_url(endpoint@, did@, cid@),
{
    let mut url = String::from_str(endpoint);
    url.append("/xrpc/com.atproto.sync.getBlob?did=");
    url.append(did);
    url.append("&cid=");
    url.append(cid);
    url
}

/// The content identifier of the blob that `item` holds under `key`.
pub fn find_blob_cid<'a>(item: &'a Json, key: &str) -> (r: Option<&'a str>)
    ensures
        match r {
            Some(cid) => blob_cid(*item, key@) == Some(cid@),
            None => blob_cid(*item, key@) is None,
        },
{
    match item.get(key) {
        Some(blob) => match blob.get("ref") {
            Some(link) => link.get_str("$link"),
            None => None,
        },
        None => None,
    }
}

fn collect_image_urls(embed: &Json, endpoint: &str, did: &str) -> (urls: Vec<String>)
    ensures
        views(urls@) == image_set_urls(*embed, endpoint@, did@),
{
    let mut urls: Vec<String> = Vec::new();
    match embed.get_array("images") {
        Some(images) => {
            let mut i: usize = 0;
            assert(views(urls@) =~= image_urls(images@.take(0), endpoint@, did@));
            while i < images.len()
                invariant
                    i <= images.len(),
                    views(urls@) == image_urls(images@.take(i as int), endpoint@, did@),
                decreases images.len() - i,
            {
                assert(images@.take(i as int + 1).drop_last() =~= images@.take(i as int));
                let ghost before = urls@;
                match find_blob_cid(&images[i], "image") {
                    Some(cid) => {
                        urls.push(make_blob_url(endpoint, did, cid));
                        assert(views(urls@) =~= views(before).push(
                            blob_url(endpoint@, did@, cid@),
                        ));
                    },
                    None => {},
                }
                i = i + 1;
            }
            assert(images@.take(images@.len() as int) =~= images@);
        },
        None => {
            assert(views(urls@) =~= Seq::<Seq<char>>::empty());
        },
    }
    urls
}

fn type_is(value: &Json, name: &str) -> (r: bool)
    ensures
        r == (value.text_at("$type"@) == Some(name@)),
{
    match value.get_str("$type") {
        Some(t) => same_text(t, name),
        None => false,
    }
}

/// The addresses of the images and of the video that `post` embeds, served
/// by the data host `endpoint` of the account `did`. Without a data host,
/// and for an embed of no known shape, there are none.
pub fn extract_media_urls(post: &AtRecord, did: &Did, endpoint: &Option<String>) -> (media: (
    Vec<String>,
    Option<String>,
))
    ensures
        match endpoint {
            Some(host) => views(media.0@) == embedded_images(post.value, host@, did.0@)
                && optional_view(media.1) == embedded_video(post.value, host@, did.0@),
            None => media.0@.len() == 0 && media.1 is None,
        },
{
    let host: &str = match endpoint {
        Some(h) => h.as_str(),
        None => {
            return (Vec::new(), None);
        },
    };
    let none: Vec<String> = Vec::new();
    assert(views(none@) =~= Seq::<Seq<char>>::empty());
    proof {
        lemma_embed_types_differ();
    }
    match post.value.get("embed") {
        Some(embed) => {
            if type_is(embed, "app.bsky.embed.images") {
                (collect_image_urls(embed, host, did.as_str()), None)
            } else if type_is(embed, "app.bsky.embed.video") {
                match find_blob_cid(embed, "video") {
                    Some(cid) => (none, Some(make_blob_url(host, did.as_str(), cid))),
                    None => (none, None),
                }
            } else if type_is(embed, "app.bsky.embed.recordWithMedia") {
                match embed.get("media") {
                    Some(media) => {
                        if type_is(media, "app.bsky.embed.images") {
                            (collect_image_urls(media, host, did.as_str()), None)
                        } else {
                            (none, None)
                        }
                    },
                    None => (none, None),
                }
            } else {
                (none, None)
            }
        },
        None => (none, None),
    }
}

/// The names of the three embed shapes are three different strings.
proof fn lemma_embed_types_differ()
    ensures
        "app.bsky.embed.images"@ != "app.bsky.embed.video"@,
        "app.bsky.embed.recordWithMedia"@ != "app.bsky.embed.video"@,
        "app.bsky.embed.recordWithMedia"@ != "app.bsky.embed.images"@,
{
    reveal_strlit("app.bsky.embed.images");
    reveal_strlit("app.bsky.embed.video");
    reveal_strlit("app.bsky.embed.recordWithMedia");
    assert("app.bsky.embed.images"@.len() == 21);
    assert("app.bsky.embed.video"@.len() == 20);
    assert("app.bsky.embed.recordWithMedia"@.len() == 30);
}

} // verus!
