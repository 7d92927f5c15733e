use at_peek::display::{enrich, read_text};
use at_peek::engagement::{likes_url, read_likes, read_reposts, reposts_url, UserInfo};
use at_peek::json::Json;
use at_peek::media::{extract_media_urls, find_blob_cid, make_blob_url};
use at_peek::types::{AtRecord, Did, Label};

fn text(s: &str) -> Json {
    Json::Text(s.to_string())
}

fn object(members: Vec<(&str, Json)>) -> Json {
    Json::Object(members.into_iter().map(|(k, v)| (k.to_string(), v)).collect())
}

fn blob(cid: &str) -> Json {
    object(vec![("$type", text("blob")), ("ref", object(vec![("$link", text(cid))]))])
}

fn image(cid: &str) -> Json {
    object(vec![("alt", text("")), ("image", blob(cid))])
}

fn post(embed: Option<Json>) -> AtRecord {
    let mut members = vec![("text", text("hello")), ("createdAt", text("2024-01-01T00:00:00Z"))];
    if let Some(e) = embed {
        members.push(("embed", e));
    }
    AtRecord {
        uri: "at://did:plc:abc/app.bsky.feed.post/1".to_string(),
        cid: "cid".to_string(),
        value: object(members),
    }
}

fn did() -> Did {
    Did::new("did:plc:abc".to_string())
}

fn host() -> Option<String> {
    Some("https://pds.example".to_string())
}

#[test]
fn a_blob_address() {
    assert_eq!(
        make_blob_url("https://pds.example", "did:plc:abc", "bafy1"),
        "https://pds.example/xrpc/com.atproto.sync.getBlob?did=did:plc:abc&cid=bafy1"
    );
}

#[test]
fn a_blob_is_found_by_its_link() {
    assert_eq!(find_blob_cid(&image("bafy1"), "image"), Some("bafy1"));
    assert_eq!(find_blob_cid(&image("bafy1"), "video"), None);
    assert_eq!(find_blob_cid(&object(vec![("image", object(vec![]))]), "image"), None);
    assert_eq!(
        find_blob_cid(&object(vec![("image", object(vec![("ref", text("x"))]))]), "image"),
        None
    );
}

#[test]
fn images_of_an_image_set() {
    let embed = object(vec![
        ("$type", text("app.bsky.embed.images")),
        ("images", Json::List(vec![image("a"), object(vec![("alt", text("x"))]), image("b")])),
    ]);
    let (images, video) = extract_media_urls(&post(Some(embed)), &did(), &host());
    assert_eq!(
        images,
        vec![
            "https://pds.example/xrpc/com.atproto.sync.getBlob?did=did:plc:abc&cid=a".to_string(),
            "https://pds.example/xrpc/com.atproto.sync.getBlob?did=did:plc:abc&cid=b".to_string(),
        ]
    );
    assert_eq!(video, None);
}

#[test]
fn the_video_of_a_video_embed() {
    let embed = object(vec![("$type", text("app.bsky.embed.video")), ("video", blob("v1"))]);
    let (images, video) = extract_media_urls(&post(Some(embed)), &did(), &host());
    assert!(images.is_empty());
    assert_eq!(
        video,
        Some("https://pds.example/xrpc/com.atproto.sync.getBlob?did=did:plc:abc&cid=v1".to_string())
    );
}

#[test]
fn images_of_a_record_with_media() {
    let media = object(vec![
        ("$type", text("app.bsky.embed.images")),
        ("images", Json::List(vec![image("a")])),
    ]);
    let embed = object(vec![
        ("$type", text("app.bsky.embed.recordWithMedia")),
        ("record", object(vec![])),
        ("media", media),
    ]);
    let (images, video) = extract_media_urls(&post(Some(embed)), &did(), &host());
    assert_eq!(
        images,
        vec!["https://pds.example/xrpc/com.atproto.sync.getBlob?did=did:plc:abc&cid=a".to_string()]
    );
    assert_eq!(video, None);
}

#[test]
fn a_record_with_other_media_shows_none() {
    let media = object(vec![("$type", text("app.bsky.embed.video")), ("video", blob("v1"))]);
    let embed =
        object(vec![("$type", text("app.bsky.embed.recordWithMedia")), ("media", media)]);
    let (images, video) = extract_media_urls(&post(Some(embed)), &did(), &host());
    assert!(images.is_empty());
    assert_eq!(video, None);
}

#[test]
fn unknown_or_absent_embeds_show_none() {
    let external = object(vec![("$type", text("app.bsky.embed.external"))]);
    for embed in [None, Some(external), Some(object(vec![])), Some(text("x"))] {
        let (images, video) = extract_media_urls(&post(embed), &did(), &host());
        assert!(images.is_empty());
        assert_eq!(video, None);
    }
}

#[test]
fn without_a_data_host_no_media_is_shown() {
    let embed = object(vec![
        ("$type", text("app.bsky.embed.images")),
        ("images", Json::List(vec![image("a")])),
    ]);
    let (images, video) = extract_media_urls(&post(Some(embed)), &did(), &None);
    assert!(images.is_empty());
    assert_eq!(video, None);
}

#[test]
fn engagement_addresses_encode_the_post() {
    assert_eq!(
        likes_url("at://did:plc:abc/app.bsky.feed.post/1"),
        "https://public.api.bsky.app/xrpc/app.bsky.feed.getLikes?uri=at%3A%2F%2Fdid%3Aplc%3Aabc%2Fapp.bsky.feed.post%2F1&limit=100"
    );
    assert_eq!(
        reposts_url("at://did:plc:abc/app.bsky.feed.post/1"),
        "https://public.api.bsky.app/xrpc/app.bsky.feed.getRepostedBy?uri=at%3A%2F%2Fdid%3Aplc%3Aabc%2Fapp.bsky.feed.post%2F1&limit=100"
    );
}

#[test]
fn likes_count_every_entry_and_name_the_whole_ones() {
    let answer = object(vec![(
        "likes",
        Json::List(vec![
            object(vec![(
                "actor",
                object(vec![
                    ("did", text("did:plc:a")),
                    ("handle", text("a.example")),
                    ("displayName", text("A")),
                ]),
            )]),
            object(vec![("actor", object(vec![("did", text("did:plc:b"))]))]),
            object(vec![(
                "actor",
                object(vec![("did", text("did:plc:c")), ("handle", text("c.example"))]),
            )]),
        ]),
    )]);
    let (count, likers) = read_likes(&answer);
    assert_eq!(count, 3);
    assert_eq!(
        likers,
        vec![
            UserInfo {
                did: "did:plc:a".to_string(),
                handle: "a.example".to_string(),
                display_name: Some("A".to_string()),
            },
            UserInfo {
                did: "did:plc:c".to_string(),
                handle: "c.example".to_string(),
                display_name: None,
            },
        ]
    );
}

#[test]
fn reposts_name_accounts_directly() {
    let answer = object(vec![(
        "repostedBy",
        Json::List(vec![object(vec![
            ("did", text("did:plc:a")),
            ("handle", text("a.example")),
            ("displayName", Json::Null),
        ])]),
    )]);
    let (count, reposters) = read_reposts(&answer);
    assert_eq!(count, 1);
    assert_eq!(
        reposters,
        vec![UserInfo {
            did: "did:plc:a".to_string(),
            handle: "a.example".to_string(),
            display_name: None,
        }]
    );
    assert_eq!(read_likes(&answer), (0, vec![]));
}

#[test]
fn answers_without_a_list_count_nothing() {
    assert_eq!(read_likes(&object(vec![])), (0, vec![]));
    assert_eq!(read_reposts(&object(vec![("repostedBy", text("x"))])), (0, vec![]));
    assert_eq!(read_reposts(&Json::Null), (0, vec![]));
}

#[test]
fn a_post_is_shown_with_what_was_found() {
    let labels = vec![Label {
        val: "spam".to_string(),
        uri: "at://did:plc:abc/app.bsky.feed.post/1".to_string(),
        cid: None,
        src: "did:plc:l".to_string(),
        cts: "2024-01-02T00:00:00Z".to_string(),
        exp: None,
        neg: false,
    }];
    let liker = UserInfo {
        did: "did:plc:a".to_string(),
        handle: "a.example".to_string(),
        display_name: None,
    };
    let shown = enrich(
        &post(None),
        labels.clone(),
        (vec!["https://img".to_string()], None),
        (5, vec![liker.clone()]),
        (2, vec![]),
    );
    assert_eq!(shown.uri, "at://did:plc:abc/app.bsky.feed.post/1");
    assert_eq!(shown.text, "hello");
    assert_eq!(shown.created_at, "2024-01-01T00:00:00Z");
    assert_eq!(shown.labels, labels);
    assert!(shown.has_media);
    assert_eq!(shown.image_urls, vec!["https://img".to_string()]);
    assert_eq!(shown.video_url, None);
    assert_eq!(shown.like_count, 5);
    assert_eq!(shown.likers, vec![liker]);
    assert_eq!(shown.repost_count, 2);
    assert!(shown.reposters.is_empty());
}

#[test]
fn a_post_without_text_or_media() {
    let bare = AtRecord {
        uri: "at://x/app.bsky.feed.post/1".to_string(),
        cid: "c".to_string(),
        value: Json::Object(vec![("text".to_string(), Json::Number("1".to_string()))]),
    };
    let shown = enrich(&bare, vec![], (vec![], None), (0, vec![]), (0, vec![]));
    assert_eq!(shown.text, "");
    assert_eq!(shown.created_at, "");
    assert!(!shown.has_media);
    let with_video = enrich(&bare, vec![], (vec![], Some("v".to_string())), (0, vec![]), (0, vec![]));
    assert!(with_video.has_media);
    assert_eq!(read_text(&bare.value, "missing"), "");
}
