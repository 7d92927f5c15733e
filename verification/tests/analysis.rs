use at_peek::analysis::{
    absorb, analysis_subject, analyze_user_posts, classify_subject, fetch_failure, fetch_labels,
    normalize_subject, post_uris, resolution_failure, Subject,
};
use at_peek::batching::{batches, BATCH_SIZE};
use at_peek::display::{sort_for_display, PostWithLabels};
use at_peek::error::Error;
use at_peek::json::Json;
use at_peek::ranking::stable_sort;
use at_peek::selection::{has_label, labels_for, select_for_display, DISPLAY_LIMIT};
use at_peek::stats::{
    compute_stats, count_by_category, count_labelled_posts, empty_stats, rank_values,
    tally_values,
};
use at_peek::types::{AtRecord, Did, Handle, Label, LabelCategory, LabelCollection};

fn uri(n: usize) -> String {
    format!("at://did:plc:abc/app.bsky.feed.post/{}", n)
}

fn label(val: &str, subject: &str) -> Label {
    Label {
        val: val.to_string(),
        uri: subject.to_string(),
        cid: None,
        src: "did:plc:labeler".to_string(),
        cts: "2024-01-01T00:00:00Z".to_string(),
        exp: None,
        neg: false,
    }
}

fn post(n: usize) -> AtRecord {
    AtRecord { uri: uri(n), cid: format!("cid{}", n), value: Json::Object(vec![]) }
}

fn posts(count: usize) -> Vec<AtRecord> {
    (0..count).map(post).collect()
}

fn shown(name: &str, labels: usize, created_at: &str) -> PostWithLabels {
    PostWithLabels {
        uri: name.to_string(),
        text: String::new(),
        labels: (0..labels).map(|_| label("spam", name)).collect(),
        created_at: created_at.to_string(),
        has_media: false,
        image_urls: vec![],
        video_url: None,
        like_count: 0,
        repost_count: 0,
        likers: vec![],
        reposters: vec![],
    }
}

fn names(posts: &[PostWithLabels]) -> Vec<String> {
    posts.iter().map(|p| p.uri.clone()).collect()
}

fn collection(labels: Vec<Label>) -> LabelCollection {
    LabelCollection { labels, labeler_did: "https://mod.bsky.app".to_string(), query_timestamp: 1 }
}

#[test]
fn the_at_sign_before_a_handle_is_dropped() {
    assert_eq!(normalize_subject("@alice.bsky.social"), "alice.bsky.social");
    assert_eq!(normalize_subject("@@alice"), "alice");
    assert_eq!(normalize_subject("did:plc:abc"), "did:plc:abc");
    assert_eq!(normalize_subject("a@b"), "a@b");
}

#[test]
fn subjects_of_a_label_query() {
    assert_eq!(
        classify_subject("at://did:plc:abc/app.bsky.feed.post/1"),
        Ok(Subject::Post("at://did:plc:abc/app.bsky.feed.post/1".to_string()))
    );
    assert_eq!(
        classify_subject("did:plc:abc"),
        Ok(Subject::Account(Did::new("did:plc:abc".to_string())))
    );
    assert_eq!(
        classify_subject("@alice.bsky.social"),
        Ok(Subject::Named(Handle::new("alice.bsky.social".to_string())))
    );
    assert_eq!(
        classify_subject("alice"),
        Err("Invalid input format. Expected handle, DID, or AT-URI".to_string())
    );
    assert_eq!(
        classify_subject(""),
        Err("Invalid input format. Expected handle, DID, or AT-URI".to_string())
    );
}

#[test]
fn subjects_of_an_analysis() {
    assert_eq!(
        analysis_subject("did:plc:abc"),
        Subject::Account(Did::new("did:plc:abc".to_string()))
    );
    assert_eq!(
        analysis_subject("@alice.bsky.social"),
        Subject::Named(Handle::new("alice.bsky.social".to_string()))
    );
    assert_eq!(analysis_subject("alice"), Subject::Named(Handle::new("alice".to_string())));
}

#[test]
fn failures_that_end_an_analysis_are_told() {
    assert_eq!(
        resolution_failure(&Error::InvalidInput("Invalid handle format: x".to_string())),
        "Failed to resolve handle: Invalid input: Invalid handle format: x"
    );
    assert_eq!(
        fetch_failure(&Error::ServiceUnavailable("gone".to_string())),
        "Failed to fetch posts: Labeler service unavailable: gone"
    );
}

#[test]
fn a_failed_query_adds_nothing_and_goes_on() {
    let labels = vec![label("spam", &uri(1))];
    assert_eq!(absorb(Ok(collection(labels.clone()))), Ok(labels));
    assert_eq!(absorb(Err(Error::RateLimited(Some(5)))), Ok(vec![]));
    assert_eq!(absorb(Err(Error::Network("down".to_string()))), Ok(vec![]));
    assert_eq!(absorb(Err(Error::ServiceUnavailable("x".to_string()))), Ok(vec![]));
    assert_eq!(absorb(Err(Error::ParseFailure("x".to_string()))), Ok(vec![]));
}

#[test]
fn a_wanted_credential_stops_the_analysis() {
    assert_eq!(
        absorb(Err(Error::AuthenticationRequired("HTTP 401 Unauthorized: x".to_string()))),
        Err("Authentication required: HTTP 401 Unauthorized: x".to_string())
    );
}

#[test]
fn labels_of_service_and_host_are_joined() {
    let first = vec![label("spam", "did:plc:abc")];
    let second = vec![label("!takedown", "did:plc:abc")];
    let both =
        fetch_labels(Ok(collection(first.clone())), Some(Ok(collection(second.clone()))), 9)
            .unwrap();
    assert_eq!(both.labels, vec![first[0].clone(), second[0].clone()]);
    assert_eq!(both.labeler_did, "multiple");
    assert_eq!(both.query_timestamp, 9);
    let alone = fetch_labels(Ok(collection(first.clone())), None, 9).unwrap();
    assert_eq!(alone.labels, first);
    let degraded =
        fetch_labels(Err(Error::Network("x".to_string())), Some(Ok(collection(second.clone()))), 9)
            .unwrap();
    assert_eq!(degraded.labels, second);
    let host_down =
        fetch_labels(Ok(collection(first.clone())), Some(Err(Error::RateLimited(None))), 9)
            .unwrap();
    assert_eq!(host_down.labels, first);
}

#[test]
fn a_wanted_credential_stops_a_label_query() {
    let wanted = Error::AuthenticationRequired("x".to_string());
    assert_eq!(
        fetch_labels(Err(wanted.clone()), None, 0).unwrap_err(),
        "Authentication required: x"
    );
    assert_eq!(
        fetch_labels(Ok(collection(vec![])), Some(Err(wanted)), 0).unwrap_err(),
        "Authentication required: x"
    );
}

#[test]
fn full_batches_take_as_many_queries() {
    let subjects: Vec<String> = (0..BATCH_SIZE * 3).map(uri).collect();
    let parts = batches(&subjects, BATCH_SIZE);
    assert_eq!(parts.len(), 3);
    assert!(parts.iter().all(|p| p.len() == 25));
    assert_eq!(parts.concat(), subjects);
}

#[test]
fn one_subject_more_takes_one_query_more() {
    let subjects: Vec<String> = (0..BATCH_SIZE * 3 + 1).map(uri).collect();
    let parts = batches(&subjects, BATCH_SIZE);
    assert_eq!(parts.len(), 4);
    assert_eq!(parts[3], vec![uri(75)]);
    assert_eq!(parts.concat(), subjects);
}

#[test]
fn batches_of_few_and_of_none() {
    assert!(batches(&vec![], BATCH_SIZE).is_empty());
    let one = batches(&vec![uri(0)], BATCH_SIZE);
    assert_eq!(one, vec![vec![uri(0)]]);
    let subjects: Vec<String> = (0..5).map(uri).collect();
    let pairs = batches(&subjects, 2);
    assert_eq!(pairs, vec![vec![uri(0), uri(1)], vec![uri(2), uri(3)], vec![uri(4)]]);
    assert_eq!(batches(&subjects, 1).len(), 5);
    assert_eq!(batches(&subjects, 5).len(), 1);
    assert_eq!(batches(&subjects, 6).len(), 1);
}

#[test]
fn uris_of_posts_in_order() {
    assert_eq!(post_uris(&posts(3)), vec![uri(0), uri(1), uri(2)]);
    assert!(post_uris(&vec![]).is_empty());
}

#[test]
fn labelled_posts_are_counted_once_each() {
    let labels = vec![
        label("spam", "did:plc:abc"),
        label("spam", &uri(1)),
        label("porn", &uri(1)),
        label("spam", &uri(2)),
        label("!takedown", "did:plc:abc"),
    ];
    assert_eq!(count_labelled_posts(&labels), 2);
    assert_eq!(count_labelled_posts(&vec![]), 0);
}

#[test]
fn account_labels_never_count_as_posts() {
    let labels = vec![label("!takedown", "did:plc:abc"), label("spam", "did:plc:abc")];
    assert_eq!(count_labelled_posts(&labels), 0);
    assert!(count_by_category(&labels).is_empty());
    assert!(tally_values(&labels).is_empty());
    let stats = compute_stats(3, &labels, &labels);
    assert_eq!(stats.total_posts, 3);
    assert_eq!(stats.posts_with_labels, 0);
    assert!(stats.posts_with_labels <= stats.total_posts);
    assert_eq!(stats.account_labels, labels);
}

#[test]
fn negated_labels_count_for_nothing() {
    let mut negated = label("spam", &uri(1));
    negated.neg = true;
    let labels = vec![negated];
    assert_eq!(count_labelled_posts(&labels), 0);
    assert!(count_by_category(&labels).is_empty());
    assert!(rank_values(&labels).is_empty());
}

#[test]
fn categories_are_counted_in_the_order_of_the_table() {
    let labels = vec![
        label("custom", &uri(1)),
        label("spam", &uri(1)),
        label("!hide", &uri(2)),
        label("porn", &uri(2)),
        label("nudity", &uri(3)),
        label("spam", &uri(3)),
        label("spam", "did:plc:abc"),
    ];
    assert_eq!(
        count_by_category(&labels),
        vec![
            (LabelCategory::AdultContent, 2),
            (LabelCategory::Spam, 2),
            (LabelCategory::ModerationAction, 1),
            (LabelCategory::Other, 1),
        ]
    );
}

#[test]
fn values_are_tallied_in_the_order_first_seen() {
    let labels = vec![
        label("spam", &uri(1)),
        label("porn", &uri(1)),
        label("spam", &uri(2)),
        label("gore", "did:plc:abc"),
        label("gore", &uri(3)),
    ];
    assert_eq!(
        tally_values(&labels),
        vec![("spam".to_string(), 2), ("porn".to_string(), 1), ("gore".to_string(), 1)]
    );
}

#[test]
fn values_are_ranked_by_count_and_ties_keep_their_order() {
    let labels = vec![
        label("porn", &uri(1)),
        label("gore", &uri(1)),
        label("spam", &uri(1)),
        label("spam", &uri(2)),
        label("hate", &uri(2)),
        label("gore", &uri(3)),
        label("spam", &uri(3)),
    ];
    assert_eq!(
        rank_values(&labels),
        vec![
            ("spam".to_string(), 3),
            ("gore".to_string(), 2),
            ("porn".to_string(), 1),
            ("hate".to_string(), 1),
        ]
    );
}

#[test]
fn statistics_of_the_same_input_are_the_same() {
    let labels = vec![
        label("porn", &uri(1)),
        label("spam", &uri(1)),
        label("spam", &uri(2)),
        label("!warn", "did:plc:abc"),
    ];
    let account = vec![label("!warn", "did:plc:abc")];
    let a = compute_stats(10, &labels, &account);
    let b = compute_stats(10, &labels, &account);
    assert_eq!(a.total_posts, 10);
    assert_eq!(a.posts_with_labels, 2);
    assert_eq!(a.labels_by_category, vec![(LabelCategory::AdultContent, 1), (LabelCategory::Spam, 2)]);
    assert_eq!(a.top_label_values, vec![("spam".to_string(), 2), ("porn".to_string(), 1)]);
    assert_eq!(a.account_labels, account);
    assert_eq!(a.total_posts, b.total_posts);
    assert_eq!(a.posts_with_labels, b.posts_with_labels);
    assert_eq!(a.labels_by_category, b.labels_by_category);
    assert_eq!(a.top_label_values, b.top_label_values);
    assert_eq!(a.account_labels, b.account_labels);
}

#[test]
fn statistics_of_nothing() {
    let stats = empty_stats();
    assert_eq!(stats.total_posts, 0);
    assert_eq!(stats.posts_with_labels, 0);
    assert!(stats.labels_by_category.is_empty());
    assert!(stats.top_label_values.is_empty());
    assert!(stats.account_labels.is_empty());
}

#[test]
fn labels_of_a_post() {
    let mut negated = label("porn", &uri(1));
    negated.neg = true;
    let labels = vec![
        label("spam", &uri(1)),
        label("spam", &uri(2)),
        negated,
        label("gore", &uri(1)),
    ];
    assert_eq!(labels_for(&labels, &uri(1)), vec![labels[0].clone(), labels[3].clone()]);
    assert!(labels_for(&labels, &uri(3)).is_empty());
    assert!(has_label(&labels, &uri(2)));
    assert!(!has_label(&labels, &uri(3)));
    assert!(!has_label(&vec![labels[2].clone()], &uri(1)));
}

#[test]
fn a_moderated_account_without_post_labels_shows_its_first_ten() {
    let account = vec![label("!takedown", "did:plc:abc")];
    assert_eq!(DISPLAY_LIMIT, 10);
    assert_eq!(select_for_display(&posts(25), &account, true), (0..10).collect::<Vec<usize>>());
    assert_eq!(select_for_display(&posts(10), &account, true), (0..10).collect::<Vec<usize>>());
    assert_eq!(select_for_display(&posts(4), &account, true), vec![0, 1, 2, 3]);
    assert!(select_for_display(&posts(0), &account, true).is_empty());
}

#[test]
fn an_account_without_labels_shows_its_labelled_posts_only() {
    let labels = vec![label("spam", &uri(3)), label("porn", &uri(7)), label("gore", &uri(3))];
    assert_eq!(select_for_display(&posts(12), &labels, false), vec![3, 7]);
    assert!(select_for_display(&posts(12), &vec![], false).is_empty());
}

#[test]
fn a_moderated_account_shows_labelled_posts_and_ten_others() {
    let labels = vec![
        label("!takedown", "did:plc:abc"),
        label("spam", &uri(2)),
        label("spam", &uri(14)),
    ];
    assert_eq!(
        select_for_display(&posts(20), &labels, true),
        vec![0, 1, 2, 3, 4, 5, 6, 7, 8, 9, 10, 14]
    );
}

#[test]
fn posts_are_shown_most_labelled_first_then_latest_first() {
    let input = vec![
        shown("a", 1, "2024-01-01T00:00:00Z"),
        shown("b", 3, "2023-01-01T00:00:00Z"),
        shown("c", 1, "2024-06-01T00:00:00Z"),
        shown("d", 0, "2025-01-01T00:00:00Z"),
        shown("e", 3, "2023-06-01T00:00:00Z"),
    ];
    assert_eq!(names(&sort_for_display(input)), vec!["e", "b", "c", "a", "d"]);
}

#[test]
fn posts_equal_in_both_keys_keep_their_order() {
    let input = vec![
        shown("a", 1, "2024-01-01T00:00:00Z"),
        shown("b", 1, "2024-01-01T00:00:00Z"),
        shown("c", 2, ""),
        shown("d", 1, "2024-01-01T00:00:00Z"),
        shown("e", 2, ""),
    ];
    assert_eq!(names(&sort_for_display(input)), vec!["c", "e", "a", "b", "d"]);
    assert!(sort_for_display(vec![]).is_empty());
}

#[test]
fn the_order_of_display_is_that_of_a_stable_sort_by_both_keys() {
    let stamps = ["2024-03-01", "2024-01-01", "", "2024-02-01", "2024-03-01", "2023-12-31"];
    let input: Vec<PostWithLabels> = (0..30)
        .map(|i| shown(&format!("p{}", i), (i * 7) % 4, stamps[(i * 5) % stamps.len()]))
        .collect();
    let mut expected = input.clone();
    expected.sort_by(|a, b| {
        b.labels.len().cmp(&a.labels.len()).then_with(|| b.created_at.cmp(&a.created_at))
    });
    let sorted = sort_for_display(input.clone());
    assert_eq!(names(&sorted), names(&expected));
    assert_eq!(names(&stable_sort(input)), names(&expected));
}

#[test]
fn an_analysis_gives_statistics_and_the_posts_in_order() {
    let account = vec![label("!takedown", "did:plc:abc")];
    let combined = vec![account[0].clone(), label("spam", &uri(1)), label("porn", &uri(1))];
    let display = vec![shown("a", 0, "2024-01-01"), shown("b", 2, "2023-01-01")];
    let (stats, ordered) = analyze_user_posts(&posts(3), &account, &combined, display);
    assert_eq!(stats.total_posts, 3);
    assert_eq!(stats.posts_with_labels, 1);
    assert_eq!(stats.labels_by_category, vec![(LabelCategory::AdultContent, 1), (LabelCategory::Spam, 1)]);
    assert_eq!(stats.top_label_values, vec![("spam".to_string(), 1), ("porn".to_string(), 1)]);
    assert_eq!(stats.account_labels, account);
    assert_eq!(names(&ordered), vec!["b", "a"]);
}

#[test]
fn an_analysis_of_no_posts_gives_nothing() {
    let account = vec![label("!takedown", "did:plc:abc")];
    let (stats, ordered) = analyze_user_posts(&vec![], &account, &account, vec![]);
    assert_eq!(stats.total_posts, 0);
    assert_eq!(stats.posts_with_labels, 0);
    assert!(stats.labels_by_category.is_empty());
    assert!(stats.top_label_values.is_empty());
    assert!(stats.account_labels.is_empty());
    assert!(ordered.is_empty());
}
