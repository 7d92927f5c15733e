use at_peek::course::{Analysis, Event, Stage, Step, Task};
use at_peek::display::PostWithLabels;
use at_peek::engagement::UserInfo;
use at_peek::error::Error;
use at_peek::json::Json;
use at_peek::posts::{describe_refusal, PostClient};
use at_peek::http::{Fetched, Status};
use at_peek::progress::Milestone;
use at_peek::stats::BulkAnalysisStats;
use at_peek::types::{AtRecord, Did, Label, LabelCategory, LabelCollection, ListRecordsResponse};

fn uri(n: usize) -> String {
    format!("at://did:plc:abc123/app.bsky.feed.post/{}", n)
}

fn post(n: usize) -> AtRecord {
    AtRecord {
        uri: uri(n),
        cid: format!("cid{}", n),
        value: Json::Object(vec![
            ("text".to_string(), Json::Text(format!("post {}", n))),
            ("createdAt".to_string(), Json::Text(format!("2024-01-{:02}T00:00:00Z", n % 28 + 1))),
        ]),
    }
}

fn label(val: &str, subject: &str) -> Label {
    Label {
        val: val.to_string(),
        uri: subject.to_string(),
        cid: None,
        src: "did:plc:labeler".to_string(),
        cts: "2024-02-01T00:00:00Z".to_string(),
        exp: None,
        neg: false,
    }
}

fn collection(labels: Vec<Label>) -> LabelCollection {
    LabelCollection { labels, labeler_did: "https://mod.bsky.app".to_string(), query_timestamp: 0 }
}

/// What a run found: the tasks that were asked for, the percentages that
/// were told, and what the analysis gave.
struct Run {
    queries: Vec<Vec<String>>,
    enriched: Vec<String>,
    percents: Vec<u8>,
    resolved: bool,
    outcome: Result<(BulkAnalysisStats, Vec<PostWithLabels>), String>,
}

fn run(
    input: &str,
    resolution: Result<Did, Error>,
    posts: Result<Vec<AtRecord>, Error>,
    labels: &[Label],
) -> Run {
    let mut posts = Some(posts);
    let mut found = Run {
        queries: vec![],
        enriched: vec![],
        percents: vec![],
        resolved: false,
        outcome: Err(String::new()),
    };
    let (mut analysis, mut step): (Analysis, Step) =
        Analysis::new(input, None).advance(Event::Begin);
    for _ in 0..10000 {
        for milestone in &step.told {
            found.percents.push(milestone.percent());
        }
        let event = match step.task {
            Task::Resolve { handle } => {
                assert_eq!(handle.as_str(), input.trim_start_matches('@'));
                found.resolved = true;
                Event::Resolved { outcome: resolution.clone() }
            }
            Task::FetchPosts { did, max_posts } => {
                assert_eq!(did.as_str(), "did:plc:abc123");
                assert_eq!(max_posts, 1000);
                Event::Posts { outcome: posts.take().unwrap() }
            }
            Task::QueryLabels { labeler, subjects } => {
                assert_eq!(labeler.labeler_url, "https://mod.bsky.app");
                let answer: Vec<Label> =
                    labels.iter().filter(|l| subjects.contains(&l.uri)).cloned().collect();
                found.queries.push(subjects);
                Event::Labels { outcome: Ok(collection(answer)) }
            }
            Task::Enrich { did, uri } => {
                assert_eq!(did.as_str(), "did:plc:abc123");
                found.enriched.push(uri);
                Event::Enriched {
                    endpoint: Some("https://pds.example".to_string()),
                    likes: Ok((
                        1,
                        vec![UserInfo {
                            did: "did:plc:fan".to_string(),
                            handle: "fan.example".to_string(),
                            display_name: None,
                        }],
                    )),
                    reposts: Err("Failed to fetch reposts: down".to_string()),
                }
            }
            Task::Finished { outcome } => {
                assert_eq!(analysis.stage, Stage::Done);
                found.outcome = outcome;
                return found;
            }
        };
        (analysis, step) = analysis.advance(event);
    }
    panic!("the analysis did not end");
}

fn many(count: usize) -> Result<Vec<AtRecord>, Error> {
    Ok((0..count).map(post).collect())
}

fn did() -> Result<Did, Error> {
    Ok(Did::new("did:plc:abc123".to_string()))
}

#[test]
fn an_identifier_is_not_resolved() {
    let found = run("did:plc:abc123", did(), many(0), &[]);
    assert!(!found.resolved);
    assert_eq!(found.percents, vec![15, 20]);
    let (stats, shown) = found.outcome.unwrap();
    assert_eq!(stats.total_posts, 0);
    assert!(shown.is_empty());
    assert!(found.queries.is_empty());
}

#[test]
fn a_handle_is_resolved_and_the_analysis_goes_on_with_its_identifier() {
    let found = run("@alice.bsky.social", did(), many(3), &[]);
    assert!(found.resolved);
    assert_eq!(found.queries[0], vec!["did:plc:abc123".to_string()]);
    let (stats, shown) = found.outcome.unwrap();
    assert_eq!(stats.total_posts, 3);
    assert_eq!(stats.posts_with_labels, 0);
    assert!(shown.is_empty());
}

#[test]
fn a_handle_that_is_not_resolved_ends_the_analysis() {
    let failed = Err(Error::ResolutionFailed("No DID found for handle 'alice.example'".to_string()));
    let found = run("alice.example", failed, many(3), &[]);
    assert_eq!(found.percents, vec![5]);
    assert_eq!(
        found.outcome.unwrap_err(),
        "Failed to resolve handle: Failed to resolve handle: No DID found for handle 'alice.example'"
    );
}

#[test]
fn a_forbidden_repository_ends_the_analysis_with_its_words() {
    let reply: Fetched<ListRecordsResponse> = Fetched::Refused {
        status: Status { code: 403, text: "403 Forbidden".to_string() },
        retry_after: None,
        body: String::new(),
    };
    let refused = PostClient::new().read_records(reply).unwrap_err();
    let found = run("did:plc:abc123", did(), Err(refused), &[]);
    let said = found.outcome.unwrap_err();
    assert_eq!(
        said,
        format!(
            "Failed to fetch posts: Labeler service unavailable: {}",
            describe_refusal(&Status { code: 403, text: "403 Forbidden".to_string() }, "")
        )
    );
    assert!(said.contains("suspended"));
    assert!(found.queries.is_empty());
    assert_eq!(found.percents, vec![15]);
}

#[test]
fn full_batches_take_one_query_each() {
    let found = run("did:plc:abc123", did(), many(50), &[]);
    assert_eq!(found.queries.len(), 1 + 2);
    assert_eq!(found.queries[1].len(), 25);
    assert_eq!(found.queries[2].len(), 25);
    assert_eq!(found.queries[1][0], uri(0));
    assert_eq!(found.queries[2][24], uri(49));
}

#[test]
fn one_post_more_takes_a_query_of_its_own() {
    let found = run("did:plc:abc123", did(), many(51), &[]);
    assert_eq!(found.queries.len(), 1 + 3);
    assert_eq!(found.queries[3], vec![uri(50)]);
}

#[test]
fn a_moderated_account_shows_its_first_ten_posts() {
    let labels = vec![label("!takedown", "did:plc:abc123")];
    let found = run("did:plc:abc123", did(), many(30), &labels);
    assert_eq!(found.enriched, (0..10).map(uri).collect::<Vec<String>>());
    let (stats, shown) = found.outcome.unwrap();
    assert_eq!(stats.total_posts, 30);
    assert_eq!(stats.posts_with_labels, 0);
    assert_eq!(stats.account_labels, labels);
    assert!(stats.labels_by_category.is_empty());
    assert_eq!(shown.len(), 10);
    let small = run("did:plc:abc123", did(), many(4), &labels);
    assert_eq!(small.outcome.unwrap().1.len(), 4);
}

#[test]
fn labelled_posts_are_shown_in_the_order_of_display() {
    let labels = vec![
        label("spam", &uri(3)),
        label("porn", &uri(7)),
        label("spam", &uri(7)),
        label("spam", &uri(12)),
    ];
    let found = run("did:plc:abc123", did(), many(40), &labels);
    assert_eq!(found.enriched, vec![uri(3), uri(7), uri(12)]);
    let (stats, shown) = found.outcome.unwrap();
    assert_eq!(stats.total_posts, 40);
    assert_eq!(stats.posts_with_labels, 3);
    assert!(stats.posts_with_labels <= stats.total_posts);
    assert_eq!(
        stats.labels_by_category,
        vec![(LabelCategory::AdultContent, 1), (LabelCategory::Spam, 3)]
    );
    assert_eq!(stats.top_label_values, vec![("spam".to_string(), 3), ("porn".to_string(), 1)]);
    let order: Vec<String> = shown.iter().map(|p| p.uri.clone()).collect();
    assert_eq!(order, vec![uri(7), uri(12), uri(3)]);
    assert_eq!(shown[0].labels.len(), 2);
    assert_eq!(shown[0].text, "post 7");
    assert_eq!(shown[0].like_count, 1);
    assert_eq!(shown[0].likers.len(), 1);
    assert_eq!(shown[0].repost_count, 0);
    assert!(shown[0].reposters.is_empty());
    assert!(!shown[0].has_media);
}

#[test]
fn the_same_backend_gives_the_same_analysis() {
    let labels = vec![
        label("!warn", "did:plc:abc123"),
        label("spam", &uri(3)),
        label("gore", &uri(30)),
        label("spam", &uri(30)),
    ];
    let (a, shown_a) = run("did:plc:abc123", did(), many(60), &labels).outcome.unwrap();
    let (b, shown_b) = run("did:plc:abc123", did(), many(60), &labels).outcome.unwrap();
    assert_eq!(a.total_posts, b.total_posts);
    assert_eq!(a.posts_with_labels, b.posts_with_labels);
    assert_eq!(a.labels_by_category, b.labels_by_category);
    assert_eq!(a.top_label_values, b.top_label_values);
    assert_eq!(a.account_labels, b.account_labels);
    let order_a: Vec<String> = shown_a.iter().map(|p| p.uri.clone()).collect();
    let order_b: Vec<String> = shown_b.iter().map(|p| p.uri.clone()).collect();
    assert_eq!(order_a, order_b);
    assert_eq!(order_a.len(), 12);
}

#[test]
fn percentages_of_a_run_never_fall() {
    let labels = vec![label("!takedown", "did:plc:abc123"), label("spam", &uri(150))];
    let found = run("alice.bsky.social", did(), many(230), &labels);
    assert_eq!(found.percents.first(), Some(&5));
    assert_eq!(found.percents.last(), Some(&100));
    assert!(found.percents.windows(2).all(|w| w[0] <= w[1]));
    assert!(found.percents.contains(&90));
    assert_eq!(found.enriched.len(), 11);
}

#[test]
fn a_wanted_credential_ends_the_analysis() {
    let (analysis, step) = Analysis::new("did:plc:abc123", None).advance(Event::Begin);
    assert!(matches!(step.task, Task::FetchPosts { .. }));
    let (analysis, step) = analysis.advance(Event::Posts { outcome: many(3) });
    assert!(matches!(step.task, Task::QueryLabels { .. }));
    assert_eq!(step.told, vec![Milestone::PostsFetched { count: 3 }, Milestone::AccountLabels]);
    let wanted = Error::AuthenticationRequired("HTTP 401 Unauthorized: login".to_string());
    let (analysis, step) = analysis.advance(Event::Labels { outcome: Err(wanted) });
    assert_eq!(analysis.stage, Stage::Done);
    match step.task {
        Task::Finished { outcome } => assert_eq!(
            outcome.unwrap_err(),
            "Authentication required: HTTP 401 Unauthorized: login"
        ),
        _ => panic!("the analysis went on"),
    }
}

#[test]
fn a_failed_batch_leaves_the_rest_of_the_analysis() {
    let (analysis, _) = Analysis::new("did:plc:abc123", Some("tok".to_string())).advance(Event::Begin);
    let (analysis, step) = analysis.advance(Event::Posts { outcome: many(30) });
    match &step.task {
        Task::QueryLabels { labeler, subjects } => {
            assert_eq!(labeler.auth_token, Some("tok".to_string()));
            assert_eq!(subjects, &vec!["did:plc:abc123".to_string()]);
        }
        _ => panic!("the account was not asked about"),
    }
    let (analysis, step) =
        analysis.advance(Event::Labels { outcome: Err(Error::RateLimited(Some(3))) });
    assert_eq!(step.told, vec![Milestone::Batch { index: 0, total: 2 }]);
    let (analysis, step) =
        analysis.advance(Event::Labels { outcome: Err(Error::Network("down".to_string())) });
    assert_eq!(step.told, vec![Milestone::Batch { index: 1, total: 2 }]);
    let (analysis, step) = analysis
        .advance(Event::Labels { outcome: Ok(collection(vec![label("spam", &uri(27))])) });
    assert_eq!(analysis.stage, Stage::Showing);
    assert_eq!(step.told, vec![Milestone::Analyzing]);
    match step.task {
        Task::Enrich { uri: asked, .. } => assert_eq!(asked, uri(27)),
        _ => panic!("the labelled post is not shown"),
    }
    let (_, step) = analysis.advance(Event::Enriched {
        endpoint: None,
        likes: Err("x".to_string()),
        reposts: Err("y".to_string()),
    });
    assert_eq!(
        step.told,
        vec![Milestone::Processing { done: 30, total: 30 }, Milestone::Complete]
    );
    match step.task {
        Task::Finished { outcome } => {
            let (stats, shown) = outcome.unwrap();
            assert_eq!(stats.posts_with_labels, 1);
            assert_eq!(shown.len(), 1);
            assert_eq!(shown[0].like_count, 0);
            assert!(shown[0].image_urls.is_empty());
        }
        _ => panic!("the analysis did not end"),
    }
}

#[test]
fn an_event_out_of_turn_ends_the_analysis() {
    let (analysis, step) = Analysis::new("did:plc:abc123", None).advance(Event::Posts { outcome: many(1) });
    assert_eq!(analysis.stage, Stage::Done);
    assert!(step.told.is_empty());
    match step.task {
        Task::Finished { outcome } => assert_eq!(
            outcome.unwrap_err(),
            "Unexpected event for this stage of the analysis"
        ),
        _ => panic!("the analysis went on"),
    }
    let (_, again) = analysis.advance(Event::Begin);
    assert!(matches!(again.task, Task::Finished { outcome: Err(_) }));
}

#[test]
fn a_damaged_analysis_ends() {
    let mut analysis = Analysis::new("did:plc:abc123", None);
    analysis.stage = Stage::Showing;
    assert!(!analysis.sound());
    let (after, step) = analysis.advance(Event::Enriched {
        endpoint: None,
        likes: Err(String::new()),
        reposts: Err(String::new()),
    });
    assert!(after.sound());
    assert!(matches!(step.task, Task::Finished { outcome: Err(_) }));
}
