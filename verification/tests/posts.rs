use at_peek::auth::{authenticate, create_session, read_session, SessionResponse};
use at_peek::error::Error;
use at_peek::http::{Fetched, Status};
use at_peek::json::Json;
use at_peek::posts::{describe_refusal, PostClient};
use at_peek::types::{AtRecord, Did, ListRecordsResponse};

fn record(n: usize) -> AtRecord {
    AtRecord {
        uri: format!("at://did:plc:abc/app.bsky.feed.post/{}", n),
        cid: format!("cid{}", n),
        value: Json::Object(vec![]),
    }
}

fn page(from: usize, count: usize, cursor: Option<&str>) -> ListRecordsResponse {
    ListRecordsResponse {
        records: (from..from + count).map(record).collect(),
        cursor: cursor.map(|c| c.to_string()),
    }
}

fn status(code: u16, text: &str) -> Status {
    Status { code, text: text.to_string() }
}

#[test]
fn a_listing_names_repository_and_collection() {
    let client = PostClient::new();
    let did = Did::new("did:plc:abc".to_string());
    let req = client.list_records("https://pds.example", &did, None, &None);
    assert_eq!(
        req.url,
        "https://pds.example/xrpc/com.atproto.repo.listRecords?repo=did%3Aplc%3Aabc&collection=app.bsky.feed.post"
    );
    assert_eq!(req.authorization, None);
}

#[test]
fn a_listing_carries_limit_and_cursor() {
    let client = PostClient::default();
    let did = Did::new("did:plc:abc".to_string());
    let req = client.list_records("https://pds.example", &did, Some(100), &Some("a b/c".to_string()));
    assert_eq!(
        req.url,
        "https://pds.example/xrpc/com.atproto.repo.listRecords?repo=did%3Aplc%3Aabc&collection=app.bsky.feed.post&limit=100&cursor=a+b%2Fc"
    );
    let limited = client.list_records("https://pds.example", &did, Some(7), &None);
    assert!(limited.url.ends_with("&collection=app.bsky.feed.post&limit=7"));
}

#[test]
fn a_forbidden_listing_speaks_of_suspension() {
    let message = describe_refusal(&status(403, "403 Forbidden"), "blocked");
    assert_eq!(
        message,
        "Access forbidden (HTTP 403). This account may be suspended, banned, or have restricted access. The account's posts cannot be retrieved. Details: blocked"
    );
    let client = PostClient::new();
    let reply: Fetched<ListRecordsResponse> = Fetched::Refused {
        status: status(403, "403 Forbidden"),
        retry_after: None,
        body: String::new(),
    };
    match client.read_records(reply) {
        Err(Error::ServiceUnavailable(m)) => {
            assert!(m.contains("suspended"));
            assert!(m.contains("banned"));
            assert_eq!(
                m,
                "Access forbidden (HTTP 403). This account may be suspended, banned, or have restricted access. The account's posts cannot be retrieved. "
            );
        }
        _ => panic!("the listing was not refused"),
    }
}

#[test]
fn each_status_has_its_words() {
    assert_eq!(
        describe_refusal(&status(400, "400 Bad Request"), "x"),
        "Bad request to PDS (HTTP 400). The repository may not exist or be inaccessible. Details: x"
    );
    assert_eq!(
        describe_refusal(&status(400, "400 Bad Request"), ""),
        "Bad request to PDS (HTTP 400). The repository may not exist or be inaccessible. "
    );
    assert_eq!(
        describe_refusal(&status(404, "404 Not Found"), "x"),
        "Repository not found (HTTP 404). This account may have been deleted, deactivated, or the PDS endpoint may be incorrect. Details: x"
    );
    assert_eq!(
        describe_refusal(&status(410, "410 Gone"), "x"),
        "Account has been permanently deleted (HTTP 410)"
    );
    assert_eq!(
        describe_refusal(&status(500, "500 Internal Server Error"), "x"),
        "PDS server error (HTTP 500 Internal Server Error). The Personal Data Server is experiencing issues. Try again later."
    );
    assert_eq!(
        describe_refusal(&status(599, "599 <unknown status code>"), ""),
        "PDS server error (HTTP 599 <unknown status code>). The Personal Data Server is experiencing issues. Try again later."
    );
    assert_eq!(
        describe_refusal(&status(418, "418 I'm a teapot"), "x"),
        "Failed to fetch posts from PDS (HTTP 418 I'm a teapot). Details: x"
    );
    assert_eq!(
        describe_refusal(&status(600, "600 <unknown status code>"), ""),
        "Failed to fetch posts from PDS (HTTP 600 <unknown status code>). The repository may be unavailable."
    );
}

#[test]
fn a_good_reply_gives_its_page() {
    let client = PostClient::new();
    let reply =
        Fetched::Answered { body: String::new(), parsed: Ok(page(0, 2, Some("next"))) };
    let got = client.read_records(reply).unwrap();
    assert_eq!(got.records.len(), 2);
    assert_eq!(got.records[1].uri, "at://did:plc:abc/app.bsky.feed.post/1");
    assert_eq!(got.cursor, Some("next".to_string()));
}

#[test]
fn failed_and_unreadable_listings() {
    let client = PostClient::new();
    let failed: Fetched<ListRecordsResponse> = Fetched::Failed { detail: "down".to_string() };
    assert_eq!(client.read_records(failed).unwrap_err(), Error::Network("down".to_string()));
    let unreadable: Fetched<ListRecordsResponse> =
        Fetched::Answered { body: "x".to_string(), parsed: Err("eof".to_string()) };
    assert_eq!(
        client.read_records(unreadable).unwrap_err(),
        Error::ParseFailure("Failed to parse records response: eof".to_string())
    );
}

#[test]
fn paging_asks_for_a_hundred_at_most() {
    let client = PostClient::new();
    let mut pager = client.fetch_posts(250);
    assert_eq!(pager.next_limit(), Some(100));
    assert_eq!(pager.cursor, None);
    pager.accept(page(0, 100, Some("c1")));
    assert_eq!(pager.cursor, Some("c1".to_string()));
    assert_eq!(pager.next_limit(), Some(100));
    pager.accept(page(100, 100, Some("c2")));
    assert_eq!(pager.next_limit(), Some(50));
    pager.accept(page(200, 50, Some("c3")));
    assert_eq!(pager.next_limit(), None);
    let posts = pager.into_posts();
    assert_eq!(posts.len(), 250);
    assert_eq!(posts[249].uri, "at://did:plc:abc/app.bsky.feed.post/249");
}

#[test]
fn paging_stops_at_an_empty_page() {
    let mut pager = PostClient::new().fetch_posts(1000);
    pager.accept(page(0, 3, Some("c1")));
    pager.accept(page(3, 0, Some("c2")));
    assert!(pager.finished);
    assert_eq!(pager.cursor, Some("c1".to_string()));
    assert_eq!(pager.next_limit(), None);
    assert_eq!(pager.into_posts().len(), 3);
}

#[test]
fn paging_stops_without_a_cursor() {
    let mut pager = PostClient::new().fetch_posts(1000);
    pager.accept(page(0, 3, None));
    assert_eq!(pager.next_limit(), None);
    assert_eq!(pager.posts.len(), 3);
    let mut other = PostClient::new().fetch_posts(1000);
    other.accept(page(0, 3, Some("")));
    assert_eq!(other.next_limit(), None);
    assert_eq!(other.posts.len(), 3);
}

#[test]
fn paging_for_no_posts_asks_nothing() {
    let pager = PostClient::new().fetch_posts(0);
    assert_eq!(pager.next_limit(), None);
}

#[test]
fn a_session_is_opened_with_identifier_and_password() {
    let (url, request) = create_session("alice.bsky.social", "app-password");
    assert_eq!(url, "https://bsky.social/xrpc/com.atproto.server.createSession");
    assert_eq!(request.identifier, "alice.bsky.social");
    assert_eq!(request.password, "app-password");
}

#[test]
fn a_session_reply_gives_the_token() {
    let session = SessionResponse {
        access_jwt: "access".to_string(),
        refresh_jwt: "refresh".to_string(),
        did: "did:plc:abc".to_string(),
        handle: "alice.bsky.social".to_string(),
    };
    let reply = Fetched::Answered { body: String::new(), parsed: Ok(session.clone()) };
    let read = read_session(reply);
    assert_eq!(read, Ok(session));
    assert_eq!(authenticate(read), Ok("access".to_string()));
}

#[test]
fn a_refused_session_says_why() {
    let reply: Fetched<SessionResponse> = Fetched::Refused {
        status: status(401, "401 Unauthorized"),
        retry_after: None,
        body: "Invalid identifier or password".to_string(),
    };
    let read = read_session(reply);
    assert_eq!(
        read,
        Err(Error::ResolutionFailed(
            "Authentication failed (HTTP 401 Unauthorized): Invalid identifier or password"
                .to_string()
        ))
    );
    assert_eq!(
        authenticate(read),
        Err("Authentication failed: Failed to resolve handle: Authentication failed (HTTP 401 Unauthorized): Invalid identifier or password".to_string())
    );
}

#[test]
fn failed_and_unreadable_sessions() {
    let failed: Fetched<SessionResponse> = Fetched::Failed { detail: "down".to_string() };
    assert_eq!(read_session(failed), Err(Error::Network("down".to_string())));
    let unreadable: Fetched<SessionResponse> =
        Fetched::Answered { body: "x".to_string(), parsed: Err("eof".to_string()) };
    assert_eq!(
        read_session(unreadable),
        Err(Error::ParseFailure("Failed to parse session response: eof".to_string()))
    );
}

#[test]
fn success_is_two_hundred_to_two_ninety_nine() {
    assert!(!status(199, "").is_success());
    assert!(status(200, "").is_success());
    assert!(status(204, "").is_success());
    assert!(status(299, "").is_success());
    assert!(!status(300, "").is_success());
    assert!(!status(404, "").is_success());
}
