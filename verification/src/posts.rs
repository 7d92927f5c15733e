//! Listing the posts of an account's repository, page by page.

use crate::encode::{encode, form_text};
use crate::error::{Error, ErrorView};
use crate::http::{plain_request, Fetched, Request, Status};
use crate::resolver::{details, details_of};
use crate::text::{decimal, decimal_string, join2, join3};
use crate::types::{AtRecord, Did, ListRecordsResponse};
use vstd::prelude::*;
use vstd::string::StringExecFns;

verus! {

/// How many records one listing asks for at most.
pub const PAGE_LIMIT: usize = 100;

/// How many posts an analysis looks at.
pub const ANALYSIS_LIMIT: usize = 1000;

/// The `limit` parameter of a listing, where there is one.
pub open spec fn limit_part(limit: Option<u32>) -> Seq<char> {
    match limit {
        Some(n) => "&limit="@ + decimal(n as nat),
        None => Seq::empty(),
    }
}

/// The `cursor` parameter of a listing, where there is one.
pub open spec fn cursor_part(cursor: Option<String>) -> Seq<char> {
    match cursor {
        Some(c) => "&cursor="@ + form_text(c@),
        None => Seq::empty(),
    }
}

/// The address that lists the posts of the account `did` on the data host
/// `host`.
pub open spec fn listing_url(host: Seq<char>, did: Seq<char>, limit: Option<u32>, cursor: Option<String>) -> Seq<
    char,
> {
    host + "/xrpc/com.atproto.repo.listRecords?repo="@ + form_text(did)
        + "&collection=app.bsky.feed.post"@ + limit_part(limit) + cursor_part(cursor)
}

/// What is said of a listing that the data host refused. The statuses 400,
/// 403, 404 and 410 and those from 500 to 599 each have their own words;
/// 403 speaks of an account that may be suspended or banned.
pub open spec fn refusal_message(status: Status, body: Seq<char>) -> Seq<char> {
    if status.code == 400 {
        "Bad request to PDS (HTTP 400). The repository may not exist or be inaccessible. "@
            + details(body)
    } else if status.code == 403 {
        "Access forbidden (HTTP 403). This account may be suspended, banned, or have restricted access. The account's posts cannot be retrieved. "@
            + details(body)
    } else if status.code == 404 {
        "Repository not found (HTTP 404). This account may have been deleted, deactivated, or the PDS endpoint may be incorrect. "@
            + details(body)
    } else if status.code == 410 {
        "Account has been permanently deleted (HTTP 410)"@
    } else if 500 <= status.code <= 599 {
        "PDS server error (HTTP "@ + status.text@
            + "). The Personal Data Server is experiencing issues. Try again later."@
    } else {
        "Failed to fetch posts from PDS (HTTP "@ + status.text@ + "). "@ + if body.len() > 0 {
            "Details: "@ + body
        } else {
            "The repository may be unavailable."@
        }
    }
}

/// What is said of a listing that the data host refused.
pub fn describe_refusal(status: &Status, body: &str) -> (m: String)
    ensures
        m@ == refusal_message(*status, body@),
{
    if status.code == 400 {
        join2(
            "Bad request to PDS (HTTP 400). The repository may not exist or be inaccessible. ",
            details_of(body).as_str(),
        )
    } else if status.code == 403 {
        join2(
            "Access forbidden (HTTP 403). This account may be suspended, banned, or have restricted access. The account's posts cannot be retrieved. ",
            details_of(body).as_str(),
        )
    } else if status.code == 404 {
        join2(
            "Repository not found (HTTP 404). This account may have been deleted, deactivated, or the PDS endpoint may be incorrect. ",
            details_of(body).as_str(),
        )
    } else if status.code == 410 {
        "Account has been permanently deleted (HTTP 410)".to_owned()
    } else if 500 <= status.code && status.code <= 599 {
        join3(
            "PDS server error (HTTP ",
            status.text.as_str(),
            "). The Personal Data Server is experiencing issues. Try again later.",
        )
    } else {
        let tail = if body.unicode_len() > 0 {
            join2("Details: ", body)
        } else {
            "The repository may be unavailable.".to_owned()
        };
        let mut m = String::from_str("Failed to fetch posts from PDS (HTTP ");
        m.append(status.text.as_str());
        m.append("). ");
        m.append(tail.as_str());
        m
    }
}

/// What a reply to a listing gives as an error, where it gives one.
pub open spec fn listing_error(reply: Fetched<ListRecordsResponse>) -> Option<ErrorView> {
    match reply {
        Fetched::Failed { detail } => Some(ErrorView::Network(detail@)),
        Fetched::Refused { status, retry_after, body } => Some(
            ErrorView::ServiceUnavailable(refusal_message(status, body@)),
        ),
        Fetched::Answered { body, parsed: Err(why) } => Some(
            ErrorView::ParseFailure("Failed to parse records response: "@ + why@),
        ),
        Fetched::Answered { body, parsed: Ok(page) } => None,
    }
}

/// A client of the data hosts of accounts.
#[derive(Debug, Clone)]
pub struct PostClient {}

impl PostClient {
    pub fn new() -> (c: Self) {
        PostClient {  }
    }

    /// The request that lists posts of the account `did` on its data host
    /// `host`: at most `limit` of them where a limit is given, after
    /// `cursor` where one is given.
    pub fn list_records(&self, host: &str, did: &Did, limit: Option<u32>, cursor: &Option<String>) -> (req:
        Request)
        ensures
            req.url@ == listing_url(host@, did.0@, limit, *cursor),
            req.authorization is None,
    {
        let mut url = String::from_str(host);
        url.append("/xrpc/com.atproto.repo.listRecords?repo=");
        url.append(encode(did.as_str()).as_str());
        url.append("&collection=app.bsky.feed.post");
        let ghost base = url@;
        match limit {
            Some(n) => {
                url.append("&limit=");
                url.append(decimal_string(n as u64).as_str());
                assert(url@ =~= base + limit_part(limit));
            },
            None => {
                assert(url@ =~= base + limit_part(limit));
            },
        }
        let ghost limited = url@;
        match cursor {
            Some(c) => {
                url.append("&cursor=");
                url.append(encode(c.as_str()).as_str());
                assert(url@ =~= limited + cursor_part(*cursor));
            },
            None => {
                assert(url@ =~= limited + cursor_part(*cursor));
            },
        }
        plain_request(url)
    }

    /// The page that a reply to a listing holds, or the error that says
    /// what went wrong.
    pub fn read_records(&self, reply: Fetched<ListRecordsResponse>) -> (r: Result<
        ListRecordsResponse,
        Error,
    >)
        ensures
            match r {
                Ok(page) => reply matches Fetched::Answered { body, parsed: Ok(held) } && page
                    == held,
                Err(e) => listing_error(reply) == Some(e@),
            },
    {
        match reply {
            Fetched::Failed { detail } => Err(Error::Network(detail)),
            Fetched::Refused { status, retry_after: _, body } => Err(
                Error::ServiceUnavailable(describe_refusal(&status, body.as_str())),
            ),
            Fetched::Answered { body: _, parsed: Err(why) } => Err(
                Error::ParseFailure(join2("Failed to parse records response: ", why.as_str())),
            ),
            Fetched::Answered { body: _, parsed: Ok(page) } => Ok(page),
        }
    }

    /// The start of fetching up to `max_posts` posts.
    pub fn fetch_posts(&self, max_posts: usize) -> (pager: PostPager)
        ensures
            pager.posts@.len() == 0,
            pager.cursor is None,
            pager.max_posts == max_posts,
            !pager.finished,
    {
        PostPager { posts: Vec::new(), cursor: None, max_posts, finished: false }
    }
}

impl Default for PostClient {
    fn default() -> (c: Self) {
        PostClient::new()
    }
}

/// How far the fetching of an account's posts has come.
#[derive(Debug)]
pub struct PostPager {
    /// The posts fetched so far, in the order in which they came.
    pub posts: Vec<AtRecord>,
    /// Where the next page begins.
    pub cursor: Option<String>,
    /// How many posts are wanted at most.
    pub max_posts: usize,
    /// Whether the repository has no more to give.
    pub finished: bool,
}

/// Whether a page ends the listing: it is empty, or names no next page.
pub open spec fn is_last_page(page: ListRecordsResponse) -> bool {
    page.records@.len() == 0 || match page.cursor {
        Some(c) => c@.len() == 0,
        None => true,
    }
}

impl PostPager {
    /// Whether another page is to be asked for.
    pub open spec fn wants_more(&self) -> bool {
        !self.finished && self.posts@.len() < self.max_posts
    }

    /// How many records the next page may hold.
    pub open spec fn spec_next_limit(&self) -> int {
        if self.max_posts - self.posts@.len() < PAGE_LIMIT {
            self.max_posts - self.posts@.len()
        } else {
            PAGE_LIMIT as int
        }
    }

    /// How many records to ask for next, or `None` where the fetching is
    /// over: enough posts are there, or the repository has no more.
    pub fn next_limit(&self) -> (r: Option<u32>)
        ensures
            self.wants_more() ==> r == Some(self.spec_next_limit() as u32),
            !self.wants_more() ==> r is None,
    {
        if self.finished || self.posts.len() >= self.max_posts {
            None
        } else {
            let remaining = self.max_posts - self.posts.len();
            if remaining < PAGE_LIMIT {
                Some(remaining as u32)
            } else {
                Some(PAGE_LIMIT as u32)
            }
        }
    }

    /// Takes in a page: its records follow those fetched so far. An empty
    /// page, or one that names no next page, ends the fetching; else the
    /// next page begins at the page's cursor.
    pub fn accept(&mut self, page: ListRecordsResponse)
        ensures
            final(self).posts@ == old(self).posts@ + page.records@,
            final(self).max_posts == old(self).max_posts,
            final(self).finished == (old(self).finished || is_last_page(page)),
            final(self).cursor == if is_last_page(page) {
                old(self).cursor
            } else {
                page.cursor
            },
    {
        let mut page = page;
        if page.records.len() == 0 {
            self.finished = true;
            assert(self.posts@ + page.records@ =~= self.posts@);
            return ;
        }
        self.posts.append(&mut page.records);
        let more = match &page.cursor {
            Some(c) => c.as_str().unicode_len() > 0,
            None => false,
        };
        if more {
            self.cursor = page.cursor;
        } else {
            self.finished = true;
        }
    }

    /// The posts that were fetched.
    pub fn into_posts(self) -> (posts: Vec<AtRecord>)
        ensures
            posts == self.posts,
    {
        self.posts
    }
}

} // verus!
