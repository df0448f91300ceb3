//! One page of the listing: the request to send for it, and what the
//! answer amounts to.
//!
//! Nothing here waits or retries. How long to wait after a refusal is the
//! caller's decision.

use crate::tumblr::{ApiError, Pagination, ParseFailure, Post, TumblrResponse};
use vstd::prelude::*;
use vstd::string::StringExecFns;

verus! {

/// The resumption token of the listing. The service hands one out with
/// each page; no cursor stands for the start.
pub type Cursor = String;

/// A request for one page: the address and the query parameters, in the
/// order in which they are sent.
#[derive(Debug, Clone, PartialEq, Eq)]
pub struct PageRequest {
    pub url: String,
    pub query: Vec<(String, String)>,
}

/// What a body with a success status held.
#[derive(Debug, Clone, PartialEq, Eq)]
pub enum Body {
    /// Not a document of the expected shape.
    Malformed,
    /// The service's envelope.
    Envelope(TumblrResponse),
}

/// What came back for a page request.
#[derive(Debug, Clone, PartialEq, Eq)]
pub enum PageReply {
    /// The request failed before any status arrived.
    Unreachable,
    /// The service answered. The body counts only under a success status.
    Answer { status: u16, body: Body },
}

/// What one page request amounts to.
#[derive(Debug, Clone, PartialEq, Eq)]
pub enum FetchOutcome {
    /// A page of records, and the cursor of the page after it, if any.
    Page { records: Vec<Post>, next: Option<Cursor> },
    /// The service refused by status. `last` is the cursor of this request.
    RateLimited { status: u16, last: Option<Cursor> },
    /// No answer came.
    TransportError,
    /// An answer came with a success status, but held no page.
    ParseError(ParseFailure),
}

/// Whether a status code reports success: the codes from 200 to 299.
pub open spec fn status_is_success(status: u16) -> bool {
    200 <= status < 300
}

/// Whether a status code reports success.
pub fn is_success(status: u16) -> (success: bool)
    ensures
        success == status_is_success(status),
{
    200 <= status && status < 300
}

/// The cursor of the following page, as the pagination links give it: the
/// `before` parameter of the `next` link. Without one the listing is over.
pub open spec fn next_cursor_of(pagination: Pagination) -> Option<Cursor> {
    match pagination.next {
        Some(link) => link.query_params.before,
        None => None,
    }
}

/// Takes the cursor of the following page out of the pagination links.
pub fn next_cursor(pagination: Pagination) -> (next: Option<Cursor>)
    ensures
        next == next_cursor_of(pagination),
{
    match pagination.next {
        Some(link) => link.query_params.before,
        None => None,
    }
}

/// What a reply amounts to for a request that was made with `cursor`.
pub open spec fn outcome_of(cursor: Option<Cursor>, reply: PageReply) -> FetchOutcome {
    match reply {
        PageReply::Unreachable => FetchOutcome::TransportError,
        PageReply::Answer { status, body } => if !status_is_success(status) {
            FetchOutcome::RateLimited { status, last: cursor }
        } else {
            match body {
                Body::Malformed => FetchOutcome::ParseError(ParseFailure::Malformed),
                Body::Envelope(envelope) => match envelope.response {
                    None => FetchOutcome::ParseError(ParseFailure::MissingPayload),
                    Some(liked) => FetchOutcome::Page {
                        records: liked.liked_posts,
                        next: next_cursor_of(liked.pagination),
                    },
                },
            }
        },
    }
}

/// Classifies the reply to a request that was made with `cursor`.
///
/// A status that is no success is a refusal, whatever the body holds, and
/// keeps the cursor for a later resumption. Under a success status a body
/// that cannot be read, or an envelope without payload, is a parse failure.
/// Otherwise the page's records come out in the service's order, with the
/// cursor of the following page.
pub fn classify(cursor: Option<Cursor>, reply: PageReply) -> (outcome: FetchOutcome)
    ensures
        outcome == outcome_of(cursor, reply),
{
    match reply {
        PageReply::Unreachable => FetchOutcome::TransportError,
        PageReply::Answer { status, body } => {
            if !is_success(status) {
                FetchOutcome::RateLimited { status, last: cursor }
            } else {
                match body {
                    Body::Malformed => FetchOutcome::ParseError(ParseFailure::Malformed),
                    Body::Envelope(envelope) => match envelope.response {
                        None => FetchOutcome::ParseError(ParseFailure::MissingPayload),
                        Some(liked) => {
                            let next = next_cursor(liked.pagination);
                            FetchOutcome::Page { records: liked.liked_posts, next }
                        },
                    },
                }
            }
        },
    }
}

/// The failure that an outcome reports for a request made with `cursor`,
/// or nothing for a page.
pub open spec fn failure_of(cursor: Option<Cursor>, outcome: FetchOutcome) -> Option<ApiError> {
    match outcome {
        FetchOutcome::Page { .. } => None,
        FetchOutcome::RateLimited { status, last } => Some(
            ApiError::RateLimit { status, timestamp: last },
        ),
        FetchOutcome::TransportError => Some(ApiError::Transport { timestamp: cursor }),
        FetchOutcome::ParseError(failure) => Some(ApiError::Parse { failure, timestamp: cursor }),
    }
}

/// The texts of a list of query parameters.
pub open spec fn query_text(query: Seq<(String, String)>) -> Seq<(Seq<char>, Seq<char>)> {
    query.map_values(|pair: (String, String)| (pair.0@, pair.1@))
}

/// The address of a blog's likes listing.
pub open spec fn likes_url(user: Seq<char>) -> Seq<char> {
    "https://api.tumblr.com/v2/blog/"@ + user + "/likes"@
}

/// The query parameters of a page request: the API key, the flag that asks
/// for the block format, and `before` with the cursor where there is one.
pub open spec fn likes_query(api_key: Seq<char>, cursor: Option<Cursor>) -> Seq<
    (Seq<char>, Seq<char>),
> {
    let fixed = seq![("api_key"@, api_key), ("npf"@, "true"@)];
    match cursor {
        Some(token) => fixed.push(("before"@, token@)),
        None => fixed,
    }
}

/// Builds the request for the page that `cursor` names, or for the first
/// page where there is no cursor.
pub fn page_request(user: &str, api_key: &str, cursor: &Option<Cursor>) -> (request: PageRequest)
    ensures
        request.url@ == likes_url(user@),
        query_text(request.query@) == likes_query(api_key@, *cursor),
{
    let mut url = "https://api.tumblr.com/v2/blog/".to_owned();
    url.append(user);
    url.append("/likes");
    let mut query: Vec<(String, String)> = Vec::new();
    query.push(("api_key".to_owned(), api_key.to_owned()));
    query.push(("npf".to_owned(), "true".to_owned()));
    match cursor {
        Some(token) => {
            query.push(("before".to_owned(), token.clone()));
        },
        None => {},
    }
    PageRequest { url, query }
}

} // verus!
