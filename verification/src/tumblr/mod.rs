//! The remote service's data: permission scopes, posts and pagination.
//!
//! The shapes follow the service's documents. Most fields are optional,
//! because the service does not promise them. A URL is held as its text.

pub mod scope;

use vstd::prelude::*;

verus! {

/// The blog that a post or a mention belongs to.
#[derive(Debug, Clone, PartialEq, Eq)]
pub struct Blog {
    pub name: String,
    pub title: Option<String>,
    pub url: String,
    pub description: Option<String>,
    pub uuid: String,
    pub updated: Option<usize>,
    pub can_show_badges: Option<bool>,
}

/// A liked post. The service tags each post with its format; the block
/// format is the only one that is asked for.
#[derive(Debug, Clone, PartialEq, Eq)]
pub enum Post {
    Blocks {
        is_blocks_post_format: bool,
        blog_name: String,
        blog: Blog,
        id: usize,
        id_string: String,
        is_blazed: bool,
        is_blaze_pending: bool,
        post_url: String,
        slug: String,
        date: String,
        timestamp: usize,
        state: String,
        reblog_key: String,
        tags: Vec<String>,
        short_url: String,
        summary: String,
        should_open_in_legacy: bool,
        note_count: usize,
        content: Vec<Content>,
        liked_timestamp: usize,
        can_like: bool,
        interactability_reblog: String,
        interactability_blaze: String,
        can_reblog: bool,
        can_send_in_message: bool,
        can_reply: bool,
        display_avatar: bool,
    },
}

/// One content block of a post.
#[allow(inconsistent_fields)]
#[derive(Debug, Clone, PartialEq, Eq)]
pub enum Content {
    Text {
        text: String,
        subtype: Option<String>,
        indent_level: Option<usize>,
        formatting: Option<Vec<InlineFormat>>,
    },
    Image {
        media: Vec<MediaObject>,
        feedback_token: Option<String>,
        poster: Option<Poster>,
        alt_text: Option<String>,
        caption: Option<String>,
    },
    Link {
        url: Option<String>,
        title: Option<String>,
        description: Option<String>,
        author: Option<String>,
        site_name: Option<String>,
        display_url: Option<String>,
    },
    Audio {
        url: Option<String>,
        media: Option<MediaObject>,
        provider: Option<String>,
        title: Option<String>,
        artist: Option<String>,
        album: Option<String>,
        embed_html: Option<String>,
        embed_url: Option<String>,
    },
    Video {
        url: Option<String>,
        media: Option<MediaObject>,
        provider: Option<String>,
        embed_html: Option<String>,
        embed_url: Option<String>,
    },
}

/// Formatting applied to a range of a text block.
#[allow(inconsistent_fields)]
#[derive(Debug, Clone, PartialEq, Eq)]
pub enum InlineFormat {
    Bold { start: usize, end: usize },
    Italic { start: usize, end: usize },
    StrikeThrough { start: usize, end: usize },
    Small { start: usize, end: usize },
    Link { start: usize, end: usize, url: String },
    Mention { start: usize, end: usize, blog: Blog },
    Color { start: usize, end: usize, hex: String },
}

/// The still image shown for a media block.
#[derive(Debug, Clone, PartialEq, Eq)]
pub struct Poster {
    pub ty: String,
    pub url: String,
    pub widht: usize,
    pub height: usize,
}

/// How a post's blocks are laid out.
#[derive(Debug, Clone, PartialEq, Eq)]
pub struct Layout {
    pub ty: String,
}

/// One step of a post's reblog trail.
#[derive(Debug, Clone, PartialEq, Eq)]
pub struct Trail {
    pub ty: String,
}

/// One variant of a media asset: where it is and what is known of it.
#[derive(Debug, Clone, PartialEq, Eq)]
pub struct MediaObject {
    pub media_key: Option<String>,
    pub url: String,
    pub ty: Option<String>,
    pub width: Option<usize>,
    pub height: Option<usize>,
    pub original_dimensions_missing: Option<bool>,
    pub cropped: Option<bool>,
    pub has_original_dimensions: Option<bool>,
}

/// An embedded frame for a video block.
#[derive(Debug, Clone, PartialEq, Eq)]
pub struct EmbedIFrameObject {
    pub url: String,
    pub width: usize,
    pub height: usize,
}

/// The status that the service reports inside its envelope.
#[derive(Debug, Clone, PartialEq, Eq)]
pub struct Meta {
    pub status: usize,
    pub msg: String,
}

/// The envelope of every answer of the service.
#[derive(Debug, Clone, PartialEq, Eq)]
pub struct TumblrResponse {
    pub meta: Meta,
    pub response: Option<Liked>,
}

/// One page of liked posts.
#[derive(Debug, Clone, PartialEq, Eq)]
pub struct Liked {
    pub liked_posts: Vec<Post>,
    pub liked_count: usize,
    pub pagination: Pagination,
}

/// Links to the pages after and before this one.
#[derive(Debug, Clone, PartialEq, Eq)]
pub struct Pagination {
    pub next: Option<PaginationResult>,
    pub prev: Option<PaginationResult>,
}

/// One pagination link: the request that fetches the page.
#[derive(Debug, Clone, PartialEq, Eq)]
pub struct PaginationResult {
    pub href: String,
    pub method: String,
    pub query_params: QueryParams,
}

/// The query parameters of a pagination link.
#[derive(Debug, Clone, PartialEq, Eq)]
pub struct QueryParams {
    pub npf: Option<String>,
    pub before: Option<String>,
    pub after: Option<String>,
}

/// How a body that arrived with a success status failed to give a page.
#[derive(Debug, Clone, Copy, PartialEq, Eq, Structural)]
pub enum ParseFailure {
    /// The body is not a document of the expected shape.
    Malformed,
    /// The envelope was read, but it holds no payload.
    MissingPayload,
}

/// Why a listing stopped early. Each failure carries the cursor that the
/// failed request was made with, so that a later run can resume there.
#[derive(Debug, Clone, PartialEq, Eq)]
pub enum ApiError {
    /// The service answered with a status that is no success.
    RateLimit { status: u16, timestamp: Option<String> },
    /// No answer came.
    Transport { timestamp: Option<String> },
    /// An answer came with a success status, but held no page.
    Parse { failure: ParseFailure, timestamp: Option<String> },
}

impl ApiError {
    /// The cursor that the failed request was made with.
    pub open spec fn spec_last_cursor(self) -> Option<String> {
        match self {
            ApiError::RateLimit { timestamp, .. } => timestamp,
            ApiError::Transport { timestamp } => timestamp,
            ApiError::Parse { timestamp, .. } => timestamp,
        }
    }

    /// The cursor that the failed request was made with: the place to
    /// resume from.
    pub fn last_cursor(&self) -> (cursor: &Option<String>)
        ensures
            *cursor == self.spec_last_cursor(),
    {
        match self {
            ApiError::RateLimit { timestamp, .. } => timestamp,
            ApiError::Transport { timestamp } => timestamp,
            ApiError::Parse { timestamp, .. } => timestamp,
        }
    }

    /// Whether this failure is the service's refusal by status, the one
    /// failure that a caller may want to wait out.
    pub fn is_rate_limit(&self) -> (limited: bool)
        ensures
            limited == (self is RateLimit),
    {
        match self {
            ApiError::RateLimit { .. } => true,
            _ => false,
        }
    }

    /// A short description for a log line.
    pub fn message(&self) -> (text: &'static str)
        ensures
            text@ == match *self {
                ApiError::RateLimit { .. } => "received rate limit response"@,
                ApiError::Transport { .. } => "request could not be completed"@,
                ApiError::Parse { failure: ParseFailure::Malformed, .. } =>
                    "response body could not be parsed"@,
                ApiError::Parse { failure: ParseFailure::MissingPayload, .. } =>
                    "no likes were returned with the response"@,
            },
    {
        match self {
            ApiError::RateLimit { .. } => "received rate limit response",
            ApiError::Transport { .. } => "request could not be completed",
            ApiError::Parse { failure: ParseFailure::Malformed, .. } =>
                "response body could not be parsed",
            ApiError::Parse { failure: ParseFailure::MissingPayload, .. } =>
                "no likes were returned with the response",
        }
    }
}

} // verus!
