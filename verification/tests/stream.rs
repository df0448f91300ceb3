use tumblr_sync::fetch::{Body, PageReply};
use tumblr_sync::stream::{replay, split_terminal, LikesStream, Pull};
use tumblr_sync::tumblr::{
    ApiError, Blog, Content, Liked, Meta, Pagination, PaginationResult, ParseFailure, Post,
    QueryParams, TumblrResponse,
};

fn stream_post(id: usize) -> Post {
    Post::Blocks {
        is_blocks_post_format: true,
        blog_name: format!("blog{}", id),
        blog: Blog {
            name: format!("blog{}", id),
            title: Some("title".to_string()),
            url: format!("https://blog{}.tumblr.com/", id),
            description: None,
            uuid: format!("t:{}", id),
            updated: Some(5),
            can_show_badges: Some(false),
        },
        id,
        id_string: id.to_string(),
        is_blazed: false,
        is_blaze_pending: false,
        post_url: format!("https://blog{}.tumblr.com/post/{}", id, id),
        slug: "slug".to_string(),
        date: "2022-01-02 03:04:05 GMT".to_string(),
        timestamp: 1641092645,
        state: "published".to_string(),
        reblog_key: "k".to_string(),
        tags: vec!["a".to_string()],
        short_url: "https://tmblr.co/x".to_string(),
        summary: "s".to_string(),
        should_open_in_legacy: false,
        note_count: 2,
        content: vec![Content::Text {
            text: format!("text {}", id),
            subtype: None,
            indent_level: None,
            formatting: None,
        }],
        liked_timestamp: 1641092700,
        can_like: true,
        interactability_reblog: "everyone".to_string(),
        interactability_blaze: "everyone".to_string(),
        can_reblog: true,
        can_send_in_message: true,
        can_reply: true,
        display_avatar: true,
    }
}

fn stream_page(ids: &[usize], next: Option<&str>) -> PageReply {
    let link = next.map(|cursor| PaginationResult {
        href: "/v2/blog/x/likes".to_string(),
        method: "GET".to_string(),
        query_params: QueryParams {
            npf: Some("true".to_string()),
            before: Some(cursor.to_string()),
            after: None,
        },
    });
    PageReply::Answer {
        status: 200,
        body: Body::Envelope(TumblrResponse {
            meta: Meta { status: 200, msg: "OK".to_string() },
            response: Some(Liked {
                liked_posts: ids.iter().map(|id| stream_post(*id)).collect(),
                liked_count: ids.len(),
                pagination: Pagination { next: link, prev: None },
            }),
        }),
    }
}

fn stream_oks(ids: &[usize]) -> Vec<Result<Post, ApiError>> {
    ids.iter().map(|id| Ok(stream_post(*id))).collect()
}

#[test]
fn new_stream_asks_for_the_first_page() {
    let mut stream = LikesStream::new(None);
    assert!(stream.wants_page());
    assert_eq!(stream.cursor(), &None);
    assert_eq!(stream.pull(), Pull::Fetch);
    assert_eq!(stream.pull(), Pull::Fetch);
    let request = stream.request("me", "KEY");
    assert_eq!(request.url, "https://api.tumblr.com/v2/blog/me/likes");
    assert_eq!(request.query.len(), 2);
}

#[test]
fn resumed_stream_requests_with_its_cursor() {
    let stream = LikesStream::new(Some("1234".to_string()));
    let request = stream.request("me", "KEY");
    assert_eq!(request.query.len(), 3);
    assert_eq!(request.query[2], ("before".to_string(), "1234".to_string()));
}

#[test]
fn records_of_a_page_come_before_the_next_request() {
    let mut stream = LikesStream::new(None);
    assert!(stream.supply(stream_page(&[1, 2], Some("100"))));
    assert!(!stream.wants_page());
    assert_eq!(stream.cursor(), &Some("100".to_string()));
    assert_eq!(stream.pull(), Pull::Record(stream_post(1)));
    assert_eq!(stream.pull(), Pull::Record(stream_post(2)));
    assert_eq!(stream.pull(), Pull::Fetch);
    assert!(stream.wants_page());
    assert!(stream.supply(stream_page(&[3], None)));
    assert_eq!(stream.pull(), Pull::Record(stream_post(3)));
    assert_eq!(stream.pull(), Pull::End);
    assert_eq!(stream.pull(), Pull::End);
    assert!(!stream.wants_page());
}

#[test]
fn reply_is_set_aside_while_records_are_at_hand() {
    let mut stream = LikesStream::new(None);
    assert!(stream.supply(stream_page(&[1, 2], Some("100"))));
    assert!(!stream.supply(stream_page(&[7], Some("50"))));
    assert_eq!(stream.cursor(), &Some("100".to_string()));
    assert_eq!(stream.pull(), Pull::Record(stream_post(1)));
    assert_eq!(stream.pull(), Pull::Record(stream_post(2)));
    assert_eq!(stream.pull(), Pull::Fetch);
}

#[test]
fn reply_is_set_aside_after_the_end() {
    let mut stream = LikesStream::new(None);
    assert!(stream.supply(stream_page(&[], None)));
    assert_eq!(stream.pull(), Pull::End);
    assert!(!stream.supply(stream_page(&[1], None)));
    assert_eq!(stream.pull(), Pull::End);
}

#[test]
fn failure_is_handed_out_once_and_ends_the_stream() {
    let mut stream = LikesStream::new(Some("9".to_string()));
    assert!(stream.supply(PageReply::Answer { status: 429, body: Body::Malformed }));
    assert!(!stream.wants_page());
    assert_eq!(
        stream.pull(),
        Pull::Failure(ApiError::RateLimit { status: 429, timestamp: Some("9".to_string()) })
    );
    assert_eq!(stream.pull(), Pull::End);
    assert_eq!(stream.pull(), Pull::End);
    assert!(!stream.supply(stream_page(&[1], None)));
}

#[test]
fn empty_page_with_a_cursor_goes_on() {
    let items = replay(
        None,
        vec![stream_page(&[], Some("10")), stream_page(&[4], None), stream_page(&[5], None)],
    );
    assert_eq!(items, stream_oks(&[4]));
}

#[test]
fn all_pages_are_handed_out_in_order() {
    let replies = vec![
        stream_page(&[5, 4], Some("c1")),
        stream_page(&[3], Some("c2")),
        stream_page(&[2, 1, 0], None),
    ];
    let items = replay(None, replies);
    assert_eq!(items, stream_oks(&[5, 4, 3, 2, 1, 0]));
    let (records, failure) = split_terminal(items);
    assert_eq!(records.len(), 6);
    assert_eq!(failure, None);
}

#[test]
fn replies_beyond_the_last_page_are_not_asked_for() {
    let replies = vec![stream_page(&[1], None), stream_page(&[2], None), PageReply::Unreachable];
    assert_eq!(replay(Some("x".to_string()), replies), stream_oks(&[1]));
}

#[test]
fn refusal_on_the_third_page_keeps_two_pages() {
    let replies = vec![
        stream_page(&[1, 2], Some("c1")),
        stream_page(&[3], Some("c2")),
        PageReply::Answer { status: 429, body: Body::Malformed },
        stream_page(&[4], None),
    ];
    let items = replay(None, replies);
    let mut expected = stream_oks(&[1, 2, 3]);
    expected.push(Err(ApiError::RateLimit { status: 429, timestamp: Some("c2".to_string()) }));
    assert_eq!(items, expected);
    let (records, failure) = split_terminal(items);
    assert_eq!(records, vec![stream_post(1), stream_post(2), stream_post(3)]);
    assert_eq!(
        failure,
        Some(ApiError::RateLimit { status: 429, timestamp: Some("c2".to_string()) })
    );
}

#[test]
fn refusal_on_the_first_page_carries_the_starting_cursor() {
    let refusal = PageReply::Answer { status: 500, body: Body::Malformed };
    assert_eq!(
        replay(None, vec![refusal.clone()]),
        vec![Err(ApiError::RateLimit { status: 500, timestamp: None })]
    );
    assert_eq!(
        replay(Some("777".to_string()), vec![refusal]),
        vec![Err(ApiError::RateLimit { status: 500, timestamp: Some("777".to_string()) })]
    );
}

#[test]
fn other_failures_carry_the_cursor_of_the_failed_request() {
    let items = replay(None, vec![stream_page(&[1], Some("c1")), PageReply::Unreachable]);
    assert_eq!(
        items,
        vec![Ok(stream_post(1)), Err(ApiError::Transport { timestamp: Some("c1".to_string()) })]
    );
    let items = replay(
        None,
        vec![
            stream_page(&[1], Some("c1")),
            PageReply::Answer { status: 200, body: Body::Malformed },
        ],
    );
    assert_eq!(
        items[1],
        Err(ApiError::Parse {
            failure: ParseFailure::Malformed,
            timestamp: Some("c1".to_string())
        })
    );
    let empty = TumblrResponse { meta: Meta { status: 200, msg: "OK".to_string() }, response: None };
    let items =
        replay(None, vec![PageReply::Answer { status: 200, body: Body::Envelope(empty) }]);
    assert_eq!(
        items,
        vec![Err(ApiError::Parse { failure: ParseFailure::MissingPayload, timestamp: None })]
    );
}

#[test]
fn replay_without_replies_hands_out_nothing() {
    assert_eq!(replay(None, vec![]), vec![]);
    assert_eq!(replay(None, vec![stream_page(&[1], Some("c"))]), stream_oks(&[1]));
}

#[test]
fn split_stops_at_the_first_failure() {
    let first = ApiError::Transport { timestamp: None };
    let second = ApiError::RateLimit { status: 429, timestamp: None };
    let items = vec![
        Ok(stream_post(1)),
        Err(first.clone()),
        Ok(stream_post(2)),
        Err(second),
    ];
    let (records, failure) = split_terminal(items);
    assert_eq!(records, vec![stream_post(1)]);
    assert_eq!(failure, Some(first));
    let (records, failure) = split_terminal(vec![]);
    assert!(records.is_empty());
    assert_eq!(failure, None);
}

#[test]
fn failure_knows_its_cursor_and_kind() {
    let limited = ApiError::RateLimit { status: 429, timestamp: Some("5".to_string()) };
    assert!(limited.is_rate_limit());
    assert_eq!(limited.last_cursor(), &Some("5".to_string()));
    assert_eq!(limited.message(), "received rate limit response");
    let transport = ApiError::Transport { timestamp: None };
    assert!(!transport.is_rate_limit());
    assert_eq!(transport.last_cursor(), &None);
    assert_eq!(transport.message(), "request could not be completed");
    let parse = ApiError::Parse { failure: ParseFailure::Malformed, timestamp: None };
    assert!(!parse.is_rate_limit());
    assert_eq!(parse.message(), "response body could not be parsed");
    let missing = ApiError::Parse {
        failure: ParseFailure::MissingPayload,
        timestamp: Some("1".to_string()),
    };
    assert_eq!(missing.message(), "no likes were returned with the response");
    assert_eq!(missing.last_cursor(), &Some("1".to_string()));
}
