use tumblr_sync::fetch::{Body, PageReply};
use tumblr_sync::merge::{merge, merge_fetched};
use tumblr_sync::stream::replay;
use tumblr_sync::tumblr::{
    ApiError, Blog, Content, Liked, Meta, Pagination, PaginationResult, Post, QueryParams,
    TumblrResponse,
};

fn merge_post(name: &str) -> Post {
    Post::Blocks {
        is_blocks_post_format: true,
        blog_name: name.to_string(),
        blog: Blog {
            name: name.to_string(),
            title: None,
            url: format!("https://{}.tumblr.com/", name),
            description: None,
            uuid: format!("t:{}", name),
            updated: None,
            can_show_badges: None,
        },
        id: name.len(),
        id_string: name.len().to_string(),
        is_blazed: false,
        is_blaze_pending: false,
        post_url: format!("https://{}.tumblr.com/post/1", name),
        slug: String::new(),
        date: "2021-11-12 10:00:00 GMT".to_string(),
        timestamp: 1636711200,
        state: "published".to_string(),
        reblog_key: "k".to_string(),
        tags: vec![],
        short_url: "https://tmblr.co/x".to_string(),
        summary: name.to_string(),
        should_open_in_legacy: false,
        note_count: 0,
        content: vec![Content::Link {
            url: Some("https://example.com/".to_string()),
            title: None,
            description: None,
            author: None,
            site_name: None,
            display_url: None,
        }],
        liked_timestamp: 1636711300,
        can_like: true,
        interactability_reblog: "everyone".to_string(),
        interactability_blaze: "everyone".to_string(),
        can_reblog: true,
        can_send_in_message: true,
        can_reply: true,
        display_avatar: true,
    }
}

fn merge_page(names: &[&str], next: Option<&str>) -> PageReply {
    let link = next.map(|cursor| PaginationResult {
        href: "/v2/blog/x/likes".to_string(),
        method: "GET".to_string(),
        query_params: QueryParams { npf: None, before: Some(cursor.to_string()), after: None },
    });
    PageReply::Answer {
        status: 200,
        body: Body::Envelope(TumblrResponse {
            meta: Meta { status: 200, msg: "OK".to_string() },
            response: Some(Liked {
                liked_posts: names.iter().map(|name| merge_post(name)).collect(),
                liked_count: names.len(),
                pagination: Pagination { next: link, prev: None },
            }),
        }),
    }
}

#[test]
fn merging_nothing_leaves_the_set_as_it_was() {
    let previous = vec![merge_post("old1"), merge_post("old2")];
    assert_eq!(merge(previous.clone(), vec![]), previous);
    assert_eq!(merge(vec![], vec![]), vec![]);
    let (combined, failure) = merge_fetched(previous.clone(), vec![]);
    assert_eq!(combined, previous);
    assert_eq!(failure, None);
}

#[test]
fn new_records_follow_the_previous_ones() {
    let combined =
        merge(vec![merge_post("a"), merge_post("b")], vec![merge_post("c"), merge_post("a")]);
    assert_eq!(
        combined,
        vec![merge_post("a"), merge_post("b"), merge_post("c"), merge_post("a")]
    );
    assert_eq!(merge(vec![], vec![merge_post("z")]), vec![merge_post("z")]);
}

#[test]
fn two_old_and_three_new_records_over_two_pages() {
    let previous = vec![merge_post("old1"), merge_post("old2")];
    let fetched = replay(
        None,
        vec![merge_page(&["new1", "new2"], Some("100")), merge_page(&["new3"], None)],
    );
    let (combined, failure) = merge_fetched(previous, fetched);
    assert_eq!(failure, None);
    assert_eq!(combined.len(), 5);
    assert_eq!(
        combined,
        vec![
            merge_post("old1"),
            merge_post("old2"),
            merge_post("new1"),
            merge_post("new2"),
            merge_post("new3"),
        ]
    );
}

#[test]
fn failed_run_keeps_what_it_fetched() {
    let previous = vec![merge_post("old1")];
    let fetched = replay(
        Some("300".to_string()),
        vec![
            merge_page(&["new1"], Some("200")),
            PageReply::Answer { status: 429, body: Body::Malformed },
        ],
    );
    let (combined, failure) = merge_fetched(previous, fetched);
    assert_eq!(combined, vec![merge_post("old1"), merge_post("new1")]);
    assert_eq!(
        failure,
        Some(ApiError::RateLimit { status: 429, timestamp: Some("200".to_string()) })
    );
}
