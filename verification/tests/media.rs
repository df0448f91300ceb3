use tumblr_sync::media::{
    destination, destination_from, last_segment, media_file_name, media_references, year,
    Destination, MediaReference,
};
use tumblr_sync::tumblr::{Blog, Content, MediaObject, Post};

fn media_variant(url: &str) -> MediaObject {
    MediaObject {
        media_key: None,
        url: url.to_string(),
        ty: Some("image/jpeg".to_string()),
        width: Some(640),
        height: Some(480),
        original_dimensions_missing: None,
        cropped: None,
        has_original_dimensions: None,
    }
}

fn media_image(urls: &[&str]) -> Content {
    Content::Image {
        media: urls.iter().map(|url| media_variant(url)).collect(),
        feedback_token: None,
        poster: None,
        alt_text: None,
        caption: None,
    }
}

fn media_text(text: &str) -> Content {
    Content::Text { text: text.to_string(), subtype: None, indent_level: None, formatting: None }
}

fn media_post(blog: &str, date: &str, content: Vec<Content>) -> Post {
    Post::Blocks {
        is_blocks_post_format: true,
        blog_name: blog.to_string(),
        blog: Blog {
            name: blog.to_string(),
            title: None,
            url: format!("https://{}.tumblr.com/", blog),
            description: None,
            uuid: "t:1".to_string(),
            updated: None,
            can_show_badges: None,
        },
        id: 1,
        id_string: "1".to_string(),
        is_blazed: false,
        is_blaze_pending: false,
        post_url: format!("https://{}.tumblr.com/post/1", blog),
        slug: String::new(),
        date: date.to_string(),
        timestamp: 0,
        state: "published".to_string(),
        reblog_key: "k".to_string(),
        tags: vec![],
        short_url: "https://tmblr.co/x".to_string(),
        summary: String::new(),
        should_open_in_legacy: false,
        note_count: 0,
        content,
        liked_timestamp: 0,
        can_like: true,
        interactability_reblog: "everyone".to_string(),
        interactability_blaze: "everyone".to_string(),
        can_reblog: true,
        can_send_in_message: true,
        can_reply: true,
        display_avatar: true,
    }
}

fn media_ref(blog: &str, date: &str, url: &str) -> MediaReference {
    MediaReference { blog_name: blog.to_string(), date: date.to_string(), url: url.to_string() }
}

#[test]
fn each_image_block_gives_its_first_variant() {
    let posts = vec![
        media_post(
            "alpha",
            "2023-01-01 00:00:00 GMT",
            vec![
                media_text("intro"),
                media_image(&["https://m.example/a/big.jpg", "https://m.example/a/small.jpg"]),
                media_image(&["https://m.example/b.png"]),
            ],
        ),
        media_post("beta", "2020-02-02 00:00:00 GMT", vec![media_text("no images")]),
        media_post(
            "gamma",
            "2019-03-03 00:00:00 GMT",
            vec![media_image(&["https://m.example/c.gif"]), media_text("end")],
        ),
    ];
    assert_eq!(
        media_references(&posts),
        Some(vec![
            media_ref("alpha", "2023-01-01 00:00:00 GMT", "https://m.example/a/big.jpg"),
            media_ref("alpha", "2023-01-01 00:00:00 GMT", "https://m.example/b.png"),
            media_ref("gamma", "2019-03-03 00:00:00 GMT", "https://m.example/c.gif"),
        ])
    );
}

#[test]
fn other_blocks_give_no_reference() {
    let video = Content::Video {
        url: Some("https://v.example/v.mp4".to_string()),
        media: Some(media_variant("https://v.example/v.mp4")),
        provider: None,
        embed_html: None,
        embed_url: None,
    };
    let audio = Content::Audio {
        url: None,
        media: Some(media_variant("https://a.example/a.mp3")),
        provider: None,
        title: None,
        artist: None,
        album: None,
        embed_html: None,
        embed_url: None,
    };
    let link = Content::Link {
        url: Some("https://example.com/x.jpg".to_string()),
        title: None,
        description: None,
        author: None,
        site_name: None,
        display_url: None,
    };
    let posts = vec![media_post("b", "2023-01-01", vec![video, audio, link])];
    assert_eq!(media_references(&posts), Some(vec![]));
    assert_eq!(media_references(&vec![]), Some(vec![]));
}

#[test]
fn image_without_any_variant_gives_no_list() {
    let posts = vec![
        media_post("a", "2023-01-01", vec![media_image(&["https://m.example/a.jpg"])]),
        media_post("b", "2023-01-01", vec![media_text("t"), media_image(&[])]),
        media_post("c", "2023-01-01", vec![media_image(&["https://m.example/c.jpg"])]),
    ];
    assert_eq!(media_references(&posts), None);
}

#[test]
fn file_name_is_the_last_path_segment() {
    assert_eq!(
        media_file_name("https://64.media.tumblr.com/abc/def/s640x960/photo.jpg"),
        Some("photo.jpg".to_string())
    );
    assert_eq!(
        media_file_name("https://example.com/a/b.png?size=large#top"),
        Some("b.png".to_string())
    );
    assert_eq!(media_file_name("https://example.com"), Some(String::new()));
    assert_eq!(media_file_name("https://example.com/dir/"), Some(String::new()));
    assert_eq!(
        media_file_name("https://example.com/a b.jpg"),
        Some("a%20b.jpg".to_string())
    );
}

#[test]
fn text_without_path_segments_has_no_file_name() {
    assert_eq!(media_file_name("not a url"), None);
    assert_eq!(media_file_name(""), None);
    assert_eq!(media_file_name("data:text/plain,HelloWorld"), None);
    assert_eq!(media_file_name("mailto:someone@example.com"), None);
}

#[test]
fn last_segment_of_given_segments() {
    assert_eq!(
        last_segment(Some(vec!["a".to_string(), "b".to_string(), "c.jpg".to_string()])),
        Some("c.jpg".to_string())
    );
    assert_eq!(last_segment(Some(vec!["only".to_string()])), Some("only".to_string()));
    assert_eq!(last_segment(Some(vec![])), None);
    assert_eq!(last_segment(None), None);
}

#[test]
fn year_is_the_first_four_bytes() {
    assert_eq!(year("2023-05-01 12:00:00 GMT"), Some("2023"));
    assert_eq!(year("1999"), Some("1999"));
    assert_eq!(year("abcdef"), Some("abcd"));
    assert_eq!(year("é2023"), Some("é20"));
    assert_eq!(year("20é3"), Some("20é"));
}

#[test]
fn short_or_split_date_has_no_year() {
    assert_eq!(year(""), None);
    assert_eq!(year("202"), None);
    assert_eq!(year("202é"), None);
    assert_eq!(year("abc€"), None);
}

#[test]
fn destination_is_put_together_from_its_parts() {
    assert_eq!(
        destination_from("2023", "staff", "photo.jpg"),
        Destination {
            dir: "images/2023/staff".to_string(),
            file: "images/2023/staff/photo.jpg".to_string(),
        }
    );
    assert_eq!(
        destination_from("", "", ""),
        Destination { dir: "images//".to_string(), file: "images///".to_string() }
    );
}

#[test]
fn destination_of_a_reference() {
    let reference = media_ref(
        "my-blog",
        "2021-07-04 09:30:00 GMT",
        "https://64.media.tumblr.com/tumblr_abc/s1280x1920/cat.png",
    );
    assert_eq!(
        destination(&reference),
        Some(Destination {
            dir: "images/2021/my-blog".to_string(),
            file: "images/2021/my-blog/cat.png".to_string(),
        })
    );
}

#[test]
fn reference_without_year_or_file_name_has_no_destination() {
    assert_eq!(destination(&media_ref("b", "21", "https://example.com/a.jpg")), None);
    assert_eq!(destination(&media_ref("b", "2021-01-01", "nothing")), None);
}

#[test]
fn same_file_name_in_the_same_year_and_blog_shares_a_destination() {
    let first = media_ref("b", "2021-01-01", "https://one.example/x/pic.jpg");
    let second = media_ref("b", "2021-12-31", "https://two.example/y/pic.jpg");
    assert_eq!(destination(&first), destination(&second));
}
