//! The media that posts refer to, and where each asset is stored.
//!
//! An asset is stored under `images/<year>/<blog>/<file name>`. The year is
//! the first four bytes of the post's date; the file name is the last path
//! segment of the asset's URL.

use crate::tumblr::{Content, Post};
use vstd::prelude::*;
use vstd::string::StringExecFns;
use vstd::utf8::{decode_utf8, encode_utf8, is_char_boundary};

verus! {

/// A downloadable asset of a post: the blog and the date of the post, and
/// the asset's URL.
#[derive(Debug, Clone, PartialEq, Eq)]
pub struct MediaReference {
    pub blog_name: String,
    pub date: String,
    pub url: String,
}

/// Where an asset is stored: the directory, and the file in it.
#[derive(Debug, Clone, PartialEq, Eq)]
pub struct Destination {
    pub dir: String,
    pub file: String,
}

/// The reference that one content block gives: an image block gives its
/// first media variant, any other block gives nothing. `None` stands for
/// an image block without any variant.
pub open spec fn block_reference(blog_name: String, date: String, block: Content) -> Option<
    Seq<MediaReference>,
> {
    match block {
        Content::Image { media, .. } => if media@.len() > 0 {
            Some(seq![MediaReference { blog_name, date, url: media@[0].url }])
        } else {
            None
        },
        _ => Some(Seq::empty()),
    }
}

/// The references of a post's blocks, in the blocks' order, or `None`
/// where one of the blocks is an image without any variant.
pub open spec fn block_references(blog_name: String, date: String, blocks: Seq<Content>) -> Option<
    Seq<MediaReference>,
>
    decreases blocks.len(),
{
    if blocks.len() == 0 {
        Some(Seq::empty())
    } else {
        match (
            block_references(blog_name, date, blocks.drop_last()),
            block_reference(blog_name, date, blocks.last()),
        ) {
            (Some(before), Some(here)) => Some(before + here),
            _ => None,
        }
    }
}

/// The references of one post.
pub open spec fn post_references(post: Post) -> Option<Seq<MediaReference>> {
    match post {
        Post::Blocks { blog_name, date, content, .. } => block_references(
            blog_name,
            date,
            content@,
        ),
    }
}

/// The references of a list of posts, post after post, or `None` where
/// one of the posts holds an image without any variant.
pub open spec fn references_of(posts: Seq<Post>) -> Option<Seq<MediaReference>>
    decreases posts.len(),
{
    if posts.len() == 0 {
        Some(Seq::empty())
    } else {
        match (references_of(posts.drop_last()), post_references(posts.last())) {
            (Some(before), Some(here)) => Some(before + here),
            _ => None,
        }
    }
}

/// Lists the assets that the posts refer to: for each post, in order, one
/// reference per image block, to the block's first media variant. Gives
/// `None` exactly where some image block has no variant at all.
pub fn media_references(posts: &Vec<Post>) -> (references: Option<Vec<MediaReference>>)
    ensures
        match references {
            Some(list) => references_of(posts@) == Some(list@),
            None => references_of(posts@) is None,
        },
{
    let mut list: Vec<MediaReference> = Vec::new();
    let mut p: usize = 0;
    while p < posts.len()
        invariant
            p <= posts@.len(),
            references_of(posts@.take(p as int)) == Some(list@),
        decreases posts@.len() - p,
    {
        let ghost before_post = list@;
        assert(posts@.take(p as int + 1).drop_last() =~= posts@.take(p as int));
        match &posts[p] {
            Post::Blocks { blog_name, date, content, .. } => {
                let mut b: usize = 0;
                let ghost here = Seq::<MediaReference>::empty();
                while b < content.len()
                    invariant
                        b <= content@.len(),
                        p < posts@.len(),
                        posts@[p as int] matches Post::Blocks {
                            blog_name: n,
                            date: d,
                            content: c,
                            ..
                        } && n == *blog_name && d == *date && c == *content,
                        references_of(posts@.take(p as int)) == Some(before_post),
                        block_references(*blog_name, *date, content@.take(b as int)) == Some(here),
                        list@ == before_post + here,
                    decreases content@.len() - b,
                {
                    assert(content@.take(b as int + 1).drop_last() =~= content@.take(b as int));
                    match &content[b] {
                        Content::Image { media, .. } => {
                            if media.len() == 0 {
                                proof {
                                    block_gap_persists(
                                        *blog_name,
                                        *date,
                                        content@,
                                        b as int + 1,
                                    );
                                    post_gap_persists(posts@, p as int + 1);
                                }
                                return None;
                            }
                            let reference = MediaReference {
                                blog_name: blog_name.clone(),
                                date: date.clone(),
                                url: media[0].url.clone(),
                            };
                            list.push(reference);
                            proof {
                                here = here.push(reference);
                            }
                        },
                        _ => {},
                    }
                    b += 1;
                }
                assert(content@.take(b as int) =~= content@);
            },
        }
        p += 1;
    }
    assert(posts@.take(p as int) =~= posts@);
    Some(list)
}

/// Once a block without any variant is met, the post has no list of
/// references, however many blocks follow.
proof fn block_gap_persists(blog_name: String, date: String, blocks: Seq<Content>, n: int)
    requires
        0 <= n <= blocks.len(),
        block_references(blog_name, date, blocks.take(n)) is None,
    ensures
        block_references(blog_name, date, blocks) is None,
    decreases blocks.len() - n,
{
    if n < blocks.len() {
        assert(blocks.take(n + 1).drop_last() =~= blocks.take(n));
        block_gap_persists(blog_name, date, blocks, n + 1);
    } else {
        assert(blocks.take(n) =~= blocks);
    }
}

/// Once a post without a list of references is met, the posts have none,
/// however many posts follow.
proof fn post_gap_persists(posts: Seq<Post>, n: int)
    requires
        0 <= n <= posts.len(),
        references_of(posts.take(n)) is None,
    ensures
        references_of(posts) is None,
    decreases posts.len() - n,
{
    if n < posts.len() {
        assert(posts.take(n + 1).drop_last() =~= posts.take(n));
        post_gap_persists(posts, n + 1);
    } else {
        assert(posts.take(n) =~= posts);
    }
}

/// The path segments of a URL, as the `url` crate reads them: the parts
/// of the path between slashes, each in its percent-encoded form. `None`
/// stands for a text that is no URL, or a URL that cannot have a path of
/// segments.
pub uninterp spec fn path_segments_of(url: Seq<char>) -> Option<Seq<Seq<char>>>;

/// The texts of a list of strings.
pub open spec fn texts(strings: Seq<String>) -> Seq<Seq<char>> {
    strings.map_values(|s: String| s@)
}

/// The texts of an optional list of strings.
pub open spec fn optional_texts(strings: Option<Vec<String>>) -> Option<Seq<Seq<char>>> {
    match strings {
        Some(list) => Some(texts(list@)),
        None => None,
    }
}

/// Trusted: `url::Url::parse` followed by `Url::path_segments`. The text
/// is parsed as a URL and its path is handed out segment by segment. The
/// contract only names the result: it is a function of the text alone.
/// A text that does not parse, or a URL that cannot be a base, gives
/// `None`.
#[verifier::external_body]
fn url_path_segments(url: &str) -> (segments: Option<Vec<String>>)
    ensures
        optional_texts(segments) == path_segments_of(url@),
{
    match url::Url::parse(url) {
        Ok(parsed) => parsed.path_segments().map(|parts| parts.map(|part| part.to_string()).collect()),
        Err(_) => None,
    }
}

/// The file name that path segments give: the last of them.
pub open spec fn file_name_of(segments: Option<Seq<Seq<char>>>) -> Option<Seq<char>> {
    match segments {
        Some(parts) => if parts.len() > 0 {
            Some(parts.last())
        } else {
            None
        },
        None => None,
    }
}

/// Picks the file name out of a URL's path segments: the last segment.
/// Without segments there is no file name.
pub fn last_segment(segments: Option<Vec<String>>) -> (name: Option<String>)
    ensures
        match name {
            Some(text) => file_name_of(optional_texts(segments)) == Some(text@),
            None => file_name_of(optional_texts(segments)) is None,
        },
{
    match segments {
        Some(parts) => {
            let mut parts = parts;
            parts.pop()
        },
        None => None,
    }
}

/// The name under which the asset at `url` is stored: the last path
/// segment of the URL. Gives `None` exactly where the URL has no path
/// segments.
pub fn media_file_name(url: &str) -> (name: Option<String>)
    ensures
        match name {
            Some(text) => file_name_of(path_segments_of(url@)) == Some(text@),
            None => file_name_of(path_segments_of(url@)) is None,
        },
{
    last_segment(url_path_segments(url))
}

/// Whether a date is long enough to hold a year: its first four bytes end
/// on a character boundary.
pub open spec fn has_year(date: Seq<char>) -> bool {
    is_char_boundary(encode_utf8(date), 4)
}

/// The year of a date: the text of its first four bytes.
pub open spec fn year_of(date: Seq<char>) -> Seq<char> {
    decode_utf8(encode_utf8(date).subrange(0, 4))
}

/// Cuts the year off the front of a date: its first four bytes. Gives
/// `None` exactly where the date is shorter, or where those bytes end
/// inside a character.
pub fn year(date: &str) -> (year: Option<&str>)
    ensures
        match year {
            Some(text) => has_year(date@) && text@ == year_of(date@),
            None => !has_year(date@),
        },
{
    if date.is_char_boundary(4) {
        let (head, _) = date.split_at(4);
        proof {
            vstd::utf8::encode_utf8_decode_utf8(head@);
        }
        Some(head)
    } else {
        None
    }
}

/// The bytes of a text begin with the bytes of any of its heads, and the
/// head's bytes end on a character boundary.
pub proof fn head_bytes(head: Seq<char>, tail: Seq<char>)
    ensures
        encode_utf8(head + tail) == encode_utf8(head) + encode_utf8(tail),
        is_char_boundary(encode_utf8(head + tail), encode_utf8(head).len() as int),
    decreases head.len(),
{
    let whole = head + tail;
    vstd::utf8::encode_utf8_valid_utf8(whole);
    if head.len() > 0 {
        head_bytes(head.drop_first(), tail);
        assert(whole.drop_first() =~= head.drop_first() + tail);
        vstd::utf8::encode_utf8_first_scalar(whole);
        assert(vstd::utf8::pop_first_scalar(encode_utf8(whole)) =~= encode_utf8(
            whole.drop_first(),
        ));
    }
}

/// A date that begins with four plain characters has these as its year.
///
/// Where the first four characters of a date are ASCII, as the digits of
/// a year are, the date holds a year, and the year is those characters.
pub proof fn year_of_plain_date(date: Seq<char>)
    requires
        date.len() >= 4,
        forall|i: int| 0 <= i < 4 ==> '\0' <= #[trigger] date[i] <= '\u{7f}',
    ensures
        has_year(date),
        year_of(date) == date.subrange(0, 4),
{
    let head = date.subrange(0, 4);
    let tail = date.subrange(4, date.len() as int);
    assert(date =~= head + tail);
    vstd::utf8::is_ascii_chars_encode_utf8(head);
    head_bytes(head, tail);
    assert(encode_utf8(date).subrange(0, 4) =~= encode_utf8(head));
    vstd::utf8::encode_utf8_decode_utf8(head);
}

/// The directory of a blog's assets of one year.
pub open spec fn directory_path(year: Seq<char>, blog_name: Seq<char>) -> Seq<char> {
    "images/"@ + year + "/"@ + blog_name
}

/// The path of one asset.
pub open spec fn file_path(year: Seq<char>, blog_name: Seq<char>, file_name: Seq<char>) -> Seq<
    char,
> {
    directory_path(year, blog_name) + "/"@ + file_name
}

/// Puts a destination together from its parts: the directory
/// `images/<year>/<blog>`, and in it the file `<file name>`.
pub fn destination_from(year: &str, blog_name: &str, file_name: &str) -> (place: Destination)
    ensures
        place.dir@ == directory_path(year@, blog_name@),
        place.file@ == file_path(year@, blog_name@, file_name@),
{
    let mut dir = "images/".to_owned();
    dir.append(year);
    dir.append("/");
    dir.append(blog_name);
    let mut file = dir.clone();
    file.append("/");
    file.append(file_name);
    Destination { dir, file }
}

/// The destination of a reference, where it has one.
pub open spec fn destination_of(reference: MediaReference) -> Option<(Seq<char>, Seq<char>)> {
    match file_name_of(path_segments_of(reference.url@)) {
        Some(name) => if has_year(reference.date@) {
            Some(
                (
                    directory_path(year_of(reference.date@), reference.blog_name@),
                    file_path(year_of(reference.date@), reference.blog_name@, name),
                ),
            )
        } else {
            None
        },
        None => None,
    }
}

/// Where the asset of a reference is stored. Gives `None` exactly where
/// the date holds no year or the URL no file name.
pub fn destination(reference: &MediaReference) -> (place: Option<Destination>)
    ensures
        match place {
            Some(found) => destination_of(*reference) == Some((found.dir@, found.file@)),
            None => destination_of(*reference) is None,
        },
{
    match media_file_name(reference.url.as_str()) {
        Some(name) => match year(reference.date.as_str()) {
            Some(head) => Some(
                destination_from(head, reference.blog_name.as_str(), name.as_str()),
            ),
            None => None,
        },
        None => None,
    }
}

} // verus!
