//! The listing as a lazy sequence of records.
//!
//! A `LikesStream` is pulled item by item. It asks for a page only when the
//! records of the page before are all handed out, so pages are fetched
//! strictly one after the other, and a consumer that stops pulling causes
//! no further request. The first failure is handed out once, after the
//! records that came before it, and ends the sequence.

use crate::fetch::{
    classify,
    failure_of,
    likes_query,
    likes_url,
    outcome_of,
    page_request,
    query_text,
    status_is_success,
    Cursor,
    FetchOutcome,
    PageReply,
    PageRequest,
};
use crate::text::reversed;
use crate::tumblr::{ApiError, Post};
use vstd::prelude::*;

verus! {

/// One item of the sequence: a record, or the failure that ended it.
pub type Item = Result<Post, ApiError>;

/// What a pull on the stream gives.
#[derive(Debug, Clone, PartialEq, Eq)]
pub enum Pull {
    /// The next record.
    Record(Post),
    /// The failure that ends the sequence. It is handed out once.
    Failure(ApiError),
    /// Nothing is at hand: the next page has to be fetched and supplied.
    Fetch,
    /// The sequence is over.
    End,
}

/// The abstract state of a stream.
pub struct StreamState {
    /// The cursor that the next request is made with.
    pub cursor: Option<Cursor>,
    /// The records at hand, in the order in which they are handed out.
    pub pending: Seq<Post>,
    /// The failure that waits to be handed out.
    pub failure: Option<ApiError>,
    /// Whether no further request will be made.
    pub exhausted: bool,
}

impl StreamState {
    /// Whether the stream has nothing at hand and needs a page to go on.
    pub open spec fn wants_page(self) -> bool {
        self.pending.len() == 0 && self.failure is None && !self.exhausted
    }

    /// The state after a reply to the pending request has been taken in.
    /// A page puts its records at hand and moves the cursor on; without a
    /// following cursor the listing is exhausted. A failure keeps the
    /// cursor of the failed request.
    pub open spec fn supplied(self, reply: PageReply) -> StreamState {
        match outcome_of(self.cursor, reply) {
            FetchOutcome::Page { records, next } => StreamState {
                cursor: next,
                pending: records@,
                failure: None,
                exhausted: next is None,
            },
            failed => StreamState {
                cursor: self.cursor,
                pending: self.pending,
                failure: failure_of(self.cursor, failed),
                exhausted: self.exhausted,
            },
        }
    }

    /// What a pull hands out in this state.
    pub open spec fn pulled(self) -> Pull {
        if self.pending.len() > 0 {
            Pull::Record(self.pending[0])
        } else if let Some(failure) = self.failure {
            Pull::Failure(failure)
        } else if self.exhausted {
            Pull::End
        } else {
            Pull::Fetch
        }
    }

    /// The state that a pull leaves behind.
    pub open spec fn after_pull(self) -> StreamState {
        if self.pending.len() > 0 {
            StreamState { pending: self.pending.drop_first(), ..self }
        } else if self.failure is Some {
            StreamState { failure: None, exhausted: true, ..self }
        } else {
            self
        }
    }
}

/// A pull-driven listing of liked posts.
pub struct LikesStream {
    cursor: Option<Cursor>,
    /// The records at hand, the next one last.
    waiting: Vec<Post>,
    failure: Option<ApiError>,
    exhausted: bool,
}

impl View for LikesStream {
    type V = StreamState;

    closed spec fn view(&self) -> StreamState {
        StreamState {
            cursor: self.cursor,
            pending: self.waiting@.reverse(),
            failure: self.failure,
            exhausted: self.exhausted,
        }
    }
}

impl LikesStream {
    /// A stream that starts at `before`, or at the newest record where no
    /// cursor is given.
    pub fn new(before: Option<Cursor>) -> (stream: LikesStream)
        ensures
            stream@ == (StreamState {
                cursor: before,
                pending: Seq::<Post>::empty(),
                failure: None,
                exhausted: false,
            }),
    {
        let stream = LikesStream {
            cursor: before,
            waiting: Vec::new(),
            failure: None,
            exhausted: false,
        };
        stream
    }

    /// Whether the next pull will ask for a page.
    pub fn wants_page(&self) -> (wanted: bool)
        ensures
            wanted == self@.wants_page(),
    {
        self.waiting.len() == 0 && self.failure.is_none() && !self.exhausted
    }

    /// The cursor that the next request is made with.
    pub fn cursor(&self) -> (cursor: &Option<Cursor>)
        ensures
            *cursor == self@.cursor,
    {
        &self.cursor
    }

    /// The request for the page that the stream waits for.
    pub fn request(&self, user: &str, api_key: &str) -> (request: PageRequest)
        ensures
            request.url@ == likes_url(user@),
            query_text(request.query@) == likes_query(api_key@, self@.cursor),
    {
        page_request(user, api_key, &self.cursor)
    }

    /// Takes in the reply to the pending request. Where the stream waits
    /// for no page the reply is set aside, nothing changes and `false`
    /// comes back.
    pub fn supply(&mut self, reply: PageReply) -> (taken: bool)
        ensures
            taken == old(self)@.wants_page(),
            final(self)@ == if taken {
                old(self)@.supplied(reply)
            } else {
                old(self)@
            },
    {
        if !self.wants_page() {
            return false;
        }
        let cursor = self.cursor.clone();
        assert(cursor == self.cursor) by {
            match self.cursor {
                Some(token) => {},
                None => {},
            }
        }
        match classify(cursor, reply) {
            FetchOutcome::Page { records, next } => {
                self.exhausted = next.is_none();
                self.cursor = next;
                self.waiting = reversed(records);
                assert(self.waiting@.reverse() =~= records@);
            },
            FetchOutcome::RateLimited { status, last } => {
                self.failure = Some(ApiError::RateLimit { status, timestamp: last });
            },
            FetchOutcome::TransportError => {
                let timestamp = self.cursor.clone();
                self.failure = Some(ApiError::Transport { timestamp });
            },
            FetchOutcome::ParseError(failure) => {
                let timestamp = self.cursor.clone();
                self.failure = Some(ApiError::Parse { failure, timestamp });
            },
        }
        true
    }

    /// Hands out the next item. A record at hand comes first; then the
    /// failure, once; then the end. Where a page is needed, nothing
    /// changes and `Fetch` comes back.
    pub fn pull(&mut self) -> (item: Pull)
        ensures
            item == old(self)@.pulled(),
            final(self)@ == old(self)@.after_pull(),
    {
        let ghost before = self@;
        if self.waiting.len() > 0 {
            let record = self.waiting.pop().unwrap();
            assert(self.waiting@.reverse() =~= before.pending.drop_first());
            return Pull::Record(record);
        }
        match self.failure.take() {
            Some(failure) => {
                self.exhausted = true;
                Pull::Failure(failure)
            },
            None => {
                if self.exhausted {
                    Pull::End
                } else {
                    Pull::Fetch
                }
            },
        }
    }
}

/// The records of a page as items of the sequence.
pub open spec fn as_items(records: Seq<Post>) -> Seq<Item> {
    Seq::new(records.len(), |i: int| Ok::<Post, ApiError>(records[i]))
}

/// The whole sequence that a stream hands out when it starts at `cursor`
/// and the service answers its requests with `replies`, one after the
/// other. Each page gives its records in the service's order; a page
/// without a following cursor ends the sequence; the first failure is its
/// last item. Replies beyond the end are never asked for.
pub open spec fn items(cursor: Option<Cursor>, replies: Seq<PageReply>) -> Seq<Item>
    decreases replies.len(),
{
    if replies.len() == 0 {
        Seq::empty()
    } else {
        match outcome_of(cursor, replies[0]) {
            FetchOutcome::Page { records, next } => if next is None {
                as_items(records@)
            } else {
                as_items(records@) + items(next, replies.drop_first())
            },
            failed => seq![Err::<Post, ApiError>(failure_of(cursor, failed).unwrap())],
        }
    }
}

/// What a stream in `state` still hands out when `replies` answer its
/// further requests.
pub open spec fn remaining(state: StreamState, replies: Seq<PageReply>) -> Seq<Item> {
    as_items(state.pending) + if let Some(failure) = state.failure {
        seq![Err::<Post, ApiError>(failure)]
    } else if state.exhausted {
        Seq::<Item>::empty()
    } else {
        items(state.cursor, replies)
    }
}

/// Runs a stream from `before` against recorded replies and gathers all
/// that it hands out. The replies answer the stream's requests in turn;
/// the run ends with the sequence, or when a page is wanted and no reply
/// is left.
pub fn replay(before: Option<Cursor>, replies: Vec<PageReply>) -> (out: Vec<Item>)
    ensures
        out@ == items(before, replies@),
{
    let ghost all = replies@;
    let mut stream = LikesStream::new(before);
    let mut left = reversed(replies);
    let mut out: Vec<Item> = Vec::new();
    assert(left@.reverse() =~= all);
    loop
        invariant
            all == replies@,
            out@ + remaining(stream@, left@.reverse()) == items(before, all),
        decreases
            left@.len(),
            stream@.pending.len() + if stream@.failure is Some {
                1nat
            } else {
                0nat
            },
    {
        let ghost unread = left@.reverse();
        match stream.pull() {
            Pull::Record(record) => {
                out.push(Ok(record));
            },
            Pull::Failure(failure) => {
                out.push(Err(failure));
            },
            Pull::End => {
                return out;
            },
            Pull::Fetch => {
                match left.pop() {
                    Some(reply) => {
                        assert(left@.reverse() =~= unread.drop_first());
                        stream.supply(reply);
                    },
                    None => {
                        return out;
                    },
                }
            },
        }
    }
}

/// The records at the head of a sequence: all items before the first
/// failure.
pub open spec fn ok_prefix(items: Seq<Item>) -> Seq<Post>
    decreases items.len(),
{
    if items.len() == 0 {
        Seq::empty()
    } else {
        match items[0] {
            Ok(record) => seq![record] + ok_prefix(items.drop_first()),
            Err(_) => Seq::empty(),
        }
    }
}

/// The first failure of a sequence, if it holds one.
pub open spec fn first_failure(items: Seq<Item>) -> Option<ApiError>
    decreases items.len(),
{
    if items.len() == 0 {
        None
    } else {
        match items[0] {
            Ok(_) => first_failure(items.drop_first()),
            Err(failure) => Some(failure),
        }
    }
}

/// Parts a gathered sequence into the records that were fetched before
/// anything failed, in their order, and the failure that ended the
/// sequence, if one did.
pub fn split_terminal(items: Vec<Item>) -> (parts: (Vec<Post>, Option<ApiError>))
    ensures
        parts.0@ == ok_prefix(items@),
        parts.1 == first_failure(items@),
{
    let ghost all = items@;
    let mut left = reversed(items);
    let mut records: Vec<Post> = Vec::new();
    assert(left@.reverse() =~= all);
    loop
        invariant
            all == items@,
            records@ + ok_prefix(left@.reverse()) == ok_prefix(all),
            first_failure(left@.reverse()) == first_failure(all),
        decreases left@.len(),
    {
        let ghost unread = left@.reverse();
        match left.pop() {
            Some(Ok(record)) => {
                assert(left@.reverse() =~= unread.drop_first());
                records.push(record);
            },
            Some(Err(failure)) => {
                return (records, Some(failure));
            },
            None => {
                return (records, None);
            },
        }
    }
}

/// Whether a reply gives a page: a success status and an envelope with
/// its payload.
pub open spec fn is_page(reply: PageReply) -> bool {
    outcome_of(None, reply) is Page
}

/// The records of a reply that gives a page, in the service's order.
pub open spec fn page_records(reply: PageReply) -> Seq<Post> {
    outcome_of(None, reply)->records@
}

/// The cursor of the following page that a reply with a page names.
pub open spec fn page_next(reply: PageReply) -> Option<Cursor> {
    outcome_of(None, reply)->next
}

/// Whether a reply is a refusal: an answer whose status is no success.
pub open spec fn is_refusal(reply: PageReply) -> bool {
    reply matches PageReply::Answer { status, .. } && !status_is_success(status)
}

/// The records of a run of pages, one page after the other.
pub open spec fn all_records(pages: Seq<PageReply>) -> Seq<Post>
    decreases pages.len(),
{
    if pages.len() == 0 {
        Seq::empty()
    } else {
        page_records(pages[0]) + all_records(pages.drop_first())
    }
}

/// The cursor with which the request of index `k` is made, where the
/// replies before it are pages: the starting cursor for the first
/// request, and after that the cursor that the page before named.
pub open spec fn request_cursor(start: Option<Cursor>, replies: Seq<PageReply>, k: int) -> Option<
    Cursor,
> {
    if k == 0 {
        start
    } else {
        page_next(replies[k - 1])
    }
}

/// Items made of two runs of records are the items of the one run after
/// those of the other.
pub proof fn as_items_concat(first: Seq<Post>, second: Seq<Post>)
    ensures
        as_items(first + second) == as_items(first) + as_items(second),
{
    assert(as_items(first + second) =~= as_items(first) + as_items(second));
}

/// Records alone part into themselves and no failure; records followed by
/// a failure part into the records and that failure.
pub proof fn split_of_items(records: Seq<Post>, failure: ApiError)
    ensures
        ok_prefix(as_items(records)) == records,
        first_failure(as_items(records)) is None,
        ok_prefix(as_items(records).push(Err(failure))) == records,
        first_failure(as_items(records).push(Err(failure))) == Some(failure),
    decreases records.len(),
{
    let plain = as_items(records);
    let failed = plain.push(Err(failure));
    if records.len() == 0 {
        assert(failed.drop_first() =~= Seq::<Item>::empty());
        assert(ok_prefix(plain) =~= records);
        assert(ok_prefix(failed) =~= records);
    } else {
        let rest = records.drop_first();
        split_of_items(rest, failure);
        assert(plain.drop_first() =~= as_items(rest));
        assert(failed.drop_first() =~= as_items(rest).push(Err(failure)));
        assert(seq![records[0]] + rest =~= records);
    }
}

/// A listing that the service answers page by page is handed out whole.
///
/// Where every reply gives a page, every page but the last names a
/// following cursor and the last names none, a stream from any start, an
/// unset cursor among them, hands out the records of all pages, page after
/// page and each page in its own order, and ends without a failure.
pub proof fn complete_listing(start: Option<Cursor>, replies: Seq<PageReply>)
    requires
        replies.len() > 0,
        forall|i: int| 0 <= i < replies.len() ==> is_page(#[trigger] replies[i]),
        forall|i: int| 0 <= i < replies.len() - 1 ==> page_next(#[trigger] replies[i]) is Some,
        page_next(replies.last()) is None,
    ensures
        items(start, replies) == as_items(all_records(replies)),
        ok_prefix(items(start, replies)) == all_records(replies),
        first_failure(items(start, replies)) is None,
    decreases replies.len(),
{
    let first = replies[0];
    let rest = replies.drop_first();
    assert(is_page(first));
    assert(outcome_of(start, first) == outcome_of(None, first));
    if replies.len() == 1 {
        assert(all_records(rest) =~= Seq::<Post>::empty());
        assert(all_records(replies) =~= page_records(first));
    } else {
        assert(page_next(first) is Some);
        assert forall|i: int| 0 <= i < rest.len() implies is_page(#[trigger] rest[i]) by {
            assert(rest[i] == replies[i + 1]);
        }
        assert forall|i: int| 0 <= i < rest.len() - 1 implies page_next(
            #[trigger] rest[i],
        ) is Some by {
            assert(rest[i] == replies[i + 1]);
        }
        assert(rest.last() == replies.last());
        complete_listing(page_next(first), rest);
        as_items_concat(page_records(first), all_records(rest));
    }
    let failure = ApiError::Transport { timestamp: None };
    split_of_items(all_records(replies), failure);
}

/// A refusal ends the listing after the records that were fetched before
/// it, and reports the cursor of the refused request.
///
/// Where the replies before index `k` give pages that each name a
/// following cursor, and the reply of index `k` is a refusal, the stream
/// hands out the records of those pages in order and then one rate-limit
/// failure. The failure carries the refusing status and the cursor that
/// the request of index `k` was made with.
pub proof fn refusal_keeps_fetched_records(
    start: Option<Cursor>,
    replies: Seq<PageReply>,
    k: int,
)
    requires
        0 <= k < replies.len(),
        forall|i: int|
            0 <= i < k ==> is_page(#[trigger] replies[i]) && page_next(replies[i]) is Some,
        is_refusal(replies[k]),
    ensures
        items(start, replies) == as_items(all_records(replies.take(k))).push(
            Err(
                ApiError::RateLimit {
                    status: replies[k]->status,
                    timestamp: request_cursor(start, replies, k),
                },
            ),
        ),
        ok_prefix(items(start, replies)) == all_records(replies.take(k)),
        first_failure(items(start, replies)) == Some(
            ApiError::RateLimit {
                status: replies[k]->status,
                timestamp: request_cursor(start, replies, k),
            },
        ),
    decreases k,
{
    let failure = ApiError::RateLimit {
        status: replies[k]->status,
        timestamp: request_cursor(start, replies, k),
    };
    let first = replies[0];
    let rest = replies.drop_first();
    if k == 0 {
        assert(replies.take(0) =~= Seq::<PageReply>::empty());
        assert(items(start, replies) =~= as_items(all_records(replies.take(k))).push(
            Err(failure),
        ));
    } else {
        assert(is_page(first) && page_next(first) is Some);
        assert(outcome_of(start, first) == outcome_of(None, first));
        assert forall|i: int| 0 <= i < k - 1 implies is_page(#[trigger] rest[i]) && page_next(
            rest[i],
        ) is Some by {
            assert(rest[i] == replies[i + 1]);
        }
        assert(rest[k - 1] == replies[k]);
        refusal_keeps_fetched_records(page_next(first), rest, k - 1);
        assert(request_cursor(page_next(first), rest, k - 1) == request_cursor(
            start,
            replies,
            k,
        )) by {
            if k > 1 {
                assert(rest[k - 2] == replies[k - 1]);
            }
        }
        assert(replies.take(k).drop_first() =~= rest.take(k - 1));
        assert(replies.take(k)[0] == first);
        as_items_concat(page_records(first), all_records(rest.take(k - 1)));
        assert(items(start, replies) =~= as_items(all_records(replies.take(k))).push(
            Err(failure),
        ));
    }
    split_of_items(all_records(replies.take(k)), failure);
}

} // verus!
