//! Joining freshly fetched records to the persisted set.
//!
//! New records are appended in the order in which they were fetched.
//! Nothing is filtered out: a record that is fetched twice is kept twice.

use crate::stream::{first_failure, ok_prefix, split_terminal, Item};
use crate::tumblr::{ApiError, Post};
use vstd::prelude::*;

verus! {

/// The persisted set after `new_records` have been joined to it.
pub open spec fn merged(previous: Seq<Post>, new_records: Seq<Post>) -> Seq<Post> {
    previous + new_records
}

/// Appends `new_records` to `previous`, keeping both orders.
pub fn merge(previous: Vec<Post>, new_records: Vec<Post>) -> (combined: Vec<Post>)
    ensures
        combined@ == merged(previous@, new_records@),
{
    let mut combined = previous;
    let mut new_records = new_records;
    combined.append(&mut new_records);
    combined
}

/// Joins what a stream handed out to the persisted set: the records that
/// came before any failure are appended, and the failure that ended the
/// stream, if there was one, is given back beside the set. The set is to
/// be written in either case, so that a failed run keeps what it fetched.
pub fn merge_fetched(previous: Vec<Post>, fetched: Vec<Item>) -> (result: (
    Vec<Post>,
    Option<ApiError>,
))
    ensures
        result.0@ == merged(previous@, ok_prefix(fetched@)),
        result.1 == first_failure(fetched@),
{
    let (records, failure) = split_terminal(fetched);
    (merge(previous, records), failure)
}

/// Joining no records leaves the persisted set as it was.
pub proof fn merge_nothing_is_identity(previous: Seq<Post>)
    ensures
        merged(previous, Seq::<Post>::empty()) == previous,
{
}

/// Joining two batches one after the other gives what joining them at
/// once gives.
pub proof fn merge_in_steps(previous: Seq<Post>, first: Seq<Post>, second: Seq<Post>)
    ensures
        merged(merged(previous, first), second) == merged(previous, first + second),
{
}

/// The joined set keeps the previous records at the head, in their order,
/// and the new records behind them, in theirs.
pub proof fn merge_keeps_order(previous: Seq<Post>, new_records: Seq<Post>)
    ensures
        merged(previous, new_records).len() == previous.len() + new_records.len(),
        forall|i: int|
            0 <= i < previous.len() ==> #[trigger] merged(previous, new_records)[i] == previous[i],
        forall|j: int|
            0 <= j < new_records.len() ==> #[trigger] merged(previous, new_records)[previous.len()
                + j] == new_records[j],
{
}

} // verus!
