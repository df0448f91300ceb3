//! Small helpers on strings and lists that the rest of the library shares.

use vstd::prelude::*;

verus! {

/// Trusted: `str`'s `==` from the standard library. The contract says that
/// two string slices compare equal exactly when they hold the same
/// characters.
#[verifier::external_body]
pub(crate) fn str_eq(a: &str, b: &str) -> (same: bool)
    ensures
        same == (a@ == b@),
{
    a == b
}

/// Turns a list round: the last item comes first.
pub fn reversed<T>(items: Vec<T>) -> (turned: Vec<T>)
    ensures
        turned@ == items@.reverse(),
{
    let ghost whole = items@;
    let mut items = items;
    let mut turned: Vec<T> = Vec::new();
    while items.len() > 0
        invariant
            items@.len() <= whole.len(),
            items@ == whole.take(items@.len() as int),
            turned@.len() == whole.len() - items@.len(),
            forall|i: int|
                0 <= i < turned@.len() ==> #[trigger] turned@[i] == whole[whole.len() - 1 - i],
        decreases items@.len(),
    {
        let item = items.pop().unwrap();
        turned.push(item);
    }
    turned
}

} // verus!
