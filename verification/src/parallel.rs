//! Item-by-item work spread over the worker threads of `rayon`.

use rayon::iter::{IntoParallelIterator, ParallelIterator};
use vstd::prelude::*;

verus! {

/// Calls `into_par_iter().map(f).collect()` of `rayon` on the vector. The
/// function is applied to every item once, on whichever thread takes it,
/// and collecting into a `Vec` keeps the items' order: the result at each
/// place is what the function made of the item at that place.
#[verifier::external_body]
pub(crate) fn par_map<T: Send, U: Send, F: Fn(T) -> U + Sync + Send>(items: Vec<T>, f: F) -> (out:
    Vec<U>)
    requires
        forall|i: int| 0 <= i < items@.len() ==> call_requires(f, (#[trigger] items@[i],)),
    ensures
        out@.len() == items@.len(),
        forall|i: int|
            0 <= i < items@.len() ==> call_ensures(f, (items@[i],), #[trigger] out@[i]),
{
    items.into_par_iter().map(f).collect()
}

} // verus!
