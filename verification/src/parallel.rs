//! Work on the items of a vector, spread over rayon's pool of threads.

use rayon::iter::{IntoParallelRefIterator, ParallelIterator};
use vstd::prelude::*;

verus! {

/// `par_iter`, `map` and `collect` of rayon: `f` is applied to every item of
/// the vector, on whichever thread of the pool takes the item, and the results
/// stand in the order of the items.
#[verifier::external_body]
pub(crate) fn par_map<T: Sync, U: Send, F: Fn(&T) -> U + Sync + Send>(
    items: &Vec<T>,
    f: F,
) -> (results: Vec<U>)
    requires
        forall|i: int| 0 <= i < items@.len() ==> call_requires(f, (&#[trigger] items@[i],)),
    ensures
        results@.len() == items@.len(),
        forall|i: int|
            0 <= i < items@.len() ==> call_ensures(f, (&items@[i],), #[trigger] results@[i]),
{
    items.par_iter().map(f).collect()
}

} // verus!
