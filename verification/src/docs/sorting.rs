//! Names put in order.

use crate::docs::order::{comes_before, lemma_precedes_total, ordered, precedes};
use std::cmp::Ordering;
use vstd::prelude::*;

verus! {

/// How two names compare.
pub fn name_order(a: &str, b: &str) -> (r: Ordering)
    ensures
        r is Less <==> precedes(a@, b@),
        r is Greater <==> precedes(b@, a@),
{
    proof {
        lemma_precedes_total(a@, b@);
    }
    if comes_before(a, b) {
        Ordering::Less
    } else if comes_before(b, a) {
        Ordering::Greater
    } else {
        Ordering::Equal
    }
}

/// Sorts names with `itertools::Itertools::sorted_by`, which collects
/// them, sorts them with the sort of slices and hands them out again:
/// the same names, each as often as before, and none of them before an
/// earlier one by [`name_order`], which is an order on all names.
#[verifier::external_body]
pub(crate) fn sorted_names(names: Vec<String>) -> (r: Vec<String>)
    ensures
        r.deep_view().to_multiset() == names.deep_view().to_multiset(),
        ordered(r.deep_view()),
{
    let sorted = itertools::Itertools::sorted_by(
        names.into_iter(),
        |a, b| name_order(a.as_str(), b.as_str()),
    );
    itertools::Itertools::collect_vec(sorted)
}

} // verus!
