use vstd::prelude::*;

use crate::reachability::views_of;

verus! {

/// Relies on rand's `random_range` over the thread-local generator: a
/// uniform draw from the half-open range `0 .. n`, so every index below `n`
/// can come out and none outside it. Of a random value nothing more can be
/// promised than the range that bounds every outcome.
#[verifier::external_body]
pub(crate) fn random_index(n: usize) -> (i: usize)
    requires
        1 <= n,
    ensures
        i < n,
{
    rand::random_range(0..n)
}

/// Relies on rand's `SliceRandom::shuffle`: an in-place permutation of the
/// elements, picked uniformly among all permutations, with no element added,
/// dropped or changed.
#[verifier::external_body]
pub fn shuffle_hosts(hosts: &Vec<String>) -> (r: Vec<String>)
    ensures
        r@.len() == hosts@.len(),
        views_of(r@).to_multiset() == views_of(hosts@).to_multiset(),
{
    let mut v = hosts.clone();
    rand::seq::SliceRandom::shuffle(v.as_mut_slice(), &mut rand::rng());
    v
}

} // verus!
