//! The library's two draws of randomness, each behind a trusted wrapper
//! around the `rand` crate.  Nothing is assumed of which value comes back,
//! only of its range or membership.

use vstd::prelude::*;

verus! {

/// Relies on `rand::Rng::gen_range` over an inclusive range: the sample
/// lies within the (non-empty) range.
#[verifier::external_body]
pub fn random_in_range(lo: u32, hi: u32) -> (r: u32)
    requires
        lo <= hi,
    ensures
        lo <= r <= hi,
{
    rand::Rng::gen_range(&mut rand::thread_rng(), lo..=hi)
}

/// Relies on `rand::seq::SliceRandom::choose`: `None` exactly on an empty
/// slice, otherwise one of the slice's own elements.
#[verifier::external_body]
pub fn choose_random<T: Copy>(items: &Vec<T>) -> (r: Option<T>)
    ensures
        r is None <==> items@.len() == 0,
        r matches Some(x) ==> exists|i: int| 0 <= i < items@.len() && items@[i] == x,
{
    rand::seq::SliceRandom::choose(items.as_slice(), &mut rand::thread_rng()).copied()
}

} // verus!
