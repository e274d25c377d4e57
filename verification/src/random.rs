//! The injected source of randomness: a uniform integer generator over
//! a half-open range. Only the call into the generator is trusted; the
//! range arithmetic around it is verified.

use vstd::prelude::*;

verus! {

/// Relies on rand::rng() and rand::Rng::random_range over `0..n`: the
/// sample is uniform in the half-open range and therefore always below
/// `n`. rand panics on an empty range, so `n` must be positive.
#[verifier::external_body]
pub(crate) fn random_below(n: usize) -> (r: usize)
    requires
        n > 0,
    ensures
        r < n,
{
    let mut rng = rand::rng();
    rand::Rng::random_range(&mut rng, 0..n)
}

/// A uniformly random value in the half-open range `min..max`.
pub fn random_range(min: i16, max: i16) -> (r: i16)
    requires
        min < max,
    ensures
        min <= r < max,
{
    let span = (max as i32 - min as i32) as usize;
    let offset = random_below(span);
    (min as i32 + offset as i32) as i16
}

} // verus!
