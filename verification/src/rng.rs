//! Randomness, supplied by the `rand` crate behind trusted wrappers. Nothing
//! is assumed about an outcome beyond its range; every caller's contract
//! holds whatever value comes back.

use vstd::prelude::*;

use rand::Rng;

verus! {

/// Relies on `rand::Rng::gen_range` over `0..n`: a uniformly random value
/// below `n` (the call panics on an empty range, hence `n > 0`).
#[verifier::external_body]
pub(crate) fn random_below(n: u32) -> (r: u32)
    requires
        n > 0,
    ensures
        r < n,
{
    rand::thread_rng().gen_range(0..n)
}

/// Relies on `rand::Rng::gen_range` over `x1..x2` and `y1..y2`: a uniformly
/// random point with each coordinate in its half-open range (the call panics
/// on an empty range).
#[verifier::external_body]
pub fn random_point(x1: i32, x2: i32, y1: i32, y2: i32) -> (r: (i32, i32))
    requires
        x1 < x2,
        y1 < y2,
    ensures
        x1 <= r.0 < x2,
        y1 <= r.1 < y2,
{
    let mut rng = rand::thread_rng();
    let x = rng.gen_range(x1..x2);
    let y = rng.gen_range(y1..y2);
    (x, y)
}

/// A random trial that succeeds with probability `percent` out of 100:
/// never for zero, always for one hundred or more.
pub fn chance_percent(percent: u32) -> (r: bool)
    ensures
        percent == 0 ==> !r,
        percent >= 100 ==> r,
{
    let roll = random_below(100);
    roll < percent
}

} // verus!
