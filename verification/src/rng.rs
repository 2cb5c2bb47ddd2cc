//! The one place the library draws randomness.

use vstd::prelude::*;

verus! {

/// Relies on rand's `RngExt::random_range` over the range `0..3`: the drawn
/// value always lies in the sampled range, which is not empty. Nothing more
/// is assumed of a random draw.
#[verifier::external_body]
pub fn sample_index_of_three() -> (r: usize)
    ensures
        r < 3,
{
    rand::RngExt::random_range(&mut rand::rng(), 0usize..3usize)
}

} // verus!
