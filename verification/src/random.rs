//! A container of three values that hands out one of them at random.

use vstd::prelude::*;

verus! {

/// Three values, one of which is picked at random on each read.
pub struct Random<T> {
    pub values: [T; 3],
}

impl<T> Random<T> {
    /// Wraps the three candidate values.
    pub fn new(a: T, b: T, c: T) -> (r: Self)
        ensures
            r.values@ == seq![a, b, c],
    {
        let r = Random { values: [a, b, c] };
        proof {
            assert(r.values@ =~= seq![a, b, c]);
        }
        r
    }

    /// One of the three values, picked at random; nothing more is promised
    /// of which one.
    pub fn pick(&self) -> (r: &T)
        ensures
            exists|i: int| 0 <= i < 3 && *r == self.values@[i],
    {
        let idx = crate::rng::sample_index_of_three();
        &self.values[idx]
    }
}

} // verus!
