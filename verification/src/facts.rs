//! A fact dispenser: for a handful of container types it serves one of three
//! fixed facts about that type, picked at random.

use std::marker::PhantomData;
use vstd::prelude::*;

verus! {

/// A dispenser of facts about the type `T`.
pub struct Fact<T> {
    _marker: PhantomData<T>,
}

impl<T> Fact<T> {
    /// A dispenser for `T`.
    pub fn new() -> Self {
        Fact { _marker: PhantomData }
    }
}

impl<T> Fact<Vec<T>> {
    /// One of three facts about vectors, picked at random.
    pub fn fact(&self) -> (r: &'static str)
        ensures
            r@ == "Vec is heap-allocated."@ || r@ == "Vec may re-allocate on growing."@ || r@
                == "Vec has an amortized O(1) push operation."@,
    {
        let idx = crate::rng::sample_index_of_three();
        if idx == 0 {
            "Vec is heap-allocated."
        } else if idx == 1 {
            "Vec may re-allocate on growing."
        } else {
            "Vec has an amortized O(1) push operation."
        }
    }
}

impl Fact<String> {
    /// One of three facts about strings, picked at random.
    pub fn fact(&self) -> (r: &'static str)
        ensures
            r@ == "String is UTF-8 encoded."@ || r@ == "String is dynamically sized."@ || r@
                == "String is backed by a Vec<u8>."@,
    {
        let idx = crate::rng::sample_index_of_three();
        if idx == 0 {
            "String is UTF-8 encoded."
        } else if idx == 1 {
            "String is dynamically sized."
        } else {
            "String is backed by a Vec<u8>."
        }
    }
}

impl<T> Fact<Option<T>> {
    /// One of three facts about optional values, picked at random.
    pub fn fact(&self) -> (r: &'static str)
        ensures
            r@ == "Option represents an optional value."@ || r@ == "Option can be None or Some."@
                || r@ == "Option is commonly used to handle nullable values."@,
    {
        let idx = crate::rng::sample_index_of_three();
        if idx == 0 {
            "Option represents an optional value."
        } else if idx == 1 {
            "Option can be None or Some."
        } else {
            "Option is commonly used to handle nullable values."
        }
    }
}

impl<T, E> Fact<Result<T, E>> {
    /// One of three facts about result values, picked at random.
    pub fn fact(&self) -> (r: &'static str)
        ensures
            r@ == "Result represents success or failure."@ || r@
                == "Result has Ok and Err variants."@ || r@ == "Result is used for error handling."@,
    {
        let idx = crate::rng::sample_index_of_three();
        if idx == 0 {
            "Result represents success or failure."
        } else if idx == 1 {
            "Result has Ok and Err variants."
        } else {
            "Result is used for error handling."
        }
    }
}

} // verus!
