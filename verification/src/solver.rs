//! A triple of values that can be rotated, and a solver that strikes from a
//! working set every triple matching an expected one in any of its three
//! rotations.

use vstd::prelude::*;
use vstd::std_specs::cmp::PartialEqSpec;

verus! {

/// A triple of like values.
#[derive(Clone, Debug, PartialEq)]
pub struct Trinity<T> {
    pub a: T,
    pub b: T,
    pub c: T,
}

/// One rotation of a triple: each field moves one place forward.
pub open spec fn rotated<T>(t: Trinity<T>) -> Trinity<T> {
    Trinity { a: t.b, b: t.c, c: t.a }
}

/// Whether two triples agree field by field, under the element equality.
pub open spec fn trinity_eq<T: PartialEq>(x: Trinity<T>, y: Trinity<T>) -> bool {
    x.a.eq_spec(&y.a) && x.b.eq_spec(&y.b) && x.c.eq_spec(&y.c)
}

/// Whether `t` equals `e` in any of its three rotations.
pub open spec fn matches_some_rotation<T: PartialEq>(t: Trinity<T>, e: Trinity<T>) -> bool {
    ||| trinity_eq(t, e)
    ||| trinity_eq(rotated(t), e)
    ||| trinity_eq(rotated(rotated(t)), e)
}

/// The triples of `s` that match `e` in no rotation, in their original order
/// and untouched.
pub open spec fn survivors<T: PartialEq>(s: Seq<Trinity<T>>, e: Trinity<T>) -> Seq<Trinity<T>>
    decreases s.len(),
{
    if s.len() == 0 {
        Seq::empty()
    } else if matches_some_rotation(s[0], e) {
        survivors(s.drop_first(), e)
    } else {
        seq![s[0]] + survivors(s.drop_first(), e)
    }
}

impl<T: Clone> Trinity<T> {
    /// Rotates the triple one place forward.
    pub fn rotate(&mut self)
        ensures
            *final(self) == rotated(*old(self)),
    {
        core::mem::swap(&mut self.a, &mut self.b);
        core::mem::swap(&mut self.b, &mut self.c);
    }
}

/// A working set of unsolved triples and the expected solution.
#[derive(Debug)]
pub struct Solver<T> {
    pub expected: Trinity<T>,
    pub unsolved: Vec<Trinity<T>>,
}

impl<T: Clone + PartialEq> Solver<T> {
    /// Removes from `unsolved` every triple that matches `expected` in any of
    /// its three rotations; the others stay, in order and untouched.
    pub fn resolve(&mut self)
        ensures
            final(self).expected == old(self).expected,
            T::obeys_eq_spec() ==> final(self).unsolved@ == survivors(
                old(self).unsolved@,
                old(self).expected,
            ),
    {
        let mut kept: Vec<Trinity<T>> = Vec::new();
        let ghost orig = self.unsolved@;
        let ghost e = self.expected;
        loop
            invariant
                self.expected == e,
                T::obeys_eq_spec() ==> kept@ + survivors(self.unsolved@, e) == survivors(orig, e),
            ensures
                self.unsolved@.len() == 0,
                self.expected == e,
                T::obeys_eq_spec() ==> kept@ + survivors(self.unsolved@, e) == survivors(orig, e),
            decreases self.unsolved@.len(),
        {
            if self.unsolved.len() == 0 {
                break ;
            }
            let mut t = self.unsolved.remove(0);
            let mut matched = false;
            if t.a == self.expected.a && t.b == self.expected.b && t.c == self.expected.c {
                matched = true;
            }
            t.rotate();
            if t.a == self.expected.a && t.b == self.expected.b && t.c == self.expected.c {
                matched = true;
            }
            t.rotate();
            if t.a == self.expected.a && t.b == self.expected.b && t.c == self.expected.c {
                matched = true;
            }
            t.rotate();
            if !matched {
                kept.push(t);
            }
        }
        self.unsolved = kept;
        proof {
            if T::obeys_eq_spec() {
                assert(self.unsolved@ =~= survivors(orig, e));
            }
        }
    }
}

} // verus!
