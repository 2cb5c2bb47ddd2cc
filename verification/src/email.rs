//! A string refined into an email address: it must contain an `@` sign.

use vstd::prelude::*;
use vstd::std_specs::iter::IteratorSpec;

verus! {

broadcast use vstd::string::next_postcondition, vstd::string::axiom_spec_iter;

/// Whether the character sequence contains an `@` sign anywhere.
pub open spec fn contains_at_sign(s: Seq<char>) -> bool {
    exists|i: int| 0 <= i < s.len() && s[i] == '@'
}

/// A string accepted as an email address.
#[derive(Debug)]
pub struct EmailString(pub String);

impl EmailString {
    /// Accepts `value` as an email address exactly when it contains an `@`
    /// sign; anything else is rejected.
    pub fn try_from(value: &str) -> (r: Result<EmailString, &'static str>)
        ensures
            contains_at_sign(value@) ==> (r matches Ok(e) && e.0@ == value@),
            !contains_at_sign(value@) ==> (r matches Err(m) && m@ == "Invalid email address"@),
    {
        let mut it = value.chars();
        loop
            invariant
                it.decrease() is Some,
                contains_at_sign(value@) <==> contains_at_sign(it.remaining()),
            ensures
                !contains_at_sign(value@),
            decreases it.decrease()->0,
        {
            let ghost before = it.remaining();
            match it.next() {
                Some(c) => {
                    if c == '@' {
                        proof {
                            assert(contains_at_sign(before)) by {
                                assert(before[0] == '@');
                            }
                        }
                        return Ok(EmailString(value.to_owned()));
                    }
                    proof {
                        let after = it.remaining();
                        assert(contains_at_sign(after) ==> contains_at_sign(before)) by {
                            if contains_at_sign(after) {
                                let i = choose|i: int|
                                    0 <= i < after.len() && after[i] == '@';
                                assert(before[i + 1] == '@');
                            }
                        }
                        assert(contains_at_sign(before) ==> contains_at_sign(after)) by {
                            if contains_at_sign(before) {
                                let i = choose|i: int|
                                    0 <= i < before.len() && before[i] == '@';
                                assert(i != 0);
                                assert(after[i - 1] == '@');
                            }
                        }
                    }
                },
                None => {
                    break ;
                },
            }
        }
        Err("Invalid email address")
    }
}

} // verus!
