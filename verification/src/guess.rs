//! The number-guessing game's parsing: reading the secret number from the
//! command line's argument and a guess from an input line. The caller does
//! the reading and hands the plain strings in.

use vstd::prelude::*;
use vstd::std_specs::iter::IteratorSpec;

verus! {

broadcast use vstd::string::next_postcondition, vstd::string::axiom_spec_iter;

/// Whether `c` is a decimal digit: its scalar value lies between those of
/// `0` and `9`.
pub open spec fn is_digit(c: char) -> bool {
    48 <= (c as u32) <= 57
}

/// The value of a digit character.
pub open spec fn digit_val(c: char) -> int {
    (c as u32) - 48
}

/// Whether `s` is a non-empty run of decimal digits.
pub open spec fn all_digits(s: Seq<char>) -> bool {
    s.len() > 0 && forall|i: int| 0 <= i < s.len() ==> is_digit(#[trigger] s[i])
}

/// The number written by a run of decimal digits, most significant first.
pub open spec fn digits_value(s: Seq<char>) -> int
    decreases s.len(),
{
    if s.len() == 0 {
        0
    } else {
        digits_value(s.drop_last()) * 10 + digit_val(s.last())
    }
}

/// A run of digits never writes a negative number.
proof fn lemma_digits_value_nonneg(s: Seq<char>)
    requires
        forall|i: int| 0 <= i < s.len() ==> is_digit(#[trigger] s[i]),
    ensures
        digits_value(s) >= 0,
    decreases s.len(),
{
    if s.len() > 0 {
        lemma_digits_value_nonneg(s.drop_last());
    }
}

/// A prefix of a digit run never writes a larger number than the whole run.
proof fn lemma_digits_value_prefix_le(s: Seq<char>, k: int)
    requires
        0 <= k <= s.len(),
        forall|i: int| 0 <= i < s.len() ==> is_digit(#[trigger] s[i]),
    ensures
        digits_value(s.take(k)) <= digits_value(s),
    decreases s.len() - k,
{
    if k == s.len() {
        assert(s.take(k) =~= s);
    } else {
        lemma_digits_value_prefix_le(s, k + 1);
        assert(s.take(k + 1).drop_last() =~= s.take(k));
        assert(s.take(k + 1).last() == s[k]);
        lemma_digits_value_nonneg(s.take(k));
    }
}

/// Reads a number from a non-empty run of decimal digits; anything else, an
/// empty string, or a value beyond `u32::MAX` gives nothing.
pub fn parse_u32(s: &str) -> (r: Option<u32>)
    ensures
        all_digits(s@) && digits_value(s@) <= u32::MAX ==> r == Some(digits_value(s@) as u32),
        !(all_digits(s@) && digits_value(s@) <= u32::MAX) ==> r is None,
{
    let mut it = s.chars();
    let mut acc: u32 = 0;
    let mut any = false;
    let ghost mut k: int = 0;
    loop
        invariant
            it.decrease() is Some,
            0 <= k <= s@.len(),
            it.remaining() == s@.skip(k),
            any <==> k > 0,
            forall|i: int| 0 <= i < k ==> is_digit(#[trigger] s@[i]),
            acc == digits_value(s@.take(k)),
        ensures
            k == s@.len(),
            any <==> k > 0,
            forall|i: int| 0 <= i < k ==> is_digit(#[trigger] s@[i]),
            acc == digits_value(s@.take(k)),
        decreases it.decrease()->0,
    {
        let ghost before = it.remaining();
        match it.next() {
            Some(c) => {
                proof {
                    assert(before[0] == s@[k]);
                    assert(before.drop_first() =~= s@.skip(k + 1));
                }
                let cv = c as u32;
                if cv < 48 || cv > 57 {
                    proof {
                        assert(!is_digit(s@[k]));
                    }
                    return None;
                }
                let d = cv - 48;
                let wide: u64 = (acc as u64) * 10 + (d as u64);
                proof {
                    assert(c == s@[k]);
                    assert(is_digit(s@[k]));
                    assert(s@.take(k + 1).drop_last() =~= s@.take(k));
                    assert(s@.take(k + 1).last() == s@[k]);
                }
                if wide > 0xffff_ffffu64 {
                    proof {
                        if all_digits(s@) {
                            lemma_digits_value_prefix_le(s@, k + 1);
                        }
                    }
                    return None;
                }
                acc = wide as u32;
                any = true;
                proof {
                    k = k + 1;
                }
            },
            None => {
                break ;
            },
        }
    }
    if !any {
        return None;
    }
    proof {
        assert(s@.take(s@.len() as int) =~= s@);
    }
    Some(acc)
}

/// What `str::trim` leaves of a character sequence: the sequence with its
/// leading and trailing whitespace removed. The result depends on the
/// characters alone.
pub uninterp spec fn trimmed_of(s: Seq<char>) -> Seq<char>;

/// Relies on str::trim: removes leading and trailing whitespace, a function
/// of the characters alone.
#[verifier::external_body]
fn trim_str(s: &str) -> (r: &str)
    ensures
        r@ == trimmed_of(s@),
{
    s.trim()
}

/// Reads a guess from one input line: the line is trimmed of surrounding
/// whitespace and must then be a run of decimal digits naming a number up to
/// `u32::MAX`; anything else gives nothing.
pub fn guess_from_line(line: &str) -> (r: Option<u32>)
    ensures
        ({
            let t = trimmed_of(line@);
            if all_digits(t) && digits_value(t) <= u32::MAX {
                r == Some(digits_value(t) as u32)
            } else {
                r is None
            }
        }),
{
    parse_u32(trim_str(line))
}

/// Reads the secret number from the game's one command-line argument: absent
/// arguments are reported, and the argument, trimmed of surrounding
/// whitespace, must be a run of decimal digits naming a number up to
/// `u32::MAX`.
pub fn secret_from_arg(arg: Option<String>) -> (r: Result<u32, &'static str>)
    ensures
        arg is None ==> (r matches Err(m) && m@ == "No secret number is specified"@),
        arg matches Some(a) ==> ({
            let t = trimmed_of(a@);
            if all_digits(t) && digits_value(t) <= u32::MAX {
                r == Ok::<u32, &'static str>(digits_value(t) as u32)
            } else {
                r matches Err(m) && m@ == "Secret number is not a number"@
            }
        }),
{
    match arg {
        None => Err("No secret number is specified"),
        Some(a) => {
            match parse_u32(trim_str(a.as_str())) {
                Some(n) => Ok(n),
                None => Err("Secret number is not a number"),
            }
        },
    }
}

} // verus!
