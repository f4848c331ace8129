//! Contracts for the few string operations of std that vstd leaves
//! unspecified.

use vstd::prelude::*;

verus! {

/// Relies on std's `String::push`: appends one character to the string.
pub assume_specification[ String::push ](s: &mut String, ch: char)
    ensures
        final(s)@ == old(s)@.push(ch),
;

/// Relies on std's `String::push_str`: appends the characters of `string`.
pub assume_specification[ String::push_str ](s: &mut String, string: &str)
    ensures
        final(s)@ == old(s)@ + string@,
;

/// The characters of a string once leading and trailing whitespace are
/// removed, exactly as std's `str::trim` computes it: a function of the
/// input characters alone.
pub uninterp spec fn trim_of(s: Seq<char>) -> Seq<char>;

/// Relies on std's `str::trim`: returns the slice with leading and trailing
/// whitespace removed; the result depends on the input characters alone.
#[verifier::external_body]
pub(crate) fn trim_str(s: &str) -> (r: &str)
    ensures
        r@ == trim_of(s@),
{
    s.trim()
}

} // verus!
