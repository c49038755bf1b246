//! The two operations on `String` that the prompt line and the status
//! bar need.

use vstd::prelude::*;

verus! {

/// Appends `c` to `s`. This is `String::push`, taken on trust: the string
/// afterwards holds the characters it held before, followed by `c`.
#[verifier::external_body]
pub(crate) fn push_char(s: &mut String, c: char)
    ensures
        final(s)@ == old(s)@.push(c),
{
    s.push(c);
}

/// Removes the last character of `s`. This is `String::pop`, taken on
/// trust: it returns the last character and leaves the ones before it, or
/// returns `None` and leaves an empty string as it is.
#[verifier::external_body]
pub(crate) fn pop_char(s: &mut String) -> (last: Option<char>)
    ensures
        old(s)@.len() > 0 ==> last == Some(old(s)@.last()) && final(s)@ == old(s)@.drop_last(),
        old(s)@.len() == 0 ==> last.is_none() && final(s)@ == old(s)@,
{
    s.pop()
}

} // verus!
