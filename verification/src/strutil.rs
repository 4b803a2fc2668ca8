//! Small string-building helper shared by the textual field encoders.

use vstd::prelude::*;

verus! {

/// Relies on std's `String::push`: appends exactly one character to the end
/// of the string.
#[verifier::external_body]
pub(crate) fn push_char(s: &mut String, c: char)
    ensures
        final(s)@ == old(s)@.push(c),
{
    s.push(c)
}

} // verus!
