//! Small trusted shims over `String` operations that vstd leaves unspecified.

use vstd::prelude::*;

verus! {

/// Relies on String::push: appends exactly the given character at the end.
#[verifier::external_body]
pub(crate) fn push_char(s: &mut String, c: char)
    ensures
        final(s)@ == old(s)@.push(c),
{
    s.push(c);
}

} // verus!
