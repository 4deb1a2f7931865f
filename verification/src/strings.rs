//! Contracts for the few string operations of std that vstd leaves
//! unspecified.

use vstd::prelude::*;

verus! {

/// Relies on std's `String::push`: appending one character to the end of the
/// string, so that the new view is the old view with the character pushed.
pub assume_specification[ String::push ](s: &mut String, c: char)
    ensures
        final(s)@ == old(s)@.push(c),
;

} // verus!
