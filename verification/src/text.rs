//! The two operations of `std::string::String` that the input buffer is
//! edited with. Their contracts are assumed, not proved: they state what
//! the standard library documents.

use vstd::prelude::*;

verus! {

/// Assumed of `String::push`: it appends the given character to the end of
/// the string and leaves the characters before it as they were.
pub assume_specification[ String::push ](s: &mut String, ch: char)
    ensures
        final(s)@ == old(s)@.push(ch),
;

/// Assumed of `String::pop`: it removes the last character and returns it;
/// on an empty string it returns `None` and changes nothing.
pub assume_specification[ String::pop ](s: &mut String) -> (last: Option<char>)
    ensures
        old(s)@.len() == 0 ==> last is None && final(s)@ == old(s)@,
        old(s)@.len() > 0 ==> last == Some(old(s)@.last()) && final(s)@ == old(s)@.drop_last(),
;

} // verus!
