//! What the library assumes of `String` and `char` beyond the
//! specifications that vstd supplies.

use vstd::prelude::*;

verus! {

/// `String::push` appends one character at the end of the string and
/// leaves the characters before it as they were.
pub assume_specification[ String::push ](s: &mut String, c: char)
    ensures
        final(s)@ == old(s)@.push(c),
;

/// The uppercase mapping of a character as `char::to_uppercase` yields it:
/// the characters that stand for the capital of `c`, or `c` itself where it
/// has none. The mapping is that of the Unicode tables built into the
/// standard library and takes no locale into account.
pub uninterp spec fn uppercase_of(c: char) -> Seq<char>;

/// Calls `char::to_uppercase` and collects the characters that it yields.
#[verifier::external_body]
pub(crate) fn to_uppercase(c: char) -> (r: String)
    ensures
        r@ == uppercase_of(c),
{
    c.to_uppercase().collect()
}

} // verus!
