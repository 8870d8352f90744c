//! The finished line: a phrase with a capital first letter and a full stop.

use crate::grammar::{text_result, GrammarError};
use crate::syntax::{node_text, SyntaxNode};
use crate::text::{to_uppercase, uppercase_of};
use vstd::prelude::*;

verus! {

/// The text with `initial` in the place of its first character. An empty
/// text has no first character and stays empty.
pub open spec fn with_initial(text: Seq<char>, initial: Seq<char>) -> Seq<char> {
    if text.len() == 0 {
        text
    } else {
        initial + text.skip(1)
    }
}

/// The text with its first character in upper case.
pub open spec fn capitalized(text: Seq<char>) -> Seq<char> {
    if text.len() == 0 {
        text
    } else {
        with_initial(text, uppercase_of(text[0]))
    }
}

/// The line that is shown for a phrase: its text, capitalized, and a full
/// stop.
pub open spec fn sentence_text(text: Seq<char>) -> Seq<char> {
    capitalized(text).push('.')
}

/// Puts `initial` in the place of the first character of the text.
pub fn replace_initial(text: &str, initial: &str) -> (r: String)
    ensures
        r@ == with_initial(text@, initial@),
{
    let len = text.unicode_len();
    if len == 0 {
        return String::new();
    }
    let mut string = String::from_str(initial);
    string.append(text.substring_char(1, len));
    assert(text@.subrange(1, len as int) =~= text@.skip(1));
    string
}

/// Turns the first character of the text into upper case.
pub fn capitalize(s: &str) -> (r: String)
    ensures
        r@ == capitalized(s@),
{
    if s.is_empty() {
        String::new()
    } else {
        let initial = to_uppercase(s.get_char(0));
        replace_initial(s, initial.as_str())
    }
}

/// Makes the line that is shown for a phrase of the given text.
pub fn finish_sentence(text: &str) -> (r: String)
    ensures
        r@ == sentence_text(text@),
{
    let mut value = capitalize(text);
    value.push('.');
    value
}

/// Writes a phrase out as a finished line. It fails where the phrase does.
pub fn sentence(node: &SyntaxNode) -> (r: Result<String, GrammarError>)
    ensures
        text_result(r) == match node_text(node@) {
            Ok(text) => Ok::<Seq<char>, GrammarError>(sentence_text(text)),
            Err(e) => Err(e),
        },
{
    match node.to_string() {
        Ok(text) => Ok(finish_sentence(text.as_str())),
        Err(e) => Err(e),
    }
}

} // verus!
