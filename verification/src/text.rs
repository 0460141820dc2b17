//! The text: moved into the function that measures it.

use vstd::prelude::*;
use vstd::utf8::{encode_utf8, is_ascii_chars, is_ascii_chars_encode_utf8};

verus! {

/// Length of a text as the machine stores it: the number of bytes in its
/// UTF-8 encoding.
pub open spec fn byte_length(text: Seq<char>) -> nat {
    encode_utf8(text).len()
}

/// A text made of ASCII characters alone takes one byte for each of them.
pub proof fn lemma_ascii_byte_length(text: Seq<char>)
    requires
        is_ascii_chars(text),
    ensures
        byte_length(text) == text.len(),
{
    is_ascii_chars_encode_utf8(text);
}

/// Takes a text over from the caller and returns its length in bytes, which
/// for an ASCII text is its number of characters. The text is moved in: the
/// caller's binding is spent by the call, and the text is released before the
/// function returns.
pub fn calculate_length(text: String) -> (length: usize)
    ensures
        length == byte_length(text@),
        is_ascii_chars(text@) ==> length == text@.len(),
{
    proof {
        if is_ascii_chars(text@) {
            lemma_ascii_byte_length(text@);
        }
    }
    text.as_str().as_bytes().len()
}

} // verus!
