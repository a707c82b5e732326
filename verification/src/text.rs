//! Small operations on text that selector parsing is built from.

use vstd::prelude::*;
use vstd::utf8::{encode_utf8, encode_utf8_decode_utf8};

verus! {

/// The lowercase form of a text, as Unicode defines it.
pub uninterp spec fn lowercase_of(text: Seq<char>) -> Seq<char>;

/// Calls `str::to_lowercase`.
///
/// Trusted: the result is taken to be the Unicode lowercase form of `text`,
/// which depends on `text` alone. Nothing else is claimed of it.
#[verifier::external_body]
pub(crate) fn to_lowercase(text: &str) -> (lowered: String)
    ensures
        lowered@ == lowercase_of(text@),
{
    text.to_lowercase()
}

/// Tells whether two texts hold the same characters.
pub(crate) fn same_text(left: &str, right: &str) -> (same: bool)
    ensures
        same == (left@ == right@),
{
    let left_bytes = left.as_bytes();
    let right_bytes = right.as_bytes();
    proof {
        // A text is determined by its UTF-8 encoding.
        encode_utf8_decode_utf8(left@);
        encode_utf8_decode_utf8(right@);
    }
    if left_bytes.len() != right_bytes.len() {
        return false;
    }
    let mut index: usize = 0;
    while index < left_bytes.len()
        invariant
            left_bytes@ == encode_utf8(left@),
            right_bytes@ == encode_utf8(right@),
            left_bytes@.len() == right_bytes@.len(),
            index <= left_bytes@.len(),
            left_bytes@.take(index as int) == right_bytes@.take(index as int),
        decreases left_bytes@.len() - index,
    {
        if left_bytes[index] != right_bytes[index] {
            return false;
        }
        assert(left_bytes@.take(index + 1) == left_bytes@.take(index as int).push(
            left_bytes@[index as int],
        ));
        assert(right_bytes@.take(index + 1) == right_bytes@.take(index as int).push(
            right_bytes@[index as int],
        ));
        index += 1;
    }
    assert(left_bytes@ == left_bytes@.take(index as int));
    assert(right_bytes@ == right_bytes@.take(index as int));
    true
}

} // verus!
