//! Strings, as std handles them.
//!
//! The verifier knows a part of what std offers on strings. Here is what
//! the library uses beyond that part: each function of std with what the
//! library takes on trust of it. Nothing here is proved.
//!
//! Two results are named and not described, for std describes them by
//! pointing to the Unicode character database: the lowercase equivalent
//! of a text, and which characters are whitespace.

use crate::text::trimmed;
use vstd::prelude::*;
use vstd::utf8::{decode_utf8, valid_utf8};

verus! {

/// `str`'s `==` from std: two string slices are equal where they hold the
/// same characters in the same order.
pub assume_specification[ <str as PartialEq>::eq ](left: &str, right: &str) -> (same: bool)
    ensures
        same == (left@ == right@),
;

/// What `str::to_lowercase` makes of a text: its lowercase equivalent by
/// the rules of Unicode, which can differ in length from the text.
pub uninterp spec fn lowercase_of(text: Seq<char>) -> Seq<char>;

/// `str::to_lowercase` from std. The result is a function of the text
/// alone; nothing more is claimed of it.
pub assume_specification[ str::to_lowercase ](text: &str) -> (lowered: String)
    ensures
        lowered@ == lowercase_of(text@),
;

/// Whether a character is whitespace as `str::trim` takes it: whether it
/// has the White_Space property of Unicode. The characters that have it
/// are listed by the Unicode character database.
pub uninterp spec fn is_white_space(c: char) -> bool;

/// `str::trim` from std: the text without the whitespace that leads it
/// and the whitespace that trails it, so that what is left neither begins
/// nor ends with whitespace.
pub assume_specification[ str::trim ](text: &str) -> (inner: &str)
    ensures
        inner@ == trimmed(text@),
        inner@.len() > 0 ==> !is_white_space(inner@[0]) && !is_white_space(inner@.last()),
;

/// `std::str::from_utf8` from std, with its error dropped: the text that
/// the bytes encode, where they are well-formed UTF-8, and nothing where
/// they are not.
#[verifier::external_body]
pub(crate) fn utf8_text(bytes: &[u8]) -> (text: Option<&str>)
    ensures
        match text {
            Some(decoded) => valid_utf8(bytes@) && decoded@ == decode_utf8(bytes@),
            None => !valid_utf8(bytes@),
        },
{
    std::str::from_utf8(bytes).ok()
}

} // verus!
