use unicode_width::UnicodeWidthChar;
use unicode_width::UnicodeWidthStr;
use vstd::prelude::*;

verus! {

/// Display width in terminal columns that `UnicodeWidthStr::width` of `unicode-width` gives a text.
pub uninterp spec fn unicode_str_width(s: Seq<char>) -> usize;

/// Display width that `UnicodeWidthChar::width` of `unicode-width` gives a character; `None`
/// for a control character.
pub uninterp spec fn unicode_char_width(c: char) -> Option<usize>;

/// Calls `UnicodeWidthStr::width`; the contract names its result, which depends on the text alone.
#[verifier::external_body]
pub(crate) fn str_width(s: &str) -> (r: usize)
    ensures
        r == unicode_str_width(s@),
{
    UnicodeWidthStr::width(s)
}

/// Calls `UnicodeWidthChar::width`; the contract names its result, which depends on the character alone.
#[verifier::external_body]
pub(crate) fn char_width(c: char) -> (r: Option<usize>)
    ensures
        r == unicode_char_width(c),
{
    UnicodeWidthChar::width(c)
}

} // verus!
